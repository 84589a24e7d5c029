use vstd::prelude::*;

use crate::names::{DirEntryInfo, context_names, context_names_of, name_order, texts};
use crate::path::{join, path_join};
use crate::validate_name::is_path_component;
use crate::vcs::{Vcs, vcs_name};

verus! {

/// Where contexts, tokens and the active context are kept: under a base
/// directory, one directory per VCS and in it one directory per context.
#[derive(Debug)]
pub struct Storage {
    base_dir: String,
}

pub open spec fn context_dir_of(base: Seq<char>, vcs: Vcs, name: Seq<char>) -> Seq<char> {
    path_join(path_join(base, vcs_name(vcs)), name)
}

pub open spec fn configuration_path_of(base: Seq<char>, vcs: Vcs, name: Seq<char>) -> Seq<char> {
    path_join(context_dir_of(base, vcs, name), "configuration.toml"@)
}

pub open spec fn token_path_of(base: Seq<char>, vcs: Vcs, name: Seq<char>) -> Seq<char> {
    path_join(context_dir_of(base, vcs, name), "token"@)
}

pub open spec fn active_path_of(base: Seq<char>) -> Seq<char> {
    path_join(base, "active"@)
}

/// The names of the saved contexts of each VCS.
#[derive(Debug)]
pub struct ContextList {
    pub github: Vec<String>,
    pub gitlab: Vec<String>,
}

/// The names of the saved contexts of each VCS, as texts.
pub struct ContextListView {
    pub github: Seq<Seq<char>>,
    pub gitlab: Seq<Seq<char>>,
}

pub open spec fn texts_of(names: Seq<String>) -> Seq<Seq<char>> {
    names.map_values(|n: String| n@)
}

impl View for ContextList {
    type V = ContextListView;

    open spec fn view(&self) -> ContextListView {
        ContextListView { github: texts_of(self.github@), gitlab: texts_of(self.gitlab@) }
    }
}

impl ContextListView {
    pub open spec fn names(self, vcs: Vcs) -> Seq<Seq<char>> {
        match vcs {
            Vcs::Github => self.github,
            Vcs::Gitlab => self.gitlab,
        }
    }

    pub open spec fn is_empty(self) -> bool {
        self.github.len() == 0 && self.gitlab.len() == 0
    }
}

impl ContextList {
    pub fn names(&self, vcs: Vcs) -> (r: &Vec<String>)
        ensures
            texts_of(r@) == self@.names(vcs),
    {
        match vcs {
            Vcs::Github => &self.github,
            Vcs::Gitlab => &self.gitlab,
        }
    }

    /// The contexts found in the GitHub and GitLab directories of the
    /// storage, each group in listing order.
    pub fn from_entries(github_entries: Vec<DirEntryInfo>, gitlab_entries: Vec<DirEntryInfo>) -> (r: ContextList)
        ensures
            r@.github == context_names_of(github_entries@).sort_by(name_order()),
            r@.gitlab == context_names_of(gitlab_entries@).sort_by(name_order()),
    {
        let github = context_names(github_entries);
        let gitlab = context_names(gitlab_entries);
        proof {
            assert(texts_of(github@) == texts(github@));
            assert(texts_of(gitlab@) == texts(gitlab@));
        }
        ContextList { github, gitlab }
    }

    pub fn is_empty(&self) -> (r: bool)
        ensures
            r == self@.is_empty(),
    {
        self.github.len() == 0 && self.gitlab.len() == 0
    }
}

impl ContextListView {
    /// The first context in listing order: GitHub contexts, then GitLab
    /// ones.
    pub open spec fn first_position(self) -> Option<(Vcs, int)> {
        if self.github.len() > 0 {
            Some((Vcs::Github, 0))
        } else if self.gitlab.len() > 0 {
            Some((Vcs::Gitlab, 0))
        } else {
            None
        }
    }

    /// The context that follows the one at `index` of `vcs` in listing
    /// order.
    pub open spec fn next_position(self, vcs: Vcs, index: int) -> Option<(Vcs, int)> {
        match vcs {
            Vcs::Github => if index + 1 < self.github.len() {
                Some((Vcs::Github, index + 1))
            } else if self.gitlab.len() > 0 {
                Some((Vcs::Gitlab, 0))
            } else {
                None
            },
            Vcs::Gitlab => if index + 1 < self.gitlab.len() {
                Some((Vcs::Gitlab, index + 1))
            } else {
                None
            },
        }
    }

    pub open spec fn has_position(self, vcs: Vcs, index: int) -> bool {
        0 <= index < self.names(vcs).len()
    }
}

impl ContextList {
    pub fn first_position(&self) -> (r: Option<(Vcs, usize)>)
        ensures
            match r {
                Some((v, i)) => self@.first_position() == Some((v, i as int)),
                None => self@.first_position() is None,
            },
    {
        if self.github.len() > 0 {
            Some((Vcs::Github, 0))
        } else if self.gitlab.len() > 0 {
            Some((Vcs::Gitlab, 0))
        } else {
            None
        }
    }

    pub fn next_position(&self, vcs: Vcs, index: usize) -> (r: Option<(Vcs, usize)>)
        requires
            self@.has_position(vcs, index as int),
        ensures
            match r {
                Some((v, i)) => self@.next_position(vcs, index as int) == Some((v, i as int)),
                None => self@.next_position(vcs, index as int) is None,
            },
    {
        match vcs {
            Vcs::Github => if index < self.github.len() - 1 {
                Some((Vcs::Github, index + 1))
            } else if self.gitlab.len() > 0 {
                Some((Vcs::Gitlab, 0))
            } else {
                None
            },
            Vcs::Gitlab => if index < self.gitlab.len() - 1 {
                Some((Vcs::Gitlab, index + 1))
            } else {
                None
            },
        }
    }

    pub fn has_position(&self, vcs: Vcs, index: usize) -> (r: bool)
        ensures
            r == self@.has_position(vcs, index as int),
    {
        index < self.names(vcs).len()
    }

    /// The name of the context at `index` of `vcs`.
    pub fn name_at(&self, vcs: Vcs, index: usize) -> (r: &String)
        requires
            self@.has_position(vcs, index as int),
        ensures
            r@ == self@.names(vcs)[index as int],
    {
        let names = self.names(vcs);
        &names[index]
    }
}

/// Positions in listing order always name a context.
pub proof fn lemma_positions_valid(list: ContextListView)
    ensures
        list.first_position() matches Some((v, i)) ==> list.has_position(v, i),
        forall|vcs: Vcs, index: int|
            list.has_position(vcs, index) ==> (#[trigger] list.next_position(vcs, index) matches Some((v, i))
                ==> list.has_position(v, i)),
{
}

impl ContextListView {
    /// The place of a context in listing order: GitHub contexts first.
    pub open spec fn rank(self, vcs: Vcs, index: int) -> int {
        match vcs {
            Vcs::Github => index,
            Vcs::Gitlab => self.github.len() + index,
        }
    }

    /// How many contexts the listing holds.
    pub open spec fn total(self) -> int {
        (self.github.len() + self.gitlab.len()) as int
    }

    /// The position of the context of rank `rank` in listing order.
    pub open spec fn position_at(self, rank: int) -> (Vcs, int) {
        if rank < self.github.len() {
            (Vcs::Github, rank)
        } else {
            (Vcs::Gitlab, rank - self.github.len())
        }
    }

    /// Whether each group of names is no longer than a vector can be.
    pub open spec fn fits(self) -> bool {
        self.github.len() <= usize::MAX && self.gitlab.len() <= usize::MAX
    }
}

/// Ranks and positions name each other one for one.
pub proof fn lemma_rank_position(list: ContextListView, rank: int, vcs: Vcs, index: int)
    ensures
        0 <= rank < list.total() ==> list.has_position(list.position_at(rank).0, list.position_at(rank).1)
            && list.rank(list.position_at(rank).0, list.position_at(rank).1) == rank,
        list.has_position(vcs, index) ==> list.position_at(list.rank(vcs, index)) == (vcs, index),
{
}

/// Walking the listing from its first position and on through
/// `next_position` visits every context once, in listing order: the first
/// position has rank 0, each step goes to the next rank, and the walk stops
/// exactly after the last context. Each rank names one position.
pub proof fn law_listing_visits_each_context_once(list: ContextListView, vcs: Vcs, index: int, vcs2: Vcs, index2: int)
    ensures
        list.total() > 0 <==> list.first_position() is Some,
        list.first_position() matches Some((v, i)) ==> list.has_position(v, i) && list.rank(v, i) == 0,
        list.has_position(vcs, index) ==> 0 <= list.rank(vcs, index) < list.total(),
        list.has_position(vcs, index) ==> match list.next_position(vcs, index) {
            Some((v, i)) => list.has_position(v, i) && list.rank(v, i) == list.rank(vcs, index) + 1,
            None => list.rank(vcs, index) == list.total() - 1,
        },
        list.has_position(vcs, index) && list.has_position(vcs2, index2) && list.rank(vcs, index) == list.rank(
            vcs2,
            index2,
        ) ==> vcs == vcs2 && index == index2,
{
}

impl Storage {
    pub closed spec fn base(&self) -> Seq<char> {
        self.base_dir@
    }

    /// A storage kept under `base_dir`.
    pub fn with_base_dir(base_dir: String) -> (s: Storage)
        ensures
            s.base() == base_dir@,
    {
        Storage { base_dir }
    }

    /// The storage of the application, under the user's configuration
    /// directory.
    pub fn in_config_dir(config_dir: &str) -> (s: Storage)
        ensures
            s.base() == path_join(config_dir@, "kalamarnica"@),
    {
        Storage { base_dir: join(config_dir, "kalamarnica") }
    }

    pub fn base_dir(&self) -> (r: &str)
        ensures
            r@ == self.base(),
    {
        self.base_dir.as_str()
    }

    /// The directory that holds the contexts of one VCS.
    pub fn vcs_dir(&self, vcs: Vcs) -> (r: String)
        ensures
            r@ == path_join(self.base(), vcs_name(vcs)),
    {
        join(self.base_dir.as_str(), vcs.name())
    }

    /// The directory of one context.
    pub fn context_dir(&self, vcs: Vcs, name: &str) -> (r: String)
        ensures
            r@ == context_dir_of(self.base(), vcs, name@),
    {
        let vcs_dir = self.vcs_dir(vcs);
        join(vcs_dir.as_str(), name)
    }

    /// The file that holds the configuration of one context.
    pub fn configuration_path(&self, vcs: Vcs, name: &str) -> (r: String)
        ensures
            r@ == configuration_path_of(self.base(), vcs, name@),
    {
        let dir = self.context_dir(vcs, name);
        join(dir.as_str(), "configuration.toml")
    }

    /// The file that holds the token of one context.
    pub fn token_path(&self, vcs: Vcs, name: &str) -> (r: String)
        ensures
            r@ == token_path_of(self.base(), vcs, name@),
    {
        let dir = self.context_dir(vcs, name);
        join(dir.as_str(), "token")
    }

    /// The file that names the active context.
    pub fn active_path(&self) -> (r: String)
        ensures
            r@ == active_path_of(self.base()),
    {
        join(self.base_dir.as_str(), "active")
    }
}

/// The base directory with the separator that a relative part is joined
/// after.
pub open spec fn with_separator(base: Seq<char>) -> Seq<char> {
    if base.len() > 0 && base[base.len() - 1] != '/' {
        base + seq!['/']
    } else {
        base
    }
}

proof fn lemma_join_relative(base: Seq<char>, part: Seq<char>)
    requires
        part.len() == 0 || part[0] != '/',
    ensures
        path_join(base, part) == with_separator(base) + part,
{
}

proof fn lemma_vcs_names()
    ensures
        vcs_name(Vcs::Github).len() == 6,
        vcs_name(Vcs::Gitlab).len() == 6,
        vcs_name(Vcs::Github)[0] == 'g',
        vcs_name(Vcs::Gitlab)[0] == 'g',
        vcs_name(Vcs::Github)[5] == 'b',
        vcs_name(Vcs::Gitlab)[5] == 'b',
        vcs_name(Vcs::Github)[4] == 'u',
        vcs_name(Vcs::Gitlab)[4] == 'a',
{
    reveal_strlit("github");
    reveal_strlit("gitlab");
}

/// The path of a file of a context, written out.
proof fn lemma_file_path(base: Seq<char>, vcs: Vcs, name: Seq<char>, file: Seq<char>)
    requires
        is_path_component(name),
        file.len() > 0,
        file[0] != '/',
    ensures
        path_join(context_dir_of(base, vcs, name), file) == with_separator(base) + vcs_name(vcs)
            + seq!['/'] + name + seq!['/'] + file,
{
    lemma_vcs_names();
    let v = vcs_name(vcs);
    lemma_join_relative(base, v);
    let d = with_separator(base) + v;
    assert(d[d.len() - 1] == v[5]);
    assert(name[0] != '/');
    let cd = d + seq!['/'] + name;
    assert(path_join(d, name) == cd);
    assert(cd[cd.len() - 1] == name[name.len() - 1]);
    assert(name[name.len() - 1] != '/');
}

/// Two contexts that differ in VCS or in name keep their files in
/// different places, so neither can overwrite the other; and the
/// configuration and the token of a context are different files.
pub proof fn law_context_files_distinct(
    base: Seq<char>,
    vcs1: Vcs,
    name1: Seq<char>,
    file1: Seq<char>,
    vcs2: Vcs,
    name2: Seq<char>,
    file2: Seq<char>,
)
    requires
        is_path_component(name1),
        is_path_component(name2),
        file1 == "configuration.toml"@ || file1 == "token"@,
        file2 == "configuration.toml"@ || file2 == "token"@,
        vcs1 != vcs2 || name1 != name2 || file1 != file2,
    ensures
        path_join(context_dir_of(base, vcs1, name1), file1) != path_join(context_dir_of(base, vcs2, name2), file2),
{
    reveal_strlit("configuration.toml");
    reveal_strlit("token");
    lemma_vcs_names();
    lemma_file_path(base, vcs1, name1, file1);
    lemma_file_path(base, vcs2, name2, file2);
    let sb = with_separator(base);
    let p1 = sb + vcs_name(vcs1) + seq!['/'] + name1 + seq!['/'] + file1;
    let p2 = sb + vcs_name(vcs2) + seq!['/'] + name2 + seq!['/'] + file2;
    let o: int = sb.len() as int + 7;
    if p1 == p2 {
        if vcs1 != vcs2 {
            assert(p1[sb.len() as int + 4] == vcs_name(vcs1)[4]);
            assert(p2[sb.len() as int + 4] == vcs_name(vcs2)[4]);
        }
        assert(vcs1 == vcs2);
        if name1.len() < name2.len() {
            assert(p1[o + name1.len()] == '/');
            assert(p2[o + name1.len()] == name2[name1.len() as int]);
            assert(name2[name1.len() as int] != '/');
        }
        if name2.len() < name1.len() {
            assert(p2[o + name2.len()] == '/');
            assert(p1[o + name2.len()] == name1[name2.len() as int]);
            assert(name1[name2.len() as int] != '/');
        }
        assert(name1.len() == name2.len());
        assert forall|k: int| 0 <= k < name1.len() implies name1[k] == name2[k] by {
            assert(p1[o + k] == name1[k]);
            assert(p2[o + k] == name2[k]);
        }
        assert(name1 =~= name2);
        assert(p1.len() == sb.len() + vcs_name(vcs1).len() + 1 + name1.len() + 1 + file1.len());
        assert(p2.len() == sb.len() + vcs_name(vcs2).len() + 1 + name2.len() + 1 + file2.len());
        assert(file1.len() == file2.len());
        assert forall|k: int| 0 <= k < file1.len() implies file1[k] == file2[k] by {
            assert(p1[o + name1.len() + 1 + k] == file1[k]);
            assert(p2[o + name1.len() + 1 + k] == file2[k]);
        }
        assert(file1 =~= file2);
    }
}

/// The configuration and the token of a context both lie inside its
/// directory, so removing the directory removes both.
pub proof fn law_context_files_inside_dir(base: Seq<char>, vcs: Vcs, name: Seq<char>)
    requires
        is_path_component(name),
    ensures
        configuration_path_of(base, vcs, name) == context_dir_of(base, vcs, name) + seq!['/'] + "configuration.toml"@,
        token_path_of(base, vcs, name) == context_dir_of(base, vcs, name) + seq!['/'] + "token"@,
{
    reveal_strlit("configuration.toml");
    reveal_strlit("token");
    lemma_file_path(base, vcs, name, "configuration.toml"@);
    lemma_file_path(base, vcs, name, "token"@);
    lemma_vcs_names();
    let v = vcs_name(vcs);
    lemma_join_relative(base, v);
    let d = with_separator(base) + v;
    assert(d[d.len() - 1] == v[5]);
    assert(name[0] != '/');
    assert(context_dir_of(base, vcs, name) == d + seq!['/'] + name);
    assert(context_dir_of(base, vcs, name) + seq!['/'] + "configuration.toml"@ =~= with_separator(base) + v + seq!['/'] + name + seq!['/'] + "configuration.toml"@);
    assert(context_dir_of(base, vcs, name) + seq!['/'] + "token"@ =~= with_separator(base) + v + seq!['/'] + name + seq!['/'] + "token"@);
}

} // verus!
