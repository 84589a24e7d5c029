use vstd::prelude::*;

use crate::path::{join, path_join};
use crate::text::{trim_trailing_slashes, trimmed_slashes};
use crate::vcs::{Vcs, vcs_name};

verus! {

/// The root of the repository whose working directory git reports, as it
/// is shown: without trailing slashes.
pub open spec fn repo_root_of(workdir: Seq<char>) -> Seq<char> {
    trimmed_slashes(workdir)
}

/// The file that binds a repository to a context.
pub open spec fn binding_path_of(repo_root: Seq<char>) -> Seq<char> {
    path_join(repo_root, ".vcs_context"@)
}

/// What the binding file of a repository holds.
pub open spec fn binding_content_of(name: Seq<char>, vcs: Vcs) -> Seq<char> {
    "name = \""@ + name + "\"\nvcs = \""@ + vcs_name(vcs) + "\""@
}

pub open spec fn outside_repository_message() -> Seq<char> {
    "not inside a git repository"@
}

/// The root of the repository whose working directory is `workdir`.
pub fn repo_root(workdir: &str) -> (r: String)
    ensures
        r@ == repo_root_of(workdir@),
{
    trim_trailing_slashes(workdir)
}

/// The binding file of a repository.
pub fn binding_path(repo_root: &str) -> (r: String)
    ensures
        r@ == binding_path_of(repo_root@),
{
    join(repo_root, ".vcs_context")
}

/// The binding file content that names the context `name` of `vcs`.
pub fn binding_content(name: &str, vcs: Vcs) -> (r: String)
    ensures
        r@ == binding_content_of(name@, vcs),
{
    let mut content = "name = \"".to_owned();
    content.append(name);
    content.append("\"\nvcs = \"");
    content.append(vcs.name());
    content.append("\"");
    content
}

proof fn lemma_trimmed_slashes(w: Seq<char>)
    ensures
        trimmed_slashes(w).len() <= w.len(),
        w.subrange(0, trimmed_slashes(w).len() as int) == trimmed_slashes(w),
        forall|i: int| trimmed_slashes(w).len() <= i < w.len() ==> #[trigger] w[i] == '/',
        trimmed_slashes(w).len() == 0 || trimmed_slashes(w).last() != '/',
    decreases w.len(),
{
    if w.len() > 0 && w[w.len() - 1] == '/' {
        let front = w.subrange(0, w.len() - 1);
        lemma_trimmed_slashes(front);
        let t = trimmed_slashes(front);
        assert(w.subrange(0, t.len() as int) =~= front.subrange(0, t.len() as int));
        assert forall|i: int| t.len() <= i < w.len() implies #[trigger] w[i] == '/' by {
            if i < w.len() - 1 {
                assert(w[i] == front[i]);
            }
        }
    } else {
        assert(w.subrange(0, w.len() as int) =~= w);
    }
}

/// The root of a repository is its working directory with its trailing
/// slashes taken off and nothing else changed: the working directory is
/// the root followed by slashes only, and the root does not end in a
/// slash.
pub proof fn law_repo_root_drops_only_trailing_slashes(workdir: &str, r: String)
    requires
        call_ensures(repo_root, (workdir,), r),
    ensures
        r@.len() <= workdir@.len(),
        workdir@.subrange(0, r@.len() as int) == r@,
        forall|i: int| r@.len() <= i < workdir@.len() ==> #[trigger] workdir@[i] == '/',
        r@.len() == 0 || r@.last() != '/',
{
    lemma_trimmed_slashes(workdir@);
}

} // verus!
