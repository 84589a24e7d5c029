use vstd::prelude::*;

use crate::text::same_text;

verus! {

/// A YAML node as the host configuration files hold it. Text scalars and
/// mappings are what the library reads; any other node (numbers, booleans,
/// sequences, tagged values, null) is carried unchanged as its YAML text.
#[derive(Debug)]
pub enum YamlValue {
    Text(String),
    Mapping(YamlMapping),
    Other(String),
}

/// A YAML mapping: its entries in document order.
#[derive(Debug)]
pub struct YamlMapping {
    pub entries: Vec<(YamlValue, YamlValue)>,
}

/// The mathematical content of a YAML node.
pub enum YamlView {
    Text(Seq<char>),
    Mapping(Seq<(YamlView, YamlView)>),
    Other(Seq<char>),
}

/// The entries of a mapping, as key/value views in document order.
pub type Table = Seq<(YamlView, YamlView)>;

pub open spec fn value_view(v: YamlValue) -> YamlView
    decreases v,
{
    match v {
        YamlValue::Text(s) => YamlView::Text(s@),
        YamlValue::Other(s) => YamlView::Other(s@),
        YamlValue::Mapping(m) => YamlView::Mapping(entries_view(m.entries@)),
    }
}

pub open spec fn entries_view(es: Seq<(YamlValue, YamlValue)>) -> Table
    decreases es,
{
    if es.len() == 0 {
        Seq::empty()
    } else {
        let last = es[es.len() - 1];
        entries_view(es.subrange(0, es.len() - 1)).push((value_view(last.0), value_view(last.1)))
    }
}

pub open spec fn pair_view(e: (YamlValue, YamlValue)) -> (YamlView, YamlView) {
    (value_view(e.0), value_view(e.1))
}

impl View for YamlValue {
    type V = YamlView;

    open spec fn view(&self) -> YamlView {
        value_view(*self)
    }
}

impl View for YamlMapping {
    type V = Table;

    open spec fn view(&self) -> Table {
        entries_view(self.entries@)
    }
}

/// Whether a key is the text `name`.
pub open spec fn key_is(key: YamlView, name: Seq<char>) -> bool {
    key == YamlView::Text(name)
}

/// The first position at or after `start` whose key is `name`, or -1.
pub open spec fn index_from(t: Table, name: Seq<char>, start: int) -> int
    decreases t.len() - start,
{
    if start < 0 || start >= t.len() {
        -1
    } else if key_is(t[start].0, name) {
        start
    } else {
        index_from(t, name, start + 1)
    }
}

/// The position of the entry whose key is `name`, or -1.
pub open spec fn find_key(t: Table, name: Seq<char>) -> int {
    index_from(t, name, 0)
}

/// The value stored under the key `name`.
pub open spec fn lookup(t: Table, name: Seq<char>) -> Option<YamlView> {
    let i = find_key(t, name);
    if 0 <= i < t.len() {
        Some(t[i].1)
    } else {
        None
    }
}

/// The table after storing `value` under `name`: an existing entry keeps
/// its place and key and takes the new value; otherwise a new entry is
/// appended.
pub open spec fn insert(t: Table, name: Seq<char>, value: YamlView) -> Table {
    let i = find_key(t, name);
    if 0 <= i < t.len() {
        t.update(i, (t[i].0, value))
    } else {
        t.push((YamlView::Text(name), value))
    }
}

/// The mapping stored under `name`, if the value there is a mapping.
pub open spec fn table_at(t: Table, name: Seq<char>) -> Option<Table> {
    match lookup(t, name) {
        Some(YamlView::Mapping(inner)) => Some(inner),
        _ => None,
    }
}

/// The text stored under `name`, if the value there is a text.
pub open spec fn text_at(t: Table, name: Seq<char>) -> Option<Seq<char>> {
    match lookup(t, name) {
        Some(YamlView::Text(s)) => Some(s),
        _ => None,
    }
}

pub proof fn lemma_entries_view(es: Seq<(YamlValue, YamlValue)>)
    ensures
        entries_view(es).len() == es.len(),
        forall|i: int| 0 <= i < es.len() ==> #[trigger] entries_view(es)[i] == pair_view(es[i]),
    decreases es.len(),
{
    if es.len() > 0 {
        let init = es.subrange(0, es.len() - 1);
        lemma_entries_view(init);
        assert forall|i: int| 0 <= i < es.len() implies #[trigger] entries_view(es)[i] == pair_view(
            es[i],
        ) by {
            if i < es.len() - 1 {
                assert(init[i] == es[i]);
            }
        }
    }
}

pub proof fn lemma_entries_view_update(es: Seq<(YamlValue, YamlValue)>, i: int, x: (YamlValue, YamlValue))
    requires
        0 <= i < es.len(),
    ensures
        entries_view(es.update(i, x)) == entries_view(es).update(i, pair_view(x)),
{
    lemma_entries_view(es);
    lemma_entries_view(es.update(i, x));
    assert(entries_view(es.update(i, x)) =~= entries_view(es).update(i, pair_view(x)));
}

pub proof fn lemma_entries_view_push(es: Seq<(YamlValue, YamlValue)>, x: (YamlValue, YamlValue))
    ensures
        entries_view(es.push(x)) == entries_view(es).push(pair_view(x)),
{
    lemma_entries_view(es);
    lemma_entries_view(es.push(x));
    assert(entries_view(es.push(x)) =~= entries_view(es).push(pair_view(x)));
}

/// The position found is either -1 or a matching key at or after `start`.
pub proof fn lemma_index_from_range(t: Table, name: Seq<char>, start: int)
    ensures
        index_from(t, name, start) == -1 || (start <= index_from(t, name, start) < t.len()
            && key_is(t[index_from(t, name, start)].0, name)),
        0 <= start && index_from(t, name, start) == -1 ==> forall|j: int|
            start <= j < t.len() ==> !key_is(#[trigger] t[j].0, name),
    decreases t.len() - start,
{
    if start >= 0 && start < t.len() && !key_is(t[start].0, name) {
        lemma_index_from_range(t, name, start + 1);
    }
}

/// Two tables whose keys agree have the same positions for every name.
pub proof fn lemma_index_from_same_keys(t1: Table, t2: Table, name: Seq<char>, start: int)
    requires
        t1.len() == t2.len(),
        forall|j: int| 0 <= j < t1.len() ==> #[trigger] t1[j].0 == t2[j].0,
    ensures
        index_from(t1, name, start) == index_from(t2, name, start),
    decreases t1.len() - start,
{
    if start >= 0 && start < t1.len() {
        assert(t1[start].0 == t2[start].0);
        lemma_index_from_same_keys(t1, t2, name, start + 1);
    }
}

/// Appending an entry leaves every earlier match where it was.
pub proof fn lemma_index_from_push(t: Table, x: (YamlView, YamlView), name: Seq<char>, start: int)
    requires
        0 <= start <= t.len(),
    ensures
        index_from(t.push(x), name, start) == (if index_from(t, name, start) >= 0 {
            index_from(t, name, start)
        } else if key_is(x.0, name) {
            t.len() as int
        } else {
            -1
        }),
    decreases t.len() - start,
{
    let tp = t.push(x);
    if start < t.len() {
        assert(tp[start] == t[start]);
        lemma_index_from_push(t, x, name, start + 1);
    } else {
        assert(tp[start] == x);
        if !key_is(x.0, name) {
            assert(index_from(tp, name, start + 1) == -1);
        }
    }
}

/// Reading back a stored value, and reading any other key after a store.
pub proof fn lemma_insert_lookup(t: Table, name: Seq<char>, value: YamlView, other: Seq<char>)
    ensures
        lookup(insert(t, name, value), name) == Some(value),
        other != name ==> lookup(insert(t, name, value), other) == lookup(t, other),
{
    let i = find_key(t, name);
    lemma_index_from_range(t, name, 0);
    lemma_index_from_range(t, other, 0);
    let t2 = insert(t, name, value);
    if 0 <= i < t.len() {
        lemma_index_from_same_keys(t, t2, name, 0);
        lemma_index_from_same_keys(t, t2, other, 0);
    } else {
        lemma_index_from_push(t, (YamlView::Text(name), value), name, 0);
        lemma_index_from_push(t, (YamlView::Text(name), value), other, 0);
    }
}

impl YamlValue {
    /// The text, if this node is a text.
    pub fn as_text(&self) -> (r: Option<&String>)
        ensures
            r is Some <==> self@ is Text,
            r matches Some(s) ==> self@ == YamlView::Text(s@),
    {
        match self {
            YamlValue::Text(s) => Some(s),
            _ => None,
        }
    }

    /// The mapping, if this node is a mapping.
    pub fn as_mapping(&self) -> (r: Option<&YamlMapping>)
        ensures
            r is Some <==> self@ is Mapping,
            r matches Some(m) ==> self@ == YamlView::Mapping(m@),
    {
        match self {
            YamlValue::Mapping(m) => Some(m),
            _ => None,
        }
    }
}

/// A text node holding `text`.
pub fn string_value(text: &str) -> (v: YamlValue)
    ensures
        v@ == YamlView::Text(text@),
{
    YamlValue::Text(text.to_owned())
}

impl YamlMapping {
    pub fn new() -> (m: YamlMapping)
        ensures
            m@ == Seq::<(YamlView, YamlView)>::empty(),
    {
        YamlMapping { entries: Vec::new() }
    }

    pub fn len(&self) -> (n: usize)
        ensures
            n == self@.len(),
    {
        proof {
            lemma_entries_view(self.entries@);
        }
        self.entries.len()
    }

    pub fn is_empty(&self) -> (r: bool)
        ensures
            r == (self@.len() == 0),
    {
        self.len() == 0
    }

    /// The position of the entry whose key is the text `name`.
    pub fn find(&self, name: &str) -> (r: Option<usize>)
        ensures
            r matches Some(i) ==> i == find_key(self@, name@) && i < self@.len(),
            r is None ==> find_key(self@, name@) == -1,
    {
        proof {
            lemma_entries_view(self.entries@);
        }
        let mut i: usize = 0;
        while i < self.entries.len()
            invariant
                i <= self.entries.len(),
                self@.len() == self.entries@.len(),
                forall|j: int|
                    0 <= j < self.entries@.len() ==> #[trigger] self@[j] == pair_view(
                        self.entries@[j],
                    ),
                find_key(self@, name@) == index_from(self@, name@, i as int),
            decreases self.entries.len() - i,
        {
            let matches = match &self.entries[i].0 {
                YamlValue::Text(s) => same_text(s.as_str(), name),
                _ => false,
            };
            assert(self@[i as int] == pair_view(self.entries@[i as int]));
            if matches {
                return Some(i);
            }
            i += 1;
        }
        None
    }

    pub fn contains_key(&self, name: &str) -> (r: bool)
        ensures
            r == (lookup(self@, name@) is Some),
    {
        let r = self.find(name);
        proof {
            lemma_index_from_range(self@, name@, 0);
        }
        r.is_some()
    }

    /// The value stored under the text key `name`.
    pub fn get(&self, name: &str) -> (r: Option<&YamlValue>)
        ensures
            r is Some <==> lookup(self@, name@) is Some,
            r matches Some(v) ==> lookup(self@, name@) == Some(v@),
    {
        proof {
            lemma_entries_view(self.entries@);
            lemma_index_from_range(self@, name@, 0);
        }
        match self.find(name) {
            Some(i) => {
                assert(self@[i as int] == pair_view(self.entries@[i as int]));
                Some(&self.entries[i].1)
            },
            None => None,
        }
    }

    /// Stores `value` under the text key `key`.
    pub fn insert(&mut self, key: &str, value: YamlValue)
        ensures
            final(self)@ == insert(old(self)@, key@, value@),
    {
        proof {
            lemma_entries_view(self.entries@);
            lemma_index_from_range(self@, key@, 0);
        }
        match self.find(key) {
            Some(i) => {
                let ghost old_entries = self.entries@;
                let k = self.entries.remove(i).0;
                self.entries.insert(i, (k, value));
                proof {
                    assert(self.entries@ =~= old_entries.update(i as int, (old_entries[i as int].0, value)));
                    lemma_entries_view_update(old_entries, i as int, (old_entries[i as int].0, value));
                    assert(entries_view(old_entries)[i as int] == pair_view(old_entries[i as int]));
                }
            },
            None => {
                let ghost old_entries = self.entries@;
                self.entries.push((string_value(key), value));
                proof {
                    lemma_entries_view_push(old_entries, self.entries@.last());
                }
            },
        }
    }
}

impl YamlValue {
    /// A copy of the node with the same content.
    pub fn duplicate(&self) -> (r: YamlValue)
        ensures
            r@ == self@,
        decreases self,
    {
        match self {
            YamlValue::Text(s) => YamlValue::Text(s.clone()),
            YamlValue::Other(s) => YamlValue::Other(s.clone()),
            YamlValue::Mapping(m) => YamlValue::Mapping(m.duplicate()),
        }
    }
}

impl YamlMapping {
    /// A copy of the mapping with the same content.
    pub fn duplicate(&self) -> (r: YamlMapping)
        ensures
            r@ == self@,
        decreases self,
    {
        let mut entries: Vec<(YamlValue, YamlValue)> = Vec::new();
        let mut i: usize = 0;
        proof {
            lemma_entries_view(self.entries@);
        }
        while i < self.entries.len()
            invariant
                i <= self.entries.len(),
                entries@.len() == i,
                forall|j: int| 0 <= j < i ==> #[trigger] pair_view(entries@[j]) == pair_view(self.entries@[j]),
            decreases self.entries.len() - i,
        {
            assert(decreases_to!(self => self.entries@[i as int].0));
            assert(decreases_to!(self => self.entries@[i as int].1));
            let k = self.entries[i].0.duplicate();
            let v = self.entries[i].1.duplicate();
            entries.push((k, v));
            i += 1;
        }
        proof {
            lemma_entries_view(entries@);
            lemma_entries_view(self.entries@);
            assert(entries_view(entries@) =~= entries_view(self.entries@));
        }
        YamlMapping { entries }
    }
}

} // verus!
