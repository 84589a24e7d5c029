use vstd::prelude::*;
use vstd::relations::{sorted_by, total_ordering};
use vstd::utf8::encode_utf8;

verus! {

/// Byte-wise lexicographic order, the order of `str` in Rust.
pub open spec fn bytes_le(a: Seq<u8>, b: Seq<u8>) -> bool
    decreases a.len(),
{
    if a.len() == 0 {
        true
    } else if b.len() == 0 {
        false
    } else if a[0] != b[0] {
        a[0] < b[0]
    } else {
        bytes_le(a.drop_first(), b.drop_first())
    }
}

/// The order in which context names are listed: the order of their UTF-8
/// bytes.
pub open spec fn name_le(a: Seq<char>, b: Seq<char>) -> bool {
    bytes_le(encode_utf8(a), encode_utf8(b))
}

pub open spec fn name_order() -> spec_fn(Seq<char>, Seq<char>) -> bool {
    |a: Seq<char>, b: Seq<char>| name_le(a, b)
}

proof fn lemma_bytes_le_reflexive(a: Seq<u8>)
    ensures
        bytes_le(a, a),
    decreases a.len(),
{
    if a.len() > 0 {
        lemma_bytes_le_reflexive(a.drop_first());
    }
}

proof fn lemma_bytes_le_total(a: Seq<u8>, b: Seq<u8>)
    ensures
        bytes_le(a, b) || bytes_le(b, a),
    decreases a.len(),
{
    if a.len() > 0 && b.len() > 0 && a[0] == b[0] {
        lemma_bytes_le_total(a.drop_first(), b.drop_first());
    }
}

proof fn lemma_bytes_le_antisymmetric(a: Seq<u8>, b: Seq<u8>)
    requires
        bytes_le(a, b),
        bytes_le(b, a),
    ensures
        a == b,
    decreases a.len(),
{
    if a.len() > 0 && b.len() > 0 {
        lemma_bytes_le_antisymmetric(a.drop_first(), b.drop_first());
        assert(a =~= seq![a[0]] + a.drop_first());
        assert(b =~= seq![b[0]] + b.drop_first());
    }
}

proof fn lemma_bytes_le_transitive(a: Seq<u8>, b: Seq<u8>, c: Seq<u8>)
    requires
        bytes_le(a, b),
        bytes_le(b, c),
    ensures
        bytes_le(a, c),
    decreases a.len(),
{
    if a.len() > 0 && b.len() > 0 && c.len() > 0 && a[0] == b[0] && b[0] == c[0] {
        lemma_bytes_le_transitive(a.drop_first(), b.drop_first(), c.drop_first());
    }
}

/// The listing order is a total order on names.
pub proof fn lemma_name_order_total()
    ensures
        total_ordering(name_order()),
{
    assert forall|a: Seq<char>| #[trigger] name_order()(a, a) by {
        lemma_bytes_le_reflexive(encode_utf8(a));
    }
    assert forall|a: Seq<char>, b: Seq<char>| #[trigger] name_order()(a, b) && #[trigger] name_order()(b, a) implies a == b by {
        lemma_bytes_le_antisymmetric(encode_utf8(a), encode_utf8(b));
        vstd::utf8::encode_utf8_decode_utf8(a);
        vstd::utf8::encode_utf8_decode_utf8(b);
    }
    assert forall|a: Seq<char>, b: Seq<char>, c: Seq<char>| #[trigger] name_order()(a, b) && #[trigger] name_order()(b, c) implies name_order()(a, c) by {
        lemma_bytes_le_transitive(encode_utf8(a), encode_utf8(b), encode_utf8(c));
    }
    assert forall|a: Seq<char>, b: Seq<char>| #[trigger] name_order()(a, b) || #[trigger] name_order()(b, a) by {
        lemma_bytes_le_total(encode_utf8(a), encode_utf8(b));
    }
}

/// Whether `a` comes no later than `b` in listing order.
pub fn name_precedes(a: &str, b: &str) -> (r: bool)
    ensures
        r == name_le(a@, b@),
{
    let x = a.as_bytes();
    let y = b.as_bytes();
    let mut i: usize = 0;
    assert(x@.skip(0) =~= x@);
    assert(y@.skip(0) =~= y@);
    while i < x.len() && i < y.len()
        invariant
            i <= x.len(),
            i <= y.len(),
            x@ == encode_utf8(a@),
            y@ == encode_utf8(b@),
            bytes_le(x@, y@) == bytes_le(x@.skip(i as int), y@.skip(i as int)),
        decreases x.len() - i,
    {
        let ghost xs = x@.skip(i as int);
        let ghost ys = y@.skip(i as int);
        assert(xs[0] == x@[i as int]);
        assert(ys[0] == y@[i as int]);
        if x[i] != y[i] {
            return x[i] < y[i];
        }
        assert(xs.drop_first() =~= x@.skip(i + 1));
        assert(ys.drop_first() =~= y@.skip(i + 1));
        i += 1;
    }
    x.len() <= y.len()
}

pub open spec fn texts(names: Seq<String>) -> Seq<Seq<char>> {
    names.map_values(|n: String| n@)
}

/// Puts `name` into a list in listing order, after the names that come
/// no later than it.
fn insert_in_order(names: &mut Vec<String>, name: String)
    requires
        sorted_by(texts(old(names)@), name_order()),
    ensures
        sorted_by(texts(final(names)@), name_order()),
        texts(final(names)@).to_multiset() == texts(old(names)@).to_multiset().insert(name@),
{
    proof {
        lemma_name_order_total();
    }
    let ghost before = texts(names@);
    let mut p: usize = 0;
    while p < names.len() && name_precedes(names[p].as_str(), name.as_str())
        invariant
            p <= names.len(),
            texts(names@) == before,
            forall|j: int| 0 <= j < p ==> name_le(#[trigger] before[j], name@),
        decreases names.len() - p,
    {
        p += 1;
    }
    let ghost n = name@;
    names.insert(p, name);
    proof {
        let after = texts(names@);
        assert(after =~= before.insert(p as int, n));
        vstd::seq_lib::to_multiset_insert(before, p as int, n);
        if p < before.len() {
            assert(!name_le(before[p as int], n));
            assert(name_order()(before[p as int], n) || name_order()(n, before[p as int]));
        }
        assert forall|i: int, j: int| 0 <= i < j < after.len() implies #[trigger] name_order()(after[i], after[j]) by {
            if j < p {
                assert(name_order()(before[i], before[j]));
            } else if j == p {
                assert(name_le(before[i], n));
            } else if i < p {
                assert(name_order()(before[i], before[j - 1]));
                assert(name_order()(n, before[p as int]) || p == j - 1);
                if p < j - 1 {
                    assert(name_order()(before[p as int], before[j - 1]));
                }
                assert(name_order()(n, before[j - 1]));
                assert(name_le(before[i], n));
            } else if i == p {
                if p < j - 1 {
                    assert(name_order()(before[p as int], before[j - 1]));
                }
            } else {
                assert(name_order()(before[i - 1], before[j - 1]));
            }
        }
    }
}

/// What a directory listing says of one entry of a VCS directory.
#[derive(Debug)]
pub struct DirEntryInfo {
    /// The entry's file name.
    pub name: String,
    /// Whether the entry is a directory that holds a context configuration.
    pub is_context: bool,
}

/// The names of the entries that hold contexts, in listing order.
pub open spec fn context_names_of(entries: Seq<DirEntryInfo>) -> Seq<Seq<char>>
    decreases entries.len(),
{
    if entries.len() == 0 {
        Seq::empty()
    } else {
        let rest = context_names_of(entries.drop_last());
        if entries.last().is_context {
            rest.push(entries.last().name@)
        } else {
            rest
        }
    }
}

/// The names of the contexts among the entries of a VCS directory, sorted
/// in listing order.
pub fn context_names(entries: Vec<DirEntryInfo>) -> (r: Vec<String>)
    ensures
        texts(r@) == context_names_of(entries@).sort_by(name_order()),
{
    let ghost all = entries@;
    let mut names: Vec<String> = Vec::new();
    let mut remaining = entries;
    let mut taken: Vec<DirEntryInfo> = Vec::new();
    let mut i: usize = 0;
    let n = remaining.len();
    assert(all.take(0) =~= Seq::<DirEntryInfo>::empty());
    assert(texts(names@) =~= context_names_of(all.take(0)));
    while i < n
        invariant
            i <= n,
            n == all.len(),
            remaining@ == all.skip(i as int),
            sorted_by(texts(names@), name_order()),
            texts(names@).to_multiset() == context_names_of(all.take(i as int)).to_multiset(),
        decreases n - i,
    {
        let entry = remaining.remove(0);
        assert(entry == all[i as int]);
        assert(all.take(i + 1).drop_last() =~= all.take(i as int));
        assert(all.take(i + 1).last() == all[i as int]);
        if entry.is_context {
            insert_in_order(&mut names, entry.name);
            proof {
                vstd::seq_lib::to_multiset_build(context_names_of(all.take(i as int)), all[i as int].name@);
            }
        }
        assert(remaining@ =~= all.skip(i + 1));
        i += 1;
    }
    proof {
        assert(all.take(n as int) =~= all);
        lemma_name_order_total();
        let wanted = context_names_of(all);
        wanted.lemma_sort_by_ensures(name_order());
        vstd::seq_lib::lemma_sorted_unique(texts(names@), wanted.sort_by(name_order()), name_order());
    }
    names
}

/// A name is among the context names exactly when some entry that holds a
/// context has it.
proof fn lemma_context_names_members(entries: Seq<DirEntryInfo>, name: Seq<char>)
    ensures
        context_names_of(entries).contains(name) <==> exists|i: int|
            0 <= i < entries.len() && (#[trigger] entries[i]).is_context && entries[i].name@ == name,
    decreases entries.len(),
{
    if entries.len() > 0 {
        let init = entries.drop_last();
        lemma_context_names_members(init, name);
        let rest = context_names_of(init);
        if exists|i: int| 0 <= i < entries.len() && (#[trigger] entries[i]).is_context && entries[i].name@ == name {
            let i = choose|i: int| 0 <= i < entries.len() && (#[trigger] entries[i]).is_context && entries[i].name@ == name;
            if i < entries.len() - 1 {
                assert(init[i] == entries[i]);
                if entries.last().is_context {
                    assert(rest.push(entries.last().name@).contains(name)) by {
                        let k = choose|k: int| 0 <= k < rest.len() && rest[k] == name;
                        assert(rest.push(entries.last().name@)[k] == name);
                    }
                }
            } else {
                assert(context_names_of(entries).last() == name);
            }
        }
        if context_names_of(entries).contains(name) {
            if entries.last().is_context && entries.last().name@ == name {
                assert(entries[entries.len() - 1].is_context);
            } else {
                if entries.last().is_context {
                    let k = choose|k: int| 0 <= k < rest.len() + 1 && rest.push(entries.last().name@)[k] == name;
                    assert(k < rest.len());
                    assert(rest[k] == name);
                }
                assert(rest.contains(name));
                let i = choose|i: int| 0 <= i < init.len() && (#[trigger] init[i]).is_context && init[i].name@ == name;
                assert(entries[i] == init[i]);
            }
        }
    }
}

/// The names that a VCS directory lists come in listing order, and a name
/// is listed exactly when an entry of that name holds a context.
pub proof fn law_listing_sorted_and_complete(entries: Seq<DirEntryInfo>, name: Seq<char>)
    ensures
        sorted_by(context_names_of(entries).sort_by(name_order()), name_order()),
        context_names_of(entries).sort_by(name_order()).contains(name) <==> exists|i: int|
            0 <= i < entries.len() && (#[trigger] entries[i]).is_context && entries[i].name@ == name,
{
    lemma_name_order_total();
    let names = context_names_of(entries);
    names.lemma_sort_by_ensures(name_order());
    lemma_context_names_members(entries, name);
    vstd::seq_lib::to_multiset_contains(names, name);
    vstd::seq_lib::to_multiset_contains(names.sort_by(name_order()), name);
}

/// Whether no two entries that hold contexts have the same name, as in a
/// directory listing.
pub open spec fn distinct_context_entries(entries: Seq<DirEntryInfo>) -> bool {
    forall|i: int, j: int|
        0 <= i < j < entries.len() && (#[trigger] entries[i]).is_context && (#[trigger] entries[j]).is_context
            ==> entries[i].name@ != entries[j].name@
}

proof fn lemma_context_names_distinct(entries: Seq<DirEntryInfo>)
    requires
        distinct_context_entries(entries),
    ensures
        context_names_of(entries).no_duplicates(),
    decreases entries.len(),
{
    if entries.len() > 0 {
        let init = entries.drop_last();
        assert forall|i: int, j: int|
            0 <= i < j < init.len() && (#[trigger] init[i]).is_context && (#[trigger] init[j]).is_context implies init[i].name@
                != init[j].name@ by {
            assert(init[i] == entries[i] && init[j] == entries[j]);
        }
        lemma_context_names_distinct(init);
        let last = entries.last();
        if last.is_context {
            lemma_context_names_members(init, last.name@);
            if context_names_of(init).contains(last.name@) {
                let i = choose|i: int| 0 <= i < init.len() && (#[trigger] init[i]).is_context && init[i].name@ == last.name@;
                assert(init[i] == entries[i]);
                assert(entries[entries.len() - 1] == last);
            }
        }
    }
}

/// When no two entries of a directory that hold contexts share a name, the
/// names listed come in strictly ascending order.
pub proof fn law_listing_strictly_ascending(entries: Seq<DirEntryInfo>)
    requires
        distinct_context_entries(entries),
    ensures
        forall|i: int, j: int|
            0 <= i < j < context_names_of(entries).sort_by(name_order()).len() ==> name_le(
                #[trigger] context_names_of(entries).sort_by(name_order())[i],
                #[trigger] context_names_of(entries).sort_by(name_order())[j],
            ) && context_names_of(entries).sort_by(name_order())[i] != context_names_of(entries).sort_by(
                name_order(),
            )[j],
{
    lemma_name_order_total();
    let names = context_names_of(entries);
    let sorted = names.sort_by(name_order());
    names.lemma_sort_by_ensures(name_order());
    lemma_context_names_distinct(entries);
    names.lemma_multiset_has_no_duplicates();
    sorted.lemma_multiset_has_no_duplicates_conv();
    assert forall|i: int, j: int| 0 <= i < j < sorted.len() implies name_le(#[trigger] sorted[i], #[trigger] sorted[j])
        && sorted[i] != sorted[j] by {
        assert(name_order()(sorted[i], sorted[j]));
    }
}

} // verus!
