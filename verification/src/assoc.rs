//! Association lists: sequences of named entries, read by the first entry
//! with a given name. Objects of JSON values and the string maps of this
//! crate are described with them.

use vstd::prelude::*;

verus! {

/// The value of the first entry named `key`, if there is one.
pub open spec fn lookup_member<V>(fs: Seq<(Seq<char>, V)>, key: Seq<char>) -> Option<V>
    decreases fs.len(),
{
    if fs.len() == 0 {
        None
    } else if fs[0].0 == key {
        Some(fs[0].1)
    } else {
        lookup_member(fs.drop_first(), key)
    }
}

/// The entries after setting `key` to `v`: the first entry named `key`
/// gets the value `v`, or, where there is none, the entry is appended.
pub open spec fn insert_member<V>(fs: Seq<(Seq<char>, V)>, key: Seq<char>, v: V) -> Seq<
    (Seq<char>, V),
>
    decreases fs.len(),
{
    if fs.len() == 0 {
        seq![(key, v)]
    } else if fs[0].0 == key {
        seq![(key, v)] + fs.drop_first()
    } else {
        seq![fs[0]] + insert_member(fs.drop_first(), key, v)
    }
}

/// Reading an entry just set gives the value set.
pub proof fn lemma_insert_member_same<V>(fs: Seq<(Seq<char>, V)>, key: Seq<char>, v: V)
    ensures
        lookup_member(insert_member(fs, key, v), key) == Some(v),
    decreases fs.len(),
{
    if fs.len() > 0 && fs[0].0 != key {
        lemma_insert_member_same(fs.drop_first(), key, v);
        assert((seq![fs[0]] + insert_member(fs.drop_first(), key, v)).drop_first()
            =~= insert_member(fs.drop_first(), key, v));
    }
}

/// Setting an entry leaves every other entry's value unchanged.
pub proof fn lemma_insert_member_other<V>(
    fs: Seq<(Seq<char>, V)>,
    key: Seq<char>,
    v: V,
    other: Seq<char>,
)
    requires
        other != key,
    ensures
        lookup_member(insert_member(fs, key, v), other) == lookup_member(fs, other),
    decreases fs.len(),
{
    let ins = insert_member(fs, key, v);
    if fs.len() == 0 {
        assert(ins.drop_first() =~= Seq::<(Seq<char>, V)>::empty());
        assert(lookup_member(ins, other) == lookup_member(ins.drop_first(), other));
    } else if fs[0].0 == key {
        assert(ins.drop_first() =~= fs.drop_first());
        assert(lookup_member(ins, other) == lookup_member(ins.drop_first(), other));
    } else {
        lemma_insert_member_other(fs.drop_first(), key, v, other);
        assert((seq![fs[0]] + insert_member(fs.drop_first(), key, v)).drop_first()
            =~= insert_member(fs.drop_first(), key, v));
    }
}

/// Setting an entry where the first entry with its name (if any) stands at
/// `i`: an update in place, or an append.
pub proof fn lemma_insert_member_split<V>(fs: Seq<(Seq<char>, V)>, key: Seq<char>, v: V, i: int)
    requires
        0 <= i <= fs.len(),
        forall|k: int| 0 <= k < i ==> fs[k].0 != key,
        i < fs.len() ==> fs[i].0 == key,
    ensures
        i < fs.len() ==> insert_member(fs, key, v) == fs.update(i, (key, v)),
        i == fs.len() ==> insert_member(fs, key, v) == fs.push((key, v)),
    decreases fs.len(),
{
    if fs.len() == 0 {
        assert(seq![(key, v)] =~= fs.push((key, v)));
    } else if fs[0].0 == key {
        assert(i == 0);
        assert(seq![(key, v)] + fs.drop_first() =~= fs.update(0, (key, v)));
    } else {
        lemma_insert_member_split(fs.drop_first(), key, v, i - 1);
        if i < fs.len() {
            assert(seq![fs[0]] + fs.drop_first().update(i - 1, (key, v)) =~= fs.update(
                i,
                (key, v),
            ));
        } else {
            assert(seq![fs[0]] + fs.drop_first().push((key, v)) =~= fs.push((key, v)));
        }
    }
}

/// With the first entry named `key` at `i`, a lookup of `key` gives its
/// value.
pub proof fn lemma_lookup_at<V>(fs: Seq<(Seq<char>, V)>, key: Seq<char>, i: int)
    requires
        0 <= i < fs.len(),
        forall|k: int| 0 <= k < i ==> fs[k].0 != key,
        fs[i].0 == key,
    ensures
        lookup_member(fs, key) == Some(fs[i].1),
    decreases fs.len(),
{
    if i > 0 {
        lemma_lookup_at(fs.drop_first(), key, i - 1);
    }
}

/// Where no entry is named `key`, a lookup of `key` gives nothing.
pub proof fn lemma_lookup_absent<V>(fs: Seq<(Seq<char>, V)>, key: Seq<char>)
    requires
        forall|k: int| 0 <= k < fs.len() ==> fs[k].0 != key,
    ensures
        lookup_member(fs, key) is None,
    decreases fs.len(),
{
    if fs.len() > 0 {
        lemma_lookup_absent(fs.drop_first(), key);
    }
}

} // verus!
