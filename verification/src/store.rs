//! The ordered map that holds the items, with each of its operations stated
//! over the map it stands for.

use crate::todo::Todo;
use std::collections::BTreeMap;
use vstd::prelude::*;
use vstd::std_specs::cmp::OrdSpec;
use vstd::std_specs::iter::IteratorSpec;

verus! {

broadcast use {vstd::std_specs::btree::group_btree_axioms, vstd::laws_cmp::group_laws_cmp};

/// The keys of `m`, in increasing order.
pub(crate) fn keys_of(m: &BTreeMap<u128, Todo>) -> (keys: Vec<u128>)
    ensures
        keys@.no_duplicates(),
        forall|k: u128| keys@.contains(k) <==> m@.contains_key(k),
        forall|i: int, j: int| 0 <= i < j < keys.len() ==> keys[i] < keys[j],
{
    let mut keys: Vec<u128> = Vec::new();
    let ghost sorted = m.keys().remaining();
    let ghost all = sorted.unref();
    for k in it: m.keys()
        invariant
            keys.len() == it.index(),
            it.seq().unref() == all,
            forall|j: int| 0 <= j < keys.len() ==> keys@[j] == *it.seq()[j],
    {
        keys.push(*k);
    }
    assert(keys@ =~= all);
    assert(forall|k: u128| keys@.contains(k) <==> keys@.to_set().contains(k));
    assert forall|i: int, j: int| 0 <= i < j < keys.len() implies keys[i] < keys[j] by {
        assert(vstd::laws_cmp::obeys_cmp::<u128>());
        assert(vstd::laws_cmp::obeys_cmp::<&u128>());
        assert(vstd::std_specs::btree::increasing_seq(sorted));
        assert(OrdSpec::cmp_spec(&sorted[i], &sorted[j]) is Less);
        assert(keys[i] == *sorted[i] && keys[j] == *sorted[j]);
    }
    keys
}

/// The number of entries of `m`.
pub(crate) fn count(m: &BTreeMap<u128, Todo>) -> (n: usize)
    ensures
        n == m@.len(),
{
    m.len()
}

/// Whether `m` has an entry under `id`.
pub(crate) fn holds(m: &BTreeMap<u128, Todo>, id: u128) -> (r: bool)
    ensures
        r == m@.contains_key(id),
{
    m.contains_key(&id)
}

/// The entry of `m` under `id`, if there is one.
pub(crate) fn lookup(m: &BTreeMap<u128, Todo>, id: u128) -> (r: Option<&Todo>)
    ensures
        match r {
            Some(t) => m@.contains_key(id) && *t == m@[id],
            None => !m@.contains_key(id),
        },
{
    m.get(&id)
}

/// Files `todo` under `id`, in place of what was there.
pub(crate) fn put(m: &mut BTreeMap<u128, Todo>, id: u128, todo: Todo)
    ensures
        final(m)@ == old(m)@.insert(id, todo),
{
    m.insert(id, todo);
}

/// Takes the entry under `id` out of `m`, if there is one.
pub(crate) fn take_out(m: &mut BTreeMap<u128, Todo>, id: u128)
    ensures
        final(m)@ == old(m)@.remove(id),
{
    m.remove(&id);
}

} // verus!
