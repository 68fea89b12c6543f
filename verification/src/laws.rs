//! The store's laws, stated over the map model that the contracts of
//! [`crate::store::Store::put`] and [`crate::store::Store::get`] speak in:
//! `put` ends with `old@.insert(key@, value@)`, and `get` returns
//! `lookup(self@, key@)`.

use vstd::prelude::*;

use crate::store::ValueModel;
use crate::store::lookup;
use crate::store::null_model;

verus! {

/// Law: a get of `k` immediately after a put of `(k, v)` yields exactly `v`,
/// whatever the store held before — the round trip is the identity.
pub proof fn lemma_put_then_get(m: Map<Seq<char>, ValueModel>, k: Seq<char>, v: ValueModel)
    ensures
        lookup(m.insert(k, v), k) == v,
{
}

/// Law: a get of a key never put yields the sentinel, not an error.
pub proof fn lemma_get_absent(m: Map<Seq<char>, ValueModel>, k: Seq<char>)
    requires
        !m.contains_key(k),
    ensures
        lookup(m, k) == null_model(),
{
}

/// Law: a second put with the same key wholly replaces the first — the store
/// is exactly as if only the second had happened, with no merge and no trace
/// of the first value.
pub proof fn lemma_put_replaces(
    m: Map<Seq<char>, ValueModel>,
    k: Seq<char>,
    v1: ValueModel,
    v2: ValueModel,
)
    ensures
        m.insert(k, v1).insert(k, v2) == m.insert(k, v2),
{
    assert(m.insert(k, v1).insert(k, v2) =~= m.insert(k, v2));
}

/// The store after a run of puts to the one key `k`, in the order the lock
/// admitted them.
pub open spec fn after_puts(
    m: Map<Seq<char>, ValueModel>,
    k: Seq<char>,
    vs: Seq<ValueModel>,
) -> Map<Seq<char>, ValueModel>
    decreases vs.len(),
{
    if vs.len() == 0 {
        m
    } else {
        after_puts(m, k, vs.drop_last()).insert(k, vs.last())
    }
}

/// Law: however many writers raced on one key, once the lock has serialized
/// them the store holds exactly the value of whichever put came last — one
/// of the contending values, whole — and every other key is untouched.
pub proof fn lemma_racing_puts(m: Map<Seq<char>, ValueModel>, k: Seq<char>, vs: Seq<ValueModel>)
    requires
        vs.len() > 0,
    ensures
        lookup(after_puts(m, k, vs), k) == vs.last(),
        forall|k2: Seq<char>| k2 != k ==> lookup(after_puts(m, k, vs), k2) == lookup(m, k2),
    decreases vs.len(),
{
    if vs.len() == 1 {
    } else {
        lemma_racing_puts(m, k, vs.drop_last());
    }
}

} // verus!
