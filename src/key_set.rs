//! Ordered sets of trigger keys, held in `indexmap::IndexSet`.
use indexmap::IndexSet;
use vstd::prelude::*;

verus! {

#[verifier::external_type_specification]
#[verifier::external_body]
#[verifier::reject_recursive_types(T)]
#[verifier::reject_recursive_types(S)]
pub struct ExIndexSet<T, S>(IndexSet<T, S>);

/// The keys an `IndexSet` holds, in insertion order.
pub uninterp spec fn key_order(s: IndexSet<char>) -> Seq<char>;

/// Relies on `IndexSet::new`: a set with no keys.
#[verifier::external_body]
pub(crate) fn empty_key_set() -> (s: IndexSet<char>)
    ensures
        key_order(s) == Seq::<char>::empty(),
{
    IndexSet::new()
}

/// Relies on `IndexSet::contains`: whether the key is in the set.
#[verifier::external_body]
pub(crate) fn key_set_contains(s: &IndexSet<char>, key: char) -> (r: bool)
    ensures
        r == key_order(*s).contains(key),
{
    s.contains(&key)
}

/// Relies on `IndexSet::insert`: a new key goes to the end and `true` comes
/// back; a key already there keeps its place and `false` comes back.
#[verifier::external_body]
pub(crate) fn key_set_insert(s: &mut IndexSet<char>, key: char) -> (r: bool)
    ensures
        r == !key_order(*old(s)).contains(key),
        r ==> key_order(*final(s)) == key_order(*old(s)).push(key),
        !r ==> key_order(*final(s)) == key_order(*old(s)),
{
    s.insert(key)
}

/// Relies on `IndexSet::shift_remove`: the key goes and the keys after it
/// shift down, keeping their order; `true` when the key was there.
#[verifier::external_body]
pub(crate) fn key_set_shift_remove(s: &mut IndexSet<char>, key: char) -> (r: bool)
    ensures
        r == key_order(*old(s)).contains(key),
        r ==> exists|i: int|
            0 <= i < key_order(*old(s)).len() && key_order(*old(s))[i] == key
                && key_order(*final(s)) == #[trigger] key_order(*old(s)).remove(i),
        !r ==> key_order(*final(s)) == key_order(*old(s)),
{
    s.shift_remove(&key)
}

/// Relies on `IndexSet::clear`: no keys are left.
#[verifier::external_body]
pub(crate) fn key_set_clear(s: &mut IndexSet<char>)
    ensures
        key_order(*final(s)) == Seq::<char>::empty(),
{
    s.clear()
}

} // verus!
