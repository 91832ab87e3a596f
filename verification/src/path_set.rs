//! Trusted interface to `indexmap`'s insertion-ordered string set, used to
//! de-duplicate chunk paths while preserving first-seen order. The
//! contents of a set are named by [`index_set_elems`], the list of held
//! values in insertion order; every wrapper states what the crate's
//! documented behaviour does to that list.

use indexmap::IndexSet;
use vstd::prelude::*;

use crate::text::views_of_strs;

verus! {

#[verifier::external_type_specification]
#[verifier::external_body]
#[verifier::reject_recursive_types(T)]
#[verifier::reject_recursive_types(S)]
pub struct ExIndexSet<T, S>(IndexSet<T, S>);

/// The values an insertion-ordered string set holds, in insertion order.
pub uninterp spec fn index_set_elems(s: IndexSet<String>) -> Seq<Seq<char>>;

/// Relies on `indexmap::IndexSet::new`: creates an empty set.
#[verifier::external_body]
pub(crate) fn path_set_new() -> (s: IndexSet<String>)
    ensures
        index_set_elems(s) == Seq::<Seq<char>>::empty(),
{
    IndexSet::new()
}

/// Relies on `indexmap::IndexSet::insert`: when an equivalent value is
/// already present it returns `false` and leaves the set unaltered;
/// otherwise it appends the new value and returns `true`. Two strings are
/// equivalent exactly when their characters are equal.
#[verifier::external_body]
pub(crate) fn path_set_insert(s: &mut IndexSet<String>, value: String) -> (inserted: bool)
    ensures
        index_set_elems(*old(s)).contains(value@) ==> !inserted && index_set_elems(*final(s))
            == index_set_elems(*old(s)),
        !index_set_elems(*old(s)).contains(value@) ==> inserted && index_set_elems(*final(s))
            == index_set_elems(*old(s)).push(value@),
{
    s.insert(value)
}

/// Relies on `indexmap::IndexSet::iter`: yields the held values in their
/// insertion order.
#[verifier::external_body]
pub(crate) fn path_set_to_vec(s: &IndexSet<String>) -> (v: Vec<String>)
    ensures
        views_of_strs(v@) == index_set_elems(*s),
{
    s.iter().cloned().collect()
}

} // verus!
