//! A write-once cell for one machine word, kept in a `lazyinit::LazyInit`.

use lazyinit::LazyInit;
use vstd::prelude::*;

verus! {

#[verifier::external_type_specification]
#[verifier::external_body]
#[verifier::reject_recursive_types(T)]
pub struct ExLazyInit<T>(LazyInit<T>);

/// What a `LazyInit<usize>` holds: `None` until it is initialized.
pub uninterp spec fn lazy_slot(c: LazyInit<usize>) -> Option<usize>;

/// Relies on `LazyInit::new`: the new cell is not initialized.
#[verifier::external_body]
pub(crate) fn word_cell_new() -> (r: LazyInit<usize>)
    ensures
        lazy_slot(r) is None,
{
    LazyInit::new()
}

/// Relies on `LazyInit::init_once`: an empty cell takes the value; a filled
/// one makes it panic, which `requires` rules out.
#[verifier::external_body]
pub(crate) fn word_cell_init_once(c: &mut LazyInit<usize>, v: usize)
    requires
        lazy_slot(*old(c)) is None,
    ensures
        lazy_slot(*final(c)) == Some(v),
{
    c.init_once(v);
}

/// Relies on `LazyInit::get`: the stored value, or `None` before it is set.
#[verifier::external_body]
pub(crate) fn word_cell_get(c: &LazyInit<usize>) -> (r: Option<usize>)
    ensures
        r == lazy_slot(*c),
{
    c.get().copied()
}

} // verus!
