//! The clock that the engine reads, and the shared cell that holds it.

use crate::time::Time;
use atomic_refcell::{AtomicRef, AtomicRefCell, BorrowError};
use vstd::prelude::*;

verus! {

/// `atomic_refcell::AtomicRefCell`: a cell whose borrows are checked when
/// the program runs. Nothing is known here of what it holds.
#[verifier::external_type_specification]
#[verifier::external_body]
#[verifier::reject_recursive_types(T)]
pub struct ExAtomicRefCell<T: ?Sized>(AtomicRefCell<T>);

/// `atomic_refcell::AtomicRef`: a shared borrow of what a cell holds.
#[verifier::external_type_specification]
#[verifier::external_body]
#[verifier::reject_recursive_types(T)]
pub struct ExAtomicRef<'b, T: ?Sized>(AtomicRef<'b, T>);

/// `atomic_refcell::BorrowError`: a cell was exclusively borrowed when a
/// shared borrow was asked for.
#[verifier::external_type_specification]
#[verifier::external_body]
pub struct ExBorrowError(BorrowError);

/// The clock of the instance, which the surrounding system provides.
pub trait Clock {
    /// Why the clock could not be adjusted.
    type Error;

    /// The current time of the clock.
    fn now(&self) -> Time;
}

/// `AtomicRefCell::try_borrow`: a shared borrow of what `cell` holds, or an
/// error where it is exclusively borrowed. Which of the two comes back
/// depends on the borrows that are alive, so the contract promises neither.
/// The outside function panics once half of `usize::MAX` shared borrows
/// are alive, or a quarter of `usize::MAX` have failed during one exclusive
/// borrow; that count is hidden in the cell, so no `requires` can leave it
/// out.
#[verifier::external_body]
fn try_borrow<'a, T>(cell: &'a AtomicRefCell<T>) -> (r: Result<AtomicRef<'a, T>, BorrowError>) {
    cell.try_borrow()
}

/// `<AtomicRef as Deref>::deref`: what the borrowed cell holds. The value
/// is the caller's own and nothing is claimed of it.
#[verifier::external_body]
fn borrowed<'a, 'b, T>(guard: &'a AtomicRef<'b, T>) -> (r: &'a T) {
    core::ops::Deref::deref(guard)
}

/// The time of the clock in `cell`, or `None` where the clock is
/// exclusively borrowed at the moment.
pub fn read_clock<C: Clock>(cell: &AtomicRefCell<C>) -> (r: Option<Time>) {
    reading_of(try_borrow(cell))
}

/// What an attempt to borrow the cell of a clock comes to: a reading of
/// the clock where the borrow was granted, none where it was refused. The
/// borrow ends with the call.
pub fn reading_of<'a, C: Clock>(attempt: Result<AtomicRef<'a, C>, BorrowError>) -> (r: Option<
    Time,
>)
    ensures
        r is Some <==> attempt is Ok,
{
    match attempt {
        Ok(guard) => Some(borrowed(&guard).now()),
        Err(_) => None,
    }
}

} // verus!
