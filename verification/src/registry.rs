//! The process registry: one slot for the facade of the process, filled once.
//!
//! The slot is a `once_cell::sync::OnceCell`. It can be shared between the
//! threads of a process: filling it takes no exclusive access, and reading it
//! never blocks. So no contract here speaks of what the slot holds at the
//! moment of a call: between any two calls another thread may have filled it.
//!
//! What the contracts speak of is what the slot holds for good. A slot is
//! filled at most once, and the facade that fills it stays: that facade
//! ([`Registry::facade`]) belongs to the registry, whenever one asks. A facade
//! that was put in is that facade, a facade that was refused met a slot that
//! has one, and a facade that is read is that facade.

use crate::error::{TelemetryError, TelemetryResult};
use crate::telemetry::Telemetry;
use vstd::prelude::*;

verus! {

/// `once_cell::sync::OnceCell`, opaque to the verifier.
#[verifier::external_type_specification]
#[verifier::external_body]
#[verifier::reject_recursive_types(T)]
pub struct ExOnceCell<T>(once_cell::sync::OnceCell<T>);

/// The facade that a cell holds from the one `set` that it takes: `None` for a
/// cell that never takes one.
///
/// This is not what the cell holds at some moment. A cell that is reached by
/// shared reference alone, as the cell of a registry is, is written at most
/// once and never emptied, so the facade that it comes to hold is one and the
/// same whenever one asks, before the `set` as well as after it. Nothing says
/// of a cell that it is empty.
pub uninterp spec fn settled_facade(cell: once_cell::sync::OnceCell<Telemetry>) -> Option<
    Telemetry,
>;

/// `once_cell::sync::OnceCell::new`. Nothing is assumed of it: what the new
/// cell comes to hold is open.
#[verifier::external_body]
fn cell_new() -> (cell: once_cell::sync::OnceCell<Telemetry>) {
    once_cell::sync::OnceCell::new()
}

/// `once_cell::sync::OnceCell::set`.
///
/// Assumed: where the call gives `Ok`, the cell took this facade, which is
/// then the facade that it holds for good. Where the call gives `Err`, the
/// cell was full: it holds a facade for good, and that facade is as it was.
/// Nothing is assumed of which of the two comes.
#[verifier::external_body]
fn cell_set(cell: &once_cell::sync::OnceCell<Telemetry>, facade: Telemetry) -> (outcome: Result<
    (),
    Telemetry,
>)
    ensures
        outcome is Ok ==> settled_facade(*cell) == Some(facade),
        outcome is Err ==> settled_facade(*cell) is Some,
{
    cell.set(facade)
}

/// `once_cell::sync::OnceCell::get`.
///
/// Assumed: a facade that the call finds is the facade that the cell holds for
/// good. Nothing is assumed of whether it finds one.
#[verifier::external_body]
fn cell_get(cell: &once_cell::sync::OnceCell<Telemetry>) -> (found: Option<&Telemetry>)
    ensures
        found matches Some(facade) ==> settled_facade(*cell) == Some(*facade),
{
    cell.get()
}

/// The slot that holds the facade of the process.
pub struct Registry {
    cell: once_cell::sync::OnceCell<Telemetry>,
}

impl Registry {
    /// The facade that the slot holds for good: the facade of the one `init`
    /// that succeeds, or `None` for a registry on which none ever does.
    pub closed spec fn facade(&self) -> Option<Telemetry> {
        settled_facade(self.cell)
    }

    /// A registry whose slot is empty.
    pub fn new() -> (registry: Self) {
        Registry { cell: cell_new() }
    }

    /// Puts the facade into the slot, where the slot is empty. Where it is
    /// not, the slot stays as it is and the error is
    /// [`TelemetryError::AlreadyInitialized`]. Of the callers that race for an
    /// empty slot, one wins.
    ///
    /// Success means that this facade is the one that the slot holds for
    /// good. A refusal means that the slot holds one, which no later call
    /// replaces.
    pub fn init(&self, facade: Telemetry) -> (result: TelemetryResult<()>)
        ensures
            result is Ok ==> self.facade() == Some(facade),
            result is Err ==> self.facade() is Some,
            result matches Err(error) ==> error == TelemetryError::AlreadyInitialized,
    {
        Self::init_outcome(cell_set(&self.cell, facade))
    }

    /// The facade in the slot, or `None` while the slot is empty. A facade
    /// that is found is the one that the slot holds for good: the facade of
    /// the `init` that succeeded, whichever call finds it.
    pub fn get(&self) -> (found: Option<&Telemetry>)
        ensures
            found matches Some(facade) ==> self.facade() == Some(*facade),
    {
        cell_get(&self.cell)
    }

    /// What the slot's answer to a facade comes to for the caller: success
    /// where the slot took the facade, [`TelemetryError::AlreadyInitialized`]
    /// where it handed the facade back.
    pub fn init_outcome(outcome: Result<(), Telemetry>) -> (result: TelemetryResult<()>)
        ensures
            outcome is Ok ==> result is Ok,
            outcome is Err ==> result == Err::<(), _>(TelemetryError::AlreadyInitialized),
    {
        match outcome {
            Ok(_) => Ok(()),
            Err(_) => Err(TelemetryError::AlreadyInitialized),
        }
    }
}

} // verus!
