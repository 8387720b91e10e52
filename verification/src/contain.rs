//! Panic and error containment for boundary entry points.
//!
//! Every entry point runs its body under two guards.  The panic guard
//! catches an unexpected native fault and turns it into a best-effort
//! report; the error guard turns a typed failure into a host-visible
//! exception.  In both cases the call returns the entry point's declared
//! sentinel value, so a failure degrades to a local, typed, catchable
//! signal and never unwinds into the host runtime's call frame.
//!
//! This module decides what a contained call hands back; performing the
//! catch and raising the host exception is the unverified boundary
//! plumbing around the library.

use crate::errors::BridgeError;
use vstd::prelude::*;

verus! {

/// How the body of a boundary entry point ended.
pub enum Outcome<T> {
    /// The body returned a value.
    Success(T),
    /// The body failed with a typed error.
    Failure(BridgeError),
    /// The body panicked; the payload is the context tag naming the
    /// operation that faulted.
    Fault(String),
}

/// The signal a contained entry point raises into the host runtime.
#[derive(PartialEq, Debug)]
pub enum Raised {
    /// A typed failure, raised as the exception of its category.
    Error(BridgeError),
    /// An unexpected native fault, raised as a best-effort report naming
    /// the faulted operation (or discarded if even raising fails).
    Fault(String),
}

/// What a contained entry point hands back: the value to return across
/// the boundary, and the signal to raise, if any.
pub struct Contained<T> {
    /// The value returned across the boundary: the body's own value on
    /// success, the declared sentinel otherwise.
    pub value: T,
    /// The signal raised into the host runtime, if the body did not
    /// succeed.
    pub raised: Option<Raised>,
}

/// The contained result for an outcome, given the entry point's declared
/// sentinel value.
pub open spec fn spec_contain<T>(outcome: Outcome<T>, sentinel: T) -> Contained<T> {
    match outcome {
        Outcome::Success(value) => Contained { value, raised: None },
        Outcome::Failure(error) => Contained {
            value: sentinel,
            raised: Some(Raised::Error(error)),
        },
        Outcome::Fault(context) => Contained {
            value: sentinel,
            raised: Some(Raised::Fault(context)),
        },
    }
}

/// Contains the outcome of one boundary entry point: a success returns
/// the body's value and raises nothing; a typed failure or a fault
/// returns the declared sentinel and raises exactly one signal.
pub fn contain<T>(outcome: Outcome<T>, sentinel: T) -> (contained: Contained<T>)
    ensures
        contained == spec_contain(outcome, sentinel),
{
    match outcome {
        Outcome::Success(value) => Contained { value, raised: None },
        Outcome::Failure(error) => Contained {
            value: sentinel,
            raised: Some(Raised::Error(error)),
        },
        Outcome::Fault(context) => Contained {
            value: sentinel,
            raised: Some(Raised::Fault(context)),
        },
    }
}

/// Law (panic containment): whatever fault the body hits, the contained
/// call returns the declared sentinel and degrades the fault to a single
/// local report; it never hands the fault itself back.
pub proof fn lemma_fault_contained<T>(context: String, sentinel: T)
    ensures
        spec_contain(Outcome::Fault(context), sentinel).value == sentinel,
        spec_contain(Outcome::Fault(context), sentinel).raised == Some(Raised::Fault(context)),
{
}

/// Law: a contained call raises a signal exactly when the body did not
/// succeed, and returns the body's own value exactly on success.
pub proof fn lemma_contain_exact<T>(outcome: Outcome<T>, sentinel: T)
    ensures
        spec_contain(outcome, sentinel).raised is None <==> outcome is Success,
        outcome matches Outcome::Success(value) ==> spec_contain(outcome, sentinel).value == value,
        !(outcome is Success) ==> spec_contain(outcome, sentinel).value == sentinel,
{
}

} // verus!
