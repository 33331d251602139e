//! The result envelope: the value-or-error container every fallible
//! boundary operation returns.
//!
//! An envelope has two slots.  On success the value slot holds the freshly
//! produced object, whose ownership passes to the caller; on failure the
//! error slot names an entry of the error registry.  Exactly one of the two
//! slots is ever occupied — never both, never neither.  [`Envelope::wf`]
//! states that invariant, and every operation of this crate that produces an
//! envelope ensures it.

use vstd::prelude::*;

use crate::errors::Diagnostic;

verus! {

/// A value-or-error pair.  See the module documentation for the invariant.
pub struct Envelope<T> {
    /// The produced value; the caller owns it exclusively.
    pub value: Option<T>,
    /// The registered kind of the failure.
    pub error: Option<Diagnostic>,
}

impl<T> Envelope<T> {
    /// Exactly one of the two slots is occupied.
    pub open spec fn wf(&self) -> bool {
        self.value is Some <==> self.error is None
    }

    /// The envelope reports success.
    pub open spec fn is_value(&self) -> bool {
        self.value is Some
    }

    /// The envelope reports failure.
    pub open spec fn is_error(&self) -> bool {
        self.error is Some
    }

    /// Wrap a successful outcome.
    pub fn success(value: T) -> (r: Self)
        ensures
            r.wf(),
            r.value == Some(value),
            r.error is None,
    {
        Envelope { value: Some(value), error: None }
    }

    /// Wrap a failure with the registered kind of the diagnostic.
    pub fn failure(kind: Diagnostic) -> (r: Self)
        ensures
            r.wf(),
            r.value is None,
            r.error == Some(kind),
    {
        Envelope { value: None, error: Some(kind) }
    }

    /// Wrap either outcome.
    pub fn wrap(outcome: Result<T, Diagnostic>) -> (r: Self)
        ensures
            r.wf(),
            outcome matches Ok(value) ==> r.value == Some(value) && r.error is None,
            outcome matches Err(kind) ==> r.value is None && r.error == Some(kind),
    {
        match outcome {
            Ok(value) => Self::success(value),
            Err(kind) => Self::failure(kind),
        }
    }
}

/// The central envelope invariant, stated once for every consumer: an
/// envelope is never empty and never double-booked, so reading the slot the
/// other slot rules out is always meaningful.
pub proof fn lemma_envelope_exclusive<T>(e: Envelope<T>)
    requires
        e.wf(),
    ensures
        e.is_value() <==> !e.is_error(),
{
}

} // verus!
