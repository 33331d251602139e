//! The error registry: a fixed taxonomy of diagnostics.
//!
//! Every failure that crosses the boundary is one of these kinds.  Each kind
//! has a fixed diagnostic message with process-wide lifetime; the messages are
//! pairwise distinct, so a failure is distinguishable by content alone.

use vstd::prelude::*;

verus! {

/// The kinds of failure this layer can report.
#[derive(Clone, Copy, Debug, PartialEq, Eq, Structural)]
pub enum Diagnostic {
    /// The optimizer selector of a hyperparameter record is not a known variant.
    InvalidOptimizer,
    /// The loss selector of a hyperparameter record is not a known variant.
    InvalidLoss,
    /// The engine failed while fitting the model.
    FittingFailed,
    /// A produced prediction or score is not a number or infinite.
    BadPrediction,
    /// The user history could not be turned into a user representation.
    BadRepresentation,
    /// The codec failed to serialize the model.
    BadSerialization,
    /// The destination buffer is shorter than the serialized model.
    SerializationTooSmall,
    /// The codec failed to reconstruct a model from the given bytes.
    BadDeserialization,
}

/// The diagnostic text registered for `kind`.
pub open spec fn spec_message(kind: Diagnostic) -> Seq<char> {
    match kind {
        Diagnostic::InvalidOptimizer => "Unrecognized optimizer selector"@,
        Diagnostic::InvalidLoss => "Unrecognized loss function selector"@,
        Diagnostic::FittingFailed => "Failure fitting model"@,
        Diagnostic::BadPrediction => "Invalid prediction value: NaN or +/- inifinity"@,
        Diagnostic::BadRepresentation => "Unable to compute user representation."@,
        Diagnostic::BadSerialization => "Unable to serialize model."@,
        Diagnostic::SerializationTooSmall => "Not enough space allocated for serialization"@,
        Diagnostic::BadDeserialization => "Unable to deserialize model."@,
    }
}

/// Look a diagnostic up in the registry.  The returned string has `'static`
/// lifetime: it is never allocated per call and must never be freed.
pub fn message(kind: Diagnostic) -> (r: &'static str)
    ensures
        r@ == spec_message(kind),
{
    match kind {
        Diagnostic::InvalidOptimizer => "Unrecognized optimizer selector",
        Diagnostic::InvalidLoss => "Unrecognized loss function selector",
        Diagnostic::FittingFailed => "Failure fitting model",
        Diagnostic::BadPrediction => "Invalid prediction value: NaN or +/- inifinity",
        Diagnostic::BadRepresentation => "Unable to compute user representation.",
        Diagnostic::BadSerialization => "Unable to serialize model.",
        Diagnostic::SerializationTooSmall => "Not enough space allocated for serialization",
        Diagnostic::BadDeserialization => "Unable to deserialize model.",
    }
}

/// Distinct kinds carry distinct diagnostic texts: a caller may therefore
/// tell failures apart by comparing message contents.
pub proof fn lemma_messages_distinct(k1: Diagnostic, k2: Diagnostic)
    requires
        k1 != k2,
    ensures
        spec_message(k1) != spec_message(k2),
{
    reveal_strlit("Unrecognized optimizer selector");
    reveal_strlit("Unrecognized loss function selector");
    reveal_strlit("Failure fitting model");
    reveal_strlit("Invalid prediction value: NaN or +/- inifinity");
    reveal_strlit("Unable to compute user representation.");
    reveal_strlit("Unable to serialize model.");
    reveal_strlit("Not enough space allocated for serialization");
    reveal_strlit("Unable to deserialize model.");
    assert(spec_message(k1).len() != spec_message(k2).len());
}

} // verus!
