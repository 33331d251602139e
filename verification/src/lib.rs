//! A safe marshaling layer over the `sbr` sequence-recommendation engine.
//!
//! The engine itself (training, prediction, evaluation) and the `bincode`
//! codec for model persistence are outside collaborators, reached through a
//! small set of trusted bindings in [`engine`].  Everything this crate owns —
//! the value-or-error result envelope, the error registry, hyperparameter
//! validation, the dataset builder, and the size-query / bounded-write /
//! read-back serialization protocol — is verified.
//!
//! Every fallible operation reports its outcome through an [`envelope::Envelope`]:
//! exactly one of its two slots (value, error) is ever occupied.  Scalar values
//! that the engine produces as IEEE-754 single-precision numbers are carried
//! across this layer as their raw bit patterns (`u32`), so that the layer
//! itself never performs floating-point arithmetic; callers reinterpret the
//! bits on their side of the boundary.

pub mod dataset;
pub mod engine;
pub mod envelope;
pub mod errors;
pub mod hyperparameters;
pub mod model;

pub use dataset::{interactions_free, interactions_new, Dataset, Interaction, InteractionsResult};
pub use envelope::Envelope;
pub use errors::Diagnostic;
pub use hyperparameters::{LSTMHyperparameters, Loss, Optimizer};
pub use model::{
    implicit_lstm_deserialize, implicit_lstm_fit, implicit_lstm_free,
    implicit_lstm_get_serialized_size, implicit_lstm_mrr_score, implicit_lstm_new,
    implicit_lstm_predict, implicit_lstm_serialize, FloatResult, ImplicitLSTMModelResult,
};
