//! Model lifecycle operations: construct, fit, predict, score, free, and the
//! size-query / bounded-write / read-back serialization protocol.
//!
//! Every fallible operation returns its outcome through an envelope or a
//! nullable diagnostic, never by panicking; where the engine would abort on
//! an input (an id without an embedding row, a zero sequence length), the
//! operation's `requires` leaves that input out, exactly as the boundary
//! contract documents it as caller discipline.

use vstd::prelude::*;

use crate::dataset::Dataset;
use crate::engine;
use crate::envelope::Envelope;
use crate::errors::Diagnostic;
use crate::hyperparameters::LSTMHyperparameters;

verus! {

/// Result type for the LSTM model.
pub type ImplicitLSTMModelResult = Envelope<sbr::models::lstm::ImplicitLSTMModel>;

/// Result type for a scalar the engine produced, carried as the bit pattern
/// of an IEEE-754 single-precision number.
pub type FloatResult = Envelope<u32>;

/// Build a new model from hyperparameters.
/// The caller owns the returned object and should free
/// it with the corresponding `free` function.
///
/// The record's selectors are validated — optimizer first, then loss — and
/// on failure no model is constructed; on success the model carries every
/// field of the record one-to-one: cardinality, sequence length, embedding
/// dimensionality, learning rate and L2 penalty (as bit patterns), gate
/// coupling, loss, optimizer, thread and epoch counts.  The random seed is
/// consumed by weight initialization rather than stored, so it has no
/// projection on the model; [`crate::hyperparameters::LSTMHyperparameters::convert`]
/// pins the generator state it produces.
pub fn implicit_lstm_new(hyperparameters: LSTMHyperparameters) -> (r: ImplicitLSTMModelResult)
    ensures
        r.wf(),
        r.is_value() <==> hyperparameters.valid(),
        !hyperparameters.optimizer_valid() ==> r.error == Some(Diagnostic::InvalidOptimizer),
        hyperparameters.optimizer_valid() && !hyperparameters.loss_valid() ==> r.error == Some(
            Diagnostic::InvalidLoss,
        ),
        r.value matches Some(model) ==> engine::model_capacity(model)
            == hyperparameters.num_items && engine::model_max_seq(model)
            == hyperparameters.max_sequence_length && engine::model_threads(model)
            == hyperparameters.num_threads && engine::model_embedding_dim(model)
            == hyperparameters.item_embedding_dim && engine::model_learning_rate_bits(model)
            == hyperparameters.learning_rate_bits && engine::model_l2_penalty_bits(model)
            == hyperparameters.l2_penalty_bits && engine::model_coupled(model) == (
        hyperparameters.coupled == 1) && engine::model_loss_tag(model) == hyperparameters.loss
            && engine::model_optimizer_tag(model) == hyperparameters.optimizer
            && engine::model_epochs(model) == hyperparameters.num_epochs,
{
    match hyperparameters.convert() {
        Ok(config) => Envelope::success(engine::engine_build(config)),
        Err(kind) => Envelope::failure(kind),
    }
}

/// Fit the model.
///
/// The engine derives training sequences from the dataset (see
/// [`engine::training_sequences`]); fitting fails — with the fitting-failure
/// diagnostic and no other — exactly when there are none.  On success the
/// envelope carries the engine's loss scalar, as its bit pattern.  The
/// model's hyperparameters survive fitting; only its weights and its
/// random-number-generator state change.
pub fn implicit_lstm_fit(
    model: &mut sbr::models::lstm::ImplicitLSTMModel,
    data: &Dataset,
) -> (r: FloatResult)
    requires
        engine::model_max_seq(*old(model)) >= 1,
        engine::model_threads(*old(model)) >= 1,
        data.num_items >= 1,
        data.num_items <= engine::model_capacity(*old(model)),
        forall|j: int|
            0 <= j < data.rec_seq().len() ==> (#[trigger] data.rec_seq()[j]).0 < data.num_users
                && data.rec_seq()[j].1 < engine::model_capacity(*old(model)),
        engine::training_sequences(data.rec_seq(), data.num_users, engine::model_max_seq(*old(model)))
            == 0 || engine::model_threads(*old(model)) <= engine::training_sequences(
            data.rec_seq(),
            data.num_users,
            engine::model_max_seq(*old(model)),
        ),
    ensures
        r.wf(),
        r.is_error() <==> engine::training_sequences(
            data.rec_seq(),
            data.num_users,
            engine::model_max_seq(*old(model)),
        ) == 0,
        r.is_error() ==> r.error == Some(Diagnostic::FittingFailed),
        engine::model_capacity(*final(model)) == engine::model_capacity(*old(model)),
        engine::model_max_seq(*final(model)) == engine::model_max_seq(*old(model)),
        engine::model_threads(*final(model)) == engine::model_threads(*old(model)),
        engine::model_embedding_dim(*final(model)) == engine::model_embedding_dim(*old(model)),
        engine::model_learning_rate_bits(*final(model)) == engine::model_learning_rate_bits(
            *old(model),
        ),
        engine::model_l2_penalty_bits(*final(model)) == engine::model_l2_penalty_bits(
            *old(model),
        ),
        engine::model_coupled(*final(model)) == engine::model_coupled(*old(model)),
        engine::model_loss_tag(*final(model)) == engine::model_loss_tag(*old(model)),
        engine::model_optimizer_tag(*final(model)) == engine::model_optimizer_tag(*old(model)),
        engine::model_epochs(*final(model)) == engine::model_epochs(*old(model)),
{
    let engine_data = data.to_engine();
    match engine::engine_fit(model, &engine_data) {
        Ok(loss_bits) => Envelope::success(loss_bits),
        Err(_) => Envelope::failure(Diagnostic::FittingFailed),
    }
}

/// Copy every score into the caller's buffer, one per slot, in order.
fn write_scores(out: &mut Vec<u32>, scores: &Vec<u32>)
    ensures
        final(out)@ == scores@,
{
    out.clear();
    let mut idx: usize = 0;
    while idx < scores.len()
        invariant
            idx <= scores@.len(),
            out@ == scores@.take(idx as int),
        decreases scores@.len() - idx,
    {
        out.push(scores[idx]);
        idx = idx + 1;
        proof {
            assert(out@ =~= scores@.take(idx as int));
        }
    }
    proof {
        assert(scores@.take(scores@.len() as int) =~= scores@);
    }
}

/// Get predictions out of the model.
///
/// Two stages: a user representation is computed from the history, then every
/// requested item id is scored against it, one output slot per id in request
/// order.  The call succeeds exactly when every score is finite; a non-finite
/// score returns the invalid-prediction diagnostic, and the output buffer is
/// then left exactly as it was — partial writes never occur.  The
/// representation stage of this engine cannot fail, so the
/// representation-failure diagnostic of the protocol is never produced.
pub fn implicit_lstm_predict(
    model: &sbr::models::lstm::ImplicitLSTMModel,
    user_history: &Vec<usize>,
    item_ids: &Vec<usize>,
    out: &mut Vec<u32>,
) -> (r: Option<Diagnostic>)
    requires
        engine::model_max_seq(*model) >= 1,
        engine::model_capacity(*model) >= 1,
        forall|j: int|
            0 <= j < user_history@.len() ==> #[trigger] user_history@[j] < engine::model_capacity(
                *model,
            ),
        forall|j: int|
            0 <= j < item_ids@.len() ==> #[trigger] item_ids@[j] < engine::model_capacity(*model),
        old(out)@.len() == item_ids@.len(),
    ensures
        r is Some ==> *final(out) == *old(out),
        r is Some ==> r == Some(Diagnostic::BadPrediction),
        r is None <==> forall|j: int|
            0 <= j < item_ids@.len() ==> engine::is_finite_bits(
                #[trigger] engine::scores_of(
                    engine::model_state(*model),
                    engine::repr_of(engine::model_state(*model), user_history@),
                    item_ids@,
                )[j],
            ),
        r is None ==> final(out)@ == engine::scores_of(
            engine::model_state(*model),
            engine::repr_of(engine::model_state(*model), user_history@),
            item_ids@,
        ) && final(out)@.len() == item_ids@.len() && forall|j: int|
            0 <= j < item_ids@.len() ==> engine::is_finite_bits(#[trigger] final(out)@[j]),
{
    let user = match engine::engine_user_representation(model, user_history) {
        Ok(user) => user,
        Err(_) => {
            return Some(Diagnostic::BadRepresentation);
        },
    };
    match engine::engine_predict(model, &user, item_ids) {
        Ok(scores) => {
            write_scores(out, &scores);
            None
        },
        Err(_) => Some(Diagnostic::BadPrediction),
    }
}

/// Compute the MRR (mean reciprocal rank) score for a fitted model.
///
/// Delegates to the engine's ranking-quality computation, whose outcome is a
/// function of the model state and the dataset alone ([`engine::mrr_of`]).
/// The envelope carries the evaluation's bits exactly when that outcome is
/// defined; its only failure — a non-finite prediction — maps to the
/// invalid-prediction diagnostic.
pub fn implicit_lstm_mrr_score(
    model: &sbr::models::lstm::ImplicitLSTMModel,
    data: &Dataset,
) -> (r: FloatResult)
    requires
        engine::model_max_seq(*model) >= 1,
        data.num_items <= engine::model_capacity(*model),
        forall|j: int|
            0 <= j < data.rec_seq().len() ==> (#[trigger] data.rec_seq()[j]).0 < data.num_users
                && data.rec_seq()[j].1 < data.num_items,
    ensures
        r.wf(),
        r.is_error() <==> engine::mrr_of(
            engine::model_state(*model),
            data.rec_seq(),
            data.num_users,
            data.num_items,
        ) is None,
        r.is_error() ==> r.error == Some(Diagnostic::BadPrediction),
        r.value matches Some(bits) ==> engine::mrr_of(
            engine::model_state(*model),
            data.rec_seq(),
            data.num_users,
            data.num_items,
        ) == Some(bits),
{
    let engine_data = data.to_engine();
    match engine::engine_mrr_score(model, &engine_data) {
        Ok(score_bits) => Envelope::success(score_bits),
        Err(_) => Envelope::failure(Diagnostic::BadPrediction),
    }
}

/// Get the size (in bytes) of the serialized model.
///
/// Recomputed freshly from the model's current state on every call, and
/// exact, not an upper bound: two calls without an intervening mutation
/// return the same figure.
pub fn implicit_lstm_get_serialized_size(model: &sbr::models::lstm::ImplicitLSTMModel) -> (r:
    usize)
    ensures
        r == engine::model_state(*model).len(),
{
    engine::codec_serialized_size(model)
}

/// Serialize the model into the provided buffer.
///
/// The buffer's length is checked against the current required size first:
/// if it is too short, nothing is written and the buffer-too-small diagnostic
/// is returned.  Otherwise the serialized state fills the front of the
/// buffer, the remainder is left as it was, and `None` reports success.
/// Writes are all-or-nothing.
pub fn implicit_lstm_serialize(
    model: &sbr::models::lstm::ImplicitLSTMModel,
    out: &mut Vec<u8>,
) -> (r: Option<Diagnostic>)
    ensures
        r is None <==> old(out)@.len() >= engine::model_state(*model).len(),
        r is Some ==> r == Some(Diagnostic::SerializationTooSmall) && *final(out) == *old(out),
        r is None ==> final(out)@.len() == old(out)@.len() && final(out)@.take(
            engine::model_state(*model).len() as int,
        ) == engine::model_state(*model) && final(out)@.skip(
            engine::model_state(*model).len() as int,
        ) == old(out)@.skip(engine::model_state(*model).len() as int),
{
    let bytes = engine::codec_serialize(model);
    if out.len() < bytes.len() {
        return Some(Diagnostic::SerializationTooSmall);
    }
    let mut idx: usize = 0;
    while idx < bytes.len()
        invariant
            idx <= bytes@.len(),
            bytes@.len() <= out@.len(),
            out@.len() == old(out)@.len(),
            forall|j: int| 0 <= j < idx ==> out@[j] == bytes@[j],
            forall|j: int| idx <= j < out@.len() ==> out@[j] == old(out)@[j],
        decreases bytes@.len() - idx,
    {
        out.set(idx, bytes[idx]);
        idx = idx + 1;
    }
    proof {
        assert(final(out)@.take(bytes@.len() as int) =~= bytes@);
        assert(final(out)@.skip(bytes@.len() as int) =~= old(out)@.skip(bytes@.len() as int));
    }
    None
}

/// Deserialize a model from a byte buffer.
///
/// Any byte sequence that is the serialized state of some model reconstructs
/// successfully, to a model with exactly that state — and therefore with the
/// same hyperparameters and the same predictions as the model it came from.
/// Any other input yields the deserialization-failure diagnostic.
pub fn implicit_lstm_deserialize(data: &Vec<u8>) -> (r: ImplicitLSTMModelResult)
    ensures
        r.wf(),
        r.is_error() ==> r.error == Some(Diagnostic::BadDeserialization),
        forall|m: sbr::models::lstm::ImplicitLSTMModel|
            (#[trigger] engine::model_state(m)) == data@ ==> r.is_value(),
        r.value matches Some(decoded) ==> forall|m: sbr::models::lstm::ImplicitLSTMModel|
            (#[trigger] engine::model_state(m)) == data@ ==> engine::model_state(decoded) == data@
                && engine::model_capacity(decoded) == engine::model_capacity(m)
                && engine::model_max_seq(decoded) == engine::model_max_seq(m)
                && engine::model_threads(decoded) == engine::model_threads(m),
{
    match engine::codec_deserialize(data) {
        Ok(decoded) => Envelope::success(decoded),
        Err(_) => Envelope::failure(Diagnostic::BadDeserialization),
    }
}

/// Free the model behind the handle.  Consumes ownership: the object is
/// dropped exactly once, and the handle cannot be used afterwards.
pub fn implicit_lstm_free(model: sbr::models::lstm::ImplicitLSTMModel) {
    let _ = model;
}

/// Round-trip: models with equal serialized state are indistinguishable to
/// prediction.  Combined with the contracts of [`implicit_lstm_serialize`]
/// and [`implicit_lstm_deserialize`], a model reconstructed from another's
/// serialized bytes yields bit-identical predictions for every history and
/// every requested item set.
pub proof fn lemma_state_determines_predictions(
    m1: sbr::models::lstm::ImplicitLSTMModel,
    m2: sbr::models::lstm::ImplicitLSTMModel,
    history: Seq<usize>,
    item_ids: Seq<usize>,
)
    requires
        engine::model_state(m1) == engine::model_state(m2),
    ensures
        engine::repr_of(engine::model_state(m1), history) == engine::repr_of(
            engine::model_state(m2),
            history,
        ),
        engine::scores_of(
            engine::model_state(m1),
            engine::repr_of(engine::model_state(m1), history),
            item_ids,
        ) == engine::scores_of(
            engine::model_state(m2),
            engine::repr_of(engine::model_state(m2), history),
            item_ids,
        ),
{
}

} // verus!
