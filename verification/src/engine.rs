//! Trusted bindings to the outside collaborators: the `sbr` model engine and
//! the `bincode` codec.
//!
//! Everything in this module is believed, not proved.  Each binding is a thin
//! wrapper around one call into a collaborator; its contract states no more
//! than the collaborator's source shows.  Results that are functions of the
//! arguments alone but have no short description — the serialized state of a
//! model, the representation computed from a user history, the raw prediction
//! scores — are given uninterpreted names, and the verified layer reasons
//! about those names.
//!
//! Where a collaborator's routine panics on some input (an out-of-range id
//! used as an embedding index, a zero sequence length, more worker threads
//! than training sequences), the wrapper's `requires` leaves that input out.

use vstd::prelude::*;

use crate::hyperparameters::{Loss, Optimizer};
use sbr::OnlineRankingModel;

verus! {

// ---------------------------------------------------------------------------
// Declarations of the collaborators' types.  They are opaque: the verifier
// sees nothing inside a value of them.
// ---------------------------------------------------------------------------

#[verifier::external_type_specification]
#[verifier::external_body]
pub struct ExHyperparameters(sbr::models::lstm::Hyperparameters);

#[verifier::external_type_specification]
#[verifier::external_body]
pub struct ExImplicitLSTMModel(sbr::models::lstm::ImplicitLSTMModel);

#[verifier::external_type_specification]
#[verifier::external_body]
pub struct ExImplicitUser(sbr::models::ImplicitUser);

#[verifier::external_type_specification]
#[verifier::external_body]
pub struct ExInteractions(sbr::data::Interactions);

#[verifier::external_type_specification]
#[verifier::external_body]
pub struct ExFittingError(sbr::FittingError);

#[verifier::external_type_specification]
#[verifier::external_body]
pub struct ExPredictionError(sbr::PredictionError);

#[verifier::external_type_specification]
#[verifier::external_body]
pub struct ExBincodeErrorKind(bincode::ErrorKind);

// ---------------------------------------------------------------------------
// Names for what the collaborators hold and compute.
// ---------------------------------------------------------------------------

/// The bytes the codec produces for a model: the model's entire state
/// (hyperparameters, random-number-generator state, and weights).  Equal
/// states mean equal behaviour everywhere below.
pub uninterp spec fn model_state(model: sbr::models::lstm::ImplicitLSTMModel) -> Seq<u8>;

/// The number of items the model was configured with.  Item ids at or above
/// this bound have no embedding row, and the engine's lookups panic on them.
pub uninterp spec fn model_capacity(model: sbr::models::lstm::ImplicitLSTMModel) -> usize;

/// The maximum sequence length the model was configured with.
pub uninterp spec fn model_max_seq(model: sbr::models::lstm::ImplicitLSTMModel) -> usize;

/// The number of worker threads the model was configured with.
pub uninterp spec fn model_threads(model: sbr::models::lstm::ImplicitLSTMModel) -> usize;

/// The embedding dimensionality the model was configured with.
pub uninterp spec fn model_embedding_dim(model: sbr::models::lstm::ImplicitLSTMModel) -> usize;

/// The learning rate the model was configured with, as its bit pattern.
pub uninterp spec fn model_learning_rate_bits(model: sbr::models::lstm::ImplicitLSTMModel) -> u32;

/// The L2 penalty the model was configured with, as its bit pattern.
pub uninterp spec fn model_l2_penalty_bits(model: sbr::models::lstm::ImplicitLSTMModel) -> u32;

/// Whether the model was configured with coupled forget and update gates.
pub uninterp spec fn model_coupled(model: sbr::models::lstm::ImplicitLSTMModel) -> bool;

/// The tag of the loss variant the model was configured with.
pub uninterp spec fn model_loss_tag(model: sbr::models::lstm::ImplicitLSTMModel) -> u8;

/// The tag of the optimizer variant the model was configured with.
pub uninterp spec fn model_optimizer_tag(model: sbr::models::lstm::ImplicitLSTMModel) -> u8;

/// The number of epochs per fitting call the model was configured with.
pub uninterp spec fn model_epochs(model: sbr::models::lstm::ImplicitLSTMModel) -> usize;

/// The number of items a configuration object was built with.
pub uninterp spec fn cfg_capacity(config: sbr::models::lstm::Hyperparameters) -> usize;

/// The maximum sequence length a configuration object was built with.
pub uninterp spec fn cfg_max_seq(config: sbr::models::lstm::Hyperparameters) -> usize;

/// The number of worker threads a configuration object was built with.
pub uninterp spec fn cfg_threads(config: sbr::models::lstm::Hyperparameters) -> usize;

/// The embedding dimensionality a configuration object was built with.
pub uninterp spec fn cfg_embedding_dim(config: sbr::models::lstm::Hyperparameters) -> usize;

/// The learning rate a configuration object was built with, as its bit
/// pattern.
pub uninterp spec fn cfg_learning_rate_bits(config: sbr::models::lstm::Hyperparameters) -> u32;

/// The L2 penalty a configuration object was built with, as its bit pattern.
pub uninterp spec fn cfg_l2_penalty_bits(config: sbr::models::lstm::Hyperparameters) -> u32;

/// Whether a configuration object selects coupled forget and update gates.
pub uninterp spec fn cfg_coupled(config: sbr::models::lstm::Hyperparameters) -> bool;

/// The tag of the loss variant a configuration object was built with.
pub uninterp spec fn cfg_loss_tag(config: sbr::models::lstm::Hyperparameters) -> u8;

/// The tag of the optimizer variant a configuration object was built with.
pub uninterp spec fn cfg_optimizer_tag(config: sbr::models::lstm::Hyperparameters) -> u8;

/// The number of epochs per fitting call a configuration object was built
/// with.
pub uninterp spec fn cfg_epochs(config: sbr::models::lstm::Hyperparameters) -> usize;

/// The state of a configuration object's random-number generator.
pub uninterp spec fn cfg_rng_state(config: sbr::models::lstm::Hyperparameters) -> Seq<u8>;

/// The generator state that seeding with the given sixteen bytes produces —
/// the deterministic function of the seed that `XorShiftRng::from_seed`
/// computes, so a configuration seeded twice with the same bytes initializes
/// identically.
pub uninterp spec fn seeded_state(seed: Seq<u8>) -> Seq<u8>;

/// The embedding the engine computes from a user history: the bit patterns of
/// its single-precision entries.
pub uninterp spec fn repr_state(user: sbr::models::ImplicitUser) -> Seq<u32>;

/// The user representation the engine computes from a model state and a user
/// history — a function of the two alone.
pub uninterp spec fn repr_of(state: Seq<u8>, history: Seq<usize>) -> Seq<u32>;

/// The raw prediction scores the engine computes from a model state, a user
/// representation and a list of item ids: one single-precision bit pattern
/// per requested id, in request order — a function of the three alone.
pub uninterp spec fn scores_of(state: Seq<u8>, repr: Seq<u32>, item_ids: Seq<usize>) -> Seq<u32>;

/// The interaction records an engine-side dataset holds, in insertion order,
/// as (user id, item id, timestamp) triples.
pub uninterp spec fn dataset_records(dataset: sbr::data::Interactions) -> Seq<(usize, usize, usize)>;

/// The user cardinality an engine-side dataset was declared with.
pub uninterp spec fn dataset_users(dataset: sbr::data::Interactions) -> usize;

/// The item cardinality an engine-side dataset was declared with.
pub uninterp spec fn dataset_items(dataset: sbr::data::Interactions) -> usize;

/// A single-precision bit pattern is finite: its exponent field is not all
/// ones (which would make it an infinity or a not-a-number).
pub open spec fn is_finite_bits(bits: u32) -> bool {
    (bits >> 23) & 0xff != 0xff
}

// ---------------------------------------------------------------------------
// How many training sequences the engine derives from a dataset.  The engine
// groups records by user, splits every user's sequence into chunks (a first
// chunk of `len % max_seq` records when that is not zero, then chunks of
// `max_seq`), and trains on the chunks longer than two records.  Fitting
// fails — with no other failure mode — exactly when no such chunk exists.
// ---------------------------------------------------------------------------

/// How many records of `records` belong to `user`.
pub open spec fn user_count(records: Seq<(usize, usize, usize)>, user: usize) -> nat {
    records.filter(|r: (usize, usize, usize)| r.0 == user).len()
}

/// How many training chunks a single user's sequence of `len` records yields
/// under maximum sequence length `max_seq`.
pub open spec fn eligible_chunks(len: nat, max_seq: nat) -> nat
    recommends
        max_seq >= 1,
{
    (if max_seq > 2 {
        len / max_seq
    } else {
        0nat
    }) + (if len % max_seq > 2 {
        1nat
    } else {
        0nat
    })
}

/// How many training sequences the engine derives from `records` over users
/// `0 .. num_users`.
pub open spec fn training_sequences(
    records: Seq<(usize, usize, usize)>,
    num_users: usize,
    max_seq: usize,
) -> nat
    decreases num_users,
{
    if num_users == 0 {
        0nat
    } else {
        training_sequences(records, (num_users - 1) as usize, max_seq) + eligible_chunks(
            user_count(records, (num_users - 1) as usize),
            max_seq as nat,
        )
    }
}

// ---------------------------------------------------------------------------
// The engine-side dataset.
// ---------------------------------------------------------------------------

/// Relies on `sbr::data::Interactions::new`: a dataset with the given
/// cardinalities and no records.
#[verifier::external_body]
pub(crate) fn dataset_new(num_users: usize, num_items: usize) -> (r: sbr::data::Interactions)
    ensures
        dataset_records(r) == Seq::<(usize, usize, usize)>::empty(),
        dataset_users(r) == num_users,
        dataset_items(r) == num_items,
{
    sbr::data::Interactions::new(num_users, num_items)
}

/// Relies on `sbr::data::Interaction::new` and `sbr::data::Interactions::push`:
/// appends one record, touching nothing else.
#[verifier::external_body]
pub(crate) fn dataset_push(
    dataset: &mut sbr::data::Interactions,
    user_id: usize,
    item_id: usize,
    timestamp: usize,
)
    ensures
        dataset_records(*final(dataset)) == dataset_records(*old(dataset)).push(
            (user_id, item_id, timestamp),
        ),
        dataset_users(*final(dataset)) == dataset_users(*old(dataset)),
        dataset_items(*final(dataset)) == dataset_items(*old(dataset)),
{
    dataset.push(sbr::data::Interaction::new(user_id, item_id, timestamp))
}

// ---------------------------------------------------------------------------
// Configuration and model construction.
// ---------------------------------------------------------------------------

/// Relies on `sbr::models::lstm::Hyperparameters::new` and its builder
/// methods: each stores the given field verbatim and reads nothing else.
/// Parallelism is pinned to synchronous updates, and the seed makes
/// initialization deterministic.  The two bit-pattern fields are
/// reinterpreted as single-precision numbers through `bincode::deserialize`,
/// which decodes such a number from exactly its four little-endian bytes.
#[verifier::external_body]
pub(crate) fn engine_config(
    num_items: usize,
    max_sequence_length: usize,
    item_embedding_dim: usize,
    learning_rate_bits: u32,
    l2_penalty_bits: u32,
    coupled: bool,
    loss: Loss,
    optimizer: Optimizer,
    num_threads: usize,
    num_epochs: usize,
    random_seed: [u8; 16],
) -> (r: sbr::models::lstm::Hyperparameters)
    ensures
        cfg_capacity(r) == num_items,
        cfg_max_seq(r) == max_sequence_length,
        cfg_threads(r) == num_threads,
        cfg_embedding_dim(r) == item_embedding_dim,
        cfg_learning_rate_bits(r) == learning_rate_bits,
        cfg_l2_penalty_bits(r) == l2_penalty_bits,
        cfg_coupled(r) == coupled,
        cfg_loss_tag(r) == loss.tag(),
        cfg_optimizer_tag(r) == optimizer.tag(),
        cfg_epochs(r) == num_epochs,
        cfg_rng_state(r) == seeded_state(random_seed@),
{
    sbr::models::lstm::Hyperparameters::new(num_items, max_sequence_length)
        .embedding_dim(item_embedding_dim)
        .learning_rate(bincode::deserialize(&learning_rate_bits.to_le_bytes()[..]).expect("four bytes"))
        .l2_penalty(bincode::deserialize(&l2_penalty_bits.to_le_bytes()[..]).expect("four bytes"))
        .lstm_variant(if coupled { sbr::models::lstm::LSTMVariant::Coupled } else { sbr::models::lstm::LSTMVariant::Normal })
        .loss(match loss { Loss::BPR => sbr::models::Loss::BPR, Loss::Hinge => sbr::models::Loss::Hinge, Loss::WARP => sbr::models::Loss::WARP })
        .optimizer(match optimizer { Optimizer::Adagrad => sbr::models::Optimizer::Adagrad, Optimizer::Adam => sbr::models::Optimizer::Adam })
        .num_threads(num_threads)
        .num_epochs(num_epochs)
        .parallelism(sbr::models::Parallelism::Synchronous)
        .from_seed(random_seed)
}

/// Relies on `sbr::models::lstm::Hyperparameters::build`: it consumes the
/// configuration and produces a model carrying every one of its
/// hyperparameter fields unchanged.  (The generator state is not carried
/// verbatim: initializing the weights draws from it.)
#[verifier::external_body]
pub(crate) fn engine_build(config: sbr::models::lstm::Hyperparameters) -> (r:
    sbr::models::lstm::ImplicitLSTMModel)
    ensures
        model_capacity(r) == cfg_capacity(config),
        model_max_seq(r) == cfg_max_seq(config),
        model_threads(r) == cfg_threads(config),
        model_embedding_dim(r) == cfg_embedding_dim(config),
        model_learning_rate_bits(r) == cfg_learning_rate_bits(config),
        model_l2_penalty_bits(r) == cfg_l2_penalty_bits(config),
        model_coupled(r) == cfg_coupled(config),
        model_loss_tag(r) == cfg_loss_tag(config),
        model_optimizer_tag(r) == cfg_optimizer_tag(config),
        model_epochs(r) == cfg_epochs(config),
{
    config.build()
}

// ---------------------------------------------------------------------------
// Fitting, prediction and evaluation.
// ---------------------------------------------------------------------------

/// Relies on `sbr::data::Interactions::to_compressed` and
/// `sbr::models::lstm::ImplicitLSTMModel::fit`.  Fitting groups the records
/// by user and trains on the chunks longer than two records; it fails, with
/// `NoInteractions` as its only failure, exactly when there is no such chunk.
/// It updates the model's weights and random-number-generator state but
/// never its hyperparameters.  The `requires` exclude the inputs on which the
/// engine aborts: an empty item universe, ids outside the declared
/// cardinalities, item ids without an embedding row, a zero thread count, and
/// more threads than training chunks.
#[verifier::external_body]
pub(crate) fn engine_fit(
    model: &mut sbr::models::lstm::ImplicitLSTMModel,
    data: &sbr::data::Interactions,
) -> (r: Result<u32, sbr::FittingError>)
    requires
        model_max_seq(*old(model)) >= 1,
        model_threads(*old(model)) >= 1,
        dataset_items(*data) >= 1,
        dataset_items(*data) <= model_capacity(*old(model)),
        forall|j: int|
            0 <= j < dataset_records(*data).len() ==> (#[trigger] dataset_records(
                *data,
            )[j]).0 < dataset_users(*data) && dataset_records(*data)[j].1 < model_capacity(
                *old(model),
            ),
        training_sequences(
            dataset_records(*data),
            dataset_users(*data),
            model_max_seq(*old(model)),
        ) == 0 || model_threads(*old(model)) <= training_sequences(
            dataset_records(*data),
            dataset_users(*data),
            model_max_seq(*old(model)),
        ),
    ensures
        r is Err <==> training_sequences(
            dataset_records(*data),
            dataset_users(*data),
            model_max_seq(*old(model)),
        ) == 0,
        model_capacity(*final(model)) == model_capacity(*old(model)),
        model_max_seq(*final(model)) == model_max_seq(*old(model)),
        model_threads(*final(model)) == model_threads(*old(model)),
        model_embedding_dim(*final(model)) == model_embedding_dim(*old(model)),
        model_learning_rate_bits(*final(model)) == model_learning_rate_bits(*old(model)),
        model_l2_penalty_bits(*final(model)) == model_l2_penalty_bits(*old(model)),
        model_coupled(*final(model)) == model_coupled(*old(model)),
        model_loss_tag(*final(model)) == model_loss_tag(*old(model)),
        model_optimizer_tag(*final(model)) == model_optimizer_tag(*old(model)),
        model_epochs(*final(model)) == model_epochs(*old(model)),
{
    model.fit(&data.to_compressed()).map(|loss| loss.to_bits())
}

/// Relies on `sbr::OnlineRankingModel::user_representation` for the LSTM
/// model: a deterministic forward pass over the last `max_seq` entries of the
/// history, a function of the model state and the history alone.  For this
/// model it has no failure path: every return is `Ok`.  The `requires`
/// exclude the inputs on which the engine aborts: a zero sequence length, ids
/// without an embedding row, and an empty embedding table (the network's
/// placeholder inputs select row zero even for an empty history).
#[verifier::external_body]
pub(crate) fn engine_user_representation(
    model: &sbr::models::lstm::ImplicitLSTMModel,
    history: &Vec<usize>,
) -> (r: Result<sbr::models::ImplicitUser, sbr::PredictionError>)
    requires
        model_max_seq(*model) >= 1,
        model_capacity(*model) >= 1,
        forall|j: int| 0 <= j < history@.len() ==> #[trigger] history@[j] < model_capacity(*model),
    ensures
        r is Ok,
        r matches Ok(user) ==> repr_state(user) == repr_of(model_state(*model), history@),
{
    model.user_representation(history.as_slice())
}

/// Relies on `sbr::OnlineRankingModel::predict` for the LSTM model: one
/// deterministic score per requested id, in request order, a function of the
/// model state, the representation and the ids alone.  It fails, with
/// `InvalidPredictionValue` as its only failure, exactly when one of those
/// scores is not finite.  The `requires` exclude ids without an embedding
/// row, on which the engine aborts.
#[verifier::external_body]
pub(crate) fn engine_predict(
    model: &sbr::models::lstm::ImplicitLSTMModel,
    user: &sbr::models::ImplicitUser,
    item_ids: &Vec<usize>,
) -> (r: Result<Vec<u32>, sbr::PredictionError>)
    requires
        forall|j: int| 0 <= j < item_ids@.len() ==> #[trigger] item_ids@[j] < model_capacity(*model),
    ensures
        r matches Ok(scores) ==> scores@ == scores_of(
            model_state(*model),
            repr_state(*user),
            item_ids@,
        ) && scores@.len() == item_ids@.len() && forall|j: int|
            0 <= j < scores@.len() ==> is_finite_bits(#[trigger] scores@[j]),
        r is Err ==> exists|j: int|
            0 <= j < item_ids@.len() && !is_finite_bits(
                #[trigger] scores_of(model_state(*model), repr_state(*user), item_ids@)[j],
            ),
        (forall|j: int|
            0 <= j < item_ids@.len() ==> is_finite_bits(
                #[trigger] scores_of(model_state(*model), repr_state(*user), item_ids@)[j],
            )) ==> r is Ok,
{
    model.predict(user, item_ids.as_slice()).map(|scores| scores.iter().map(|score| score.to_bits()).collect())
}

/// The outcome of the engine's mean-reciprocal-rank evaluation: `None` when
/// some computed score is not finite (its only failure), otherwise the bit
/// pattern of the mean.  A function of the model state and the dataset alone:
/// the evaluation walks the users in order, scores them deterministically,
/// and averages sequentially.
pub uninterp spec fn mrr_of(
    state: Seq<u8>,
    records: Seq<(usize, usize, usize)>,
    num_users: usize,
    num_items: usize,
) -> Option<u32>;

/// Relies on `sbr::evaluation::mrr_score` and
/// `sbr::data::Interactions::to_compressed`: the mean reciprocal rank of each
/// user's held-out last item, with `InvalidPredictionValue` as its only
/// failure, raised exactly when a computed score is not finite.  The
/// `requires` exclude the inputs on which the engine aborts: a zero sequence
/// length, ids outside the declared cardinalities, and an item universe wider
/// than the model's.
#[verifier::external_body]
pub(crate) fn engine_mrr_score(
    model: &sbr::models::lstm::ImplicitLSTMModel,
    data: &sbr::data::Interactions,
) -> (r: Result<u32, sbr::PredictionError>)
    requires
        model_max_seq(*model) >= 1,
        dataset_items(*data) <= model_capacity(*model),
        forall|j: int|
            0 <= j < dataset_records(*data).len() ==> (#[trigger] dataset_records(
                *data,
            )[j]).0 < dataset_users(*data) && dataset_records(*data)[j].1 < dataset_items(*data),
    ensures
        r matches Ok(bits) ==> mrr_of(
            model_state(*model),
            dataset_records(*data),
            dataset_users(*data),
            dataset_items(*data),
        ) == Some(bits),
        r is Err <==> mrr_of(
            model_state(*model),
            dataset_records(*data),
            dataset_users(*data),
            dataset_items(*data),
        ) is None,
{
    sbr::evaluation::mrr_score(model, &data.to_compressed()).map(|score| score.to_bits())
}

// ---------------------------------------------------------------------------
// The codec.
// ---------------------------------------------------------------------------

/// Relies on `bincode::serialized_size`: the exact byte length of the
/// encoding of the model, recomputed from its current state.  Encoding a
/// value of this model type into a byte sink cannot fail, and the length of
/// an in-memory byte buffer fits a machine word.
#[verifier::external_body]
pub(crate) fn codec_serialized_size(model: &sbr::models::lstm::ImplicitLSTMModel) -> (r: usize)
    ensures
        r == model_state(*model).len(),
{
    bincode::serialized_size(model).expect("in-memory encoding cannot fail") as usize
}

/// Relies on `bincode::serialize`: the encoding of the model's entire state
/// as a fresh byte vector.  Encoding a value of this model type cannot fail.
#[verifier::external_body]
pub(crate) fn codec_serialize(model: &sbr::models::lstm::ImplicitLSTMModel) -> (r: Vec<u8>)
    ensures
        r@ == model_state(*model),
{
    bincode::serialize(model).expect("in-memory encoding cannot fail")
}

/// Relies on `bincode::deserialize`: decoding is the inverse of encoding, so
/// any byte sequence that is the encoded state of some model decodes
/// successfully, to a model with that same state — and hence the same
/// hyperparameters and the same behaviour everywhere above.
#[verifier::external_body]
pub(crate) fn codec_deserialize(data: &Vec<u8>) -> (r: Result<
    sbr::models::lstm::ImplicitLSTMModel,
    Box<bincode::ErrorKind>,
>)
    ensures
        forall|m: sbr::models::lstm::ImplicitLSTMModel|
            (#[trigger] model_state(m)) == data@ ==> r is Ok,
        r matches Ok(decoded) ==> forall|m: sbr::models::lstm::ImplicitLSTMModel|
            (#[trigger] model_state(m)) == data@ ==> model_state(decoded) == data@
                && model_capacity(decoded) == model_capacity(m) && model_max_seq(decoded)
                == model_max_seq(m) && model_threads(decoded) == model_threads(m)
                && model_embedding_dim(decoded) == model_embedding_dim(m)
                && model_learning_rate_bits(decoded) == model_learning_rate_bits(m)
                && model_l2_penalty_bits(decoded) == model_l2_penalty_bits(m) && model_coupled(
                decoded,
            ) == model_coupled(m) && model_loss_tag(decoded) == model_loss_tag(m)
                && model_optimizer_tag(decoded) == model_optimizer_tag(m) && model_epochs(decoded)
                == model_epochs(m),
{
    bincode::deserialize(data.as_slice())
}

} // verus!
