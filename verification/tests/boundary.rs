//! End-to-end exercises of the marshaling layer against the real engine and
//! codec.

use sbr_ffi::{
    implicit_lstm_deserialize, implicit_lstm_fit, implicit_lstm_free,
    implicit_lstm_get_serialized_size, implicit_lstm_mrr_score, implicit_lstm_new,
    implicit_lstm_predict, implicit_lstm_serialize, interactions_free, interactions_new,
    Diagnostic, Envelope, LSTMHyperparameters,
};

fn valid_record() -> LSTMHyperparameters {
    LSTMHyperparameters {
        num_items: 6,
        max_sequence_length: 4,
        item_embedding_dim: 8,
        learning_rate_bits: 0.05_f32.to_bits(),
        l2_penalty_bits: 0.0_f32.to_bits(),
        coupled: 0,
        loss: 0,
        optimizer: 0,
        num_threads: 1,
        num_epochs: 2,
        random_seed: [42u8; 16],
    }
}

fn small_dataset() -> sbr_ffi::Dataset {
    // Two users; the first has four interactions, enough for one training
    // sequence under a maximum sequence length of four.
    let users = vec![0usize, 0, 0, 0, 1, 1, 1];
    let items = vec![1usize, 2, 3, 4, 2, 3, 5];
    let timestamps = vec![1usize, 2, 3, 4, 1, 2, 3];
    let envelope = interactions_new(2, 6, &users, &items, &timestamps);
    assert!(envelope.error.is_none());
    envelope.value.unwrap()
}

fn fitted_model() -> sbr::models::lstm::ImplicitLSTMModel {
    let envelope = implicit_lstm_new(valid_record());
    let mut model = envelope.value.unwrap();
    let data = small_dataset();
    let fit = implicit_lstm_fit(&mut model, &data);
    assert!(fit.value.is_some(), "fitting the small dataset must succeed");
    interactions_free(data);
    model
}

#[test]
fn envelope_success_has_exactly_one_slot() {
    let envelope = Envelope::success(5u32);
    assert!(envelope.value.is_some());
    assert!(envelope.error.is_none());
}

#[test]
fn envelope_failure_has_exactly_one_slot() {
    let envelope: Envelope<u32> = Envelope::failure(Diagnostic::FittingFailed);
    assert!(envelope.value.is_none());
    assert_eq!(envelope.error, Some(Diagnostic::FittingFailed));
}

#[test]
fn envelope_wrap_matches_outcome() {
    let ok: Envelope<u32> = Envelope::wrap(Ok(7));
    assert_eq!(ok.value, Some(7));
    assert!(ok.error.is_none());
    let err: Envelope<u32> = Envelope::wrap(Err(Diagnostic::BadPrediction));
    assert!(err.value.is_none());
    assert_eq!(err.error, Some(Diagnostic::BadPrediction));
}

#[test]
fn registry_messages_are_fixed_and_distinct() {
    let kinds = [
        Diagnostic::InvalidOptimizer,
        Diagnostic::InvalidLoss,
        Diagnostic::FittingFailed,
        Diagnostic::BadPrediction,
        Diagnostic::BadRepresentation,
        Diagnostic::BadSerialization,
        Diagnostic::SerializationTooSmall,
        Diagnostic::BadDeserialization,
    ];
    assert_eq!(
        sbr_ffi::errors::message(Diagnostic::FittingFailed),
        "Failure fitting model"
    );
    assert_eq!(
        sbr_ffi::errors::message(Diagnostic::BadPrediction),
        "Invalid prediction value: NaN or +/- inifinity"
    );
    assert_eq!(
        sbr_ffi::errors::message(Diagnostic::SerializationTooSmall),
        "Not enough space allocated for serialization"
    );
    for a in kinds.iter() {
        for b in kinds.iter() {
            if a != b {
                assert_ne!(sbr_ffi::errors::message(*a), sbr_ffi::errors::message(*b));
            }
        }
    }
}

#[test]
fn dataset_preserves_order() {
    let users = vec![1usize, 2, 3];
    let items = vec![4usize, 5, 6];
    let timestamps = vec![7usize, 8, 9];
    let envelope = interactions_new(10, 10, &users, &items, &timestamps);
    assert!(envelope.error.is_none());
    let data = envelope.value.unwrap();
    assert_eq!(data.num_users, 10);
    assert_eq!(data.num_items, 10);
    let triples: Vec<(usize, usize, usize)> = data
        .records
        .iter()
        .map(|r| (r.user_id, r.item_id, r.timestamp))
        .collect();
    assert_eq!(triples, vec![(1, 4, 7), (2, 5, 8), (3, 6, 9)]);
}

#[test]
fn unrecognized_optimizer_selector_is_rejected() {
    let mut record = valid_record();
    record.optimizer = 9;
    let envelope = implicit_lstm_new(record);
    assert!(envelope.value.is_none(), "no model may be constructed");
    assert_eq!(envelope.error, Some(Diagnostic::InvalidOptimizer));
}

#[test]
fn unrecognized_loss_selector_is_rejected() {
    let mut record = valid_record();
    record.loss = 7;
    let envelope = implicit_lstm_new(record);
    assert!(envelope.value.is_none());
    assert_eq!(envelope.error, Some(Diagnostic::InvalidLoss));
}

#[test]
fn optimizer_is_checked_before_loss() {
    let mut record = valid_record();
    record.optimizer = 9;
    record.loss = 7;
    let envelope = implicit_lstm_new(record);
    assert_eq!(envelope.error, Some(Diagnostic::InvalidOptimizer));
}

#[test]
fn construction_succeeds_for_every_known_selector_pair() {
    for optimizer in 0u8..2 {
        for loss in 0u8..3 {
            let mut record = valid_record();
            record.optimizer = optimizer;
            record.loss = loss;
            let envelope = implicit_lstm_new(record);
            assert!(envelope.error.is_none());
            implicit_lstm_free(envelope.value.unwrap());
        }
    }
}

#[test]
fn fitting_an_empty_dataset_fails() {
    let envelope = implicit_lstm_new(valid_record());
    let mut model = envelope.value.unwrap();
    let empty = interactions_new(2, 6, &vec![], &vec![], &vec![]).value.unwrap();
    let fit = implicit_lstm_fit(&mut model, &empty);
    assert!(fit.value.is_none());
    assert_eq!(fit.error, Some(Diagnostic::FittingFailed));
    implicit_lstm_free(model);
}

#[test]
fn fitting_returns_a_finite_loss() {
    let envelope = implicit_lstm_new(valid_record());
    let mut model = envelope.value.unwrap();
    let data = small_dataset();
    let fit = implicit_lstm_fit(&mut model, &data);
    assert!(fit.error.is_none());
    let loss = f32::from_bits(fit.value.unwrap());
    assert!(loss.is_finite());
    implicit_lstm_free(model);
}

#[test]
fn predictions_fill_the_buffer_in_order() {
    let model = fitted_model();
    let history = vec![1usize, 2];
    let item_ids = vec![3usize, 4, 5];
    let mut out = vec![0u32; 3];
    let diagnostic = implicit_lstm_predict(&model, &history, &item_ids, &mut out);
    assert!(diagnostic.is_none());
    for bits in out.iter() {
        assert!(f32::from_bits(*bits).is_finite());
    }
    // Scoring a single id out of the same request yields the same score in
    // the slot the caller asked for.
    let mut single = vec![0u32; 1];
    let diagnostic = implicit_lstm_predict(&model, &history, &vec![4usize], &mut single);
    assert!(diagnostic.is_none());
    assert_eq!(single[0], out[1]);
    implicit_lstm_free(model);
}

#[test]
fn prediction_is_deterministic_for_a_fixed_model() {
    let model = fitted_model();
    let history = vec![1usize, 2, 3];
    let item_ids = vec![0usize, 1, 2, 3, 4, 5];
    let mut first = vec![0u32; 6];
    let mut second = vec![0u32; 6];
    assert!(implicit_lstm_predict(&model, &history, &item_ids, &mut first).is_none());
    assert!(implicit_lstm_predict(&model, &history, &item_ids, &mut second).is_none());
    assert_eq!(first, second);
    implicit_lstm_free(model);
}

#[test]
fn size_query_is_idempotent_absent_mutation() {
    let model = fitted_model();
    let first = implicit_lstm_get_serialized_size(&model);
    let second = implicit_lstm_get_serialized_size(&model);
    assert_eq!(first, second);
    assert!(first > 0);
    implicit_lstm_free(model);
}

#[test]
fn bounded_write_rejects_a_short_buffer_and_writes_nothing() {
    let model = fitted_model();
    let size = implicit_lstm_get_serialized_size(&model);
    let mut short = vec![0xABu8; size - 1];
    let diagnostic = implicit_lstm_serialize(&model, &mut short);
    assert_eq!(diagnostic, Some(Diagnostic::SerializationTooSmall));
    assert!(short.iter().all(|b| *b == 0xAB), "no byte may be written");
    implicit_lstm_free(model);
}

#[test]
fn bounded_write_succeeds_with_an_exact_buffer() {
    let model = fitted_model();
    let size = implicit_lstm_get_serialized_size(&model);
    let mut exact = vec![0u8; size];
    let diagnostic = implicit_lstm_serialize(&model, &mut exact);
    assert!(diagnostic.is_none());
    let reconstructed = implicit_lstm_deserialize(&exact);
    assert!(reconstructed.error.is_none());
    implicit_lstm_free(reconstructed.value.unwrap());
    implicit_lstm_free(model);
}

#[test]
fn bounded_write_leaves_the_tail_of_a_larger_buffer_untouched() {
    let model = fitted_model();
    let size = implicit_lstm_get_serialized_size(&model);
    let mut larger = vec![0xCDu8; size + 5];
    let diagnostic = implicit_lstm_serialize(&model, &mut larger);
    assert!(diagnostic.is_none());
    assert!(larger[size..].iter().all(|b| *b == 0xCD));
    implicit_lstm_free(model);
}

#[test]
fn deserializing_garbage_fails() {
    let garbage = vec![1u8, 2, 3];
    let envelope = implicit_lstm_deserialize(&garbage);
    assert!(envelope.value.is_none());
    assert_eq!(envelope.error, Some(Diagnostic::BadDeserialization));
}

#[test]
fn round_trip_preserves_predictions_bit_for_bit() {
    let model = fitted_model();
    let size = implicit_lstm_get_serialized_size(&model);
    let mut buffer = vec![0u8; size];
    assert!(implicit_lstm_serialize(&model, &mut buffer).is_none());
    let reconstructed = implicit_lstm_deserialize(&buffer).value.unwrap();

    let history = vec![2usize, 3, 1];
    let item_ids = vec![0usize, 1, 2, 3, 4, 5];
    let mut original_scores = vec![0u32; 6];
    let mut reconstructed_scores = vec![0u32; 6];
    assert!(implicit_lstm_predict(&model, &history, &item_ids, &mut original_scores).is_none());
    assert!(
        implicit_lstm_predict(&reconstructed, &history, &item_ids, &mut reconstructed_scores)
            .is_none()
    );
    assert_eq!(original_scores, reconstructed_scores);
    implicit_lstm_free(reconstructed);
    implicit_lstm_free(model);
}

#[test]
fn round_trip_preserves_the_serialized_size() {
    let model = fitted_model();
    let size = implicit_lstm_get_serialized_size(&model);
    let mut buffer = vec![0u8; size];
    assert!(implicit_lstm_serialize(&model, &mut buffer).is_none());
    let reconstructed = implicit_lstm_deserialize(&buffer).value.unwrap();
    assert_eq!(implicit_lstm_get_serialized_size(&reconstructed), size);
    implicit_lstm_free(reconstructed);
    implicit_lstm_free(model);
}

#[test]
fn mrr_score_of_a_fitted_model_is_a_value() {
    let model = fitted_model();
    let data = small_dataset();
    let score = implicit_lstm_mrr_score(&model, &data);
    assert!(score.error.is_none());
    let score = f32::from_bits(score.value.unwrap());
    assert!(score.is_finite());
    assert!(score > 0.0 && score <= 1.0);
    interactions_free(data);
    implicit_lstm_free(model);
}

#[test]
fn non_finite_scores_return_the_invalid_prediction_diagnostic() {
    // An infinite learning rate drives the weights to NaN during the first
    // update, so every later score is non-finite.
    let mut record = valid_record();
    record.learning_rate_bits = f32::INFINITY.to_bits();
    record.num_epochs = 1;
    let mut model = implicit_lstm_new(record).value.unwrap();
    let data = small_dataset();
    let _ = implicit_lstm_fit(&mut model, &data);
    interactions_free(data);

    let history = vec![1usize, 2];
    let item_ids = vec![3usize, 4, 5];
    let mut out = vec![0xDEADBEEFu32; 3];
    let diagnostic = implicit_lstm_predict(&model, &history, &item_ids, &mut out);
    assert_eq!(diagnostic, Some(Diagnostic::BadPrediction));
    // The buffer is left entirely unwritten.
    assert!(out.iter().all(|bits| *bits == 0xDEADBEEF));
    implicit_lstm_free(model);
}

#[test]
fn predictions_depend_on_the_history() {
    let model = fitted_model();
    let item_ids = vec![0usize, 1, 2, 3, 4, 5];
    let mut from_short = vec![0u32; 6];
    let mut from_long = vec![0u32; 6];
    assert!(implicit_lstm_predict(&model, &vec![1usize], &item_ids, &mut from_short).is_none());
    assert!(
        implicit_lstm_predict(&model, &vec![4usize, 5, 2, 3], &item_ids, &mut from_long).is_none()
    );
    assert_ne!(from_short, from_long);
    implicit_lstm_free(model);
}

#[test]
fn mrr_score_is_a_function_of_model_and_dataset() {
    let model = fitted_model();
    let data = small_dataset();
    let first = implicit_lstm_mrr_score(&model, &data);
    let second = implicit_lstm_mrr_score(&model, &data);
    assert_eq!(first.value, second.value);
    assert_eq!(first.error, second.error);
    interactions_free(data);
    implicit_lstm_free(model);
}
