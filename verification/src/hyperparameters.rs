//! The hyperparameter record and its translation into the engine's
//! configuration type.
//!
//! The record is plain data with a fixed layout: enums arrive as small tagged
//! values and are validated here, numeric fields are passed through without
//! range validation (the engine is responsible for rejecting nonsensical
//! values during fitting), and the two learning-rate-like fields carry the
//! raw bit patterns of IEEE-754 single-precision numbers.

use vstd::prelude::*;

use crate::engine;
use crate::errors::Diagnostic;

verus! {

/// Loss type.
#[derive(Clone, Copy, Debug, PartialEq, Eq, Structural)]
pub enum Loss {
    /// Bayesian Personalised Ranking.
    BPR,
    /// Pairwise hinge loss.
    Hinge,
    /// Weighted Approximate Pairwise loss.  This is likely
    /// to have the best accuracy at the expense of some speed.
    WARP,
}

impl Loss {
    /// The tagged value that stands for this variant.
    pub open spec fn tag(&self) -> u8 {
        match self {
            Loss::BPR => 0,
            Loss::Hinge => 1,
            Loss::WARP => 2,
        }
    }

    /// The loss variant a tagged value stands for, if any.
    pub open spec fn spec_from_tag(tag: u8) -> Option<Loss> {
        if tag == 0 {
            Some(Loss::BPR)
        } else if tag == 1 {
            Some(Loss::Hinge)
        } else if tag == 2 {
            Some(Loss::WARP)
        } else {
            None
        }
    }

    /// Map a tagged value to its loss variant; unrecognized tags map to `None`.
    pub fn from_tag(tag: u8) -> (r: Option<Loss>)
        ensures
            r == Loss::spec_from_tag(tag),
    {
        if tag == 0 {
            Some(Loss::BPR)
        } else if tag == 1 {
            Some(Loss::Hinge)
        } else if tag == 2 {
            Some(Loss::WARP)
        } else {
            None
        }
    }
}

/// Optimizer type.
#[derive(Clone, Copy, Debug, PartialEq, Eq, Structural)]
pub enum Optimizer {
    /// Adagrad.
    Adagrad,
    /// Adam.
    Adam,
}

impl Optimizer {
    /// The tagged value that stands for this variant.
    pub open spec fn tag(&self) -> u8 {
        match self {
            Optimizer::Adagrad => 0,
            Optimizer::Adam => 1,
        }
    }

    /// The optimizer variant a tagged value stands for, if any.
    pub open spec fn spec_from_tag(tag: u8) -> Option<Optimizer> {
        if tag == 0 {
            Some(Optimizer::Adagrad)
        } else if tag == 1 {
            Some(Optimizer::Adam)
        } else {
            None
        }
    }

    /// Map a tagged value to its optimizer variant; unrecognized tags map to
    /// `None`.
    pub fn from_tag(tag: u8) -> (r: Option<Optimizer>)
        ensures
            r == Optimizer::spec_from_tag(tag),
    {
        if tag == 0 {
            Some(Optimizer::Adagrad)
        } else if tag == 1 {
            Some(Optimizer::Adam)
        } else {
            None
        }
    }
}

/// Configuration record for building an LSTM recommendation model.
///
/// Constructed by the caller, consumed by value during translation, never
/// retained afterwards.
pub struct LSTMHyperparameters {
    /// Number of items in the dataset.
    pub num_items: usize,
    /// Maximum sequence length to consider when
    /// computing a user representation.
    pub max_sequence_length: usize,
    /// Internal embedding dimensionality.
    pub item_embedding_dim: usize,
    /// Initial learning rate, as the bit pattern of a single-precision number.
    pub learning_rate_bits: u32,
    /// L2 penalty, as the bit pattern of a single-precision number.
    pub l2_penalty_bits: u32,
    /// Coupled: should we use coupled forget and update gates.  0 for false,
    /// 1 for true.
    pub coupled: usize,
    /// Loss: the tag of one of the [`Loss`] variants.
    pub loss: u8,
    /// Optimizer: the tag of one of the [`Optimizer`] variants.
    pub optimizer: u8,
    /// Number of threads to use when fitting.
    pub num_threads: usize,
    /// Number of epochs to run.
    pub num_epochs: usize,
    /// Random seed to use.
    pub random_seed: [u8; 16],
}

impl LSTMHyperparameters {
    /// The optimizer selector maps to a known variant.
    pub open spec fn optimizer_valid(&self) -> bool {
        Optimizer::spec_from_tag(self.optimizer) is Some
    }

    /// The loss selector maps to a known variant.
    pub open spec fn loss_valid(&self) -> bool {
        Loss::spec_from_tag(self.loss) is Some
    }

    /// Both selectors map to known variants: translation succeeds exactly here.
    pub open spec fn valid(&self) -> bool {
        self.optimizer_valid() && self.loss_valid()
    }

    /// Convert to the engine's configuration object.
    ///
    /// Validation order: the optimizer selector is checked first, then the
    /// loss selector; every other field is passed through verbatim.
    pub fn convert(&self) -> (r: Result<sbr::models::lstm::Hyperparameters, Diagnostic>)
        ensures
            r is Ok <==> self.valid(),
            !self.optimizer_valid() ==> r == Err::<sbr::models::lstm::Hyperparameters, Diagnostic>(
                Diagnostic::InvalidOptimizer,
            ),
            self.optimizer_valid() && !self.loss_valid() ==> r == Err::<
                sbr::models::lstm::Hyperparameters,
                Diagnostic,
            >(Diagnostic::InvalidLoss),
            r matches Ok(config) ==> engine::cfg_capacity(config) == self.num_items
                && engine::cfg_max_seq(config) == self.max_sequence_length
                && engine::cfg_threads(config) == self.num_threads && engine::cfg_embedding_dim(
                config,
            ) == self.item_embedding_dim && engine::cfg_learning_rate_bits(config)
                == self.learning_rate_bits && engine::cfg_l2_penalty_bits(config)
                == self.l2_penalty_bits && engine::cfg_coupled(config) == (self.coupled == 1)
                && engine::cfg_loss_tag(config) == self.loss && engine::cfg_optimizer_tag(config)
                == self.optimizer && engine::cfg_epochs(config) == self.num_epochs
                && engine::cfg_rng_state(config) == engine::seeded_state(self.random_seed@),
    {
        let optimizer = match Optimizer::from_tag(self.optimizer) {
            Some(optimizer) => optimizer,
            None => {
                return Err(Diagnostic::InvalidOptimizer);
            },
        };
        let loss = match Loss::from_tag(self.loss) {
            Some(loss) => loss,
            None => {
                return Err(Diagnostic::InvalidLoss);
            },
        };
        Ok(
            engine::engine_config(
                self.num_items,
                self.max_sequence_length,
                self.item_embedding_dim,
                self.learning_rate_bits,
                self.l2_penalty_bits,
                self.coupled == 1,
                loss,
                optimizer,
                self.num_threads,
                self.num_epochs,
                self.random_seed,
            ),
        )
    }
}

} // verus!
