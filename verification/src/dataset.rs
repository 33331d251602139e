//! The dataset builder: three parallel arrays become an ordered collection
//! of interaction records.
//!
//! Insertion order is preserved — downstream sequence modeling is
//! order-sensitive — and no validation of id ranges happens here: out-of-range
//! ids are the engine's responsibility.

use vstd::prelude::*;

use crate::engine;
use crate::envelope::Envelope;

verus! {

/// One (user id, item id, timestamp) observation.
#[derive(Clone, Copy, Debug, PartialEq, Eq, Structural)]
pub struct Interaction {
    /// The user id.
    pub user_id: usize,
    /// The item id.
    pub item_id: usize,
    /// The timestamp.
    pub timestamp: usize,
}

impl Interaction {
    /// The record as a plain triple.
    pub open spec fn as_triple(&self) -> (usize, usize, usize) {
        (self.user_id, self.item_id, self.timestamp)
    }
}

/// An ordered collection of interaction records plus the declared user and
/// item cardinalities.
pub struct Dataset {
    /// The declared number of users.
    pub num_users: usize,
    /// The declared number of items.
    pub num_items: usize,
    /// The records, in insertion order.
    pub records: Vec<Interaction>,
}

/// Result type for [`Dataset`].
pub type InteractionsResult = Envelope<Dataset>;

impl Dataset {
    /// The records as plain triples, in order.
    pub open spec fn rec_seq(&self) -> Seq<(usize, usize, usize)> {
        self.records@.map_values(|r: Interaction| r.as_triple())
    }

    /// Hand the records to the engine: an engine-side dataset with the same
    /// cardinalities and the same records in the same order.
    pub fn to_engine(&self) -> (r: sbr::data::Interactions)
        ensures
            engine::dataset_records(r) == self.rec_seq(),
            engine::dataset_users(r) == self.num_users,
            engine::dataset_items(r) == self.num_items,
    {
        let mut dataset = engine::dataset_new(self.num_users, self.num_items);
        let mut idx: usize = 0;
        while idx < self.records.len()
            invariant
                idx <= self.records.len(),
                engine::dataset_records(dataset) == self.rec_seq().take(idx as int),
                engine::dataset_users(dataset) == self.num_users,
                engine::dataset_items(dataset) == self.num_items,
            decreases self.records.len() - idx,
        {
            let record = self.records[idx];
            engine::dataset_push(&mut dataset, record.user_id, record.item_id, record.timestamp);
            idx = idx + 1;
            proof {
                assert(engine::dataset_records(dataset) =~= self.rec_seq().take(idx as int));
            }
        }
        proof {
            assert(self.rec_seq().take(self.records@.len() as int) =~= self.rec_seq());
        }
        dataset
    }
}

/// Create an interaction dataset from input arrays.
///
/// The three arrays are read in lockstep: one record per index, in array
/// order.  This operation cannot fail, so the returned envelope always
/// carries a value.
pub fn interactions_new(
    num_users: usize,
    num_items: usize,
    users: &Vec<usize>,
    items: &Vec<usize>,
    timestamps: &Vec<usize>,
) -> (r: InteractionsResult)
    requires
        users@.len() == items@.len(),
        users@.len() == timestamps@.len(),
    ensures
        r.wf(),
        r.error is None,
        r.value matches Some(data) ==> data.num_users == num_users && data.num_items == num_items
            && data.rec_seq().len() == users@.len() && forall|j: int|
            0 <= j < users@.len() ==> #[trigger] data.rec_seq()[j] == (
                users@[j],
                items@[j],
                timestamps@[j],
            ),
{
    let mut records: Vec<Interaction> = Vec::new();
    let mut idx: usize = 0;
    while idx < users.len()
        invariant
            users@.len() == items@.len(),
            users@.len() == timestamps@.len(),
            idx <= users@.len(),
            records@.len() == idx,
            forall|j: int|
                0 <= j < idx ==> #[trigger] records@[j] == (Interaction {
                    user_id: users@[j],
                    item_id: items@[j],
                    timestamp: timestamps@[j],
                }),
        decreases users@.len() - idx,
    {
        records.push(
            Interaction { user_id: users[idx], item_id: items[idx], timestamp: timestamps[idx] },
        );
        idx = idx + 1;
    }
    Envelope::success(Dataset { num_users, num_items, records })
}

/// Reclaim an interaction dataset.  Consumes ownership: the collection is
/// dropped exactly once, and the handle cannot be used afterwards.
pub fn interactions_free(data: Dataset) {
    let _ = data;
}

} // verus!
