//! The flat key-value namespace that holds all durable state: one record per
//! user, one goal per minted goal identifier, and two standalone counters.
//!
//! Records and goals live in disjoint key spaces (each in its own table), and
//! the two counters have get-or-default-zero reads and overwrite-on-write
//! semantics, mirroring the two reserved sentinel keys of the host store.

use vstd::prelude::*;

use std::collections::HashMap;

use crate::types::HealthGoal;
use crate::types::HealthRecord;

verus! {

broadcast use vstd::std_specs::hash::group_hash_axioms;

/// Mathematical model of the whole persisted state.
#[verifier::ext_equal]
pub ghost struct StoreView {
    /// Health records, keyed by `user_id`.
    pub records: Map<u64, HealthRecord>,
    /// Health goals, keyed by `goal_id`.
    pub goals: Map<u64, HealthGoal>,
    /// Count of users ever registered.
    pub user_count: u64,
    /// Count of goals ever minted; also the highest goal identifier in use.
    pub goal_count: u64,
}

impl StoreView {
    /// The state of a store that has never been written to.
    pub open spec fn empty() -> StoreView {
        StoreView {
            records: Map::<u64, HealthRecord>::empty(),
            goals: Map::<u64, HealthGoal>::empty(),
            user_count: 0u64,
            goal_count: 0u64,
        }
    }
}

/// The durable key-value store.
pub struct Store {
    records: HashMap<u64, HealthRecord>,
    goals: HashMap<u64, HealthGoal>,
    user_count: u64,
    goal_count: u64,
}

impl View for Store {
    type V = StoreView;

    closed spec fn view(&self) -> StoreView {
        StoreView {
            records: self.records@,
            goals: self.goals@,
            user_count: self.user_count,
            goal_count: self.goal_count,
        }
    }
}

impl Store {
    /// A fresh store: no records, no goals, both counters at zero.
    pub fn new() -> (store: Store)
        ensures
            store@ == StoreView::empty(),
    {
        let store = Store {
            records: HashMap::new(),
            goals: HashMap::new(),
            user_count: 0,
            goal_count: 0,
        };
        proof {
            assert(store@ =~= StoreView::empty());
        }
        store
    }

    /// Look up the health record stored under `user_id`, if any.
    pub fn get_record(&self, user_id: u64) -> (result: Option<HealthRecord>)
        ensures
            match result {
                Some(record) => self@.records.contains_key(user_id) && record
                    == self@.records[user_id],
                None => !self@.records.contains_key(user_id),
            },
    {
        match self.records.get(&user_id) {
            Some(record) => Some(*record),
            None => None,
        }
    }

    /// Insert or update the record stored under its `user_id`, overwriting
    /// any prior record wholesale. Returns true exactly when no record was
    /// stored under that key before (insert, as opposed to update).
    pub fn set_record(&mut self, record: HealthRecord) -> (was_new: bool)
        ensures
            final(self)@ == (StoreView {
                records: old(self)@.records.insert(record.user_id, record),
                ..old(self)@
            }),
            was_new == !old(self)@.records.contains_key(record.user_id),
    {
        let previous = self.records.insert(record.user_id, record);
        previous.is_none()
    }

    /// Look up the goal stored under `goal_id`, if any.
    pub fn get_goal(&self, goal_id: u64) -> (result: Option<HealthGoal>)
        ensures
            match result {
                Some(goal) => self@.goals.contains_key(goal_id) && goal == self@.goals[goal_id],
                None => !self@.goals.contains_key(goal_id),
            },
    {
        match self.goals.get(&goal_id) {
            Some(goal) => Some(goal.clone()),
            None => None,
        }
    }

    /// Insert or update the goal stored under its `goal_id`. Returns true
    /// exactly when no goal was stored under that key before.
    pub fn set_goal(&mut self, goal: HealthGoal) -> (was_new: bool)
        ensures
            final(self)@ == (StoreView {
                goals: old(self)@.goals.insert(goal.goal_id, goal),
                ..old(self)@
            }),
            was_new == !old(self)@.goals.contains_key(goal.goal_id),
    {
        let goal_id = goal.goal_id;
        let previous = self.goals.insert(goal_id, goal);
        previous.is_none()
    }

    /// Read the user counter (zero until first written).
    pub fn user_count(&self) -> (count: u64)
        ensures
            count == self@.user_count,
    {
        self.user_count
    }

    /// Overwrite the user counter.
    pub fn set_user_count(&mut self, count: u64)
        ensures
            final(self)@ == (StoreView { user_count: count, ..old(self)@ }),
    {
        self.user_count = count;
    }

    /// Read the goal counter (zero until first written).
    pub fn goal_count(&self) -> (count: u64)
        ensures
            count == self@.goal_count,
    {
        self.goal_count
    }

    /// Overwrite the goal counter.
    pub fn set_goal_count(&mut self, count: u64)
        ensures
            final(self)@ == (StoreView { goal_count: count, ..old(self)@ }),
    {
        self.goal_count = count;
    }
}

} // verus!
