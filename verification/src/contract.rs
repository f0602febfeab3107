//! The record and goal managers: the four public operations of the service,
//! each an atomic read-compute-write unit against the store.
//!
//! Every operation's effect on the whole store is pinned by a spec-level
//! transition function, so that properties of operation sequences can be
//! stated and proved purely over [`StoreView`] values.

use vstd::prelude::*;

use crate::store::Store;
use crate::store::StoreView;
use crate::types::Error;
use crate::types::HealthGoal;
use crate::types::HealthRecord;

verus! {

broadcast use vstd::set::group_set_axioms, vstd::map::group_map_axioms;

/// One more than `x`, stopping at the largest representable value
/// (never wraps).
pub open spec fn saturating_inc(x: u32) -> u32 {
    if x < u32::MAX {
        (x + 1) as u32
    } else {
        u32::MAX
    }
}

/// One less than `x`, clamped at zero (never wraps).
pub open spec fn clamped_dec(x: u32) -> u32 {
    if x > 0 {
        (x - 1) as u32
    } else {
        0u32
    }
}

/// The record `update_health_record` builds: every field caller-supplied
/// except the timestamp, which is the ledger time of the call.
pub open spec fn built_record(
    user_id: u64,
    health_score: u32,
    goals_achieved: u32,
    active_goals: u32,
    now: u64,
) -> HealthRecord {
    HealthRecord { user_id, health_score, last_updated: now, goals_achieved, active_goals }
}

/// The store after a record write: the record replaces any prior one under
/// its key, and the user counter grows by one exactly when the key was new.
pub open spec fn record_written(s: StoreView, record: HealthRecord) -> StoreView {
    StoreView {
        records: s.records.insert(record.user_id, record),
        user_count: if s.records.contains_key(record.user_id) {
            s.user_count
        } else {
            (s.user_count + 1) as u64
        },
        ..s
    }
}

/// The goal `create_health_goal` mints: the identifier one past the goal
/// counter, zero progress, not completed.
pub open spec fn minted_goal(
    goal_count: u64,
    user_id: u64,
    description: String,
    target_value: u32,
    deadline: u64,
) -> HealthGoal {
    HealthGoal {
        goal_id: (goal_count + 1) as u64,
        user_id,
        description,
        target_value,
        current_value: 0u32,
        deadline,
        completed: false,
    }
}

/// `record` with one more active goal.
pub open spec fn record_with_new_goal(record: HealthRecord) -> HealthRecord {
    HealthRecord { active_goals: saturating_inc(record.active_goals), ..record }
}

/// The store after goal creation: the minted goal is stored under its
/// identifier, the goal counter advances to that identifier, and the owning
/// record — if one exists — gains an active goal. A goal for an unknown user
/// is created anyway, with no record side effect.
pub open spec fn goal_created(
    s: StoreView,
    user_id: u64,
    description: String,
    target_value: u32,
    deadline: u64,
) -> StoreView {
    let goal = minted_goal(s.goal_count, user_id, description, target_value, deadline);
    StoreView {
        goals: s.goals.insert(goal.goal_id, goal),
        goal_count: goal.goal_id,
        records: if s.records.contains_key(user_id) {
            s.records.insert(user_id, record_with_new_goal(s.records[user_id]))
        } else {
            s.records
        },
        ..s
    }
}

/// Whether a progress report completes the goal now: it must reach the
/// target and the goal must not already be completed. The second conjunct is
/// the guard that makes completion count exactly once.
pub open spec fn completes_now(goal: HealthGoal, current_value: u32) -> bool {
    !goal.completed && current_value >= goal.target_value
}

/// `goal` after a progress report: the reported value is always stored, and
/// `completed` is monotonic — once true it never reverts, even when the new
/// value falls back below the target.
pub open spec fn progressed_goal(goal: HealthGoal, current_value: u32) -> HealthGoal {
    HealthGoal {
        current_value,
        completed: goal.completed || current_value >= goal.target_value,
        ..goal
    }
}

/// The owner's record after one of its goals completes: one more achieved,
/// one fewer active (clamped at zero, never wrapping).
pub open spec fn record_after_completion(record: HealthRecord) -> HealthRecord {
    HealthRecord {
        goals_achieved: saturating_inc(record.goals_achieved),
        active_goals: clamped_dec(record.active_goals),
        ..record
    }
}

/// The store after a progress report on a goal that exists: the updated goal
/// replaces the old one, and the owner's record is adjusted exactly when
/// this report is the goal's completion and the owner has a record.
pub open spec fn progress_recorded(s: StoreView, goal_id: u64, current_value: u32) -> StoreView {
    let goal0 = s.goals[goal_id];
    let goal1 = progressed_goal(goal0, current_value);
    StoreView {
        goals: s.goals.insert(goal_id, goal1),
        records: if completes_now(goal0, current_value) && s.records.contains_key(goal0.user_id) {
            s.records.insert(goal0.user_id, record_after_completion(s.records[goal0.user_id]))
        } else {
            s.records
        },
        ..s
    }
}

/// Well-formedness of the whole store, established at creation and preserved
/// by every operation:
/// - goal identifiers in use are exactly the dense sequence `1 ..= goal_count`;
/// - every stored entity carries the key it is stored under;
/// - the user counter equals the number of registered users.
pub open spec fn wf_state(s: StoreView) -> bool {
    &&& forall|goal_id: u64| s.goals.contains_key(goal_id) <==> 1 <= goal_id <= s.goal_count
    &&& forall|goal_id: u64| s.goals.contains_key(goal_id) ==> (#[trigger] s.goals[goal_id]).goal_id
        == goal_id
    &&& forall|user_id: u64|
        s.records.contains_key(user_id) ==> (#[trigger] s.records[user_id]).user_id == user_id
    &&& s.records.dom().finite()
    &&& s.user_count == s.records.dom().len()
}

/// Build the record that `update_health_record` stores: every field
/// caller-supplied, the timestamp from the ledger.
pub fn build_record(
    user_id: u64,
    health_score: u32,
    goals_achieved: u32,
    active_goals: u32,
    now: u64,
) -> (record: HealthRecord)
    ensures
        record == built_record(user_id, health_score, goals_achieved, active_goals, now),
{
    HealthRecord { user_id, health_score, last_updated: now, goals_achieved, active_goals }
}

/// Mint the goal that `create_health_goal` stores, from the current value of
/// the goal counter.
pub fn mint_goal(
    goal_count: u64,
    user_id: u64,
    description: String,
    target_value: u32,
    deadline: u64,
) -> (goal: HealthGoal)
    requires
        goal_count < u64::MAX,
    ensures
        goal == minted_goal(goal_count, user_id, description, target_value, deadline),
{
    HealthGoal {
        goal_id: goal_count + 1,
        user_id,
        description,
        target_value,
        current_value: 0,
        deadline,
        completed: false,
    }
}

/// Count one more active goal on `record`, stopping at the largest
/// representable value.
pub fn record_with_goal_added(record: HealthRecord) -> (updated: HealthRecord)
    ensures
        updated == record_with_new_goal(record),
{
    HealthRecord {
        active_goals: if record.active_goals < u32::MAX {
            record.active_goals + 1
        } else {
            u32::MAX
        },
        ..record
    }
}

/// The decision core of `update_goal_progress`, over the two entities it
/// touches. The updated goal always carries the reported value and completes
/// exactly when the report reaches the target on a goal not yet completed;
/// the owner's record comes back updated — one more achieved, one fewer
/// active, clamped at zero — exactly when that happens and an owner record
/// was handed in.
pub fn apply_progress(goal: HealthGoal, owner: Option<HealthRecord>, current_value: u32) -> (outcome:
    (HealthGoal, Option<HealthRecord>))
    ensures
        outcome.0 == progressed_goal(goal, current_value),
        match owner {
            Some(record) => outcome.1 == (if completes_now(goal, current_value) {
                Some(record_after_completion(record))
            } else {
                None::<HealthRecord>
            }),
            None => outcome.1 == None::<HealthRecord>,
        },
{
    let completes = !goal.completed && current_value >= goal.target_value;
    let updated_goal = HealthGoal {
        current_value,
        completed: goal.completed || current_value >= goal.target_value,
        ..goal
    };
    let updated_record = if completes {
        match owner {
            Some(record) => Some(
                HealthRecord {
                    goals_achieved: if record.goals_achieved < u32::MAX {
                        record.goals_achieved + 1
                    } else {
                        u32::MAX
                    },
                    active_goals: if record.active_goals > 0 {
                        record.active_goals - 1
                    } else {
                        0
                    },
                    ..record
                },
            ),
            None => None,
        }
    } else {
        None
    };
    (updated_goal, updated_record)
}

/// The service itself: the managers over their shared store.
pub struct HealthCoachContract {
    store: Store,
}

impl View for HealthCoachContract {
    type V = StoreView;

    closed spec fn view(&self) -> StoreView {
        self.store@
    }
}

impl HealthCoachContract {
    /// Every operation keeps the store well formed.
    pub open spec fn wf(&self) -> bool {
        wf_state(self@)
    }

    /// A fresh service over an empty store.
    pub fn new() -> (contract: HealthCoachContract)
        ensures
            contract@ == StoreView::empty(),
            contract.wf(),
    {
        let contract = HealthCoachContract { store: Store::new() };
        proof {
            broadcast use vstd::set::axiom_set_empty_len;

            assert(contract@.records.dom() =~= Set::<u64>::empty());
        }
        contract
    }

    /// Create or replace a user's health record. The caller supplies every
    /// field; the timestamp is the ledger time `now`. The write replaces any
    /// prior record wholesale, and the user counter grows by one exactly
    /// when no record existed for `user_id` before.
    pub fn update_health_record(
        &mut self,
        user_id: u64,
        health_score: u32,
        goals_achieved: u32,
        active_goals: u32,
        now: u64,
    ) -> (record: HealthRecord)
        requires
            old(self).wf(),
            old(self)@.user_count < u64::MAX,
        ensures
            final(self).wf(),
            record == built_record(user_id, health_score, goals_achieved, active_goals, now),
            final(self)@ == record_written(old(self)@, record),
    {
        let record = build_record(user_id, health_score, goals_achieved, active_goals, now);
        let was_new = self.store.set_record(record);
        if was_new {
            let count = self.store.user_count();
            self.store.set_user_count(count + 1);
        }
        proof {
            if !old(self)@.records.contains_key(user_id) {
                vstd::set::axiom_set_insert_len(old(self)@.records.dom(), user_id);
            } else {
                assert(old(self)@.records.dom().insert(user_id) =~= old(self)@.records.dom());
            }
            assert(self@ =~= record_written(old(self)@, record));
        }
        record
    }

    /// Create a new goal. The goal counter is read, advanced by one, and the
    /// new value becomes the minted identifier, so identifiers form a dense
    /// sequence starting at 1 across all users. If the owning user has a
    /// record, its count of active goals grows by one (stopping at the
    /// largest representable value); if not, the goal is created anyway as
    /// an intentional orphan, with no record side effect.
    pub fn create_health_goal(
        &mut self,
        user_id: u64,
        description: String,
        target_value: u32,
        deadline: u64,
    ) -> (goal: HealthGoal)
        requires
            old(self).wf(),
            old(self)@.goal_count < u64::MAX,
        ensures
            final(self).wf(),
            goal == minted_goal(old(self)@.goal_count, user_id, description, target_value, deadline),
            final(self)@ == goal_created(old(self)@, user_id, description, target_value, deadline),
    {
        let goal_count = self.store.goal_count();
        let new_count = goal_count + 1;
        let goal = mint_goal(goal_count, user_id, description, target_value, deadline);
        let result = goal.clone();
        self.store.set_goal(goal);
        self.store.set_goal_count(new_count);
        if let Some(found) = self.store.get_record(user_id) {
            self.store.set_record(record_with_goal_added(found));
        }
        proof {
            if old(self)@.records.contains_key(user_id) {
                assert(self@.records.dom() =~= old(self)@.records.dom());
            }
            assert(self@ =~= goal_created(
                old(self)@,
                user_id,
                description,
                target_value,
                deadline,
            ));
        }
        result
    }

    /// Record progress on a goal. Fails with `NotFound` — leaving the whole
    /// store untouched — when no goal is stored under `goal_id`. Otherwise
    /// the reported value is always stored, even below the target; when the
    /// report completes the goal (reaches the target on a goal not already
    /// completed), the owner's record — if one exists — gains an achieved
    /// goal and loses an active one, exactly once over the goal's lifetime.
    pub fn update_goal_progress(&mut self, goal_id: u64, current_value: u32) -> (result: Result<
        HealthGoal,
        Error,
    >)
        requires
            old(self).wf(),
        ensures
            final(self).wf(),
            old(self)@.goals.contains_key(goal_id) ==> {
                &&& result == Ok::<HealthGoal, Error>(
                    progressed_goal(old(self)@.goals[goal_id], current_value),
                )
                &&& final(self)@ == progress_recorded(old(self)@, goal_id, current_value)
            },
            !old(self)@.goals.contains_key(goal_id) ==> {
                &&& result == Err::<HealthGoal, Error>(Error::NotFound)
                &&& final(self)@ == old(self)@
            },
    {
        let goal0 = match self.store.get_goal(goal_id) {
            Some(goal) => goal,
            None => {
                return Err(Error::NotFound);
            },
        };
        let owner = self.store.get_record(goal0.user_id);
        let (goal1, updated_record) = apply_progress(goal0, owner, current_value);
        let result = goal1.clone();
        self.store.set_goal(goal1);
        if let Some(updated) = updated_record {
            self.store.set_record(updated);
        }
        proof {
            assert(self@.records.dom() =~= old(self)@.records.dom());
            assert(self@.goals.dom() =~= old(self)@.goals.dom());
            assert(self@ =~= progress_recorded(old(self)@, goal_id, current_value));
        }
        Ok(result)
    }

    /// Look up a user's health record. Fails with `NotFound` when none
    /// exists; no default value is synthesized.
    pub fn get_health_record(&self, user_id: u64) -> (result: Result<HealthRecord, Error>)
        ensures
            self@.records.contains_key(user_id) ==> result == Ok::<HealthRecord, Error>(
                self@.records[user_id],
            ),
            !self@.records.contains_key(user_id) ==> result == Err::<HealthRecord, Error>(
                Error::NotFound,
            ),
    {
        match self.store.get_record(user_id) {
            Some(record) => Ok(record),
            None => Err(Error::NotFound),
        }
    }

    /// Look up a goal by its identifier. Fails with `NotFound` when none
    /// exists.
    pub fn get_health_goal(&self, goal_id: u64) -> (result: Result<HealthGoal, Error>)
        ensures
            self@.goals.contains_key(goal_id) ==> result == Ok::<HealthGoal, Error>(
                self@.goals[goal_id],
            ),
            !self@.goals.contains_key(goal_id) ==> result == Err::<HealthGoal, Error>(
                Error::NotFound,
            ),
    {
        match self.store.get_goal(goal_id) {
            Some(goal) => Ok(goal),
            None => Err(Error::NotFound),
        }
    }

    /// The number of users ever registered.
    pub fn user_count(&self) -> (count: u64)
        ensures
            count == self@.user_count,
    {
        self.store.user_count()
    }

    /// The number of goals ever minted.
    pub fn goal_count(&self) -> (count: u64)
        ensures
            count == self@.goal_count,
    {
        self.store.goal_count()
    }
}

} // verus!
