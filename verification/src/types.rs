//! The two persisted entities and the single failure kind.

use vstd::prelude::*;

verus! {

/// A user's aggregate health summary. One exists per user, keyed by
/// `user_id`; it is created or replaced wholesale on every write.
#[derive(Clone, Copy, PartialEq, Eq, Structural, Debug)]
pub struct HealthRecord {
    /// Immutable primary key.
    pub user_id: u64,
    /// Caller-supplied score; no range is enforced.
    pub health_score: u32,
    /// Ledger timestamp of the most recent write of this record.
    pub last_updated: u64,
    /// Number of this user's goals that have been completed.
    pub goals_achieved: u32,
    /// Number of this user's goals that are still open.
    pub active_goals: u32,
}

/// A single health goal. Goal identifiers are minted as a dense sequence
/// starting at 1, globally across all users.
#[derive(Debug)]
pub struct HealthGoal {
    /// Immutable primary key, assigned sequentially from 1.
    pub goal_id: u64,
    /// Owning user; a weak reference, never checked at creation time.
    pub user_id: u64,
    /// Free-form text, immutable after creation.
    pub description: String,
    /// Progress value at which the goal counts as completed.
    pub target_value: u32,
    /// Most recently reported progress; starts at 0.
    pub current_value: u32,
    /// Advisory timestamp; no operation enforces it.
    pub deadline: u64,
    /// False at creation; becomes true exactly once and never reverts.
    pub completed: bool,
}

impl Clone for HealthGoal {
    /// A clone equals the value it was cloned from, field for field.
    fn clone(&self) -> (result: Self)
        ensures
            result == *self,
    {
        HealthGoal {
            goal_id: self.goal_id,
            user_id: self.user_id,
            description: self.description.clone(),
            target_value: self.target_value,
            current_value: self.current_value,
            deadline: self.deadline,
            completed: self.completed,
        }
    }
}

/// The only failure kind: a lookup by primary key found nothing, for an
/// operation that has no default-construction fallback.
#[derive(Clone, Copy, PartialEq, Eq, Structural, Debug)]
pub enum Error {
    NotFound,
}

} // verus!
