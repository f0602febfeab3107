//! Laws of the service, proved once and for all over the spec-level
//! transition functions that the operations' contracts are stated with.

use vstd::prelude::*;

use crate::contract::built_record;
use crate::contract::clamped_dec;
use crate::contract::goal_created;
use crate::contract::minted_goal;
use crate::contract::progress_recorded;
use crate::contract::progressed_goal;
use crate::contract::record_written;
use crate::contract::saturating_inc;
use crate::contract::wf_state;
use crate::store::StoreView;
use crate::types::HealthRecord;

verus! {

broadcast use vstd::set::group_set_axioms, vstd::map::group_map_axioms;

/// Law: a record write for a user never seen before advances the user
/// counter by exactly one, and every later write for that same user — now
/// registered — leaves the counter unchanged.
pub proof fn lemma_user_counted_once(s: StoreView, first: HealthRecord, second: HealthRecord)
    requires
        !s.records.contains_key(first.user_id),
        s.user_count < u64::MAX,
        second.user_id == first.user_id,
    ensures
        record_written(s, first).user_count == s.user_count + 1,
        record_written(record_written(s, first), second).user_count == record_written(
            s,
            first,
        ).user_count,
{
}

/// Law: right after a record write, the record stored for that user holds
/// exactly the written fields, with the ledger timestamp of the write.
pub proof fn lemma_record_read_back(
    s: StoreView,
    user_id: u64,
    health_score: u32,
    goals_achieved: u32,
    active_goals: u32,
    now: u64,
)
    ensures
        ({
            let written = record_written(
                s,
                built_record(user_id, health_score, goals_achieved, active_goals, now),
            );
            &&& written.records.contains_key(user_id)
            &&& written.records[user_id].user_id == user_id
            &&& written.records[user_id].health_score == health_score
            &&& written.records[user_id].goals_achieved == goals_achieved
            &&& written.records[user_id].active_goals == active_goals
            &&& written.records[user_id].last_updated == now
        }),
{
}

/// Law: goal creation mints the identifier one past the counter, and leaves
/// the identifiers in use exactly the dense sequence `1 ..=` the advanced
/// counter — so successive creations mint strictly increasing, consecutive
/// identifiers starting at 1, whatever the owning users are.
pub proof fn lemma_goal_ids_consecutive(
    s: StoreView,
    user_id: u64,
    description: String,
    target_value: u32,
    deadline: u64,
)
    requires
        wf_state(s),
        s.goal_count < u64::MAX,
    ensures
        minted_goal(s.goal_count, user_id, description, target_value, deadline).goal_id
            == s.goal_count + 1,
        goal_created(s, user_id, description, target_value, deadline).goal_count == s.goal_count
            + 1,
        forall|goal_id: u64|
            goal_created(s, user_id, description, target_value, deadline).goals.contains_key(
                goal_id,
            ) <==> 1 <= goal_id <= s.goal_count + 1,
{
}

/// Law: creating a goal for a user with a record raises that record's count
/// of active goals by exactly one and changes nothing else in it; creating a
/// goal for an unknown user leaves the record table — and the user counter —
/// entirely untouched.
pub proof fn lemma_create_goal_record_effect(
    s: StoreView,
    user_id: u64,
    description: String,
    target_value: u32,
    deadline: u64,
)
    requires
        s.records.contains_key(user_id) ==> s.records[user_id].active_goals < u32::MAX,
    ensures
        ({
            let created = goal_created(s, user_id, description, target_value, deadline);
            &&& created.user_count == s.user_count
            &&& s.records.contains_key(user_id) ==> {
                &&& created.records[user_id].active_goals == s.records[user_id].active_goals + 1
                &&& created.records[user_id].user_id == s.records[user_id].user_id
                &&& created.records[user_id].health_score == s.records[user_id].health_score
                &&& created.records[user_id].last_updated == s.records[user_id].last_updated
                &&& created.records[user_id].goals_achieved == s.records[user_id].goals_achieved
            }
            &&& !s.records.contains_key(user_id) ==> created.records == s.records
        }),
{
}

/// Law: completion is counted exactly once. The first report at or above the
/// target marks the goal completed and adjusts the owner's record — one more
/// achieved, one fewer active, clamped at zero; any further qualifying
/// report still stores the value but leaves every record exactly as it was.
pub proof fn lemma_completion_counted_once(s: StoreView, goal_id: u64, v1: u32, v2: u32)
    requires
        s.goals.contains_key(goal_id),
        !s.goals[goal_id].completed,
        v1 >= s.goals[goal_id].target_value,
        v2 >= s.goals[goal_id].target_value,
    ensures
        ({
            let owner = s.goals[goal_id].user_id;
            let after_one = progress_recorded(s, goal_id, v1);
            let after_two = progress_recorded(after_one, goal_id, v2);
            &&& after_one.goals[goal_id].completed
            &&& after_two.goals[goal_id].completed
            &&& after_two.goals[goal_id].current_value == v2
            &&& after_two.records == after_one.records
            &&& s.records.contains_key(owner) ==> {
                &&& after_one.records[owner].goals_achieved == saturating_inc(
                    s.records[owner].goals_achieved,
                )
                &&& after_one.records[owner].active_goals == clamped_dec(
                    s.records[owner].active_goals,
                )
            }
            &&& !s.records.contains_key(owner) ==> after_one.records == s.records
        }),
{
    let goal1 = progressed_goal(s.goals[goal_id], v1);
    assert(progress_recorded(s, goal_id, v1).goals[goal_id] == goal1);
}

/// Law: a goal once completed never reverts, whatever value a later report
/// carries — below the target included.
pub proof fn lemma_completion_irreversible(goal: crate::types::HealthGoal, current_value: u32)
    requires
        goal.completed,
    ensures
        progressed_goal(goal, current_value).completed,
{
}

} // verus!
