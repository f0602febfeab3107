use health_coach::contract::HealthCoachContract;
use health_coach::types::Error;

#[test]
fn user_counter_increments_once() {
    let mut c = HealthCoachContract::new();
    assert_eq!(c.user_count(), 0);
    c.update_health_record(1, 50, 0, 0, 100);
    assert_eq!(c.user_count(), 1);
    c.update_health_record(1, 60, 0, 0, 200);
    c.update_health_record(1, 70, 1, 2, 300);
    assert_eq!(c.user_count(), 1);
    c.update_health_record(2, 40, 0, 0, 400);
    assert_eq!(c.user_count(), 2);
}

#[test]
fn record_read_back() {
    let mut c = HealthCoachContract::new();
    let written = c.update_health_record(5, 80, 2, 3, 1234);
    assert_eq!(written.user_id, 5);
    assert_eq!(written.health_score, 80);
    assert_eq!(written.goals_achieved, 2);
    assert_eq!(written.active_goals, 3);
    assert_eq!(written.last_updated, 1234);
    let read = c.get_health_record(5).unwrap();
    assert_eq!(read, written);
}

#[test]
fn record_overwrites_wholesale() {
    let mut c = HealthCoachContract::new();
    c.update_health_record(5, 80, 2, 3, 1000);
    let replaced = c.update_health_record(5, 10, 0, 0, 2000);
    assert_eq!(c.get_health_record(5).unwrap(), replaced);
    assert_eq!(replaced.health_score, 10);
    assert_eq!(replaced.goals_achieved, 0);
    assert_eq!(replaced.active_goals, 0);
    assert_eq!(replaced.last_updated, 2000);
}

#[test]
fn get_record_not_found() {
    let c = HealthCoachContract::new();
    assert_eq!(c.get_health_record(42).unwrap_err(), Error::NotFound);
}

#[test]
fn goal_ids_consecutive() {
    let mut c = HealthCoachContract::new();
    assert_eq!(c.goal_count(), 0);
    for (i, user) in [7u64, 7, 9, 1, 7].iter().enumerate() {
        let goal = c.create_health_goal(*user, format!("goal {}", i), 10, 999);
        assert_eq!(goal.goal_id, i as u64 + 1);
    }
    assert_eq!(c.goal_count(), 5);
}

#[test]
fn minted_goal_starts_fresh() {
    let mut c = HealthCoachContract::new();
    let goal = c.create_health_goal(3, String::from("run"), 26, 777);
    assert_eq!(goal.goal_id, 1);
    assert_eq!(goal.user_id, 3);
    assert_eq!(goal.description, "run");
    assert_eq!(goal.target_value, 26);
    assert_eq!(goal.current_value, 0);
    assert_eq!(goal.deadline, 777);
    assert!(!goal.completed);
    let stored = c.get_health_goal(1).unwrap();
    assert_eq!(stored.description, "run");
    assert!(!stored.completed);
}

#[test]
fn create_goal_bumps_active_goals() {
    let mut c = HealthCoachContract::new();
    c.update_health_record(7, 80, 0, 0, 100);
    c.create_health_goal(7, String::from("a"), 10, 999);
    assert_eq!(c.get_health_record(7).unwrap().active_goals, 1);
    c.create_health_goal(7, String::from("b"), 20, 999);
    assert_eq!(c.get_health_record(7).unwrap().active_goals, 2);
}

#[test]
fn orphan_goal_leaves_no_record() {
    let mut c = HealthCoachContract::new();
    let goal = c.create_health_goal(99, String::from("orphan"), 5, 999);
    assert_eq!(goal.goal_id, 1);
    assert_eq!(c.user_count(), 0);
    assert_eq!(c.get_health_record(99).unwrap_err(), Error::NotFound);
    assert!(c.get_health_goal(1).is_ok());
}

#[test]
fn completion_counts_once() {
    let mut c = HealthCoachContract::new();
    c.update_health_record(7, 80, 0, 0, 100);
    c.create_health_goal(7, String::from("steps"), 10, 999);
    let done = c.update_goal_progress(1, 10).unwrap();
    assert!(done.completed);
    assert_eq!(c.get_health_record(7).unwrap().goals_achieved, 1);
    assert_eq!(c.get_health_record(7).unwrap().active_goals, 0);
    let repeat = c.update_goal_progress(1, 12).unwrap();
    assert!(repeat.completed);
    assert_eq!(repeat.current_value, 12);
    assert_eq!(c.get_health_record(7).unwrap().goals_achieved, 1);
    assert_eq!(c.get_health_record(7).unwrap().active_goals, 0);
}

#[test]
fn partial_progress_always_saved() {
    let mut c = HealthCoachContract::new();
    c.update_health_record(7, 80, 0, 0, 100);
    c.create_health_goal(7, String::from("steps"), 10, 999);
    let partial = c.update_goal_progress(1, 4).unwrap();
    assert!(!partial.completed);
    assert_eq!(partial.current_value, 4);
    assert_eq!(c.get_health_goal(1).unwrap().current_value, 4);
    let record = c.get_health_record(7).unwrap();
    assert_eq!(record.goals_achieved, 0);
    assert_eq!(record.active_goals, 1);
}

#[test]
fn completed_never_reverts() {
    let mut c = HealthCoachContract::new();
    c.create_health_goal(7, String::from("steps"), 10, 999);
    assert!(c.update_goal_progress(1, 10).unwrap().completed);
    let lowered = c.update_goal_progress(1, 3).unwrap();
    assert!(lowered.completed);
    assert_eq!(lowered.current_value, 3);
}

#[test]
fn unknown_goal_not_found_and_state_kept() {
    let mut c = HealthCoachContract::new();
    c.update_health_record(7, 80, 1, 1, 100);
    c.create_health_goal(7, String::from("steps"), 10, 999);
    assert_eq!(c.update_goal_progress(55, 10).unwrap_err(), Error::NotFound);
    let record = c.get_health_record(7).unwrap();
    assert_eq!(record.health_score, 80);
    assert_eq!(record.goals_achieved, 1);
    assert_eq!(record.active_goals, 2);
    let goal = c.get_health_goal(1).unwrap();
    assert_eq!(goal.current_value, 0);
    assert!(!goal.completed);
    assert_eq!(c.user_count(), 1);
    assert_eq!(c.goal_count(), 1);
}

#[test]
fn active_goals_clamped_at_zero() {
    let mut c = HealthCoachContract::new();
    c.create_health_goal(7, String::from("early"), 10, 999);
    // The record is created after the goal, so its active-goals count is 0
    // when the goal completes: the decrement must clamp, never wrap.
    c.update_health_record(7, 80, 0, 0, 100);
    c.update_goal_progress(1, 10).unwrap();
    let record = c.get_health_record(7).unwrap();
    assert_eq!(record.goals_achieved, 1);
    assert_eq!(record.active_goals, 0);
}

#[test]
fn counts_saturate_at_largest_value() {
    let mut c = HealthCoachContract::new();
    c.update_health_record(7, 80, u32::MAX, u32::MAX, 100);
    c.create_health_goal(7, String::from("over"), 0, 999);
    assert_eq!(c.get_health_record(7).unwrap().active_goals, u32::MAX);
    c.update_goal_progress(1, 0).unwrap();
    let record = c.get_health_record(7).unwrap();
    assert_eq!(record.goals_achieved, u32::MAX);
    assert_eq!(record.active_goals, u32::MAX - 1);
}

#[test]
fn scenario_user_seven() {
    let mut c = HealthCoachContract::new();
    c.update_health_record(7, 80, 0, 0, 100);
    c.create_health_goal(7, String::from("walk"), 10, 999);
    c.create_health_goal(7, String::from("swim"), 20, 999);
    assert_eq!(c.get_health_record(7).unwrap().active_goals, 2);
    c.update_goal_progress(1, 10).unwrap();
    let after_first = c.get_health_record(7).unwrap();
    assert_eq!(after_first.goals_achieved, 1);
    assert_eq!(after_first.active_goals, 1);
    c.update_goal_progress(1, 15).unwrap();
    let after_repeat = c.get_health_record(7).unwrap();
    assert_eq!(after_repeat.goals_achieved, 1);
    assert_eq!(after_repeat.active_goals, 1);
}
