use wag_characters::action_tracker::{Action, ActionBlock, ActionTracker, ContinuationRequirement};
use wag_characters::cancels::CancelRule;
use wag_characters::ids::{ActionCategory, ActionId};

fn block(policy: CancelRule) -> ActionBlock {
    ActionBlock {
        cancel_policy: policy,
        exit_requirement: ContinuationRequirement::Time(10),
        ..Default::default()
    }
}

fn of_category(category: ActionCategory) -> Action {
    Action {
        category,
        ..Default::default()
    }
}

#[test]
fn action_tracker_sanity_check() {
    let mut tracker = ActionTracker::new(
        ActionId::TestMove,
        Action {
            script: vec![
                ActionBlock {
                    cancel_policy: CancelRule::never(),
                    exit_requirement: ContinuationRequirement::Time(10),
                    ..Default::default()
                },
                ActionBlock {
                    cancel_policy: CancelRule::any(),
                    exit_requirement: ContinuationRequirement::Time(10),
                    ..Default::default()
                },
            ],
            ..Default::default()
        },
        0,
    );

    assert_eq!(
        tracker.cancellable_into_since(
            ActionId::TestMove,
            Action {
                category: ActionCategory::Normal,
                ..Default::default()
            }
        ),
        None
    );

    tracker.pop_next(12);

    assert_eq!(
        tracker.cancellable_into_since(
            ActionId::TestMove,
            Action {
                category: ActionCategory::Normal,
                ..Default::default()
            }
        ),
        Some(12)
    );
}

#[test]
fn sequential_windows() {
    let mut tracker = ActionTracker::new(
        ActionId::TestMove,
        Action {
            script: vec![block(CancelRule::any()), block(CancelRule::any())],
            ..Default::default()
        },
        0,
    );

    tracker.pop_next(10);
    assert_eq!(
        tracker.cancellable_into_since(ActionId::TestMove, of_category(ActionCategory::Normal)),
        Some(0)
    );
}

#[test]
fn closed_window() {
    let mut tracker = ActionTracker::new(
        ActionId::TestMove,
        Action {
            script: vec![
                block(CancelRule::never()),
                block(CancelRule::any()),
                block(CancelRule::never()),
            ],
            ..Default::default()
        },
        0,
    );

    assert_eq!(
        tracker.cancellable_into_since(ActionId::TestMove, of_category(ActionCategory::Normal)),
        None
    );

    tracker.pop_next(12);

    assert_eq!(
        tracker.cancellable_into_since(ActionId::TestMove, of_category(ActionCategory::Normal)),
        Some(12)
    );

    tracker.pop_next(20);

    assert_eq!(
        tracker.cancellable_into_since(ActionId::TestMove, of_category(ActionCategory::Normal)),
        None
    );
}

#[test]
fn depends_on_action() {
    let mut tracker = ActionTracker::new(
        ActionId::TestMove,
        Action {
            script: vec![block(CancelRule::normal_recovery()), block(CancelRule::any())],
            ..Default::default()
        },
        0,
    );

    tracker.has_hit = true;
    tracker.pop_next(10);
    tracker.pop_next(20);

    assert_eq!(
        tracker.cancellable_into_since(ActionId::TestMove, of_category(ActionCategory::Special)),
        Some(0)
    );

    assert_eq!(
        tracker.cancellable_into_since(ActionId::TestMove, of_category(ActionCategory::Normal)),
        Some(10)
    );
}

#[test]
fn new_tracker_starts_on_the_first_block() {
    let tracker = ActionTracker::new(
        ActionId::DashForward,
        Action {
            script: vec![block(CancelRule::never()), block(CancelRule::any())],
            ..Default::default()
        },
        7,
    );
    assert!(!tracker.has_hit);
    assert_eq!(tracker.action_id, ActionId::DashForward);
    assert_eq!(tracker.start_frame, 7);
    assert_eq!(tracker.current_block_start_frame, 7);
    assert_eq!(tracker.upcoming_blocks.len(), 1);
    assert_eq!(tracker.last_breakpoint_frame(), Some(7));
    assert!(matches!(tracker.blocker, ContinuationRequirement::Time(10)));
}

#[test]
fn pop_next_moves_through_the_script_and_stops_at_its_end() {
    let mut tracker = ActionTracker::new(
        ActionId::TestMove,
        Action {
            script: vec![block(CancelRule::never()), block(CancelRule::any())],
            ..Default::default()
        },
        0,
    );
    let next = tracker.pop_next(5);
    assert!(next.is_some());
    assert_eq!(tracker.current_block_start_frame, 5);
    assert_eq!(tracker.last_breakpoint_frame(), Some(5));
    assert!(tracker.pop_next(9).is_none());
    assert_eq!(tracker.current_block_start_frame, 5);
    assert_eq!(tracker.last_breakpoint_frame(), Some(5));
}

#[test]
fn window_needs_a_hit_when_the_rule_says_so() {
    let mut tracker = ActionTracker::new(
        ActionId::TestMove,
        Action {
            script: vec![block(CancelRule::any()), block(CancelRule::normal_recovery())],
            ..Default::default()
        },
        0,
    );
    tracker.pop_next(4);
    assert_eq!(
        tracker.cancellable_into_since(ActionId::TestMove, of_category(ActionCategory::Special)),
        None
    );
    tracker.has_hit = true;
    assert_eq!(
        tracker.cancellable_into_since(ActionId::TestMove, of_category(ActionCategory::Special)),
        Some(0)
    );
}

#[test]
fn specific_targets_open_a_window_for_forced_actions() {
    let tracker = ActionTracker::new(
        ActionId::TestMove,
        Action {
            script: vec![block(CancelRule::specific(vec![ActionId::GiParry]))],
            ..Default::default()
        },
        3,
    );
    assert_eq!(
        tracker.cancellable_into_since(ActionId::GiParry, of_category(ActionCategory::Forced)),
        Some(3)
    );
    assert_eq!(
        tracker.cancellable_into_since(ActionId::FastFall, of_category(ActionCategory::Forced)),
        None
    );
}
