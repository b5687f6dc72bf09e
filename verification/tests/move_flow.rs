use wag_characters::ids::ActionId;
use wag_characters::moves::{
    ActionEvent, CancelCategory, CancelPolicy, FlowCallbacks, FlowControl, Move, MoveHistory, MoveRequirement,
    Situation, T_POSE,
};

fn t_pose() -> FlowControl {
    FlowControl::Actions(vec![ActionEvent::Animation(T_POSE)])
}

fn attack() -> FlowControl {
    FlowControl::Actions(vec![ActionEvent::Attack(0)])
}

fn copies(phases: &[FlowControl]) -> Vec<FlowControl> {
    phases.iter().map(|p| p.duplicate()).collect()
}

/// A move in progress from frame 0, looked at on frame 1 so that its first events run.
struct Wrapper {
    history: MoveHistory,
    current_frame: usize,
    dynamic: fn(&MoveHistory) -> Vec<ActionEvent>,
}

fn no_events(_: &MoveHistory) -> Vec<ActionEvent> {
    vec![]
}

impl Wrapper {
    fn with_phases(phases: Vec<FlowControl>) -> Self {
        let move_data = Move { phases, ..Move::default() };
        Wrapper {
            history: MoveHistory { move_data, move_id: ActionId::TestMove, ..MoveHistory::default() },
            current_frame: 1,
            dynamic: no_events,
        }
    }

    fn situation(&self) -> Situation {
        let history = MoveHistory {
            move_id: self.history.move_id,
            move_data: Move { phases: copies(&self.history.move_data.phases), ..Move::default() },
            frame_skip: self.history.frame_skip,
            started: self.history.started,
            past: copies(&self.history.past),
            unprocessed_events: self.history.unprocessed_events.clone(),
            has_hit: self.history.has_hit,
        };
        let actions = vec![(self.dynamic)(&self.history)];
        Situation {
            history: Some(history),
            grounded: true,
            current_frame: self.current_frame,
            callbacks: FlowCallbacks { actions, conditions: vec![] },
        }
    }

    fn get_actions(&self) -> Vec<FlowControl> {
        self.situation().new_fcs()
    }

    fn assert_actions(&self, comparison: &[FlowControl]) {
        let actions = self.get_actions();
        assert!(actions == comparison, "{:?} != {:?}", actions, comparison);
    }

    fn update_history(&mut self) {
        let new = self.get_actions();
        self.history.past.extend(new);
    }

    fn is_done(&self) -> bool {
        let past = copies(&self.history.past).into_iter().chain(self.get_actions()).collect::<Vec<_>>();
        past.len() == self.history.move_data.phases.len()
    }
}

#[test]
fn move_history_sanity_check() {
    let history = MoveHistory { move_id: ActionId::TestMove, ..MoveHistory::default() };
    assert!(!history.is_done());
    assert!(!history.has_hit);
    assert!(history.next_phase() == Some(t_pose()));
    assert!(history.cancellable_since(CancelCategory::Everything) == None);
}

#[test]
fn basic_cancellability() {
    let started = 69;
    let duration = 10;
    let phases = vec![t_pose(), FlowControl::Wait(duration, CancelPolicy::any())];
    let history = MoveHistory {
        move_id: ActionId::TestMove,
        started,
        past: copies(&phases),
        move_data: Move { phases, ..Move::default() },
        ..MoveHistory::default()
    };
    assert!(history.is_done());
    assert!(history.cancellable_since(CancelCategory::Everything) == Some(started));
}

#[test]
fn move_situation_sanity_check() {
    let phases = vec![];
    let sw = Wrapper::with_phases(copies(&phases));
    sw.assert_actions(&phases);
    assert!(sw.is_done());
}

#[test]
fn single_action() {
    let phases = vec![t_pose()];
    let sw = Wrapper::with_phases(copies(&phases));
    sw.assert_actions(&phases);
    assert!(sw.is_done());
}

#[test]
fn multiple_actions() {
    let phases = vec![t_pose(), attack()];
    let sw = Wrapper::with_phases(copies(&phases));
    sw.assert_actions(&phases);
    assert!(sw.is_done());
}

#[test]
fn wait_gate() {
    let phases = vec![t_pose(), attack(), FlowControl::Wait(10, CancelPolicy::never()), t_pose()];
    let mut sw = Wrapper::with_phases(copies(&phases));
    sw.assert_actions(&phases[..2]);
    assert!(!sw.is_done());
    sw.current_frame = 10;
    sw.assert_actions(&phases);
    assert!(sw.is_done());
}

#[test]
fn wait_gate_partial() {
    let phases = vec![t_pose(), attack(), FlowControl::Wait(10, CancelPolicy::never()), t_pose()];
    let mut sw = Wrapper::with_phases(copies(&phases));
    sw.assert_actions(&phases[..2]);
    sw.update_history();
    assert!(!sw.is_done());
    sw.current_frame = 10;
    sw.assert_actions(&phases[2..]);
    assert!(sw.is_done());
}

fn pose_after_hit(history: &MoveHistory) -> Vec<ActionEvent> {
    vec![if history.has_hit { ActionEvent::Animation(T_POSE) } else { ActionEvent::Attack(0) }]
}

#[test]
fn dynamics() {
    let mut sw = Wrapper::with_phases(vec![FlowControl::DynamicActions(0)]);
    sw.dynamic = pose_after_hit;
    sw.assert_actions(&[attack()]);
    sw.history.has_hit = true;
    sw.assert_actions(&[t_pose()]);
}

#[test]
fn wait_until_takes_the_frames_left_once_met_or_timed_out() {
    let phases = vec![FlowControl::WaitUntil(0, Some(30)), t_pose()];
    let history = MoveHistory { move_data: Move { phases, ..Move::default() }, ..MoveHistory::default() };
    let mut sit = Situation {
        history: Some(history),
        grounded: true,
        current_frame: 12,
        callbacks: FlowCallbacks { actions: vec![], conditions: vec![false] },
    };
    assert!(sit.new_fcs().is_empty());
    sit.callbacks.conditions[0] = true;
    assert!(sit.new_fcs() == vec![FlowControl::Wait(12, CancelPolicy::never()), t_pose()]);
    sit.callbacks.conditions[0] = false;
    sit.current_frame = 30;
    assert!(sit.new_fcs() == vec![FlowControl::Wait(30, CancelPolicy::never()), t_pose()]);
}

#[test]
fn frame_skip_shifts_animations() {
    let phases = vec![FlowControl::Actions(vec![
        ActionEvent::Animation(3),
        ActionEvent::RecipientAnimation(4),
        ActionEvent::SideSwitch,
    ])];
    let history = MoveHistory { frame_skip: 2, move_data: Move { phases, ..Move::default() }, ..MoveHistory::default() };
    let sit = Situation {
        history: Some(history),
        grounded: false,
        current_frame: 0,
        callbacks: FlowCallbacks { actions: vec![], conditions: vec![] },
    };
    assert!(
        sit.new_fcs()
            == vec![FlowControl::Actions(vec![
                ActionEvent::AnimationAtFrame(3, 2),
                ActionEvent::RecipientAnimationAtFrame(4, 2),
                ActionEvent::SideSwitch,
            ])]
    );
}

#[test]
fn cancelling_into_another_move() {
    let phases = vec![t_pose(), FlowControl::Wait(5, CancelPolicy::neutral_normal_recovery())];
    let mut history = MoveHistory {
        started: 20,
        past: copies(&phases),
        move_data: Move { phases, ..Move::default() },
        ..MoveHistory::default()
    };
    let special = Move::grounded(None, CancelCategory::Special, vec![]);
    let normal = Move::airborne(None, CancelCategory::Normal, vec![]);
    assert_eq!(history.cancellable_into_since(&special), None);
    history.has_hit = true;
    assert_eq!(history.cancellable_into_since(&special), Some(20));
    assert_eq!(history.cancellable_into_since(&normal), None);
    assert_eq!(normal.requirement, MoveRequirement::Airborne);
}

#[test]
fn queued_events_come_from_event_phases() {
    let mut history = MoveHistory::default();
    history.add_actions_from(vec![
        t_pose(),
        FlowControl::Wait(3, CancelPolicy::any()),
        FlowControl::Actions(vec![ActionEvent::Launch, ActionEvent::HitStun(4)]),
    ]);
    assert_eq!(
        history.unprocessed_events,
        vec![ActionEvent::Animation(T_POSE), ActionEvent::Launch, ActionEvent::HitStun(4)]
    );
}

#[test]
fn cancel_policies_admit_later_categories() {
    assert!(CancelPolicy::command_normal_recovery().can_cancel(true, CancelCategory::Special));
    assert!(!CancelPolicy::command_normal_recovery().can_cancel(true, CancelCategory::CommandNormal));
    assert!(!CancelPolicy::command_normal_recovery().can_cancel(false, CancelCategory::Everything));
    assert_eq!(CancelCategory::Special.rank(), 5);
}
