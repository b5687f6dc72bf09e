//! Events an action sends to the game, as far as they are made of plain values.
use vstd::prelude::*;
use crate::ids::{ActionId, StatusCondition, StatusFlag, VoiceLine, condition_eq, flag_eq};
use crate::resources::ResourceType;

verus! {

/// Which screen flash to show.
#[derive(Clone, Copy, Debug, PartialEq, Eq, Structural)]
pub enum FlashKind {
    /// The flash of a clean hit.
    Hit,
    /// The flash of spending a meter bar.
    MeterUse,
    /// The flash of a jackpot hit of the given level.
    Jackpot(u32),
    /// The flash of a successful gi parry.
    GiParry,
}

/// Something an action makes happen. Animations, sounds, visual effects and movements
/// are named by handles that the game resolves.
#[derive(Clone, Debug, PartialEq, Eq)]
pub enum ActionEvent {
    Animation(u32),
    Sound(u32),
    RelativeVisualEffect(u32),
    Movement(u32),
    StartAction(ActionId),
    ModifyResource(ResourceType, i32),
    ClearResource(ResourceType),
    Condition(StatusCondition),
    ClearCondition(StatusFlag),
    ForceStand,
    ForceCrouch,
    ForceAir,
    /// Stops the character's current movement.
    ClearMovement,
    SayVoiceLine(VoiceLine),
    SnapToOpponent { sideswitch: bool },
    FlipVisuals,
    HitStun(usize),
    BlockStun(usize),
    Hitstop(usize),
    CameraShake,
    Flash(FlashKind),
    /// Launches the character into air stun with the impulse of the handle.
    LaunchStun(u32),
    /// Tilts the camera as the handle says.
    CameraTilt(u32),
    /// Shakes the character as the handle says.
    CharacterShake(u32),
    /// Scales the character's momentum as the handle says.
    MultiplyMomentum(u32),
    /// A visual effect placed in the world rather than on the character.
    AbsoluteVisualEffect(u32),
    /// Moves the character at once by the offset of the handle.
    Teleport(u32),
    /// Grows the hurtbox by the area of the handle for the given frames.
    ExpandHurtbox(u32, usize),
    /// Drops the pickup of the handle.
    SpawnPickup(u32),
    /// Does nothing.
    Noop,
    /// Ends the action and returns to neutral.
    End,
}

impl Default for ActionEvent {
    fn default() -> (r: Self)
        ensures
            r == ActionEvent::Noop,
    {
        ActionEvent::Noop
    }
}

/// Two events are the same, comparing the flags they carry by `flag_eq`.
pub open spec fn event_eq(a: ActionEvent, b: ActionEvent) -> bool {
    match (a, b) {
        (ActionEvent::Condition(x), ActionEvent::Condition(y)) => condition_eq(x, y),
        (ActionEvent::ClearCondition(x), ActionEvent::ClearCondition(y)) => flag_eq(x, y),
        _ => a == b,
    }
}

/// Two lists of events are the same, event by event.
pub open spec fn events_eq(a: Seq<ActionEvent>, b: Seq<ActionEvent>) -> bool {
    a.len() == b.len() && forall|i: int| 0 <= i < a.len() ==> event_eq(#[trigger] a[i], b[i])
}

impl ActionEvent {
    /// A copy of this event.
    pub fn duplicate(&self) -> (r: Self)
        ensures
            event_eq(r, *self),
    {
        match self {
            ActionEvent::Animation(h) => ActionEvent::Animation(*h),
            ActionEvent::Sound(h) => ActionEvent::Sound(*h),
            ActionEvent::RelativeVisualEffect(h) => ActionEvent::RelativeVisualEffect(*h),
            ActionEvent::Movement(h) => ActionEvent::Movement(*h),
            ActionEvent::StartAction(id) => ActionEvent::StartAction(*id),
            ActionEvent::ModifyResource(rt, amount) => ActionEvent::ModifyResource(*rt, *amount),
            ActionEvent::ClearResource(rt) => ActionEvent::ClearResource(*rt),
            ActionEvent::Condition(c) => ActionEvent::Condition(c.duplicate()),
            ActionEvent::ClearCondition(f) => ActionEvent::ClearCondition(f.duplicate()),
            ActionEvent::ForceStand => ActionEvent::ForceStand,
            ActionEvent::ForceCrouch => ActionEvent::ForceCrouch,
            ActionEvent::ForceAir => ActionEvent::ForceAir,
            ActionEvent::ClearMovement => ActionEvent::ClearMovement,
            ActionEvent::SayVoiceLine(v) => ActionEvent::SayVoiceLine(*v),
            ActionEvent::SnapToOpponent { sideswitch } => ActionEvent::SnapToOpponent { sideswitch: *sideswitch },
            ActionEvent::FlipVisuals => ActionEvent::FlipVisuals,
            ActionEvent::HitStun(n) => ActionEvent::HitStun(*n),
            ActionEvent::BlockStun(n) => ActionEvent::BlockStun(*n),
            ActionEvent::Hitstop(n) => ActionEvent::Hitstop(*n),
            ActionEvent::CameraShake => ActionEvent::CameraShake,
            ActionEvent::Flash(k) => ActionEvent::Flash(*k),
            ActionEvent::LaunchStun(h) => ActionEvent::LaunchStun(*h),
            ActionEvent::CameraTilt(h) => ActionEvent::CameraTilt(*h),
            ActionEvent::CharacterShake(h) => ActionEvent::CharacterShake(*h),
            ActionEvent::MultiplyMomentum(h) => ActionEvent::MultiplyMomentum(*h),
            ActionEvent::AbsoluteVisualEffect(h) => ActionEvent::AbsoluteVisualEffect(*h),
            ActionEvent::Teleport(h) => ActionEvent::Teleport(*h),
            ActionEvent::ExpandHurtbox(h, frames) => ActionEvent::ExpandHurtbox(*h, *frames),
            ActionEvent::SpawnPickup(h) => ActionEvent::SpawnPickup(*h),
            ActionEvent::Noop => ActionEvent::Noop,
            ActionEvent::End => ActionEvent::End,
        }
    }
}

/// A copy of a list of events.
pub fn duplicate_events(events: &Vec<ActionEvent>) -> (r: Vec<ActionEvent>)
    ensures
        events_eq(r@, events@),
{
    let mut out: Vec<ActionEvent> = Vec::new();
    let mut i: usize = 0;
    while i < events.len()
        invariant
            i <= events.len(),
            events_eq(out@, events@.subrange(0, i as int)),
        decreases events.len() - i,
    {
        out.push(events[i].duplicate());
        i = i + 1;
    }
    out
}

} // verus!
