//! What a connected throw makes the thrower and the thrown character do, frame by frame.
use vstd::prelude::*;
use crate::events::{ActionEvent, FlashKind, duplicate_events, events_eq};
use crate::ids::{StatusCondition, StatusFlag};
use crate::resources::ResourceType;
use crate::script::{ActionClock, clock_on_frame};
use crate::requirements::ActionRequirement;

verus! {

/// The two sides of a throw: how long each is locked in it and what the release does.
#[derive(Debug)]
pub struct ThrowEffectBuilder {
    pub self_duration: usize,
    pub target_duration: usize,
    /// The frame the thrown character is released on.
    pub lock_duration: usize,
    pub damage: i32,
    pub extra_target_events: Vec<ActionEvent>,
}

/// What one side of a throw does on a frame.
#[derive(Debug)]
pub enum ThrowStep {
    /// The first frame: these events, after the side's animation (and, for the thrown
    /// character, the throw's visual effect and zoom).
    Start(Vec<ActionEvent>),
    /// The release of the thrown character: these events, after its launch.
    Release(Vec<ActionEvent>),
    /// Any other frame: these events.
    Rest(Vec<ActionEvent>),
}

/// Both sides are held in place until the release.
pub open spec fn movement_lock(lock_duration: usize) -> ActionEvent {
    ActionEvent::Condition(StatusCondition { flag: StatusFlag::MovementLock, expiration: Some(lock_duration) })
}

/// The first events of the thrown character.
pub open spec fn target_start(lock_duration: usize, throw_hitstop: usize) -> Seq<ActionEvent> {
    seq![
        ActionEvent::FlipVisuals,
        ActionEvent::CameraShake,
        ActionEvent::Hitstop(throw_hitstop),
        ActionEvent::Flash(FlashKind::Hit),
        movement_lock(lock_duration),
    ]
}

/// The events of the release, before the extra ones: the damage and turning back around.
pub open spec fn release_events(damage: i32) -> Seq<ActionEvent> {
    seq![ActionEvent::ModifyResource(ResourceType::Health, (-damage) as i32), ActionEvent::FlipVisuals]
}

/// A side ends once as many frames as its duration have passed.
pub open spec fn end_after(elapsed: usize, duration: usize) -> Seq<ActionEvent> {
    if elapsed >= duration { seq![ActionEvent::End] } else { seq![] }
}

impl ThrowEffectBuilder {
    /// A throw whose sides last the given frames; the release comes one frame before the
    /// shorter side ends.
    pub fn new(self_duration: usize, target_duration: usize) -> (r: Self)
        requires
            self_duration >= 1,
            target_duration >= 1,
        ensures
            r.self_duration == self_duration,
            r.target_duration == target_duration,
            r.lock_duration == (if self_duration <= target_duration { self_duration } else { target_duration }) - 1,
            r.damage == 0,
            r.extra_target_events@.len() == 0,
    {
        let shorter = if self_duration <= target_duration { self_duration } else { target_duration };
        ThrowEffectBuilder {
            self_duration,
            target_duration,
            lock_duration: shorter - 1,
            damage: 0,
            extra_target_events: Vec::new(),
        }
    }

    /// Events the thrown character gets on its release, replacing earlier ones.
    pub fn with_extra_target_events(self, extra_target_events: Vec<ActionEvent>) -> (r: Self)
        ensures
            r == (ThrowEffectBuilder { extra_target_events, ..self }),
    {
        ThrowEffectBuilder { extra_target_events, ..self }
    }

    pub fn with_damage(self, damage: i32) -> (r: Self)
        ensures
            r == (ThrowEffectBuilder { damage, ..self }),
    {
        ThrowEffectBuilder { damage, ..self }
    }

    /// What the thrown character does at the clock: it is turned, frozen and held on the
    /// first frame, takes the damage and is turned back on the release, and ends after its
    /// duration, counted in frames whatever its action speed.
    pub fn target_step(&self, clock: &ActionClock, throw_hitstop: usize) -> (r: ThrowStep)
        requires
            self.damage != i32::MIN,
        ensures
            clock_on_frame(*clock, 0) ==> (r matches ThrowStep::Start(evs)
                && evs@ == target_start(self.lock_duration, throw_hitstop)),
            !clock_on_frame(*clock, 0) && clock.elapsed == self.lock_duration ==> (r matches ThrowStep::Release(evs)
                && events_eq(evs@, release_events(self.damage) + self.extra_target_events@)),
            !clock_on_frame(*clock, 0) && clock.elapsed != self.lock_duration ==> (r matches ThrowStep::Rest(evs)
                && evs@ == end_after(clock.elapsed, self.target_duration)),
    {
        if clock.on_frame(0) {
            let evs = vec![
                ActionEvent::FlipVisuals,
                ActionEvent::CameraShake,
                ActionEvent::Hitstop(throw_hitstop),
                ActionEvent::Flash(FlashKind::Hit),
                ActionEvent::Condition(StatusCondition { flag: StatusFlag::MovementLock, expiration: Some(self.lock_duration) }),
            ];
            assert(evs@ =~= target_start(self.lock_duration, throw_hitstop));
            return ThrowStep::Start(evs);
        }
        if clock.elapsed == self.lock_duration {
            let loss: i32 = -self.damage;
            let mut evs = vec![ActionEvent::ModifyResource(ResourceType::Health, loss), ActionEvent::FlipVisuals];
            let ghost head = evs@;
            let mut extra = duplicate_events(&self.extra_target_events);
            let ghost tail = extra@;
            evs.append(&mut extra);
            proof {
                assert(head =~= release_events(self.damage));
                let want = release_events(self.damage) + self.extra_target_events@;
                assert forall|i: int| 0 <= i < evs@.len() implies crate::events::event_eq(#[trigger] evs@[i], want[i]) by {
                    if i >= 2 {
                        assert(evs@[i] == tail[i - 2]);
                    }
                }
            }
            return ThrowStep::Release(evs);
        }
        let end = if clock.elapsed >= self.target_duration { vec![ActionEvent::End] } else { Vec::new() };
        assert(end@ =~= end_after(clock.elapsed, self.target_duration));
        ThrowStep::Rest(end)
    }

    /// What the thrower does at the clock: it is held and frozen on the first frame and
    /// ends after its duration, counted in frames whatever its action speed.
    pub fn thrower_step(&self, clock: &ActionClock, throw_hitstop: usize) -> (r: ThrowStep)
        ensures
            clock_on_frame(*clock, 0) ==> (r matches ThrowStep::Start(evs)
                && evs@ == seq![movement_lock(self.lock_duration), ActionEvent::Hitstop(throw_hitstop)]),
            !clock_on_frame(*clock, 0) ==> (r matches ThrowStep::Rest(evs)
                && evs@ == end_after(clock.elapsed, self.self_duration)),
    {
        if clock.on_frame(0) {
            let evs = vec![
                ActionEvent::Condition(StatusCondition { flag: StatusFlag::MovementLock, expiration: Some(self.lock_duration) }),
                ActionEvent::Hitstop(throw_hitstop),
            ];
            assert(evs@ =~= seq![movement_lock(self.lock_duration), ActionEvent::Hitstop(throw_hitstop)]);
            return ThrowStep::Start(evs);
        }
        let end = if clock.elapsed >= self.self_duration { vec![ActionEvent::End] } else { Vec::new() };
        assert(end@ =~= end_after(clock.elapsed, self.self_duration));
        ThrowStep::Rest(end)
    }
}

/// Which side of a throw an action plays.
#[derive(Debug, Clone, Copy, PartialEq, Eq, Structural)]
pub enum ThrowSide {
    /// The thrown character.
    Target,
    /// The character throwing.
    Thrower,
}

/// One side of a connected throw as an action: it has no input and no requirement, it is
/// not transient, and its frames are those of its side of the throw (`step`).
#[derive(Debug)]
pub struct ThrowAction {
    pub transient: bool,
    pub input: Option<String>,
    pub requirement: ActionRequirement,
    pub side: ThrowSide,
    pub effect: ThrowEffectBuilder,
}

impl ThrowAction {
    /// What this side does at the clock: `target_step` for the thrown character,
    /// `thrower_step` for the thrower.
    pub fn step(&self, clock: &ActionClock, throw_hitstop: usize) -> (r: ThrowStep)
        requires
            self.effect.damage != i32::MIN,
        ensures
            self.side == ThrowSide::Target ==> {
                &&& clock_on_frame(*clock, 0) ==> (r matches ThrowStep::Start(evs)
                    && evs@ == target_start(self.effect.lock_duration, throw_hitstop))
                &&& !clock_on_frame(*clock, 0) && clock.elapsed == self.effect.lock_duration ==> (r matches ThrowStep::Release(evs)
                    && events_eq(evs@, release_events(self.effect.damage) + self.effect.extra_target_events@))
                &&& !clock_on_frame(*clock, 0) && clock.elapsed != self.effect.lock_duration ==> (r matches ThrowStep::Rest(evs)
                    && evs@ == end_after(clock.elapsed, self.effect.target_duration))
            },
            self.side == ThrowSide::Thrower ==> {
                &&& clock_on_frame(*clock, 0) ==> (r matches ThrowStep::Start(evs)
                    && evs@ == seq![movement_lock(self.effect.lock_duration), ActionEvent::Hitstop(throw_hitstop)])
                &&& !clock_on_frame(*clock, 0) ==> (r matches ThrowStep::Rest(evs)
                    && evs@ == end_after(clock.elapsed, self.effect.self_duration))
            },
    {
        match self.side {
            ThrowSide::Target => self.effect.target_step(clock, throw_hitstop),
            ThrowSide::Thrower => self.effect.thrower_step(clock, throw_hitstop),
        }
    }
}

impl ThrowEffectBuilder {
    /// The two actions of the throw: the thrown character's, then the thrower's. Both
    /// carry the throw's durations, release frame and damage; the extra release events
    /// go to the thrown character.
    pub fn build(self) -> (r: (ThrowAction, ThrowAction))
        ensures
            r.0.side == ThrowSide::Target,
            r.1.side == ThrowSide::Thrower,
            !r.0.transient && !r.1.transient,
            r.0.input is None && r.1.input is None,
            r.0.requirement == ActionRequirement::Unconditional,
            r.1.requirement == ActionRequirement::Unconditional,
            r.0.effect == self,
            r.1.effect.self_duration == self.self_duration,
            r.1.effect.target_duration == self.target_duration,
            r.1.effect.lock_duration == self.lock_duration,
            r.1.effect.damage == self.damage,
    {
        let thrower_effect = ThrowEffectBuilder {
            self_duration: self.self_duration,
            target_duration: self.target_duration,
            lock_duration: self.lock_duration,
            damage: self.damage,
            extra_target_events: Vec::new(),
        };
        let target = ThrowAction {
            transient: false,
            input: None,
            requirement: ActionRequirement::Unconditional,
            side: ThrowSide::Target,
            effect: self,
        };
        let thrower = ThrowAction {
            transient: false,
            input: None,
            requirement: ActionRequirement::Unconditional,
            side: ThrowSide::Thrower,
            effect: thrower_effect,
        };
        (target, thrower)
    }
}

/// Law: both sides of a throw end, and the thrown character is released before it ends.
pub proof fn law_throw_sides_end(b: ThrowEffectBuilder, clock: ActionClock)
    requires
        b.self_duration >= 1,
        b.target_duration >= 1,
        b.lock_duration == (if b.self_duration <= b.target_duration { b.self_duration } else { b.target_duration }) - 1,
    ensures
        b.lock_duration < b.target_duration,
        b.lock_duration < b.self_duration,
        clock.elapsed >= b.target_duration ==> end_after(clock.elapsed, b.target_duration) == seq![ActionEvent::End],
        clock.elapsed >= b.self_duration ==> end_after(clock.elapsed, b.self_duration) == seq![ActionEvent::End],
{
}

} // verus!
