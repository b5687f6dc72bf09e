//! Describing attacks: the hits an attack lands on which frames, and what each hit is.
use vstd::prelude::*;
use crate::ids::{ActionCategory, ActionId, AttackHeight, CancelType, GameButton, StatusCondition, StatusFlag};
use crate::builders::{ActionBuilder, Input, closing_blobs, same_but_blobs, same_but_input, same_but_requirements};
use crate::events::ActionEvent;
use crate::hits::{BlockType, Lifetime};
use crate::requirements::ActionRequirement;
use crate::script::{Action, Timing, blob_views, grouped};
use crate::situation::Situation;
use crate::ids::SimpleState;
use crate::strike::{HitStun, StrikeProfile, Stun, default_strike};

verus! {

/// The actions a throw starts when it connects, and whether it swaps sides.
#[derive(Clone, Copy, Debug, PartialEq, Eq, Structural)]
pub struct ThrowStartup {
    pub on_hit_action: ActionId,
    pub target_action: ActionId,
    pub sideswitch: bool,
}

impl Default for ThrowStartup {
    fn default() -> (r: Self)
        ensures
            r == (ThrowStartup { on_hit_action: ActionId::Unset, target_action: ActionId::Unset, sideswitch: false }),
    {
        ThrowStartup { on_hit_action: ActionId::Unset, target_action: ActionId::Unset, sideswitch: false }
    }
}

/// Whether a hit is a throw or a strike, with what decides its effect.
#[derive(Clone, Debug)]
pub enum SubBuilder {
    Throw(ThrowStartup),
    Strike(StrikeProfile),
}

/// How a hit of the given kind is blocked.
pub open spec fn block_type_of(sb: SubBuilder) -> BlockType {
    match sb {
        SubBuilder::Throw(_) => BlockType::Grab,
        SubBuilder::Strike(p) => BlockType::Strike(p.block_height),
    }
}

/// Whether everything the hit needs has been set: both actions of a throw, or damage
/// and both stuns of a strike.
pub open spec fn sub_builder_complete(sb: SubBuilder) -> bool {
    match sb {
        SubBuilder::Throw(t) => t.on_hit_action != ActionId::Unset && t.target_action != ActionId::Unset,
        SubBuilder::Strike(p) => p.is_complete(),
    }
}

/// The kind of hit with a strike raised to overhead; throws stay as they are.
pub open spec fn overhead(sb: SubBuilder) -> SubBuilder {
    match sb {
        SubBuilder::Strike(p) => SubBuilder::Strike(StrikeProfile { block_height: AttackHeight::High, ..p }),
        SubBuilder::Throw(t) => SubBuilder::Throw(t),
    }
}

impl SubBuilder {
    pub fn block_type(&self) -> (r: BlockType)
        ensures
            r == block_type_of(*self),
    {
        match self {
            SubBuilder::Throw(_) => BlockType::Grab,
            SubBuilder::Strike(p) => BlockType::Strike(p.block_height),
        }
    }

    /// Checks that everything the hit needs has been set.
    pub fn complete(&self) -> (r: bool)
        ensures
            r == sub_builder_complete(*self),
    {
        match self {
            SubBuilder::Throw(t) => t.on_hit_action != ActionId::Unset && t.target_action != ActionId::Unset,
            SubBuilder::Strike(p) => p.complete(),
        }
    }

    /// A strike raised to overhead; a throw is returned as it is.
    pub fn raised(self) -> (r: Self)
        ensures
            r == overhead(self),
    {
        match self {
            SubBuilder::Strike(p) => SubBuilder::Strike(p.with_height(AttackHeight::High)),
            SubBuilder::Throw(t) => SubBuilder::Throw(t),
        }
    }
}

impl Default for SubBuilder {
    fn default() -> (r: Self)
        ensures
            r == SubBuilder::Strike(default_strike()),
    {
        SubBuilder::Strike(StrikeProfile::default())
    }
}

/// One hit of an attack: what it is and how its hitbox behaves, apart from its shape
/// and motion.
#[derive(Clone, Debug)]
pub struct HitBuilder {
    /// For how many frames the hurtbox grows over the hitbox, if it does.
    pub expand_hurtbox: Option<usize>,
    pub projectile: bool,
    pub sub_builder: SubBuilder,
    pub hit_count: usize,
    pub hitbox_lifetime: Lifetime,
    pub additional_events: Vec<ActionEvent>,
}

impl HitBuilder {
    /// The hit of a normal: a strike whose hurtbox grows for five frames.
    pub fn normal() -> (r: Self)
        ensures
            r.expand_hurtbox == Some(5usize),
            !r.projectile,
            r.hit_count == 1,
            r.hitbox_lifetime == (Lifetime { despawn_on_hit: true, despawn_on_landing: true, frames: Some(1usize) }),
            r.additional_events@.len() == 0,
            r.sub_builder == SubBuilder::Strike(default_strike()),
    {
        HitBuilder {
            expand_hurtbox: Some(5),
            projectile: false,
            sub_builder: SubBuilder::default(),
            hit_count: 1,
            hitbox_lifetime: Lifetime::default(),
            additional_events: Vec::new(),
        }
    }

    /// The hit of a special: a strike with two chip damage that cancels into supers.
    pub fn special() -> (r: Self)
        ensures
            r.expand_hurtbox == Some(5usize),
            !r.projectile,
            r.hit_count == 1,
            r.hitbox_lifetime == (Lifetime { despawn_on_hit: true, despawn_on_landing: true, frames: Some(1usize) }),
            r.additional_events@.len() == 0,
            r.sub_builder == SubBuilder::Strike(StrikeProfile {
                chip_damage: 2,
                cancel: Some((CancelType::Super, None)),
                ..default_strike()
            }),
    {
        HitBuilder {
            sub_builder: SubBuilder::Strike(
                StrikeProfile::default().with_chip_damage(2).with_cancel(CancelType::Super),
            ),
            ..Self::normal()
        }
    }

    /// Changes the strike of the hit.
    fn with_strike(self, profile: StrikeProfile) -> (r: Self)
        ensures
            r == (HitBuilder { sub_builder: SubBuilder::Strike(profile), ..self }),
    {
        HitBuilder { sub_builder: SubBuilder::Strike(profile), ..self }
    }

    /// Takes the strike out of a hit that is a strike, leaving a placeholder throw.
    fn split(self) -> (r: (StrikeProfile, Self))
        requires
            self.sub_builder is Strike,
        ensures
            self.sub_builder == SubBuilder::Strike(r.0),
            r.1 == (HitBuilder { sub_builder: SubBuilder::Throw(ThrowStartup {
                on_hit_action: ActionId::Unset,
                target_action: ActionId::Unset,
                sideswitch: false,
            }), ..self }),
    {
        let HitBuilder { expand_hurtbox, projectile, sub_builder, hit_count, hitbox_lifetime, additional_events } = self;
        let rest = HitBuilder {
            expand_hurtbox,
            projectile,
            sub_builder: SubBuilder::Throw(ThrowStartup::default()),
            hit_count,
            hitbox_lifetime,
            additional_events,
        };
        match sub_builder {
            SubBuilder::Strike(p) => (p, rest),
            SubBuilder::Throw(_) => {
                assert(false);
                (StrikeProfile::default(), rest)
            },
        }
    }

    /// The throw of a hit that is a throw.
    fn throw(&self) -> (r: ThrowStartup)
        requires
            self.sub_builder is Throw,
        ensures
            self.sub_builder == SubBuilder::Throw(r),
    {
        match &self.sub_builder {
            SubBuilder::Throw(t) => *t,
            SubBuilder::Strike(_) => {
                assert(false);
                ThrowStartup::default()
            },
        }
    }

    pub fn is_throw(&self) -> (r: bool)
        ensures
            r == (self.sub_builder is Throw),
    {
        match self.sub_builder {
            SubBuilder::Throw(_) => true,
            SubBuilder::Strike(_) => false,
        }
    }

    pub fn with_active_frames(self, frames: usize) -> (r: Self)
        ensures
            r == (HitBuilder { hitbox_lifetime: Lifetime { despawn_on_hit: true, despawn_on_landing: true, frames: Some(frames) }, ..self }),
    {
        HitBuilder { hitbox_lifetime: Lifetime::frames(frames), ..self }
    }

    pub fn with_multiple_hits(self, hit_count: usize) -> (r: Self)
        ensures
            r == (HitBuilder { hit_count, ..self }),
    {
        HitBuilder { hit_count, ..self }
    }

    pub fn projectile(self) -> (r: Self)
        ensures
            r == (HitBuilder { projectile: true, ..self }),
    {
        HitBuilder { projectile: true, ..self }
    }

    /// The hurtbox does not grow over the hitbox.
    pub fn with_disjoint(self) -> (r: Self)
        ensures
            r == (HitBuilder { expand_hurtbox: None, ..self }),
    {
        HitBuilder { expand_hurtbox: None, ..self }
    }

    /// Adds events the hit sends when it comes out.
    pub fn with_additional_events(self, events: Vec<ActionEvent>) -> (r: Self)
        ensures
            r.additional_events@ == self.additional_events@ + events@,
            r.expand_hurtbox == self.expand_hurtbox,
            r.projectile == self.projectile,
            r.sub_builder == self.sub_builder,
            r.hit_count == self.hit_count,
            r.hitbox_lifetime == self.hitbox_lifetime,
    {
        let mut b = self;
        let mut extra = events;
        b.additional_events.append(&mut extra);
        b
    }

    pub fn with_cancels_to(self, cancel_type: CancelType, window_size: usize) -> (r: Self)
        requires
            self.sub_builder is Strike,
        ensures
            self.sub_builder matches SubBuilder::Strike(p)
                && r == (HitBuilder { sub_builder: SubBuilder::Strike(StrikeProfile { cancel: Some((cancel_type, Some(window_size))), ..p }), ..self }),
    {
        let (p, rest) = self.split();
        rest.with_strike(p.with_cancel_window(cancel_type, window_size))
    }

    pub fn with_no_cancels(self) -> (r: Self)
        requires
            self.sub_builder is Strike,
        ensures
            self.sub_builder matches SubBuilder::Strike(p)
                && r == (HitBuilder { sub_builder: SubBuilder::Strike(StrikeProfile { cancel: None, ..p }), ..self }),
    {
        let (p, rest) = self.split();
        rest.with_strike(p.without_cancel())
    }

    pub fn with_damage(self, damage: i32) -> (r: Self)
        requires
            self.sub_builder is Strike,
        ensures
            self.sub_builder matches SubBuilder::Strike(p)
                && r == (HitBuilder { sub_builder: SubBuilder::Strike(StrikeProfile { base_damage: damage, ..p }), ..self }),
    {
        let (p, rest) = self.split();
        rest.with_strike(p.with_damage(damage))
    }

    pub fn with_blockstun(self, frames: usize) -> (r: Self)
        requires
            self.sub_builder is Strike,
        ensures
            self.sub_builder matches SubBuilder::Strike(p)
                && r == (HitBuilder { sub_builder: SubBuilder::Strike(StrikeProfile { block_stun: Stun::Absolute(frames), ..p }), ..self }),
    {
        let (p, rest) = self.split();
        rest.with_strike(p.with_blockstun(Stun::Absolute(frames)))
    }

    pub fn with_hitstun(self, frames: usize) -> (r: Self)
        requires
            self.sub_builder is Strike,
        ensures
            self.sub_builder matches SubBuilder::Strike(p)
                && r == (HitBuilder { sub_builder: SubBuilder::Strike(StrikeProfile { hit_stun: HitStun::Stun(Stun::Absolute(frames)), ..p }), ..self }),
    {
        let (p, rest) = self.split();
        rest.with_strike(p.with_hitstun(Stun::Absolute(frames)))
    }

    /// The defender recovers `frame_advantage` frames after the attacker on block.
    pub fn with_advantage_on_block(self, frame_advantage: i32) -> (r: Self)
        requires
            self.sub_builder is Strike,
        ensures
            self.sub_builder matches SubBuilder::Strike(p)
                && r == (HitBuilder { sub_builder: SubBuilder::Strike(StrikeProfile { block_stun: Stun::Relative(frame_advantage), ..p }), ..self }),
    {
        let (p, rest) = self.split();
        rest.with_strike(p.with_blockstun(Stun::Relative(frame_advantage)))
    }

    /// The defender recovers `frame_advantage` frames after the attacker on a clean hit.
    pub fn with_advantage_on_hit(self, frame_advantage: i32) -> (r: Self)
        requires
            self.sub_builder is Strike,
        ensures
            self.sub_builder matches SubBuilder::Strike(p)
                && r == (HitBuilder { sub_builder: SubBuilder::Strike(StrikeProfile { hit_stun: HitStun::Stun(Stun::Relative(frame_advantage)), ..p }), ..self }),
    {
        let (p, rest) = self.split();
        rest.with_strike(p.with_hitstun(Stun::Relative(frame_advantage)))
    }

    pub fn knocks_down(self) -> (r: Self)
        requires
            self.sub_builder is Strike,
        ensures
            self.sub_builder matches SubBuilder::Strike(p)
                && r == (HitBuilder { sub_builder: SubBuilder::Strike(StrikeProfile { hit_stun: HitStun::Knockdown, ..p }), ..self }),
    {
        let (p, rest) = self.split();
        rest.with_strike(p.knocks_down())
    }

    pub fn launches(self) -> (r: Self)
        requires
            self.sub_builder is Strike,
        ensures
            self.sub_builder matches SubBuilder::Strike(p)
                && r == (HitBuilder { sub_builder: SubBuilder::Strike(StrikeProfile { hit_stun: HitStun::Launch, ..p }), ..self }),
    {
        let (p, rest) = self.split();
        rest.with_strike(p.launches())
    }

    /// A sword hit: five chip damage, five damage per sharpness level, and a hurtbox that
    /// does not grow.
    pub fn sword(self) -> (r: Self)
        requires
            self.sub_builder is Strike,
        ensures
            self.sub_builder matches SubBuilder::Strike(p)
                && r == (HitBuilder {
                    sub_builder: SubBuilder::Strike(StrikeProfile { chip_damage: 5, sharpness_scaling: 5, ..p }),
                    expand_hurtbox: None,
                    ..self
                }),
    {
        let (p, rest) = self.split();
        rest.with_strike(p.with_chip_damage(5).with_sharpness_scaling(5)).with_disjoint()
    }

    pub fn hits_overhead(self) -> (r: Self)
        requires
            self.sub_builder is Strike,
        ensures
            self.sub_builder matches SubBuilder::Strike(p)
                && r == (HitBuilder { sub_builder: SubBuilder::Strike(StrikeProfile { block_height: AttackHeight::High, ..p }), ..self }),
    {
        let (p, rest) = self.split();
        rest.with_strike(p.with_height(AttackHeight::High))
    }

    pub fn hits_low(self) -> (r: Self)
        requires
            self.sub_builder is Strike,
        ensures
            self.sub_builder matches SubBuilder::Strike(p)
                && r == (HitBuilder { sub_builder: SubBuilder::Strike(StrikeProfile { block_height: AttackHeight::Low, ..p }), ..self }),
    {
        let (p, rest) = self.split();
        rest.with_strike(p.with_height(AttackHeight::Low))
    }

    /// Makes the hit a throw that keeps the sides.
    pub fn forward_throw(self) -> (r: Self)
        ensures
            r == (HitBuilder { sub_builder: SubBuilder::Throw(ThrowStartup {
                on_hit_action: ActionId::Unset,
                target_action: ActionId::Unset,
                sideswitch: false,
            }), ..self }),
    {
        HitBuilder { sub_builder: SubBuilder::Throw(ThrowStartup::default()), ..self }
    }

    /// Makes the hit a throw that swaps the sides.
    pub fn back_throw(self) -> (r: Self)
        ensures
            r == (HitBuilder { sub_builder: SubBuilder::Throw(ThrowStartup {
                on_hit_action: ActionId::Unset,
                target_action: ActionId::Unset,
                sideswitch: true,
            }), ..self }),
    {
        HitBuilder { sub_builder: SubBuilder::Throw(ThrowStartup { sideswitch: true, ..ThrowStartup::default() }), ..self }
    }

    /// The action the thrown character goes into.
    pub fn throw_target_action(self, target_action: ActionId) -> (r: Self)
        requires
            self.sub_builder is Throw,
        ensures
            self.sub_builder matches SubBuilder::Throw(t)
                && r == (HitBuilder { sub_builder: SubBuilder::Throw(ThrowStartup { target_action, ..t }), ..self }),
    {
        let t = self.throw();
        HitBuilder { sub_builder: SubBuilder::Throw(ThrowStartup { target_action, ..t }), ..self }
    }

    /// The action the thrower goes into when the throw connects.
    pub fn throw_hit_action(self, on_hit_action: ActionId) -> (r: Self)
        requires
            self.sub_builder is Throw,
        ensures
            self.sub_builder matches SubBuilder::Throw(t)
                && r == (HitBuilder { sub_builder: SubBuilder::Throw(ThrowStartup { on_hit_action, ..t }), ..self }),
    {
        let t = self.throw();
        HitBuilder { sub_builder: SubBuilder::Throw(ThrowStartup { on_hit_action, ..t }), ..self }
    }
}

/// The events of a throw that connects: the thrower's and the thrown character's. A
/// teched throw only pushes both apart, which carries no plain event.
pub open spec fn throw_events(on_hit_action: ActionId, sideswitch: bool, target_action: ActionId, avoided: bool)
    -> (Seq<ActionEvent>, Seq<ActionEvent>)
{
    if avoided {
        (seq![], seq![])
    } else {
        (
            seq![ActionEvent::StartAction(on_hit_action)],
            seq![ActionEvent::SnapToOpponent { sideswitch }, ActionEvent::StartAction(target_action)],
        )
    }
}

/// What a throw makes the thrower and the thrown character do when it connects.
pub fn build_throw_effect(on_hit_action: ActionId, sideswitch: bool, target_action: ActionId, avoided: bool)
    -> (r: (Vec<ActionEvent>, Vec<ActionEvent>))
    ensures
        r.0@ == throw_events(on_hit_action, sideswitch, target_action, avoided).0,
        r.1@ == throw_events(on_hit_action, sideswitch, target_action, avoided).1,
{
    if avoided {
        (Vec::new(), Vec::new())
    } else {
        let attacker = vec![ActionEvent::StartAction(on_hit_action)];
        let defender = vec![
            ActionEvent::SnapToOpponent { sideswitch },
            ActionEvent::StartAction(target_action),
        ];
        assert(attacker@ =~= throw_events(on_hit_action, sideswitch, target_action, avoided).0);
        assert(defender@ =~= throw_events(on_hit_action, sideswitch, target_action, avoided).1);
        (attacker, defender)
    }
}

/// The hit with its kind raised to overhead.
pub open spec fn raised_hit(h: HitBuilder) -> HitBuilder {
    HitBuilder { sub_builder: overhead(h.sub_builder), ..h }
}

/// Whether every strike among the hits is blocked high.
pub open spec fn strikes_overhead(hits: Seq<(usize, HitBuilder)>) -> bool {
    forall|i: int| 0 <= i < hits.len() ==> match #[trigger] hits[i].1.sub_builder {
        SubBuilder::Strike(p) => p.block_height == AttackHeight::High,
        SubBuilder::Throw(_) => true,
    }
}

/// A hit of an attack placed in its script: the frame it comes out on and the frames
/// the attack has left after it.
#[derive(Debug)]
pub struct ScheduledHit {
    pub frame: usize,
    pub recovery: i32,
    pub hit: HitBuilder,
}

/// A finished attack: the action, and the hits its script spawns.
#[derive(Debug)]
pub struct AttackPlan {
    pub action: Action,
    pub hits: Vec<ScheduledHit>,
}

/// An attack being described: the action and the hits it lands on given frames.
pub struct AttackBuilder {
    pub action_builder: ActionBuilder,
    pub hits: Vec<(usize, HitBuilder)>,
}

impl HitBuilder {
    /// The hit raised to overhead.
    pub fn raise(self) -> (r: Self)
        ensures
            r == raised_hit(self),
    {
        let HitBuilder { expand_hurtbox, projectile, sub_builder, hit_count, hitbox_lifetime, additional_events } = self;
        HitBuilder { expand_hurtbox, projectile, sub_builder: sub_builder.raised(), hit_count, hitbox_lifetime, additional_events }
    }
}

impl AttackBuilder {
    pub fn special() -> (r: Self)
        ensures
            r.action_builder.is_fresh(ActionCategory::Special),
            r.hits@.len() == 0,
    {
        AttackBuilder { action_builder: ActionBuilder::special(), hits: Vec::new() }
    }

    pub fn normal() -> (r: Self)
        ensures
            r.action_builder.is_fresh(ActionCategory::Normal),
            r.hits@.len() == 0,
    {
        AttackBuilder { action_builder: ActionBuilder::normal(), hits: Vec::new() }
    }

    /// A standing normal started by a single button.
    pub fn button(btn: GameButton) -> (r: Self)
        ensures
            r.action_builder.input == Some(Input::Button(btn)),
            r.action_builder.state == Some(SimpleState::Stand),
            r.action_builder.category == ActionCategory::Normal,
            !r.action_builder.transient,
            !r.action_builder.needs_charge,
            !r.action_builder.needs_meter,
            r.action_builder.extra_requirements@.len() == 0,
            r.action_builder.follows_up_from is None,
            r.action_builder.total_duration == 0,
            r.action_builder.blobs@.len() == 0,
            r.hits@.len() == 0,
    {
        AttackBuilder { action_builder: ActionBuilder::button(btn), hits: Vec::new() }
    }

    pub fn follow_up_from(self, actions: Vec<ActionId>) -> (r: Self)
        ensures
            r.action_builder == (ActionBuilder { follows_up_from: Some(actions), ..self.action_builder }),
            r.hits == self.hits,
    {
        AttackBuilder { action_builder: self.action_builder.follow_up_from(actions), hits: self.hits }
    }

    pub fn with_input(self, input: &str) -> (r: Self)
        ensures
            r.action_builder.input matches Some(Input::Motion(m)) && m@ == input@,
            same_but_input(r.action_builder, self.action_builder),
            r.hits == self.hits,
    {
        AttackBuilder { action_builder: self.action_builder.with_input(input), hits: self.hits }
    }

    pub fn with_meter_cost(self) -> (r: Self)
        ensures
            r.action_builder == (ActionBuilder { needs_meter: true, ..self.action_builder }),
            r.hits == self.hits,
    {
        AttackBuilder { action_builder: self.action_builder.with_meter_cost(), hits: self.hits }
    }

    pub fn with_charge(self) -> (r: Self)
        ensures
            r.action_builder == (ActionBuilder { needs_charge: true, ..self.action_builder }),
            r.hits == self.hits,
    {
        AttackBuilder { action_builder: self.action_builder.with_charge(), hits: self.hits }
    }

    /// Makes the attack end after the given frame.
    pub fn with_total_duration(self, duration: usize) -> (r: Self)
        requires
            !self.action_builder.transient,
        ensures
            r.action_builder == (ActionBuilder { total_duration: duration, ..self.action_builder }),
            r.hits == self.hits,
    {
        AttackBuilder { action_builder: self.action_builder.end_at(duration), hits: self.hits }
    }

    pub fn crouching(self) -> (r: Self)
        ensures
            r.action_builder == (ActionBuilder { state: Some(SimpleState::Crouch), ..self.action_builder }),
            r.hits == self.hits,
    {
        AttackBuilder { action_builder: self.action_builder.crouching(), hits: self.hits }
    }

    /// Makes the attack air only; every strike it already has now hits overhead.
    pub fn air_only(self) -> (r: Self)
        ensures
            r.action_builder == (ActionBuilder { state: Some(SimpleState::Air), ..self.action_builder }),
            r.hits@.len() == self.hits@.len(),
            forall|i: int| 0 <= i < r.hits@.len() ==> #[trigger] r.hits@[i]
                == (self.hits@[i].0, raised_hit(self.hits@[i].1)),
            strikes_overhead(r.hits@),
    {
        let ghost orig = self.hits@;
        let mut rest = self.hits;
        let mut raised: Vec<(usize, HitBuilder)> = Vec::new();
        while rest.len() > 0
            invariant
                raised@.len() + rest@.len() == orig.len(),
                rest@ == orig.subrange(raised@.len() as int, orig.len() as int),
                forall|i: int| 0 <= i < raised@.len() ==> #[trigger] raised@[i] == (orig[i].0, raised_hit(orig[i].1)),
            decreases rest@.len(),
        {
            let ghost pre = rest@;
            let (frame, hit) = rest.remove(0);
            proof {
                assert(pre[0] == orig[raised@.len() as int]);
            }
            raised.push((frame, hit.raise()));
            assert(rest@ =~= orig.subrange(raised@.len() as int, orig.len() as int));
        }
        let r = AttackBuilder { action_builder: self.action_builder.air_only(), hits: raised };
        proof {
            assert forall|i: int| 0 <= i < r.hits@.len() implies match #[trigger] r.hits@[i].1.sub_builder {
                SubBuilder::Strike(p) => p.block_height == AttackHeight::High,
                SubBuilder::Throw(_) => true,
            } by {
                assert(r.hits@[i] == (orig[i].0, raised_hit(orig[i].1)));
            }
        }
        r
    }

    /// Adds a hit on the given frame; in an air only attack a strike hits overhead.
    pub fn with_hit_on_frame(self, frame: usize, hit: HitBuilder) -> (r: Self)
        ensures
            r.action_builder == self.action_builder,
            r.hits@ == self.hits@.push((frame, if self.action_builder.state == Some(SimpleState::Air) {
                raised_hit(hit)
            } else {
                hit
            })),
            self.action_builder.state == Some(SimpleState::Air) && strikes_overhead(self.hits@)
                ==> strikes_overhead(r.hits@),
    {
        let air = match self.action_builder.state {
            Some(SimpleState::Air) => true,
            _ => false,
        };
        let placed = if air { hit.raise() } else { hit };
        let mut hits = self.hits;
        hits.push((frame, placed));
        let r = AttackBuilder { action_builder: self.action_builder, hits };
        proof {
            if air && strikes_overhead(self.hits@) {
                assert forall|i: int| 0 <= i < r.hits@.len() implies match #[trigger] r.hits@[i].1.sub_builder {
                    SubBuilder::Strike(p) => p.block_height == AttackHeight::High,
                    SubBuilder::Throw(_) => true,
                } by {
                    if i < self.hits@.len() {
                        assert(r.hits@[i] == self.hits@[i]);
                    }
                }
            }
        }
        r
    }

    /// Plays the animation from the first frame.
    pub fn with_animation(self, animation: u32) -> (r: Self)
        requires
            !self.action_builder.transient,
        ensures
            same_but_blobs(r.action_builder, self.action_builder),
            blob_views(r.action_builder.blobs@) == blob_views(self.action_builder.blobs@)
                .push((Timing::OnFrame(0), seq![ActionEvent::Animation(animation)])),
            r.hits == self.hits,
    {
        AttackBuilder { action_builder: self.action_builder.with_animation(animation), hits: self.hits }
    }

    /// Plays the sound on the first frame.
    pub fn with_sound(self, sound: u32) -> (r: Self)
        requires
            !self.action_builder.transient,
        ensures
            same_but_blobs(r.action_builder, self.action_builder),
            blob_views(r.action_builder.blobs@) == blob_views(self.action_builder.blobs@)
                .push((Timing::OnFrame(0), seq![ActionEvent::Sound(sound)])),
            r.hits == self.hits,
    {
        AttackBuilder { action_builder: self.action_builder.with_sound(sound), hits: self.hits }
    }

    /// Shows the visual effect, placed relative to the character, on the given frame.
    pub fn with_vfx_on_frame(self, frame: usize, effect: u32) -> (r: Self)
        requires
            !self.action_builder.transient,
        ensures
            same_but_blobs(r.action_builder, self.action_builder),
            blob_views(r.action_builder.blobs@) == blob_views(self.action_builder.blobs@)
                .push((Timing::OnFrame(frame), seq![ActionEvent::RelativeVisualEffect(effect)])),
            r.hits == self.hits,
    {
        AttackBuilder { action_builder: self.action_builder.with_vfx_on_frame(frame, effect), hits: self.hits }
    }

    /// Gives a normal the character's grunt.
    pub fn with_character_universals(self, normal_grunt: u32) -> (r: Self)
        requires
            self.action_builder.category == ActionCategory::Normal ==> !self.action_builder.transient,
        ensures
            same_but_blobs(r.action_builder, self.action_builder),
            blob_views(r.action_builder.blobs@) == (if self.action_builder.category == ActionCategory::Normal {
                blob_views(self.action_builder.blobs@).push((Timing::OnFrame(0), seq![ActionEvent::Sound(normal_grunt)]))
            } else {
                blob_views(self.action_builder.blobs@)
            }),
            r.hits == self.hits,
    {
        AttackBuilder { action_builder: self.action_builder.with_character_universals(normal_grunt), hits: self.hits }
    }

    /// Adds fixed events on the first frame.
    pub fn with_extra_initial_events(self, events: Vec<ActionEvent>) -> (r: Self)
        requires
            !self.action_builder.transient,
        ensures
            same_but_blobs(r.action_builder, self.action_builder),
            blob_views(r.action_builder.blobs@) == blob_views(self.action_builder.blobs@).push((Timing::OnFrame(0), events@)),
            r.hits == self.hits,
    {
        AttackBuilder { action_builder: self.action_builder.static_immediate_events(events), hits: self.hits }
    }

    pub fn with_extra_requirement(self, extra_requirement: ActionRequirement) -> (r: Self)
        ensures
            r.action_builder.extra_requirements@ == self.action_builder.extra_requirements@.push(extra_requirement),
            same_but_requirements(r.action_builder, self.action_builder),
            r.hits == self.hits,
    {
        AttackBuilder { action_builder: self.action_builder.with_requirement(extra_requirement), hits: self.hits }
    }

    /// Whether an activation of this attack in the situation is a comic book cancel: a
    /// normal that is no follow up, started by cancelling another action.
    pub open spec fn is_comic_cancel(&self, situation: Situation) -> bool {
        &&& self.action_builder.category == ActionCategory::Normal
        &&& self.action_builder.follows_up_from is None
        &&& situation.tracker matches Some(t) && t.was_cancelled_into
    }

    /// The events the attack sends as it starts: a comic book cancel puts the comic book
    /// on cooldown.
    pub fn opening_events(&self, situation: &Situation) -> (r: Vec<ActionEvent>)
        requires
            situation.tracker is Some,
        ensures
            r@ == (if self.is_comic_cancel(*situation) {
                seq![ActionEvent::Condition(StatusCondition { flag: StatusFlag::ComicCancelCooldown, expiration: None })]
            } else {
                seq![]
            }),
    {
        let cancelled = match situation.tracker {
            Some(t) => t.was_cancelled_into,
            None => false,
        };
        let is_normal = self.action_builder.category == ActionCategory::Normal;
        let is_follow_up = self.action_builder.follows_up_from.is_some();
        if is_normal && !is_follow_up && cancelled {
            let r = vec![ActionEvent::Condition(StatusCondition { flag: StatusFlag::ComicCancelCooldown, expiration: None })];
            assert(r@ =~= seq![ActionEvent::Condition(StatusCondition { flag: StatusFlag::ComicCancelCooldown, expiration: None })]);
            r
        } else {
            Vec::new()
        }
    }

    /// The finished attack: the action, and each hit with the frames the attack has left
    /// after it.
    pub fn build(self, meter_bar_segment: i32) -> (r: AttackPlan)
        requires
            self.hits@.len() > 0,
            forall|i: int| 0 <= i < self.hits@.len() ==> #[trigger] self.hits@[i].0 <= self.action_builder.total_duration,
            meter_bar_segment != i32::MIN,
        ensures
            r.action.transient == self.action_builder.transient,
            self.action_builder.input is None ==> r.action.input is None,
            self.action_builder.input matches Some(i) ==> r.action.input matches Some(s)
                && s@ == i.notation(self.action_builder.state == Some(SimpleState::Crouch)),
            r.action.requirement matches ActionRequirement::And(list)
                && list@ == self.action_builder.requirement_list(meter_bar_segment),
            grouped(blob_views(r.action.script.groups@), blob_views(self.action_builder.blobs@) + closing_blobs(
                self.action_builder.needs_meter, self.action_builder.needs_charge, self.action_builder.transient,
                self.action_builder.state, self.action_builder.total_duration, meter_bar_segment)),
            r.hits@.len() == self.hits@.len(),
            forall|i: int| 0 <= i < r.hits@.len() ==> {
                &&& (#[trigger] r.hits@[i]).frame == self.hits@[i].0
                &&& r.hits@[i].recovery == (self.action_builder.total_duration - self.hits@[i].0) as i32
                &&& r.hits@[i].hit == self.hits@[i].1
            },
    {
        let total = self.action_builder.total_duration;
        let ghost orig = self.hits@;
        let mut rest = self.hits;
        let mut scheduled: Vec<ScheduledHit> = Vec::new();
        while rest.len() > 0
            invariant
                scheduled@.len() + rest@.len() == orig.len(),
                rest@ == orig.subrange(scheduled@.len() as int, orig.len() as int),
                forall|i: int| 0 <= i < orig.len() ==> #[trigger] orig[i].0 <= total,
                forall|i: int| 0 <= i < scheduled@.len() ==> {
                    &&& (#[trigger] scheduled@[i]).frame == orig[i].0
                    &&& scheduled@[i].recovery == (total - orig[i].0) as i32
                    &&& scheduled@[i].hit == orig[i].1
                },
            decreases rest@.len(),
        {
            let ghost pre = rest@;
            let (frame, hit) = rest.remove(0);
            proof {
                assert(pre[0] == orig[scheduled@.len() as int]);
            }
            let left: usize = total - frame;
            scheduled.push(ScheduledHit { frame, recovery: left as i32, hit });
            assert(rest@ =~= orig.subrange(scheduled@.len() as int, orig.len() as int));
        }
        AttackPlan { action: self.action_builder.build(meter_bar_segment), hits: scheduled }
    }
}

} // verus!
