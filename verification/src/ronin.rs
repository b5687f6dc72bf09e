//! The ronin's moves: its normals, its throw attacks, and the two sides of each throw
//! that connects.
use vstd::prelude::*;
use crate::attacks::{AttackBuilder, AttackPlan, HitBuilder, SubBuilder, ThrowStartup};
use crate::builders::ActionBuilder;
use crate::collections::{ButtonSet, button_set, button_set_contains};
use crate::items::{Inventory, count_in};
use crate::script::Action;
use crate::strike::{HitStun, StrikeProfile, Stun};
use crate::builders::closing_blobs;
use crate::events::ActionEvent;
use crate::hits::Lifetime;
use crate::ids::{ActionCategory, ActionId, AttackHeight, CancelType, GameButton, ItemId, RoninAction, SimpleState, SpecialVersion, StatusCondition, StatusFlag};
use crate::requirements::ActionRequirement;
use crate::script::{BlobView, Timing, blob_views, grouped};
use crate::throws::{ThrowAction, ThrowEffectBuilder, ThrowSide};

verus! {

/// Handles of what the ronin's throws show and play, and how long the window to cancel
/// the forward throw's startup into the gi parry stays open.
#[derive(Clone, Copy, Debug)]
pub struct RoninLook {
    pub grunt: u32,
    pub stand_throw_startup: u32,
    pub crouch_throw_startup: u32,
    pub air_throw_startup: u32,
    /// Where the crouch throw puts the thrown character on its release.
    pub crouch_throw_teleport: u32,
    pub kara_frames: usize,
}

/// An entry of a character's move list: an attack, another action, or one side of a throw
/// that connected.
#[derive(Debug)]
pub enum CharacterMove {
    Attack(AttackPlan),
    Action(Action),
    Throw(ThrowAction),
}

/// The identifiers of the ronin's throw entries, in order.
pub open spec fn ronin_throw_ids() -> Seq<RoninAction> {
    seq![
        RoninAction::ForwardThrow,
        RoninAction::BackThrow,
        RoninAction::StandThrowHit,
        RoninAction::StandThrowTarget,
        RoninAction::CrouchThrow,
        RoninAction::CrouchThrowHit,
        RoninAction::CrouchThrowTarget,
        RoninAction::AirThrow,
        RoninAction::AirThrowHit,
        RoninAction::AirThrowTarget,
    ]
}

/// The event that opens a window of `frames` frames to cancel into the gi parry.
pub open spec fn is_kara_to_parry(e: ActionEvent, frames: usize) -> bool {
    match e {
        ActionEvent::Condition(c) => c.expiration == Some(frames) && match c.flag {
            StatusFlag::Cancel(CancelType::Specific(ids)) => ids@ == seq![ActionId::GiParry],
            _ => false,
        },
        _ => false,
    }
}

/// A hit that throws, starting the given actions, and stays out for `active` frames.
pub open spec fn throw_hit_is(h: HitBuilder, startup: ThrowStartup, active: usize) -> bool {
    &&& h.sub_builder == SubBuilder::Throw(startup)
    &&& h.hitbox_lifetime == (Lifetime { despawn_on_hit: true, despawn_on_landing: true, frames: Some(active) })
    &&& h.expand_hurtbox == Some(5usize)
    &&& !h.projectile
    &&& h.hit_count == 1
    &&& h.additional_events@.len() == 0
}

/// The throw a connected throw of the ronin starts: the thrower's and the thrown
/// character's actions, and whether the sides swap.
pub open spec fn ronin_startup(hit: RoninAction, target: RoninAction, sideswitch: bool) -> ThrowStartup {
    ThrowStartup { on_hit_action: ActionId::Ronin(hit), target_action: ActionId::Ronin(target), sideswitch }
}

/// `p` is a normal throw attack: its input, stance, timed events before the closing ones,
/// total duration, and one throwing hit on frame `frame`.
pub open spec fn throw_attack_is(
    p: AttackPlan,
    input: Seq<char>,
    state: SimpleState,
    blobs: Seq<BlobView>,
    total: usize,
    frame: usize,
    startup: ThrowStartup,
    active: usize,
    meter_bar_segment: i32,
) -> bool {
    &&& !p.action.transient
    &&& p.action.input matches Some(s) && s@ == input
    &&& p.action.requirement matches ActionRequirement::And(list) && list@ == seq![
        if state == SimpleState::Air { ActionRequirement::Airborne } else { ActionRequirement::Grounded },
        ActionRequirement::Starter(ActionCategory::Normal),
    ]
    &&& grouped(blob_views(p.action.script.groups@), blobs + closing_blobs(false, false, false, Some(state), total, meter_bar_segment))
    &&& p.hits@.len() == 1
    &&& p.hits@[0].frame == frame
    &&& p.hits@[0].recovery == (total - frame) as i32
    &&& throw_hit_is(p.hits@[0].hit, startup, active)
}

/// `m` is the given side of a throw whose thrower and thrown character are locked in it
/// for the given frames, dealing `damage`.
pub open spec fn throw_side_is(m: CharacterMove, side: ThrowSide, self_duration: usize, target_duration: usize, damage: i32) -> bool {
    m matches CharacterMove::Throw(a) && {
        &&& a.side == side
        &&& !a.transient
        &&& a.input is None
        &&& a.requirement == ActionRequirement::Unconditional
        &&& a.effect.self_duration == self_duration
        &&& a.effect.target_duration == target_duration
        &&& a.effect.lock_duration == (if self_duration <= target_duration { self_duration } else { target_duration }) - 1
        &&& a.effect.damage == damage
    }
}

/// The ronin's throws, in order: the forward throw, the back throw and the sides of the
/// standing throw, the crouch throw and its sides, the air throw and its sides.
pub fn ronin_throws(look: RoninLook, meter_bar_segment: i32) -> (r: Vec<(RoninAction, CharacterMove)>)
    requires
        meter_bar_segment != i32::MIN,
    ensures
        r@.len() == ronin_throw_ids().len(),
        forall|i: int| 0 <= i < r@.len() ==> (#[trigger] r@[i]).0 == ronin_throw_ids()[i],
        r@[0].1 matches CharacterMove::Attack(p) && exists|k: ActionEvent| is_kara_to_parry(k, look.kara_frames)
            && throw_attack_is(p, seq!['w'], SimpleState::Stand, seq![
                (Timing::OnFrame(0), seq![ActionEvent::Sound(look.grunt)]),
                (Timing::OnFrame(0), seq![ActionEvent::Animation(look.stand_throw_startup)]),
                (Timing::OnFrame(0), seq![k]),
            ], 37, 3, ronin_startup(RoninAction::StandThrowHit, RoninAction::StandThrowTarget, false), 3, meter_bar_segment),
        r@[1].1 matches CharacterMove::Attack(p) && throw_attack_is(p, seq!['{', '4', '}', 'w'], SimpleState::Stand, seq![
                (Timing::OnFrame(0), seq![ActionEvent::Sound(look.grunt)]),
                (Timing::OnFrame(0), seq![ActionEvent::Animation(look.stand_throw_startup)]),
            ], 37, 3, ronin_startup(RoninAction::StandThrowHit, RoninAction::StandThrowTarget, true), 3, meter_bar_segment),
        throw_side_is(r@[2].1, ThrowSide::Thrower, 80, 30, 10),
        throw_side_is(r@[3].1, ThrowSide::Target, 80, 30, 10),
        r@[3].1 matches CharacterMove::Throw(a) && a.effect.extra_target_events@.len() == 0,
        r@[4].1 matches CharacterMove::Attack(p) && throw_attack_is(p, seq!['{', '1', '2', '3', '}', 'w'], SimpleState::Crouch, seq![
                (Timing::OnFrame(0), seq![ActionEvent::Sound(look.grunt)]),
                (Timing::OnFrame(0), seq![ActionEvent::Animation(look.crouch_throw_startup)]),
            ], 60, 5, ronin_startup(RoninAction::CrouchThrowHit, RoninAction::CrouchThrowTarget, false), 3, meter_bar_segment),
        throw_side_is(r@[5].1, ThrowSide::Thrower, 80, 30, 10),
        throw_side_is(r@[6].1, ThrowSide::Target, 80, 30, 10),
        r@[6].1 matches CharacterMove::Throw(a) && a.effect.extra_target_events@ == seq![ActionEvent::Teleport(look.crouch_throw_teleport)],
        r@[7].1 matches CharacterMove::Attack(p) && throw_attack_is(p, seq!['w'], SimpleState::Air, seq![
                (Timing::OnFrame(0), seq![ActionEvent::Sound(look.grunt)]),
                (Timing::OnFrame(0), seq![ActionEvent::Animation(look.air_throw_startup)]),
            ], 40, 4, ronin_startup(RoninAction::AirThrowHit, RoninAction::AirThrowTarget, false), 2, meter_bar_segment),
        throw_side_is(r@[8].1, ThrowSide::Thrower, 50, 50, 10),
        throw_side_is(r@[9].1, ThrowSide::Target, 50, 50, 10),
        r@[9].1 matches CharacterMove::Throw(a) && a.effect.extra_target_events@.len() == 0,
{
    let (stand_target, stand_thrower) = ThrowEffectBuilder::new(80, 30).with_damage(10).build();
    let (crouch_target, crouch_thrower) = ThrowEffectBuilder::new(80, 30)
        .with_damage(10)
        .with_extra_target_events(vec![ActionEvent::Teleport(look.crouch_throw_teleport)])
        .build();
    let (air_target, air_thrower) = ThrowEffectBuilder::new(50, 50).with_damage(10).build();

    let parry = vec![ActionId::GiParry];
    assert(parry@ =~= seq![ActionId::GiParry]);
    let kara = ActionEvent::Condition(StatusCondition {
        flag: StatusFlag::Cancel(CancelType::Specific(parry)),
        expiration: Some(look.kara_frames),
    });
    let ghost k = kara;
    let kara_events = vec![kara];
    assert(kara_events@ =~= seq![k]);
    let forward_builder = AttackBuilder::button(GameButton::Wrestling)
        .with_character_universals(look.grunt)
        .with_total_duration(37)
        .with_animation(look.stand_throw_startup)
        .with_extra_initial_events(kara_events)
        .with_hit_on_frame(3, HitBuilder::normal()
            .forward_throw()
            .with_active_frames(3)
            .throw_hit_action(ActionId::Ronin(RoninAction::StandThrowHit))
            .throw_target_action(ActionId::Ronin(RoninAction::StandThrowTarget)));
    proof {
        assert(blob_views(forward_builder.action_builder.blobs@) =~= seq![
            (Timing::OnFrame(0), seq![ActionEvent::Sound(look.grunt)]),
            (Timing::OnFrame(0), seq![ActionEvent::Animation(look.stand_throw_startup)]),
            (Timing::OnFrame(0), seq![k]),
        ]);
        assert(forward_builder.action_builder.requirement_list(meter_bar_segment) =~= seq![
            ActionRequirement::Grounded, ActionRequirement::Starter(ActionCategory::Normal)]);
    }
    let forward = forward_builder.build(meter_bar_segment);
    proof {
        assert(is_kara_to_parry(k, look.kara_frames));
        assert(throw_attack_is(forward, seq!['w'], SimpleState::Stand, seq![
            (Timing::OnFrame(0), seq![ActionEvent::Sound(look.grunt)]),
            (Timing::OnFrame(0), seq![ActionEvent::Animation(look.stand_throw_startup)]),
            (Timing::OnFrame(0), seq![k]),
        ], 37, 3, ronin_startup(RoninAction::StandThrowHit, RoninAction::StandThrowTarget, false), 3, meter_bar_segment));
    }
    let back_builder = AttackBuilder::normal()
        .with_character_universals(look.grunt)
        .with_input("{4}w")
        .with_animation(look.stand_throw_startup)
        .with_total_duration(37)
        .with_hit_on_frame(3, HitBuilder::normal()
            .back_throw()
            .with_active_frames(3)
            .throw_hit_action(ActionId::Ronin(RoninAction::StandThrowHit))
            .throw_target_action(ActionId::Ronin(RoninAction::StandThrowTarget)));
    proof {
        assert(blob_views(back_builder.action_builder.blobs@) =~= seq![
            (Timing::OnFrame(0), seq![ActionEvent::Sound(look.grunt)]),
            (Timing::OnFrame(0), seq![ActionEvent::Animation(look.stand_throw_startup)]),
        ]);
        assert(back_builder.action_builder.requirement_list(meter_bar_segment) =~= seq![
            ActionRequirement::Grounded, ActionRequirement::Starter(ActionCategory::Normal)]);
    }
    let back = back_builder.build(meter_bar_segment);
    let crouch_builder = AttackBuilder::button(GameButton::Wrestling)
        .with_character_universals(look.grunt)
        .crouching()
        .with_total_duration(60)
        .with_animation(look.crouch_throw_startup)
        .with_hit_on_frame(5, HitBuilder::normal()
            .with_active_frames(3)
            .forward_throw()
            .throw_hit_action(ActionId::Ronin(RoninAction::CrouchThrowHit))
            .throw_target_action(ActionId::Ronin(RoninAction::CrouchThrowTarget)));
    proof {
        assert(blob_views(crouch_builder.action_builder.blobs@) =~= seq![
            (Timing::OnFrame(0), seq![ActionEvent::Sound(look.grunt)]),
            (Timing::OnFrame(0), seq![ActionEvent::Animation(look.crouch_throw_startup)]),
        ]);
        assert(crouch_builder.action_builder.requirement_list(meter_bar_segment) =~= seq![
            ActionRequirement::Grounded, ActionRequirement::Starter(ActionCategory::Normal)]);
    }
    let crouch = crouch_builder.build(meter_bar_segment);
    let air_builder = AttackBuilder::button(GameButton::Wrestling)
        .with_character_universals(look.grunt)
        .air_only()
        .with_animation(look.air_throw_startup)
        .with_total_duration(40)
        .with_hit_on_frame(4, HitBuilder::normal()
            .with_active_frames(2)
            .forward_throw()
            .throw_hit_action(ActionId::Ronin(RoninAction::AirThrowHit))
            .throw_target_action(ActionId::Ronin(RoninAction::AirThrowTarget)));
    proof {
        assert(blob_views(air_builder.action_builder.blobs@) =~= seq![
            (Timing::OnFrame(0), seq![ActionEvent::Sound(look.grunt)]),
            (Timing::OnFrame(0), seq![ActionEvent::Animation(look.air_throw_startup)]),
        ]);
        assert(air_builder.action_builder.requirement_list(meter_bar_segment) =~= seq![
            ActionRequirement::Airborne, ActionRequirement::Starter(ActionCategory::Normal)]);
    }
    let air = air_builder.build(meter_bar_segment);
    let r = vec![
        (RoninAction::ForwardThrow, CharacterMove::Attack(forward)),
        (RoninAction::BackThrow, CharacterMove::Attack(back)),
        (RoninAction::StandThrowHit, CharacterMove::Throw(stand_thrower)),
        (RoninAction::StandThrowTarget, CharacterMove::Throw(stand_target)),
        (RoninAction::CrouchThrow, CharacterMove::Attack(crouch)),
        (RoninAction::CrouchThrowHit, CharacterMove::Throw(crouch_thrower)),
        (RoninAction::CrouchThrowTarget, CharacterMove::Throw(crouch_target)),
        (RoninAction::AirThrow, CharacterMove::Attack(air)),
        (RoninAction::AirThrowHit, CharacterMove::Throw(air_thrower)),
        (RoninAction::AirThrowTarget, CharacterMove::Throw(air_target)),
    ];
    proof {
        reveal_strlit("{4}w");
        assert("{4}w"@ =~= seq!['{', '4', '}', 'w']);
        assert(crate::builders::crouch_prefix() + seq!['w'] =~= seq!['{', '1', '2', '3', '}', 'w']);
    }
    r
}

/// Handles of what the ronin's normals show and play: each one's animation, the
/// movements, hurtbox growths and sword trails of some, and what the ice cube shows.
#[derive(Clone, Copy, Debug)]
pub struct RoninNormalLook {
    pub grunt: u32,
    pub kara_frames: usize,
    pub knee_thrust: u32,
    pub low_kick: u32,
    pub heel_kick: u32,
    /// The heel kick's step forward.
    pub heel_kick_step: u32,
    /// The heel kick's push on hit.
    pub heel_kick_push: u32,
    pub uppercut: u32,
    pub uppercut_hurtbox: u32,
    pub high_stab: u32,
    pub high_stab_draw_trail: u32,
    pub high_stab_swing_trail: u32,
    pub sky_stab: u32,
    pub sky_slash_hurtbox: u32,
    pub air_stab: u32,
    pub falcon_knee: u32,
    pub foot_dive_hold: u32,
    /// The dive's slow fall while it is held.
    pub foot_dive_fall: u32,
    pub foot_dive_release: u32,
    /// The ice cube's stop of the launched opponent's momentum.
    pub ice_cube_freeze: u32,
    pub ice_cube_icon: u32,
}

/// The identifiers of the ronin's normals, in order.
pub open spec fn ronin_normal_ids() -> Seq<RoninAction> {
    seq![
        RoninAction::KneeThrust,
        RoninAction::LowKick,
        RoninAction::HeelKick,
        RoninAction::Uppercut,
        RoninAction::HighStab,
        RoninAction::SkySlash,
        RoninAction::AirSlice,
        RoninAction::FalconKnee,
        RoninAction::FootDiveHold,
        RoninAction::FootDiveRelease,
    ]
}

/// The strike of a normal: its damage, stuns and height; a sword strike chips five and
/// gains five damage per level of sharpness. Every normal cancels into specials.
pub open spec fn normal_strike(damage: i32, block: Stun, hit: HitStun, height: AttackHeight, sword: bool) -> StrikeProfile {
    StrikeProfile {
        block_stun: block,
        block_height: height,
        chip_damage: if sword { 5 } else { 1 },
        hit_stun: hit,
        base_damage: damage,
        sharpness_scaling: if sword { 5 } else { 0 },
        cancel: Some((CancelType::Special, None)),
    }
}

/// A hit that strikes with `p` for `active` frames, whose hurtbox grows over it unless it
/// is a sword, and that sends `extra` when it comes out.
pub open spec fn strike_hit_is(h: HitBuilder, p: StrikeProfile, active: usize, sword: bool, extra: Seq<ActionEvent>) -> bool {
    &&& h.sub_builder == SubBuilder::Strike(p)
    &&& h.hitbox_lifetime == (Lifetime { despawn_on_hit: true, despawn_on_landing: true, frames: Some(active) })
    &&& h.expand_hurtbox == (if sword { None } else { Some(5usize) })
    &&& !h.projectile
    &&& h.hit_count == 1
    &&& h.additional_events@ == extra
}

/// `p` is an attack with the given input, stance requirement, timed events before the
/// closing ones and total duration, that has `hits` hits.
pub open spec fn attack_is(p: AttackPlan, input: Seq<char>, state: SimpleState, blobs: Seq<BlobView>, total: usize,
    hits: nat, meter_bar_segment: i32) -> bool
{
    &&& !p.action.transient
    &&& p.action.input matches Some(s) && s@ == input
    &&& p.action.requirement matches ActionRequirement::And(list) && list@ == seq![
        if state == SimpleState::Air { ActionRequirement::Airborne } else { ActionRequirement::Grounded },
        ActionRequirement::Starter(ActionCategory::Normal),
    ]
    &&& grouped(blob_views(p.action.script.groups@), blobs + closing_blobs(false, false, false, Some(state), total, meter_bar_segment))
    &&& p.hits@.len() == hits
}

/// The `k`th hit of `p` comes out on frame `frame` of an attack that lasts `total` frames.
pub open spec fn hit_at(p: AttackPlan, k: int, frame: usize, total: usize) -> bool {
    p.hits@[k].frame == frame && p.hits@[k].recovery == (total - frame) as i32
}

/// The events of the first frame that play `animation`.
pub open spec fn anim_blob(animation: u32) -> BlobView {
    (Timing::OnFrame(0), seq![ActionEvent::Animation(animation)])
}

/// The events of the first frame that play the grunt.
pub open spec fn grunt_blob(grunt: u32) -> BlobView {
    (Timing::OnFrame(0), seq![ActionEvent::Sound(grunt)])
}

/// What the uppercut's launching hit adds with the ice cube: the opponent's momentum
/// stops, both freeze for twenty frames and the cube shows; nothing without it.
pub fn uppercut_ice_cube_events(inventory: &Inventory, look: &RoninNormalLook) -> (r: Vec<ActionEvent>)
    ensures
        r@ == (if count_in(inventory.counts(), ItemId::IceCube) > 0 {
            seq![
                ActionEvent::MultiplyMomentum(look.ice_cube_freeze),
                ActionEvent::Hitstop(20),
                ActionEvent::RelativeVisualEffect(look.ice_cube_icon),
            ]
        } else {
            seq![]
        }),
{
    if inventory.contains(ItemId::IceCube) {
        let r = vec![
            ActionEvent::MultiplyMomentum(look.ice_cube_freeze),
            ActionEvent::Hitstop(20),
            ActionEvent::RelativeVisualEffect(look.ice_cube_icon),
        ];
        assert(r@ =~= seq![
            ActionEvent::MultiplyMomentum(look.ice_cube_freeze),
            ActionEvent::Hitstop(20),
            ActionEvent::RelativeVisualEffect(look.ice_cube_icon),
        ]);
        r
    } else {
        Vec::new()
    }
}

/// What the held foot dive sends on each frame after its thirtieth: the release, once the
/// strong button is let go.
pub fn foot_dive_follow_up(held_buttons: &ButtonSet) -> (r: Vec<ActionEvent>)
    ensures
        r@ == (if button_set(*held_buttons).contains(GameButton::Strong) {
            seq![]
        } else {
            seq![ActionEvent::StartAction(ActionId::Ronin(RoninAction::FootDiveRelease))]
        }),
{
    if button_set_contains(held_buttons, &GameButton::Strong) {
        Vec::new()
    } else {
        let r = vec![ActionEvent::StartAction(ActionId::Ronin(RoninAction::FootDiveRelease))];
        assert(r@ =~= seq![ActionEvent::StartAction(ActionId::Ronin(RoninAction::FootDiveRelease))]);
        r
    }
}

/// The ronin's normals, in order. The foot dive's hold sends its release as
/// `foot_dive_follow_up` says, and the uppercut's launching hit adds what
/// `uppercut_ice_cube_events` says.
pub fn ronin_normals(look: RoninNormalLook, meter_bar_segment: i32) -> (r: Vec<(RoninAction, CharacterMove)>)
    requires
        meter_bar_segment != i32::MIN,
    ensures
        r@.len() == ronin_normal_ids().len(),
        forall|i: int| 0 <= i < r@.len() ==> (#[trigger] r@[i]).0 == ronin_normal_ids()[i],
        r@[0].1 matches CharacterMove::Attack(p) && attack_is(p, seq!['f'], SimpleState::Stand,
            seq![grunt_blob(look.grunt), anim_blob(look.knee_thrust)], 21, 1, meter_bar_segment)
            && hit_at(p, 0, 5, 21) && strike_hit_is(p.hits@[0].hit, normal_strike(5, Stun::Relative(-1i32),
                HitStun::Stun(Stun::Relative(4i32)), AttackHeight::Mid, false), 2, false, seq![]),
        r@[1].1 matches CharacterMove::Attack(p) && attack_is(p, seq!['{', '1', '2', '3', '}', 'f'], SimpleState::Crouch,
            seq![grunt_blob(look.grunt), anim_blob(look.low_kick)], 32, 1, meter_bar_segment)
            && hit_at(p, 0, 6, 32) && strike_hit_is(p.hits@[0].hit, normal_strike(8, Stun::Relative(-1i32),
                HitStun::Stun(Stun::Relative(6i32)), AttackHeight::Low, false), 3, false, seq![]),
        r@[2].1 matches CharacterMove::Attack(p) && exists|k: ActionEvent| is_kara_to_parry(k, look.kara_frames)
            && attack_is(p, seq!['s'], SimpleState::Stand,
                seq![grunt_blob(look.grunt), anim_blob(look.heel_kick),
                    (Timing::OnFrame(0), seq![ActionEvent::Movement(look.heel_kick_step), k])], 37, 1, meter_bar_segment)
            && hit_at(p, 0, 9, 37) && strike_hit_is(p.hits@[0].hit, normal_strike(15, Stun::Relative(-8i32),
                HitStun::Stun(Stun::Relative(3i32)), AttackHeight::Mid, false), 6, false,
                seq![ActionEvent::Movement(look.heel_kick_push)]),
        r@[3].1 matches CharacterMove::Attack(p) && attack_is(p, seq!['{', '1', '2', '3', '}', 's'], SimpleState::Crouch,
            seq![anim_blob(look.uppercut), (Timing::OnFrame(0), seq![ActionEvent::ExpandHurtbox(look.uppercut_hurtbox, 30)])],
            48, 2, meter_bar_segment)
            && hit_at(p, 0, 8, 48) && strike_hit_is(p.hits@[0].hit, normal_strike(9, Stun::Relative(0i32),
                HitStun::Launch, AttackHeight::Mid, false), 4, false, seq![])
            && hit_at(p, 1, 12, 48) && strike_hit_is(p.hits@[1].hit, normal_strike(6, Stun::Relative(-5i32),
                HitStun::Stun(Stun::Relative(2i32)), AttackHeight::Mid, false), 4, false, seq![]),
        r@[4].1 matches CharacterMove::Attack(p) && exists|k: ActionEvent| is_kara_to_parry(k, look.kara_frames)
            && attack_is(p, seq!['g'], SimpleState::Stand,
                seq![grunt_blob(look.grunt), anim_blob(look.high_stab), (Timing::OnFrame(0), seq![k]),
                    (Timing::OnFrame(5), seq![ActionEvent::RelativeVisualEffect(look.high_stab_draw_trail)]),
                    (Timing::OnFrame(21), seq![ActionEvent::RelativeVisualEffect(look.high_stab_swing_trail)])],
                71, 2, meter_bar_segment)
            && hit_at(p, 0, 5, 71) && strike_hit_is(p.hits@[0].hit, normal_strike(6, Stun::Relative(-10i32),
                HitStun::Launch, AttackHeight::Mid, true), 3, true, seq![])
            && hit_at(p, 1, 21, 71) && strike_hit_is(p.hits@[1].hit, normal_strike(6, Stun::Relative(-16i32),
                HitStun::Stun(Stun::Relative(-6i32)), AttackHeight::Mid, true), 4, true, seq![]),
        r@[5].1 matches CharacterMove::Attack(p) && attack_is(p, seq!['{', '1', '2', '3', '}', 'g'], SimpleState::Crouch,
            seq![grunt_blob(look.grunt), anim_blob(look.sky_stab),
                (Timing::OnFrame(0), seq![ActionEvent::ExpandHurtbox(look.sky_slash_hurtbox, 40)])], 40, 1, meter_bar_segment)
            && hit_at(p, 0, 8, 40) && strike_hit_is(p.hits@[0].hit, normal_strike(8, Stun::Relative(-7i32),
                HitStun::Stun(Stun::Relative(10i32)), AttackHeight::Mid, true), 5, true, seq![]),
        r@[6].1 matches CharacterMove::Attack(p) && attack_is(p, seq!['g'], SimpleState::Air,
            seq![grunt_blob(look.grunt), anim_blob(look.air_stab)], 70, 1, meter_bar_segment)
            && hit_at(p, 0, 7, 70) && strike_hit_is(p.hits@[0].hit, normal_strike(10, Stun::Absolute(20),
                HitStun::Stun(Stun::Absolute(30)), AttackHeight::High, true), 12, true, seq![]),
        r@[7].1 matches CharacterMove::Attack(p) && attack_is(p, seq!['f'], SimpleState::Air,
            seq![grunt_blob(look.grunt), anim_blob(look.falcon_knee)], 25, 1, meter_bar_segment)
            && hit_at(p, 0, 2, 25) && strike_hit_is(p.hits@[0].hit, normal_strike(5, Stun::Absolute(10),
                HitStun::Stun(Stun::Absolute(15)), AttackHeight::High, false), 5, false, seq![]),
        r@[8].1 matches CharacterMove::Action(a) && {
            &&& !a.transient
            &&& a.input matches Some(s) && s@ == seq!['s']
            &&& a.requirement matches ActionRequirement::And(list) && list@ == seq![
                ActionRequirement::Airborne, ActionRequirement::Starter(ActionCategory::Normal)]
            &&& grouped(blob_views(a.script.groups@), seq![anim_blob(look.foot_dive_hold),
                (Timing::OnFrame(0), seq![ActionEvent::Movement(look.foot_dive_fall)])]
                + closing_blobs(false, false, false, Some(SimpleState::Air), 3600, meter_bar_segment))
        },
        r@[9].1 matches CharacterMove::Attack(p) && {
            &&& !p.action.transient
            &&& p.action.input is None
            &&& p.action.requirement matches ActionRequirement::And(list) && list@.len() == 3
                && list@[0] == ActionRequirement::Airborne
                && (list@[1] matches ActionRequirement::ActionOngoing(ids)
                    && ids@ == seq![ActionId::Ronin(RoninAction::FootDiveHold)])
                && list@[2] == ActionRequirement::Starter(ActionCategory::Normal)
            &&& grouped(blob_views(p.action.script.groups@), seq![anim_blob(look.foot_dive_release)]
                + closing_blobs(false, false, false, Some(SimpleState::Air), 20, meter_bar_segment))
            &&& p.hits@.len() == 1
            &&& hit_at(p, 0, 3, 20)
            &&& strike_hit_is(p.hits@[0].hit, normal_strike(18, Stun::Absolute(25),
                HitStun::Stun(Stun::Absolute(40)), AttackHeight::High, false), 7, false, seq![])
        },
{
    let knee_b = AttackBuilder::button(GameButton::Fast)
        .with_character_universals(look.grunt)
        .with_animation(look.knee_thrust)
        .with_total_duration(21)
        .with_hit_on_frame(5, HitBuilder::normal()
            .with_active_frames(2)
            .with_damage(5)
            .with_advantage_on_block(-1)
            .with_advantage_on_hit(4));
    proof {
        assert(blob_views(knee_b.action_builder.blobs@) =~= seq![grunt_blob(look.grunt), anim_blob(look.knee_thrust)]);
        assert(knee_b.action_builder.requirement_list(meter_bar_segment) =~= seq![
            ActionRequirement::Grounded, ActionRequirement::Starter(ActionCategory::Normal)]);
    }
    let knee = knee_b.build(meter_bar_segment);
    assert(knee.hits@[0].hit.additional_events@ =~= Seq::<ActionEvent>::empty());

    let low_b = AttackBuilder::button(GameButton::Fast)
        .with_character_universals(look.grunt)
        .crouching()
        .with_animation(look.low_kick)
        .with_total_duration(32)
        .with_hit_on_frame(6, HitBuilder::normal()
            .hits_low()
            .with_active_frames(3)
            .with_damage(8)
            .with_advantage_on_block(-1)
            .with_advantage_on_hit(6));
    proof {
        assert(blob_views(low_b.action_builder.blobs@) =~= seq![grunt_blob(look.grunt), anim_blob(look.low_kick)]);
        assert(low_b.action_builder.requirement_list(meter_bar_segment) =~= seq![
            ActionRequirement::Grounded, ActionRequirement::Starter(ActionCategory::Normal)]);
        assert(crate::builders::crouch_prefix() + seq!['f'] =~= seq!['{', '1', '2', '3', '}', 'f']);
    }
    let low = low_b.build(meter_bar_segment);
    assert(low.hits@[0].hit.additional_events@ =~= Seq::<ActionEvent>::empty());

    let parry = vec![ActionId::GiParry];
    assert(parry@ =~= seq![ActionId::GiParry]);
    let kara = ActionEvent::Condition(StatusCondition {
        flag: StatusFlag::Cancel(CancelType::Specific(parry)),
        expiration: Some(look.kara_frames),
    });
    let ghost k = kara;
    let heel_start = vec![ActionEvent::Movement(look.heel_kick_step), kara];
    let heel_push = vec![ActionEvent::Movement(look.heel_kick_push)];
    assert(heel_start@ =~= seq![ActionEvent::Movement(look.heel_kick_step), k]);
    assert(heel_push@ =~= seq![ActionEvent::Movement(look.heel_kick_push)]);
    let heel_b = AttackBuilder::button(GameButton::Strong)
        .with_character_universals(look.grunt)
        .with_animation(look.heel_kick)
        .with_total_duration(37)
        .with_hit_on_frame(9, HitBuilder::normal()
            .with_active_frames(6)
            .with_damage(15)
            .with_advantage_on_block(-8)
            .with_advantage_on_hit(3)
            .with_additional_events(heel_push))
        .with_extra_initial_events(heel_start);
    proof {
        assert(is_kara_to_parry(k, look.kara_frames));
        assert(blob_views(heel_b.action_builder.blobs@) =~= seq![grunt_blob(look.grunt), anim_blob(look.heel_kick),
            (Timing::OnFrame(0), seq![ActionEvent::Movement(look.heel_kick_step), k])]);
        assert(heel_b.action_builder.requirement_list(meter_bar_segment) =~= seq![
            ActionRequirement::Grounded, ActionRequirement::Starter(ActionCategory::Normal)]);
        assert(seq![].add(seq![ActionEvent::Movement(look.heel_kick_push)]) =~= seq![ActionEvent::Movement(look.heel_kick_push)]);
    }
    let heel = heel_b.build(meter_bar_segment);
    proof {
        assert(attack_is(heel, seq!['s'], SimpleState::Stand,
            seq![grunt_blob(look.grunt), anim_blob(look.heel_kick),
                (Timing::OnFrame(0), seq![ActionEvent::Movement(look.heel_kick_step), k])], 37, 1, meter_bar_segment));
    }

    let upper_hurtbox = vec![ActionEvent::ExpandHurtbox(look.uppercut_hurtbox, 30)];
    assert(upper_hurtbox@ =~= seq![ActionEvent::ExpandHurtbox(look.uppercut_hurtbox, 30)]);
    let upper_b = AttackBuilder::button(GameButton::Strong)
        .crouching()
        .with_animation(look.uppercut)
        .with_extra_initial_events(upper_hurtbox)
        .with_total_duration(48)
        .with_hit_on_frame(8, HitBuilder::normal()
            .with_active_frames(4)
            .with_advantage_on_block(0)
            .with_damage(9)
            .launches())
        .with_hit_on_frame(12, HitBuilder::normal()
            .with_active_frames(4)
            .with_advantage_on_block(-5)
            .with_advantage_on_hit(2)
            .with_damage(6));
    proof {
        assert(blob_views(upper_b.action_builder.blobs@) =~= seq![anim_blob(look.uppercut),
            (Timing::OnFrame(0), seq![ActionEvent::ExpandHurtbox(look.uppercut_hurtbox, 30)])]);
        assert(upper_b.action_builder.requirement_list(meter_bar_segment) =~= seq![
            ActionRequirement::Grounded, ActionRequirement::Starter(ActionCategory::Normal)]);
        assert(crate::builders::crouch_prefix() + seq!['s'] =~= seq!['{', '1', '2', '3', '}', 's']);
    }
    let upper = upper_b.build(meter_bar_segment);
    assert(upper.hits@[0].hit.additional_events@ =~= Seq::<ActionEvent>::empty());
    assert(upper.hits@[1].hit.additional_events@ =~= Seq::<ActionEvent>::empty());

    let parry2 = vec![ActionId::GiParry];
    assert(parry2@ =~= seq![ActionId::GiParry]);
    let kara2 = ActionEvent::Condition(StatusCondition {
        flag: StatusFlag::Cancel(CancelType::Specific(parry2)),
        expiration: Some(look.kara_frames),
    });
    let ghost k2 = kara2;
    let stab_start = vec![kara2];
    assert(stab_start@ =~= seq![k2]);
    let stab_b = AttackBuilder::button(GameButton::Gimmick)
        .with_character_universals(look.grunt)
        .with_animation(look.high_stab)
        .with_extra_initial_events(stab_start)
        .with_total_duration(71)
        .with_hit_on_frame(5, HitBuilder::normal()
            .with_active_frames(3)
            .with_damage(6)
            .sword()
            .with_advantage_on_block(-10)
            .launches())
        .with_vfx_on_frame(5, look.high_stab_draw_trail)
        .with_hit_on_frame(21, HitBuilder::normal()
            .with_active_frames(4)
            .with_damage(6)
            .sword()
            .with_advantage_on_block(-16)
            .with_advantage_on_hit(-6))
        .with_vfx_on_frame(21, look.high_stab_swing_trail);
    proof {
        assert(is_kara_to_parry(k2, look.kara_frames));
        assert(blob_views(stab_b.action_builder.blobs@) =~= seq![grunt_blob(look.grunt), anim_blob(look.high_stab),
            (Timing::OnFrame(0), seq![k2]),
            (Timing::OnFrame(5), seq![ActionEvent::RelativeVisualEffect(look.high_stab_draw_trail)]),
            (Timing::OnFrame(21), seq![ActionEvent::RelativeVisualEffect(look.high_stab_swing_trail)])]);
        assert(stab_b.action_builder.requirement_list(meter_bar_segment) =~= seq![
            ActionRequirement::Grounded, ActionRequirement::Starter(ActionCategory::Normal)]);
    }
    let stab = stab_b.build(meter_bar_segment);
    assert(stab.hits@[0].hit.additional_events@ =~= Seq::<ActionEvent>::empty());
    assert(stab.hits@[1].hit.additional_events@ =~= Seq::<ActionEvent>::empty());
    proof {
        assert(attack_is(stab, seq!['g'], SimpleState::Stand,
            seq![grunt_blob(look.grunt), anim_blob(look.high_stab), (Timing::OnFrame(0), seq![k2]),
                (Timing::OnFrame(5), seq![ActionEvent::RelativeVisualEffect(look.high_stab_draw_trail)]),
                (Timing::OnFrame(21), seq![ActionEvent::RelativeVisualEffect(look.high_stab_swing_trail)])],
            71, 2, meter_bar_segment));
    }

    let sky_hurtbox = vec![ActionEvent::ExpandHurtbox(look.sky_slash_hurtbox, 40)];
    assert(sky_hurtbox@ =~= seq![ActionEvent::ExpandHurtbox(look.sky_slash_hurtbox, 40)]);
    let sky_b = AttackBuilder::button(GameButton::Gimmick)
        .with_character_universals(look.grunt)
        .crouching()
        .with_animation(look.sky_stab)
        .with_total_duration(40)
        .with_extra_initial_events(sky_hurtbox)
        .with_hit_on_frame(8, HitBuilder::normal()
            .with_active_frames(5)
            .with_damage(8)
            .sword()
            .with_advantage_on_block(-7)
            .with_advantage_on_hit(10));
    proof {
        assert(blob_views(sky_b.action_builder.blobs@) =~= seq![grunt_blob(look.grunt), anim_blob(look.sky_stab),
            (Timing::OnFrame(0), seq![ActionEvent::ExpandHurtbox(look.sky_slash_hurtbox, 40)])]);
        assert(sky_b.action_builder.requirement_list(meter_bar_segment) =~= seq![
            ActionRequirement::Grounded, ActionRequirement::Starter(ActionCategory::Normal)]);
        assert(crate::builders::crouch_prefix() + seq!['g'] =~= seq!['{', '1', '2', '3', '}', 'g']);
    }
    let sky = sky_b.build(meter_bar_segment);
    assert(sky.hits@[0].hit.additional_events@ =~= Seq::<ActionEvent>::empty());

    let slice_b = AttackBuilder::button(GameButton::Gimmick)
        .with_character_universals(look.grunt)
        .air_only()
        .with_animation(look.air_stab)
        .with_total_duration(70)
        .with_hit_on_frame(7, HitBuilder::normal()
            .with_active_frames(12)
            .with_damage(10)
            .sword()
            .with_blockstun(20)
            .with_hitstun(30));
    proof {
        assert(blob_views(slice_b.action_builder.blobs@) =~= seq![grunt_blob(look.grunt), anim_blob(look.air_stab)]);
        assert(slice_b.action_builder.requirement_list(meter_bar_segment) =~= seq![
            ActionRequirement::Airborne, ActionRequirement::Starter(ActionCategory::Normal)]);
    }
    let slice = slice_b.build(meter_bar_segment);
    assert(slice.hits@[0].hit.additional_events@ =~= Seq::<ActionEvent>::empty());

    let falcon_b = AttackBuilder::button(GameButton::Fast)
        .with_character_universals(look.grunt)
        .air_only()
        .with_animation(look.falcon_knee)
        .with_total_duration(25)
        .with_hit_on_frame(2, HitBuilder::normal()
            .with_active_frames(5)
            .with_damage(5)
            .with_blockstun(10)
            .with_hitstun(15));
    proof {
        assert(blob_views(falcon_b.action_builder.blobs@) =~= seq![grunt_blob(look.grunt), anim_blob(look.falcon_knee)]);
        assert(falcon_b.action_builder.requirement_list(meter_bar_segment) =~= seq![
            ActionRequirement::Airborne, ActionRequirement::Starter(ActionCategory::Normal)]);
    }
    let falcon = falcon_b.build(meter_bar_segment);
    assert(falcon.hits@[0].hit.additional_events@ =~= Seq::<ActionEvent>::empty());

    let fall = vec![ActionEvent::Movement(look.foot_dive_fall)];
    assert(fall@ =~= seq![ActionEvent::Movement(look.foot_dive_fall)]);
    let hold_b = ActionBuilder::button(GameButton::Strong)
        .with_animation(look.foot_dive_hold)
        .static_immediate_events(fall)
        .air_only()
        .end_at(3600);
    proof {
        assert(blob_views(hold_b.blobs@) =~= seq![anim_blob(look.foot_dive_hold),
            (Timing::OnFrame(0), seq![ActionEvent::Movement(look.foot_dive_fall)])]);
        assert(hold_b.requirement_list(meter_bar_segment) =~= seq![
            ActionRequirement::Airborne, ActionRequirement::Starter(ActionCategory::Normal)]);
    }
    let hold = hold_b.build(meter_bar_segment);

    let from = vec![ActionId::Ronin(RoninAction::FootDiveHold)];
    assert(from@ =~= seq![ActionId::Ronin(RoninAction::FootDiveHold)]);
    let release_b = AttackBuilder::normal()
        .follow_up_from(from)
        .with_animation(look.foot_dive_release)
        .with_total_duration(20)
        .air_only()
        .with_hit_on_frame(3, HitBuilder::normal()
            .with_active_frames(7)
            .with_blockstun(25)
            .with_hitstun(40)
            .with_damage(18));
    proof {
        assert(blob_views(release_b.action_builder.blobs@) =~= seq![anim_blob(look.foot_dive_release)]);
    }
    let release = release_b.build(meter_bar_segment);
    assert(release.hits@[0].hit.additional_events@ =~= Seq::<ActionEvent>::empty());

    vec![
        (RoninAction::KneeThrust, CharacterMove::Attack(knee)),
        (RoninAction::LowKick, CharacterMove::Attack(low)),
        (RoninAction::HeelKick, CharacterMove::Attack(heel)),
        (RoninAction::Uppercut, CharacterMove::Attack(upper)),
        (RoninAction::HighStab, CharacterMove::Attack(stab)),
        (RoninAction::SkySlash, CharacterMove::Attack(sky)),
        (RoninAction::AirSlice, CharacterMove::Attack(slice)),
        (RoninAction::FalconKnee, CharacterMove::Attack(falcon)),
        (RoninAction::FootDiveHold, CharacterMove::Action(hold)),
        (RoninAction::FootDiveRelease, CharacterMove::Attack(release)),
    ]
}

/// Handles of what the ronin's sword stance follow-ups show and play: each one's shout,
/// its slow and fast animation, its sword trail for each version (fast, strong, metered),
/// and the viper strike's long and short lunges.
#[derive(Clone, Copy, Debug)]
pub struct RoninSpecialLook {
    pub slam_shout: u32,
    pub viper_shout: u32,
    pub rising_shout: u32,
    pub slow_sword_slam: u32,
    pub fast_sword_slam: u32,
    pub slow_viper_strike: u32,
    pub fast_viper_strike: u32,
    pub slow_rising_sun: u32,
    pub fast_rising_sun: u32,
    pub slam_trails: (u32, u32, u32),
    pub viper_trails: (u32, u32, u32),
    pub rising_trails: (u32, u32, u32),
    pub long_lunge: u32,
    pub short_lunge: u32,
}

/// The handle of the given version.
pub open spec fn by_version(handles: (u32, u32, u32), v: SpecialVersion) -> u32 {
    match v {
        SpecialVersion::Fast => handles.0,
        SpecialVersion::Strong => handles.1,
        SpecialVersion::Metered => handles.2,
    }
}

fn pick(handles: (u32, u32, u32), v: SpecialVersion) -> (r: u32)
    ensures
        r == by_version(handles, v),
{
    match v {
        SpecialVersion::Fast => handles.0,
        SpecialVersion::Strong => handles.1,
        SpecialVersion::Metered => handles.2,
    }
}

/// The strike of a sword special: it chips five, gains five damage per level of
/// sharpness and cancels into supers.
pub open spec fn sword_special_strike(damage: i32, block: Stun, hit: HitStun, height: AttackHeight) -> StrikeProfile {
    StrikeProfile {
        block_stun: block,
        block_height: height,
        chip_damage: 5,
        hit_stun: hit,
        base_damage: damage,
        sharpness_scaling: 5,
        cancel: Some((CancelType::Super, None)),
    }
}

/// `p` is a standing special with no input that follows up the sword stance of version
/// `v`, needs `extra` first, sends `blobs` before the closing events, lasts `total` frames
/// and has one hit, on frame `frame`.
pub open spec fn stance_special_is(p: AttackPlan, v: SpecialVersion, extra: Seq<ActionRequirement>,
    blobs: Seq<BlobView>, total: usize, frame: usize, meter_bar_segment: i32) -> bool
{
    &&& !p.action.transient
    &&& p.action.input is None
    &&& p.action.requirement matches ActionRequirement::And(list) && {
        &&& list@.len() == extra.len() + 3
        &&& list@.subrange(0, extra.len() as int) == extra
        &&& list@[extra.len() as int] == ActionRequirement::Grounded
        &&& list@[extra.len() as int + 1] matches ActionRequirement::ActionOngoing(ids)
            && ids@ == seq![ActionId::Ronin(RoninAction::SwordStance(v))]
        &&& list@[extra.len() as int + 2] == ActionRequirement::Starter(ActionCategory::Special)
    }
    &&& grouped(blob_views(p.action.script.groups@), blobs + closing_blobs(false, false, false, Some(SimpleState::Stand), total, meter_bar_segment))
    &&& p.hits@.len() == 1
    &&& hit_at(p, 0, frame, total)
}

/// The sword slam, for owners of the fire axe: an overhead sword strike. The strong
/// version is slow; the strong and metered ones hit harder and launch.
pub fn sword_slam(version: SpecialVersion, look: RoninSpecialLook, meter_bar_segment: i32) -> (r: AttackPlan)
    requires
        meter_bar_segment != i32::MIN,
    ensures
        ({
            let slow = version == SpecialVersion::Strong;
            let frame: usize = if slow { 25 } else { 20 };
            let total: usize = if slow { 80 } else { 60 };
            &&& stance_special_is(r, version, seq![ActionRequirement::ItemOwned(ItemId::Fireaxe)], seq![
                (Timing::OnFrame(0), seq![ActionEvent::Sound(look.slam_shout)]),
                anim_blob(if slow { look.slow_sword_slam } else { look.fast_sword_slam }),
                (Timing::OnFrame(frame), seq![ActionEvent::RelativeVisualEffect(by_version(look.slam_trails, version))]),
            ], total, frame, meter_bar_segment)
            &&& strike_hit_is(r.hits@[0].hit, sword_special_strike(
                if version == SpecialVersion::Fast { 15 } else { 30 },
                Stun::Relative(if slow { -40i32 } else { -30i32 }),
                if version == SpecialVersion::Fast { HitStun::Stun(Stun::Relative(6i32)) } else { HitStun::Launch },
                AttackHeight::High), 2, true, seq![])
        }),
{
    let slow = match version { SpecialVersion::Strong => true, _ => false };
    let launch = match version { SpecialVersion::Fast => false, _ => true };
    let frame: usize = if slow { 25 } else { 20 };
    let total: usize = if slow { 80 } else { 60 };
    let from = vec![ActionId::Ronin(RoninAction::SwordStance(version))];
    assert(from@ =~= seq![ActionId::Ronin(RoninAction::SwordStance(version))]);
    let hit = HitBuilder::special()
        .with_active_frames(2)
        .hits_overhead()
        .with_damage(if launch { 30 } else { 15 })
        .sword()
        .with_advantage_on_block(if slow { -40 } else { -30 });
    let hit = if launch { hit.launches() } else { hit.with_advantage_on_hit(6) };
    let b = AttackBuilder::special()
        .follow_up_from(from)
        .with_extra_requirement(ActionRequirement::ItemOwned(ItemId::Fireaxe))
        .with_sound(look.slam_shout)
        .with_animation(if slow { look.slow_sword_slam } else { look.fast_sword_slam })
        .with_total_duration(total)
        .with_vfx_on_frame(frame, pick(look.slam_trails, version))
        .with_hit_on_frame(frame, hit);
    proof {
        assert(blob_views(b.action_builder.blobs@) =~= seq![
            (Timing::OnFrame(0), seq![ActionEvent::Sound(look.slam_shout)]),
            anim_blob(if slow { look.slow_sword_slam } else { look.fast_sword_slam }),
            (Timing::OnFrame(frame), seq![ActionEvent::RelativeVisualEffect(by_version(look.slam_trails, version))]),
        ]);
        assert(b.action_builder.requirement_list(meter_bar_segment)
            .subrange(0, 1) =~= seq![ActionRequirement::ItemOwned(ItemId::Fireaxe)]);
    }
    let r = b.build(meter_bar_segment);
    assert(r.hits@[0].hit.additional_events@ =~= Seq::<ActionEvent>::empty());
    r
}

/// The viper strike: a low sword strike after a lunge. The strong version lunges
/// further and is slow; the strong and metered ones hit harder.
pub fn viper_strike(version: SpecialVersion, look: RoninSpecialLook, meter_bar_segment: i32) -> (r: AttackPlan)
    requires
        meter_bar_segment != i32::MIN,
    ensures
        ({
            let slow = version == SpecialVersion::Strong;
            let frame: usize = if slow { 10 } else { 5 };
            let total: usize = if slow { 50 } else { 45 };
            &&& stance_special_is(r, version, seq![], seq![
                (Timing::OnFrame(0), seq![ActionEvent::Sound(look.viper_shout)]),
                anim_blob(if slow { look.slow_viper_strike } else { look.fast_viper_strike }),
                (Timing::OnFrame(0), seq![ActionEvent::Movement(if slow { look.long_lunge } else { look.short_lunge })]),
                (Timing::OnFrame(frame), seq![ActionEvent::RelativeVisualEffect(by_version(look.viper_trails, version))]),
            ], total, frame, meter_bar_segment)
            &&& strike_hit_is(r.hits@[0].hit, sword_special_strike(
                if version == SpecialVersion::Fast { 15 } else { 30 },
                Stun::Relative(if slow { -40i32 } else { -30i32 }),
                HitStun::Stun(Stun::Relative(if slow { 1i32 } else { 3i32 })),
                AttackHeight::Low), 2, true, seq![])
        }),
{
    let slow = match version { SpecialVersion::Strong => true, _ => false };
    let high_damage = match version { SpecialVersion::Fast => false, _ => true };
    let frame: usize = if slow { 10 } else { 5 };
    let total: usize = if slow { 50 } else { 45 };
    let from = vec![ActionId::Ronin(RoninAction::SwordStance(version))];
    assert(from@ =~= seq![ActionId::Ronin(RoninAction::SwordStance(version))]);
    let lunge = vec![ActionEvent::Movement(if slow { look.long_lunge } else { look.short_lunge })];
    assert(lunge@ =~= seq![ActionEvent::Movement(if slow { look.long_lunge } else { look.short_lunge })]);
    let b = AttackBuilder::special()
        .with_sound(look.viper_shout)
        .follow_up_from(from)
        .with_animation(if slow { look.slow_viper_strike } else { look.fast_viper_strike })
        .with_extra_initial_events(lunge)
        .with_total_duration(total)
        .with_vfx_on_frame(frame, pick(look.viper_trails, version))
        .with_hit_on_frame(frame, HitBuilder::special()
            .with_active_frames(2)
            .hits_low()
            .with_damage(if high_damage { 30 } else { 15 })
            .sword()
            .with_advantage_on_hit(if slow { 1 } else { 3 })
            .with_advantage_on_block(if slow { -40 } else { -30 }));
    proof {
        assert(blob_views(b.action_builder.blobs@) =~= seq![
            (Timing::OnFrame(0), seq![ActionEvent::Sound(look.viper_shout)]),
            anim_blob(if slow { look.slow_viper_strike } else { look.fast_viper_strike }),
            (Timing::OnFrame(0), seq![ActionEvent::Movement(if slow { look.long_lunge } else { look.short_lunge })]),
            (Timing::OnFrame(frame), seq![ActionEvent::RelativeVisualEffect(by_version(look.viper_trails, version))]),
        ]);
        assert(b.action_builder.requirement_list(meter_bar_segment).subrange(0, 0) =~= Seq::<ActionRequirement>::empty());
    }
    let r = b.build(meter_bar_segment);
    assert(r.hits@[0].hit.additional_events@ =~= Seq::<ActionEvent>::empty());
    r
}

/// The rising sun: a launching sword strike. The strong version is slow and bigger; the
/// strong and metered ones hit harder.
pub fn rising_sun(version: SpecialVersion, look: RoninSpecialLook, meter_bar_segment: i32) -> (r: AttackPlan)
    requires
        meter_bar_segment != i32::MIN,
    ensures
        ({
            let slow = version == SpecialVersion::Strong;
            let frame: usize = if slow { 14 } else { 4 };
            let total: usize = if slow { 56 } else { 44 };
            &&& stance_special_is(r, version, seq![], seq![
                (Timing::OnFrame(0), seq![ActionEvent::Sound(look.rising_shout)]),
                anim_blob(if slow { look.slow_rising_sun } else { look.fast_rising_sun }),
                (Timing::OnFrame(frame), seq![ActionEvent::RelativeVisualEffect(by_version(look.rising_trails, version))]),
            ], total, frame, meter_bar_segment)
            &&& strike_hit_is(r.hits@[0].hit, sword_special_strike(
                if version == SpecialVersion::Fast { 15 } else { 20 },
                Stun::Relative(-30i32),
                HitStun::Launch,
                AttackHeight::Mid), 3, true, seq![])
        }),
{
    let slow = match version { SpecialVersion::Strong => true, _ => false };
    let high_damage = match version { SpecialVersion::Fast => false, _ => true };
    let frame: usize = if slow { 14 } else { 4 };
    let total: usize = if slow { 56 } else { 44 };
    let from = vec![ActionId::Ronin(RoninAction::SwordStance(version))];
    assert(from@ =~= seq![ActionId::Ronin(RoninAction::SwordStance(version))]);
    let b = AttackBuilder::special()
        .with_sound(look.rising_shout)
        .with_animation(if slow { look.slow_rising_sun } else { look.fast_rising_sun })
        .follow_up_from(from)
        .with_total_duration(total)
        .with_vfx_on_frame(frame, pick(look.rising_trails, version))
        .with_hit_on_frame(frame, HitBuilder::special()
            .with_active_frames(3)
            .sword()
            .with_damage(if high_damage { 20 } else { 15 })
            .launches()
            .with_advantage_on_block(-30));
    proof {
        assert(blob_views(b.action_builder.blobs@) =~= seq![
            (Timing::OnFrame(0), seq![ActionEvent::Sound(look.rising_shout)]),
            anim_blob(if slow { look.slow_rising_sun } else { look.fast_rising_sun }),
            (Timing::OnFrame(frame), seq![ActionEvent::RelativeVisualEffect(by_version(look.rising_trails, version))]),
        ]);
        assert(b.action_builder.requirement_list(meter_bar_segment).subrange(0, 0) =~= Seq::<ActionRequirement>::empty());
    }
    let r = b.build(meter_bar_segment);
    assert(r.hits@[0].hit.additional_events@ =~= Seq::<ActionEvent>::empty());
    r
}

} // verus!
