//! Cpo's moves: its normals, its throws and the two sides of each throw that connects,
//! and what charging the jackpot does.
use vstd::prelude::*;
use crate::attacks::{AttackBuilder, AttackPlan, HitBuilder, SubBuilder, ThrowStartup};
use crate::builders::closing_blobs;
use crate::events::ActionEvent;
use crate::hits::Lifetime;
use crate::ids::{ActionCategory, ActionId, AttackHeight, CancelType, CpoAction, GameButton, SimpleState, StatusCondition, StatusFlag};
use crate::requirements::ActionRequirement;
use crate::ronin::{CharacterMove, anim_blob, attack_is, grunt_blob, hit_at, is_kara_to_parry, normal_strike, strike_hit_is, throw_attack_is, throw_side_is};
use crate::script::{BlobView, Timing, blob_views, grouped};
use crate::strike::{HitStun, Stun};
use crate::throws::{ThrowEffectBuilder, ThrowSide};

verus! {

/// Handles of what cpo's normals and throws show and play.
#[derive(Clone, Copy, Debug)]
pub struct CpoLook {
    pub grunt: u32,
    pub kara_frames: usize,
    pub chop: u32,
    pub dick_jab: u32,
    pub jumping_knees: u32,
    pub hook_punch: u32,
    pub stomp1: u32,
    pub stomp2: u32,
    pub stomp3: u32,
    pub body_splash: u32,
    pub ground_throw_startup: u32,
    pub air_throw_startup: u32,
    /// Where the back throw puts the thrown character on its release.
    pub back_throw_teleport: u32,
}

/// The identifiers of cpo's normals, in order.
pub open spec fn cpo_normal_ids() -> Seq<CpoAction> {
    seq![
        CpoAction::Chop,
        CpoAction::DickJab,
        CpoAction::JumpingKnees,
        CpoAction::HookPunch,
        CpoAction::Stomp1,
        CpoAction::Stomp2,
        CpoAction::Stomp3,
        CpoAction::BodySplash,
    ]
}

/// Cpo's plain strike: five damage, one frame down on block, four up on hit.
pub open spec fn cpo_strike(height: AttackHeight) -> crate::strike::StrikeProfile {
    normal_strike(5, Stun::Relative(-1i32), HitStun::Stun(Stun::Relative(4i32)), height, false)
}

/// A stomp's hit: cpo's plain strike out for two frames that, on contact, opens a window
/// of twenty frames to cancel into the next stomp.
pub open spec fn stomp_hit_is(h: HitBuilder, next: CpoAction) -> bool {
    &&& h.sub_builder matches SubBuilder::Strike(p) && {
        &&& p.block_stun == Stun::Relative(-1i32)
        &&& p.block_height == AttackHeight::Mid
        &&& p.chip_damage == 1
        &&& p.hit_stun == HitStun::Stun(Stun::Relative(4i32))
        &&& p.base_damage == 5
        &&& p.sharpness_scaling == 0
        &&& p.cancel matches Some((CancelType::Specific(ids), Some(window)))
            && ids@ == seq![ActionId::Cpo(next)] && window == 20
    }
    &&& h.hitbox_lifetime == (Lifetime { despawn_on_hit: true, despawn_on_landing: true, frames: Some(2usize) })
    &&& h.expand_hurtbox == Some(5usize)
    &&& !h.projectile
    &&& h.hit_count == 1
    &&& h.additional_events@.len() == 0
}

/// `p` is a crouching stomp that follows up `from`, with its animation, lasting `total`
/// frames, its one hit on frame `frame`.
pub open spec fn follow_up_stomp_is(p: AttackPlan, from: CpoAction, grunt: u32, animation: u32, total: usize,
    frame: usize, meter_bar_segment: i32) -> bool
{
    &&& !p.action.transient
    &&& p.action.input matches Some(s) && s@ == seq!['{', '1', '2', '3', '}', 's']
    &&& p.action.requirement matches ActionRequirement::And(list) && {
        &&& list@.len() == 3
        &&& list@[0] == ActionRequirement::Grounded
        &&& list@[1] matches ActionRequirement::ActionOngoing(ids) && ids@ == seq![ActionId::Cpo(from)]
        &&& list@[2] == ActionRequirement::Starter(ActionCategory::Normal)
    }
    &&& grouped(blob_views(p.action.script.groups@), seq![grunt_blob(grunt), anim_blob(animation)]
        + closing_blobs(false, false, false, Some(SimpleState::Crouch), total, meter_bar_segment))
    &&& p.hits@.len() == 1
    &&& hit_at(p, 0, frame, total)
}

/// Cpo's normals, in order.
pub fn cpo_normals(look: CpoLook, meter_bar_segment: i32) -> (r: Vec<(CpoAction, CharacterMove)>)
    requires
        meter_bar_segment != i32::MIN,
    ensures
        r@.len() == cpo_normal_ids().len(),
        forall|i: int| 0 <= i < r@.len() ==> (#[trigger] r@[i]).0 == cpo_normal_ids()[i],
        r@[0].1 matches CharacterMove::Attack(p) && attack_is(p, seq!['f'], SimpleState::Stand,
            seq![grunt_blob(look.grunt), anim_blob(look.chop)], 20, 2, meter_bar_segment)
            && hit_at(p, 0, 6, 20) && strike_hit_is(p.hits@[0].hit, cpo_strike(AttackHeight::Mid), 2, false, seq![])
            && hit_at(p, 1, 9, 20) && strike_hit_is(p.hits@[1].hit, cpo_strike(AttackHeight::Mid), 2, false, seq![]),
        r@[1].1 matches CharacterMove::Attack(p) && attack_is(p, seq!['{', '1', '2', '3', '}', 'f'], SimpleState::Crouch,
            seq![grunt_blob(look.grunt), anim_blob(look.dick_jab)], 15, 1, meter_bar_segment)
            && hit_at(p, 0, 4, 15) && strike_hit_is(p.hits@[0].hit, cpo_strike(AttackHeight::Mid), 2, false, seq![]),
        r@[2].1 matches CharacterMove::Attack(p) && attack_is(p, seq!['f'], SimpleState::Air,
            seq![grunt_blob(look.grunt), anim_blob(look.jumping_knees)], 50, 1, meter_bar_segment)
            && hit_at(p, 0, 4, 50) && strike_hit_is(p.hits@[0].hit, cpo_strike(AttackHeight::High), 2, false, seq![]),
        r@[3].1 matches CharacterMove::Attack(p) && attack_is(p, seq!['s'], SimpleState::Stand,
            seq![grunt_blob(look.grunt), anim_blob(look.hook_punch)], 25, 1, meter_bar_segment)
            && hit_at(p, 0, 10, 25) && strike_hit_is(p.hits@[0].hit, cpo_strike(AttackHeight::Mid), 2, false, seq![]),
        r@[4].1 matches CharacterMove::Attack(p) && attack_is(p, seq!['{', '1', '2', '3', '}', 's'], SimpleState::Crouch,
            seq![grunt_blob(look.grunt), anim_blob(look.stomp1)], 40, 1, meter_bar_segment)
            && hit_at(p, 0, 13, 40) && stomp_hit_is(p.hits@[0].hit, CpoAction::Stomp2),
        r@[5].1 matches CharacterMove::Attack(p) && follow_up_stomp_is(p, CpoAction::Stomp1, look.grunt, look.stomp2, 35, 10, meter_bar_segment)
            && stomp_hit_is(p.hits@[0].hit, CpoAction::Stomp3),
        r@[6].1 matches CharacterMove::Attack(p) && follow_up_stomp_is(p, CpoAction::Stomp2, look.grunt, look.stomp3, 70, 12, meter_bar_segment)
            && strike_hit_is(p.hits@[0].hit, cpo_strike(AttackHeight::Mid), 2, false, seq![]),
        r@[7].1 matches CharacterMove::Attack(p) && attack_is(p, seq!['s'], SimpleState::Air,
            seq![grunt_blob(look.grunt), anim_blob(look.body_splash)], 150, 1, meter_bar_segment)
            && hit_at(p, 0, 5, 150) && strike_hit_is(p.hits@[0].hit, cpo_strike(AttackHeight::High), 150, false, seq![]),
{
    let chop_b = AttackBuilder::button(GameButton::Fast)
        .with_character_universals(look.grunt)
        .with_animation(look.chop)
        .with_total_duration(20)
        .with_hit_on_frame(6, HitBuilder::normal().with_active_frames(2).with_damage(5)
            .with_advantage_on_block(-1).with_advantage_on_hit(4))
        .with_hit_on_frame(9, HitBuilder::normal().with_active_frames(2).with_damage(5)
            .with_advantage_on_block(-1).with_advantage_on_hit(4));
    proof {
        assert(blob_views(chop_b.action_builder.blobs@) =~= seq![grunt_blob(look.grunt), anim_blob(look.chop)]);
        assert(chop_b.action_builder.requirement_list(meter_bar_segment) =~= seq![
            ActionRequirement::Grounded, ActionRequirement::Starter(ActionCategory::Normal)]);
    }
    let chop = chop_b.build(meter_bar_segment);
    assert(chop.hits@[0].hit.additional_events@ =~= Seq::<ActionEvent>::empty());
    assert(chop.hits@[1].hit.additional_events@ =~= Seq::<ActionEvent>::empty());

    let jab_b = AttackBuilder::button(GameButton::Fast)
        .crouching()
        .with_character_universals(look.grunt)
        .with_animation(look.dick_jab)
        .with_total_duration(15)
        .with_hit_on_frame(4, HitBuilder::normal().with_active_frames(2).with_damage(5)
            .with_advantage_on_block(-1).with_advantage_on_hit(4));
    proof {
        assert(blob_views(jab_b.action_builder.blobs@) =~= seq![grunt_blob(look.grunt), anim_blob(look.dick_jab)]);
        assert(jab_b.action_builder.requirement_list(meter_bar_segment) =~= seq![
            ActionRequirement::Grounded, ActionRequirement::Starter(ActionCategory::Normal)]);
        assert(crate::builders::crouch_prefix() + seq!['f'] =~= seq!['{', '1', '2', '3', '}', 'f']);
    }
    let jab = jab_b.build(meter_bar_segment);
    assert(jab.hits@[0].hit.additional_events@ =~= Seq::<ActionEvent>::empty());

    let knees_b = AttackBuilder::button(GameButton::Fast)
        .air_only()
        .with_character_universals(look.grunt)
        .with_animation(look.jumping_knees)
        .with_total_duration(50)
        .with_hit_on_frame(4, HitBuilder::normal().with_active_frames(2).with_damage(5)
            .with_advantage_on_block(-1).with_advantage_on_hit(4));
    proof {
        assert(blob_views(knees_b.action_builder.blobs@) =~= seq![grunt_blob(look.grunt), anim_blob(look.jumping_knees)]);
        assert(knees_b.action_builder.requirement_list(meter_bar_segment) =~= seq![
            ActionRequirement::Airborne, ActionRequirement::Starter(ActionCategory::Normal)]);
    }
    let knees = knees_b.build(meter_bar_segment);
    assert(knees.hits@[0].hit.additional_events@ =~= Seq::<ActionEvent>::empty());

    let hook_b = AttackBuilder::button(GameButton::Strong)
        .with_character_universals(look.grunt)
        .with_animation(look.hook_punch)
        .with_total_duration(25)
        .with_hit_on_frame(10, HitBuilder::normal().with_active_frames(2).with_damage(5)
            .with_advantage_on_block(-1).with_advantage_on_hit(4));
    proof {
        assert(blob_views(hook_b.action_builder.blobs@) =~= seq![grunt_blob(look.grunt), anim_blob(look.hook_punch)]);
        assert(hook_b.action_builder.requirement_list(meter_bar_segment) =~= seq![
            ActionRequirement::Grounded, ActionRequirement::Starter(ActionCategory::Normal)]);
    }
    let hook = hook_b.build(meter_bar_segment);
    assert(hook.hits@[0].hit.additional_events@ =~= Seq::<ActionEvent>::empty());

    let to2 = vec![ActionId::Cpo(CpoAction::Stomp2)];
    assert(to2@ =~= seq![ActionId::Cpo(CpoAction::Stomp2)]);
    let stomp1_b = AttackBuilder::button(GameButton::Strong)
        .crouching()
        .with_character_universals(look.grunt)
        .with_animation(look.stomp1)
        .with_total_duration(40)
        .with_hit_on_frame(13, HitBuilder::normal().with_active_frames(2).with_damage(5)
            .with_advantage_on_block(-1).with_advantage_on_hit(4)
            .with_cancels_to(CancelType::Specific(to2), 20));
    proof {
        assert(blob_views(stomp1_b.action_builder.blobs@) =~= seq![grunt_blob(look.grunt), anim_blob(look.stomp1)]);
        assert(stomp1_b.action_builder.requirement_list(meter_bar_segment) =~= seq![
            ActionRequirement::Grounded, ActionRequirement::Starter(ActionCategory::Normal)]);
        assert(crate::builders::crouch_prefix() + seq!['s'] =~= seq!['{', '1', '2', '3', '}', 's']);
    }
    let stomp1 = stomp1_b.build(meter_bar_segment);
    assert(stomp1.hits@[0].hit.additional_events@ =~= Seq::<ActionEvent>::empty());

    let from1 = vec![ActionId::Cpo(CpoAction::Stomp1)];
    assert(from1@ =~= seq![ActionId::Cpo(CpoAction::Stomp1)]);
    let to3 = vec![ActionId::Cpo(CpoAction::Stomp3)];
    assert(to3@ =~= seq![ActionId::Cpo(CpoAction::Stomp3)]);
    let stomp2_b = AttackBuilder::button(GameButton::Strong)
        .crouching()
        .follow_up_from(from1)
        .with_character_universals(look.grunt)
        .with_animation(look.stomp2)
        .with_total_duration(35)
        .with_hit_on_frame(10, HitBuilder::normal().with_active_frames(2).with_damage(5)
            .with_advantage_on_block(-1).with_advantage_on_hit(4)
            .with_cancels_to(CancelType::Specific(to3), 20));
    proof {
        assert(blob_views(stomp2_b.action_builder.blobs@) =~= seq![grunt_blob(look.grunt), anim_blob(look.stomp2)]);
    }
    let stomp2 = stomp2_b.build(meter_bar_segment);
    assert(stomp2.hits@[0].hit.additional_events@ =~= Seq::<ActionEvent>::empty());

    let from2 = vec![ActionId::Cpo(CpoAction::Stomp2)];
    assert(from2@ =~= seq![ActionId::Cpo(CpoAction::Stomp2)]);
    let stomp3_b = AttackBuilder::button(GameButton::Strong)
        .crouching()
        .follow_up_from(from2)
        .with_character_universals(look.grunt)
        .with_animation(look.stomp3)
        .with_total_duration(70)
        .with_hit_on_frame(12, HitBuilder::normal().with_active_frames(2).with_damage(5)
            .with_advantage_on_block(-1).with_advantage_on_hit(4));
    proof {
        assert(blob_views(stomp3_b.action_builder.blobs@) =~= seq![grunt_blob(look.grunt), anim_blob(look.stomp3)]);
    }
    let stomp3 = stomp3_b.build(meter_bar_segment);
    assert(stomp3.hits@[0].hit.additional_events@ =~= Seq::<ActionEvent>::empty());

    let splash_b = AttackBuilder::button(GameButton::Strong)
        .air_only()
        .with_character_universals(look.grunt)
        .with_animation(look.body_splash)
        .with_total_duration(150)
        .with_hit_on_frame(5, HitBuilder::normal().with_active_frames(150).with_damage(5)
            .with_advantage_on_block(-1).with_advantage_on_hit(4));
    proof {
        assert(blob_views(splash_b.action_builder.blobs@) =~= seq![grunt_blob(look.grunt), anim_blob(look.body_splash)]);
        assert(splash_b.action_builder.requirement_list(meter_bar_segment) =~= seq![
            ActionRequirement::Airborne, ActionRequirement::Starter(ActionCategory::Normal)]);
    }
    let splash = splash_b.build(meter_bar_segment);
    assert(splash.hits@[0].hit.additional_events@ =~= Seq::<ActionEvent>::empty());

    vec![
        (CpoAction::Chop, CharacterMove::Attack(chop)),
        (CpoAction::DickJab, CharacterMove::Attack(jab)),
        (CpoAction::JumpingKnees, CharacterMove::Attack(knees)),
        (CpoAction::HookPunch, CharacterMove::Attack(hook)),
        (CpoAction::Stomp1, CharacterMove::Attack(stomp1)),
        (CpoAction::Stomp2, CharacterMove::Attack(stomp2)),
        (CpoAction::Stomp3, CharacterMove::Attack(stomp3)),
        (CpoAction::BodySplash, CharacterMove::Attack(splash)),
    ]
}

/// What charging the jackpot does on each frame of the charge: it sets the jackpot on the
/// frame `high_point` frames ahead, for `duration` frames, and shows the jackpot ring.
pub fn jackpot_charge_events(abs_frame: usize, high_point: usize, duration: usize, ring: u32) -> (r: Vec<ActionEvent>)
    requires
        abs_frame + high_point <= usize::MAX,
    ensures
        r@ == seq![
            ActionEvent::Condition(StatusCondition {
                flag: StatusFlag::Jackpot { target_frame: (abs_frame + high_point) as usize },
                expiration: Some(duration),
            }),
            ActionEvent::RelativeVisualEffect(ring),
        ],
{
    let r = vec![
        ActionEvent::Condition(StatusCondition {
            flag: StatusFlag::Jackpot { target_frame: abs_frame + high_point },
            expiration: Some(duration),
        }),
        ActionEvent::RelativeVisualEffect(ring),
    ];
    assert(r@ =~= seq![
        ActionEvent::Condition(StatusCondition {
            flag: StatusFlag::Jackpot { target_frame: (abs_frame + high_point) as usize },
            expiration: Some(duration),
        }),
        ActionEvent::RelativeVisualEffect(ring),
    ]);
    r
}

/// The identifiers of cpo's throw entries, in order.
pub open spec fn cpo_throw_ids() -> Seq<CpoAction> {
    seq![
        CpoAction::ForwardThrowStartup,
        CpoAction::BackThrowStartup,
        CpoAction::GroundThrowHit,
        CpoAction::ForwardThrowRecipient,
        CpoAction::BackThrowRecipient,
        CpoAction::AirThrowStartup,
        CpoAction::AirThrowHit,
        CpoAction::AirThrowRecipient,
    ]
}

/// The throw a connected throw of cpo starts.
pub open spec fn cpo_startup(hit: CpoAction, target: CpoAction, sideswitch: bool) -> ThrowStartup {
    ThrowStartup { on_hit_action: ActionId::Cpo(hit), target_action: ActionId::Cpo(target), sideswitch }
}

/// Cpo's throws, in order: the forward and back throws, the thrower's side they share and
/// the thrown sides of each, then the air throw and its sides.
pub fn cpo_throws(look: CpoLook, meter_bar_segment: i32) -> (r: Vec<(CpoAction, CharacterMove)>)
    requires
        meter_bar_segment != i32::MIN,
    ensures
        r@.len() == cpo_throw_ids().len(),
        forall|i: int| 0 <= i < r@.len() ==> (#[trigger] r@[i]).0 == cpo_throw_ids()[i],
        r@[0].1 matches CharacterMove::Attack(p) && exists|k: ActionEvent| is_kara_to_parry(k, look.kara_frames)
            && throw_attack_is(p, seq!['w'], SimpleState::Stand, seq![
                grunt_blob(look.grunt), anim_blob(look.ground_throw_startup), (Timing::OnFrame(0), seq![k]),
            ], 37, 3, cpo_startup(CpoAction::GroundThrowHit, CpoAction::ForwardThrowRecipient, false), 3, meter_bar_segment),
        r@[1].1 matches CharacterMove::Attack(p) && throw_attack_is(p, seq!['{', '4', '}', 'w'], SimpleState::Stand, seq![
                grunt_blob(look.grunt), anim_blob(look.ground_throw_startup),
            ], 37, 3, cpo_startup(CpoAction::GroundThrowHit, CpoAction::BackThrowRecipient, true), 3, meter_bar_segment),
        throw_side_is(r@[2].1, ThrowSide::Thrower, 80, 30, 10),
        throw_side_is(r@[3].1, ThrowSide::Target, 80, 30, 10),
        r@[3].1 matches CharacterMove::Throw(a) && a.effect.extra_target_events@.len() == 0,
        throw_side_is(r@[4].1, ThrowSide::Target, 80, 30, 10),
        r@[4].1 matches CharacterMove::Throw(a) && a.effect.extra_target_events@ == seq![ActionEvent::Teleport(look.back_throw_teleport)],
        r@[5].1 matches CharacterMove::Attack(p) && throw_attack_is(p, seq!['w'], SimpleState::Air, seq![
                grunt_blob(look.grunt), anim_blob(look.air_throw_startup),
            ], 40, 4, cpo_startup(CpoAction::AirThrowHit, CpoAction::AirThrowRecipient, false), 2, meter_bar_segment),
        throw_side_is(r@[6].1, ThrowSide::Thrower, 50, 50, 10),
        throw_side_is(r@[7].1, ThrowSide::Target, 50, 50, 10),
        r@[7].1 matches CharacterMove::Throw(a) && a.effect.extra_target_events@.len() == 0,
{
    let (forward_target, ground_thrower) = ThrowEffectBuilder::new(80, 30).with_damage(10).build();
    let (back_target, _) = ThrowEffectBuilder::new(80, 30)
        .with_damage(10)
        .with_extra_target_events(vec![ActionEvent::Teleport(look.back_throw_teleport)])
        .build();
    let (air_target, air_thrower) = ThrowEffectBuilder::new(50, 50).with_damage(10).build();

    let parry = vec![ActionId::GiParry];
    assert(parry@ =~= seq![ActionId::GiParry]);
    let kara = ActionEvent::Condition(StatusCondition {
        flag: StatusFlag::Cancel(CancelType::Specific(parry)),
        expiration: Some(look.kara_frames),
    });
    let ghost k = kara;
    let kara_events = vec![kara];
    assert(kara_events@ =~= seq![k]);
    let forward_b = AttackBuilder::button(GameButton::Wrestling)
        .with_character_universals(look.grunt)
        .with_total_duration(37)
        .with_animation(look.ground_throw_startup)
        .with_extra_initial_events(kara_events)
        .with_hit_on_frame(3, HitBuilder::normal()
            .forward_throw()
            .with_active_frames(3)
            .throw_hit_action(ActionId::Cpo(CpoAction::GroundThrowHit))
            .throw_target_action(ActionId::Cpo(CpoAction::ForwardThrowRecipient)));
    proof {
        assert(blob_views(forward_b.action_builder.blobs@) =~= seq![
            grunt_blob(look.grunt), anim_blob(look.ground_throw_startup), (Timing::OnFrame(0), seq![k])]);
        assert(forward_b.action_builder.requirement_list(meter_bar_segment) =~= seq![
            ActionRequirement::Grounded, ActionRequirement::Starter(ActionCategory::Normal)]);
    }
    let forward = forward_b.build(meter_bar_segment);
    proof {
        assert(is_kara_to_parry(k, look.kara_frames));
        assert(throw_attack_is(forward, seq!['w'], SimpleState::Stand, seq![
            grunt_blob(look.grunt), anim_blob(look.ground_throw_startup), (Timing::OnFrame(0), seq![k]),
        ], 37, 3, cpo_startup(CpoAction::GroundThrowHit, CpoAction::ForwardThrowRecipient, false), 3, meter_bar_segment));
    }

    let back_b = AttackBuilder::normal()
        .with_character_universals(look.grunt)
        .with_input("{4}w")
        .with_animation(look.ground_throw_startup)
        .with_total_duration(37)
        .with_hit_on_frame(3, HitBuilder::normal()
            .back_throw()
            .with_active_frames(3)
            .throw_hit_action(ActionId::Cpo(CpoAction::GroundThrowHit))
            .throw_target_action(ActionId::Cpo(CpoAction::BackThrowRecipient)));
    proof {
        assert(blob_views(back_b.action_builder.blobs@) =~= seq![
            grunt_blob(look.grunt), anim_blob(look.ground_throw_startup)]);
        assert(back_b.action_builder.requirement_list(meter_bar_segment) =~= seq![
            ActionRequirement::Grounded, ActionRequirement::Starter(ActionCategory::Normal)]);
        reveal_strlit("{4}w");
        assert("{4}w"@ =~= seq!['{', '4', '}', 'w']);
    }
    let back = back_b.build(meter_bar_segment);

    let air_b = AttackBuilder::button(GameButton::Wrestling)
        .with_character_universals(look.grunt)
        .air_only()
        .with_animation(look.air_throw_startup)
        .with_total_duration(40)
        .with_hit_on_frame(4, HitBuilder::normal()
            .with_active_frames(2)
            .forward_throw()
            .throw_hit_action(ActionId::Cpo(CpoAction::AirThrowHit))
            .throw_target_action(ActionId::Cpo(CpoAction::AirThrowRecipient)));
    proof {
        assert(blob_views(air_b.action_builder.blobs@) =~= seq![
            grunt_blob(look.grunt), anim_blob(look.air_throw_startup)]);
        assert(air_b.action_builder.requirement_list(meter_bar_segment) =~= seq![
            ActionRequirement::Airborne, ActionRequirement::Starter(ActionCategory::Normal)]);
    }
    let air = air_b.build(meter_bar_segment);

    vec![
        (CpoAction::ForwardThrowStartup, CharacterMove::Attack(forward)),
        (CpoAction::BackThrowStartup, CharacterMove::Attack(back)),
        (CpoAction::GroundThrowHit, CharacterMove::Throw(ground_thrower)),
        (CpoAction::ForwardThrowRecipient, CharacterMove::Throw(forward_target)),
        (CpoAction::BackThrowRecipient, CharacterMove::Throw(back_target)),
        (CpoAction::AirThrowStartup, CharacterMove::Attack(air)),
        (CpoAction::AirThrowHit, CharacterMove::Throw(air_thrower)),
        (CpoAction::AirThrowRecipient, CharacterMove::Throw(air_target)),
    ]
}

} // verus!
