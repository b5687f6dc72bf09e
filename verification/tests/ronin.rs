use wag_characters::attacks::SubBuilder;
use wag_characters::events::ActionEvent;
use wag_characters::ids::{ActionCategory, ActionId, CancelType, RoninAction, StatusCondition, StatusFlag};
use wag_characters::requirements::ActionRequirement;
use wag_characters::ronin::{foot_dive_follow_up, rising_sun, ronin_normals, ronin_throws, sword_slam, uppercut_ice_cube_events, viper_strike, RoninLook, CharacterMove, RoninNormalLook, RoninSpecialLook};
use wag_characters::attacks::AttackPlan;
use wag_characters::ids::{AttackHeight, GameButton, ItemId, SpecialVersion};
use wag_characters::items::{Inventory, Item};
use wag_characters::strike::{HitStun, Stun};
use bevy::platform::collections::HashSet;
use wag_characters::script::ActionClock;
use wag_characters::throws::ThrowSide;

fn look() -> RoninLook {
    RoninLook {
        grunt: 1,
        stand_throw_startup: 2,
        crouch_throw_startup: 3,
        air_throw_startup: 4,
        crouch_throw_teleport: 5,
        kara_frames: 4,
    }
}

#[test]
fn ronin_throws_are_listed_in_order() {
    let throws = ronin_throws(look(), 50);
    let ids: Vec<RoninAction> = throws.iter().map(|(id, _)| *id).collect();
    assert_eq!(
        ids,
        vec![
            RoninAction::ForwardThrow,
            RoninAction::BackThrow,
            RoninAction::StandThrowHit,
            RoninAction::StandThrowTarget,
            RoninAction::CrouchThrow,
            RoninAction::CrouchThrowHit,
            RoninAction::CrouchThrowTarget,
            RoninAction::AirThrow,
            RoninAction::AirThrowHit,
            RoninAction::AirThrowTarget,
        ]
    );
}

#[test]
fn ronin_throw_attacks() {
    let throws = ronin_throws(look(), 50);
    let expected = [
        (0usize, "w", 37i32, 3usize, RoninAction::StandThrowHit, RoninAction::StandThrowTarget, false, 3usize),
        (1, "{4}w", 37, 3, RoninAction::StandThrowHit, RoninAction::StandThrowTarget, true, 3),
        (4, "{123}w", 60, 5, RoninAction::CrouchThrowHit, RoninAction::CrouchThrowTarget, false, 3),
        (7, "w", 40, 4, RoninAction::AirThrowHit, RoninAction::AirThrowTarget, false, 2),
    ];
    for (index, input, total, frame, hit, target, sideswitch, active) in expected {
        match &throws[index].1 {
            CharacterMove::Attack(plan) => {
                assert_eq!(plan.action.input.as_deref(), Some(input));
                match &plan.action.requirement {
                    ActionRequirement::And(list) => {
                        assert_eq!(list.len(), 2);
                        let air = index == 7;
                        assert_eq!(matches!(list[0], ActionRequirement::Airborne), air);
                        assert_eq!(matches!(list[0], ActionRequirement::Grounded), !air);
                        assert!(matches!(list[1], ActionRequirement::Starter(ActionCategory::Normal)));
                    }
                    _ => panic!("requirements are joined"),
                }
                assert_eq!(plan.hits.len(), 1);
                assert_eq!(plan.hits[0].frame, frame);
                assert_eq!(plan.hits[0].recovery, total - frame as i32);
                assert_eq!(plan.hits[0].hit.hitbox_lifetime.frames, Some(active));
                match &plan.hits[0].hit.sub_builder {
                    SubBuilder::Throw(t) => {
                        assert_eq!(t.on_hit_action, ActionId::Ronin(hit));
                        assert_eq!(t.target_action, ActionId::Ronin(target));
                        assert_eq!(t.sideswitch, sideswitch);
                    }
                    _ => panic!("a throw"),
                }
                let end = plan.action.script.events(&ActionClock::unscaled(total as usize + 1));
                assert!(end.contains(&ActionEvent::End));
            }
            _ => panic!("an attack"),
        }
    }
    if let CharacterMove::Attack(plan) = &throws[0].1 {
        let first = plan.action.script.events(&ActionClock::unscaled(0));
        assert!(first.contains(&ActionEvent::Sound(1)));
        assert!(first.contains(&ActionEvent::Animation(2)));
        assert!(first.contains(&ActionEvent::Condition(StatusCondition {
            flag: StatusFlag::Cancel(CancelType::Specific(vec![ActionId::GiParry])),
            expiration: Some(4),
        })));
    }
}

#[test]
fn ronin_throw_sides() {
    let throws = ronin_throws(look(), 50);
    let expected = [
        (2usize, ThrowSide::Thrower, 80usize, 30usize),
        (3, ThrowSide::Target, 80, 30),
        (5, ThrowSide::Thrower, 80, 30),
        (6, ThrowSide::Target, 80, 30),
        (8, ThrowSide::Thrower, 50, 50),
        (9, ThrowSide::Target, 50, 50),
    ];
    for (index, side, thrower, target) in expected {
        match &throws[index].1 {
            CharacterMove::Throw(a) => {
                assert_eq!(a.side, side);
                assert!(a.input.is_none());
                assert!(!a.transient);
                assert!(matches!(a.requirement, ActionRequirement::Unconditional));
                assert_eq!(a.effect.self_duration, thrower);
                assert_eq!(a.effect.target_duration, target);
                assert_eq!(a.effect.lock_duration, thrower.min(target) - 1);
                assert_eq!(a.effect.damage, 10);
            }
            _ => panic!("a throw side"),
        }
    }
    match &throws[6].1 {
        CharacterMove::Throw(a) => assert_eq!(a.effect.extra_target_events, vec![ActionEvent::Teleport(5)]),
        _ => panic!("a throw side"),
    }
}

fn normal_look() -> RoninNormalLook {
    RoninNormalLook {
        grunt: 1,
        kara_frames: 4,
        knee_thrust: 10,
        low_kick: 11,
        heel_kick: 12,
        heel_kick_step: 13,
        heel_kick_push: 14,
        uppercut: 15,
        uppercut_hurtbox: 16,
        high_stab: 17,
        high_stab_draw_trail: 18,
        high_stab_swing_trail: 19,
        sky_stab: 20,
        sky_slash_hurtbox: 21,
        air_stab: 22,
        falcon_knee: 23,
        foot_dive_hold: 24,
        foot_dive_fall: 25,
        foot_dive_release: 26,
        ice_cube_freeze: 27,
        ice_cube_icon: 28,
    }
}

fn strike_of(plan: &AttackPlan, k: usize) -> (i32, Stun, HitStun, AttackHeight, usize, usize) {
    let hit = &plan.hits[k];
    match &hit.hit.sub_builder {
        SubBuilder::Strike(p) => (p.base_damage, p.block_stun, p.hit_stun, p.block_height, hit.frame, hit.hit.hitbox_lifetime.frames.unwrap()),
        _ => panic!("a strike"),
    }
}

#[test]
fn ronin_normal_frame_data() {
    let normals = ronin_normals(normal_look(), 50);
    let ids: Vec<RoninAction> = normals.iter().map(|(id, _)| *id).collect();
    assert_eq!(
        ids,
        vec![
            RoninAction::KneeThrust, RoninAction::LowKick, RoninAction::HeelKick, RoninAction::Uppercut,
            RoninAction::HighStab, RoninAction::SkySlash, RoninAction::AirSlice, RoninAction::FalconKnee,
            RoninAction::FootDiveHold, RoninAction::FootDiveRelease,
        ]
    );
    let plan = |i: usize| match &normals[i].1 {
        CharacterMove::Attack(p) => p,
        _ => panic!("an attack"),
    };
    assert_eq!(plan(0).action.input.as_deref(), Some("f"));
    assert_eq!(strike_of(plan(0), 0), (5, Stun::Relative(-1), HitStun::Stun(Stun::Relative(4)), AttackHeight::Mid, 5, 2));
    assert_eq!(plan(0).hits[0].recovery, 16);
    assert_eq!(plan(1).action.input.as_deref(), Some("{123}f"));
    assert_eq!(strike_of(plan(1), 0), (8, Stun::Relative(-1), HitStun::Stun(Stun::Relative(6)), AttackHeight::Low, 6, 3));
    assert_eq!(plan(2).action.input.as_deref(), Some("s"));
    assert_eq!(strike_of(plan(2), 0), (15, Stun::Relative(-8), HitStun::Stun(Stun::Relative(3)), AttackHeight::Mid, 9, 6));
    assert_eq!(plan(2).hits[0].hit.additional_events, vec![ActionEvent::Movement(14)]);
    assert_eq!(plan(3).action.input.as_deref(), Some("{123}s"));
    assert_eq!(strike_of(plan(3), 0), (9, Stun::Relative(0), HitStun::Launch, AttackHeight::Mid, 8, 4));
    assert_eq!(strike_of(plan(3), 1), (6, Stun::Relative(-5), HitStun::Stun(Stun::Relative(2)), AttackHeight::Mid, 12, 4));
    assert_eq!(plan(4).action.input.as_deref(), Some("g"));
    assert_eq!(strike_of(plan(4), 0), (6, Stun::Relative(-10), HitStun::Launch, AttackHeight::Mid, 5, 3));
    assert_eq!(strike_of(plan(4), 1), (6, Stun::Relative(-16), HitStun::Stun(Stun::Relative(-6)), AttackHeight::Mid, 21, 4));
    assert!(plan(4).action.script.events(&ActionClock::unscaled(21)).contains(&ActionEvent::RelativeVisualEffect(19)));
    assert_eq!(plan(5).action.input.as_deref(), Some("{123}g"));
    assert_eq!(strike_of(plan(5), 0), (8, Stun::Relative(-7), HitStun::Stun(Stun::Relative(10)), AttackHeight::Mid, 8, 5));
    assert_eq!(strike_of(plan(6), 0), (10, Stun::Absolute(20), HitStun::Stun(Stun::Absolute(30)), AttackHeight::High, 7, 12));
    assert_eq!(strike_of(plan(7), 0), (5, Stun::Absolute(10), HitStun::Stun(Stun::Absolute(15)), AttackHeight::High, 2, 5));
    match &normals[8].1 {
        CharacterMove::Action(a) => {
            assert_eq!(a.input.as_deref(), Some("s"));
            assert_eq!(
                a.script.events(&ActionClock::unscaled(0)),
                vec![ActionEvent::Animation(24), ActionEvent::Movement(25)]
            );
            assert_eq!(a.script.events(&ActionClock::unscaled(3601)), vec![ActionEvent::End]);
        }
        _ => panic!("an action"),
    }
    assert!(plan(9).action.input.is_none());
    assert_eq!(strike_of(plan(9), 0), (18, Stun::Absolute(25), HitStun::Stun(Stun::Absolute(40)), AttackHeight::High, 3, 7));
    match &plan(9).action.requirement {
        ActionRequirement::And(list) => {
            assert!(matches!(&list[1], ActionRequirement::ActionOngoing(ids) if ids == &vec![ActionId::Ronin(RoninAction::FootDiveHold)]));
        }
        _ => panic!("joined"),
    }
}

#[test]
fn ronin_normals_with_inputs_need_a_starter() {
    for (_, m) in ronin_normals(normal_look(), 50).iter() {
        let (input, req) = match m {
            CharacterMove::Attack(p) => (&p.action.input, &p.action.requirement),
            CharacterMove::Action(a) => (&a.input, &a.requirement),
            CharacterMove::Throw(a) => (&a.input, &a.requirement),
        };
        if input.is_some() {
            match req {
                ActionRequirement::And(list) => assert!(list.iter().any(|r| matches!(r, ActionRequirement::Starter(_)))),
                _ => panic!("joined"),
            }
        }
    }
}

#[test]
fn ice_cube_freezes_uppercut_launches() {
    let mut inv = Inventory::with_money(500);
    assert!(uppercut_ice_cube_events(&inv, &normal_look()).is_empty());
    inv.buy(ItemId::IceCube, Item { cost: 400, ..Item::default() });
    assert_eq!(
        uppercut_ice_cube_events(&inv, &normal_look()),
        vec![ActionEvent::MultiplyMomentum(27), ActionEvent::Hitstop(20), ActionEvent::RelativeVisualEffect(28)]
    );
}

#[test]
fn foot_dive_releases_when_strong_is_let_go() {
    let mut held = HashSet::new();
    assert_eq!(
        foot_dive_follow_up(&held),
        vec![ActionEvent::StartAction(ActionId::Ronin(RoninAction::FootDiveRelease))]
    );
    held.insert(GameButton::Strong);
    assert!(foot_dive_follow_up(&held).is_empty());
}

fn special_look() -> RoninSpecialLook {
    RoninSpecialLook {
        slam_shout: 1,
        viper_shout: 2,
        rising_shout: 3,
        slow_sword_slam: 4,
        fast_sword_slam: 5,
        slow_viper_strike: 6,
        fast_viper_strike: 7,
        slow_rising_sun: 8,
        fast_rising_sun: 9,
        slam_trails: (10, 11, 12),
        viper_trails: (13, 14, 15),
        rising_trails: (16, 17, 18),
        long_lunge: 19,
        short_lunge: 20,
    }
}

fn follows_stance(plan: &AttackPlan, version: SpecialVersion) -> bool {
    match &plan.action.requirement {
        ActionRequirement::And(list) => list.iter().any(|r| matches!(r, ActionRequirement::ActionOngoing(ids)
            if ids == &vec![ActionId::Ronin(RoninAction::SwordStance(version))])),
        _ => false,
    }
}

#[test]
fn sword_stance_follow_ups_by_version() {
    let look = special_look();
    let strong = sword_slam(SpecialVersion::Strong, look, 50);
    assert!(strong.action.input.is_none());
    assert!(follows_stance(&strong, SpecialVersion::Strong));
    assert!(matches!(&strong.action.requirement, ActionRequirement::And(l) if matches!(l[0], ActionRequirement::ItemOwned(ItemId::Fireaxe))));
    assert_eq!(strike_of(&strong, 0), (30, Stun::Relative(-40), HitStun::Launch, AttackHeight::High, 25, 2));
    assert_eq!(strong.hits[0].recovery, 55);
    assert!(strong.action.script.events(&ActionClock::unscaled(25)).contains(&ActionEvent::RelativeVisualEffect(11)));
    let fast = sword_slam(SpecialVersion::Fast, look, 50);
    assert_eq!(strike_of(&fast, 0), (15, Stun::Relative(-30), HitStun::Stun(Stun::Relative(6)), AttackHeight::High, 20, 2));

    let viper = viper_strike(SpecialVersion::Metered, look, 50);
    assert!(follows_stance(&viper, SpecialVersion::Metered));
    assert_eq!(strike_of(&viper, 0), (30, Stun::Relative(-30), HitStun::Stun(Stun::Relative(3)), AttackHeight::Low, 5, 2));
    assert!(viper.action.script.events(&ActionClock::unscaled(0)).contains(&ActionEvent::Movement(20)));
    let slow_viper = viper_strike(SpecialVersion::Strong, look, 50);
    assert_eq!(strike_of(&slow_viper, 0), (30, Stun::Relative(-40), HitStun::Stun(Stun::Relative(1)), AttackHeight::Low, 10, 2));
    assert!(slow_viper.action.script.events(&ActionClock::unscaled(0)).contains(&ActionEvent::Movement(19)));

    let sun = rising_sun(SpecialVersion::Fast, look, 50);
    assert_eq!(strike_of(&sun, 0), (15, Stun::Relative(-30), HitStun::Launch, AttackHeight::Mid, 4, 3));
    assert_eq!(sun.hits[0].recovery, 40);
    let big_sun = rising_sun(SpecialVersion::Strong, look, 50);
    assert_eq!(strike_of(&big_sun, 0), (20, Stun::Relative(-30), HitStun::Launch, AttackHeight::Mid, 14, 3));
    assert!(big_sun.action.script.events(&ActionClock::unscaled(57)).contains(&ActionEvent::End));
}

use wag_characters::ronin_stance::{sharpen, stance_cancel, stance_dash, sword_stance, sword_stance_follow_up, StanceLook};
use wag_characters::ids::{StickPosition};
use wag_characters::resources::ResourceType;

fn stance_look() -> StanceLook {
    StanceLook {
        stance: 1,
        stance_cancel: 2,
        slow_sharpen: 3,
        fast_sharpen: 4,
        sharpen_drag: 5,
        sharpen_flick: 6,
        forward_step: 7,
        back_step: 8,
        smoke: 9,
        kara_frames: 4,
    }
}

fn next_of(events: Vec<ActionEvent>) -> Option<RoninAction> {
    match events.as_slice() {
        [] => None,
        [ActionEvent::StartAction(ActionId::Ronin(a))] => Some(*a),
        _ => panic!("one action at most"),
    }
}

#[test]
fn releasing_the_stance_picks_a_follow_up() {
    let v = SpecialVersion::Fast;
    let inv = Inventory::with_money(0);
    let mut held = HashSet::new();
    held.insert(GameButton::Fast);
    assert_eq!(next_of(sword_stance_follow_up(v, &held, StickPosition::S, true, &inv)), None);
    held.insert(GameButton::Gimmick);
    assert_eq!(next_of(sword_stance_follow_up(v, &held, StickPosition::S, true, &inv)), Some(RoninAction::Sharpen(v)));
    let none = HashSet::new();
    assert_eq!(next_of(sword_stance_follow_up(v, &none, StickPosition::SE, true, &inv)), Some(RoninAction::ViperStrike(v)));
    assert_eq!(next_of(sword_stance_follow_up(v, &none, StickPosition::W, true, &inv)), Some(RoninAction::RisingSun(v)));
    assert_eq!(next_of(sword_stance_follow_up(v, &none, StickPosition::E, false, &inv)), Some(RoninAction::RisingSun(v)));
    assert_eq!(next_of(sword_stance_follow_up(v, &none, StickPosition::E, true, &inv)), Some(RoninAction::StanceCancel(v)));
    let mut axe = Inventory::with_money(400);
    axe.buy(ItemId::Fireaxe, Item { cost: 400, ..Item::default() });
    assert_eq!(next_of(sword_stance_follow_up(v, &none, StickPosition::E, true, &axe)), Some(RoninAction::SwordSlam(v)));
    assert_eq!(next_of(sword_stance_follow_up(v, &none, StickPosition::Neutral, true, &axe)), Some(RoninAction::StanceCancel(v)));
    let mut strong = HashSet::new();
    strong.insert(GameButton::Strong);
    assert_eq!(next_of(sword_stance_follow_up(SpecialVersion::Metered, &strong, StickPosition::S, true, &inv)), None);
    assert_eq!(next_of(sword_stance_follow_up(v, &strong, StickPosition::S, true, &inv)), Some(RoninAction::ViperStrike(v)));
}

#[test]
fn stance_actions() {
    let look = stance_look();
    let metered = sword_stance(SpecialVersion::Metered, look, 50);
    assert_eq!(metered.input.as_deref(), Some("{2}*4(fs)"));
    let first = metered.script.events(&ActionClock::unscaled(0));
    assert!(first.contains(&ActionEvent::Condition(StatusCondition { flag: StatusFlag::Intangible, expiration: Some(22) })));
    assert!(first.contains(&ActionEvent::ModifyResource(ResourceType::Meter, -50)));
    let fast = sword_stance(SpecialVersion::Fast, look, 50);
    assert_eq!(fast.input.as_deref(), Some("{2}*4f"));
    assert!(fast.script.events(&ActionClock::unscaled(3)).contains(&ActionEvent::Condition(StatusCondition {
        flag: StatusFlag::Cancel(CancelType::Specific(vec![
            ActionId::Ronin(RoninAction::StanceForwardDash(SpecialVersion::Fast)),
            ActionId::Ronin(RoninAction::StanceBackDash(SpecialVersion::Fast)),
        ])),
        expiration: None,
    })));
    assert!(!fast.script.events(&ActionClock::unscaled(5000)).contains(&ActionEvent::End));

    let cancel = stance_cancel(SpecialVersion::Strong, look, 50);
    assert!(cancel.script.events(&ActionClock::unscaled(0)).contains(&ActionEvent::ClearCondition(StatusFlag::Intangible)));
    assert!(cancel.script.events(&ActionClock::unscaled(9)).contains(&ActionEvent::End));

    let dash = stance_dash(SpecialVersion::Fast, true, look, 50);
    assert_eq!(dash.input.as_deref(), Some("454"));
    assert!(dash.script.events(&ActionClock::unscaled(0)).contains(&ActionEvent::Teleport(8)));
    assert!(dash.script.events(&ActionClock::unscaled(11))
        .contains(&ActionEvent::StartAction(ActionId::Ronin(RoninAction::SwordStance(SpecialVersion::Fast)))));

    let slow = sharpen(SpecialVersion::Strong, look, 50);
    let done = slow.script.events(&ActionClock::unscaled(50));
    assert!(done.contains(&ActionEvent::ModifyResource(ResourceType::Sharpness, 2)));
    assert!(done.contains(&ActionEvent::ModifyResource(ResourceType::Meter, 50)));
    let quick = sharpen(SpecialVersion::Metered, look, 50);
    let done = quick.script.events(&ActionClock::unscaled(35));
    assert!(done.contains(&ActionEvent::ModifyResource(ResourceType::Meter, 0)));
}

use wag_characters::ronin_stance::{kunai_release, kunai_throw, KunaiLook};

fn kunai_look() -> KunaiLook {
    KunaiLook { throw: 1, shout: 2, pickup: 3, lightning: 4, kara_frames: 4 }
}

#[test]
fn kunai_throws() {
    let fast = kunai_throw(SpecialVersion::Fast, kunai_look(), 50);
    assert_eq!(fast.input.as_deref(), Some("{2}*6f"));
    match &fast.requirement {
        ActionRequirement::And(list) => {
            assert!(matches!(list[0], ActionRequirement::ResourceValue(ResourceType::KunaiCounter, 1)));
            assert_eq!(list.len(), 3);
        }
        _ => panic!("joined"),
    }
    assert!(fast.script.events(&ActionClock::unscaled(0)).contains(&ActionEvent::Condition(StatusCondition {
        flag: StatusFlag::Cancel(CancelType::Specific(vec![ActionId::Ronin(RoninAction::KunaiThrow(SpecialVersion::Metered))])),
        expiration: Some(4),
    })));
    assert!(fast.script.events(&ActionClock::unscaled(22)).contains(&ActionEvent::End));
    let metered = kunai_throw(SpecialVersion::Metered, kunai_look(), 50);
    assert_eq!(metered.input.as_deref(), Some("{2}*6(fs)"));
    assert!(metered.script.events(&ActionClock::unscaled(0)).contains(&ActionEvent::ModifyResource(ResourceType::Meter, -50)));

    let plain = Inventory::with_money(0);
    let (spent, shot) = kunai_release(SpecialVersion::Fast, &plain, kunai_look());
    assert_eq!(spent, vec![ActionEvent::ModifyResource(ResourceType::KunaiCounter, -1)]);
    assert_eq!(shot.strike.block_stun, Stun::Absolute(15));
    assert_eq!(shot.strike.base_damage, 12);
    assert_eq!(shot.strike.chip_damage, 2);
    assert_eq!(shot.recovery, 10);
    assert_eq!(shot.on_hit, vec![ActionEvent::SpawnPickup(3)]);
    assert_eq!(shot.hits, 1);
    assert!(!shot.steered);
    let mut kit = Inventory::with_money(1000);
    kit.buy(ItemId::MiniTasers, Item { cost: 400, ..Item::default() });
    kit.buy(ItemId::Protractor, Item { cost: 250, ..Item::default() });
    let (_, shot) = kunai_release(SpecialVersion::Strong, &kit, kunai_look());
    assert_eq!(shot.strike.block_stun, Stun::Absolute(20));
    assert_eq!(shot.on_hit, vec![ActionEvent::SpawnPickup(3), ActionEvent::HitStun(30), ActionEvent::RelativeVisualEffect(4)]);
    assert_eq!(shot.hits, 2);
    assert!(shot.steered);
}
