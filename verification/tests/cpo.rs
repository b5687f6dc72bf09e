use wag_characters::attacks::{AttackPlan, SubBuilder};
use wag_characters::cpo::{cpo_normals, cpo_throws, jackpot_charge_events, CpoLook};
use wag_characters::events::ActionEvent;
use wag_characters::ids::{ActionId, AttackHeight, CancelType, CpoAction, StatusCondition, StatusFlag};
use wag_characters::requirements::ActionRequirement;
use wag_characters::ronin::CharacterMove;
use wag_characters::script::ActionClock;
use wag_characters::strike::{HitStun, Stun};
use wag_characters::throws::ThrowSide;

fn look() -> CpoLook {
    CpoLook {
        grunt: 1,
        kara_frames: 4,
        chop: 10,
        dick_jab: 11,
        jumping_knees: 12,
        hook_punch: 13,
        stomp1: 14,
        stomp2: 15,
        stomp3: 16,
        body_splash: 17,
        ground_throw_startup: 18,
        air_throw_startup: 19,
        back_throw_teleport: 20,
    }
}

fn plan(m: &CharacterMove) -> &AttackPlan {
    match m {
        CharacterMove::Attack(p) => p,
        _ => panic!("an attack"),
    }
}

#[test]
fn cpo_normals_frame_data() {
    let normals = cpo_normals(look(), 50);
    let ids: Vec<CpoAction> = normals.iter().map(|(id, _)| *id).collect();
    assert_eq!(
        ids,
        vec![
            CpoAction::Chop, CpoAction::DickJab, CpoAction::JumpingKnees, CpoAction::HookPunch,
            CpoAction::Stomp1, CpoAction::Stomp2, CpoAction::Stomp3, CpoAction::BodySplash,
        ]
    );
    let inputs: Vec<Option<&str>> = normals.iter().map(|(_, m)| plan(m).action.input.as_deref()).collect();
    assert_eq!(inputs, vec![Some("f"), Some("{123}f"), Some("f"), Some("s"), Some("{123}s"), Some("{123}s"), Some("{123}s"), Some("s")]);
    let chop = plan(&normals[0].1);
    assert_eq!(chop.hits.len(), 2);
    assert_eq!((chop.hits[0].frame, chop.hits[1].frame), (6, 9));
    for (_, m) in normals.iter() {
        for hit in plan(m).hits.iter() {
            match &hit.hit.sub_builder {
                SubBuilder::Strike(p) => {
                    assert_eq!(p.base_damage, 5);
                    assert_eq!(p.block_stun, Stun::Relative(-1));
                    assert_eq!(p.hit_stun, HitStun::Stun(Stun::Relative(4)));
                }
                _ => panic!("a strike"),
            }
        }
    }
    match &plan(&normals[2].1).hits[0].hit.sub_builder {
        SubBuilder::Strike(p) => assert_eq!(p.block_height, AttackHeight::High),
        _ => panic!("a strike"),
    }
    match &plan(&normals[4].1).hits[0].hit.sub_builder {
        SubBuilder::Strike(p) => assert_eq!(p.cancel, Some((CancelType::Specific(vec![ActionId::Cpo(CpoAction::Stomp2)]), Some(20)))),
        _ => panic!("a strike"),
    }
    match &plan(&normals[6].1).action.requirement {
        ActionRequirement::And(list) => {
            assert!(matches!(&list[1], ActionRequirement::ActionOngoing(ids) if ids == &vec![ActionId::Cpo(CpoAction::Stomp2)]));
        }
        _ => panic!("joined"),
    }
    assert_eq!(plan(&normals[7].1).hits[0].hit.hitbox_lifetime.frames, Some(150));
    assert!(plan(&normals[7].1).action.script.events(&ActionClock::unscaled(151)).contains(&ActionEvent::End));
}

#[test]
fn cpo_throws_and_their_sides() {
    let throws = cpo_throws(look(), 50);
    assert_eq!(throws.len(), 8);
    assert_eq!(plan(&throws[1].1).action.input.as_deref(), Some("{4}w"));
    match &plan(&throws[1].1).hits[0].hit.sub_builder {
        SubBuilder::Throw(t) => {
            assert_eq!(t.target_action, ActionId::Cpo(CpoAction::BackThrowRecipient));
            assert!(t.sideswitch);
        }
        _ => panic!("a throw"),
    }
    match &throws[4].1 {
        CharacterMove::Throw(a) => {
            assert_eq!(a.side, ThrowSide::Target);
            assert_eq!(a.effect.extra_target_events, vec![ActionEvent::Teleport(20)]);
            assert_eq!(a.effect.lock_duration, 29);
        }
        _ => panic!("a throw side"),
    }
    match &throws[6].1 {
        CharacterMove::Throw(a) => assert_eq!((a.side, a.effect.self_duration, a.effect.damage), (ThrowSide::Thrower, 50, 10)),
        _ => panic!("a throw side"),
    }
}

#[test]
fn charging_the_jackpot() {
    assert_eq!(
        jackpot_charge_events(100, 40, 60, 7),
        vec![
            ActionEvent::Condition(StatusCondition { flag: StatusFlag::Jackpot { target_frame: 140 }, expiration: Some(60) }),
            ActionEvent::RelativeVisualEffect(7),
        ]
    );
}
