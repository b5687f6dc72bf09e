use wag_characters::builders::{ActionBuilder, Input};
use wag_characters::dashes::{backdash_events, DashBuilder};
use wag_characters::events::{duplicate_events, ActionEvent, FlashKind};
use wag_characters::item_actions::{parry_reward, universal_item_actions};
use wag_characters::ids::{ActionCategory, ActionId, GameButton, ItemId, SimpleState, StatusCondition, StatusFlag};
use wag_characters::jumps::{jump_actions, jump_requirement, jump_step, jumps, JumpDirection, JumpStep, JumpType};
use wag_characters::requirements::ActionRequirement;
use wag_characters::resources::{ResourceType, Stats};
use wag_characters::script::{group_by_timing, ActionClock, EventBlob, Script, Timing};

const SEGMENT: i32 = 50;

fn clock(elapsed: usize) -> ActionClock {
    ActionClock::unscaled(elapsed)
}

fn contains(events: &[ActionEvent], e: &ActionEvent) -> bool {
    events.iter().any(|x| x == e)
}

#[test]
fn button_notation() {
    assert_eq!(GameButton::Fast.to_dsl(), "f");
    assert_eq!(GameButton::Equipment.to_dsl(), "e");
    assert_eq!(Input::Button(GameButton::Strong).to_dsl(false), "s");
    assert_eq!(Input::Button(GameButton::Strong).to_dsl(true), "{123}s");
    assert_eq!(Input::Motion("236f".to_owned()).to_dsl(true), "236f");
}

#[test]
fn crouching_button_input_asks_for_the_stick_down() {
    let b = ActionBuilder::button(GameButton::Wrestling).crouching();
    assert_eq!(b.build_input(), Some("{123}w".to_owned()));
    let b = ActionBuilder::normal().with_input("[41]6f");
    assert_eq!(b.build_input(), Some("[41]6f".to_owned()));
    assert_eq!(ActionBuilder::special().build_input(), None);
}

#[test]
fn requirements_are_joined_in_order() {
    let req = ActionBuilder::special()
        .air_only()
        .with_meter_cost()
        .with_charge()
        .follow_up_from(vec![ActionId::GiParry])
        .with_requirement(ActionRequirement::ItemOwned(ItemId::Gi))
        .build_requirements(SEGMENT);
    match req {
        ActionRequirement::And(list) => {
            assert_eq!(list.len(), 6);
            assert!(matches!(list[0], ActionRequirement::ItemOwned(ItemId::Gi)));
            assert!(matches!(list[1], ActionRequirement::Airborne));
            assert!(matches!(list[2], ActionRequirement::ResourceValue(ResourceType::Meter, SEGMENT)));
            assert!(matches!(list[3], ActionRequirement::ResourceFull(ResourceType::Charge)));
            assert!(matches!(&list[4], ActionRequirement::ActionOngoing(ids) if ids == &vec![ActionId::GiParry]));
            assert!(matches!(list[5], ActionRequirement::Starter(ActionCategory::Special)));
        }
        _ => panic!("requirements are always joined"),
    }
    let plain = ActionBuilder::normal().air_or_ground().build_requirements(SEGMENT);
    assert!(matches!(&plain, ActionRequirement::And(l) if l.len() == 1));
}

#[test]
fn events_with_one_timing_are_joined() {
    let blobs = vec![
        EventBlob { timing: Timing::OnFrame(0), events: vec![ActionEvent::ForceStand] },
        EventBlob { timing: Timing::After(5), events: vec![ActionEvent::End] },
        EventBlob { timing: Timing::OnFrame(0), events: vec![ActionEvent::CameraShake, ActionEvent::FlipVisuals] },
        EventBlob { timing: Timing::Always, events: vec![] },
    ];
    let groups = group_by_timing(blobs);
    assert_eq!(groups.len(), 3);
    let of = |t: Timing| groups.iter().filter(|g| g.timing == t).map(|g| g.events.clone()).collect::<Vec<_>>();
    assert_eq!(of(Timing::OnFrame(0)), vec![vec![ActionEvent::ForceStand, ActionEvent::CameraShake, ActionEvent::FlipVisuals]]);
    assert_eq!(of(Timing::After(5)), vec![vec![ActionEvent::End]]);
    assert_eq!(of(Timing::Always), vec![Vec::<ActionEvent>::new()]);
}

#[test]
fn clock_frames() {
    let start = clock(0);
    assert!(start.on_frame(0));
    assert!(!start.on_frame(1));
    let c = clock(4);
    assert!(c.on_frame(4));
    assert!(!c.on_frame(3));
    assert!(!c.on_frame(5));
    assert!(c.after_frame(3));
    assert!(!c.after_frame(4));
    assert_eq!(c.end_at(3), vec![ActionEvent::End]);
    assert!(c.end_at(4).is_empty());
    // At double speed the frames between the scaled neighbours count as now.
    let fast = ActionClock { elapsed: 2, scaled_before: 2, scaled_now: 4, scaled_after: 6 };
    assert!(fast.on_frame(3));
    assert!(fast.on_frame(5));
    assert!(!fast.on_frame(2));
    assert!(fast.fires(Timing::Always));
    assert!(fast.fires(Timing::After(3)));
}

#[test]
fn script_sends_the_events_of_the_frame() {
    let script = Script::from_blobs(vec![
        EventBlob { timing: Timing::OnFrame(0), events: vec![ActionEvent::ForceStand] },
        EventBlob { timing: Timing::OnFrame(3), events: vec![ActionEvent::CameraShake] },
        EventBlob { timing: Timing::Always, events: vec![ActionEvent::FlipVisuals] },
        EventBlob { timing: Timing::After(5), events: vec![ActionEvent::End] },
    ]);
    assert_eq!(script.events(&clock(0)), vec![ActionEvent::ForceStand, ActionEvent::FlipVisuals]);
    assert_eq!(script.events(&clock(3)), vec![ActionEvent::CameraShake, ActionEvent::FlipVisuals]);
    assert_eq!(script.events(&clock(6)), vec![ActionEvent::FlipVisuals, ActionEvent::End]);
}

#[test]
fn built_script_pays_meter_takes_the_stance_and_ends() {
    let action = ActionBuilder::special()
        .with_meter_cost()
        .static_immediate_events(vec![ActionEvent::CameraShake])
        .end_at(20)
        .build(SEGMENT);
    assert!(!action.transient);
    assert_eq!(
        action.script.events(&clock(0)),
        vec![
            ActionEvent::CameraShake,
            ActionEvent::ModifyResource(ResourceType::Meter, -SEGMENT),
            ActionEvent::Flash(FlashKind::MeterUse),
            ActionEvent::ForceStand,
        ]
    );
    assert!(action.script.events(&clock(10)).is_empty());
    assert_eq!(action.script.events(&clock(21)), vec![ActionEvent::End]);
}

#[test]
fn all_built_actions_end() {
    let builders = vec![
        ActionBuilder::normal().crouching().end_at(12),
        ActionBuilder::for_category(ActionCategory::Other).with_charge().end_at(5),
        ActionBuilder::special().air_only().end_at(40),
    ];
    for b in builders {
        let action = b.build(SEGMENT);
        assert!(contains(&action.script.events(&clock(9999)), &ActionEvent::End));
    }
    let transient = ActionBuilder::for_category(ActionCategory::Other).make_transient().build(SEGMENT);
    assert!(transient.transient);
    assert!(!contains(&transient.script.events(&clock(9999)), &ActionEvent::End));
}

#[test]
fn built_moves_with_inputs_have_starter_requirement() {
    let action = ActionBuilder::button(GameButton::Fast).end_at(10).build(SEGMENT);
    assert!(action.input.is_some());
    match action.requirement {
        ActionRequirement::And(list) => {
            assert!(matches!(list.last(), Some(ActionRequirement::Starter(ActionCategory::Normal))))
        }
        _ => panic!("requirements are always joined"),
    }
}

#[test]
fn event_lists_copy_exactly() {
    let events = vec![
        ActionEvent::Condition(StatusCondition { flag: StatusFlag::Parry, expiration: Some(10) }),
        ActionEvent::StartAction(ActionId::GiParry),
        ActionEvent::Noop,
    ];
    assert_eq!(duplicate_events(&events), events);
    assert_eq!(ActionEvent::default(), ActionEvent::Noop);
}

#[test]
fn jump_inputs_and_requirements() {
    assert_eq!(JumpDirection::Forward.input(JumpType::Basic), "9");
    assert_eq!(JumpDirection::Back.input(JumpType::Air), "7");
    assert_eq!(JumpDirection::Neutral.input(JumpType::Super), "[123]8");
    match jump_requirement(JumpType::Air) {
        ActionRequirement::And(list) => {
            assert_eq!(list.len(), 4);
            assert!(matches!(list[1], ActionRequirement::ItemOwned(ItemId::FeatheredBoots)));
        }
        _ => panic!("jump requirements are joined"),
    }
    let all = jumps();
    assert_eq!(all.len(), 9);
    assert_eq!(all[0], (ActionId::BackJump, JumpDirection::Back, JumpType::Basic));
    assert_eq!(all[8], (ActionId::ForwardAirJump, JumpDirection::Forward, JumpType::Air));
}

#[test]
fn jump_steps() {
    match jump_step(JumpType::Basic, &clock(0)) {
        JumpStep::Start(evs) => assert_eq!(
            evs,
            vec![ActionEvent::Condition(StatusCondition { flag: StatusFlag::DoubleJumped, expiration: Some(10) })]
        ),
        other => panic!("unexpected {other:?}"),
    }
    match jump_step(JumpType::Air, &clock(0)) {
        JumpStep::Start(evs) => assert_eq!(evs[0], ActionEvent::ClearMovement),
        other => panic!("unexpected {other:?}"),
    }
    assert!(matches!(jump_step(JumpType::Basic, &clock(3)), JumpStep::Launch));
    assert!(matches!(jump_step(JumpType::Air, &clock(1)), JumpStep::Launch));
    assert!(matches!(jump_step(JumpType::Basic, &clock(5)), JumpStep::Rest(evs) if evs.is_empty()));
    assert!(matches!(jump_step(JumpType::Basic, &clock(9)), JumpStep::Rest(evs) if evs == vec![ActionEvent::End]));
}

#[test]
fn dashes_come_plain_and_metered() {
    let dashes = DashBuilder::back().on_frame(0, false).on_frame(4, true).end_at(20).build(SEGMENT);
    assert_eq!(dashes.len(), 2);
    assert_eq!(dashes[0].0, ActionId::DashBack);
    assert_eq!(dashes[1].0, ActionId::TrackSpikesDashBack);
    assert_eq!(dashes[0].1.input.as_deref(), Some("454"));
    match &dashes[1].1.requirement {
        ActionRequirement::And(list) => {
            assert_eq!(list.len(), 6);
            assert!(matches!(list[0], ActionRequirement::ItemOwned(ItemId::TrackSpikes)));
            assert!(matches!(list[5], ActionRequirement::Starter(ActionCategory::MegaInterrupt)));
        }
        _ => panic!("requirements are always joined"),
    }
    let events = dashes[0].1.script.events(&clock(4));
    assert_eq!(events, vec![ActionEvent::ForceAir]);
    let forward = DashBuilder::forward().on_frame(0, false).end_at(10).build(SEGMENT);
    assert_eq!(forward[0].0, ActionId::DashForward);
    assert_eq!(forward[0].1.input.as_deref(), Some("656"));
}

#[test]
fn backdash_intangibility_follows_the_stats() {
    assert!(backdash_events(&Stats::identity()).is_empty());
    let stats = Stats { backdash_invuln: 5, ..Stats::identity() };
    assert_eq!(
        backdash_events(&stats),
        vec![ActionEvent::Condition(StatusCondition { flag: StatusFlag::Intangible, expiration: Some(5) })]
    );
}

#[test]
fn builder_stances() {
    assert_eq!(ActionBuilder::normal().state, Some(SimpleState::Stand));
    assert_eq!(ActionBuilder::normal().crouching().state, Some(SimpleState::Crouch));
    assert_eq!(ActionBuilder::normal().air_or_ground().state, None);
    assert_eq!(ActionBuilder::for_category(ActionCategory::Dash).category, ActionCategory::Dash);
}

#[test]
fn universal_item_actions_need_their_items() {
    let actions = universal_item_actions(1, 2, 3, 4, 5, SEGMENT);
    assert_eq!(actions.len(), 3);
    let (parry_id, parry) = &actions[0];
    assert_eq!(*parry_id, ActionId::GiParry);
    assert_eq!(parry.input.as_deref(), Some("{6}(gw)"));
    assert_eq!(
        parry.script.events(&clock(0)),
        vec![
            ActionEvent::Animation(1),
            ActionEvent::ForceStand,
            ActionEvent::Condition(StatusCondition { flag: StatusFlag::Parry, expiration: Some(10) }),
            ActionEvent::Flash(FlashKind::GiParry),
            ActionEvent::ForceStand,
        ]
    );
    assert_eq!(parry.script.events(&clock(31)), vec![ActionEvent::End]);
    let (rc_id, rc) = &actions[1];
    assert_eq!(*rc_id, ActionId::RomaineCancel);
    assert_eq!(
        rc.script.events(&clock(0)),
        vec![
            ActionEvent::Animation(2),
            ActionEvent::RelativeVisualEffect(3),
            ActionEvent::RelativeVisualEffect(4),
            ActionEvent::ModifyResource(ResourceType::Meter, -SEGMENT),
            ActionEvent::Flash(FlashKind::MeterUse),
        ]
    );
    match &rc.requirement {
        ActionRequirement::And(list) => {
            assert_eq!(list.len(), 4);
            assert!(matches!(list[0], ActionRequirement::ItemOwned(ItemId::RomaineLettuce)));
            assert!(matches!(list[1], ActionRequirement::AnyActionOngoing));
        }
        _ => panic!("requirements are always joined"),
    }
    let (fall_id, fall) = &actions[2];
    assert_eq!(*fall_id, ActionId::FastFall);
    assert_eq!(fall.input.as_deref(), Some("{5}[123]"));
    assert_eq!(fall.script.events(&clock(0)), vec![ActionEvent::Movement(5)]);
}

#[test]
fn presentation_events_are_placed_by_the_builder() {
    let action = ActionBuilder::normal()
        .with_character_universals(7)
        .with_animation(8)
        .with_vfx_on_frame(4, 9)
        .end_at(10)
        .build(SEGMENT);
    assert_eq!(
        action.script.events(&clock(0)),
        vec![ActionEvent::Sound(7), ActionEvent::Animation(8), ActionEvent::ForceStand]
    );
    assert_eq!(action.script.events(&clock(4)), vec![ActionEvent::RelativeVisualEffect(9)]);
    let special = ActionBuilder::special().with_character_universals(7).end_at(10).build(SEGMENT);
    assert_eq!(special.script.events(&clock(0)), vec![ActionEvent::ForceStand]);
}

#[test]
fn only_a_successful_parry_grants_the_cancel() {
    assert_eq!(
        parry_reward(true),
        vec![ActionEvent::Condition(StatusCondition {
            flag: StatusFlag::Cancel(wag_characters::ids::CancelType::Anything),
            expiration: Some(25),
        })]
    );
    assert!(parry_reward(false).is_empty());
    let actions = universal_item_actions(1, 2, 3, 4, 5, SEGMENT);
    let parry = &actions[0].1;
    for elapsed in 0..40 {
        let events = parry.script.events(&clock(elapsed));
        assert!(!events.iter().any(|e| matches!(e, ActionEvent::Condition(c) if matches!(c.flag, StatusFlag::Cancel(_)))));
    }
}

#[test]
fn jump_actions_carry_inputs_and_requirements() {
    let all = jump_actions();
    assert_eq!(all.len(), 9);
    let ids: Vec<ActionId> = all.iter().map(|(id, _)| *id).collect();
    assert_eq!(
        ids,
        vec![
            ActionId::BackJump, ActionId::NeutralJump, ActionId::ForwardJump,
            ActionId::BackSuperJump, ActionId::NeutralSuperJump, ActionId::ForwardSuperJump,
            ActionId::BackAirJump, ActionId::NeutralAirJump, ActionId::ForwardAirJump,
        ]
    );
    let inputs: Vec<&str> = all.iter().map(|(_, a)| a.input.as_deref().unwrap()).collect();
    assert_eq!(inputs, vec!["7", "8", "9", "[123]7", "[123]8", "[123]9", "7", "8", "9"]);
    for (id, action) in all.iter() {
        match &action.requirement {
            ActionRequirement::And(list) => {
                assert!(matches!(list.last(), Some(ActionRequirement::Starter(ActionCategory::Jump))));
                let super_jump = matches!(id, ActionId::BackSuperJump | ActionId::NeutralSuperJump | ActionId::ForwardSuperJump);
                let air_jump = matches!(id, ActionId::BackAirJump | ActionId::NeutralAirJump | ActionId::ForwardAirJump);
                assert_eq!(list.iter().any(|r| matches!(r, ActionRequirement::ItemOwned(ItemId::MoonBoots))), super_jump);
                assert_eq!(list.iter().any(|r| matches!(r, ActionRequirement::ItemOwned(ItemId::FeatheredBoots))), air_jump);
                assert_eq!(list.iter().any(|r| matches!(r, ActionRequirement::StatusNotActive(StatusFlag::DoubleJumped))), air_jump);
                assert_eq!(list.iter().any(|r| matches!(r, ActionRequirement::Airborne)), air_jump);
            }
            _ => panic!("jump requirements are joined"),
        }
    }
    let air = &all[7].1;
    assert!(matches!(air.step(&clock(1)), JumpStep::Launch));
    let ground = &all[1].1;
    assert!(matches!(ground.step(&clock(3)), JumpStep::Launch));
    assert!(matches!(ground.step(&clock(9)), JumpStep::Rest(ref e) if e == &vec![ActionEvent::End]));
}

#[test]
fn transient_actions_may_cost_meter() {
    let action = ActionBuilder::normal().make_transient().with_meter_cost().build(SEGMENT);
    assert!(action.transient);
    let first = action.script.events(&clock(0));
    assert!(first.contains(&ActionEvent::ModifyResource(ResourceType::Meter, -SEGMENT)));
    assert!(first.contains(&ActionEvent::Flash(FlashKind::MeterUse)));
    assert!(!action.script.events(&clock(100)).contains(&ActionEvent::End));
}

#[test]
fn unscaled_clocks_visit_each_frame_once() {
    for elapsed in 0..10usize {
        let c = clock(elapsed);
        for f in 0..12usize {
            assert_eq!(c.on_frame(f), elapsed == f);
            assert_eq!(c.after_frame(f), elapsed > f);
        }
    }
}
