use bevy::platform::collections::HashSet;
use wag_characters::ids::{ActionCategory, ActionId, CancelType, GameButton, ItemId, StatusFlag, StickPosition};
use wag_characters::items::Inventory;
use wag_characters::requirements::ActionRequirement;
use wag_characters::resources::{ResourceType, Stats, WAGResource};
use wag_characters::situation::{ActionTracker, Situation};

fn neutral() -> Situation {
    Situation {
        grounded: true,
        tracker: None,
        inventory: Inventory::with_money(0),
        resources: vec![
            (ResourceType::Health, WAGResource { max: Some(100), min: 0, current: 100, special: None }),
            (ResourceType::Meter, WAGResource { max: Some(100), min: 0, current: 40, special: None }),
        ],
        status_flags: HashSet::new(),
        frame: 20,
        abs_frame: 120,
        stats: Stats::identity(),
        stick_position: StickPosition::Neutral,
        held_buttons: HashSet::new(),
        in_combo: false,
        stunned: false,
    }
}

fn during(action: ActionId) -> Situation {
    Situation { tracker: Some(ActionTracker::new(10, false, action)), ..neutral() }
}

fn check(req: &ActionRequirement, sit: &Situation) -> bool {
    req.check(ActionId::TestMove, &Vec::new(), sit)
}

#[test]
fn stance_requirements() {
    let mut sit = neutral();
    assert!(check(&ActionRequirement::Grounded, &sit));
    assert!(!check(&ActionRequirement::Airborne, &sit));
    sit.grounded = false;
    assert!(check(&ActionRequirement::Airborne, &sit));
    assert!(check(&ActionRequirement::Unconditional, &sit));
}

#[test]
fn ongoing_action_requirements() {
    let sit = during(ActionId::DashBack);
    assert!(check(&ActionRequirement::AnyActionOngoing, &sit));
    assert!(!check(&ActionRequirement::AnyActionOngoing, &neutral()));
    assert!(check(&ActionRequirement::ActionOngoing(vec![ActionId::DashForward, ActionId::DashBack]), &sit));
    assert!(!check(&ActionRequirement::ActionOngoing(vec![ActionId::DashForward]), &sit));
    assert!(!check(&ActionRequirement::ActionOngoing(vec![ActionId::DashBack]), &neutral()));
    assert!(!check(&ActionRequirement::ActionNotOngoing(vec![ActionId::DashBack]), &sit));
    assert!(check(&ActionRequirement::ActionNotOngoing(vec![ActionId::DashBack]), &neutral()));
}

#[test]
fn item_resource_button_and_status_requirements() {
    let mut sit = neutral();
    assert!(!check(&ActionRequirement::ItemOwned(ItemId::Gi), &sit));
    sit.inventory.buy(ItemId::Gi, Default::default());
    assert!(check(&ActionRequirement::ItemOwned(ItemId::Gi), &sit));

    assert!(check(&ActionRequirement::ResourceValue(ResourceType::Meter, 40), &sit));
    assert!(!check(&ActionRequirement::ResourceValue(ResourceType::Meter, 41), &sit));
    assert!(check(&ActionRequirement::ResourceFull(ResourceType::Health), &sit));
    assert!(!check(&ActionRequirement::ResourceFull(ResourceType::Meter), &sit));

    assert!(!check(&ActionRequirement::ButtonPressed(GameButton::Fast), &sit));
    assert!(check(&ActionRequirement::ButtonNotPressed(GameButton::Fast), &sit));
    sit.held_buttons.insert(GameButton::Fast);
    assert!(check(&ActionRequirement::ButtonPressed(GameButton::Fast), &sit));

    assert!(check(&ActionRequirement::StatusNotActive(StatusFlag::DoubleJumped), &sit));
    sit.status_flags.insert(StatusFlag::DoubleJumped);
    assert!(!check(&ActionRequirement::StatusNotActive(StatusFlag::DoubleJumped), &sit));
}

#[test]
fn and_needs_all_or_needs_one() {
    let sit = neutral();
    let and = ActionRequirement::And(vec![ActionRequirement::Grounded, ActionRequirement::AnyActionOngoing]);
    assert!(!check(&and, &sit));
    let or = ActionRequirement::Or(vec![ActionRequirement::Airborne, ActionRequirement::Grounded]);
    assert!(check(&or, &sit));
    assert!(check(&ActionRequirement::And(vec![]), &sit));
    assert!(!check(&ActionRequirement::Or(vec![]), &sit));
    // A list stops at the entry that decides it, so a missing gauge after it is never read.
    let short = ActionRequirement::And(vec![
        ActionRequirement::Airborne,
        ActionRequirement::ResourceFull(ResourceType::Charge),
    ]);
    assert!(!check(&short, &sit));
}

#[test]
fn starters_from_neutral_and_while_stunned() {
    let mut sit = neutral();
    for category in [ActionCategory::Normal, ActionCategory::Super, ActionCategory::Other] {
        assert!(check(&ActionRequirement::Starter(category), &sit));
    }
    sit.stunned = true;
    assert!(!check(&ActionRequirement::Starter(ActionCategory::Normal), &sit));
    assert!(!check(&ActionRequirement::Starter(ActionCategory::MegaInterrupt), &sit));
}

#[test]
fn starters_during_an_action_need_a_window() {
    let sit = during(ActionId::TestMove);
    let none: Vec<CancelType> = Vec::new();
    let starter = ActionRequirement::Starter(ActionCategory::Special);
    assert!(!starter.check(ActionId::FastFall, &none, &sit));
    assert!(starter.check(ActionId::FastFall, &vec![CancelType::Special], &sit));
    assert!(!starter.check(ActionId::FastFall, &vec![CancelType::Super], &sit));
    let super_starter = ActionRequirement::Starter(ActionCategory::Super);
    assert!(super_starter.check(ActionId::FastFall, &vec![CancelType::Super], &sit));
    assert!(super_starter.check(ActionId::FastFall, &vec![CancelType::Special], &sit));
    assert!(!ActionRequirement::Starter(ActionCategory::Normal).check(ActionId::FastFall, &vec![CancelType::Special], &sit));
    assert!(ActionRequirement::Starter(ActionCategory::Normal).check(ActionId::FastFall, &vec![CancelType::Anything], &sit));
    let named = vec![CancelType::Specific(vec![ActionId::GiParry])];
    assert!(ActionRequirement::Starter(ActionCategory::Other).check(ActionId::GiParry, &named, &sit));
    assert!(!ActionRequirement::Starter(ActionCategory::Other).check(ActionId::FastFall, &named, &sit));
    assert!(ActionRequirement::Starter(ActionCategory::MegaInterrupt).check(ActionId::FastFall, &none, &sit));
}

#[test]
fn comic_book_opens_special_windows_to_normals() {
    let mut sit = during(ActionId::TestMove);
    let windows = vec![CancelType::Special];
    let normal = ActionRequirement::Starter(ActionCategory::Normal);
    assert!(!normal.check(ActionId::FastFall, &windows, &sit));
    sit.inventory.buy(ItemId::ComicBook, Default::default());
    assert!(normal.check(ActionId::FastFall, &windows, &sit));
    sit.status_flags.insert(StatusFlag::ComicCancelCooldown);
    assert!(!normal.check(ActionId::FastFall, &windows, &sit));
}

#[test]
fn situation_reads_gauges_and_elapsed_frames() {
    let sit = during(ActionId::TestMove);
    assert_eq!(sit.elapsed(), 10);
    assert_eq!(neutral().elapsed(), 0);
    assert_eq!(sit.get_resource(ResourceType::Meter).unwrap().current, 40);
    assert!(sit.get_resource(ResourceType::Sharpness).is_none());
    let t = ActionTracker::new(3, true, ActionId::GiParry);
    assert!(!t.has_hit);
    assert!(t.was_cancelled_into);
    assert_eq!(t.start_frame, 3);
    assert_eq!(t.action_id, ActionId::GiParry);
}

#[test]
fn status_flags_are_found_by_what_they_name() {
    let mut sit = neutral();
    let flag = || StatusFlag::Cancel(CancelType::Specific(vec![ActionId::GiParry, ActionId::FastFall]));
    assert!(check(&ActionRequirement::StatusNotActive(flag()), &sit));
    sit.status_flags.insert(flag());
    assert!(!check(&ActionRequirement::StatusNotActive(flag()), &sit));
    assert!(check(
        &ActionRequirement::StatusNotActive(StatusFlag::Cancel(CancelType::Specific(vec![ActionId::GiParry]))),
        &sit
    ));
}
