use wag_characters::cancels::CancelRule;
use wag_characters::ids::{ActionCategory, ActionId};
use wag_characters::moves::{CancelCategory, CancelPolicy};

#[test]
fn cancels_cancel_sanity_check() {
    assert!(CancelRule::any().can_cancel(true, ActionId::TestMove, ActionCategory::Special));
    assert!(CancelRule::any().can_cancel(false, ActionId::TestMove, ActionCategory::Special));
    assert!(!CancelRule::never().can_cancel(true, ActionId::TestMove, ActionCategory::Special));
}

#[test]
fn cancel_steps() {
    assert!(!CancelRule::normal_recovery().can_cancel(
        true,
        ActionId::TestMove,
        ActionCategory::Normal
    ));
    assert!(CancelRule::normal_recovery().can_cancel(
        true,
        ActionId::TestMove,
        ActionCategory::Special
    ));
}

#[test]
fn action_event_cancel_sanity_check() {
    assert!(CancelPolicy::any().can_cancel(true, CancelCategory::Everything));
    assert!(CancelPolicy::any().can_cancel(false, CancelCategory::Everything));
    assert!(!CancelPolicy::never().can_cancel(true, CancelCategory::Everything));
}

#[test]
fn recovery_rules_need_a_hit() {
    assert!(!CancelRule::normal_recovery().can_cancel(false, ActionId::TestMove, ActionCategory::Special));
    assert!(!CancelRule::special_recovery().can_cancel(false, ActionId::TestMove, ActionCategory::Super));
    assert!(CancelRule::special_recovery().can_cancel(true, ActionId::TestMove, ActionCategory::Super));
    assert!(!CancelRule::special_recovery().can_cancel(true, ActionId::TestMove, ActionCategory::Special));
}

#[test]
fn only_standard_categories_can_be_cancelled_into() {
    assert!(!CancelRule::any().can_cancel(true, ActionId::TestMove, ActionCategory::Forced));
    assert!(!CancelRule::any().can_cancel(true, ActionId::TestMove, ActionCategory::FollowUp));
    assert!(CancelRule::any().can_cancel(true, ActionId::TestMove, ActionCategory::Dash));
    assert!(!CancelRule::dash().can_cancel(true, ActionId::TestMove, ActionCategory::Dash));
    assert!(CancelRule::dash().can_cancel(true, ActionId::TestMove, ActionCategory::Jump));
    assert!(!CancelRule::jump().can_cancel(true, ActionId::TestMove, ActionCategory::Jump));
    assert!(CancelRule::jump().can_cancel(true, ActionId::TestMove, ActionCategory::Normal));
}

#[test]
fn specific_rules_admit_named_actions() {
    let rule = CancelRule::specific(vec![ActionId::GiParry, ActionId::FastFall]);
    assert!(rule.can_cancel(false, ActionId::FastFall, ActionCategory::Forced));
    assert!(!rule.can_cancel(false, ActionId::DashBack, ActionCategory::Super));
    let both = CancelRule::specific_or_category(vec![ActionId::GiParry], ActionCategory::Super);
    assert!(both.can_cancel(false, ActionId::GiParry, ActionCategory::Other));
    assert!(both.can_cancel(false, ActionId::DashBack, ActionCategory::Super));
    assert!(!both.can_cancel(false, ActionId::DashBack, ActionCategory::Special));
}

#[test]
fn cancel_out_of_gives_the_recovery_rule() {
    let normal = CancelRule::cancel_out_of(ActionCategory::Normal);
    assert!(normal.requires_hit);
    assert_eq!(normal.category, ActionCategory::Special);
    let special = CancelRule::cancel_out_of(ActionCategory::Special);
    assert_eq!(special.category, ActionCategory::Super);
}

#[test]
fn cancel_policies_order_categories() {
    let p = CancelPolicy::command_normal_recovery();
    assert!(!p.can_cancel(false, CancelCategory::Special));
    assert!(p.can_cancel(true, CancelCategory::Special));
    assert!(!p.can_cancel(true, CancelCategory::CommandNormal));
    let n = CancelPolicy::neutral_normal_recovery();
    assert!(n.can_cancel(true, CancelCategory::CommandNormal));
    assert!(!n.can_cancel(true, CancelCategory::Normal));
}
