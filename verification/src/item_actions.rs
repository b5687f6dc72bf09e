//! The actions that universal items grant: the gi's parry, the romaine lettuce cancel and
//! the diving helmet's fast fall.
use vstd::prelude::*;
use crate::builders::{ActionBuilder, closing_blobs};
use crate::events::{ActionEvent, FlashKind};
use crate::ids::{ActionCategory, ActionId, CancelType, ItemId, SimpleState, StatusCondition, StatusFlag};
use crate::requirements::ActionRequirement;
use crate::resources::ResourceType;
use crate::script::{Action, Timing, blob_views, grouped};

verus! {

/// What the gi's parry does on its first frame: it stands, parries for ten frames and
/// flashes.
pub open spec fn parry_events(animation: u32) -> Seq<ActionEvent> {
    seq![
        ActionEvent::Animation(animation),
        ActionEvent::ForceStand,
        ActionEvent::Condition(StatusCondition { flag: StatusFlag::Parry, expiration: Some(10usize) }),
        ActionEvent::Flash(FlashKind::GiParry),
    ]
}

/// What a successful gi parry grants: a window of twenty five frames to cancel into
/// anything.
pub open spec fn parry_reward_events() -> Seq<ActionEvent> {
    seq![ActionEvent::Condition(StatusCondition { flag: StatusFlag::Cancel(CancelType::Anything), expiration: Some(25usize) })]
}

/// What the gi's parry grants once it is over an attack: the cancel into anything when
/// the parry caught something, nothing when it did not.
pub fn parry_reward(caught: bool) -> (r: Vec<ActionEvent>)
    ensures
        r@ == (if caught { parry_reward_events() } else { Seq::<ActionEvent>::empty() }),
{
    if caught {
        let r = vec![ActionEvent::Condition(StatusCondition { flag: StatusFlag::Cancel(CancelType::Anything), expiration: Some(25) })];
        assert(r@ =~= parry_reward_events());
        r
    } else {
        Vec::new()
    }
}

/// The gi's parry: forward and the gimmick and wrestling buttons, for owners of the gi.
/// Its script only parries; the cancel a success grants is `parry_reward`'s.
pub fn gi_parry(animation: u32, meter_bar_segment: i32) -> (r: Action)
    requires
        meter_bar_segment != i32::MIN,
    ensures
        !r.transient,
        r.input matches Some(s) && s@ == "{6}(gw)"@,
        r.requirement matches ActionRequirement::And(list) && list@ == seq![
            ActionRequirement::ItemOwned(ItemId::Gi),
            ActionRequirement::Grounded,
            ActionRequirement::Starter(ActionCategory::Other),
        ],
        grouped(blob_views(r.script.groups@), seq![(Timing::OnFrame(0), parry_events(animation))]
            + closing_blobs(false, false, false, Some(SimpleState::Stand), 30, meter_bar_segment)),
{
    let events = vec![
        ActionEvent::Animation(animation),
        ActionEvent::ForceStand,
        ActionEvent::Condition(StatusCondition { flag: StatusFlag::Parry, expiration: Some(10) }),
        ActionEvent::Flash(FlashKind::GiParry),
    ];
    assert(events@ =~= parry_events(animation));
    proof { reveal_strlit("{6}(gw)"); }
    let b = ActionBuilder::for_category(ActionCategory::Other)
        .with_input("{6}(gw)")
        .static_immediate_events(events)
        .end_at(30)
        .with_requirement(ActionRequirement::ItemOwned(ItemId::Gi));
    proof {
        assert(blob_views(b.blobs@) =~= seq![(Timing::OnFrame(0), parry_events(animation))]);
        assert(b.requirement_list(meter_bar_segment) =~= seq![
            ActionRequirement::ItemOwned(ItemId::Gi),
            ActionRequirement::Grounded,
            ActionRequirement::Starter(ActionCategory::Other),
        ]);
    }
    b.build(meter_bar_segment)
}

/// The diving helmet's fast fall: neutral then down in the air pushes the character down.
pub fn fast_fall(fall_impulse: u32, meter_bar_segment: i32) -> (r: Action)
    requires
        meter_bar_segment != i32::MIN,
    ensures
        !r.transient,
        r.input matches Some(s) && s@ == "{5}[123]"@,
        r.requirement matches ActionRequirement::And(list) && list@ == seq![
            ActionRequirement::ItemOwned(ItemId::DivingHelmet),
            ActionRequirement::Airborne,
            ActionRequirement::Starter(ActionCategory::Other),
        ],
        grouped(blob_views(r.script.groups@), seq![(Timing::OnFrame(0), seq![ActionEvent::Movement(fall_impulse)])]
            + closing_blobs(false, false, false, Some(SimpleState::Air), 10, meter_bar_segment)),
{
    let events = vec![ActionEvent::Movement(fall_impulse)];
    assert(events@ =~= seq![ActionEvent::Movement(fall_impulse)]);
    proof { reveal_strlit("{5}[123]"); }
    let b = ActionBuilder::for_category(ActionCategory::Other)
        .with_input("{5}[123]")
        .air_only()
        .static_immediate_events(events)
        .end_at(10)
        .with_requirement(ActionRequirement::ItemOwned(ItemId::DivingHelmet));
    proof {
        assert(blob_views(b.blobs@) =~= seq![(Timing::OnFrame(0), seq![ActionEvent::Movement(fall_impulse)])]);
        assert(b.requirement_list(meter_bar_segment) =~= seq![
            ActionRequirement::ItemOwned(ItemId::DivingHelmet),
            ActionRequirement::Airborne,
            ActionRequirement::Starter(ActionCategory::Other),
        ]);
    }
    b.build(meter_bar_segment)
}

/// What the romaine lettuce cancel shows on its first frame: its animation, a ring pulse
/// and the lettuce icon.
pub open spec fn romaine_events(animation: u32, ring: u32, icon: u32) -> Seq<ActionEvent> {
    seq![
        ActionEvent::Animation(animation),
        ActionEvent::RelativeVisualEffect(ring),
        ActionEvent::RelativeVisualEffect(icon),
    ]
}

/// The romaine lettuce cancel: the gimmick and wrestling buttons during another action,
/// in the air or on the ground, for a bar of meter.
pub fn romaine_cancel(animation: u32, ring: u32, icon: u32, meter_bar_segment: i32) -> (r: Action)
    requires
        meter_bar_segment != i32::MIN,
    ensures
        !r.transient,
        r.input matches Some(s) && s@ == "(gw)"@,
        r.requirement matches ActionRequirement::And(list) && list@ == seq![
            ActionRequirement::ItemOwned(ItemId::RomaineLettuce),
            ActionRequirement::AnyActionOngoing,
            ActionRequirement::ResourceValue(ResourceType::Meter, meter_bar_segment),
            ActionRequirement::Starter(ActionCategory::MegaInterrupt),
        ],
        grouped(blob_views(r.script.groups@), seq![(Timing::OnFrame(0), romaine_events(animation, ring, icon))]
            + closing_blobs(true, false, false, None, 10, meter_bar_segment)),
{
    let events = vec![
        ActionEvent::Animation(animation),
        ActionEvent::RelativeVisualEffect(ring),
        ActionEvent::RelativeVisualEffect(icon),
    ];
    assert(events@ =~= romaine_events(animation, ring, icon));
    proof { reveal_strlit("(gw)"); }
    let b = ActionBuilder::for_category(ActionCategory::MegaInterrupt)
        .air_or_ground()
        .with_input("(gw)")
        .with_requirement(ActionRequirement::ItemOwned(ItemId::RomaineLettuce))
        .with_requirement(ActionRequirement::AnyActionOngoing)
        .end_at(10)
        .with_meter_cost()
        .static_immediate_events(events);
    proof {
        assert(blob_views(b.blobs@) =~= seq![(Timing::OnFrame(0), romaine_events(animation, ring, icon))]);
        assert(b.requirement_list(meter_bar_segment) =~= seq![
            ActionRequirement::ItemOwned(ItemId::RomaineLettuce),
            ActionRequirement::AnyActionOngoing,
            ActionRequirement::ResourceValue(ResourceType::Meter, meter_bar_segment),
            ActionRequirement::Starter(ActionCategory::MegaInterrupt),
        ]);
    }
    b.build(meter_bar_segment)
}

/// The actions universal items grant, each under its identifier.
pub fn universal_item_actions(
    parry_animation: u32,
    rc_animation: u32,
    rc_ring: u32,
    rc_icon: u32,
    fall_impulse: u32,
    meter_bar_segment: i32,
) -> (r: Vec<(ActionId, Action)>)
    requires
        meter_bar_segment != i32::MIN,
    ensures
        r@.len() == 3,
        r@[0].0 == ActionId::GiParry,
        r@[1].0 == ActionId::RomaineCancel,
        r@[2].0 == ActionId::FastFall,
        r@[0].1.requirement matches ActionRequirement::And(list) && list@[0] == ActionRequirement::ItemOwned(ItemId::Gi),
        r@[1].1.requirement matches ActionRequirement::And(list)
            && list@[0] == ActionRequirement::ItemOwned(ItemId::RomaineLettuce),
        r@[2].1.requirement matches ActionRequirement::And(list)
            && list@[0] == ActionRequirement::ItemOwned(ItemId::DivingHelmet),
{
    vec![
        (ActionId::GiParry, gi_parry(parry_animation, meter_bar_segment)),
        (ActionId::RomaineCancel, romaine_cancel(rc_animation, rc_ring, rc_icon, meter_bar_segment)),
        (ActionId::FastFall, fast_fall(fall_impulse, meter_bar_segment)),
    ]
}

} // verus!
