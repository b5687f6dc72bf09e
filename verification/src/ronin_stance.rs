//! The ronin's specials: the sword stance (entering it, what releasing it leads into,
//! cancelling it, dashing out of it and back in, sharpening the sword in it) and the
//! kunai throws.
use vstd::prelude::*;
use crate::builders::{ActionBuilder, button_notation, closing_blobs};
use crate::collections::{ButtonSet, button_set, button_set_contains};
use crate::events::ActionEvent;
use crate::ids::{ActionCategory, ActionId, CancelType, GameButton, ItemId, RoninAction, SimpleState, SpecialVersion, StatusCondition, StatusFlag, StickPosition};
use crate::items::{Inventory, count_in};
use crate::requirements::ActionRequirement;
use crate::resources::ResourceType;
use crate::ronin::anim_blob;
use crate::script::{Action, BlobView, Timing, blob_views, grouped};
use crate::strike::{HitStun, StrikeProfile, Stun};
use crate::ids::AttackHeight;

verus! {

/// Handles of what the sword stance and its plain follow-ups show and play.
#[derive(Clone, Copy, Debug)]
pub struct StanceLook {
    pub stance: u32,
    pub stance_cancel: u32,
    pub slow_sharpen: u32,
    pub fast_sharpen: u32,
    /// The sound of drawing the knife along the blade, and of flicking it off.
    pub sharpen_drag: u32,
    pub sharpen_flick: u32,
    /// Where the stance dashes put the ronin, forward and back.
    pub forward_step: u32,
    pub back_step: u32,
    pub smoke: u32,
    /// How long the window to turn the stance into its metered version stays open.
    pub kara_frames: usize,
}

/// The buttons that hold the stance of a version.
pub open spec fn stance_buttons(v: SpecialVersion) -> Seq<GameButton> {
    match v {
        SpecialVersion::Fast => seq![GameButton::Fast],
        SpecialVersion::Strong => seq![GameButton::Strong],
        SpecialVersion::Metered => seq![GameButton::Fast, GameButton::Strong],
    }
}

/// The vertical direction of a stick position: down, level or up.
pub open spec fn stick_y(s: StickPosition) -> int {
    match s {
        StickPosition::SW | StickPosition::S | StickPosition::SE => -1,
        StickPosition::NW | StickPosition::N | StickPosition::NE => 1,
        _ => 0,
    }
}

/// The horizontal direction of a stick position on screen: left, centre or right.
pub open spec fn stick_x(s: StickPosition) -> int {
    match s {
        StickPosition::SW | StickPosition::W | StickPosition::NW => -1,
        StickPosition::SE | StickPosition::E | StickPosition::NE => 1,
        _ => 0,
    }
}

/// The horizontal direction of a stick position relative to where the character faces:
/// forward is one, back is minus one.
pub open spec fn stick_forward(s: StickPosition, facing_right: bool) -> int {
    if facing_right { stick_x(s) } else { -stick_x(s) }
}

/// What the sword stance of version `v` leads into from its fifth frame on: the sharpen
/// while the gimmick button is held; once no button of the stance is held, the viper
/// strike with the stick down, the rising sun with it back, the sword slam with it forward
/// for owners of the fire axe, and otherwise the stance's cancel; nothing while it is held.
pub open spec fn stance_follow_up(v: SpecialVersion, held: Set<GameButton>, stick: StickPosition,
    facing_right: bool, has_fireaxe: bool) -> Option<RoninAction>
{
    if held.contains(GameButton::Gimmick) {
        Some(RoninAction::Sharpen(v))
    } else if !(exists|i: int| 0 <= i < stance_buttons(v).len() && held.contains(#[trigger] stance_buttons(v)[i])) {
        Some(if stick_y(stick) == -1 {
            RoninAction::ViperStrike(v)
        } else if stick_forward(stick, facing_right) == -1 {
            RoninAction::RisingSun(v)
        } else if stick_forward(stick, facing_right) == 1 && has_fireaxe {
            RoninAction::SwordSlam(v)
        } else {
            RoninAction::StanceCancel(v)
        })
    } else {
        None
    }
}

fn stick_down(s: StickPosition) -> (r: bool)
    ensures
        r == (stick_y(s) == -1),
{
    match s {
        StickPosition::SW | StickPosition::S | StickPosition::SE => true,
        _ => false,
    }
}

fn stick_forward_of(s: StickPosition, facing_right: bool) -> (r: i8)
    ensures
        r as int == stick_forward(s, facing_right),
{
    let x: i8 = match s {
        StickPosition::SW | StickPosition::W | StickPosition::NW => -1,
        StickPosition::SE | StickPosition::E | StickPosition::NE => 1,
        _ => 0,
    };
    if facing_right { x } else { -x }
}

/// What the sword stance sends on each frame after its fourth (see `stance_follow_up`).
pub fn sword_stance_follow_up(version: SpecialVersion, held_buttons: &ButtonSet, stick: StickPosition,
    facing_right: bool, inventory: &Inventory) -> (r: Vec<ActionEvent>)
    ensures
        r@ == match stance_follow_up(version, button_set(*held_buttons), stick, facing_right,
            count_in(inventory.counts(), ItemId::Fireaxe) > 0) {
            Some(next) => seq![ActionEvent::StartAction(ActionId::Ronin(next))],
            None => Seq::<ActionEvent>::empty(),
        },
{
    let ghost held = button_set(*held_buttons);
    let next = if button_set_contains(held_buttons, &GameButton::Gimmick) {
        Some(RoninAction::Sharpen(version))
    } else {
        let holding = match version {
            SpecialVersion::Fast => button_set_contains(held_buttons, &GameButton::Fast),
            SpecialVersion::Strong => button_set_contains(held_buttons, &GameButton::Strong),
            SpecialVersion::Metered => button_set_contains(held_buttons, &GameButton::Fast)
                || button_set_contains(held_buttons, &GameButton::Strong),
        };
        proof {
            let bs = stance_buttons(version);
            if holding {
                match version {
                    SpecialVersion::Metered => {
                        if held.contains(GameButton::Fast) {
                            assert(held.contains(bs[0]));
                        } else {
                            assert(held.contains(bs[1]));
                        }
                    },
                    _ => assert(held.contains(bs[0])),
                }
            }
        }
        if holding {
            None
        } else {
            let forward = stick_forward_of(stick, facing_right);
            Some(if stick_down(stick) {
                RoninAction::ViperStrike(version)
            } else if forward == -1 {
                RoninAction::RisingSun(version)
            } else if forward == 1 && inventory.contains(ItemId::Fireaxe) {
                RoninAction::SwordSlam(version)
            } else {
                RoninAction::StanceCancel(version)
            })
        }
    };
    match next {
        Some(action) => {
            let r = vec![ActionEvent::StartAction(ActionId::Ronin(action))];
            assert(r@ =~= seq![ActionEvent::StartAction(ActionId::Ronin(action))]);
            r
        },
        None => Vec::new(),
    }
}

/// The event that opens a window of `frames` frames to turn the stance into its metered
/// version.
pub open spec fn is_kara_to_metered(e: ActionEvent, frames: usize) -> bool {
    match e {
        ActionEvent::Condition(c) => c.expiration == Some(frames) && match c.flag {
            StatusFlag::Cancel(CancelType::Specific(ids)) =>
                ids@ == seq![ActionId::Ronin(RoninAction::SwordStance(SpecialVersion::Metered))],
            _ => false,
        },
        _ => false,
    }
}

/// The event that opens, from the stance's third frame, the window to dash out of it.
pub open spec fn is_stance_dash_window(e: ActionEvent, v: SpecialVersion) -> bool {
    match e {
        ActionEvent::Condition(c) => c.expiration is None && match c.flag {
            StatusFlag::Cancel(CancelType::Specific(ids)) => ids@ == seq![
                ActionId::Ronin(RoninAction::StanceForwardDash(v)),
                ActionId::Ronin(RoninAction::StanceBackDash(v)),
            ],
            _ => false,
        },
        _ => false,
    }
}

/// The input of the stance of a version: a held down then back, and its buttons.
pub open spec fn stance_input(v: SpecialVersion) -> Seq<char> {
    match v {
        SpecialVersion::Fast => "{2}*4f"@,
        SpecialVersion::Strong => "{2}*4s"@,
        SpecialVersion::Metered => "{2}*4(fs)"@,
    }
}

/// The sword stance: the ronin stands in it, the metered version intangible for its
/// first twenty two frames and for a bar of meter, the others with a short window to turn
/// into the metered one; from the third frame it can dash out. It lasts until released
/// (see `sword_stance_follow_up`).
pub fn sword_stance(version: SpecialVersion, look: StanceLook, meter_bar_segment: i32) -> (r: Action)
    requires
        meter_bar_segment != i32::MIN,
    ensures
        !r.transient,
        r.input matches Some(s) && s@ == stance_input(version),
        r.requirement matches ActionRequirement::And(list) && list@ == (if version == SpecialVersion::Metered {
            seq![ActionRequirement::Grounded, ActionRequirement::ResourceValue(ResourceType::Meter, meter_bar_segment),
                ActionRequirement::Starter(ActionCategory::Special)]
        } else {
            seq![ActionRequirement::Grounded, ActionRequirement::Starter(ActionCategory::Special)]
        }),
        exists|first: ActionEvent, window: ActionEvent| {
            &&& (if version == SpecialVersion::Metered {
                first == ActionEvent::Condition(StatusCondition { flag: StatusFlag::Intangible, expiration: Some(22usize) })
            } else {
                is_kara_to_metered(first, look.kara_frames)
            })
            &&& is_stance_dash_window(window, version)
            &&& grouped(blob_views(r.script.groups@), seq![
                (Timing::OnFrame(0), seq![ActionEvent::Animation(look.stance), ActionEvent::ForceStand, first]),
                (Timing::OnFrame(3), seq![window]),
            ] + closing_blobs(version == SpecialVersion::Metered, false, false, Some(SimpleState::Stand), 5940, meter_bar_segment))
        },
{
    let metered = match version { SpecialVersion::Metered => true, _ => false };
    let input = match version {
        SpecialVersion::Fast => "{2}*4f",
        SpecialVersion::Strong => "{2}*4s",
        SpecialVersion::Metered => "{2}*4(fs)",
    };
    proof {
        reveal_strlit("{2}*4f");
        reveal_strlit("{2}*4s");
        reveal_strlit("{2}*4(fs)");
    }
    let first = if metered {
        ActionEvent::Condition(StatusCondition { flag: StatusFlag::Intangible, expiration: Some(22) })
    } else {
        let to = vec![ActionId::Ronin(RoninAction::SwordStance(SpecialVersion::Metered))];
        assert(to@ =~= seq![ActionId::Ronin(RoninAction::SwordStance(SpecialVersion::Metered))]);
        ActionEvent::Condition(StatusCondition {
            flag: StatusFlag::Cancel(CancelType::Specific(to)),
            expiration: Some(look.kara_frames),
        })
    };
    let ghost f = first;
    let dashes = vec![
        ActionId::Ronin(RoninAction::StanceForwardDash(version)),
        ActionId::Ronin(RoninAction::StanceBackDash(version)),
    ];
    assert(dashes@ =~= seq![
        ActionId::Ronin(RoninAction::StanceForwardDash(version)),
        ActionId::Ronin(RoninAction::StanceBackDash(version)),
    ]);
    let window = ActionEvent::Condition(StatusCondition { flag: StatusFlag::Cancel(CancelType::Specific(dashes)), expiration: None });
    let ghost w = window;
    let start = vec![ActionEvent::Animation(look.stance), ActionEvent::ForceStand, first];
    assert(start@ =~= seq![ActionEvent::Animation(look.stance), ActionEvent::ForceStand, f]);
    let at_three = vec![window];
    assert(at_three@ =~= seq![w]);
    let b = ActionBuilder::special()
        .with_input(input)
        .static_immediate_events(start)
        .static_events_on_frame(3, at_three)
        .end_at(5940);
    let b = if metered { b.with_meter_cost() } else { b };
    proof {
        assert(blob_views(b.blobs@) =~= seq![
            (Timing::OnFrame(0), seq![ActionEvent::Animation(look.stance), ActionEvent::ForceStand, f]),
            (Timing::OnFrame(3), seq![w]),
        ]);
        if metered {
            assert(b.requirement_list(meter_bar_segment) =~= seq![ActionRequirement::Grounded,
                ActionRequirement::ResourceValue(ResourceType::Meter, meter_bar_segment),
                ActionRequirement::Starter(ActionCategory::Special)]);
        } else {
            assert(b.requirement_list(meter_bar_segment) =~= seq![ActionRequirement::Grounded,
                ActionRequirement::Starter(ActionCategory::Special)]);
        }
    }
    b.build(meter_bar_segment)
}

/// `list` is what a follow-up of the stance of version `v` requires: `extra`, the ground,
/// the stance going on and the right to start a special.
pub open spec fn stance_follow_up_requirements(list: Seq<ActionRequirement>, v: SpecialVersion, extra: Seq<ActionRequirement>) -> bool {
    &&& list.len() == extra.len() + 3
    &&& list.subrange(0, extra.len() as int) == extra
    &&& list[extra.len() as int] == ActionRequirement::Grounded
    &&& list[extra.len() as int + 1] matches ActionRequirement::ActionOngoing(ids)
        && ids@ == seq![ActionId::Ronin(RoninAction::SwordStance(v))]
    &&& list[extra.len() as int + 2] == ActionRequirement::Starter(ActionCategory::Special)
}

/// The stance's cancel: the ronin leaves the stance, no longer intangible.
pub fn stance_cancel(version: SpecialVersion, look: StanceLook, meter_bar_segment: i32) -> (r: Action)
    requires
        meter_bar_segment != i32::MIN,
    ensures
        !r.transient,
        r.input is None,
        r.requirement matches ActionRequirement::And(list)
            && stance_follow_up_requirements(list@, version, Seq::<ActionRequirement>::empty()),
        grouped(blob_views(r.script.groups@), seq![
            anim_blob(look.stance_cancel),
            (Timing::OnFrame(0), seq![ActionEvent::ClearCondition(StatusFlag::Intangible)]),
        ] + closing_blobs(false, false, false, Some(SimpleState::Stand), 8, meter_bar_segment)),
{
    let from = vec![ActionId::Ronin(RoninAction::SwordStance(version))];
    assert(from@ =~= seq![ActionId::Ronin(RoninAction::SwordStance(version))]);
    let clear = vec![ActionEvent::ClearCondition(StatusFlag::Intangible)];
    assert(clear@ =~= seq![ActionEvent::ClearCondition(StatusFlag::Intangible)]);
    let b = ActionBuilder::special()
        .with_animation(look.stance_cancel)
        .static_immediate_events(clear)
        .follow_up_from(from)
        .end_at(8);
    proof {
        assert(blob_views(b.blobs@) =~= seq![
            anim_blob(look.stance_cancel),
            (Timing::OnFrame(0), seq![ActionEvent::ClearCondition(StatusFlag::Intangible)]),
        ]);
        assert(b.requirement_list(meter_bar_segment).subrange(0, 0) =~= Seq::<ActionRequirement>::empty());
    }
    b.build(meter_bar_segment)
}

/// A dash out of the stance, for owners of the smoke bomb: the ronin steps forward (or
/// back), in smoke, and takes the stance again after ten frames.
pub fn stance_dash(version: SpecialVersion, back: bool, look: StanceLook, meter_bar_segment: i32) -> (r: Action)
    requires
        meter_bar_segment != i32::MIN,
    ensures
        !r.transient,
        r.input matches Some(s) && s@ == (if back { "454"@ } else { "656"@ }),
        r.requirement matches ActionRequirement::And(list)
            && stance_follow_up_requirements(list@, version, seq![ActionRequirement::ItemOwned(ItemId::SmokeBomb)]),
        grouped(blob_views(r.script.groups@), seq![
            (Timing::OnFrame(0), seq![
                ActionEvent::Teleport(if back { look.back_step } else { look.forward_step }),
                ActionEvent::RelativeVisualEffect(look.smoke),
            ]),
            (Timing::After(10), seq![ActionEvent::StartAction(ActionId::Ronin(RoninAction::SwordStance(version)))]),
        ] + closing_blobs(false, false, false, Some(SimpleState::Stand), 0, meter_bar_segment)),
{
    let from = vec![ActionId::Ronin(RoninAction::SwordStance(version))];
    assert(from@ =~= seq![ActionId::Ronin(RoninAction::SwordStance(version))]);
    let step = vec![
        ActionEvent::Teleport(if back { look.back_step } else { look.forward_step }),
        ActionEvent::RelativeVisualEffect(look.smoke),
    ];
    assert(step@ =~= seq![
        ActionEvent::Teleport(if back { look.back_step } else { look.forward_step }),
        ActionEvent::RelativeVisualEffect(look.smoke),
    ]);
    let again = vec![ActionEvent::StartAction(ActionId::Ronin(RoninAction::SwordStance(version)))];
    assert(again@ =~= seq![ActionEvent::StartAction(ActionId::Ronin(RoninAction::SwordStance(version)))]);
    proof {
        reveal_strlit("454");
        reveal_strlit("656");
    }
    let b = ActionBuilder::special()
        .with_input(if back { "454" } else { "656" })
        .follow_up_from(from)
        .static_immediate_events(step)
        .static_events_after_frame(10, again)
        .with_requirement(ActionRequirement::ItemOwned(ItemId::SmokeBomb));
    proof {
        assert(blob_views(b.blobs@) =~= seq![
            (Timing::OnFrame(0), seq![
                ActionEvent::Teleport(if back { look.back_step } else { look.forward_step }),
                ActionEvent::RelativeVisualEffect(look.smoke),
            ]),
            (Timing::After(10), seq![ActionEvent::StartAction(ActionId::Ronin(RoninAction::SwordStance(version)))]),
        ]);
        assert(b.requirement_list(meter_bar_segment).subrange(0, 1) =~= seq![ActionRequirement::ItemOwned(ItemId::SmokeBomb)]);
    }
    b.build(meter_bar_segment)
}

/// The sharpen: the ronin draws a knife along the blade, which sharpens the sword by two
/// levels (one for the fast version) and, but for the metered version, gives a bar of
/// meter; the strong version is slow.
pub fn sharpen(version: SpecialVersion, look: StanceLook, meter_bar_segment: i32) -> (r: Action)
    requires
        meter_bar_segment != i32::MIN,
    ensures
        ({
            let slow = version == SpecialVersion::Strong;
            &&& !r.transient
            &&& r.input is None
            &&& r.requirement matches ActionRequirement::And(list)
                && stance_follow_up_requirements(list@, version, Seq::<ActionRequirement>::empty())
            &&& grouped(blob_views(r.script.groups@), seq![
                (Timing::OnFrame(0), seq![
                    ActionEvent::Animation(if slow { look.slow_sharpen } else { look.fast_sharpen }),
                    ActionEvent::Sound(look.sharpen_drag),
                ]),
                (Timing::OnFrame(if slow { 50usize } else { 35usize }), seq![
                    ActionEvent::ModifyResource(ResourceType::Sharpness, if version == SpecialVersion::Fast { 1i32 } else { 2i32 }),
                    ActionEvent::ModifyResource(ResourceType::Meter, if version == SpecialVersion::Metered { 0i32 } else { meter_bar_segment }),
                    ActionEvent::Sound(look.sharpen_flick),
                ]),
            ] + closing_blobs(false, false, false, Some(SimpleState::Stand), if slow { 60 } else { 45 }, meter_bar_segment))
        }),
{
    let slow = match version { SpecialVersion::Strong => true, _ => false };
    let sharpness: i32 = match version { SpecialVersion::Fast => 1, _ => 2 };
    let meter: i32 = match version { SpecialVersion::Metered => 0, _ => meter_bar_segment };
    let from = vec![ActionId::Ronin(RoninAction::SwordStance(version))];
    assert(from@ =~= seq![ActionId::Ronin(RoninAction::SwordStance(version))]);
    let start = vec![
        ActionEvent::Animation(if slow { look.slow_sharpen } else { look.fast_sharpen }),
        ActionEvent::Sound(look.sharpen_drag),
    ];
    assert(start@ =~= seq![
        ActionEvent::Animation(if slow { look.slow_sharpen } else { look.fast_sharpen }),
        ActionEvent::Sound(look.sharpen_drag),
    ]);
    let done = vec![
        ActionEvent::ModifyResource(ResourceType::Sharpness, sharpness),
        ActionEvent::ModifyResource(ResourceType::Meter, meter),
        ActionEvent::Sound(look.sharpen_flick),
    ];
    let frame: usize = if slow { 50 } else { 35 };
    let b = ActionBuilder::special()
        .static_immediate_events(start)
        .static_events_on_frame(frame, done)
        .end_at(if slow { 60 } else { 45 })
        .follow_up_from(from);
    proof {
        assert(blob_views(b.blobs@) =~= seq![
            (Timing::OnFrame(0), seq![
                ActionEvent::Animation(if slow { look.slow_sharpen } else { look.fast_sharpen }),
                ActionEvent::Sound(look.sharpen_drag),
            ]),
            (Timing::OnFrame(if slow { 50usize } else { 35usize }), seq![
                ActionEvent::ModifyResource(ResourceType::Sharpness, if version == SpecialVersion::Fast { 1i32 } else { 2i32 }),
                ActionEvent::ModifyResource(ResourceType::Meter, if version == SpecialVersion::Metered { 0i32 } else { meter_bar_segment }),
                ActionEvent::Sound(look.sharpen_flick),
            ]),
        ]);
        assert(b.requirement_list(meter_bar_segment).subrange(0, 0) =~= Seq::<ActionRequirement>::empty());
    }
    b.build(meter_bar_segment)
}

/// Handles of what the kunai throws show and play.
#[derive(Clone, Copy, Debug)]
pub struct KunaiLook {
    pub throw: u32,
    pub shout: u32,
    /// The kunai the thrown one drops where it hits.
    pub pickup: u32,
    pub lightning: u32,
    /// How long the window to turn a throw into its metered version stays open.
    pub kara_frames: usize,
}

/// The input of the kunai throw of a version: a held down then forward, and its buttons.
pub open spec fn kunai_input(v: SpecialVersion) -> Seq<char> {
    match v {
        SpecialVersion::Fast => "{2}*6f"@,
        SpecialVersion::Strong => "{2}*6s"@,
        SpecialVersion::Metered => "{2}*6(fs)"@,
    }
}

/// The event that opens a window of `frames` frames to turn a kunai throw into its
/// metered version.
pub open spec fn is_kara_to_metered_kunai(e: ActionEvent, frames: usize) -> bool {
    match e {
        ActionEvent::Condition(c) => c.expiration == Some(frames) && match c.flag {
            StatusFlag::Cancel(CancelType::Specific(ids)) =>
                ids@ == seq![ActionId::Ronin(RoninAction::KunaiThrow(SpecialVersion::Metered))],
            _ => false,
        },
        _ => false,
    }
}

/// A kunai throw, for a ronin with a kunai left: it throws on its eleventh frame (see
/// `kunai_release`) and ends after twenty one. The metered version costs a bar of meter;
/// the others open a short window to turn into it.
pub fn kunai_throw(version: SpecialVersion, look: KunaiLook, meter_bar_segment: i32) -> (r: Action)
    requires
        meter_bar_segment != i32::MIN,
    ensures
        !r.transient,
        r.input matches Some(s) && s@ == kunai_input(version),
        r.requirement matches ActionRequirement::And(list) && list@ == seq![
            ActionRequirement::ResourceValue(ResourceType::KunaiCounter, 1),
            ActionRequirement::Grounded,
        ] + (if version == SpecialVersion::Metered {
            seq![ActionRequirement::ResourceValue(ResourceType::Meter, meter_bar_segment)]
        } else {
            seq![]
        }) + seq![ActionRequirement::Starter(ActionCategory::Special)],
        version == SpecialVersion::Metered ==> grouped(blob_views(r.script.groups@), seq![
            anim_blob(look.throw),
            (Timing::OnFrame(0), seq![ActionEvent::Sound(look.shout)]),
        ] + closing_blobs(true, false, false, Some(SimpleState::Stand), 21, meter_bar_segment)),
        version != SpecialVersion::Metered ==> exists|k: ActionEvent| is_kara_to_metered_kunai(k, look.kara_frames)
            && grouped(blob_views(r.script.groups@), seq![
                anim_blob(look.throw),
                (Timing::OnFrame(0), seq![ActionEvent::Sound(look.shout)]),
                (Timing::OnFrame(0), seq![k]),
            ] + closing_blobs(false, false, false, Some(SimpleState::Stand), 21, meter_bar_segment)),
{
    let input = match version {
        SpecialVersion::Fast => "{2}*6f",
        SpecialVersion::Strong => "{2}*6s",
        SpecialVersion::Metered => "{2}*6(fs)",
    };
    proof {
        reveal_strlit("{2}*6f");
        reveal_strlit("{2}*6s");
        reveal_strlit("{2}*6(fs)");
    }
    let b = ActionBuilder::special()
        .with_input(input)
        .with_animation(look.throw)
        .with_sound(look.shout)
        .with_requirement(ActionRequirement::ResourceValue(ResourceType::KunaiCounter, 1))
        .end_at(21);
    match version {
        SpecialVersion::Metered => {
            let b = b.with_meter_cost();
            proof {
                assert(blob_views(b.blobs@) =~= seq![anim_blob(look.throw), (Timing::OnFrame(0), seq![ActionEvent::Sound(look.shout)])]);
                assert(b.requirement_list(meter_bar_segment) =~= seq![
                    ActionRequirement::ResourceValue(ResourceType::KunaiCounter, 1),
                    ActionRequirement::Grounded,
                    ActionRequirement::ResourceValue(ResourceType::Meter, meter_bar_segment),
                    ActionRequirement::Starter(ActionCategory::Special)]);
            }
            b.build(meter_bar_segment)
        },
        _ => {
            let to = vec![ActionId::Ronin(RoninAction::KunaiThrow(SpecialVersion::Metered))];
            assert(to@ =~= seq![ActionId::Ronin(RoninAction::KunaiThrow(SpecialVersion::Metered))]);
            let kara = ActionEvent::Condition(StatusCondition {
                flag: StatusFlag::Cancel(CancelType::Specific(to)),
                expiration: Some(look.kara_frames),
            });
            let ghost k = kara;
            let events = vec![kara];
            assert(events@ =~= seq![k]);
            let b = b.static_immediate_events(events);
            proof {
                assert(is_kara_to_metered_kunai(k, look.kara_frames));
                assert(blob_views(b.blobs@) =~= seq![anim_blob(look.throw),
                    (Timing::OnFrame(0), seq![ActionEvent::Sound(look.shout)]), (Timing::OnFrame(0), seq![k])]);
                assert(b.requirement_list(meter_bar_segment) =~= seq![
                    ActionRequirement::ResourceValue(ResourceType::KunaiCounter, 1),
                    ActionRequirement::Grounded,
                    ActionRequirement::Starter(ActionCategory::Special)]);
            }
            let r = b.build(meter_bar_segment);
            assert(grouped(blob_views(r.script.groups@), seq![
                anim_blob(look.throw),
                (Timing::OnFrame(0), seq![ActionEvent::Sound(look.shout)]),
                (Timing::OnFrame(0), seq![k]),
            ] + closing_blobs(false, false, false, Some(SimpleState::Stand), 21, meter_bar_segment)));
            r
        },
    }
}

/// The kunai a throw lets fly: how it strikes and the recovery its stuns are counted
/// against, what it adds on a clean hit, how many times it can hit, and whether the stick
/// steers it.
#[derive(Debug)]
pub struct KunaiShot {
    pub strike: StrikeProfile,
    pub recovery: i32,
    pub on_hit: Vec<ActionEvent>,
    pub hits: usize,
    pub steered: bool,
}

/// The strike of a kunai: a mid that deals twelve, chips two and holds a blocking
/// opponent fifteen frames, twenty with the mini tasers.
pub open spec fn kunai_strike(tasers: bool) -> StrikeProfile {
    StrikeProfile {
        block_stun: Stun::Absolute(if tasers { 20 } else { 15 }),
        block_height: AttackHeight::Mid,
        chip_damage: 2,
        hit_stun: HitStun::Stun(Stun::Absolute(0)),
        base_damage: 12,
        sharpness_scaling: 0,
        cancel: Some((CancelType::Special, None)),
    }
}

/// What the kunai throw of a version does on its eleventh frame: it spends a kunai and
/// lets one fly. The kunai drops a pickup where it hits; with the mini tasers it also
/// stuns for thirty frames and shows lightning; the protractor lets the stick steer it;
/// the strong and metered kunai can hit twice.
pub fn kunai_release(version: SpecialVersion, inventory: &Inventory, look: KunaiLook) -> (r: (Vec<ActionEvent>, KunaiShot))
    ensures
        r.0@ == seq![ActionEvent::ModifyResource(ResourceType::KunaiCounter, -1i32)],
        r.1.strike == kunai_strike(count_in(inventory.counts(), ItemId::MiniTasers) > 0),
        r.1.recovery == 10,
        r.1.on_hit@ == seq![ActionEvent::SpawnPickup(look.pickup)] + (if count_in(inventory.counts(), ItemId::MiniTasers) > 0 {
            seq![ActionEvent::HitStun(30), ActionEvent::RelativeVisualEffect(look.lightning)]
        } else {
            seq![]
        }),
        r.1.hits == (if version == SpecialVersion::Fast { 1usize } else { 2usize }),
        r.1.steered == (count_in(inventory.counts(), ItemId::Protractor) > 0),
{
    let tasers = inventory.contains(ItemId::MiniTasers);
    let spend = vec![ActionEvent::ModifyResource(ResourceType::KunaiCounter, -1)];
    assert(spend@ =~= seq![ActionEvent::ModifyResource(ResourceType::KunaiCounter, -1i32)]);
    let mut on_hit = vec![ActionEvent::SpawnPickup(look.pickup)];
    if tasers {
        on_hit.push(ActionEvent::HitStun(30));
        on_hit.push(ActionEvent::RelativeVisualEffect(look.lightning));
    }
    assert(on_hit@ =~= seq![ActionEvent::SpawnPickup(look.pickup)] + (if tasers {
        seq![ActionEvent::HitStun(30), ActionEvent::RelativeVisualEffect(look.lightning)]
    } else {
        seq![]
    }));
    let strike = StrikeProfile {
        block_stun: Stun::Absolute(if tasers { 20 } else { 15 }),
        block_height: AttackHeight::Mid,
        chip_damage: 2,
        hit_stun: HitStun::Stun(Stun::Absolute(0)),
        base_damage: 12,
        sharpness_scaling: 0,
        cancel: Some((CancelType::Special, None)),
    };
    let hits: usize = match version { SpecialVersion::Fast => 1, _ => 2 };
    (spend, KunaiShot { strike, recovery: 10, on_hit, hits, steered: inventory.contains(ItemId::Protractor) })
}

/// `b` is one of the buttons the stance's input of version `v` ends in.
pub open spec fn in_stance_input(v: SpecialVersion, b: GameButton) -> bool {
    stance_input(v).contains(button_notation(b)[0])
}

/// Law: the stance is held by exactly the buttons of its own input. While the gimmick
/// button is not held, releasing the stance of any version leads somewhere exactly when no
/// button named in that version's input (`sword_stance`) is held, whatever the stick, the
/// facing and the items; with the gimmick button held it always turns into the sharpen.
pub proof fn law_stance_held_by_its_own_buttons(v: SpecialVersion, held: Set<GameButton>, stick: StickPosition,
    facing_right: bool, has_fireaxe: bool)
    ensures
        held.contains(GameButton::Gimmick) ==>
            stance_follow_up(v, held, stick, facing_right, has_fireaxe) == Some(RoninAction::Sharpen(v)),
        !held.contains(GameButton::Gimmick) ==> (stance_follow_up(v, held, stick, facing_right, has_fireaxe) is None
            <==> exists|b: GameButton| held.contains(b) && #[trigger] in_stance_input(v, b)),
{
    reveal_strlit("{2}*4f");
    reveal_strlit("{2}*4s");
    reveal_strlit("{2}*4(fs)");
    let s = stance_input(v);
    assert forall|b: GameButton| #[trigger] in_stance_input(v, b) <==> stance_buttons(v).contains(b) by {
        let ch = button_notation(b)[0];
        match v {
            SpecialVersion::Fast => {
                assert(s =~= seq!['{', '2', '}', '*', '4', 'f']);
                if b == GameButton::Fast { assert(s[5] == ch); assert(stance_buttons(v)[0] == b); }
            },
            SpecialVersion::Strong => {
                assert(s =~= seq!['{', '2', '}', '*', '4', 's']);
                if b == GameButton::Strong { assert(s[5] == ch); assert(stance_buttons(v)[0] == b); }
            },
            SpecialVersion::Metered => {
                assert(s =~= seq!['{', '2', '}', '*', '4', '(', 'f', 's', ')']);
                if b == GameButton::Fast { assert(s[6] == ch); assert(stance_buttons(v)[0] == b); }
                if b == GameButton::Strong { assert(s[7] == ch); assert(stance_buttons(v)[1] == b); }
            },
        }
    }
    if !held.contains(GameButton::Gimmick) {
        let bs = stance_buttons(v);
        if exists|i: int| 0 <= i < bs.len() && held.contains(#[trigger] bs[i]) {
            let i = choose|i: int| 0 <= i < bs.len() && held.contains(#[trigger] bs[i]);
            assert(bs.contains(bs[i]));
            assert(in_stance_input(v, bs[i]));
        }
        if exists|b: GameButton| held.contains(b) && #[trigger] in_stance_input(v, b) {
            let b = choose|b: GameButton| held.contains(b) && #[trigger] in_stance_input(v, b);
            assert(bs.contains(b));
            let i = choose|i: int| 0 <= i < bs.len() && bs[i] == b;
            assert(held.contains(bs[i]));
        }
    }
}

/// The stick position mirrored left to right.
pub open spec fn mirrored(s: StickPosition) -> StickPosition {
    match s {
        StickPosition::SW => StickPosition::SE,
        StickPosition::SE => StickPosition::SW,
        StickPosition::W => StickPosition::E,
        StickPosition::E => StickPosition::W,
        StickPosition::NW => StickPosition::NE,
        StickPosition::NE => StickPosition::NW,
        other => other,
    }
}

/// The follow-ups a stance of version `v` can turn into: its own version of each.
pub open spec fn follow_up_of_version(a: RoninAction, v: SpecialVersion) -> bool {
    a == RoninAction::Sharpen(v) || a == RoninAction::ViperStrike(v) || a == RoninAction::RisingSun(v)
        || a == RoninAction::SwordSlam(v) || a == RoninAction::StanceCancel(v)
}

/// Law: what a released stance turns into depends on the stick only relative to where
/// the ronin faces (mirroring both changes nothing); it is always a follow-up of the
/// stance's own version; holding the stick down gives the viper strike whatever the
/// facing; the sword slam needs the fire axe, and with the stick held back the rising sun
/// comes out with or without it.
pub proof fn law_stance_follow_up_shape(v: SpecialVersion, held: Set<GameButton>, stick: StickPosition,
    facing_right: bool, has_fireaxe: bool)
    ensures
        stance_follow_up(v, held, mirrored(stick), !facing_right, has_fireaxe)
            == stance_follow_up(v, held, stick, facing_right, has_fireaxe),
        stance_follow_up(v, held, stick, facing_right, has_fireaxe) matches Some(a) ==> follow_up_of_version(a, v),
        (stick == StickPosition::SW || stick == StickPosition::S || stick == StickPosition::SE)
            && stance_follow_up(v, held, stick, facing_right, has_fireaxe) is Some
            && !held.contains(GameButton::Gimmick)
            ==> stance_follow_up(v, held, stick, facing_right, has_fireaxe) == Some(RoninAction::ViperStrike(v)),
        !has_fireaxe ==> stance_follow_up(v, held, stick, facing_right, has_fireaxe) != Some(RoninAction::SwordSlam(v)),
        stance_follow_up(v, held, stick, facing_right, false) == Some(RoninAction::RisingSun(v))
            ==> stance_follow_up(v, held, stick, facing_right, true) == Some(RoninAction::RisingSun(v)),
{
}

} // verus!
