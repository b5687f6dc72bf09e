//! Dashes: the plain dash and the metered dash that track spikes allow.
use vstd::prelude::*;
use crate::ids::{ActionCategory, ActionId, ItemId, SimpleState, StatusCondition, StatusFlag};
use crate::builders::{ActionBuilder, Input};
use crate::events::ActionEvent;
use crate::requirements::{ActionRequirement, all_hold_from, lemma_all_hold_from};
use crate::ids::CancelType;
use crate::items::count_in;
use crate::situation::Situation;
use crate::resources::{ResourceType, Stats};
use crate::script::{Action, BlobView, Timing, blob_views};

verus! {

/// A dash being described: its direction, its movement phases and its length. Each
/// phase is the frame it starts on and whether its movement goes up; the movement
/// itself is kept beside the builder.
#[derive(Debug)]
pub struct DashBuilder {
    pub backdash: bool,
    pub phases: Vec<(usize, bool)>,
    pub total_duration: usize,
}

/// The events a phase starts with: a phase that goes up puts the character in the air.
pub open spec fn phase_blobs(phases: Seq<(usize, bool)>) -> Seq<BlobView> {
    phases.map_values(|p: (usize, bool)| (Timing::OnFrame(p.0), if p.1 { seq![ActionEvent::ForceAir] } else { seq![] }))
}

/// The dash input: back, neutral, back for a backdash; forward, neutral, forward otherwise.
pub open spec fn dash_notation(backdash: bool) -> Seq<char> {
    if backdash { seq!['4', '5', '4'] } else { seq!['6', '5', '6'] }
}

/// The actions a dash must not interrupt to spend meter on a dash.
pub open spec fn dash_ids() -> Seq<ActionId> {
    seq![ActionId::DashForward, ActionId::DashBack, ActionId::TrackSpikesDashForward, ActionId::TrackSpikesDashBack]
}

/// The events a backdash starts with: intangibility for as many frames as the
/// character's statistics grant, if any.
pub open spec fn backdash_start(stats: Stats) -> Seq<ActionEvent> {
    if stats.backdash_invuln > 0 {
        seq![ActionEvent::Condition(StatusCondition {
            flag: StatusFlag::Intangible,
            expiration: Some(stats.backdash_invuln as usize),
        })]
    } else {
        seq![]
    }
}

impl DashBuilder {
    pub fn forward() -> (r: Self)
        ensures
            !r.backdash,
            r.phases@.len() == 0,
            r.total_duration == 0,
    {
        DashBuilder { backdash: false, phases: Vec::new(), total_duration: 0 }
    }

    pub fn back() -> (r: Self)
        ensures
            r.backdash,
            r.phases@.len() == 0,
            r.total_duration == 0,
    {
        DashBuilder { backdash: true, phases: Vec::new(), total_duration: 0 }
    }

    /// Adds a movement phase starting on the given frame.
    pub fn on_frame(self, frame: usize, goes_up: bool) -> (r: Self)
        ensures
            r.backdash == self.backdash,
            r.phases@ == self.phases@.push((frame, goes_up)),
            r.total_duration == self.total_duration,
    {
        let mut b = self;
        b.phases.push((frame, goes_up));
        b
    }

    pub fn end_at(self, frame: usize) -> (r: Self)
        ensures
            r == (DashBuilder { total_duration: frame, ..self }),
    {
        DashBuilder { total_duration: frame, ..self }
    }

    /// The builder of the dash: a plain dash, or a metered dash that needs track spikes,
    /// another action going on, and no dash going on.
    pub fn dash(&self, metered: bool) -> (r: ActionBuilder)
        requires
            self.total_duration != 0,
        ensures
            r.input matches Some(Input::Motion(m)) && m@ == dash_notation(self.backdash),
            !r.transient,
            r.state == Some(SimpleState::Stand),
            r.category == (if metered { ActionCategory::MegaInterrupt } else { ActionCategory::Dash }),
            !r.needs_charge,
            r.needs_meter == metered,
            !metered ==> r.extra_requirements@.len() == 0,
            metered ==> r.extra_requirements@.len() == 3
                && r.extra_requirements@[0] == ActionRequirement::ItemOwned(ItemId::TrackSpikes)
                && r.extra_requirements@[1] == ActionRequirement::AnyActionOngoing
                && (r.extra_requirements@[2] matches ActionRequirement::ActionNotOngoing(ids) && ids@ == dash_ids()),
            r.follows_up_from is None,
            r.total_duration == self.total_duration,
            blob_views(r.blobs@) == phase_blobs(self.phases@),
    {
        let base = if metered {
            let dashes = vec![
                ActionId::DashForward,
                ActionId::DashBack,
                ActionId::TrackSpikesDashForward,
                ActionId::TrackSpikesDashBack,
            ];
            assert(dashes@ =~= dash_ids());
            ActionBuilder::for_category(ActionCategory::MegaInterrupt)
                .with_meter_cost()
                .with_requirement(ActionRequirement::ItemOwned(ItemId::TrackSpikes))
                .with_requirement(ActionRequirement::AnyActionOngoing)
                .with_requirement(ActionRequirement::ActionNotOngoing(dashes))
        } else {
            ActionBuilder::for_category(ActionCategory::Dash)
        };
        let input = if self.backdash {
            proof { reveal_strlit("454"); }
            "454"
        } else {
            proof { reveal_strlit("656"); }
            "656"
        };
        let mut builder = base.with_input(input).end_at(self.total_duration);
        proof {
            assert(blob_views(builder.blobs@) =~= phase_blobs(self.phases@.subrange(0, 0)));
        }
        let mut i: usize = 0;
        while i < self.phases.len()
            invariant
                i <= self.phases@.len(),
                builder.input matches Some(Input::Motion(m)) && m@ == dash_notation(self.backdash),
                !builder.transient,
                builder.state == Some(SimpleState::Stand),
                builder.category == (if metered { ActionCategory::MegaInterrupt } else { ActionCategory::Dash }),
                !builder.needs_charge,
                builder.needs_meter == metered,
                !metered ==> builder.extra_requirements@.len() == 0,
                metered ==> builder.extra_requirements@.len() == 3
                    && builder.extra_requirements@[0] == ActionRequirement::ItemOwned(ItemId::TrackSpikes)
                    && builder.extra_requirements@[1] == ActionRequirement::AnyActionOngoing
                    && (builder.extra_requirements@[2] matches ActionRequirement::ActionNotOngoing(ids) && ids@ == dash_ids()),
                builder.follows_up_from is None,
                builder.total_duration == self.total_duration,
                blob_views(builder.blobs@) == phase_blobs(self.phases@.subrange(0, i as int)),
            decreases self.phases@.len() - i,
        {
            let (frame, goes_up) = self.phases[i];
            let events = if goes_up { vec![ActionEvent::ForceAir] } else { Vec::new() };
            assert(events@ =~= (if goes_up { seq![ActionEvent::ForceAir] } else { seq![] }));
            builder = builder.static_events_on_frame(frame, events);
            proof {
                assert(phase_blobs(self.phases@.subrange(0, i + 1)) =~= phase_blobs(self.phases@.subrange(0, i as int))
                    .push((Timing::OnFrame(frame), if goes_up { seq![ActionEvent::ForceAir] } else { seq![] })));
            }
            i = i + 1;
        }
        proof {
            assert(self.phases@.subrange(0, self.phases@.len() as int) =~= self.phases@);
        }
        builder
    }

    /// The plain dash and the metered dash, each under its identifier.
    pub fn build(self, meter_bar_segment: i32) -> (r: Vec<(ActionId, Action)>)
        requires
            self.phases@.len() > 0,
            self.total_duration != 0,
            meter_bar_segment != i32::MIN,
        ensures
            r@.len() == 2,
            r@[0].0 == (if self.backdash { ActionId::DashBack } else { ActionId::DashForward }),
            r@[1].0 == (if self.backdash { ActionId::TrackSpikesDashBack } else { ActionId::TrackSpikesDashForward }),
            r@[0].1.requirement matches ActionRequirement::And(list)
                && list@ == seq![ActionRequirement::Grounded, ActionRequirement::Starter(ActionCategory::Dash)],
            r@[1].1.requirement matches ActionRequirement::And(list) && list@.len() == 6
                && list@[0] == ActionRequirement::ItemOwned(ItemId::TrackSpikes)
                && list@[1] == ActionRequirement::AnyActionOngoing
                && (list@[2] matches ActionRequirement::ActionNotOngoing(ids) && ids@ == dash_ids())
                && list@[3] == ActionRequirement::Grounded
                && list@[4] == ActionRequirement::ResourceValue(ResourceType::Meter, meter_bar_segment)
                && list@[5] == ActionRequirement::Starter(ActionCategory::MegaInterrupt),
            r@[0].1.input matches Some(s) && s@ == dash_notation(self.backdash),
            r@[1].1.input matches Some(s) && s@ == dash_notation(self.backdash),
            !r@[0].1.transient && !r@[1].1.transient,
    {
        let (basic, metered) = if self.backdash {
            (ActionId::DashBack, ActionId::TrackSpikesDashBack)
        } else {
            (ActionId::DashForward, ActionId::TrackSpikesDashForward)
        };
        let plain = self.dash(false).build(meter_bar_segment);
        let spiked = self.dash(true).build(meter_bar_segment);
        vec![(basic, plain), (metered, spiked)]
    }
}

/// The events a backdash starts with, from the character's statistics.
pub fn backdash_events(stats: &Stats) -> (r: Vec<ActionEvent>)
    ensures
        r@ == backdash_start(*stats),
{
    if stats.backdash_invuln > 0 {
        let r = vec![ActionEvent::Condition(StatusCondition {
            flag: StatusFlag::Intangible,
            expiration: Some(stats.backdash_invuln as usize),
        })];
        assert(r@ =~= backdash_start(*stats));
        r
    } else {
        Vec::new()
    }
}

/// Law: the metered dash, whose requirements `DashBuilder::build` lists, can only start
/// with track spikes, during another action, and not during a dash: track spikes cannot
/// be used from neutral, nor to spend meter on a dash right after a dash.
pub proof fn law_metered_dash_needs_an_ongoing_action(
    list: Seq<ActionRequirement>,
    self_id: ActionId,
    windows: Seq<CancelType>,
    sit: Situation,
)
    requires
        list.len() == 6,
        list[0] == ActionRequirement::ItemOwned(ItemId::TrackSpikes),
        list[1] == ActionRequirement::AnyActionOngoing,
        list[2] matches ActionRequirement::ActionNotOngoing(ids) && ids@ == dash_ids(),
        all_hold_from(list, 0, self_id, windows, sit),
    ensures
        count_in(sit.inventory.counts(), ItemId::TrackSpikes) > 0,
        sit.tracker is Some,
        !dash_ids().contains(sit.tracker.unwrap().action_id),
{
    lemma_all_hold_from(list, 0, self_id, windows, sit);
    assert(list[0].holds(self_id, windows, sit));
    assert(list[1].holds(self_id, windows, sit));
    assert(list[2].holds(self_id, windows, sit));
}

} // verus!
