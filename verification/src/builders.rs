//! Describing an action: its input, stance, costs and requirements.
use vstd::prelude::*;
use vstd::string::StringExecFns;
use crate::ids::{ActionCategory, ActionId, GameButton, SimpleState};
use crate::requirements::ActionRequirement;
use crate::resources::ResourceType;
use crate::events::{ActionEvent, FlashKind};
use crate::script::{Action, ActionClock, BlobView, EventBlob, Script, Timing, blob_views, grouped, has_timing, fired_events, clock_after_frame, events_with_timing, lemma_events_with_timing_includes, lemma_fired_includes};
use crate::ids::CancelType;
use crate::situation::Situation;
use crate::requirements::{all_hold_from, starter_holds, lemma_all_hold_from};

verus! {

/// The text of a button in the input notation.
pub open spec fn button_notation(b: GameButton) -> Seq<char> {
    match b {
        GameButton::Fast => seq!['f'],
        GameButton::Strong => seq!['s'],
        GameButton::Wrestling => seq!['w'],
        GameButton::Gimmick => seq!['g'],
        GameButton::Equipment => seq!['e'],
    }
}

/// The notation prefix that asks for the stick to be held down.
pub open spec fn crouch_prefix() -> Seq<char> {
    seq!['{', '1', '2', '3', '}']
}

impl GameButton {
    /// The button in the input notation.
    pub fn to_dsl(&self) -> (r: String)
        ensures
            r@ == button_notation(*self),
    {
        match self {
            GameButton::Fast => {
                proof { reveal_strlit("f"); }
                "f".to_owned()
            },
            GameButton::Strong => {
                proof { reveal_strlit("s"); }
                "s".to_owned()
            },
            GameButton::Wrestling => {
                proof { reveal_strlit("w"); }
                "w".to_owned()
            },
            GameButton::Gimmick => {
                proof { reveal_strlit("g"); }
                "g".to_owned()
            },
            GameButton::Equipment => {
                proof { reveal_strlit("e"); }
                "e".to_owned()
            },
        }
    }
}

/// How an action is input: a single button or a motion in the input notation.
#[derive(Debug, Clone)]
pub enum Input {
    Button(GameButton),
    Motion(String),
}

impl Input {
    /// The input in notation; a crouching button press asks for the stick held down.
    pub open spec fn notation(&self, crouching: bool) -> Seq<char> {
        match self {
            Input::Button(b) => if crouching {
                crouch_prefix() + button_notation(*b)
            } else {
                button_notation(*b)
            },
            Input::Motion(s) => s@,
        }
    }

    pub fn to_dsl(&self, crouching: bool) -> (r: String)
        ensures
            r@ == self.notation(crouching),
    {
        match self {
            Input::Button(game_button) => {
                let b = game_button.to_dsl();
                if crouching {
                    proof { reveal_strlit("{123}"); }
                    let j = String::from_str("{123}").concat(b.as_str());
                    assert(j@ =~= crouch_prefix() + button_notation(*game_button));
                    j
                } else {
                    b
                }
            },
            Input::Motion(dsl) => dsl.clone(),
        }
    }
}

/// The plain description of an action that the events of its script are added to.
#[derive(Debug)]
pub struct ActionBuilder {
    pub input: Option<Input>,
    pub transient: bool,
    pub state: Option<SimpleState>,
    pub category: ActionCategory,
    pub needs_charge: bool,
    pub needs_meter: bool,
    pub extra_requirements: Vec<ActionRequirement>,
    pub follows_up_from: Option<Vec<ActionId>>,
    pub total_duration: usize,
    pub blobs: Vec<EventBlob>,
}

/// The requirement the stance asks for, if any.
pub open spec fn state_requirement(state: Option<SimpleState>) -> Seq<ActionRequirement> {
    match state {
        Some(SimpleState::Air) => seq![ActionRequirement::Airborne],
        Some(_) => seq![ActionRequirement::Grounded],
        None => seq![],
    }
}

impl ActionBuilder {
    /// A standing action of the category, with no input, costs, requirements or duration yet.
    pub open spec fn is_fresh(&self, category: ActionCategory) -> bool {
        &&& self.input is None
        &&& !self.transient
        &&& self.state == Some(SimpleState::Stand)
        &&& self.category == category
        &&& !self.needs_charge
        &&& !self.needs_meter
        &&& self.extra_requirements@.len() == 0
        &&& self.follows_up_from is None
        &&& self.total_duration == 0
        &&& self.blobs@.len() == 0
    }

    pub fn for_category(category: ActionCategory) -> (r: Self)
        ensures
            r.is_fresh(category),
    {
        ActionBuilder {
            input: None,
            transient: false,
            state: Some(SimpleState::Stand),
            category,
            needs_charge: false,
            needs_meter: false,
            extra_requirements: Vec::new(),
            follows_up_from: None,
            total_duration: 0,
            blobs: Vec::new(),
        }
    }

    pub fn special() -> (r: Self)
        ensures
            r.is_fresh(ActionCategory::Special),
    {
        Self::for_category(ActionCategory::Special)
    }

    pub fn normal() -> (r: Self)
        ensures
            r.is_fresh(ActionCategory::Normal),
    {
        Self::for_category(ActionCategory::Normal)
    }

    /// A standing normal started by a single button.
    pub fn button(btn: GameButton) -> (r: Self)
        ensures
            r.input == Some(Input::Button(btn)),
            !r.transient,
            r.state == Some(SimpleState::Stand),
            r.category == ActionCategory::Normal,
            !r.needs_charge,
            !r.needs_meter,
            r.extra_requirements@.len() == 0,
            r.follows_up_from is None,
            r.total_duration == 0,
            r.blobs@.len() == 0,
    {
        ActionBuilder { input: Some(Input::Button(btn)), ..Self::normal() }
    }

    /// Marks the action as one that never ends by itself and stays out of stance changes.
    pub fn make_transient(self) -> (r: Self)
        requires
            self.total_duration == 0,
        ensures
            r == (ActionBuilder { transient: true, ..self }),
    {
        ActionBuilder { transient: true, ..self }
    }

    pub fn follow_up_from(self, actions: Vec<ActionId>) -> (r: Self)
        ensures
            r == (ActionBuilder { follows_up_from: Some(actions), ..self }),
    {
        ActionBuilder { follows_up_from: Some(actions), ..self }
    }

    pub fn with_input(self, input: &str) -> (r: Self)
        ensures
            r.input matches Some(Input::Motion(m)) && m@ == input@,
            same_but_input(r, self),
    {
        ActionBuilder { input: Some(Input::Motion(input.to_owned())), ..self }
    }

    pub fn with_meter_cost(self) -> (r: Self)
        ensures
            r == (ActionBuilder { needs_meter: true, ..self }),
    {
        ActionBuilder { needs_meter: true, ..self }
    }

    pub fn with_charge(self) -> (r: Self)
        ensures
            r == (ActionBuilder { needs_charge: true, ..self }),
    {
        ActionBuilder { needs_charge: true, ..self }
    }

    pub fn crouching(self) -> (r: Self)
        ensures
            r == (ActionBuilder { state: Some(SimpleState::Crouch), ..self }),
    {
        ActionBuilder { state: Some(SimpleState::Crouch), ..self }
    }

    pub fn air_only(self) -> (r: Self)
        ensures
            r == (ActionBuilder { state: Some(SimpleState::Air), ..self }),
    {
        ActionBuilder { state: Some(SimpleState::Air), ..self }
    }

    pub fn air_or_ground(self) -> (r: Self)
        ensures
            r == (ActionBuilder { state: None, ..self }),
    {
        ActionBuilder { state: None, ..self }
    }

    /// Makes the action end after the given frame.
    pub fn end_at(self, frame: usize) -> (r: Self)
        requires
            !self.transient,
        ensures
            r == (ActionBuilder { total_duration: frame, ..self }),
    {
        ActionBuilder { total_duration: frame, ..self }
    }

    pub fn with_requirement(self, extra_requirement: ActionRequirement) -> (r: Self)
        ensures
            r.extra_requirements@ == self.extra_requirements@.push(extra_requirement),
            same_but_requirements(r, self),
    {
        let mut b = self;
        b.extra_requirements.push(extra_requirement);
        b
    }

    /// The input notation, if the action has an input.
    pub fn build_input(&self) -> (r: Option<String>)
        ensures
            self.input is None ==> r is None,
            self.input matches Some(i) ==> r matches Some(s)
                && s@ == i.notation(self.state == Some(SimpleState::Crouch)),
    {
        match &self.input {
            Some(input) => Some(input.to_dsl(self.state == Some(SimpleState::Crouch))),
            None => None,
        }
    }

    /// The requirements an action built from this builder has, in order: the extra ones,
    /// the stance, a meter bar, a full charge, the action followed up from, and the right
    /// to start at all.
    pub open spec fn requirement_list(self, meter_bar_segment: i32) -> Seq<ActionRequirement> {
        self.extra_requirements@
            + state_requirement(self.state)
            + (if self.needs_meter {
                seq![ActionRequirement::ResourceValue(ResourceType::Meter, meter_bar_segment)]
            } else {
                seq![]
            })
            + (if self.needs_charge {
                seq![ActionRequirement::ResourceFull(ResourceType::Charge)]
            } else {
                seq![]
            })
            + (match self.follows_up_from {
                Some(ids) => seq![ActionRequirement::ActionOngoing(ids)],
                None => seq![],
            })
            + seq![ActionRequirement::Starter(self.category)]
    }

    /// All requirements of the action, joined: the extra ones, the stance, a meter bar,
    /// a full charge, the action followed up from, and the right to start at all.
    pub fn build_requirements(self, meter_bar_segment: i32) -> (r: ActionRequirement)
        ensures
            r matches ActionRequirement::And(list) && list@ == self.requirement_list(meter_bar_segment),
    {
        let ghost b = self;
        let mut temp = self.extra_requirements;
        let ghost t0 = temp@;
        match self.state {
            Some(SimpleState::Air) => temp.push(ActionRequirement::Airborne),
            Some(_) => temp.push(ActionRequirement::Grounded),
            None => {},
        }
        let ghost t1 = temp@;
        assert(t1 =~= t0 + state_requirement(b.state));
        if self.needs_meter {
            temp.push(ActionRequirement::ResourceValue(ResourceType::Meter, meter_bar_segment));
        }
        let ghost t2 = temp@;
        if self.needs_charge {
            temp.push(ActionRequirement::ResourceFull(ResourceType::Charge));
        }
        let ghost t3 = temp@;
        match self.follows_up_from {
            Some(ongoing) => temp.push(ActionRequirement::ActionOngoing(ongoing)),
            None => {},
        }
        let ghost t4 = temp@;
        temp.push(ActionRequirement::Starter(self.category));
        let r = ActionRequirement::And(temp);
        proof {
            assert(temp@ =~= b.extra_requirements@
                + state_requirement(b.state)
                + (if b.needs_meter {
                    seq![ActionRequirement::ResourceValue(ResourceType::Meter, meter_bar_segment)]
                } else {
                    seq![]
                })
                + (if b.needs_charge {
                    seq![ActionRequirement::ResourceFull(ResourceType::Charge)]
                } else {
                    seq![]
                })
                + (match b.follows_up_from {
                    Some(ids) => seq![ActionRequirement::ActionOngoing(ids)],
                    None => seq![],
                })
                + seq![ActionRequirement::Starter(b.category)]);
        }
        r
    }
}

/// The builders are the same apart from their input.
pub open spec fn same_but_input(a: ActionBuilder, b: ActionBuilder) -> bool {
    &&& a.transient == b.transient
    &&& a.state == b.state
    &&& a.category == b.category
    &&& a.needs_charge == b.needs_charge
    &&& a.needs_meter == b.needs_meter
    &&& a.extra_requirements == b.extra_requirements
    &&& a.follows_up_from == b.follows_up_from
    &&& a.total_duration == b.total_duration
    &&& a.blobs == b.blobs
}

/// The builders are the same apart from their extra requirements.
pub open spec fn same_but_requirements(a: ActionBuilder, b: ActionBuilder) -> bool {
    &&& a.input == b.input
    &&& a.transient == b.transient
    &&& a.state == b.state
    &&& a.category == b.category
    &&& a.needs_charge == b.needs_charge
    &&& a.needs_meter == b.needs_meter
    &&& a.follows_up_from == b.follows_up_from
    &&& a.total_duration == b.total_duration
    &&& a.blobs == b.blobs
}

/// The builders are the same apart from their groups of events.
pub open spec fn same_but_blobs(a: ActionBuilder, b: ActionBuilder) -> bool {
    &&& a.input == b.input
    &&& a.transient == b.transient
    &&& a.state == b.state
    &&& a.category == b.category
    &&& a.needs_charge == b.needs_charge
    &&& a.needs_meter == b.needs_meter
    &&& a.extra_requirements == b.extra_requirements
    &&& a.follows_up_from == b.follows_up_from
    &&& a.total_duration == b.total_duration
}

/// The groups of events a script adds after the builder's own: paying for a meter bar,
/// spending the charge, taking the stance, and ending after the last frame.
pub open spec fn closing_blobs(
    needs_meter: bool,
    needs_charge: bool,
    transient: bool,
    state: Option<SimpleState>,
    total_duration: usize,
    meter_bar_segment: i32,
) -> Seq<BlobView> {
    (if needs_meter {
        seq![(Timing::OnFrame(0), seq![
            ActionEvent::ModifyResource(ResourceType::Meter, (-meter_bar_segment) as i32),
            ActionEvent::Flash(FlashKind::MeterUse),
        ])]
    } else {
        seq![]
    }) + (if needs_charge {
        seq![(Timing::OnFrame(0), seq![ActionEvent::ClearResource(ResourceType::Charge)])]
    } else {
        seq![]
    }) + (if !transient {
        match state {
            Some(SimpleState::Stand) => seq![(Timing::OnFrame(0), seq![ActionEvent::ForceStand])],
            Some(SimpleState::Crouch) => seq![(Timing::OnFrame(0), seq![ActionEvent::ForceCrouch])],
            _ => seq![],
        }
    } else {
        seq![]
    }) + (if !transient {
        seq![(Timing::After(total_duration), seq![ActionEvent::End])]
    } else {
        seq![]
    })
}

/// Appends the closing groups of a script to the builder's groups.
fn with_closing_blobs(
    blobs: Vec<EventBlob>,
    needs_meter: bool,
    needs_charge: bool,
    transient: bool,
    state: Option<SimpleState>,
    total_duration: usize,
    meter_bar_segment: i32,
) -> (r: Vec<EventBlob>)
    requires
        meter_bar_segment != i32::MIN,
    ensures
        blob_views(r@) == blob_views(blobs@) + closing_blobs(
            needs_meter, needs_charge, transient, state, total_duration, meter_bar_segment),
{
    let ghost start = blob_views(blobs@);
    let mut out = blobs;
    let ghost s0 = blob_views(out@);
    if needs_meter {
        let cost: i32 = -meter_bar_segment;
        out.push(EventBlob {
            timing: Timing::OnFrame(0),
            events: vec![
                ActionEvent::ModifyResource(ResourceType::Meter, cost),
                ActionEvent::Flash(FlashKind::MeterUse),
            ],
        });
    }
    let ghost s1 = blob_views(out@);
    if needs_charge {
        let events = vec![ActionEvent::ClearResource(ResourceType::Charge)];
        assert(events@ =~= seq![ActionEvent::ClearResource(ResourceType::Charge)]);
        out.push(EventBlob { timing: Timing::OnFrame(0), events });
    }
    let ghost s2 = blob_views(out@);
    if !transient {
        match state {
            Some(SimpleState::Stand) => {
                let events = vec![ActionEvent::ForceStand];
                assert(events@ =~= seq![ActionEvent::ForceStand]);
                out.push(EventBlob { timing: Timing::OnFrame(0), events });
            },
            Some(SimpleState::Crouch) => {
                let events = vec![ActionEvent::ForceCrouch];
                assert(events@ =~= seq![ActionEvent::ForceCrouch]);
                out.push(EventBlob { timing: Timing::OnFrame(0), events });
            },
            _ => {},
        }
    }
    let ghost s3 = blob_views(out@);
    if !transient {
        let events = vec![ActionEvent::End];
        assert(events@ =~= seq![ActionEvent::End]);
        out.push(EventBlob { timing: Timing::After(total_duration), events });
    }
    proof {
        let meter_part: Seq<BlobView> = if needs_meter {
            seq![(Timing::OnFrame(0), seq![
                ActionEvent::ModifyResource(ResourceType::Meter, (-meter_bar_segment) as i32),
                ActionEvent::Flash(FlashKind::MeterUse),
            ])]
        } else {
            seq![]
        };
        assert(s1 =~= s0 + meter_part);
        let charge_part: Seq<BlobView> = if needs_charge {
            seq![(Timing::OnFrame(0), seq![ActionEvent::ClearResource(ResourceType::Charge)])]
        } else {
            seq![]
        };
        assert(s2 =~= s1 + charge_part);
        let stance_part: Seq<BlobView> = if !transient {
            match state {
                Some(SimpleState::Stand) => seq![(Timing::OnFrame(0), seq![ActionEvent::ForceStand])],
                Some(SimpleState::Crouch) => seq![(Timing::OnFrame(0), seq![ActionEvent::ForceCrouch])],
                _ => seq![],
            }
        } else {
            seq![]
        };
        assert(s3 =~= s2 + stance_part);
        let end_part: Seq<BlobView> = if !transient {
            seq![(Timing::After(total_duration), seq![ActionEvent::End])]
        } else {
            seq![]
        };
        assert(blob_views(out@) =~= s3 + end_part);
        assert(blob_views(out@) =~= blob_views(blobs@) + closing_blobs(
            needs_meter, needs_charge, transient, state, total_duration, meter_bar_segment));
    }
    out
}

impl ActionBuilder {
    /// Adds events that fire on the given frame.
    pub fn events_on_frame(self, frame: usize, events: Vec<ActionEvent>) -> (r: Self)
        ensures
            same_but_blobs(r, self),
            blob_views(r.blobs@) == blob_views(self.blobs@).push((Timing::OnFrame(frame), events@)),
    {
        let mut b = self;
        b.blobs.push(EventBlob { timing: Timing::OnFrame(frame), events });
        proof {
            assert(blob_views(b.blobs@) =~= blob_views(self.blobs@).push((Timing::OnFrame(frame), events@)));
        }
        b
    }

    /// Adds events that fire on the first frame.
    pub fn immediate_events(self, events: Vec<ActionEvent>) -> (r: Self)
        ensures
            same_but_blobs(r, self),
            blob_views(r.blobs@) == blob_views(self.blobs@).push((Timing::OnFrame(0), events@)),
    {
        self.events_on_frame(0, events)
    }

    /// Adds events that fire on every frame after the given one.
    pub fn events_after_frame(self, frame: usize, events: Vec<ActionEvent>) -> (r: Self)
        ensures
            same_but_blobs(r, self),
            blob_views(r.blobs@) == blob_views(self.blobs@).push((Timing::After(frame), events@)),
    {
        let mut b = self;
        b.blobs.push(EventBlob { timing: Timing::After(frame), events });
        proof {
            assert(blob_views(b.blobs@) =~= blob_views(self.blobs@).push((Timing::After(frame), events@)));
        }
        b
    }

    /// Adds events that fire on every frame.
    pub fn every_frame(self, events: Vec<ActionEvent>) -> (r: Self)
        ensures
            same_but_blobs(r, self),
            blob_views(r.blobs@) == blob_views(self.blobs@).push((Timing::Always, events@)),
    {
        let mut b = self;
        b.blobs.push(EventBlob { timing: Timing::Always, events });
        proof {
            assert(blob_views(b.blobs@) =~= blob_views(self.blobs@).push((Timing::Always, events@)));
        }
        b
    }

    /// Adds fixed events on the given frame of an action that ends by itself.
    pub fn static_events_on_frame(self, frame: usize, events: Vec<ActionEvent>) -> (r: Self)
        requires
            !self.transient,
        ensures
            same_but_blobs(r, self),
            blob_views(r.blobs@) == blob_views(self.blobs@).push((Timing::OnFrame(frame), events@)),
    {
        self.events_on_frame(frame, events)
    }

    /// Adds fixed events on the first frame of an action that ends by itself.
    pub fn static_immediate_events(self, events: Vec<ActionEvent>) -> (r: Self)
        requires
            !self.transient,
        ensures
            same_but_blobs(r, self),
            blob_views(r.blobs@) == blob_views(self.blobs@).push((Timing::OnFrame(0), events@)),
    {
        self.static_events_on_frame(0, events)
    }

    /// Adds fixed events on every frame after the given one, for an action that ends by itself.
    pub fn static_events_after_frame(self, frame: usize, events: Vec<ActionEvent>) -> (r: Self)
        requires
            !self.transient,
        ensures
            same_but_blobs(r, self),
            blob_views(r.blobs@) == blob_views(self.blobs@).push((Timing::After(frame), events@)),
    {
        self.events_after_frame(frame, events)
    }

    /// The action's script: its own groups of events and the closing ones, joined by timing.
    pub fn build_script(self, meter_bar_segment: i32) -> (r: Script)
        requires
            meter_bar_segment != i32::MIN,
        ensures
            grouped(blob_views(r.groups@), blob_views(self.blobs@) + closing_blobs(
                self.needs_meter, self.needs_charge, self.transient, self.state,
                self.total_duration, meter_bar_segment)),
    {
        let blobs = with_closing_blobs(self.blobs, self.needs_meter, self.needs_charge,
            self.transient, self.state, self.total_duration, meter_bar_segment);
        Script::from_blobs(blobs)
    }

    /// The finished action: its input, its joined requirements and its script.
    pub fn build(self, meter_bar_segment: i32) -> (r: Action)
        requires
            meter_bar_segment != i32::MIN,
        ensures
            r.transient == self.transient,
            self.input is None ==> r.input is None,
            self.input matches Some(i) ==> r.input matches Some(s)
                && s@ == i.notation(self.state == Some(SimpleState::Crouch)),
            r.requirement matches ActionRequirement::And(list) && list@ == self.requirement_list(meter_bar_segment),
            grouped(blob_views(r.script.groups@), blob_views(self.blobs@) + closing_blobs(
                self.needs_meter, self.needs_charge, self.transient, self.state,
                self.total_duration, meter_bar_segment)),
    {
        let input = self.build_input();
        let ActionBuilder {
            input: _,
            transient,
            state,
            category,
            needs_charge,
            needs_meter,
            extra_requirements,
            follows_up_from,
            total_duration,
            blobs,
        } = self;
        let rest = ActionBuilder {
            input: None,
            transient,
            state,
            category,
            needs_charge,
            needs_meter,
            extra_requirements,
            follows_up_from,
            total_duration,
            blobs: Vec::new(),
        };
        let requirement = rest.build_requirements(meter_bar_segment);
        let all = with_closing_blobs(blobs, needs_meter, needs_charge, transient, state,
            total_duration, meter_bar_segment);
        Action { transient, input, requirement, script: Script::from_blobs(all) }
    }
}

/// Law: an action that ends by itself ends: once the action is past its last frame, the
/// events its script sends include the end of the action.
pub proof fn law_built_script_ends(b: ActionBuilder, meter_bar_segment: i32, groups: Seq<BlobView>, clock: ActionClock)
    requires
        !b.transient,
        grouped(groups, blob_views(b.blobs@) + closing_blobs(
            b.needs_meter, b.needs_charge, b.transient, b.state, b.total_duration, meter_bar_segment)),
        clock_after_frame(clock, b.total_duration),
    ensures
        fired_events(groups, clock).contains(ActionEvent::End),
{
    let all = blob_views(b.blobs@) + closing_blobs(
        b.needs_meter, b.needs_charge, b.transient, b.state, b.total_duration, meter_bar_segment);
    let t = Timing::After(b.total_duration);
    let last = all.len() - 1;
    assert(all[last] == (t, seq![ActionEvent::End]));
    assert(all[last].1[0] == ActionEvent::End);
    assert(all[last].1.contains(ActionEvent::End));
    lemma_events_with_timing_includes(all, last, ActionEvent::End);
    assert(has_timing(all, t));
    assert(has_timing(groups, t));
    let q = choose|q: int| 0 <= q < groups.len() && #[trigger] groups[q].0 == t;
    assert(groups[q].1 == events_with_timing(all, t));
    lemma_fired_includes(groups, clock, q, ActionEvent::End);
}

/// Law: an action built by the builder can start only when its category may start in
/// the situation, and only in its stance: in the air for an air action, on the ground
/// for a standing or crouching one.
pub proof fn law_built_requirement_needs_starter(
    b: ActionBuilder,
    meter_bar_segment: i32,
    self_id: ActionId,
    windows: Seq<CancelType>,
    sit: Situation,
)
    requires
        all_hold_from(b.requirement_list(meter_bar_segment), 0, self_id, windows, sit),
    ensures
        starter_holds(b.category, self_id, windows, sit),
        b.state == Some(SimpleState::Air) ==> !sit.grounded,
        b.state == Some(SimpleState::Stand) ==> sit.grounded,
        b.state == Some(SimpleState::Crouch) ==> sit.grounded,
{
    let list = b.requirement_list(meter_bar_segment);
    lemma_all_hold_from(list, 0, self_id, windows, sit);
    let last = list.len() - 1;
    assert(list[last] == ActionRequirement::Starter(b.category));
    assert(list[last].holds(self_id, windows, sit));
    let k = b.extra_requirements@.len() as int;
    if b.state is Some {
        assert(list[k] == state_requirement(b.state)[0]);
        assert(list[k].holds(self_id, windows, sit));
    }
}

impl ActionBuilder {
    /// Plays the animation from the first frame.
    pub fn with_animation(self, animation: u32) -> (r: Self)
        requires
            !self.transient,
        ensures
            same_but_blobs(r, self),
            blob_views(r.blobs@) == blob_views(self.blobs@).push((Timing::OnFrame(0), seq![ActionEvent::Animation(animation)])),
    {
        let events = vec![ActionEvent::Animation(animation)];
        assert(events@ =~= seq![ActionEvent::Animation(animation)]);
        self.static_immediate_events(events)
    }

    /// Plays the sound on the first frame.
    pub fn with_sound(self, sound: u32) -> (r: Self)
        requires
            !self.transient,
        ensures
            same_but_blobs(r, self),
            blob_views(r.blobs@) == blob_views(self.blobs@).push((Timing::OnFrame(0), seq![ActionEvent::Sound(sound)])),
    {
        let events = vec![ActionEvent::Sound(sound)];
        assert(events@ =~= seq![ActionEvent::Sound(sound)]);
        self.static_immediate_events(events)
    }

    /// Shows the visual effect, placed relative to the character, on the given frame.
    pub fn with_vfx_on_frame(self, frame: usize, effect: u32) -> (r: Self)
        requires
            !self.transient,
        ensures
            same_but_blobs(r, self),
            blob_views(r.blobs@) == blob_views(self.blobs@).push((Timing::OnFrame(frame), seq![ActionEvent::RelativeVisualEffect(effect)])),
    {
        let events = vec![ActionEvent::RelativeVisualEffect(effect)];
        assert(events@ =~= seq![ActionEvent::RelativeVisualEffect(effect)]);
        self.events_on_frame(frame, events)
    }

    /// Gives a normal the character's grunt; other actions stay as they are.
    pub fn with_character_universals(self, normal_grunt: u32) -> (r: Self)
        requires
            self.category == ActionCategory::Normal ==> !self.transient,
        ensures
            same_but_blobs(r, self),
            blob_views(r.blobs@) == (if self.category == ActionCategory::Normal {
                blob_views(self.blobs@).push((Timing::OnFrame(0), seq![ActionEvent::Sound(normal_grunt)]))
            } else {
                blob_views(self.blobs@)
            }),
    {
        if self.category == ActionCategory::Normal {
            self.with_sound(normal_grunt)
        } else {
            self
        }
    }
}

} // verus!
