//! Cancel policies expressed as lists of rules over cancel categories.
use vstd::prelude::*;
use crate::resources::ResourceType;
use crate::ids::ActionId;

verus! {

/// Categories ordered from the most to the least permissive cancel target.
#[derive(Clone, Copy, PartialEq, Eq, Debug, Structural)]
pub enum CancelCategory {
    Any,
    Jump,
    Dash,
    Normal,
    CommandNormal,
    Special,
    /// Admitted by anything that admits some category.
    Everything,
}

/// The position of a category in the order.
pub open spec fn cancel_rank(c: CancelCategory) -> int {
    match c {
        CancelCategory::Any => 0,
        CancelCategory::Jump => 1,
        CancelCategory::Dash => 2,
        CancelCategory::Normal => 3,
        CancelCategory::CommandNormal => 4,
        CancelCategory::Special => 5,
        CancelCategory::Everything => 6,
    }
}

impl CancelCategory {
    pub fn rank(&self) -> (r: u8)
        ensures
            r == cancel_rank(*self),
    {
        match self {
            CancelCategory::Any => 0,
            CancelCategory::Jump => 1,
            CancelCategory::Dash => 2,
            CancelCategory::Normal => 3,
            CancelCategory::CommandNormal => 4,
            CancelCategory::Special => 5,
            CancelCategory::Everything => 6,
        }
    }
}

/// One way to cancel: into the category or any later one, perhaps only after a hit.
#[derive(Clone, Copy, PartialEq, Eq, Debug, Structural)]
pub struct CancelRule {
    pub requires_hit: bool,
    pub category: CancelCategory,
}

/// Whether a rule admits a category.
pub open spec fn admits(rule: CancelRule, hit: bool, c: CancelCategory) -> bool {
    (hit || !rule.requires_hit) && cancel_rank(rule.category) <= cancel_rank(c)
}

/// All the ways out of the current phase of a move.
#[derive(Clone, Debug, PartialEq)]
pub struct CancelPolicy(pub Vec<CancelRule>);

impl CancelPolicy {
    pub fn never() -> (r: Self)
        ensures
            r.0@.len() == 0,
    {
        CancelPolicy(Vec::new())
    }

    pub fn any() -> (r: Self)
        ensures
            r.0@ == seq![CancelRule { requires_hit: false, category: CancelCategory::Any }],
    {
        CancelPolicy(vec![CancelRule { requires_hit: false, category: CancelCategory::Any }])
    }

    pub fn neutral_normal_recovery() -> (r: Self)
        ensures
            r.0@ == seq![CancelRule { requires_hit: true, category: CancelCategory::CommandNormal }],
    {
        CancelPolicy(vec![CancelRule { requires_hit: true, category: CancelCategory::CommandNormal }])
    }

    pub fn command_normal_recovery() -> (r: Self)
        ensures
            r.0@ == seq![CancelRule { requires_hit: true, category: CancelCategory::Special }],
    {
        CancelPolicy(vec![CancelRule { requires_hit: true, category: CancelCategory::Special }])
    }

    /// Whether some rule of the policy admits the category.
    pub fn can_cancel(&self, hit: bool, cancel_category: CancelCategory) -> (r: bool)
        ensures
            r == exists|i: int| 0 <= i < self.0@.len() && admits(#[trigger] self.0@[i], hit, cancel_category),
    {
        let mut i: usize = 0;
        while i < self.0.len()
            invariant
                i <= self.0@.len(),
                forall|j: int| 0 <= j < i ==> !admits(#[trigger] self.0@[j], hit, cancel_category),
            decreases self.0@.len() - i,
        {
            let rule = self.0[i];
            if (hit || !rule.requires_hit) && rule.category.rank() <= cancel_category.rank() {
                assert(admits(self.0@[i as int], hit, cancel_category));
                return true;
            }
            i = i + 1;
        }
        false
    }
}

/// What a move does on a phase, as far as the flow of phases reads it. Values the flow
/// only carries (animations, sounds, moves, attacks, movements, conditions) are named by
/// handles that the game resolves.
#[derive(Clone, Copy, Debug, PartialEq, Eq, Structural)]
pub enum ActionEvent {
    Animation(u32),
    RecipientAnimation(u32),
    AnimationAtFrame(u32, usize),
    RecipientAnimationAtFrame(u32, usize),
    Sound(u32),
    Move(u32),
    Attack(u32),
    Movement(u32),
    Condition(u32),
    ForceStand,
    ModifyProperty(ResourceType, i32),
    ClearProperty(ResourceType),
    SnapToOpponent,
    SideSwitch,
    HitStun(usize),
    BlockStun(usize),
    Launch,
}

impl Default for ActionEvent {
    fn default() -> (r: Self)
        ensures
            r == ActionEvent::ForceStand,
    {
        ActionEvent::ForceStand
    }
}

/// The handle of the neutral pose animation.
pub const T_POSE: u32 = 0;

/// A phase of a move: a wait with its cancel policy, events, events a callback decides,
/// or a wait until a callback's condition holds or a timeout passes. Callbacks are named
/// by handles into the move's `FlowCallbacks`.
#[derive(Debug, PartialEq)]
pub enum FlowControl {
    Wait(usize, CancelPolicy),
    Actions(Vec<ActionEvent>),
    DynamicActions(u32),
    WaitUntil(u32, Option<usize>),
}

/// A phase as plain values: its kind (wait, events, callback events, wait until), the
/// frames of a wait, the cancel rules of a wait, the events, the callback handle and the
/// timeout.
pub type FlowView = (u8, usize, Seq<CancelRule>, Seq<ActionEvent>, u32, Option<usize>);

/// The plain values of a phase.
pub open spec fn flow_view(fc: FlowControl) -> FlowView {
    match fc {
        FlowControl::Wait(frames, policy) => (0, frames, policy.0@, seq![], 0, None),
        FlowControl::Actions(events) => (1, 0, seq![], events@, 0, None),
        FlowControl::DynamicActions(h) => (2, 0, seq![], seq![], h, None),
        FlowControl::WaitUntil(h, timeout) => (3, 0, seq![], seq![], h, timeout),
    }
}

/// The plain values of a list of phases.
pub open spec fn flow_views(s: Seq<FlowControl>) -> Seq<FlowView> {
    s.map_values(|fc: FlowControl| flow_view(fc))
}

impl FlowControl {
    /// A copy of the phase.
    pub fn duplicate(&self) -> (r: Self)
        ensures
            flow_view(r) == flow_view(*self),
    {
        match self {
            FlowControl::Wait(frames, policy) => FlowControl::Wait(*frames, policy.duplicate()),
            FlowControl::Actions(events) => FlowControl::Actions(copy_events(events)),
            FlowControl::DynamicActions(h) => FlowControl::DynamicActions(*h),
            FlowControl::WaitUntil(h, timeout) => FlowControl::WaitUntil(*h, *timeout),
        }
    }
}

impl CancelPolicy {
    /// A copy of the policy.
    pub fn duplicate(&self) -> (r: Self)
        ensures
            r.0@ == self.0@,
    {
        let mut out: Vec<CancelRule> = Vec::new();
        let mut i: usize = 0;
        while i < self.0.len()
            invariant
                i <= self.0@.len(),
                out@ == self.0@.subrange(0, i as int),
            decreases self.0@.len() - i,
        {
            out.push(self.0[i]);
            i = i + 1;
        }
        assert(out@ =~= self.0@);
        CancelPolicy(out)
    }
}

/// A copy of a list of move events.
pub fn copy_events(events: &Vec<ActionEvent>) -> (r: Vec<ActionEvent>)
    ensures
        r@ == events@,
{
    let mut out: Vec<ActionEvent> = Vec::new();
    let mut i: usize = 0;
    while i < events.len()
        invariant
            i <= events@.len(),
            out@ == events@.subrange(0, i as int),
        decreases events@.len() - i,
    {
        out.push(events[i]);
        i = i + 1;
    }
    assert(out@ =~= events@);
    out
}

/// When a move may start: on the ground, in the air, or as a callback decides.
#[derive(Clone, Copy, Debug, PartialEq, Eq, Structural)]
pub enum MoveRequirement {
    Grounded,
    Airborne,
    Custom(u32),
}

/// A move: its input, how it can be cancelled into, its phases and when it may start.
#[derive(Debug)]
pub struct Move {
    pub input: Option<String>,
    pub cancel_category: CancelCategory,
    pub phases: Vec<FlowControl>,
    pub requirement: MoveRequirement,
}

impl Move {
    pub fn new(input: Option<String>, cancel_category: CancelCategory, phases: Vec<FlowControl>,
        requirement: MoveRequirement) -> (r: Self)
        ensures
            r == (Move { input, cancel_category, phases, requirement }),
    {
        Move { input, cancel_category, phases, requirement }
    }

    /// A move that starts on the ground.
    pub fn grounded(input: Option<String>, cancel_category: CancelCategory, phases: Vec<FlowControl>) -> (r: Self)
        ensures
            r == (Move { input, cancel_category, phases, requirement: MoveRequirement::Grounded }),
    {
        Self::new(input, cancel_category, phases, MoveRequirement::Grounded)
    }

    /// A move that starts in the air.
    pub fn airborne(input: Option<String>, cancel_category: CancelCategory, phases: Vec<FlowControl>) -> (r: Self)
        ensures
            r == (Move { input, cancel_category, phases, requirement: MoveRequirement::Airborne }),
    {
        Self::new(input, cancel_category, phases, MoveRequirement::Airborne)
    }
}

impl Default for Move {
    /// A grounded move that strikes the neutral pose and then waits long enough to show
    /// that it ran.
    fn default() -> (r: Self)
        ensures
            r.input is None,
            r.cancel_category == CancelCategory::Any,
            r.requirement == MoveRequirement::Grounded,
            flow_views(r.phases@) == seq![
                (1u8, 0usize, Seq::<CancelRule>::empty(), seq![ActionEvent::Animation(T_POSE)], 0u32, None::<usize>),
                (0u8, 100usize, Seq::<CancelRule>::empty(), Seq::<ActionEvent>::empty(), 0u32, None::<usize>),
            ],
    {
        let phases = vec![
            FlowControl::Actions(vec![ActionEvent::Animation(T_POSE)]),
            FlowControl::Wait(100, CancelPolicy::never()),
        ];
        proof {
            assert(flow_views(phases@) =~= seq![
                (1u8, 0usize, Seq::<CancelRule>::empty(), seq![ActionEvent::Animation(T_POSE)], 0u32, None::<usize>),
                (0u8, 100usize, Seq::<CancelRule>::empty(), Seq::<ActionEvent>::empty(), 0u32, None::<usize>),
            ]) by {
                assert(flow_view(phases@[0]).3 =~= seq![ActionEvent::Animation(T_POSE)]);
                assert(flow_view(phases@[1]).2 =~= Seq::<CancelRule>::empty());
            }
        }
        Move::grounded(None, CancelCategory::Any, phases)
    }
}

/// Whether some rule admits the category.
pub open spec fn rules_admit(rules: Seq<CancelRule>, hit: bool, c: CancelCategory) -> bool {
    exists|i: int| 0 <= i < rules.len() && admits(#[trigger] rules[i], hit, c)
}

/// Walking the waits of the phases from frame `start`: since which frame the category
/// has been cancellable without a break, if it is now, and the frame after the waits.
pub open spec fn cancel_fold(views: Seq<FlowView>, hit: bool, c: CancelCategory, start: int) -> (Option<int>, int)
    decreases views.len(),
{
    if views.len() == 0 {
        (None, start)
    } else {
        let (out, at) = cancel_fold(views.drop_last(), hit, c, start);
        let p = views.last();
        if p.0 == 0 {
            let still = if rules_admit(p.2, hit, c) {
                if out is Some { out } else { Some(at) }
            } else {
                None
            };
            (still, at + p.1)
        } else {
            (out, at)
        }
    }
}

/// The frames the waits among the phases take.
pub open spec fn wait_total(views: Seq<FlowView>) -> int
    decreases views.len(),
{
    if views.len() == 0 {
        0
    } else {
        wait_total(views.drop_last()) + (if views.last().0 == 0 { views.last().1 as int } else { 0 })
    }
}

/// A move in progress: which move, since when, the phases it has gone through, the events
/// not handled yet, and whether it has hit.
#[derive(Debug)]
pub struct MoveHistory {
    pub move_id: ActionId,
    pub move_data: Move,
    pub frame_skip: usize,
    pub started: usize,
    pub past: Vec<FlowControl>,
    pub unprocessed_events: Vec<ActionEvent>,
    pub has_hit: bool,
}

impl Default for MoveHistory {
    fn default() -> (r: Self)
        ensures
            r.move_id == ActionId::Unset,
            r.frame_skip == 0,
            r.started == 0,
            r.past@.len() == 0,
            r.unprocessed_events@.len() == 0,
            !r.has_hit,
            r.move_data.input is None,
            r.move_data.cancel_category == CancelCategory::Any,
            r.move_data.requirement == MoveRequirement::Grounded,
            flow_views(r.move_data.phases@) == seq![
                (1u8, 0usize, Seq::<CancelRule>::empty(), seq![ActionEvent::Animation(T_POSE)], 0u32, None::<usize>),
                (0u8, 100usize, Seq::<CancelRule>::empty(), Seq::<ActionEvent>::empty(), 0u32, None::<usize>),
            ],
    {
        MoveHistory {
            move_id: ActionId::Unset,
            move_data: Move::default(),
            frame_skip: 0,
            started: 0,
            past: Vec::new(),
            unprocessed_events: Vec::new(),
            has_hit: false,
        }
    }
}

/// The events of the phases that are events, in order.
pub open spec fn actions_of(views: Seq<FlowView>) -> Seq<ActionEvent>
    decreases views.len(),
{
    if views.len() == 0 {
        seq![]
    } else {
        actions_of(views.drop_last()) + (if views.last().0 == 1 { views.last().3 } else { seq![] })
    }
}

impl MoveHistory {
    /// The phases gone through, followed by the next phase if there is one.
    pub open spec fn seen_and_next(&self) -> Seq<FlowView> {
        let past = flow_views(self.past@);
        let phases = flow_views(self.move_data.phases@);
        if self.past@.len() < phases.len() { past.push(phases[self.past@.len() as int]) } else { past }
    }

    /// The phase after those gone through, if there is one.
    pub fn next_phase(&self) -> (r: Option<FlowControl>)
        ensures
            r is None <==> self.past@.len() >= self.move_data.phases@.len(),
            r matches Some(fc) ==> flow_view(fc) == flow_view(self.move_data.phases@[self.past@.len() as int]),
    {
        if self.past.len() < self.move_data.phases.len() {
            Some(self.move_data.phases[self.past.len()].duplicate())
        } else {
            None
        }
    }

    /// Since which frame the move has been cancellable into the category without a
    /// break, walking the waits of the phases gone through and the next one.
    pub fn cancellable_since(&self, target_category: CancelCategory) -> (r: Option<usize>)
        requires
            self.started + wait_total(self.seen_and_next()) <= usize::MAX,
        ensures
            r matches Some(f) ==> cancel_fold(self.seen_and_next(), self.has_hit, target_category, self.started as int).0 == Some(f as int),
            r is None ==> cancel_fold(self.seen_and_next(), self.has_hit, target_category, self.started as int).0 is None,
    {
        let ghost all = self.seen_and_next();
        let total = self.past.len() + if self.past.len() < self.move_data.phases.len() { 1usize } else { 0usize };
        let mut output: Option<usize> = None;
        let mut at: usize = self.started;
        let mut i: usize = 0;
        while i < total
            invariant
                total == all.len(),
                i <= total,
                all == self.seen_and_next(),
                self.started + wait_total(all) <= usize::MAX,
                at as int == cancel_fold(all.subrange(0, i as int), self.has_hit, target_category, self.started as int).1,
                at as int == self.started + wait_total(all.subrange(0, i as int)),
                output matches Some(f) ==> cancel_fold(all.subrange(0, i as int), self.has_hit, target_category, self.started as int).0 == Some(f as int),
                output is None ==> cancel_fold(all.subrange(0, i as int), self.has_hit, target_category, self.started as int).0 is None,
            decreases total - i,
        {
            let phase = if i < self.past.len() { &self.past[i] } else { &self.move_data.phases[self.past.len()] };
            proof {
                assert(all.subrange(0, i + 1).drop_last() =~= all.subrange(0, i as int));
                assert(flow_view(*phase) == all[i as int]);
                lemma_wait_total_prefix(all, i as int + 1);
            }
            match phase {
                FlowControl::Wait(frames, policy) => {
                    let can = policy.can_cancel(self.has_hit, target_category);
                    if can {
                        if output.is_none() {
                            output = Some(at);
                        }
                    } else {
                        output = None;
                    }
                    at = at + *frames;
                },
                _ => {},
            }
            i = i + 1;
        }
        proof {
            assert(all.subrange(0, all.len() as int) =~= all);
        }
        output
    }

    /// Whether the move has gone through all its phases.
    pub fn is_done(&self) -> (r: bool)
        ensures
            r == (self.past@.len() == self.move_data.phases@.len()),
    {
        self.past.len() == self.move_data.phases.len()
    }

    /// Whether the move can be cancelled into `other_move` now: the phase it is in is a
    /// wait whose policy admits the other move's category; if so, since when.
    pub fn cancellable_into_since(&self, other_move: &Move) -> (r: Option<usize>)
        requires
            self.started + wait_total(self.seen_and_next()) <= usize::MAX,
        ensures
            !(self.past@.len() > 0 && flow_view(self.past@.last()).0 == 0
                && rules_admit(flow_view(self.past@.last()).2, self.has_hit, other_move.cancel_category)) ==> r is None,
            (self.past@.len() > 0 && flow_view(self.past@.last()).0 == 0
                && rules_admit(flow_view(self.past@.last()).2, self.has_hit, other_move.cancel_category)) ==> {
                &&& (r matches Some(f) ==> cancel_fold(self.seen_and_next(), self.has_hit, other_move.cancel_category, self.started as int).0 == Some(f as int))
                &&& (r is None ==> cancel_fold(self.seen_and_next(), self.has_hit, other_move.cancel_category, self.started as int).0 is None)
            },
    {
        if self.past.len() > 0 {
            match &self.past[self.past.len() - 1] {
                FlowControl::Wait(_, rule) => {
                    if rule.can_cancel(self.has_hit, other_move.cancel_category) {
                        return self.cancellable_since(other_move.cancel_category);
                    }
                },
                _ => {},
            }
        }
        None
    }

    /// Queues the events of the given phases that are events.
    pub fn add_actions_from(&mut self, fcs: Vec<FlowControl>)
        ensures
            final(self).unprocessed_events@ == old(self).unprocessed_events@ + actions_of(flow_views(fcs@)),
            final(self).move_id == old(self).move_id,
            final(self).frame_skip == old(self).frame_skip,
            final(self).started == old(self).started,
            final(self).past == old(self).past,
            final(self).move_data == old(self).move_data,
            final(self).has_hit == old(self).has_hit,
    {
        let ghost orig = flow_views(fcs@);
        let ghost start = self.unprocessed_events@;
        let total = fcs.len();
        let mut rest = fcs;
        let mut n: usize = 0;
        while rest.len() > 0
            invariant
                n + rest@.len() == total,
                total == orig.len(),
                flow_views(rest@) == orig.subrange(n as int, total as int),
                self.unprocessed_events@ == start + actions_of(orig.subrange(0, n as int)),
                self.move_id == old(self).move_id,
                self.frame_skip == old(self).frame_skip,
                self.started == old(self).started,
                self.past == old(self).past,
                self.move_data == old(self).move_data,
                self.has_hit == old(self).has_hit,
            decreases rest@.len(),
        {
            let ghost pre = rest@;
            let fc = rest.remove(0);
            proof {
                assert(flow_view(fc) == orig[n as int]) by {
                    assert(flow_views(pre)[0] == orig.subrange(n as int, total as int)[0]);
                }
                assert(orig.subrange(0, n + 1).drop_last() =~= orig.subrange(0, n as int));
                assert(flow_views(rest@) =~= orig.subrange(n + 1, total as int)) by {
                    assert forall|j: int| 0 <= j < rest@.len() implies flow_views(rest@)[j] == orig.subrange(n + 1, total as int)[j] by {
                        assert(flow_views(pre)[j + 1] == orig.subrange(n as int, total as int)[j + 1]);
                    }
                }
            }
            match fc {
                FlowControl::Actions(mut actions) => {
                    let ghost before = self.unprocessed_events@;
                    let ghost acts = actions@;
                    self.unprocessed_events.append(&mut actions);
                    assert(self.unprocessed_events@ =~= before + acts);
                },
                _ => {},
            }
            n = n + 1;
        }
        proof {
            assert(orig.subrange(0, total as int) =~= orig);
        }
    }
}

/// The waits of a prefix add up to at most the waits of the whole.
proof fn lemma_wait_total_prefix(views: Seq<FlowView>, n: int)
    requires
        0 <= n <= views.len(),
    ensures
        wait_total(views.subrange(0, n)) <= wait_total(views),
        n > 0 ==> wait_total(views.subrange(0, n)) == wait_total(views.subrange(0, n - 1))
            + (if views[n - 1].0 == 0 { views[n - 1].1 as int } else { 0 }),
    decreases views.len(),
{
    if n > 0 {
        assert(views.subrange(0, n).drop_last() =~= views.subrange(0, n - 1));
    }
    if views.len() > 0 && n < views.len() {
        lemma_wait_total_prefix(views.drop_last(), n);
        assert(views.drop_last().subrange(0, n) =~= views.subrange(0, n));
    } else if n == views.len() {
        assert(views.subrange(0, n) =~= views);
    }
}

/// What the callbacks of a move decide in the current situation, by handle: the events of
/// each events callback and the condition of each wait callback.
#[derive(Debug)]
pub struct FlowCallbacks {
    pub actions: Vec<Vec<ActionEvent>>,
    pub conditions: Vec<bool>,
}

/// The situation the phases of a move run in: the move in progress, whether the character
/// is on the ground, the current frame, and what the move's callbacks decide now.
#[derive(Debug)]
pub struct Situation {
    pub history: Option<MoveHistory>,
    pub grounded: bool,
    pub current_frame: usize,
    pub callbacks: FlowCallbacks,
}

/// A wait of the given frames with the given cancel rules, as plain values.
pub open spec fn wait_view(frames: usize, rules: Seq<CancelRule>) -> FlowView {
    (0, frames, rules, seq![], 0, None)
}

/// Events, as plain values.
pub open spec fn actions_view(events: Seq<ActionEvent>) -> FlowView {
    (1, 0, seq![], events, 0, None)
}

/// The event shifted to start its animation `frame_skip` frames in.
pub open spec fn at_frame(e: ActionEvent, frame_skip: usize) -> ActionEvent {
    match e {
        ActionEvent::Animation(a) => ActionEvent::AnimationAtFrame(a, frame_skip),
        ActionEvent::RecipientAnimation(a) => ActionEvent::RecipientAnimationAtFrame(a, frame_skip),
        _ => e,
    }
}

/// The events with their animations shifted by `frame_skip` frames, if any.
pub open spec fn skip_frames(events: Seq<ActionEvent>, frame_skip: usize) -> Seq<ActionEvent> {
    if frame_skip == 0 {
        events
    } else {
        events.map_values(|e: ActionEvent| at_frame(e, frame_skip))
    }
}

/// What a phase comes to with `unused` frames left: a wait that fits stays, events stay,
/// callback events become their events, and a wait until its condition or timeout takes
/// the frames left; a wait that does not fit, or a wait until that is not met, blocks.
pub open spec fn handled(p: FlowView, unused: int, acts: Seq<Seq<ActionEvent>>, conds: Seq<bool>) -> Option<FlowView> {
    if p.0 == 0 {
        if p.1 > unused { None } else { Some(p) }
    } else if p.0 == 1 {
        Some(p)
    } else if p.0 == 2 {
        Some(actions_view(acts[p.4 as int]))
    } else {
        let timed_out = p.5 matches Some(t) && t <= unused;
        if timed_out || conds[p.4 as int] { Some(wait_view(unused as usize, seq![])) } else { None }
    }
}

/// The phases from the `i`th on that run with `unused` frames left, up to the first that
/// blocks, their animations shifted by `frame_skip` frames.
pub open spec fn runnable(
    phases: Seq<FlowView>,
    i: int,
    unused: int,
    frame_skip: usize,
    acts: Seq<Seq<ActionEvent>>,
    conds: Seq<bool>,
) -> Seq<FlowView>
    decreases phases.len() - i,
{
    if i < 0 || i >= phases.len() {
        seq![]
    } else {
        match handled(phases[i], unused, acts, conds) {
            None => seq![],
            Some(v) => {
                let shown = if v.0 == 1 { actions_view(skip_frames(v.3, frame_skip)) } else { v };
                let left = if v.0 == 0 { unused - v.1 } else { unused };
                seq![shown] + runnable(phases, i + 1, left, frame_skip, acts, conds)
            },
        }
    }
}

/// Every callback a phase from the `from`th on names is decided.
pub open spec fn callbacks_cover(phases: Seq<FlowView>, from: int, acts_len: int, conds_len: int) -> bool {
    forall|i: int| from <= i < phases.len() ==> {
        &&& (#[trigger] phases[i]).0 == 2 ==> phases[i].4 < acts_len
        &&& phases[i].0 == 3 ==> phases[i].4 < conds_len
    }
}

impl Situation {
    /// The callbacks' events, as plain values.
    pub open spec fn acts(&self) -> Seq<Seq<ActionEvent>> {
        self.callbacks.actions@.map_values(|v: Vec<ActionEvent>| v@)
    }

    /// What the phase comes to with `unused_time` frames left.
    pub fn handle_flow_control(&self, future_event: &FlowControl, unused_time: usize) -> (r: Option<FlowControl>)
        requires
            flow_view(*future_event).0 == 2 ==> flow_view(*future_event).4 < self.callbacks.actions@.len(),
            flow_view(*future_event).0 == 3 ==> flow_view(*future_event).4 < self.callbacks.conditions@.len(),
        ensures
            r is None <==> handled(flow_view(*future_event), unused_time as int, self.acts(), self.callbacks.conditions@) is None,
            r matches Some(fc) ==> Some(flow_view(fc)) == handled(flow_view(*future_event), unused_time as int, self.acts(), self.callbacks.conditions@),
    {
        match future_event {
            FlowControl::Wait(time, _) => {
                if *time > unused_time {
                    None
                } else {
                    Some(future_event.duplicate())
                }
            },
            FlowControl::DynamicActions(h) => {
                let events = copy_events(&self.callbacks.actions[*h as usize]);
                Some(FlowControl::Actions(events))
            },
            FlowControl::WaitUntil(h, timeout) => {
                let timed_out = match timeout {
                    Some(t) => *t <= unused_time,
                    None => false,
                };
                if timed_out || self.callbacks.conditions[*h as usize] {
                    let w = FlowControl::Wait(unused_time, CancelPolicy::never());
                    assert(flow_view(w) == wait_view(unused_time, seq![]));
                    Some(w)
                } else {
                    None
                }
            },
            FlowControl::Actions(_) => Some(future_event.duplicate()),
        }
    }

    /// The phases of the move that run now: from the first not gone through, with the
    /// frames since the move started less those its past waits took, up to the first
    /// phase that blocks; animations start `frame_skip` frames in.
    pub fn new_fcs(&self) -> (r: Vec<FlowControl>)
        requires
            self.history is Some,
            self.history.unwrap().started + wait_total(flow_views(self.history.unwrap().past@)) <= self.current_frame,
            callbacks_cover(flow_views(self.history.unwrap().move_data.phases@), self.history.unwrap().past@.len() as int,
                self.callbacks.actions@.len() as int, self.callbacks.conditions@.len() as int),
        ensures
            flow_views(r@) == runnable(
                flow_views(self.history.unwrap().move_data.phases@),
                self.history.unwrap().past@.len() as int,
                self.current_frame - self.history.unwrap().started - wait_total(flow_views(self.history.unwrap().past@)),
                self.history.unwrap().frame_skip,
                self.acts(),
                self.callbacks.conditions@,
            ),
    {
        let history = match &self.history {
            Some(h) => h,
            None => {
                assert(false);
                return Vec::new();
            },
        };
        let ghost past = flow_views(history.past@);
        let mut past_duration: usize = 0;
        let mut j: usize = 0;
        while j < history.past.len()
            invariant
                j <= history.past@.len(),
                past == flow_views(history.past@),
                history.started + wait_total(past) <= self.current_frame,
                past_duration as int == wait_total(past.subrange(0, j as int)),
            decreases history.past@.len() - j,
        {
            proof {
                lemma_wait_total_prefix(past, j + 1);
                assert(flow_view(history.past@[j as int]) == past[j as int]);
            }
            match &history.past[j] {
                FlowControl::Wait(time, _) => {
                    past_duration = past_duration + *time;
                },
                _ => {},
            }
            j = j + 1;
        }
        proof {
            assert(past.subrange(0, past.len() as int) =~= past);
        }
        let ghost phases = flow_views(history.move_data.phases@);
        let ghost start_unused = self.current_frame - history.started - past_duration;
        let ghost goal = runnable(phases, history.past@.len() as int, start_unused, history.frame_skip, self.acts(),
            self.callbacks.conditions@);
        let mut unused_time: usize = self.current_frame - history.started - past_duration;
        let mut handled_events: Vec<FlowControl> = Vec::new();
        let mut i: usize = history.past.len();
        let mut blocked = false;
        while i < history.move_data.phases.len() && !blocked
            invariant
                phases == flow_views(history.move_data.phases@),
                history.past@.len() <= i,
                callbacks_cover(phases, history.past@.len() as int, self.callbacks.actions@.len() as int,
                    self.callbacks.conditions@.len() as int),
                goal == runnable(phases, history.past@.len() as int, start_unused, history.frame_skip, self.acts(),
                    self.callbacks.conditions@),
                !blocked ==> flow_views(handled_events@) + runnable(phases, i as int, unused_time as int,
                    history.frame_skip, self.acts(), self.callbacks.conditions@) == goal,
                blocked ==> flow_views(handled_events@) == goal,
            decreases phases.len() - i, if blocked { 0int } else { 1int },
        {
            let ghost before = flow_views(handled_events@);
            let ghost p = phases[i as int];
            proof {
                assert(flow_view(history.move_data.phases@[i as int]) == p);
                assert(callbacks_cover(phases, history.past@.len() as int, self.callbacks.actions@.len() as int,
                    self.callbacks.conditions@.len() as int));
                assert(p.0 == 2 ==> p.4 < self.callbacks.actions@.len());
            }
            match self.handle_flow_control(&history.move_data.phases[i], unused_time) {
                Some(new_event) => {
                    let ghost v = flow_view(new_event);
                    match new_event {
                        FlowControl::Wait(time, policy) => {
                            unused_time = unused_time - time;
                            handled_events.push(FlowControl::Wait(time, policy));
                        },
                        FlowControl::Actions(actions) => {
                            let shifted = shift_animations(actions, history.frame_skip);
                            handled_events.push(FlowControl::Actions(shifted));
                        },
                        other => {
                            handled_events.push(other);
                        },
                    }
                    proof {
                        let shown = if v.0 == 1 { actions_view(skip_frames(v.3, history.frame_skip)) } else { v };
                        assert(flow_views(handled_events@) =~= before.push(shown));
                        assert(seq![shown] + runnable(phases, i + 1, unused_time as int, history.frame_skip, self.acts(),
                            self.callbacks.conditions@) == runnable(phases, i as int, (if v.0 == 0 { unused_time + v.1 } else { unused_time as int }),
                            history.frame_skip, self.acts(), self.callbacks.conditions@));
                        assert(before.push(shown) + runnable(phases, i + 1, unused_time as int, history.frame_skip, self.acts(),
                            self.callbacks.conditions@) =~= before + (seq![shown] + runnable(phases, i + 1, unused_time as int,
                            history.frame_skip, self.acts(), self.callbacks.conditions@)));
                    }
                    i = i + 1;
                },
                None => {
                    proof {
                        assert(runnable(phases, i as int, unused_time as int, history.frame_skip, self.acts(),
                            self.callbacks.conditions@) =~= Seq::<FlowView>::empty());
                        assert(before + Seq::<FlowView>::empty() =~= before);
                    }
                    blocked = true;
                },
            }
        }
        proof {
            if !blocked {
                assert(runnable(phases, i as int, unused_time as int, history.frame_skip, self.acts(),
                    self.callbacks.conditions@) =~= Seq::<FlowView>::empty());
                assert(flow_views(handled_events@) + Seq::<FlowView>::empty() =~= flow_views(handled_events@));
            }
        }
        handled_events
    }
}

/// The events with their animations shifted to start `frame_skip` frames in, if any.
pub fn shift_animations(events: Vec<ActionEvent>, frame_skip: usize) -> (r: Vec<ActionEvent>)
    ensures
        r@ == skip_frames(events@, frame_skip),
{
    if frame_skip == 0 {
        return events;
    }
    let mut out: Vec<ActionEvent> = Vec::new();
    let mut i: usize = 0;
    while i < events.len()
        invariant
            frame_skip != 0,
            i <= events@.len(),
            out@ == events@.subrange(0, i as int).map_values(|e: ActionEvent| at_frame(e, frame_skip)),
        decreases events@.len() - i,
    {
        let e = match events[i] {
            ActionEvent::Animation(a) => ActionEvent::AnimationAtFrame(a, frame_skip),
            ActionEvent::RecipientAnimation(a) => ActionEvent::RecipientAnimationAtFrame(a, frame_skip),
            other => other,
        };
        out.push(e);
        proof {
            assert(events@.subrange(0, i + 1).map_values(|e: ActionEvent| at_frame(e, frame_skip))
                =~= events@.subrange(0, i as int).map_values(|e: ActionEvent| at_frame(e, frame_skip)).push(e));
        }
        i = i + 1;
    }
    assert(events@.subrange(0, events@.len() as int) =~= events@);
    out
}

/// Law: the phases that run now are never more than those not gone through, and the waits
/// among them never take more frames than are left.
pub proof fn law_runnable_within_remaining(
    phases: Seq<FlowView>,
    i: int,
    unused: int,
    frame_skip: usize,
    acts: Seq<Seq<ActionEvent>>,
    conds: Seq<bool>,
)
    requires
        0 <= i,
        unused >= 0,
    ensures
        runnable(phases, i, unused, frame_skip, acts, conds).len() <= (if i <= phases.len() { phases.len() - i } else { 0 }),
        wait_total(runnable(phases, i, unused, frame_skip, acts, conds)) <= unused,
    decreases phases.len() - i,
{
    let r = runnable(phases, i, unused, frame_skip, acts, conds);
    if 0 <= i < phases.len() {
        match handled(phases[i], unused, acts, conds) {
            None => {},
            Some(v) => {
                let shown = if v.0 == 1 { actions_view(skip_frames(v.3, frame_skip)) } else { v };
                let left = if v.0 == 0 { unused - v.1 } else { unused };
                law_runnable_within_remaining(phases, i + 1, left, frame_skip, acts, conds);
                let rest = runnable(phases, i + 1, left, frame_skip, acts, conds);
                assert(r == seq![shown] + rest);
                lemma_wait_total_front(shown, rest);
            },
        }
    }
}

/// The waits of a list with a phase in front add that phase's wait.
proof fn lemma_wait_total_front(p: FlowView, rest: Seq<FlowView>)
    ensures
        wait_total(seq![p] + rest) == (if p.0 == 0 { p.1 as int } else { 0 }) + wait_total(rest),
    decreases rest.len(),
{
    let all = seq![p] + rest;
    if rest.len() == 0 {
        assert(all =~= seq![p]);
        assert(all.drop_last() =~= Seq::<FlowView>::empty());
        assert(all.last() == p);
        assert(wait_total(all) == wait_total(all.drop_last()) + (if p.0 == 0 { p.1 as int } else { 0 }));
        assert(wait_total(Seq::<FlowView>::empty()) == 0);
        assert(wait_total(rest) == 0);
    } else {
        lemma_wait_total_front(p, rest.drop_last());
        assert(all.drop_last() =~= seq![p] + rest.drop_last());
        assert(all.last() == rest.last());
        assert(wait_total(all) == wait_total(all.drop_last())
            + (if rest.last().0 == 0 { rest.last().1 as int } else { 0 }));
        assert(wait_total(rest) == wait_total(rest.drop_last())
            + (if rest.last().0 == 0 { rest.last().1 as int } else { 0 }));
    }
}

/// Every wait from position `j` on admits the category.
pub open spec fn waits_admit_from(views: Seq<FlowView>, j: int, hit: bool, c: CancelCategory) -> bool {
    forall|m: int| j <= m < views.len() && (#[trigger] views[m]).0 == 0 ==> rules_admit(views[m].2, hit, c)
}

/// The walk over the phases ends on the frame after all the waits.
proof fn lemma_fold_end(views: Seq<FlowView>, hit: bool, c: CancelCategory, start: int)
    ensures
        cancel_fold(views, hit, c, start).1 == start + wait_total(views),
    decreases views.len(),
{
    if views.len() > 0 {
        lemma_fold_end(views.drop_last(), hit, c, start);
    }
}

/// Law: a move is cancellable into a category exactly when some wait is followed only by
/// waits that admit it (so the last wait admits it), and then it has been so since the
/// start of the earliest such wait: the frame the unbroken run of admitting waits that
/// reaches the end began on. A later admitting wait never moves that frame forward, and a
/// refusing wait breaks the run.
pub proof fn law_cancellable_since_run_start(views: Seq<FlowView>, hit: bool, c: CancelCategory, start: int)
    ensures
        cancel_fold(views, hit, c, start).0 is None <==>
            !exists|j: int| 0 <= j < views.len() && (#[trigger] views[j]).0 == 0 && waits_admit_from(views, j, hit, c),
        cancel_fold(views, hit, c, start).0 matches Some(f) ==> exists|j: int| {
            &&& 0 <= j < views.len()
            &&& (#[trigger] views[j]).0 == 0
            &&& waits_admit_from(views, j, hit, c)
            &&& f == start + wait_total(views.subrange(0, j))
            &&& forall|k: int| 0 <= k < j && (#[trigger] views[k]).0 == 0 ==> !waits_admit_from(views, k, hit, c)
        },
    decreases views.len(),
{
    if views.len() == 0 {
        return;
    }
    let pre = views.drop_last();
    let n = pre.len() as int;
    let p = views.last();
    law_cancellable_since_run_start(pre, hit, c, start);
    lemma_fold_end(pre, hit, c, start);
    let (out, at) = cancel_fold(pre, hit, c, start);
    assert(views.subrange(0, n) =~= pre);
    assert forall|j: int| 0 <= j < n implies #[trigger] views[j] == pre[j] by {}
    if p.0 != 0 {
        // Not a wait: nothing changes.
        assert forall|j: int| 0 <= j < n implies waits_admit_from(views, j, hit, c) == waits_admit_from(pre, j, hit, c) by {
            if waits_admit_from(pre, j, hit, c) {
                assert forall|m: int| j <= m < views.len() && (#[trigger] views[m]).0 == 0 implies rules_admit(views[m].2, hit, c) by {
                    assert(m < n);
                    assert(views[m] == pre[m]);
                }
            }
            if waits_admit_from(views, j, hit, c) {
                assert forall|m: int| j <= m < pre.len() && (#[trigger] pre[m]).0 == 0 implies rules_admit(pre[m].2, hit, c) by {
                    assert(views[m] == pre[m]);
                }
            }
        }
        match out {
            Some(f) => {
                let j = choose|j: int| {
                    &&& 0 <= j < pre.len()
                    &&& (#[trigger] pre[j]).0 == 0
                    &&& waits_admit_from(pre, j, hit, c)
                    &&& f == start + wait_total(pre.subrange(0, j))
                    &&& forall|k: int| 0 <= k < j && (#[trigger] pre[k]).0 == 0 ==> !waits_admit_from(pre, k, hit, c)
                };
                assert(views.subrange(0, j) =~= pre.subrange(0, j));
                assert(views[j] == pre[j]);
                assert forall|k: int| 0 <= k < j && (#[trigger] views[k]).0 == 0 implies !waits_admit_from(views, k, hit, c) by {
                    assert(views[k] == pre[k]);
                }
            },
            None => {
                assert forall|j: int| 0 <= j < views.len() && (#[trigger] views[j]).0 == 0 implies !waits_admit_from(views, j, hit, c) by {
                    assert(j < n);
                    assert(views[j] == pre[j]);
                }
            },
        }
    } else if !rules_admit(p.2, hit, c) {
        // A refusing wait breaks every run.
        assert forall|j: int| 0 <= j < views.len() && (#[trigger] views[j]).0 == 0 implies !waits_admit_from(views, j, hit, c) by {
            assert(views[n] == p);
        }
    } else {
        // An admitting wait: the run goes on, or starts here.
        assert forall|j: int| 0 <= j < n implies waits_admit_from(views, j, hit, c) == waits_admit_from(pre, j, hit, c) by {
            if waits_admit_from(pre, j, hit, c) {
                assert forall|m: int| j <= m < views.len() && (#[trigger] views[m]).0 == 0 implies rules_admit(views[m].2, hit, c) by {
                    if m < n {
                        assert(views[m] == pre[m]);
                    } else {
                        assert(views[m] == p);
                    }
                }
            }
            if waits_admit_from(views, j, hit, c) {
                assert forall|m: int| j <= m < pre.len() && (#[trigger] pre[m]).0 == 0 implies rules_admit(pre[m].2, hit, c) by {
                    assert(views[m] == pre[m]);
                }
            }
        }
        match out {
            Some(f) => {
                let j = choose|j: int| {
                    &&& 0 <= j < pre.len()
                    &&& (#[trigger] pre[j]).0 == 0
                    &&& waits_admit_from(pre, j, hit, c)
                    &&& f == start + wait_total(pre.subrange(0, j))
                    &&& forall|k: int| 0 <= k < j && (#[trigger] pre[k]).0 == 0 ==> !waits_admit_from(pre, k, hit, c)
                };
                assert(views.subrange(0, j) =~= pre.subrange(0, j));
                assert(views[j] == pre[j]);
                assert(waits_admit_from(views, j, hit, c));
                assert forall|k: int| 0 <= k < j && (#[trigger] views[k]).0 == 0 implies !waits_admit_from(views, k, hit, c) by {
                    assert(views[k] == pre[k]);
                }
            },
            None => {
                assert(views[n] == p);
                assert forall|m: int| n <= m < views.len() && (#[trigger] views[m]).0 == 0 implies rules_admit(views[m].2, hit, c) by {
                    assert(m == n);
                }
                assert(waits_admit_from(views, n, hit, c));
                assert(at == start + wait_total(views.subrange(0, n)));
                assert forall|k: int| 0 <= k < n && (#[trigger] views[k]).0 == 0 implies !waits_admit_from(views, k, hit, c) by {
                    assert(views[k] == pre[k]);
                    assert(pre[k].0 == 0);
                }
            },
        }
    }
}

} // verus!
