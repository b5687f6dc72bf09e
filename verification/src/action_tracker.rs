//! Following an action through the blocks of its script and the cancel windows they open.
use vstd::prelude::*;
use std::collections::VecDeque;
use crate::ids::{ActionCategory, ActionId, CancelType};
use crate::cancels::{CancelRule, RuleView, rule_permits};
use crate::events::ActionEvent;
use crate::requirements::{ActionRequirement, all_hold_from};
use crate::situation::Situation;

verus! {

/// What lets a block of a script pass on to the next one.
#[derive(Debug)]
pub enum ContinuationRequirement {
    /// Passes at once.
    Immediate,
    /// Passes once every condition holds.
    Conditions(Vec<ActionRequirement>),
    /// Passes once the block has lasted this many frames, scaled by the action speed.
    Time(usize),
}

impl ContinuationRequirement {
    /// Whether the block may pass on, given the frame the block started on and the
    /// block's duration already scaled by the character's action speed.
    pub open spec fn passes(&self, self_id: ActionId, windows: Seq<CancelType>, sit: Situation,
        block_start_frame: usize, scaled_duration: usize) -> bool
    {
        match self {
            ContinuationRequirement::Immediate => true,
            ContinuationRequirement::Conditions(list) => all_hold_from(list@, 0, self_id, windows, sit),
            ContinuationRequirement::Time(_) => sit.frame - block_start_frame >= scaled_duration,
        }
    }
}

impl Default for ContinuationRequirement {
    fn default() -> (r: Self)
        ensures
            r is Immediate,
    {
        ContinuationRequirement::Immediate
    }
}

/// One block of an action's script.
#[derive(Debug)]
pub struct ActionBlock {
    pub events: Vec<ActionEvent>,
    pub exit_requirement: ContinuationRequirement,
    pub cancel_policy: CancelRule,
}

impl Default for ActionBlock {
    fn default() -> (r: Self)
        ensures
            r.events@.len() == 0,
            r.exit_requirement is Immediate,
            r.cancel_policy@ == CancelRule::never_view(),
    {
        ActionBlock {
            events: Vec::new(),
            exit_requirement: ContinuationRequirement::Immediate,
            cancel_policy: CancelRule::never(),
        }
    }
}

/// An action as a script of blocks.
#[derive(Debug)]
pub struct Action {
    pub input: Option<String>,
    pub requirement: ActionRequirement,
    pub category: ActionCategory,
    pub transient: bool,
    pub script: Vec<ActionBlock>,
}

impl Default for Action {
    fn default() -> (r: Self)
        ensures
            r.input is None,
            r.requirement is Unconditional,
            r.category == ActionCategory::Other,
            !r.transient,
            r.script@.len() == 0,
    {
        Action {
            input: None,
            requirement: ActionRequirement::Unconditional,
            category: ActionCategory::Other,
            transient: false,
            script: Vec::new(),
        }
    }
}

impl ContinuationRequirement {
    /// Whether the block may pass on, given the frame the block started on and the
    /// block's duration already scaled by the character's action speed.
    pub fn fulfilled(&self, self_id: ActionId, windows: &Vec<CancelType>, situation: &Situation,
        block_start_frame: usize, scaled_duration: usize) -> (r: bool)
        requires
            block_start_frame <= situation.frame,
            self matches ContinuationRequirement::Conditions(list)
                ==> ActionRequirement::And(*list).checkable(self_id, windows@, *situation),
        ensures
            r == self.passes(self_id, windows@, *situation, block_start_frame, scaled_duration),
    {
        match self {
            ContinuationRequirement::Immediate => true,
            ContinuationRequirement::Conditions(list) => {
                let mut i: usize = 0;
                while i < list.len()
                    invariant
                        *self == ContinuationRequirement::Conditions(*list),
                        i <= list@.len(),
                        crate::requirements::and_checkable_from(list@, i as int, self_id, windows@, *situation),
                        all_hold_from(list@, 0, self_id, windows@, *situation)
                            == all_hold_from(list@, i as int, self_id, windows@, *situation),
                    decreases list@.len() - i,
                {
                    if !list[i].check(self_id, windows, situation) {
                        return false;
                    }
                    i = i + 1;
                }
                true
            },
            ContinuationRequirement::Time(_) => situation.frame - block_start_frame >= scaled_duration,
        }
    }
}

/// The frame the trailing run of windows that admit the action started on, if the
/// last window admits it: each window lasts from its frame until the next one's.
pub open spec fn open_since(bps: Seq<(RuleView, usize)>, hit: bool, id: ActionId, cat: ActionCategory) -> Option<usize>
    decreases bps.len(),
{
    if bps.len() == 0 {
        None
    } else if !rule_permits(bps.last().0, hit, id, cat) {
        None
    } else {
        match open_since(bps.drop_last(), hit, id, cat) {
            Some(f) => Some(f),
            None => Some(bps.last().1),
        }
    }
}

/// The cancel rules of the blocks an action has gone through, with their start frames.
pub open spec fn rule_views(bps: Seq<(CancelRule, usize)>) -> Seq<(RuleView, usize)> {
    bps.map_values(|bp: (CancelRule, usize)| (bp.0@, bp.1))
}

/// Follows an action through its script.
#[derive(Debug)]
pub struct ActionTracker {
    pub has_hit: bool,
    pub blocker: ContinuationRequirement,
    pub cancel_policy: CancelRule,
    pub upcoming_blocks: VecDeque<ActionBlock>,
    pub start_frame: usize,
    pub current_block_start_frame: usize,
    pub action_id: ActionId,
    pub cancel_breakpoints: Vec<(CancelRule, usize)>,
}

impl ActionTracker {
    /// The cancel windows opened so far, in order, with the frames they opened on.
    pub open spec fn breakpoints(&self) -> Seq<(RuleView, usize)> {
        rule_views(self.cancel_breakpoints@)
    }

    /// Starts following an action whose first block has just been processed.
    pub fn new(action_id: ActionId, action: Action, start_frame: usize) -> (r: Self)
        requires
            action.script@.len() > 0,
        ensures
            !r.has_hit,
            r.action_id == action_id,
            r.blocker == action.script@[0].exit_requirement,
            r.cancel_policy@ == action.script@[0].cancel_policy@,
            r.upcoming_blocks@ == action.script@.drop_first(),
            r.start_frame == start_frame,
            r.current_block_start_frame == start_frame,
            r.breakpoints() == seq![(action.script@[0].cancel_policy@, start_frame)],
    {
        let mut script = action.script;
        let ghost s0 = script@;
        let first = script.remove(0);
        let mut upcoming: VecDeque<ActionBlock> = VecDeque::new();
        while script.len() > 0
            invariant
                upcoming@ + script@ == s0.drop_first(),
            decreases script@.len(),
        {
            let b = script.remove(0);
            upcoming.push_back(b);
            assert(upcoming@ + script@ =~= s0.drop_first());
        }
        assert(upcoming@ =~= s0.drop_first());
        let policy = first.cancel_policy.duplicate();
        let mut breakpoints: Vec<(CancelRule, usize)> = Vec::new();
        breakpoints.push((policy, start_frame));
        let r = ActionTracker {
            has_hit: false,
            action_id,
            blocker: first.exit_requirement,
            cancel_policy: first.cancel_policy,
            upcoming_blocks: upcoming,
            start_frame,
            current_block_start_frame: start_frame,
            cancel_breakpoints: breakpoints,
        };
        assert(r.breakpoints() =~= seq![(s0[0].cancel_policy@, start_frame)]);
        r
    }

    /// Moves on to the next block, which starts on `frame`, opening its cancel window.
    pub fn pop_next(&mut self, frame: usize) -> (r: Option<ActionBlock>)
        ensures
            old(self).upcoming_blocks@.len() == 0 ==> {
                &&& r is None
                &&& final(self).upcoming_blocks@ == old(self).upcoming_blocks@
                &&& final(self).breakpoints() == old(self).breakpoints()
                &&& final(self).current_block_start_frame == old(self).current_block_start_frame
            },
            old(self).upcoming_blocks@.len() > 0 ==> {
                &&& r == Some(old(self).upcoming_blocks@[0])
                &&& final(self).upcoming_blocks@ == old(self).upcoming_blocks@.drop_first()
                &&& final(self).breakpoints() == old(self).breakpoints().push(
                    (old(self).upcoming_blocks@[0].cancel_policy@, frame))
                &&& final(self).current_block_start_frame == frame
            },
            final(self).has_hit == old(self).has_hit,
            final(self).action_id == old(self).action_id,
            final(self).start_frame == old(self).start_frame,
            final(self).blocker == old(self).blocker,
            final(self).cancel_policy == old(self).cancel_policy,
    {
        match self.upcoming_blocks.pop_front() {
            Some(next) => {
                let policy = next.cancel_policy.duplicate();
                self.cancel_breakpoints.push((policy, frame));
                self.current_block_start_frame = frame;
                proof {
                    assert(self.breakpoints() =~= old(self).breakpoints().push((next.cancel_policy@, frame)));
                }
                Some(next)
            },
            None => None,
        }
    }

    /// Since which frame the current action can be cancelled into the given one, if it
    /// can be now: the start of the uninterrupted run of windows that admit it.
    pub fn cancellable_into_since(&self, action_id: ActionId, action: Action) -> (r: Option<usize>)
        ensures
            r == open_since(self.breakpoints(), self.has_hit, action_id, action.category),
    {
        let mut output: Option<usize> = None;
        let mut i: usize = 0;
        let ghost bps = self.breakpoints();
        while i < self.cancel_breakpoints.len()
            invariant
                i <= self.cancel_breakpoints@.len(),
                bps == self.breakpoints(),
                bps.len() == self.cancel_breakpoints@.len(),
                output == open_since(bps.subrange(0, i as int), self.has_hit, action_id, action.category),
            decreases self.cancel_breakpoints@.len() - i,
        {
            let policy = &self.cancel_breakpoints[i].0;
            let frame = self.cancel_breakpoints[i].1;
            let can_cancel = policy.can_cancel(self.has_hit, action_id, action.category);
            let was_cancellable = output.is_some();
            proof {
                assert(bps.subrange(0, i + 1).drop_last() =~= bps.subrange(0, i as int));
                assert(bps.subrange(0, i + 1).last() == (policy@, frame));
            }
            if can_cancel && !was_cancellable {
                output = Some(frame);
            } else if !can_cancel && was_cancellable {
                output = None;
            }
            i = i + 1;
        }
        assert(bps.subrange(0, bps.len() as int) =~= bps);
        output
    }

    /// The frame the most recent cancel window opened on.
    pub fn last_breakpoint_frame(&self) -> (r: Option<usize>)
        ensures
            self.breakpoints().len() == 0 ==> r is None,
            self.breakpoints().len() > 0 ==> r == Some(self.breakpoints().last().1),
    {
        let n = self.cancel_breakpoints.len();
        if n == 0 {
            None
        } else {
            Some(self.cancel_breakpoints[n - 1].1)
        }
    }
}

/// The window an action can be cancelled through starts at the earliest breakpoint of the
/// unbroken run of admitting breakpoints that reaches the latest one; there is none when
/// the latest breakpoint does not admit the action.
pub proof fn law_cancel_window_start(bps: Seq<(RuleView, usize)>, hit: bool, id: ActionId, cat: ActionCategory)
    ensures
        open_since(bps, hit, id, cat) is None
            <==> (bps.len() == 0 || !rule_permits(bps.last().0, hit, id, cat)),
        open_since(bps, hit, id, cat) matches Some(f) ==> exists|k: int| {
            &&& 0 <= k < bps.len()
            &&& bps[k].1 == f
            &&& forall|j: int| k <= j < bps.len() ==> rule_permits(#[trigger] bps[j].0, hit, id, cat)
            &&& (k == 0 || !rule_permits(bps[k - 1].0, hit, id, cat))
        },
    decreases bps.len(),
{
    if bps.len() > 0 && rule_permits(bps.last().0, hit, id, cat) {
        let prefix = bps.drop_last();
        law_cancel_window_start(prefix, hit, id, cat);
        let n = bps.len() - 1;
        match open_since(prefix, hit, id, cat) {
            Some(f) => {
                let k = choose|k: int| {
                    &&& 0 <= k < prefix.len()
                    &&& prefix[k].1 == f
                    &&& forall|j: int| k <= j < prefix.len() ==> rule_permits(#[trigger] prefix[j].0, hit, id, cat)
                    &&& (k == 0 || !rule_permits(prefix[k - 1].0, hit, id, cat))
                };
                assert forall|j: int| k <= j < bps.len() implies rule_permits(#[trigger] bps[j].0, hit, id, cat) by {
                    if j < n {
                        assert(bps[j] == prefix[j]);
                    }
                }
                assert(k == 0 || !rule_permits(bps[k - 1].0, hit, id, cat)) by {
                    if k > 0 {
                        assert(bps[k - 1] == prefix[k - 1]);
                    }
                }
                assert(bps[k] == prefix[k]);
            },
            None => {
                assert(n == 0 || !rule_permits(bps[n - 1].0, hit, id, cat)) by {
                    if n > 0 {
                        assert(bps[n - 1] == prefix.last());
                    }
                }
                assert forall|j: int| n <= j < bps.len() implies rule_permits(#[trigger] bps[j].0, hit, id, cat) by {
                    assert(j == n);
                }
            },
        }
    }
}

} // verus!
