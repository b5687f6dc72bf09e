//! The game state an action's logic reads: what is going on with the character.
use vstd::prelude::*;
use crate::ids::{ActionId, StickPosition};
use crate::items::Inventory;
use crate::resources::{ResourceType, Stats, WAGResource, has_type, is_first_of};
use crate::collections::{FlagSet, ButtonSet};

verus! {

/// The action a character is currently performing.
#[derive(Clone, Copy, Debug, PartialEq, Eq, Structural)]
pub struct ActionTracker {
    pub has_hit: bool,
    pub was_cancelled_into: bool,
    pub start_frame: usize,
    pub action_id: ActionId,
}

impl ActionTracker {
    pub fn new(start_frame: usize, was_cancelled_into: bool, action_id: ActionId) -> (r: Self)
        ensures
            !r.has_hit,
            r.was_cancelled_into == was_cancelled_into,
            r.start_frame == start_frame,
            r.action_id == action_id,
    {
        ActionTracker { has_hit: false, was_cancelled_into, action_id, start_frame }
    }
}

/// A snapshot of a character's state on one frame.
pub struct Situation {
    pub grounded: bool,
    pub tracker: Option<ActionTracker>,
    pub inventory: Inventory,
    pub resources: Vec<(ResourceType, WAGResource)>,
    pub status_flags: FlagSet,
    pub frame: usize,
    pub abs_frame: usize,
    pub stats: Stats,
    pub stick_position: StickPosition,
    pub held_buttons: ButtonSet,
    pub in_combo: bool,
    pub stunned: bool,
}

impl Situation {
    /// Frames since the current action started; zero when there is none.
    pub open spec fn elapsed_frames(&self) -> int {
        match self.tracker {
            Some(t) => self.frame - t.start_frame,
            None => 0,
        }
    }

    /// The first gauge of the given type.
    pub fn get_resource(&self, resource_type: ResourceType) -> (r: Option<&WAGResource>)
        ensures
            r is None <==> !has_type(self.resources@, resource_type),
            r matches Some(g) ==> exists|i: int| is_first_of(self.resources@, resource_type, i)
                && *g == self.resources@[i].1,
    {
        let mut i: usize = 0;
        while i < self.resources.len()
            invariant
                i <= self.resources@.len(),
                forall|j: int| 0 <= j < i ==> self.resources@[j].0 != resource_type,
            decreases self.resources@.len() - i,
        {
            if self.resources[i].0 == resource_type {
                let r = &self.resources[i].1;
                assert(is_first_of(self.resources@, resource_type, i as int));
                return Some(r);
            }
            i = i + 1;
        }
        None
    }

    /// Frames since the current action started; zero when there is none.
    pub fn elapsed(&self) -> (r: usize)
        requires
            self.tracker matches Some(t) ==> t.start_frame <= self.frame,
        ensures
            r == self.elapsed_frames(),
    {
        match self.tracker {
            Some(t) => self.frame - t.start_frame,
            None => 0,
        }
    }
}

} // verus!
