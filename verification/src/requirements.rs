//! Requirements an action has to meet before it can start.
use vstd::prelude::*;
use crate::ids::{ActionCategory, ActionId, CancelType, GameButton, ItemId, StatusFlag};
use crate::cancels::contains_action;
use crate::items::count_in;
use crate::resources::{ResourceType, has_type, is_first_of};
use crate::situation::Situation;
use crate::collections::{flag_set, flag_in, button_set, flag_set_contains, button_set_contains};

verus! {

/// A condition on the situation.
#[derive(Debug)]
pub enum ActionRequirement {
    Unconditional,
    Grounded,
    Airborne,
    AnyActionOngoing,
    ActionOngoing(Vec<ActionId>),
    ActionNotOngoing(Vec<ActionId>),
    ItemOwned(ItemId),
    ResourceFull(ResourceType),
    ResourceValue(ResourceType, i32),
    ButtonPressed(GameButton),
    ButtonNotPressed(GameButton),
    StatusNotActive(StatusFlag),
    Starter(ActionCategory),
    And(Vec<ActionRequirement>),
    Or(Vec<ActionRequirement>),
}

/// The value of the first gauge of a type.
pub open spec fn first_value(sit: Situation, t: ResourceType) -> int {
    let i = choose|i: int| is_first_of(sit.resources@, t, i);
    sit.resources@[i].1.current as int
}

/// Whether the first gauge of a type is full.
pub open spec fn first_full(sit: Situation, t: ResourceType) -> bool {
    let i = choose|i: int| is_first_of(sit.resources@, t, i);
    sit.resources@[i].1.current == sit.resources@[i].1.upper()
}

/// Whether an open cancel window lets an action of `category` start.
pub open spec fn window_admits(win: CancelType, category: ActionCategory, self_id: ActionId, sit: Situation) -> bool {
    match win {
        CancelType::Special => {
            // A comic book lets a normal use the special cancel window, unless on cooldown.
            ||| (category == ActionCategory::Normal
                && count_in(sit.inventory.counts(), ItemId::ComicBook) > 0
                && !flag_in(flag_set(sit.status_flags), StatusFlag::ComicCancelCooldown))
            ||| category == ActionCategory::Special
            ||| category == ActionCategory::Super
        },
        CancelType::Super => category == ActionCategory::Super,
        CancelType::Specific(options) => options@.contains(self_id),
        CancelType::Anything => true,
    }
}

/// Whether an action of `category` may start: not while stunned; always from neutral;
/// mega interrupts always; otherwise when some open window admits it.
pub open spec fn starter_holds(category: ActionCategory, self_id: ActionId, windows: Seq<CancelType>, sit: Situation) -> bool {
    if sit.stunned {
        false
    } else if sit.tracker is None {
        true
    } else if category == ActionCategory::MegaInterrupt {
        true
    } else {
        exists|i: int| 0 <= i < windows.len() && window_admits(windows[i], category, self_id, sit)
    }
}

impl ActionRequirement {
    /// Whether the requirement holds.
    pub open spec fn holds(self, self_id: ActionId, windows: Seq<CancelType>, sit: Situation) -> bool
        decreases self, 0int,
    {
        match self {
            ActionRequirement::Unconditional => true,
            ActionRequirement::Grounded => sit.grounded,
            ActionRequirement::Airborne => !sit.grounded,
            ActionRequirement::AnyActionOngoing => sit.tracker is Some,
            ActionRequirement::ActionOngoing(ids) => match sit.tracker {
                Some(t) => ids@.contains(t.action_id),
                None => false,
            },
            ActionRequirement::ActionNotOngoing(ids) => match sit.tracker {
                Some(t) => !ids@.contains(t.action_id),
                None => true,
            },
            ActionRequirement::ItemOwned(id) => count_in(sit.inventory.counts(), id) > 0,
            ActionRequirement::ResourceFull(t) => first_full(sit, t),
            ActionRequirement::ResourceValue(t, v) => first_value(sit, t) >= v,
            ActionRequirement::ButtonPressed(b) => button_set(sit.held_buttons).contains(b),
            ActionRequirement::ButtonNotPressed(b) => !button_set(sit.held_buttons).contains(b),
            ActionRequirement::StatusNotActive(f) => !flag_in(flag_set(sit.status_flags), f),
            ActionRequirement::Starter(c) => starter_holds(c, self_id, windows, sit),
            ActionRequirement::And(list) => all_hold_from(list@, 0, self_id, windows, sit),
            ActionRequirement::Or(list) => any_holds_from(list@, 0, self_id, windows, sit),
        }
    }

    /// Whether checking the requirement never looks up a gauge the situation lacks,
    /// given that lists stop at the first entry that decides them.
    pub open spec fn checkable(self, self_id: ActionId, windows: Seq<CancelType>, sit: Situation) -> bool
        decreases self, 0int,
    {
        match self {
            ActionRequirement::ResourceFull(t) => has_type(sit.resources@, t),
            ActionRequirement::ResourceValue(t, v) => has_type(sit.resources@, t),
            ActionRequirement::And(list) => and_checkable_from(list@, 0, self_id, windows, sit),
            ActionRequirement::Or(list) => or_checkable_from(list@, 0, self_id, windows, sit),
            _ => true,
        }
    }
}

/// Every requirement from position `i` on holds.
pub open spec fn all_hold_from(list: Seq<ActionRequirement>, i: int, self_id: ActionId, windows: Seq<CancelType>, sit: Situation) -> bool
    decreases list, list.len() - i,
{
    if i < 0 || i >= list.len() {
        true
    } else {
        list[i].holds(self_id, windows, sit) && all_hold_from(list, i + 1, self_id, windows, sit)
    }
}

/// Some requirement from position `i` on holds.
pub open spec fn any_holds_from(list: Seq<ActionRequirement>, i: int, self_id: ActionId, windows: Seq<CancelType>, sit: Situation) -> bool
    decreases list, list.len() - i,
{
    if i < 0 || i >= list.len() {
        false
    } else {
        list[i].holds(self_id, windows, sit) || any_holds_from(list, i + 1, self_id, windows, sit)
    }
}

/// Checking a conjunction from position `i` on stays on known gauges.
pub open spec fn and_checkable_from(list: Seq<ActionRequirement>, i: int, self_id: ActionId, windows: Seq<CancelType>, sit: Situation) -> bool
    decreases list, list.len() - i,
{
    if i < 0 || i >= list.len() {
        true
    } else {
        list[i].checkable(self_id, windows, sit) && (list[i].holds(self_id, windows, sit)
            ==> and_checkable_from(list, i + 1, self_id, windows, sit))
    }
}

/// Checking a disjunction from position `i` on stays on known gauges.
pub open spec fn or_checkable_from(list: Seq<ActionRequirement>, i: int, self_id: ActionId, windows: Seq<CancelType>, sit: Situation) -> bool
    decreases list, list.len() - i,
{
    if i < 0 || i >= list.len() {
        true
    } else {
        list[i].checkable(self_id, windows, sit) && (!list[i].holds(self_id, windows, sit)
            ==> or_checkable_from(list, i + 1, self_id, windows, sit))
    }
}

/// The first entry of a type is unique.
pub proof fn lemma_first_unique(entries: Seq<(ResourceType, crate::resources::WAGResource)>, t: ResourceType, i: int, j: int)
    requires
        is_first_of(entries, t, i),
        is_first_of(entries, t, j),
    ensures
        i == j,
{
    if i < j {
        assert(entries[i].0 != t);
    } else if j < i {
        assert(entries[j].0 != t);
    }
}

/// Whether the open window lets an action of `category` start.
fn window_admits_exec(win: &CancelType, category: ActionCategory, self_id: ActionId, situation: &Situation) -> (r: bool)
    ensures
        r == window_admits(*win, category, self_id, *situation),
{
    match win {
        CancelType::Special => {
            if category == ActionCategory::Normal && situation.inventory.contains(ItemId::ComicBook)
                && !flag_set_contains(&situation.status_flags, &StatusFlag::ComicCancelCooldown) {
                return true;
            }
            category == ActionCategory::Special || category == ActionCategory::Super
        },
        CancelType::Super => category == ActionCategory::Super,
        CancelType::Specific(options) => contains_action(options, self_id),
        CancelType::Anything => true,
    }
}

/// Whether an action of `category` may start in the situation.
fn starter_check(category: ActionCategory, self_id: ActionId, windows: &Vec<CancelType>, situation: &Situation) -> (r: bool)
    ensures
        r == starter_holds(category, self_id, windows@, *situation),
{
    if situation.stunned {
        return false;
    }
    if situation.tracker.is_none() {
        return true;
    }
    if category == ActionCategory::MegaInterrupt {
        return true;
    }
    let mut i: usize = 0;
    while i < windows.len()
        invariant
            !situation.stunned,
            situation.tracker is Some,
            category != ActionCategory::MegaInterrupt,
            i <= windows@.len(),
            forall|j: int| 0 <= j < i ==> !window_admits(#[trigger] windows@[j], category, self_id, *situation),
        decreases windows@.len() - i,
    {
        if window_admits_exec(&windows[i], category, self_id, situation) {
            return true;
        }
        i = i + 1;
    }
    false
}

/// Whether a listed action is the ongoing one.
fn ongoing_in(ids: &Vec<ActionId>, situation: &Situation) -> (r: Option<bool>)
    ensures
        match situation.tracker {
            Some(t) => r == Some(ids@.contains(t.action_id)),
            None => r is None,
        },
{
    match situation.tracker {
        Some(t) => Some(contains_action(ids, t.action_id)),
        None => None,
    }
}

impl ActionRequirement {
    pub fn check(&self, self_id: ActionId, windows: &Vec<CancelType>, situation: &Situation) -> (r: bool)
        requires
            self.checkable(self_id, windows@, *situation),
        ensures
            r == self.holds(self_id, windows@, *situation),
        decreases self,
    {
        match self {
            ActionRequirement::Unconditional => true,
            ActionRequirement::Grounded => situation.grounded,
            ActionRequirement::Airborne => !situation.grounded,
            ActionRequirement::ActionOngoing(ids) => match ongoing_in(ids, situation) {
                Some(b) => b,
                None => false,
            },
            ActionRequirement::ActionNotOngoing(ids) => match ongoing_in(ids, situation) {
                Some(b) => !b,
                None => true,
            },
            ActionRequirement::AnyActionOngoing => situation.tracker.is_some(),
            ActionRequirement::ItemOwned(item_id) => situation.inventory.contains(*item_id),
            ActionRequirement::ResourceFull(resource) => match situation.get_resource(*resource) {
                Some(g) => {
                    proof {
                        let i = choose|i: int| is_first_of(situation.resources@, *resource, i) && *g == situation.resources@[i].1;
                        let k = choose|k: int| is_first_of(situation.resources@, *resource, k);
                        lemma_first_unique(situation.resources@, *resource, i, k);
                    }
                    g.is_full()
                },
                None => false,
            },
            ActionRequirement::ResourceValue(resource, value) => match situation.get_resource(*resource) {
                Some(g) => {
                    proof {
                        let i = choose|i: int| is_first_of(situation.resources@, *resource, i) && *g == situation.resources@[i].1;
                        let k = choose|k: int| is_first_of(situation.resources@, *resource, k);
                        lemma_first_unique(situation.resources@, *resource, i, k);
                    }
                    g.current >= *value
                },
                None => false,
            },
            ActionRequirement::ButtonPressed(button) => button_set_contains(&situation.held_buttons, button),
            ActionRequirement::ButtonNotPressed(button) => !button_set_contains(&situation.held_buttons, button),
            ActionRequirement::StatusNotActive(status) => !flag_set_contains(&situation.status_flags, status),
            ActionRequirement::And(list) => {
                let mut i: usize = 0;
                while i < list.len()
                    invariant
                        i <= list@.len(),
                        *self == ActionRequirement::And(*list),
                        and_checkable_from(list@, i as int, self_id, windows@, *situation),
                        all_hold_from(list@, 0, self_id, windows@, *situation)
                            == all_hold_from(list@, i as int, self_id, windows@, *situation),
                    decreases list@.len() - i,
                {
                    let inner = &list[i];
                    proof {
                        vstd::std_specs::vec::axiom_vec_index_decreases(*list, i as int);
                        assert(decreases_to!(*self => (*self)->And_0));
                        assert(decreases_to!(*self => list[i as int]));
                    }
                    if !inner.check(self_id, windows, situation) {
                        return false;
                    }
                    i = i + 1;
                }
                true
            },
            ActionRequirement::Or(list) => {
                let mut i: usize = 0;
                while i < list.len()
                    invariant
                        i <= list@.len(),
                        *self == ActionRequirement::Or(*list),
                        or_checkable_from(list@, i as int, self_id, windows@, *situation),
                        any_holds_from(list@, 0, self_id, windows@, *situation)
                            == any_holds_from(list@, i as int, self_id, windows@, *situation),
                    decreases list@.len() - i,
                {
                    let inner = &list[i];
                    proof {
                        vstd::std_specs::vec::axiom_vec_index_decreases(*list, i as int);
                        assert(decreases_to!(*self => (*self)->Or_0));
                        assert(decreases_to!(*self => list[i as int]));
                    }
                    if inner.check(self_id, windows, situation) {
                        return true;
                    }
                    i = i + 1;
                }
                false
            },
            ActionRequirement::Starter(category) => starter_check(*category, self_id, windows, situation),
        }
    }
}

/// `all_hold_from` means every entry from `i` on holds.
pub(crate) proof fn lemma_all_hold_from(list: Seq<ActionRequirement>, i: int, self_id: ActionId, windows: Seq<CancelType>, sit: Situation)
    requires
        0 <= i <= list.len(),
    ensures
        all_hold_from(list, i, self_id, windows, sit)
            <==> forall|j: int| i <= j < list.len() ==> #[trigger] list[j].holds(self_id, windows, sit),
    decreases list.len() - i,
{
    if i < list.len() {
        lemma_all_hold_from(list, i + 1, self_id, windows, sit);
        if forall|j: int| i <= j < list.len() ==> #[trigger] list[j].holds(self_id, windows, sit) {
            assert(list[i].holds(self_id, windows, sit));
        }
    }
}

/// `any_holds_from` means some entry from `i` on holds.
proof fn lemma_any_holds_from(list: Seq<ActionRequirement>, i: int, self_id: ActionId, windows: Seq<CancelType>, sit: Situation)
    requires
        0 <= i <= list.len(),
    ensures
        any_holds_from(list, i, self_id, windows, sit)
            <==> exists|j: int| i <= j < list.len() && #[trigger] list[j].holds(self_id, windows, sit),
    decreases list.len() - i,
{
    if i < list.len() {
        lemma_any_holds_from(list, i + 1, self_id, windows, sit);
        if any_holds_from(list, i, self_id, windows, sit) {
            if list[i].holds(self_id, windows, sit) {
                assert(exists|j: int| i <= j < list.len() && #[trigger] list[j].holds(self_id, windows, sit));
            }
        }
    }
}

/// A gauge requirement reads the first gauge of its type that the situation lists: a
/// value requirement holds when that gauge holds at least the value, a full requirement
/// when that gauge is full.
pub proof fn law_gauge_requirements_read_the_first_gauge(t: ResourceType, v: i32, i: int, self_id: ActionId,
    windows: Seq<CancelType>, sit: Situation)
    requires
        is_first_of(sit.resources@, t, i),
    ensures
        ActionRequirement::ResourceValue(t, v).holds(self_id, windows, sit) == (sit.resources@[i].1.current >= v),
        ActionRequirement::ResourceFull(t).holds(self_id, windows, sit)
            == (sit.resources@[i].1.current == sit.resources@[i].1.upper()),
        ActionRequirement::ResourceValue(t, v).checkable(self_id, windows, sit),
        ActionRequirement::ResourceFull(t).checkable(self_id, windows, sit),
{
    let k = choose|k: int| is_first_of(sit.resources@, t, k);
    lemma_first_unique(sit.resources@, t, i, k);
}

/// A conjunction of requirements holds exactly when every one of them holds.
pub proof fn law_and_means_all(list: Vec<ActionRequirement>, self_id: ActionId, windows: Seq<CancelType>, sit: Situation)
    ensures
        ActionRequirement::And(list).holds(self_id, windows, sit)
            <==> forall|j: int| 0 <= j < list@.len() ==> #[trigger] list@[j].holds(self_id, windows, sit),
{
    lemma_all_hold_from(list@, 0, self_id, windows, sit);
}

/// A disjunction of requirements holds exactly when one of them holds.
pub proof fn law_or_means_any(list: Vec<ActionRequirement>, self_id: ActionId, windows: Seq<CancelType>, sit: Situation)
    ensures
        ActionRequirement::Or(list).holds(self_id, windows, sit)
            <==> exists|j: int| 0 <= j < list@.len() && #[trigger] list@[j].holds(self_id, windows, sit),
{
    lemma_any_holds_from(list@, 0, self_id, windows, sit);
}

/// From neutral, an unstunned character can start an action of any category.
pub proof fn law_starter_from_neutral(category: ActionCategory, self_id: ActionId, windows: Seq<CancelType>, sit: Situation)
    requires
        !sit.stunned,
        sit.tracker is None,
    ensures
        ActionRequirement::Starter(category).holds(self_id, windows, sit),
{
}

/// A stunned character can start nothing through a starter requirement.
pub proof fn law_no_starter_while_stunned(category: ActionCategory, self_id: ActionId, windows: Seq<CancelType>, sit: Situation)
    requires
        sit.stunned,
    ensures
        !ActionRequirement::Starter(category).holds(self_id, windows, sit),
{
}

} // verus!
