//! Cancel rules: which actions may interrupt the current one.
use vstd::prelude::*;
use crate::ids::{ActionCategory, ActionId, category_rank, standard_cancel_target};

verus! {

/// A rule that says which actions the current part of an action can be cancelled into.
#[derive(Debug)]
pub struct CancelRule {
    pub requires_hit: bool,
    pub category: ActionCategory,
    pub specifics: Vec<ActionId>,
}

/// Whether `id` occurs in `ids`, by a linear scan.
pub fn contains_action(ids: &Vec<ActionId>, id: ActionId) -> (r: bool)
    ensures
        r == ids@.contains(id),
{
    let mut i: usize = 0;
    while i < ids.len()
        invariant
            i <= ids.len(),
            forall|j: int| 0 <= j < i ==> ids@[j] != id,
        decreases ids.len() - i,
    {
        if ids[i] == id {
            return true;
        }
        i = i + 1;
    }
    false
}

/// A copy of a list of action identifiers.
pub fn copy_actions(ids: &Vec<ActionId>) -> (r: Vec<ActionId>)
    ensures
        r@ == ids@,
{
    let mut out: Vec<ActionId> = Vec::new();
    let mut i: usize = 0;
    while i < ids.len()
        invariant
            i <= ids.len(),
            out@ == ids@.subrange(0, i as int),
        decreases ids.len() - i,
    {
        out.push(ids[i]);
        i = i + 1;
    }
    out
}

/// What a cancel rule says: whether it needs a hit, the lowest category it admits,
/// and the actions it admits by name.
pub type RuleView = (bool, ActionCategory, Seq<ActionId>);

/// Whether a rule lets an action `id` of category `cat` cancel the current one,
/// given whether the current action has hit.
pub open spec fn rule_permits(rule: RuleView, hit: bool, id: ActionId, cat: ActionCategory) -> bool {
    if !hit && rule.0 {
        false
    } else if rule.2.contains(id) {
        true
    } else {
        standard_cancel_target(cat) && category_rank(rule.1) <= category_rank(cat)
    }
}

impl View for CancelRule {
    type V = RuleView;

    open spec fn view(&self) -> RuleView {
        (self.requires_hit, self.category, self.specifics@)
    }
}

impl CancelRule {
    /// Whether the rule lets an action `id` of category `cat` cancel the current one,
    /// given whether the current action has hit.
    pub open spec fn permits(self, hit: bool, id: ActionId, cat: ActionCategory) -> bool {
        rule_permits(self@, hit, id, cat)
    }

    /// What `normal_recovery` gives: after a hit, specials and above.
    pub open spec fn normal_recovery_view() -> RuleView {
        (true, ActionCategory::Special, Seq::empty())
    }

    /// What `special_recovery` gives: after a hit, supers and above.
    pub open spec fn special_recovery_view() -> RuleView {
        (true, ActionCategory::Super, Seq::empty())
    }

    /// What `never` gives.
    pub open spec fn never_view() -> RuleView {
        (true, ActionCategory::Forced, Seq::empty())
    }

    /// A rule that allows nothing: it needs a hit and only admits forced actions,
    /// which no cancel window leads into.
    pub fn never() -> (r: Self)
        ensures
            r.requires_hit,
            r.category == ActionCategory::Forced,
            r.specifics@.len() == 0,
    {
        CancelRule { requires_hit: true, category: ActionCategory::Forced, specifics: Vec::new() }
    }

    pub fn any() -> (r: Self)
        ensures
            !r.requires_hit,
            r.category == ActionCategory::Dash,
            r.specifics@.len() == 0,
    {
        CancelRule { requires_hit: false, category: ActionCategory::Dash, specifics: Vec::new() }
    }

    pub fn dash() -> (r: Self)
        ensures
            !r.requires_hit,
            r.category == ActionCategory::Jump,
            r.specifics@.len() == 0,
    {
        CancelRule { requires_hit: false, category: ActionCategory::Jump, specifics: Vec::new() }
    }

    pub fn jump() -> (r: Self)
        ensures
            !r.requires_hit,
            r.category == ActionCategory::Normal,
            r.specifics@.len() == 0,
    {
        CancelRule { requires_hit: false, category: ActionCategory::Normal, specifics: Vec::new() }
    }

    pub fn normal_recovery() -> (r: Self)
        ensures
            r@ == Self::normal_recovery_view(),
            r.requires_hit,
            r.category == ActionCategory::Special,
            r.specifics@.len() == 0,
    {
        CancelRule { requires_hit: true, category: ActionCategory::Special, specifics: Vec::new() }
    }

    pub fn special_recovery() -> (r: Self)
        ensures
            r@ == Self::special_recovery_view(),
            r.requires_hit,
            r.category == ActionCategory::Super,
            r.specifics@.len() == 0,
    {
        CancelRule { requires_hit: true, category: ActionCategory::Super, specifics: Vec::new() }
    }

    pub fn specific(targets: Vec<ActionId>) -> (r: Self)
        ensures
            !r.requires_hit,
            r.category == ActionCategory::Forced,
            r.specifics@ == targets@,
    {
        CancelRule { requires_hit: false, category: ActionCategory::Forced, specifics: targets }
    }

    pub fn specific_or_category(targets: Vec<ActionId>, category: ActionCategory) -> (r: Self)
        ensures
            !r.requires_hit,
            r.category == category,
            r.specifics@ == targets@,
    {
        CancelRule { requires_hit: false, category, specifics: targets }
    }

    /// The rule for the recovery of an action of the given category: the recovery
    /// of a normal can be cancelled into specials and of a special into supers, on hit.
    pub fn cancel_out_of(category: ActionCategory) -> (r: Self)
        requires
            category == ActionCategory::Normal || category == ActionCategory::Special,
        ensures
            r.requires_hit,
            r.specifics@.len() == 0,
            category == ActionCategory::Normal ==> r.category == ActionCategory::Special,
            category == ActionCategory::Special ==> r.category == ActionCategory::Super,
            category == ActionCategory::Normal ==> r@ == Self::normal_recovery_view(),
            category == ActionCategory::Special ==> r@ == Self::special_recovery_view(),
    {
        match category {
            ActionCategory::Normal => Self::normal_recovery(),
            _ => Self::special_recovery(),
        }
    }

    pub fn can_cancel(&self, hit: bool, action_id: ActionId, action_type: ActionCategory) -> (r: bool)
        ensures
            r == self.permits(hit, action_id, action_type),
    {
        if !hit && self.requires_hit {
            return false;
        }
        if contains_action(&self.specifics, action_id) {
            return true;
        }
        action_type.can_be_standard_cancelled_into() && self.category.rank() <= action_type.rank()
    }

    /// An equal copy of the rule.
    pub fn duplicate(&self) -> (r: Self)
        ensures
            r.requires_hit == self.requires_hit,
            r.category == self.category,
            r.specifics@ == self.specifics@,
    {
        CancelRule {
            requires_hit: self.requires_hit,
            category: self.category,
            specifics: copy_actions(&self.specifics),
        }
    }
}

impl Default for CancelRule {
    fn default() -> (r: Self)
        ensures
            r.requires_hit,
            r.category == ActionCategory::Forced,
            r.specifics@.len() == 0,
    {
        Self::never()
    }
}

} // verus!
