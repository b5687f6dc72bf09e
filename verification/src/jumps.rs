//! The inputs of the jumps every character has.
use vstd::prelude::*;
use crate::ids::{ActionCategory, ActionId, ItemId, StatusCondition, StatusFlag};
use crate::events::ActionEvent;
use crate::script::{ActionClock, clock_on_frame, clock_after_frame};
use crate::requirements::ActionRequirement;

verus! {

/// The kind of a jump.
#[derive(Debug, Clone, Copy, PartialEq, Eq, Structural)]
pub enum JumpType {
    Basic,
    Air,
    Super,
}

/// The direction of a jump.
#[derive(Debug, Clone, Copy, PartialEq, Eq, Structural)]
pub enum JumpDirection {
    Neutral,
    Forward,
    Back,
}

/// The stick direction that starts a jump, in numpad notation.
pub open spec fn direction_digit(d: JumpDirection) -> char {
    match d {
        JumpDirection::Neutral => '8',
        JumpDirection::Forward => '9',
        JumpDirection::Back => '7',
    }
}

/// The input of a jump: super jumps first need the stick held down.
pub open spec fn jump_notation(d: JumpDirection, t: JumpType) -> Seq<char> {
    if t == JumpType::Super {
        seq!['[', '1', '2', '3', ']', direction_digit(d)]
    } else {
        seq![direction_digit(d)]
    }
}

impl JumpDirection {
    pub fn input(&self, jump_type: JumpType) -> (r: String)
        ensures
            r@ == jump_notation(*self, jump_type),
    {
        if jump_type == JumpType::Super {
            self.super_input()
        } else {
            self.base_input()
        }
    }

    fn base_input(&self) -> (r: String)
        ensures
            r@ == seq![direction_digit(*self)],
    {
        match self {
            JumpDirection::Neutral => {
                proof { reveal_strlit("8"); }
                "8".to_owned()
            },
            JumpDirection::Forward => {
                proof { reveal_strlit("9"); }
                "9".to_owned()
            },
            JumpDirection::Back => {
                proof { reveal_strlit("7"); }
                "7".to_owned()
            },
        }
    }

    fn super_input(&self) -> (r: String)
        ensures
            r@ == seq!['[', '1', '2', '3', ']', direction_digit(*self)],
    {
        match self {
            JumpDirection::Neutral => {
                proof { reveal_strlit("[123]8"); }
                "[123]8".to_owned()
            },
            JumpDirection::Forward => {
                proof { reveal_strlit("[123]9"); }
                "[123]9".to_owned()
            },
            JumpDirection::Back => {
                proof { reveal_strlit("[123]7"); }
                "[123]7".to_owned()
            },
        }
    }
}

/// What a jump of the given kind requires, all together: the ground (or the air for a
/// double jump), the item that grants it, no earlier double jump, and the right to start.
pub open spec fn jump_requirements(t: JumpType) -> Seq<ActionRequirement> {
    match t {
        JumpType::Basic => seq![
            ActionRequirement::Grounded,
            ActionRequirement::Starter(ActionCategory::Jump),
        ],
        JumpType::Air => seq![
            ActionRequirement::Airborne,
            ActionRequirement::ItemOwned(ItemId::FeatheredBoots),
            ActionRequirement::StatusNotActive(StatusFlag::DoubleJumped),
            ActionRequirement::Starter(ActionCategory::Jump),
        ],
        JumpType::Super => seq![
            ActionRequirement::Grounded,
            ActionRequirement::ItemOwned(ItemId::MoonBoots),
            ActionRequirement::Starter(ActionCategory::Jump),
        ],
    }
}

/// What a jump of the given kind requires (see `jump_requirements`).
pub fn jump_requirement(jump_type: JumpType) -> (r: ActionRequirement)
    ensures
        r matches ActionRequirement::And(list) && list@ == jump_requirements(jump_type),
{
    let list = match jump_type {
        JumpType::Basic => vec![
            ActionRequirement::Grounded,
            ActionRequirement::Starter(ActionCategory::Jump),
        ],
        JumpType::Air => vec![
            ActionRequirement::Airborne,
            ActionRequirement::ItemOwned(ItemId::FeatheredBoots),
            ActionRequirement::StatusNotActive(StatusFlag::DoubleJumped),
            ActionRequirement::Starter(ActionCategory::Jump),
        ],
        JumpType::Super => vec![
            ActionRequirement::Grounded,
            ActionRequirement::ItemOwned(ItemId::MoonBoots),
            ActionRequirement::Starter(ActionCategory::Jump),
        ],
    };
    proof {
        assert(list@ =~= jump_requirements(jump_type));
    }
    ActionRequirement::And(list)
}

/// The frames between the start of a jump and its take-off: one for an air jump,
/// three otherwise.
pub open spec fn launch_frame(t: JumpType) -> usize {
    if t == JumpType::Air { 1 } else { 3 }
}

/// The plain events a jump starts with: an air jump stops the current movement and
/// uses up the double jump; a ground jump blocks double jumps for ten frames so that a
/// low jump does not turn into one.
pub open spec fn jump_start_events(t: JumpType) -> Seq<ActionEvent> {
    if t == JumpType::Air {
        seq![
            ActionEvent::ClearMovement,
            ActionEvent::Condition(StatusCondition { flag: StatusFlag::DoubleJumped, expiration: None }),
        ]
    } else {
        seq![ActionEvent::Condition(StatusCondition { flag: StatusFlag::DoubleJumped, expiration: Some(10usize) })]
    }
}

/// What a jump does on a frame.
#[derive(Debug)]
pub enum JumpStep {
    /// The first frame: these events, after the jump's animation.
    Start(Vec<ActionEvent>),
    /// The take-off frame: the jump's impulse and its speed lines.
    Launch,
    /// Any other frame: these events; the jump ends five frames after take-off.
    Rest(Vec<ActionEvent>),
}

/// What a jump of the given kind does at the clock's frame.
pub fn jump_step(jump_type: JumpType, clock: &ActionClock) -> (r: JumpStep)
    ensures
        clock_on_frame(*clock, 0) ==> (r matches JumpStep::Start(evs) && evs@ == jump_start_events(jump_type)),
        !clock_on_frame(*clock, 0) && clock_on_frame(*clock, launch_frame(jump_type)) ==> r is Launch,
        !clock_on_frame(*clock, 0) && !clock_on_frame(*clock, launch_frame(jump_type)) ==> (r matches JumpStep::Rest(evs)
            && evs@ == (if clock_after_frame(*clock, (launch_frame(jump_type) + 5) as usize) {
                seq![ActionEvent::End]
            } else {
                seq![]
            })),
{
    if clock.on_frame(0) {
        let evs = match jump_type {
            JumpType::Air => vec![
                ActionEvent::ClearMovement,
                ActionEvent::Condition(StatusCondition { flag: StatusFlag::DoubleJumped, expiration: None }),
            ],
            _ => vec![ActionEvent::Condition(StatusCondition { flag: StatusFlag::DoubleJumped, expiration: Some(10) })],
        };
        assert(evs@ =~= jump_start_events(jump_type));
        return JumpStep::Start(evs);
    }
    let delay: usize = match jump_type {
        JumpType::Air => 1,
        _ => 3,
    };
    if clock.on_frame(delay) {
        return JumpStep::Launch;
    }
    JumpStep::Rest(clock.end_at(delay + 5))
}

/// The jumps every character has, in order: basic, super and air jumps, each back,
/// neutral and forward.
pub open spec fn jump_variants() -> Seq<(ActionId, JumpDirection, JumpType)> {
    seq![
        (ActionId::BackJump, JumpDirection::Back, JumpType::Basic),
        (ActionId::NeutralJump, JumpDirection::Neutral, JumpType::Basic),
        (ActionId::ForwardJump, JumpDirection::Forward, JumpType::Basic),
        (ActionId::BackSuperJump, JumpDirection::Back, JumpType::Super),
        (ActionId::NeutralSuperJump, JumpDirection::Neutral, JumpType::Super),
        (ActionId::ForwardSuperJump, JumpDirection::Forward, JumpType::Super),
        (ActionId::BackAirJump, JumpDirection::Back, JumpType::Air),
        (ActionId::NeutralAirJump, JumpDirection::Neutral, JumpType::Air),
        (ActionId::ForwardAirJump, JumpDirection::Forward, JumpType::Air),
    ]
}

/// The jumps every character has, each with its direction and kind.
pub fn jumps() -> (r: Vec<(ActionId, JumpDirection, JumpType)>)
    ensures
        r@ == jump_variants(),
{
    let r = vec![
        (ActionId::BackJump, JumpDirection::Back, JumpType::Basic),
        (ActionId::NeutralJump, JumpDirection::Neutral, JumpType::Basic),
        (ActionId::ForwardJump, JumpDirection::Forward, JumpType::Basic),
        (ActionId::BackSuperJump, JumpDirection::Back, JumpType::Super),
        (ActionId::NeutralSuperJump, JumpDirection::Neutral, JumpType::Super),
        (ActionId::ForwardSuperJump, JumpDirection::Forward, JumpType::Super),
        (ActionId::BackAirJump, JumpDirection::Back, JumpType::Air),
        (ActionId::NeutralAirJump, JumpDirection::Neutral, JumpType::Air),
        (ActionId::ForwardAirJump, JumpDirection::Forward, JumpType::Air),
    ];
    assert(r@ =~= jump_variants());
    r
}

/// A jump action: its input and requirement, and the direction and kind that decide
/// what each of its frames does (`step`). The impulse and speed lines of its take-off
/// are left to the game, which scales them by the character's jump force and facing.
#[derive(Debug)]
pub struct JumpAction {
    pub input: Option<String>,
    pub requirement: ActionRequirement,
    pub direction: JumpDirection,
    pub jump_type: JumpType,
}

/// `a` is the jump in direction `d` of kind `t`.
pub open spec fn is_jump(a: JumpAction, d: JumpDirection, t: JumpType) -> bool {
    &&& a.input matches Some(s) && s@ == jump_notation(d, t)
    &&& a.requirement matches ActionRequirement::And(list) && list@ == jump_requirements(t)
    &&& a.direction == d
    &&& a.jump_type == t
}

impl JumpAction {
    /// The jump in the given direction, of the given kind.
    pub fn new(direction: JumpDirection, jump_type: JumpType) -> (r: Self)
        ensures
            is_jump(r, direction, jump_type),
    {
        JumpAction {
            input: Some(direction.input(jump_type)),
            requirement: jump_requirement(jump_type),
            direction,
            jump_type,
        }
    }

    /// What the jump does at the clock's frame (see `jump_step`).
    pub fn step(&self, clock: &ActionClock) -> (r: JumpStep)
        ensures
            clock_on_frame(*clock, 0) ==> (r matches JumpStep::Start(evs) && evs@ == jump_start_events(self.jump_type)),
            !clock_on_frame(*clock, 0) && clock_on_frame(*clock, launch_frame(self.jump_type)) ==> r is Launch,
            !clock_on_frame(*clock, 0) && !clock_on_frame(*clock, launch_frame(self.jump_type)) ==> (r matches JumpStep::Rest(evs)
                && evs@ == (if clock_after_frame(*clock, (launch_frame(self.jump_type) + 5) as usize) {
                    seq![ActionEvent::End]
                } else {
                    seq![]
                })),
    {
        jump_step(self.jump_type, clock)
    }
}

/// The nine jump actions every character has, in the order of `jump_variants`: each
/// with its identifier, input notation and requirements.
pub fn jump_actions() -> (r: Vec<(ActionId, JumpAction)>)
    ensures
        r@.len() == jump_variants().len(),
        forall|i: int| 0 <= i < r@.len() ==> {
            &&& (#[trigger] r@[i]).0 == jump_variants()[i].0
            &&& is_jump(r@[i].1, jump_variants()[i].1, jump_variants()[i].2)
        },
{
    let variants = jumps();
    let mut out: Vec<(ActionId, JumpAction)> = Vec::new();
    let mut i: usize = 0;
    while i < variants.len()
        invariant
            variants@ == jump_variants(),
            i <= variants@.len(),
            out@.len() == i,
            forall|k: int| 0 <= k < i ==> {
                &&& (#[trigger] out@[k]).0 == jump_variants()[k].0
                &&& is_jump(out@[k].1, jump_variants()[k].1, jump_variants()[k].2)
            },
        decreases variants@.len() - i,
    {
        let (id, direction, jump_type) = variants[i];
        out.push((id, JumpAction::new(direction, jump_type)));
        i = i + 1;
    }
    out
}

} // verus!
