//! Identifiers and small plain enums that the character logic is keyed by.
use vstd::prelude::*;

verus! {

/// Identifies an action (move) of a character.
#[derive(Clone, Copy, Debug, PartialEq, Eq, Hash, Structural)]
pub enum ActionId {
    TestMove,
    NeutralJump,
    ForwardJump,
    BackJump,
    NeutralSuperJump,
    ForwardSuperJump,
    BackSuperJump,
    NeutralAirJump,
    ForwardAirJump,
    BackAirJump,
    DashForward,
    DashBack,
    TrackSpikesDashForward,
    TrackSpikesDashBack,
    GiParry,
    RomaineCancel,
    FastFall,
    /// A character specific action, identified by its number in that character's move list.
    Character(u32),
    /// An action of the ronin.
    Ronin(RoninAction),
    /// An action of cpo.
    Cpo(CpoAction),
    /// The placeholder action that nothing refers to on purpose.
    Unset,
}

/// Cpo's own normals, its throws and the actions they lead into.
#[derive(Clone, Copy, Debug, PartialEq, Eq, Hash, Structural)]
pub enum CpoAction {
    Chop,
    DickJab,
    JumpingKnees,
    HookPunch,
    Stomp1,
    Stomp2,
    Stomp3,
    BodySplash,
    ForwardThrowStartup,
    BackThrowStartup,
    GroundThrowHit,
    ForwardThrowRecipient,
    BackThrowRecipient,
    AirThrowStartup,
    AirThrowHit,
    AirThrowRecipient,
}

/// Which of its three versions a special is: the fast one, the strong one or the one
/// that spends meter.
#[derive(Clone, Copy, Debug, PartialEq, Eq, Hash, Structural)]
pub enum SpecialVersion {
    Fast,
    Strong,
    Metered,
}

/// The ronin's own normals, specials, throws and the actions they lead into.
#[derive(Clone, Copy, Debug, PartialEq, Eq, Hash, Structural)]
pub enum RoninAction {
    KneeThrust,
    LowKick,
    HeelKick,
    Uppercut,
    HighStab,
    SkySlash,
    AirSlice,
    FalconKnee,
    FootDiveHold,
    FootDiveRelease,
    SwordStance(SpecialVersion),
    StanceCancel(SpecialVersion),
    StanceForwardDash(SpecialVersion),
    StanceBackDash(SpecialVersion),
    Sharpen(SpecialVersion),
    KunaiThrow(SpecialVersion),
    SwordSlam(SpecialVersion),
    ViperStrike(SpecialVersion),
    RisingSun(SpecialVersion),
    ForwardThrow,
    BackThrow,
    StandThrowHit,
    StandThrowTarget,
    CrouchThrow,
    CrouchThrowHit,
    CrouchThrowTarget,
    AirThrow,
    AirThrowHit,
    AirThrowTarget,
}

impl Default for ActionId {
    fn default() -> (r: Self)
        ensures
            r == ActionId::Unset,
    {
        ActionId::Unset
    }
}

/// How an action is classified when deciding what can cancel into what.
#[derive(Clone, Copy, Debug, PartialEq, Eq, Hash, Structural)]
pub enum ActionCategory {
    Dash,
    Jump,
    Normal,
    Special,
    Super,
    Forced,
    FollowUp,
    MegaInterrupt,
    Other,
}

/// The position of a category in the cancel order; a rule that allows a
/// category allows every category after it.
pub open spec fn category_rank(c: ActionCategory) -> int {
    match c {
        ActionCategory::Dash => 0,
        ActionCategory::Jump => 1,
        ActionCategory::Normal => 2,
        ActionCategory::Special => 3,
        ActionCategory::Super => 4,
        ActionCategory::Forced => 5,
        ActionCategory::FollowUp => 6,
        ActionCategory::MegaInterrupt => 7,
        ActionCategory::Other => 8,
    }
}

/// Categories that an ordinary cancel window can lead into.
pub open spec fn standard_cancel_target(c: ActionCategory) -> bool {
    category_rank(c) <= 4
}

impl ActionCategory {
    pub fn rank(&self) -> (r: u8)
        ensures
            r == category_rank(*self),
    {
        match self {
            ActionCategory::Dash => 0,
            ActionCategory::Jump => 1,
            ActionCategory::Normal => 2,
            ActionCategory::Special => 3,
            ActionCategory::Super => 4,
            ActionCategory::Forced => 5,
            ActionCategory::FollowUp => 6,
            ActionCategory::MegaInterrupt => 7,
            ActionCategory::Other => 8,
        }
    }

    /// Whether an ordinary cancel window can lead into an action of this category.
    pub fn can_be_standard_cancelled_into(&self) -> (r: bool)
        ensures
            r == standard_cancel_target(*self),
    {
        self.rank() <= 4
    }
}

impl Default for ActionCategory {
    fn default() -> (r: Self)
        ensures
            r == ActionCategory::Other,
    {
        ActionCategory::Other
    }
}

/// Identifies an item that can be bought in the shop.
#[derive(Clone, Copy, Debug, PartialEq, Eq, Hash, Structural)]
pub enum ItemId {
    Gi,
    Boots,
    HockeyPads,
    RedPaint,
    PreWorkout,
    ComicBook,
    FeatheredBoots,
    MoonBoots,
    TrackSpikes,
    RomaineLettuce,
    DivingHelmet,
    IceCube,
    SpareKunai,
    KunaiPouch,
    KunaiBelt,
    MiniTasers,
    Protractor,
    BladeOil,
    SmithyCoupon,
    Fireaxe,
    SmokeBomb,
    Stopwatch,
    Crowbar,
    OliveOil,
    Dumbbell,
    Feather,
    Cigarettes,
    ThumbTacks,
    Wing,
    GoalieGear,
    SpaceSuitBoots,
    Roids,
    /// A character specific item, identified by its number in that character's shop.
    Character(u32),
}

/// A button of the controller.
#[derive(Clone, Copy, Debug, PartialEq, Eq, Hash, Structural)]
pub enum GameButton {
    Fast,
    Strong,
    Wrestling,
    Gimmick,
    Equipment,
}

/// A stick position in numpad notation.
#[derive(Clone, Copy, Debug, PartialEq, Eq, Hash, Structural)]
pub enum StickPosition {
    SW,
    S,
    SE,
    W,
    Neutral,
    E,
    NW,
    N,
    NE,
}

/// Kinds of cancel windows an action can open.
#[derive(Clone, Debug, PartialEq, Eq, Hash)]
pub enum CancelType {
    Special,
    Super,
    Specific(Vec<ActionId>),
    Anything,
}

/// Conditions a character can be in.
#[derive(Clone, Debug, PartialEq, Eq, Hash)]
pub enum StatusFlag {
    Intangible,
    DoubleJumped,
    MovementLock,
    Parry,
    ComicCancelCooldown,
    Cancel(CancelType),
    Jackpot { target_frame: usize },
}

/// Two cancel types are the same: of one kind, and naming the same actions in order.
pub open spec fn cancel_type_eq(a: CancelType, b: CancelType) -> bool {
    match (a, b) {
        (CancelType::Specific(x), CancelType::Specific(y)) => x@ == y@,
        _ => a == b,
    }
}

/// Two flags are the same, comparing cancel types by what they name.
pub open spec fn flag_eq(a: StatusFlag, b: StatusFlag) -> bool {
    match (a, b) {
        (StatusFlag::Cancel(x), StatusFlag::Cancel(y)) => cancel_type_eq(x, y),
        _ => a == b,
    }
}

/// Two conditions are the same, comparing their flags by `flag_eq`.
pub open spec fn condition_eq(a: StatusCondition, b: StatusCondition) -> bool {
    flag_eq(a.flag, b.flag) && a.expiration == b.expiration
}

impl CancelType {
    /// A copy of this cancel type.
    pub fn duplicate(&self) -> (r: Self)
        ensures
            cancel_type_eq(r, *self),
    {
        match self {
            CancelType::Special => CancelType::Special,
            CancelType::Super => CancelType::Super,
            CancelType::Specific(ids) => CancelType::Specific(crate::cancels::copy_actions(ids)),
            CancelType::Anything => CancelType::Anything,
        }
    }
}

impl StatusFlag {
    /// A copy of this flag.
    pub fn duplicate(&self) -> (r: Self)
        ensures
            flag_eq(r, *self),
    {
        match self {
            StatusFlag::Intangible => StatusFlag::Intangible,
            StatusFlag::DoubleJumped => StatusFlag::DoubleJumped,
            StatusFlag::MovementLock => StatusFlag::MovementLock,
            StatusFlag::Parry => StatusFlag::Parry,
            StatusFlag::ComicCancelCooldown => StatusFlag::ComicCancelCooldown,
            StatusFlag::Cancel(ct) => StatusFlag::Cancel(ct.duplicate()),
            StatusFlag::Jackpot { target_frame } => StatusFlag::Jackpot { target_frame: *target_frame },
        }
    }
}

/// A status flag together with how long it lasts.
#[derive(Clone, Debug, PartialEq, Eq, Hash)]
pub struct StatusCondition {
    pub flag: StatusFlag,
    pub expiration: Option<usize>,
}

impl StatusCondition {
    /// A copy of this condition.
    pub fn duplicate(&self) -> (r: Self)
        ensures
            condition_eq(r, *self),
    {
        StatusCondition { flag: self.flag.duplicate(), expiration: self.expiration }
    }
}

/// Lines a character can say.
#[derive(Clone, Copy, Debug, PartialEq, Eq, Hash, Structural)]
pub enum VoiceLine {
    Defeat,
    BigHit,
    SmallHit,
}

/// The stance an action is performed from.
#[derive(Clone, Copy, Debug, PartialEq, Eq, Hash, Structural)]
pub enum SimpleState {
    Stand,
    Crouch,
    Air,
}

/// The height an attack has to be blocked at.
#[derive(Clone, Copy, Debug, PartialEq, Eq, Hash, Structural)]
pub enum AttackHeight {
    Low,
    Mid,
    High,
}

} // verus!
