//! Resolving a strike that connects: damage, stun, chip and jackpot bonuses.
use vstd::prelude::*;
use crate::ids::{AttackHeight, CancelType, StatusCondition, StatusFlag, VoiceLine, flag_eq};
use crate::events::{ActionEvent, FlashKind, event_eq, events_eq, duplicate_events};
use crate::resources::{ResourceType, Stats, has_type, is_first_of};
use crate::situation::Situation;
use crate::collections::{flag_set, flag_in, flag_set_items};

verus! {

/// Tuning numbers of the game that hit resolution and the shop read.
#[derive(Clone, Copy, Debug)]
pub struct Tuning {
    pub big_hit_threshold: i32,
    pub small_hit_threshold: i32,
    pub on_hit_hitstop: usize,
    pub on_block_hitstop: usize,
    pub jackpot_meter_gain: i32,
}

/// A stun duration, either relative to the attack's recovery or fixed.
#[derive(Clone, Copy, Debug, PartialEq, Eq, Structural)]
pub enum Stun {
    Relative(i32),
    Absolute(usize),
}

impl Default for Stun {
    fn default() -> (r: Self)
        ensures
            r == Stun::Absolute(0),
    {
        Stun::Absolute(0)
    }
}

/// What a clean hit does to the defender's state.
#[derive(Clone, Copy, Debug, PartialEq, Eq, Structural)]
pub enum HitStun {
    Stun(Stun),
    /// Launches; the impulse is a presentation detail kept beside the profile.
    Launch,
    Knockdown,
}

/// Information about a hit that connected.
#[derive(Clone, Copy, Debug)]
pub struct HitInfo {
    pub avoided: bool,
    pub airborne: bool,
    pub defender_stats: Stats,
}

/// The numbers that decide what a strike does.
#[derive(Clone, Debug)]
pub struct StrikeProfile {
    pub block_stun: Stun,
    pub block_height: AttackHeight,
    pub chip_damage: i32,
    pub hit_stun: HitStun,
    pub base_damage: i32,
    pub sharpness_scaling: i32,
    pub cancel: Option<(CancelType, Option<usize>)>,
}

/// A strike before anything is set: a mid with one chip damage that cancels into specials.
pub open spec fn default_strike() -> StrikeProfile {
    StrikeProfile {
        block_stun: Stun::Absolute(0),
        block_height: AttackHeight::Mid,
        chip_damage: 1,
        hit_stun: HitStun::Stun(Stun::Absolute(0)),
        base_damage: 0,
        sharpness_scaling: 0,
        cancel: Some((CancelType::Special, None)),
    }
}

impl Default for StrikeProfile {
    fn default() -> (r: Self)
        ensures
            r == default_strike(),
    {
        StrikeProfile {
            block_stun: Stun::Absolute(0),
            block_height: AttackHeight::Mid,
            chip_damage: 1,
            hit_stun: HitStun::Stun(Stun::Absolute(0)),
            base_damage: 0,
            sharpness_scaling: 0,
            cancel: Some((CancelType::Special, None)),
        }
    }
}

/// How the defender is stunned by a clean hit.
#[derive(Clone, Copy, Debug, PartialEq, Eq, Structural)]
pub enum StunOutcome {
    HitStun(usize),
    /// Launched with the profile's impulse.
    Launch,
    /// Launched with no impulse.
    Knockdown,
}

/// Everything a strike decides when it connects.
#[derive(Clone, Debug)]
pub struct StrikeOutcome {
    pub avoided: bool,
    /// On block: the chip damage dealt, if any.
    pub chip_damage: Option<i32>,
    /// On block: frames of block stun.
    pub block_stun: usize,
    /// On hit: the damage dealt.
    pub damage: i32,
    /// On hit: how the defender is stunned.
    pub stun: StunOutcome,
    /// On hit against an airborne defender that is not launched anyway: relaunch it.
    pub airborne_relaunch: bool,
    /// On hit: the line the defender says.
    pub voice_line: Option<VoiceLine>,
    /// On hit: meter the attacker gains from the jackpot.
    pub meter_gain: i32,
    /// On hit: how well the hit was timed against the jackpot, from 0 to 3.
    pub jackpot_level: u32,
    /// Frames both characters freeze.
    pub hitstop: usize,
}

/// The jackpot level of a hit `offset` frames away from the jackpot frame.
pub open spec fn jackpot_level_of(offset: int) -> u32 {
    if offset == 0 {
        3
    } else if 1 <= offset < 3 {
        2
    } else if 3 <= offset < 6 {
        1
    } else {
        0
    }
}

/// The jackpot multiplier in quarters: full, half, quarter or nothing.
pub open spec fn jackpot_quarters(level: u32) -> int {
    if level == 3 {
        4
    } else if level == 2 {
        2
    } else if level == 1 {
        1
    } else {
        0
    }
}

/// The distance between two frames.
pub open spec fn frame_distance(a: usize, b: usize) -> int {
    if a >= b { a - b } else { b - a }
}

/// A stun length resolved against the attack's recovery.
pub open spec fn stun_frames(stun: Stun, recovery: i32) -> usize {
    match stun {
        Stun::Relative(advantage) => (recovery + advantage) as usize,
        Stun::Absolute(frames) => frames,
    }
}

/// `v * quarters / 4`, rounded toward zero.
pub open spec fn scale_quarters(v: int, quarters: int) -> int {
    let p = v * quarters;
    if p >= 0 { p / 4 } else { -((-p) / 4) }
}

/// The sharpness the situation records; none counts as zero.
pub open spec fn sharpness_of(sit: Situation) -> int {
    if has_type(sit.resources@, ResourceType::Sharpness) {
        let i = choose|i: int| is_first_of(sit.resources@, ResourceType::Sharpness, i);
        sit.resources@[i].1.current as int
    } else {
        0
    }
}

/// Whether the flag is a jackpot flag.
pub open spec fn is_jackpot(f: StatusFlag) -> bool {
    f matches StatusFlag::Jackpot { .. }
}

fn resolve_stun(stun: Stun, recovery: i32) -> (r: usize)
    requires
        stun matches Stun::Relative(a) ==> i32::MIN <= recovery + a <= i32::MAX,
    ensures
        r == stun_frames(stun, recovery),
{
    match stun {
        Stun::Relative(advantage) => (recovery + advantage) as usize,
        Stun::Absolute(frames) => frames,
    }
}

/// The jackpot target frame of some jackpot flag of the situation, if there is one.
fn jackpot_target(situation: &Situation) -> (r: Option<usize>)
    ensures
        r is None <==> !exists|t: usize| flag_set(situation.status_flags).contains(StatusFlag::Jackpot { target_frame: t }),
        r matches Some(t) ==> flag_set(situation.status_flags).contains(StatusFlag::Jackpot { target_frame: t }),
{
    let flags = flag_set_items(&situation.status_flags);
    let mut i: usize = 0;
    while i < flags.len()
        invariant
            i <= flags@.len(),
            forall|k: int| 0 <= k < flags@.len() ==> #[trigger] flag_in(flag_set(situation.status_flags), flags@[k]),
            forall|g: StatusFlag| #[trigger] flag_set(situation.status_flags).contains(g) ==>
                exists|k: int| 0 <= k < flags@.len() && flag_eq(flags@[k], g),
            forall|j: int| 0 <= j < i ==> !is_jackpot(#[trigger] flags@[j]),
        decreases flags@.len() - i,
    {
        match &flags[i] {
            StatusFlag::Jackpot { target_frame } => {
                proof {
                    let f = flags@[i as int];
                    assert(flag_in(flag_set(situation.status_flags), f));
                    let g = choose|g: StatusFlag| flag_set(situation.status_flags).contains(g)
                        && #[trigger] flag_eq(g, f);
                    lemma_jackpot_eq(g, f);
                }
                return Some(*target_frame);
            },
            _ => {},
        }
        i = i + 1;
    }
    proof {
        assert forall|t: usize| !flag_set(situation.status_flags).contains(StatusFlag::Jackpot { target_frame: t }) by {
            let jf = StatusFlag::Jackpot { target_frame: t };
            if flag_set(situation.status_flags).contains(jf) {
                let k = choose|k: int| 0 <= k < flags@.len() && flag_eq(flags@[k], jf);
                lemma_jackpot_eq(flags@[k], jf);
                assert(is_jackpot(flags@[k]));
            }
        }
    }
    None
}

/// A flag equal to a jackpot flag is that very flag.
proof fn lemma_jackpot_eq(a: StatusFlag, b: StatusFlag)
    requires
        flag_eq(a, b),
        is_jackpot(a) || is_jackpot(b),
    ensures
        a == b,
{
}

/// `lvl` is the jackpot level of a hit in the situation, for one of its jackpot flags,
/// or zero when it has none.
pub open spec fn jackpot_level_possible(sit: Situation, lvl: u32) -> bool {
    if exists|t: usize| flag_set(sit.status_flags).contains(StatusFlag::Jackpot { target_frame: t }) {
        exists|t: usize| flag_set(sit.status_flags).contains(StatusFlag::Jackpot { target_frame: t })
            && lvl == jackpot_level_of(frame_distance(sit.abs_frame, t))
    } else {
        lvl == 0
    }
}

/// `v` saturated into the range of `i32`.
pub open spec fn saturate_i32(v: int) -> int {
    if v > i32::MAX { i32::MAX as int } else if v < i32::MIN { i32::MIN as int } else { v }
}

/// The damage of a clean hit: base damage plus sharpness bonus, raised by the jackpot.
pub open spec fn hit_damage(profile: StrikeProfile, sharpness: int, level: u32) -> int {
    saturate_i32(scale_quarters(
        profile.base_damage + profile.sharpness_scaling * sharpness,
        4 + jackpot_quarters(level),
    ))
}

/// What a clean hit stuns with.
pub open spec fn stun_outcome(profile: StrikeProfile, recovery: i32, level: u32) -> StunOutcome {
    match profile.hit_stun {
        HitStun::Stun(stun) => StunOutcome::HitStun((stun_frames(stun, recovery) + 5 * jackpot_quarters(level)) as usize),
        HitStun::Launch => StunOutcome::Launch,
        HitStun::Knockdown => StunOutcome::Knockdown,
    }
}

/// The line a defender says after taking `damage`.
pub open spec fn voice_line_for(damage: int, tuning: Tuning) -> Option<VoiceLine> {
    if damage >= tuning.big_hit_threshold {
        Some(VoiceLine::BigHit)
    } else if damage >= tuning.small_hit_threshold {
        Some(VoiceLine::SmallHit)
    } else {
        None
    }
}

/// The conditions under which resolving a strike stays within machine numbers.
pub open spec fn strike_in_range(profile: StrikeProfile, recovery: i32, sit: Situation) -> bool {
    &&& sit.abs_frame <= isize::MAX
    &&& forall|t: usize| flag_set(sit.status_flags).contains(StatusFlag::Jackpot { target_frame: t }) ==> t <= isize::MAX
    &&& i32::MIN <= profile.sharpness_scaling * sharpness_of(sit) <= i32::MAX
    &&& i32::MIN <= profile.base_damage + profile.sharpness_scaling * sharpness_of(sit) <= i32::MAX
    &&& (profile.block_stun matches Stun::Relative(a) ==> i32::MIN <= recovery + a <= i32::MAX)
    &&& (profile.hit_stun matches HitStun::Stun(stun) ==> {
        &&& (stun matches Stun::Relative(a) ==> i32::MIN <= recovery + a <= i32::MAX)
        &&& forall|t: usize| #[trigger] flag_set(sit.status_flags).contains(StatusFlag::Jackpot { target_frame: t }) ==>
            stun_frames(stun, recovery) + 5 * jackpot_quarters(jackpot_level_of(frame_distance(sit.abs_frame, t))) <= usize::MAX
    })
}

impl StrikeProfile {
    /// Decides what the strike does when it connects; on a clean hit the jackpot of
    /// one of the situation's jackpot flags raises damage, stun and meter.
    pub fn resolve(&self, recovery: i32, situation: &Situation, hit_data: &HitInfo, tuning: &Tuning) -> (r: StrikeOutcome)
        requires
            strike_in_range(*self, recovery, *situation),
        ensures
            r.avoided == hit_data.avoided,
            r.hitstop == (if hit_data.avoided { tuning.on_block_hitstop } else { tuning.on_hit_hitstop }),
            jackpot_level_possible(*situation, r.jackpot_level),
            hit_data.avoided ==> {
                &&& r.chip_damage == (if hit_data.defender_stats.chip_damage && self.chip_damage > 0 {
                    Some(self.chip_damage)
                } else {
                    None
                })
                &&& r.block_stun == stun_frames(self.block_stun, recovery)
                &&& r.damage == 0
                &&& r.meter_gain == 0
                &&& r.voice_line is None
                &&& !r.airborne_relaunch
            },
            !hit_data.avoided ==> {
                &&& r.chip_damage is None
                &&& r.block_stun == 0
                &&& r.damage == hit_damage(*self, sharpness_of(*situation), r.jackpot_level)
                &&& r.stun == stun_outcome(*self, recovery, r.jackpot_level)
                &&& r.airborne_relaunch == (hit_data.airborne && self.hit_stun matches HitStun::Stun(_))
                &&& r.voice_line == voice_line_for(r.damage as int, *tuning)
                &&& r.meter_gain == scale_quarters(tuning.jackpot_meter_gain as int, jackpot_quarters(r.jackpot_level))
            },
    {
        let sharpness: i32 = match situation.get_resource(ResourceType::Sharpness) {
            Some(g) => {
                proof {
                    let i = choose|i: int| is_first_of(situation.resources@, ResourceType::Sharpness, i)
                        && *g == situation.resources@[i].1;
                    let k = choose|k: int| is_first_of(situation.resources@, ResourceType::Sharpness, k);
                    crate::requirements::lemma_first_unique(situation.resources@, ResourceType::Sharpness, i, k);
                }
                g.current
            },
            None => 0,
        };
        let level: u32 = match jackpot_target(situation) {
            Some(target) => {
                let offset: usize = if situation.abs_frame >= target {
                    situation.abs_frame - target
                } else {
                    target - situation.abs_frame
                };
                let lvl: u32 = if offset == 0 {
                    3
                } else if offset < 3 {
                    2
                } else if offset < 6 {
                    1
                } else {
                    0
                };
                assert(offset == frame_distance(situation.abs_frame, target));
                assert(flag_set(situation.status_flags).contains(StatusFlag::Jackpot { target_frame: target })
                    && lvl == jackpot_level_of(frame_distance(situation.abs_frame, target)));
                assert(self.hit_stun matches HitStun::Stun(st) ==> stun_frames(st, recovery) + 5 * jackpot_quarters(lvl) <= usize::MAX);
                lvl
            },
            None => 0,
        };
        assert(jackpot_level_possible(*situation, level));
        assert(self.hit_stun matches HitStun::Stun(st) ==> stun_frames(st, recovery) + 5 * jackpot_quarters(level) <= usize::MAX);
        let quarters: i64 = if level == 3 {
            4
        } else if level == 2 {
            2
        } else if level == 1 {
            1
        } else {
            0
        };
        if hit_data.avoided {
            let chip = if hit_data.defender_stats.chip_damage && self.chip_damage > 0 {
                Some(self.chip_damage)
            } else {
                None
            };
            StrikeOutcome {
                avoided: true,
                chip_damage: chip,
                block_stun: resolve_stun(self.block_stun, recovery),
                damage: 0,
                stun: StunOutcome::HitStun(0),
                airborne_relaunch: false,
                voice_line: None,
                meter_gain: 0,
                jackpot_level: level,
                hitstop: tuning.on_block_hitstop,
            }
        } else {
            let raw: i64 = (self.base_damage + self.sharpness_scaling * sharpness) as i64;
            let scaled: i64 = quarter_scale(raw, 4 + quarters);
            let damage: i32 = if scaled > i32::MAX as i64 {
                i32::MAX
            } else if scaled < i32::MIN as i64 {
                i32::MIN
            } else {
                scaled as i32
            };
            let (launcher, stun) = match self.hit_stun {
                HitStun::Stun(stun) => (false, StunOutcome::HitStun(resolve_stun(stun, recovery) + (5 * quarters) as usize)),
                HitStun::Launch => (true, StunOutcome::Launch),
                HitStun::Knockdown => (true, StunOutcome::Knockdown),
            };
            let voice_line = if damage >= tuning.big_hit_threshold {
                Some(VoiceLine::BigHit)
            } else if damage >= tuning.small_hit_threshold {
                Some(VoiceLine::SmallHit)
            } else {
                None
            };
            let gain = quarter_scale(tuning.jackpot_meter_gain as i64, quarters);
            StrikeOutcome {
                avoided: false,
                chip_damage: None,
                block_stun: 0,
                damage,
                stun,
                airborne_relaunch: hit_data.airborne && !launcher,
                voice_line,
                meter_gain: gain as i32,
                jackpot_level: level,
                hitstop: tuning.on_hit_hitstop,
            }
        }
    }
}

/// `v * quarters / 4`, rounded toward zero, for values well inside `i64`.
fn quarter_scale(v: i64, quarters: i64) -> (r: i64)
    requires
        i32::MIN <= v <= i32::MAX,
        0 <= quarters <= 8,
    ensures
        r == scale_quarters(v as int, quarters as int),
{
    assert(i32::MIN * 8 <= v * quarters <= i32::MAX * 8) by (nonlinear_arith)
        requires
            i32::MIN <= v <= i32::MAX,
            0 <= quarters <= 8;
    let p = v * quarters;
    if p >= 0 { p / 4 } else { -((-p) / 4) }
}

impl StrikeProfile {
    /// Whether every number a strike must have has been set: damage and both stuns.
    pub open spec fn is_complete(&self) -> bool {
        &&& self.base_damage != 0
        &&& self.block_stun != Stun::Absolute(0)
        &&& self.hit_stun != HitStun::Stun(Stun::Absolute(0))
    }

    /// Checks that damage and both stuns have been set.
    pub fn complete(&self) -> (r: bool)
        ensures
            r == self.is_complete(),
    {
        self.base_damage != 0 && self.block_stun != Stun::Absolute(0)
            && self.hit_stun != HitStun::Stun(Stun::Absolute(0))
    }

    pub fn with_height(self, block_height: AttackHeight) -> (r: Self)
        ensures
            r == (StrikeProfile { block_height, ..self }),
    {
        StrikeProfile { block_height, ..self }
    }

    pub fn with_blockstun(self, stun: Stun) -> (r: Self)
        ensures
            r == (StrikeProfile { block_stun: stun, ..self }),
    {
        StrikeProfile { block_stun: stun, ..self }
    }

    pub fn with_hitstun(self, stun: Stun) -> (r: Self)
        ensures
            r == (StrikeProfile { hit_stun: HitStun::Stun(stun), ..self }),
    {
        StrikeProfile { hit_stun: HitStun::Stun(stun), ..self }
    }

    /// Makes a clean hit launch the defender.
    pub fn launches(self) -> (r: Self)
        ensures
            r == (StrikeProfile { hit_stun: HitStun::Launch, ..self }),
    {
        StrikeProfile { hit_stun: HitStun::Launch, ..self }
    }

    /// Makes a clean hit knock the defender down.
    pub fn knocks_down(self) -> (r: Self)
        ensures
            r == (StrikeProfile { hit_stun: HitStun::Knockdown, ..self }),
    {
        StrikeProfile { hit_stun: HitStun::Knockdown, ..self }
    }

    pub fn with_damage(self, damage: i32) -> (r: Self)
        ensures
            r == (StrikeProfile { base_damage: damage, ..self }),
    {
        StrikeProfile { base_damage: damage, ..self }
    }

    pub fn with_chip_damage(self, chip_damage: i32) -> (r: Self)
        ensures
            r == (StrikeProfile { chip_damage, ..self }),
    {
        StrikeProfile { chip_damage, ..self }
    }

    pub fn with_sharpness_scaling(self, sharpness_scaling: i32) -> (r: Self)
        ensures
            r == (StrikeProfile { sharpness_scaling, ..self }),
    {
        StrikeProfile { sharpness_scaling, ..self }
    }

    /// A clean hit or block opens a cancel window of the given kind and length.
    pub fn with_cancel_window(self, ct: CancelType, window: usize) -> (r: Self)
        ensures
            r == (StrikeProfile { cancel: Some((ct, Some(window))), ..self }),
    {
        StrikeProfile { cancel: Some((ct, Some(window))), ..self }
    }

    /// A clean hit or block opens a cancel window of the given kind until the action ends.
    pub fn with_cancel(self, ct: CancelType) -> (r: Self)
        ensures
            r == (StrikeProfile { cancel: Some((ct, None)), ..self }),
    {
        StrikeProfile { cancel: Some((ct, None)), ..self }
    }

    /// The event that opens the strike's cancel window for the attacker, whether the strike
    /// hits or is blocked; nothing when the strike opens no window.
    pub fn cancel_event(&self) -> (r: ActionEvent)
        ensures
            event_eq(r, cancel_event_of(*self)),
            self.cancel is None ==> r == ActionEvent::Noop,
            self.cancel matches Some((ct, window)) ==> event_eq(r, ActionEvent::Condition(StatusCondition {
                flag: StatusFlag::Cancel(ct),
                expiration: window,
            })),
    {
        match &self.cancel {
            Some((ct, window)) => ActionEvent::Condition(StatusCondition {
                flag: StatusFlag::Cancel(ct.duplicate()),
                expiration: *window,
            }),
            None => ActionEvent::Noop,
        }
    }

    /// The strike opens no cancel window.
    pub fn without_cancel(self) -> (r: Self)
        ensures
            r == (StrikeProfile { cancel: None, ..self }),
    {
        StrikeProfile { cancel: None, ..self }
    }
}

/// Law: a jackpot never lowers the damage of a clean hit that deals damage at all.
pub proof fn law_jackpot_never_lowers_damage(profile: StrikeProfile, sharpness: int, level: u32)
    requires
        profile.base_damage + profile.sharpness_scaling * sharpness >= 0,
    ensures
        hit_damage(profile, sharpness, level) >= hit_damage(profile, sharpness, 0),
{
    let v = profile.base_damage + profile.sharpness_scaling * sharpness;
    let q = jackpot_quarters(level);
    assert(q >= 0);
    assert(v * (4 + q) >= v * 4) by (nonlinear_arith)
        requires v >= 0, q >= 0;
    assert(v * (4 + q) / 4 >= v * 4 / 4) by (nonlinear_arith)
        requires v * (4 + q) >= v * 4, v * 4 >= 0;
}

/// Handles of what the game shows and plays when a strike connects: pushes, camera
/// tilts, sounds, sparks, shakes and launches, which the game turns into vectors, colours
/// and sounds.
#[derive(Clone, Copy, Debug)]
pub struct StrikeFx {
    pub attacker_push_on_block: u32,
    pub defender_push_on_block: u32,
    pub attacker_push_on_hit: u32,
    pub defender_push_on_hit: u32,
    pub block_tilt: u32,
    pub hit_tilt: u32,
    pub block_sound: u32,
    pub hit_sound: u32,
    pub block_spark: u32,
    /// The spark of a hit inside a combo.
    pub hit_spark: u32,
    /// The sparks of the opening hit of a combo: high, mid and low.
    pub opener_sparks: (u32, u32, u32),
    pub block_shake: u32,
    pub hit_shake: u32,
    pub momentum_damping: u32,
    /// The launch of a launcher.
    pub launch: u32,
    /// The launch of a knockdown, with no impulse.
    pub knockdown: u32,
    /// The small launch of an airborne defender that is not launched anyway.
    pub relaunch: u32,
    /// The bells of jackpot levels one, two and three.
    pub jackpot_bells: (u32, u32, u32),
    pub jackpot_ring: u32,
}

/// The events a connected strike sends to each side.
#[derive(Debug)]
pub struct HitEffect {
    pub attacker: Vec<ActionEvent>,
    pub defender: Vec<ActionEvent>,
}

/// The event that opens the strike's cancel window, or nothing.
pub open spec fn cancel_event_of(p: StrikeProfile) -> ActionEvent {
    match p.cancel {
        Some((ct, window)) => ActionEvent::Condition(StatusCondition { flag: StatusFlag::Cancel(ct), expiration: window }),
        None => ActionEvent::Noop,
    }
}

/// The spark of a clean hit: a plain one inside a combo, one by height on the opener.
pub open spec fn hit_spark_of(fx: StrikeFx, height: AttackHeight, in_combo: bool) -> u32 {
    if in_combo {
        fx.hit_spark
    } else {
        match height {
            AttackHeight::High => fx.opener_sparks.0,
            AttackHeight::Mid => fx.opener_sparks.1,
            AttackHeight::Low => fx.opener_sparks.2,
        }
    }
}

/// The attacker's events when the strike is blocked.
pub open spec fn block_attacker_events(cancel: ActionEvent, o: StrikeOutcome, fx: StrikeFx) -> Seq<ActionEvent> {
    seq![
        cancel,
        ActionEvent::Movement(fx.attacker_push_on_block),
        ActionEvent::CameraTilt(fx.block_tilt),
        ActionEvent::Hitstop(o.hitstop),
        ActionEvent::Sound(fx.block_sound),
        ActionEvent::AbsoluteVisualEffect(fx.block_spark),
    ]
}

/// The defender's events when it blocks: chip damage if any, block stun, push, freeze
/// and shake.
pub open spec fn block_defender_events(o: StrikeOutcome, fx: StrikeFx) -> Seq<ActionEvent> {
    seq![
        match o.chip_damage {
            Some(chip) => ActionEvent::ModifyResource(ResourceType::Health, (-chip) as i32),
            None => ActionEvent::Noop,
        },
        ActionEvent::BlockStun(o.block_stun),
        ActionEvent::Movement(fx.defender_push_on_block),
        ActionEvent::Hitstop(o.hitstop),
        ActionEvent::CharacterShake(fx.block_shake),
    ]
}

/// The bell, flash and ring of a jackpot hit; nothing without a jackpot.
pub open spec fn jackpot_events(level: u32, fx: StrikeFx) -> Seq<ActionEvent> {
    if level == 0 {
        seq![]
    } else {
        let bell = if level == 1 { fx.jackpot_bells.0 } else if level == 2 { fx.jackpot_bells.1 } else { fx.jackpot_bells.2 };
        seq![
            ActionEvent::Sound(bell),
            ActionEvent::Flash(FlashKind::Jackpot(level)),
            ActionEvent::RelativeVisualEffect(fx.jackpot_ring),
        ]
    }
}

/// The attacker's events on a clean hit.
pub open spec fn hit_attacker_events(cancel: ActionEvent, o: StrikeOutcome, fx: StrikeFx, spark: u32) -> Seq<ActionEvent> {
    seq![
        cancel,
        ActionEvent::Movement(fx.attacker_push_on_hit),
        ActionEvent::CameraTilt(fx.hit_tilt),
        ActionEvent::CameraShake,
        ActionEvent::Hitstop(o.hitstop),
        ActionEvent::Sound(fx.hit_sound),
        ActionEvent::AbsoluteVisualEffect(spark),
        ActionEvent::ModifyResource(ResourceType::Meter, o.meter_gain),
    ] + jackpot_events(o.jackpot_level, fx)
}

/// The stun event of a clean hit.
pub open spec fn stun_event(stun: StunOutcome, fx: StrikeFx) -> ActionEvent {
    match stun {
        StunOutcome::HitStun(frames) => ActionEvent::HitStun(frames),
        StunOutcome::Launch => ActionEvent::LaunchStun(fx.launch),
        StunOutcome::Knockdown => ActionEvent::LaunchStun(fx.knockdown),
    }
}

/// The defender's events on a clean hit, after the strike's own on-hit events.
pub open spec fn hit_defender_events(o: StrikeOutcome, fx: StrikeFx) -> Seq<ActionEvent> {
    seq![
        ActionEvent::MultiplyMomentum(fx.momentum_damping),
        stun_event(o.stun, fx),
        ActionEvent::Movement(fx.defender_push_on_hit),
        ActionEvent::ModifyResource(ResourceType::Health, (-o.damage) as i32),
        if o.airborne_relaunch { ActionEvent::LaunchStun(fx.relaunch) } else { ActionEvent::Noop },
        match o.voice_line {
            Some(line) => ActionEvent::SayVoiceLine(line),
            None => ActionEvent::Noop,
        },
        ActionEvent::Hitstop(o.hitstop),
        ActionEvent::Flash(FlashKind::Hit),
        ActionEvent::CharacterShake(fx.hit_shake),
    ]
}

impl StrikeProfile {
    /// The events of a resolved strike for the attacker and the defender: on a block the
    /// cancel window, pushes, chip damage and block stun; on a hit the cancel window,
    /// the strike's on-hit events, stun, damage, relaunch, voice line, jackpot meter and
    /// the jackpot's bell, flash and ring.
    pub fn hit_effect(&self, outcome: &StrikeOutcome, on_hit: &Vec<ActionEvent>, in_combo: bool, fx: &StrikeFx) -> (r: HitEffect)
        requires
            outcome.damage != i32::MIN,
            outcome.chip_damage matches Some(c) ==> c != i32::MIN,
            outcome.jackpot_level <= 3,
        ensures
            outcome.avoided ==> {
                &&& events_eq(r.attacker@, block_attacker_events(cancel_event_of(*self), *outcome, *fx))
                &&& r.defender@ == block_defender_events(*outcome, *fx)
            },
            !outcome.avoided ==> {
                &&& events_eq(r.attacker@, hit_attacker_events(cancel_event_of(*self), *outcome, *fx,
                    hit_spark_of(*fx, self.block_height, in_combo)))
                &&& events_eq(r.defender@, on_hit@ + hit_defender_events(*outcome, *fx))
            },
    {
        let cancel = self.cancel_event();
        let o = outcome;
        if o.avoided {
            let chip = match o.chip_damage {
                Some(c) => ActionEvent::ModifyResource(ResourceType::Health, -c),
                None => ActionEvent::Noop,
            };
            let attacker = vec![
                cancel,
                ActionEvent::Movement(fx.attacker_push_on_block),
                ActionEvent::CameraTilt(fx.block_tilt),
                ActionEvent::Hitstop(o.hitstop),
                ActionEvent::Sound(fx.block_sound),
                ActionEvent::AbsoluteVisualEffect(fx.block_spark),
            ];
            let defender = vec![
                chip,
                ActionEvent::BlockStun(o.block_stun),
                ActionEvent::Movement(fx.defender_push_on_block),
                ActionEvent::Hitstop(o.hitstop),
                ActionEvent::CharacterShake(fx.block_shake),
            ];
            proof {
                let want = block_attacker_events(cancel_event_of(*self), *o, *fx);
                assert forall|i: int| 0 <= i < attacker@.len() implies event_eq(#[trigger] attacker@[i], want[i]) by {
                    if i > 0 {
                        assert(attacker@[i] == want[i]);
                    }
                }
                assert(defender@ =~= block_defender_events(*o, *fx));
            }
            return HitEffect { attacker, defender };
        }
        let spark: u32 = if in_combo {
            fx.hit_spark
        } else {
            match self.block_height {
                AttackHeight::High => fx.opener_sparks.0,
                AttackHeight::Mid => fx.opener_sparks.1,
                AttackHeight::Low => fx.opener_sparks.2,
            }
        };
        let mut attacker = vec![
            cancel,
            ActionEvent::Movement(fx.attacker_push_on_hit),
            ActionEvent::CameraTilt(fx.hit_tilt),
            ActionEvent::CameraShake,
            ActionEvent::Hitstop(o.hitstop),
            ActionEvent::Sound(fx.hit_sound),
            ActionEvent::AbsoluteVisualEffect(spark),
            ActionEvent::ModifyResource(ResourceType::Meter, o.meter_gain),
        ];
        let ghost head = attacker@;
        if o.jackpot_level != 0 {
            let bell: u32 = if o.jackpot_level == 1 {
                fx.jackpot_bells.0
            } else if o.jackpot_level == 2 {
                fx.jackpot_bells.1
            } else {
                fx.jackpot_bells.2
            };
            attacker.push(ActionEvent::Sound(bell));
            attacker.push(ActionEvent::Flash(FlashKind::Jackpot(o.jackpot_level)));
            attacker.push(ActionEvent::RelativeVisualEffect(fx.jackpot_ring));
        }
        proof {
            let want = hit_attacker_events(cancel_event_of(*self), *o, *fx, spark);
            assert(attacker@.len() == want.len());
            assert forall|i: int| 0 <= i < attacker@.len() implies event_eq(#[trigger] attacker@[i], want[i]) by {
                if i > 0 {
                    assert(attacker@[i] == want[i]);
                }
            }
        }
        let stun = match o.stun {
            StunOutcome::HitStun(frames) => ActionEvent::HitStun(frames),
            StunOutcome::Launch => ActionEvent::LaunchStun(fx.launch),
            StunOutcome::Knockdown => ActionEvent::LaunchStun(fx.knockdown),
        };
        let relaunch = if o.airborne_relaunch { ActionEvent::LaunchStun(fx.relaunch) } else { ActionEvent::Noop };
        let voice = match o.voice_line {
            Some(line) => ActionEvent::SayVoiceLine(line),
            None => ActionEvent::Noop,
        };
        let loss: i32 = -o.damage;
        let mut defender = duplicate_events(on_hit);
        let ghost front = defender@;
        let mut rest = vec![
            ActionEvent::MultiplyMomentum(fx.momentum_damping),
            stun,
            ActionEvent::Movement(fx.defender_push_on_hit),
            ActionEvent::ModifyResource(ResourceType::Health, loss),
            relaunch,
            voice,
            ActionEvent::Hitstop(o.hitstop),
            ActionEvent::Flash(FlashKind::Hit),
            ActionEvent::CharacterShake(fx.hit_shake),
        ];
        let ghost back = rest@;
        defender.append(&mut rest);
        proof {
            assert(back =~= hit_defender_events(*o, *fx));
            let want = on_hit@ + hit_defender_events(*o, *fx);
            assert forall|i: int| 0 <= i < defender@.len() implies event_eq(#[trigger] defender@[i], want[i]) by {
                if i < front.len() {
                    assert(defender@[i] == front[i]);
                } else {
                    assert(defender@[i] == back[i - front.len()]);
                }
            }
        }
        HitEffect { attacker, defender }
    }
}

/// `o` is what `resolve` decides for the strike (see its contract).
pub open spec fn resolves_to(p: StrikeProfile, recovery: i32, sit: Situation, hit_data: HitInfo, tuning: Tuning, o: StrikeOutcome) -> bool {
    &&& o.avoided == hit_data.avoided
    &&& o.hitstop == (if hit_data.avoided { tuning.on_block_hitstop } else { tuning.on_hit_hitstop })
    &&& jackpot_level_possible(sit, o.jackpot_level)
    &&& hit_data.avoided ==> {
        &&& o.chip_damage == (if hit_data.defender_stats.chip_damage && p.chip_damage > 0 { Some(p.chip_damage) } else { None })
        &&& o.block_stun == stun_frames(p.block_stun, recovery)
        &&& o.damage == 0
        &&& o.meter_gain == 0
        &&& o.voice_line is None
        &&& !o.airborne_relaunch
    }
    &&& !hit_data.avoided ==> {
        &&& o.chip_damage is None
        &&& o.block_stun == 0
        &&& o.damage == hit_damage(p, sharpness_of(sit), o.jackpot_level)
        &&& o.stun == stun_outcome(p, recovery, o.jackpot_level)
        &&& o.airborne_relaunch == (hit_data.airborne && p.hit_stun matches HitStun::Stun(_))
        &&& o.voice_line == voice_line_for(o.damage as int, tuning)
        &&& o.meter_gain == scale_quarters(tuning.jackpot_meter_gain as int, jackpot_quarters(o.jackpot_level))
    }
}

/// `e` holds the events of the resolved strike `o` (see the contract of `hit_effect`).
pub open spec fn effect_of(p: StrikeProfile, o: StrikeOutcome, on_hit: Seq<ActionEvent>, in_combo: bool, fx: StrikeFx, e: HitEffect) -> bool {
    &&& o.avoided ==> {
        &&& events_eq(e.attacker@, block_attacker_events(cancel_event_of(p), o, fx))
        &&& e.defender@ == block_defender_events(o, fx)
    }
    &&& !o.avoided ==> {
        &&& events_eq(e.attacker@, hit_attacker_events(cancel_event_of(p), o, fx, hit_spark_of(fx, p.block_height, in_combo)))
        &&& events_eq(e.defender@, on_hit + hit_defender_events(o, fx))
    }
}

/// A jackpot level is at most three.
proof fn lemma_level_bound(sit: Situation, lvl: u32)
    requires
        jackpot_level_possible(sit, lvl),
    ensures
        lvl <= 3,
{
}

impl StrikeProfile {
    /// What the strike does when it connects, as the events it sends to the attacker and
    /// the defender: the strike is resolved (`resolve`) and its outcome turned into events
    /// (`hit_effect`).
    pub fn build(&self, recovery: i32, situation: &Situation, hit_data: &HitInfo, tuning: &Tuning,
        on_hit: &Vec<ActionEvent>, fx: &StrikeFx) -> (r: HitEffect)
        requires
            strike_in_range(*self, recovery, *situation),
            forall|lvl: u32| lvl <= 3 ==> hit_damage(*self, sharpness_of(*situation), lvl) != i32::MIN,
        ensures
            exists|o: StrikeOutcome| resolves_to(*self, recovery, *situation, *hit_data, *tuning, o)
                && effect_of(*self, o, on_hit@, situation.in_combo, *fx, r),
    {
        let o = self.resolve(recovery, situation, hit_data, tuning);
        proof {
            lemma_level_bound(*situation, o.jackpot_level);
        }
        let r = self.hit_effect(&o, on_hit, situation.in_combo, fx);
        assert(resolves_to(*self, recovery, *situation, *hit_data, *tuning, o));
        assert(effect_of(*self, o, on_hit@, situation.in_combo, *fx, r));
        r
    }
}

/// Law: a clean hit with a jackpot rings the bell of its own level (the first, second or
/// third of the handles for levels one, two and three) together with the flash of that
/// level and the ring, as the attacker's last three events; a clean hit without a jackpot
/// sends none of them.
pub proof fn law_jackpot_rings_its_own_bell(p: StrikeProfile, o: StrikeOutcome, on_hit: Seq<ActionEvent>,
    in_combo: bool, fx: StrikeFx, e: HitEffect)
    requires
        effect_of(p, o, on_hit, in_combo, fx, e),
        !o.avoided,
    ensures
        o.jackpot_level == 0 ==> e.attacker@.len() == 8,
        1 <= o.jackpot_level <= 3 ==> {
            let n = e.attacker@.len() as int;
            &&& n == 11
            &&& e.attacker@[n - 3] == ActionEvent::Sound(
                if o.jackpot_level == 1 { fx.jackpot_bells.0 }
                else if o.jackpot_level == 2 { fx.jackpot_bells.1 }
                else { fx.jackpot_bells.2 })
            &&& e.attacker@[n - 2] == ActionEvent::Flash(FlashKind::Jackpot(o.jackpot_level))
            &&& e.attacker@[n - 1] == ActionEvent::RelativeVisualEffect(fx.jackpot_ring)
        },
{
    let want = hit_attacker_events(cancel_event_of(p), o, fx, hit_spark_of(fx, p.block_height, in_combo));
    assert(events_eq(e.attacker@, want));
    if 1 <= o.jackpot_level <= 3 {
        assert(event_eq(e.attacker@[8], want[8]));
        assert(event_eq(e.attacker@[9], want[9]));
        assert(event_eq(e.attacker@[10], want[10]));
    }
}

/// Law: what a resolved strike does to the defender's health and stun. On a block the
/// defender first loses the chip damage, if any, and then is held for the block stun; on
/// a clean hit, after the strike's own on-hit events, it is stunned as the outcome says
/// (hit stun for its frames, or launched with the launch or knockdown handle), loses the
/// damage, and, when airborne and not launched anyway, is relaunched.
pub proof fn law_strike_reaches_the_defender(p: StrikeProfile, o: StrikeOutcome, on_hit: Seq<ActionEvent>,
    in_combo: bool, fx: StrikeFx, e: HitEffect)
    requires
        effect_of(p, o, on_hit, in_combo, fx, e),
    ensures
        o.avoided ==> {
            &&& e.defender@.len() == 5
            &&& e.defender@[0] == (match o.chip_damage {
                Some(chip) => ActionEvent::ModifyResource(ResourceType::Health, (-chip) as i32),
                None => ActionEvent::Noop,
            })
            &&& e.defender@[1] == ActionEvent::BlockStun(o.block_stun)
        },
        !o.avoided ==> {
            let k = on_hit.len() as int;
            &&& e.defender@.len() == k + 9
            &&& e.defender@[k + 1] == (match o.stun {
                StunOutcome::HitStun(frames) => ActionEvent::HitStun(frames),
                StunOutcome::Launch => ActionEvent::LaunchStun(fx.launch),
                StunOutcome::Knockdown => ActionEvent::LaunchStun(fx.knockdown),
            })
            &&& e.defender@[k + 3] == ActionEvent::ModifyResource(ResourceType::Health, (-o.damage) as i32)
            &&& e.defender@[k + 4] == (if o.airborne_relaunch { ActionEvent::LaunchStun(fx.relaunch) } else { ActionEvent::Noop })
        },
        e.attacker@.len() > 0,
        event_eq(e.attacker@[0], cancel_event_of(p)),
{
    if o.avoided {
        let want = block_attacker_events(cancel_event_of(p), o, fx);
        assert(event_eq(e.attacker@[0], want[0]));
    } else {
        let want = hit_attacker_events(cancel_event_of(p), o, fx, hit_spark_of(fx, p.block_height, in_combo));
        assert(event_eq(e.attacker@[0], want[0]));
        let k = on_hit.len() as int;
        let d = on_hit + hit_defender_events(o, fx);
        assert(event_eq(e.defender@[k + 1], d[k + 1]));
        assert(event_eq(e.defender@[k + 3], d[k + 3]));
        assert(event_eq(e.defender@[k + 4], d[k + 4]));
    }
}

/// Law: the closer a hit lands to the jackpot frame, the higher its jackpot level and the
/// larger its bonus: a hit on the frame itself is a perfect jackpot worth a whole extra
/// hit, one six or more frames away gets none, and neither the level nor the bonus ever
/// grows with the distance.
pub proof fn law_jackpot_falls_off_with_distance(d1: int, d2: int)
    requires
        0 <= d1 <= d2,
    ensures
        jackpot_level_of(d1) >= jackpot_level_of(d2),
        jackpot_quarters(jackpot_level_of(d1)) >= jackpot_quarters(jackpot_level_of(d2)),
        jackpot_level_of(0) == 3,
        jackpot_quarters(jackpot_level_of(0)) == 4,
        d2 >= 6 ==> jackpot_level_of(d2) == 0 && jackpot_quarters(jackpot_level_of(d2)) == 0,
        d1 < 6 ==> jackpot_level_of(d1) > 0,
{
}

} // verus!
