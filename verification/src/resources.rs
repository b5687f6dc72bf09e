//! Gauges a character carries: health, meter and character specific counters.
use vstd::prelude::*;
use crate::ids::{GameButton, StickPosition};

verus! {

/// A quick handle for a gauge that requirement checks can refer to.
#[derive(Clone, Copy, Debug, PartialEq, Eq, Hash, Structural)]
pub enum ResourceType {
    Health,
    Meter,
    Charge,
    Sharpness,
    KunaiCounter,
}

/// The whole-number statistics of a character, or what an item adds to them.
#[derive(Clone, Copy, Debug, PartialEq, Eq, Structural)]
pub struct Stats {
    pub max_health: i32,
    pub starting_meter: i32,
    pub extra_kunais: i32,
    pub auto_sharpen: i32,
    pub opener_meter_gain: i32,
    pub opener_stun_frames: i32,
    pub backdash_invuln: i32,
    pub defense_meter: i32,
    pub retain_sharpness: bool,
    pub chip_damage: bool,
}

/// Statistics that add nothing: every number zero, no sharpness kept, chip damage taken.
pub open spec fn no_stats() -> Stats {
    Stats {
        max_health: 0,
        starting_meter: 0,
        extra_kunais: 0,
        auto_sharpen: 0,
        opener_meter_gain: 0,
        opener_stun_frames: 0,
        backdash_invuln: 0,
        defense_meter: 0,
        retain_sharpness: false,
        chip_damage: true,
    }
}

impl Stats {
    /// Statistics that add nothing.
    pub fn identity() -> (r: Self)
        ensures
            r == no_stats(),
    {
        Stats {
            max_health: 0,
            starting_meter: 0,
            extra_kunais: 0,
            auto_sharpen: 0,
            opener_meter_gain: 0,
            opener_stun_frames: 0,
            backdash_invuln: 0,
            defense_meter: 0,
            retain_sharpness: false,
            chip_damage: true,
        }
    }
}

/// The upper end of a gauge whose maximum may be absent.
pub open spec fn upper_of(max: Option<i32>) -> int {
    match max {
        Some(m) => m as int,
        None => i32::MAX as int,
    }
}

/// `v` limited to the range `[lo, hi]`.
pub open spec fn clamp_int(v: int, lo: int, hi: int) -> int {
    if v < lo {
        lo
    } else if v > hi {
        hi
    } else {
        v
    }
}

/// Extra behaviour that a plain gauge value cannot describe.
#[derive(Clone, Debug)]
pub enum SpecialProperty {
    Charge(ChargeProperty),
}

/// How a charge gauge fills: by holding one of the directions or buttons.
#[derive(Clone, Debug)]
pub struct ChargeProperty {
    pub directions: Vec<StickPosition>,
    pub buttons: Vec<GameButton>,
    pub clear_time: usize,
    pub last_gain_frame: usize,
    pub charging: bool,
}

impl Default for ChargeProperty {
    fn default() -> (r: Self)
        ensures
            r.directions@ == seq![StickPosition::SW, StickPosition::S, StickPosition::W],
            r.buttons@.len() == 0,
            r.clear_time == 20,
            r.last_gain_frame == 0,
            !r.charging,
    {
        ChargeProperty {
            directions: vec![StickPosition::SW, StickPosition::S, StickPosition::W],
            buttons: Vec::new(),
            clear_time: 20,
            last_gain_frame: 0,
            charging: false,
        }
    }
}

/// A gauge: a current value between a minimum and an optional maximum.
#[derive(Clone, Debug)]
pub struct WAGResource {
    pub max: Option<i32>,
    pub min: i32,
    pub current: i32,
    pub special: Option<SpecialProperty>,
}

impl WAGResource {
    /// The value the gauge cannot exceed.
    pub open spec fn upper(&self) -> int {
        upper_of(self.max)
    }

    /// The gauge's bounds are in order and the value lies between them.
    pub open spec fn well_formed(&self) -> bool {
        self.min <= self.upper() && self.min <= self.current <= self.upper()
    }

    pub fn is_full(&self) -> (r: bool)
        ensures
            r == (self.current == self.upper()),
    {
        match self.max {
            Some(m) => self.current == m,
            None => self.current == i32::MAX,
        }
    }

    pub fn is_empty(&self) -> (r: bool)
        ensures
            r == (self.current == self.min),
    {
        self.current == self.min
    }

    /// Moves the value by `amount`, kept between the minimum and the maximum.
    pub fn change(&mut self, amount: i32)
        requires
            old(self).min <= old(self).upper(),
            i32::MIN <= old(self).current + amount <= i32::MAX,
        ensures
            final(self).current == clamp_int(
                old(self).current + amount,
                old(self).min as int,
                old(self).upper(),
            ),
            final(self).min == old(self).min,
            final(self).max == old(self).max,
            final(self).special == old(self).special,
    {
        let upper: i32 = match self.max {
            Some(m) => m,
            None => i32::MAX,
        };
        let v: i32 = self.current + amount;
        self.current = if v < self.min {
            self.min
        } else if v > upper {
            upper
        } else {
            v
        };
    }

    pub fn gain(&mut self, amount: i32)
        requires
            amount >= 0,
            old(self).min <= old(self).upper(),
            old(self).current + amount <= i32::MAX,
        ensures
            final(self).current == clamp_int(
                old(self).current + amount,
                old(self).min as int,
                old(self).upper(),
            ),
            final(self).min == old(self).min,
            final(self).max == old(self).max,
            final(self).special == old(self).special,
    {
        self.change(amount)
    }

    pub fn drain(&mut self, amount: i32)
        requires
            amount >= 0,
            old(self).min <= old(self).upper(),
            old(self).current - amount >= i32::MIN,
        ensures
            final(self).current == clamp_int(
                old(self).current - amount,
                old(self).min as int,
                old(self).upper(),
            ),
            final(self).min == old(self).min,
            final(self).max == old(self).max,
            final(self).special == old(self).special,
    {
        self.change(-amount)
    }

    pub fn clear(&mut self)
        ensures
            final(self).current == old(self).min,
            final(self).min == old(self).min,
            final(self).max == old(self).max,
            final(self).special == old(self).special,
    {
        self.current = self.min;
    }
}

impl Default for WAGResource {
    fn default() -> (r: Self)
        ensures
            r.max is None,
            r.min == 0,
            r.current == 0,
            r.special is None,
    {
        WAGResource { max: None, min: 0, current: 0, special: None }
    }
}

/// What `WAGResources::reset` sets a gauge to, for its type and the statistics.
pub open spec fn reset_gauge(t: ResourceType, g: WAGResource, stats: Stats) -> WAGResource {
    match t {
        ResourceType::Health => WAGResource {
            max: Some(stats.max_health),
            current: stats.max_health,
            ..g
        },
        ResourceType::Meter => WAGResource { current: stats.starting_meter, ..g },
        ResourceType::KunaiCounter => WAGResource { current: (stats.extra_kunais + 1) as i32, ..g },
        ResourceType::Sharpness => if stats.retain_sharpness {
            g
        } else {
            WAGResource { current: g.min, ..g }
        },
        ResourceType::Charge => WAGResource { current: g.min, ..g },
    }
}

/// `i` is the position of the first entry of type `t`.
pub open spec fn is_first_of(entries: Seq<(ResourceType, WAGResource)>, t: ResourceType, i: int) -> bool {
    &&& 0 <= i < entries.len()
    &&& entries[i].0 == t
    &&& forall|j: int| 0 <= j < i ==> entries[j].0 != t
}

/// Some entry has type `t`.
pub open spec fn has_type(entries: Seq<(ResourceType, WAGResource)>, t: ResourceType) -> bool {
    exists|i: int| 0 <= i < entries.len() && entries[i].0 == t
}

/// All gauges of a character, in order; lookups take the first entry of a type.
#[derive(Clone, Debug)]
pub struct WAGResources(pub Vec<(ResourceType, WAGResource)>);

impl WAGResources {
    /// Health filled to the statistics' maximum and a meter of 100, followed by the
    /// character specific gauges.
    pub fn from_stats(stats: &Stats, additional_properties: Vec<(ResourceType, WAGResource)>) -> (r: Self)
        ensures
            r.0@.len() == 2 + additional_properties@.len(),
            r.0@[0].0 == ResourceType::Health,
            r.0@[0].1.max == Some(stats.max_health),
            r.0@[0].1.min == 0,
            r.0@[0].1.current == stats.max_health,
            r.0@[0].1.special is None,
            r.0@[1].0 == ResourceType::Meter,
            r.0@[1].1.max == Some(100i32),
            r.0@[1].1.min == 0,
            r.0@[1].1.current == 0,
            r.0@[1].1.special is None,
            r.0@.subrange(2, r.0@.len() as int) == additional_properties@,
    {
        let mut v: Vec<(ResourceType, WAGResource)> = Vec::new();
        v.push((
            ResourceType::Health,
            WAGResource { max: Some(stats.max_health), min: 0, current: stats.max_health, special: None },
        ));
        v.push((ResourceType::Meter, WAGResource { max: Some(100), min: 0, current: 0, special: None }));
        let mut extra = additional_properties;
        let ghost extra0 = extra@;
        v.append(&mut extra);
        assert(v@.subrange(2, v@.len() as int) =~= extra0);
        WAGResources(v)
    }

    /// The position of the first gauge of the given type.
    pub fn position(&self, resource_type: ResourceType) -> (r: Option<usize>)
        ensures
            r is None <==> !has_type(self.0@, resource_type),
            r matches Some(i) ==> is_first_of(self.0@, resource_type, i as int),
    {
        let mut i: usize = 0;
        while i < self.0.len()
            invariant
                i <= self.0@.len(),
                forall|j: int| 0 <= j < i ==> self.0@[j].0 != resource_type,
            decreases self.0@.len() - i,
        {
            if self.0[i].0 == resource_type {
                return Some(i);
            }
            i = i + 1;
        }
        None
    }

    /// The first gauge of the given type.
    pub fn get(&self, resource_type: ResourceType) -> (r: Option<&WAGResource>)
        ensures
            r is None <==> !has_type(self.0@, resource_type),
            r matches Some(g) ==> exists|i: int| is_first_of(self.0@, resource_type, i) && *g == self.0@[i].1,
    {
        match self.position(resource_type) {
            Some(i) => Some(&self.0[i].1),
            None => None,
        }
    }

    /// The first gauge of the given type, to be changed in place.
    pub fn get_mut(&mut self, resource_type: ResourceType) -> (r: Option<&mut WAGResource>)
        ensures
            r is None <==> !has_type(old(self).0@, resource_type),
            r is None ==> final(self).0@ == old(self).0@,
            r matches Some(g) ==> exists|i: int| {
                &&& is_first_of(old(self).0@, resource_type, i)
                &&& *g == old(self).0@[i].1
                &&& final(self).0@ == old(self).0@.update(i, (resource_type, *final(g)))
            },
    {
        match self.position(resource_type) {
            Some(i) => Some(&mut self.0[i].1),
            None => None,
        }
    }

    /// Puts every gauge back to its value at the start of a round.
    pub fn reset(&mut self, stats: &Stats)
        requires
            stats.extra_kunais < i32::MAX,
        ensures
            final(self).0@.len() == old(self).0@.len(),
            forall|i: int| 0 <= i < old(self).0@.len() ==> #[trigger] final(self).0@[i] == (
                old(self).0@[i].0,
                reset_gauge(old(self).0@[i].0, old(self).0@[i].1, *stats),
            ),
    {
        let mut rest: Vec<(ResourceType, WAGResource)> = Vec::new();
        std::mem::swap(&mut rest, &mut self.0);
        let ghost orig = rest@;
        let mut done: Vec<(ResourceType, WAGResource)> = Vec::new();
        while rest.len() > 0
            invariant
                orig.len() == done@.len() + rest@.len(),
                rest@ == orig.subrange(done@.len() as int, orig.len() as int),
                stats.extra_kunais < i32::MAX,
                forall|j: int| 0 <= j < done@.len() ==> #[trigger] done@[j] == (
                    orig[j].0,
                    reset_gauge(orig[j].0, orig[j].1, *stats),
                ),
            decreases rest@.len(),
        {
            let ghost k = done@.len() as int;
            let (t, mut g) = rest.remove(0);
            assert(orig[k] == (t, g));
            match t {
                ResourceType::Health => {
                    g.max = Some(stats.max_health);
                    g.current = stats.max_health;
                },
                ResourceType::Meter => {
                    g.current = stats.starting_meter;
                },
                ResourceType::KunaiCounter => {
                    g.current = stats.extra_kunais + 1;
                },
                ResourceType::Sharpness => {
                    if !stats.retain_sharpness {
                        g.current = g.min;
                    }
                },
                ResourceType::Charge => {
                    g.current = g.min;
                },
            }
            done.push((t, g));
            assert(rest@ =~= orig.subrange(done@.len() as int, orig.len() as int));
        }
        self.0 = done;
    }
}

/// A gauge with a fixed maximum.
#[derive(Clone, Debug)]
pub struct Property {
    pub max: i32,
    pub min: i32,
    pub current: i32,
    pub special: Option<SpecialProperty>,
}

impl Property {
    pub fn is_full(&self) -> (r: bool)
        ensures
            r == (self.current == self.max),
    {
        self.current == self.max
    }

    pub fn is_empty(&self) -> (r: bool)
        ensures
            r == (self.current == self.min),
    {
        self.current == self.min
    }

    /// Moves the value by `amount`, kept between the minimum and the maximum.
    pub fn change(&mut self, amount: i32)
        requires
            old(self).min <= old(self).max,
            i32::MIN <= old(self).current + amount <= i32::MAX,
        ensures
            final(self).current == clamp_int(old(self).current + amount, old(self).min as int, old(self).max as int),
            final(self).min == old(self).min,
            final(self).max == old(self).max,
            final(self).special == old(self).special,
    {
        let v: i32 = self.current + amount;
        self.current = if v < self.min {
            self.min
        } else if v > self.max {
            self.max
        } else {
            v
        };
    }

    pub fn gain(&mut self, amount: i32)
        requires
            amount > 0,
            old(self).min <= old(self).max,
            old(self).current + amount <= i32::MAX,
        ensures
            final(self).current == clamp_int(old(self).current + amount, old(self).min as int, old(self).max as int),
            final(self).min == old(self).min,
            final(self).max == old(self).max,
            final(self).special == old(self).special,
    {
        self.change(amount)
    }

    pub fn drain(&mut self, amount: i32)
        requires
            amount > 0,
            old(self).min <= old(self).max,
            old(self).current - amount >= i32::MIN,
        ensures
            final(self).current == clamp_int(old(self).current - amount, old(self).min as int, old(self).max as int),
            final(self).min == old(self).min,
            final(self).max == old(self).max,
            final(self).special == old(self).special,
    {
        self.change(-amount)
    }

    pub fn clear(&mut self)
        ensures
            final(self).current == old(self).min,
            final(self).min == old(self).min,
            final(self).max == old(self).max,
            final(self).special == old(self).special,
    {
        self.current = self.min;
    }
}

impl Default for Property {
    fn default() -> (r: Self)
        ensures
            r.max == 0,
            r.min == 0,
            r.current == 0,
            r.special is None,
    {
        Property { max: 0, min: 0, current: 0, special: None }
    }
}

/// A character's health, meter and special gauges.
#[derive(Debug)]
pub struct Properties {
    pub health: Property,
    pub meter: Property,
    pub special_properties: Vec<Property>,
}

impl Properties {
    /// Health filled to the statistics' maximum, an empty meter of 100, and no special gauges.
    pub fn from_stats(stats: &Stats) -> (r: Self)
        ensures
            r.health.max == stats.max_health,
            r.health.min == 0,
            r.health.current == stats.max_health,
            r.health.special is None,
            r.meter.max == 100,
            r.meter.min == 0,
            r.meter.current == 0,
            r.meter.special is None,
            r.special_properties@.len() == 0,
    {
        Properties {
            health: Property { max: stats.max_health, current: stats.max_health, ..Property::default() },
            meter: Property { max: 100, ..Property::default() },
            special_properties: Vec::new(),
        }
    }

    pub fn with_specials(self, specials: Vec<Property>) -> (r: Self)
        ensures
            r.health == self.health,
            r.meter == self.meter,
            r.special_properties == specials,
    {
        let mut p = self;
        p.special_properties = specials;
        p
    }
}

/// Changing a gauge by any amount, gaining, draining or clearing it leaves its value
/// between its bounds: every gauge the operations produce is well formed.
pub proof fn law_change_keeps_well_formed(before: WAGResource, amount: int, after: WAGResource)
    requires
        before.min <= before.upper(),
        after.min == before.min,
        after.max == before.max,
        after.current == clamp_int(before.current + amount, before.min as int, before.upper()),
    ensures
        after.well_formed(),
{
}

/// Law: resetting a gauge twice is resetting it once.
pub proof fn law_reset_is_idempotent(t: ResourceType, g: WAGResource, stats: Stats)
    ensures
        reset_gauge(t, reset_gauge(t, g, stats), stats) == reset_gauge(t, g, stats),
{
}

} // verus!
