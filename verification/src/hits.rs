//! Hitboxes over their lifetime: how often and how long they can hit.
use vstd::prelude::*;
use crate::ids::AttackHeight;

verus! {

/// Frames a multi-hit hitbox waits between two hits.
pub const FRAMES_BETWEEN_HITS: usize = 10;

/// Counts the hits a hitbox has left and when it last hit.
#[derive(Debug, Clone, Copy, Eq, PartialEq, Structural)]
pub struct HitTracker {
    pub hits: usize,
    pub last_hit_frame: Option<usize>,
    pub hit_intangible: bool,
}

impl HitTracker {
    pub fn new(hits: usize) -> (r: Self)
        ensures
            r == (HitTracker { hits, last_hit_frame: None, hit_intangible: false }),
    {
        HitTracker { hits, ..Self::default() }
    }

    /// Whether the hitbox can hit on `current_frame`: it has not hit yet, or its last hit
    /// is at least the waiting time ago.
    pub fn active(&self, current_frame: usize) -> (r: bool)
        ensures
            r == match self.last_hit_frame {
                Some(frame) => frame + FRAMES_BETWEEN_HITS <= current_frame,
                None => true,
            },
    {
        match self.last_hit_frame {
            Some(frame) => frame as u128 + FRAMES_BETWEEN_HITS as u128 <= current_frame as u128,
            None => true,
        }
    }

    /// Uses up one hit on `current_frame`.
    pub fn register_hit(&mut self, current_frame: usize)
        requires
            old(self).hits > 0,
        ensures
            *final(self) == (HitTracker {
                hits: (old(self).hits - 1) as usize,
                last_hit_frame: Some(current_frame),
                ..*old(self)
            }),
    {
        self.hits = self.hits - 1;
        self.last_hit_frame = Some(current_frame);
    }
}

impl Default for HitTracker {
    fn default() -> (r: Self)
        ensures
            r == (HitTracker { hits: 1, last_hit_frame: None, hit_intangible: false }),
    {
        HitTracker { hits: 1, last_hit_frame: None, hit_intangible: false }
    }
}

/// How long a hitbox lives.
#[derive(Debug, Clone, Copy, PartialEq, Eq, Structural)]
pub struct Lifetime {
    pub despawn_on_hit: bool,
    pub despawn_on_landing: bool,
    pub frames: Option<usize>,
}

impl Default for Lifetime {
    fn default() -> (r: Self)
        ensures
            r == (Lifetime { despawn_on_hit: true, despawn_on_landing: true, frames: Some(1usize) }),
    {
        Lifetime { despawn_on_hit: true, despawn_on_landing: true, frames: Some(1) }
    }
}

impl Lifetime {
    /// Lives until it hits or lands, however long that takes.
    pub fn until_owner_hit() -> (r: Self)
        ensures
            r == (Lifetime { despawn_on_hit: true, despawn_on_landing: true, frames: None }),
    {
        Lifetime { frames: None, ..Self::default() }
    }

    /// Lives for the given number of frames, unless it hits or lands first.
    pub fn frames(frames: usize) -> (r: Self)
        ensures
            r == (Lifetime { despawn_on_hit: true, despawn_on_landing: true, frames: Some(frames) }),
    {
        Lifetime { frames: Some(frames), ..Self::default() }
    }

    /// Never despawns.
    pub fn eternal() -> (r: Self)
        ensures
            r == (Lifetime { despawn_on_hit: false, despawn_on_landing: false, frames: None }),
    {
        Lifetime { despawn_on_hit: false, despawn_on_landing: false, frames: None }
    }
}

/// How an attack is blocked.
#[derive(Clone, Copy, Debug, PartialEq, Eq, Structural)]
pub enum BlockType {
    Strike(AttackHeight),
    Grab,
}

impl Default for BlockType {
    fn default() -> (r: Self)
        ensures
            r == BlockType::Strike(AttackHeight::Mid),
    {
        BlockType::Strike(AttackHeight::Mid)
    }
}

/// A value that differs between a hit and a block.
#[derive(Debug, Clone, Copy, PartialEq, Eq)]
pub struct HitProperty<T> {
    pub on_hit: T,
    pub on_block: T,
}

impl<T: Copy> HitProperty<T> {
    pub fn get(&self, blocked: bool) -> (r: T)
        ensures
            r == (if blocked { self.on_block } else { self.on_hit }),
    {
        if blocked {
            self.on_block
        } else {
            self.on_hit
        }
    }
}

/// The entries that are still alive on `frame`: each lasts until its end frame.
pub open spec fn unexpired<T>(entries: Seq<(T, usize)>, frame: usize) -> Seq<(T, usize)> {
    entries.filter(|e: (T, usize)| frame <= e.1)
}

/// Drops the entries whose end frame has passed, keeping the others in order.
pub fn expire<T>(entries: Vec<(T, usize)>, frame: usize) -> (r: Vec<(T, usize)>)
    ensures
        r@ == unexpired(entries@, frame),
{
    let ghost all = entries@;
    let total = entries.len();
    let mut rest = entries;
    let mut kept: Vec<(T, usize)> = Vec::new();
    let mut n: usize = 0;
    while rest.len() > 0
        invariant
            n + rest@.len() == all.len(),
            all.len() == total,
            rest@ == all.subrange(n as int, all.len() as int),
            kept@ == unexpired(all.subrange(0, n as int), frame),
        decreases rest@.len(),
    {
        let e = rest.remove(0);
        proof {
            let pre = all.subrange(0, n as int);
            assert(all.subrange(0, n + 1) =~= pre.push(e));
            pre.lemma_filter_push(e, |x: (T, usize)| frame <= x.1);
        }
        if frame <= e.1 {
            kept.push(e);
        }
        n = n + 1;
        assert(rest@ =~= all.subrange(n as int, all.len() as int));
    }
    assert(all.subrange(0, n as int) =~= all);
    kept
}

} // verus!
