//! The timed events of an action's script: when each group of events fires, and
//! which events a frame of the action sends.
use vstd::prelude::*;
use crate::events::{ActionEvent, duplicate_events, events_eq, event_eq};
use crate::requirements::ActionRequirement;
use crate::collections::{timing_table, new_timing_table, timing_table_remove, timing_table_insert, timing_table_entries};

verus! {

/// When a group of events fires.
#[derive(Clone, Copy, Debug, PartialEq, Eq, Hash, Structural)]
pub enum Timing {
    /// On the given frame of the action.
    OnFrame(usize),
    /// On every frame after the given one.
    After(usize),
    /// On every frame.
    Always,
}

/// Events that fire together.
#[derive(Debug)]
pub struct EventBlob {
    pub timing: Timing,
    pub events: Vec<ActionEvent>,
}

/// A group of events as plain values: its timing and its events in order.
pub type BlobView = (Timing, Seq<ActionEvent>);

/// The plain values of a list of groups.
pub open spec fn blob_views(s: Seq<EventBlob>) -> Seq<BlobView> {
    s.map_values(|b: EventBlob| (b.timing, b.events@))
}

/// All events of the groups with timing `t`, in the order of the groups.
pub open spec fn events_with_timing(s: Seq<BlobView>, t: Timing) -> Seq<ActionEvent>
    decreases s.len(),
{
    if s.len() == 0 {
        seq![]
    } else {
        events_with_timing(s.drop_last(), t) + (if s.last().0 == t {
            s.last().1
        } else {
            seq![]
        })
    }
}

/// Whether some group has timing `t`.
pub open spec fn has_timing(s: Seq<BlobView>, t: Timing) -> bool {
    exists|i: int| 0 <= i < s.len() && #[trigger] s[i].0 == t
}

/// The groups are the groups of `blobs` joined by timing: each timing occurs once, the
/// same timings occur, and each group holds all events of its timing in order.
pub open spec fn grouped(groups: Seq<BlobView>, blobs: Seq<BlobView>) -> bool {
    &&& forall|i: int, j: int| 0 <= i < j < groups.len() ==> groups[i].0 != groups[j].0
    &&& forall|t: Timing| has_timing(groups, t) <==> has_timing(blobs, t)
    &&& forall|i: int| 0 <= i < groups.len() ==> #[trigger] groups[i].1 == events_with_timing(blobs, groups[i].0)
}

proof fn lemma_events_with_timing_push(s: Seq<BlobView>, b: BlobView, t: Timing)
    ensures
        events_with_timing(s.push(b), t) == events_with_timing(s, t) + (if b.0 == t { b.1 } else { seq![] }),
{
    assert(s.push(b).drop_last() =~= s);
}

/// The events of each timing that occurs among the groups, in the order of the groups.
pub open spec fn table_of(s: Seq<BlobView>) -> Map<Timing, Seq<ActionEvent>> {
    Map::new(|t: Timing| has_timing(s, t), |t: Timing| events_with_timing(s, t))
}

/// One more group adds its events to those of its timing.
proof fn lemma_table_push(s: Seq<BlobView>, b: BlobView)
    ensures
        table_of(s.push(b)) == table_of(s).insert(b.0, events_with_timing(s, b.0) + b.1),
{
    assert forall|t: Timing| #[trigger] events_with_timing(s.push(b), t)
        == events_with_timing(s, t) + (if b.0 == t { b.1 } else { seq![] }) by {
        lemma_events_with_timing_push(s, b, t);
    }
    let lhs = table_of(s.push(b));
    let rhs = table_of(s).insert(b.0, events_with_timing(s, b.0) + b.1);
    assert forall|t: Timing| lhs.dom().contains(t) <==> rhs.dom().contains(t) by {
        assert(lhs.dom().contains(t) == has_timing(s.push(b), t));
        assert(rhs.dom().contains(t) == (has_timing(s, t) || t == b.0));
        if has_timing(s.push(b), t) {
            let m = choose|m: int| 0 <= m < s.push(b).len() && #[trigger] s.push(b)[m].0 == t;
            if m < s.len() {
                assert(s[m].0 == t);
            }
        }
        if has_timing(s, t) {
            let m = choose|m: int| 0 <= m < s.len() && #[trigger] s[m].0 == t;
            assert(s.push(b)[m].0 == t);
        }
        if t == b.0 {
            assert(s.push(b)[s.len() as int].0 == t);
        }
    }
    assert(lhs.dom() =~= rhs.dom());
    assert forall|t: Timing| #[trigger] lhs.dom().contains(t) implies lhs[t] == rhs[t] by {
        assert(events_with_timing(s.push(b), t) == events_with_timing(s, t) + (if b.0 == t { b.1 } else { seq![] }));
        if t != b.0 {
            assert(events_with_timing(s, t) + seq![] =~= events_with_timing(s, t));
        }
    }
    assert(lhs =~= rhs);
}

/// Joins the groups that share a timing, keeping their events in order, through a hash
/// map from timing to events; the joined groups come in the map's walking order.
pub fn group_by_timing(blobs: Vec<EventBlob>) -> (r: Vec<EventBlob>)
    ensures
        grouped(blob_views(r@), blob_views(blobs@)),
{
    let ghost orig = blob_views(blobs@);
    let mut rest = blobs;
    let mut table = new_timing_table();
    proof {
        assert(table_of(orig.subrange(0, 0)) =~= timing_table(table));
    }
    while rest.len() > 0
        invariant
            orig.len() >= rest@.len(),
            blob_views(rest@) == orig.subrange(orig.len() - rest@.len(), orig.len() as int),
            timing_table(table) == table_of(orig.subrange(0, orig.len() - rest@.len())),
        decreases rest@.len(),
    {
        let ghost k = orig.len() - rest@.len();
        let ghost pre = rest@;
        let ghost prefix = orig.subrange(0, k);
        let mut b = rest.remove(0);
        let ghost bv = (b.timing, b.events@);
        proof {
            assert(bv == orig[k]) by {
                assert(blob_views(pre)[0] == orig.subrange(k, orig.len() as int)[0]);
            }
            assert(blob_views(rest@) =~= orig.subrange(k + 1, orig.len() as int)) by {
                assert forall|i: int| 0 <= i < rest@.len() implies blob_views(rest@)[i] == orig.subrange(k + 1, orig.len() as int)[i] by {
                    assert(blob_views(pre)[i + 1] == orig.subrange(k, orig.len() as int)[i + 1]);
                }
            }
            assert(orig.subrange(0, k + 1) =~= prefix.push(bv));
            lemma_table_push(prefix, bv);
        }
        let t = b.timing;
        match timing_table_remove(&mut table, &t) {
            Some(mut events) => {
                events.append(&mut b.events);
                timing_table_insert(&mut table, t, events);
                proof {
                    assert(timing_table(table) =~= table_of(prefix).insert(t, events_with_timing(prefix, t) + bv.1));
                }
            },
            None => {
                timing_table_insert(&mut table, t, b.events);
                proof {
                    assert(!has_timing(prefix, t));
                    lemma_no_timing_no_events(prefix, t);
                    assert(events_with_timing(prefix, t) + bv.1 =~= bv.1);
                    assert(timing_table(table) =~= table_of(prefix).insert(t, events_with_timing(prefix, t) + bv.1));
                }
            },
        }
    }
    proof {
        assert(orig.subrange(0, orig.len() as int) =~= orig);
    }
    let ghost full = timing_table(table);
    let mut entries = timing_table_entries(table);
    let ghost ents = entries@;
    let mut groups: Vec<EventBlob> = Vec::new();
    while entries.len() > 0
        invariant
            ents.len() >= entries@.len(),
            entries@ == ents.subrange(ents.len() - entries@.len(), ents.len() as int),
            groups@.len() == ents.len() - entries@.len(),
            forall|i: int| 0 <= i < groups@.len() ==> (#[trigger] groups@[i]).timing == ents[i].0
                && groups@[i].events@ == ents[i].1@,
        decreases entries@.len(),
    {
        let ghost k = ents.len() - entries@.len();
        let ghost pre = entries@;
        let (timing, events) = entries.remove(0);
        proof {
            assert(pre[0] == ents[k]);
            assert(entries@ =~= ents.subrange(k + 1, ents.len() as int)) by {
                assert forall|i: int| 0 <= i < entries@.len() implies entries@[i] == ents.subrange(k + 1, ents.len() as int)[i] by {
                    assert(pre[i + 1] == ents[k + 1 + i]);
                }
            }
        }
        groups.push(EventBlob { timing, events });
    }
    proof {
        let g = blob_views(groups@);
        assert forall|i: int, m: int| 0 <= i < m < g.len() implies g[i].0 != g[m].0 by {
            assert(g[i].0 == ents[i].0);
            assert(g[m].0 == ents[m].0);
        }
        assert forall|tt: Timing| has_timing(g, tt) <==> has_timing(orig, tt) by {
            if has_timing(g, tt) {
                let q = choose|q: int| 0 <= q < g.len() && #[trigger] g[q].0 == tt;
                assert(full.dom().contains(ents[q].0));
            }
            if has_timing(orig, tt) {
                assert(full.dom().contains(tt));
                let q = choose|q: int| 0 <= q < ents.len() && ents[q].0 == tt;
                assert(g[q].0 == tt);
            }
        }
        assert forall|i: int| 0 <= i < g.len() implies #[trigger] g[i].1 == events_with_timing(orig, g[i].0) by {
            assert(full.dom().contains(ents[i].0));
        }
    }
    groups
}

/// With no group of timing `t` there are no events of timing `t`.
proof fn lemma_no_timing_no_events(s: Seq<BlobView>, t: Timing)
    requires
        !has_timing(s, t),
    ensures
        events_with_timing(s, t) == Seq::<ActionEvent>::empty(),
    decreases s.len(),
{
    if s.len() > 0 {
        assert(!has_timing(s.drop_last(), t)) by {
            if has_timing(s.drop_last(), t) {
                let m = choose|m: int| 0 <= m < s.drop_last().len() && #[trigger] s.drop_last()[m].0 == t;
                assert(s[m].0 == t);
            }
        }
        lemma_no_timing_no_events(s.drop_last(), t);
        assert(s[s.len() - 1].0 != t);
    }
}

/// Where an action stands in time: the frames since it started and, scaled by the
/// character's action speed and rounded down, the frame before, this frame and the
/// frame after.
#[derive(Clone, Copy, Debug, PartialEq, Eq, Structural)]
pub struct ActionClock {
    pub elapsed: usize,
    pub scaled_before: usize,
    pub scaled_now: usize,
    pub scaled_after: usize,
}

/// Whether the action is on frame `frame` of its script: the first frame only at the
/// start, otherwise a frame strictly between the scaled frames before and after.
pub open spec fn clock_on_frame(c: ActionClock, frame: usize) -> bool {
    if c.elapsed == 0 {
        frame == 0
    } else {
        c.scaled_before < frame && c.scaled_after > frame
    }
}

/// Whether the action is past frame `frame` of its script.
pub open spec fn clock_after_frame(c: ActionClock, frame: usize) -> bool {
    c.scaled_now > frame
}

/// Whether events of timing `t` fire now.
pub open spec fn timing_fires(t: Timing, c: ActionClock) -> bool {
    match t {
        Timing::OnFrame(f) => clock_on_frame(c, f),
        Timing::After(f) => clock_after_frame(c, f),
        Timing::Always => true,
    }
}

/// The events of the groups that fire now, in the order of the groups.
pub open spec fn fired_events(groups: Seq<BlobView>, c: ActionClock) -> Seq<ActionEvent>
    decreases groups.len(),
{
    if groups.len() == 0 {
        seq![]
    } else {
        fired_events(groups.drop_last(), c) + (if timing_fires(groups.last().0, c) {
            groups.last().1
        } else {
            seq![]
        })
    }
}

impl ActionClock {
    /// The clock of an action `elapsed` frames in, at normal speed.
    pub fn unscaled(elapsed: usize) -> (r: Self)
        requires
            elapsed < usize::MAX,
        ensures
            is_unscaled(r, elapsed),
    {
        ActionClock {
            elapsed,
            scaled_before: if elapsed == 0 { 0 } else { elapsed - 1 },
            scaled_now: elapsed,
            scaled_after: elapsed + 1,
        }
    }

    pub fn on_frame(&self, frame: usize) -> (r: bool)
        ensures
            r == clock_on_frame(*self, frame),
    {
        if self.elapsed == 0 {
            return frame == 0;
        }
        self.scaled_before < frame && self.scaled_after > frame
    }

    pub fn after_frame(&self, frame: usize) -> (r: bool)
        ensures
            r == clock_after_frame(*self, frame),
    {
        self.scaled_now > frame
    }

    /// Ends the action once it is past `frame`.
    pub fn end_at(&self, frame: usize) -> (r: Vec<ActionEvent>)
        ensures
            r@ == (if clock_after_frame(*self, frame) { seq![ActionEvent::End] } else { seq![] }),
    {
        if self.after_frame(frame) {
            vec![ActionEvent::End]
        } else {
            Vec::new()
        }
    }

    pub fn fires(&self, timing: Timing) -> (r: bool)
        ensures
            r == timing_fires(timing, *self),
    {
        match timing {
            Timing::OnFrame(f) => self.on_frame(f),
            Timing::After(f) => self.after_frame(f),
            Timing::Always => true,
        }
    }
}

/// The clock of an action `elapsed` frames in, at normal speed (what `ActionClock::unscaled`
/// gives).
pub open spec fn is_unscaled(c: ActionClock, elapsed: usize) -> bool {
    &&& c.elapsed == elapsed
    &&& c.scaled_before == (if elapsed == 0 { 0 } else { elapsed - 1 })
    &&& c.scaled_now == elapsed
    &&& c.scaled_after == elapsed + 1
}

/// Law: at normal speed an action is on frame `f` exactly when `f` frames have passed,
/// and past it exactly when more have; so each frame of a script comes once.
pub proof fn law_unscaled_frames(c: ActionClock, elapsed: usize, f: usize)
    requires
        is_unscaled(c, elapsed),
    ensures
        clock_on_frame(c, f) == (elapsed == f),
        clock_after_frame(c, f) == (elapsed > f),
{
}

/// A finished action: how it is input, when it may start, and what it does.
#[derive(Debug)]
pub struct Action {
    /// Whether the action stays out of stance changes and never ends by itself.
    pub transient: bool,
    pub input: Option<String>,
    pub requirement: ActionRequirement,
    pub script: Script,
}

/// The events of an action, grouped by when they fire.
#[derive(Debug)]
pub struct Script {
    pub groups: Vec<EventBlob>,
}

impl Script {
    /// The script of the given groups of events, joined by timing.
    pub fn from_blobs(blobs: Vec<EventBlob>) -> (r: Self)
        ensures
            grouped(blob_views(r.groups@), blob_views(blobs@)),
    {
        Script { groups: group_by_timing(blobs) }
    }

    /// The events the script sends now: those of every group whose timing fires.
    pub fn events(&self, clock: &ActionClock) -> (r: Vec<ActionEvent>)
        ensures
            events_eq(r@, fired_events(blob_views(self.groups@), *clock)),
    {
        let ghost gs = blob_views(self.groups@);
        let mut out: Vec<ActionEvent> = Vec::new();
        let mut i: usize = 0;
        while i < self.groups.len()
            invariant
                i <= self.groups@.len(),
                gs == blob_views(self.groups@),
                events_eq(out@, fired_events(gs.subrange(0, i as int), *clock)),
            decreases self.groups@.len() - i,
        {
            let ghost prev = out@;
            proof {
                assert(gs.subrange(0, i + 1).drop_last() =~= gs.subrange(0, i as int));
                assert(gs.subrange(0, i + 1).last() == gs[i as int]);
            }
            if clock.fires(self.groups[i].timing) {
                let mut copy = duplicate_events(&self.groups[i].events);
                let ghost c = copy@;
                out.append(&mut copy);
                proof {
                    let want = fired_events(gs.subrange(0, i as int), *clock) + gs[i as int].1;
                    assert(out@ =~= prev + c);
                    assert forall|m: int| 0 <= m < out@.len() implies event_eq(#[trigger] out@[m], want[m]) by {
                        if m < prev.len() {
                            assert(out@[m] == prev[m]);
                        } else {
                            assert(out@[m] == c[m - prev.len()]);
                        }
                    }
                }
            } else {
                proof {
                    assert(fired_events(gs.subrange(0, i + 1), *clock) =~= fired_events(gs.subrange(0, i as int), *clock));
                }
            }
            i = i + 1;
        }
        proof {
            assert(gs.subrange(0, gs.len() as int) =~= gs);
        }
        out
    }
}

/// Every event of a group with timing `t` is among the events of timing `t`.
pub(crate) proof fn lemma_events_with_timing_includes(s: Seq<BlobView>, q: int, e: ActionEvent)
    requires
        0 <= q < s.len(),
        s[q].1.contains(e),
    ensures
        events_with_timing(s, s[q].0).contains(e),
    decreases s.len(),
{
    let t = s[q].0;
    let head = events_with_timing(s.drop_last(), t);
    let tail: Seq<ActionEvent> = if s.last().0 == t { s.last().1 } else { seq![] };
    if q == s.len() - 1 {
        let j = choose|j: int| 0 <= j < s[q].1.len() && s[q].1[j] == e;
        assert((head + tail)[head.len() + j] == e);
    } else {
        assert(s.drop_last()[q] == s[q]);
        lemma_events_with_timing_includes(s.drop_last(), q, e);
        let j = choose|j: int| 0 <= j < head.len() && head[j] == e;
        assert((head + tail)[j] == e);
    }
}

/// Every event of a group that fires is among the fired events.
pub(crate) proof fn lemma_fired_includes(g: Seq<BlobView>, c: ActionClock, q: int, e: ActionEvent)
    requires
        0 <= q < g.len(),
        timing_fires(g[q].0, c),
        g[q].1.contains(e),
    ensures
        fired_events(g, c).contains(e),
    decreases g.len(),
{
    let head = fired_events(g.drop_last(), c);
    let tail: Seq<ActionEvent> = if timing_fires(g.last().0, c) { g.last().1 } else { seq![] };
    if q == g.len() - 1 {
        let j = choose|j: int| 0 <= j < g[q].1.len() && g[q].1[j] == e;
        assert((head + tail)[head.len() + j] == e);
    } else {
        assert(g.drop_last()[q] == g[q]);
        lemma_fired_includes(g.drop_last(), c, q, e);
        let j = choose|j: int| 0 <= j < head.len() && head[j] == e;
        assert((head + tail)[j] == e);
    }
}

} // verus!
