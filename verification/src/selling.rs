//! Selling an item back to the shop, together with everything held that is built on it.
use vstd::prelude::*;
use crate::ids::ItemId;
use crate::items::{Character, Inventory, Item, ItemCategory, chain_bounded, chain_fuel, contains_item, count_in, dependents, is_upgrade_of, lemma_chain_monotone};
use crate::collections::{item_catalog_get, item_count_insert, item_count_keys, item_count_remove};

verus! {

/// `y` is `x`, or a held upgrade reached from `x` through held upgrades in at most
/// `fuel` steps.
pub open spec fn in_sold(cat: Map<ItemId, Item>, counts: Map<ItemId, usize>, x: ItemId, y: ItemId, fuel: nat) -> bool
    decreases fuel,
{
    y == x || (fuel > 0 && exists|k: ItemId| #[trigger] dependents(cat, counts, x).contains(k)
        && in_sold(cat, counts, k, y, (fuel - 1) as nat))
}

/// The items that selling `x` sells: `x` and every held upgrade built on it.
pub open spec fn sold_set(cat: Map<ItemId, Item>, counts: Map<ItemId, usize>, x: ItemId, fuel: nat) -> Set<ItemId> {
    Set::new(|y: ItemId| in_sold(cat, counts, x, y, fuel))
}

/// Everything selling `x` sells, as far as upgrade chains above `x` reach.
pub open spec fn sold_with(cat: Map<ItemId, Item>, counts: Map<ItemId, usize>, x: ItemId) -> Set<ItemId> {
    sold_set(cat, counts, x, chain_fuel(cat, counts, x))
}

/// No held upgrade needs two different items of those that selling `x` sells, so each
/// of them is reached once.
pub open spec fn sells_as_tree(cat: Map<ItemId, Item>, counts: Map<ItemId, usize>, x: ItemId) -> bool {
    single_parent(cat, counts, x, chain_fuel(cat, counts, x))
}

/// No held upgrade needs two different items of those that selling `x` sells.
pub open spec fn single_parent(cat: Map<ItemId, Item>, counts: Map<ItemId, usize>, x: ItemId, fuel: nat) -> bool {
    forall|k: ItemId, a: ItemId, b: ItemId|
        #![trigger is_upgrade_of(cat[k], a), is_upgrade_of(cat[k], b)]
        counts.dom().contains(k) && is_upgrade_of(cat[k], a) && is_upgrade_of(cat[k], b)
            && in_sold(cat, counts, x, a, fuel) && in_sold(cat, counts, x, b, fuel) ==> a == b
}

/// The counts after one of each item of `s` is sold: an item held once leaves.
pub open spec fn after_sale(counts: Map<ItemId, usize>, s: Set<ItemId>) -> Map<ItemId, usize> {
    Map::new(
        |y: ItemId| counts.dom().contains(y) && !(s.contains(y) && counts[y] <= 1),
        |y: ItemId| if s.contains(y) { (counts[y] - 1) as usize } else { counts[y] },
    )
}

/// What selling one item returns: the given percentage of its cost, rounded down.
pub open spec fn refund_of(item: Item, percent: nat) -> int {
    (item.cost * percent) / 100
}

/// What selling one of each item of a finite set returns.
pub open spec fn refund_sum(cat: Map<ItemId, Item>, s: Set<ItemId>, percent: nat) -> int
    decreases s.len(),
{
    if s.finite() && s.len() > 0 {
        let k = s.choose();
        refund_of(cat[k], percent) + refund_sum(cat, s.remove(k), percent)
    } else {
        0
    }
}

/// Reaching `y` in some steps reaches it in more.
proof fn lemma_in_sold_fuel(cat: Map<ItemId, Item>, counts: Map<ItemId, usize>, x: ItemId, y: ItemId, g: nat, h: nat)
    requires
        in_sold(cat, counts, x, y, g),
        g <= h,
    ensures
        in_sold(cat, counts, x, y, h),
    decreases g,
{
    if y != x {
        let k = choose|k: ItemId| #[trigger] dependents(cat, counts, x).contains(k)
            && in_sold(cat, counts, k, y, (g - 1) as nat);
        lemma_in_sold_fuel(cat, counts, k, y, (g - 1) as nat, (h - 1) as nat);
    }
}

/// Everything sold with `x` but `x` itself is held.
proof fn lemma_in_sold_held(cat: Map<ItemId, Item>, counts: Map<ItemId, usize>, x: ItemId, y: ItemId, f: nat)
    requires
        in_sold(cat, counts, x, y, f),
        y != x,
    ensures
        counts.dom().contains(y),
    decreases f,
{
    let k = choose|k: ItemId| #[trigger] dependents(cat, counts, x).contains(k)
        && in_sold(cat, counts, k, y, (f - 1) as nat);
    if y != k {
        lemma_in_sold_held(cat, counts, k, y, (f - 1) as nat);
    }
}

/// Something sold with `x` other than `x` is a held upgrade of something sold with `x`
/// one step less deep.
proof fn lemma_in_sold_last(cat: Map<ItemId, Item>, counts: Map<ItemId, usize>, x: ItemId, y: ItemId, f: nat)
    requires
        in_sold(cat, counts, x, y, f),
        y != x,
    ensures
        exists|p: ItemId| #[trigger] in_sold(cat, counts, x, p, (f - 1) as nat) && dependents(cat, counts, p).contains(y),
    decreases f,
{
    let k = choose|k: ItemId| #[trigger] dependents(cat, counts, x).contains(k)
        && in_sold(cat, counts, k, y, (f - 1) as nat);
    if y == k {
        assert(in_sold(cat, counts, x, x, (f - 1) as nat));
    } else {
        lemma_in_sold_last(cat, counts, k, y, (f - 1) as nat);
        let p = choose|p: ItemId| #[trigger] in_sold(cat, counts, k, p, (f - 2) as nat)
            && dependents(cat, counts, p).contains(y);
        assert(in_sold(cat, counts, x, p, (f - 1) as nat));
    }
}

/// The chains above anything reached from `k` are as bounded as those above `k`.
proof fn lemma_chain_down(cat: Map<ItemId, Item>, counts: Map<ItemId, usize>, k: ItemId, y: ItemId, g: nat, m: nat)
    requires
        in_sold(cat, counts, k, y, g),
        chain_bounded(cat, counts, k, m),
    ensures
        chain_bounded(cat, counts, y, m),
    decreases g,
{
    if y != k {
        let j = choose|j: ItemId| #[trigger] dependents(cat, counts, k).contains(j)
            && in_sold(cat, counts, j, y, (g - 1) as nat);
        assert(chain_bounded(cat, counts, j, (m - 1) as nat));
        lemma_chain_monotone(cat, counts, j, (m - 1) as nat, m);
        lemma_chain_down(cat, counts, j, y, (g - 1) as nat, m);
    }
}

/// With bounded chains, nothing built on `x` leads back to `x`.
proof fn lemma_no_cycle(cat: Map<ItemId, Item>, counts: Map<ItemId, usize>, x: ItemId, k: ItemId, g: nat, n: nat)
    requires
        dependents(cat, counts, x).contains(k),
        chain_bounded(cat, counts, x, n),
    ensures
        !in_sold(cat, counts, k, x, g),
    decreases n,
{
    if in_sold(cat, counts, k, x, g) {
        assert(chain_bounded(cat, counts, k, (n - 1) as nat));
        lemma_chain_down(cat, counts, k, x, g, (n - 1) as nat);
        lemma_no_cycle(cat, counts, x, k, g, (n - 1) as nat);
    }
}

/// Holding fewer items bounds chains at least as well.
proof fn lemma_chain_fewer(cat: Map<ItemId, Item>, c0: Map<ItemId, usize>, c1: Map<ItemId, usize>, x: ItemId, n: nat)
    requires
        c1.dom().subset_of(c0.dom()),
        chain_bounded(cat, c0, x, n),
    ensures
        chain_bounded(cat, c1, x, n),
    decreases n,
{
    assert forall|k: ItemId| #[trigger] dependents(cat, c1, x).contains(k) implies chain_bounded(cat, c1, k, (n - 1) as nat) by {
        assert(dependents(cat, c0, x).contains(k));
        lemma_chain_fewer(cat, c0, c1, k, (n - 1) as nat);
    }
}

/// What selling `x` sells depends only on whether the items it reaches are held.
proof fn lemma_frame(cat: Map<ItemId, Item>, c0: Map<ItemId, usize>, c1: Map<ItemId, usize>, x: ItemId, f: nat)
    requires
        c1.dom().subset_of(c0.dom()),
        forall|y: ItemId| #[trigger] in_sold(cat, c0, x, y, f) ==> (c1.dom().contains(y) <==> c0.dom().contains(y)),
    ensures
        forall|y: ItemId| #[trigger] in_sold(cat, c1, x, y, f) <==> in_sold(cat, c0, x, y, f),
    decreases f,
{
    if f > 0 {
        assert forall|k: ItemId| #[trigger] dependents(cat, c0, x).contains(k) implies
            (forall|y: ItemId| #[trigger] in_sold(cat, c1, k, y, (f - 1) as nat) <==> in_sold(cat, c0, k, y, (f - 1) as nat))
            && dependents(cat, c1, x).contains(k) by {
            assert forall|y: ItemId| #[trigger] in_sold(cat, c0, k, y, (f - 1) as nat) implies
                (c1.dom().contains(y) <==> c0.dom().contains(y)) by {
                assert(in_sold(cat, c0, x, y, f));
            }
            lemma_frame(cat, c0, c1, k, (f - 1) as nat);
            assert(in_sold(cat, c0, x, k, f)) by {
                assert(in_sold(cat, c0, k, k, (f - 1) as nat));
            }
        }
        assert forall|y: ItemId| #[trigger] in_sold(cat, c1, x, y, f) <==> in_sold(cat, c0, x, y, f) by {
            if in_sold(cat, c1, x, y, f) && y != x {
                let k = choose|k: ItemId| #[trigger] dependents(cat, c1, x).contains(k)
                    && in_sold(cat, c1, k, y, (f - 1) as nat);
                assert(dependents(cat, c0, x).contains(k));
            }
            if in_sold(cat, c0, x, y, f) && y != x {
                let k = choose|k: ItemId| #[trigger] dependents(cat, c0, x).contains(k)
                    && in_sold(cat, c0, k, y, (f - 1) as nat);
                assert(dependents(cat, c1, x).contains(k));
            }
        }
    }
}

/// Reaching `y` from a held upgrade `k` of `x` reaches it from `x`.
proof fn lemma_in_sold_through(cat: Map<ItemId, Item>, counts: Map<ItemId, usize>, x: ItemId, k: ItemId, y: ItemId, g: nat, f: nat)
    requires
        dependents(cat, counts, x).contains(k),
        in_sold(cat, counts, k, y, g),
        g < f,
    ensures
        in_sold(cat, counts, x, y, f),
{
    lemma_in_sold_fuel(cat, counts, k, y, g, (f - 1) as nat);
}

/// When no held upgrade needs two items sold with `x`, what selling two different
/// upgrades of `x` sells does not overlap.
proof fn lemma_disjoint(
    cat: Map<ItemId, Item>,
    c: Map<ItemId, usize>,
    x: ItemId,
    f: nat,
    k1: ItemId,
    k2: ItemId,
    y: ItemId,
    g1: nat,
    g2: nat,
)
    requires
        dependents(cat, c, x).contains(k1),
        dependents(cat, c, x).contains(k2),
        k1 != k2,
        single_parent(cat, c, x, f),
        chain_bounded(cat, c, x, f),
        g1 < f,
        g2 < f,
    ensures
        !(in_sold(cat, c, k1, y, g1) && in_sold(cat, c, k2, y, g2)),
    decreases g1 + g2,
{
    if in_sold(cat, c, k1, y, g1) && in_sold(cat, c, k2, y, g2) {
        if y == k1 {
            lemma_in_sold_last(cat, c, k2, y, g2);
            let p2 = choose|p: ItemId| #[trigger] in_sold(cat, c, k2, p, (g2 - 1) as nat) && dependents(cat, c, p).contains(y);
            lemma_in_sold_through(cat, c, x, k2, p2, (g2 - 1) as nat, f);
            assert(is_upgrade_of(cat[k1], x) && is_upgrade_of(cat[k1], p2));
            assert(in_sold(cat, c, x, x, f));
            assert(p2 == x);
            lemma_no_cycle(cat, c, x, k2, (g2 - 1) as nat, f);
        } else if y == k2 {
            lemma_in_sold_last(cat, c, k1, y, g1);
            let p1 = choose|p: ItemId| #[trigger] in_sold(cat, c, k1, p, (g1 - 1) as nat) && dependents(cat, c, p).contains(y);
            lemma_in_sold_through(cat, c, x, k1, p1, (g1 - 1) as nat, f);
            assert(is_upgrade_of(cat[k2], x) && is_upgrade_of(cat[k2], p1));
            assert(in_sold(cat, c, x, x, f));
            assert(p1 == x);
            lemma_no_cycle(cat, c, x, k1, (g1 - 1) as nat, f);
        } else {
            lemma_in_sold_last(cat, c, k1, y, g1);
            lemma_in_sold_last(cat, c, k2, y, g2);
            let p1 = choose|p: ItemId| #[trigger] in_sold(cat, c, k1, p, (g1 - 1) as nat) && dependents(cat, c, p).contains(y);
            let p2 = choose|p: ItemId| #[trigger] in_sold(cat, c, k2, p, (g2 - 1) as nat) && dependents(cat, c, p).contains(y);
            lemma_in_sold_through(cat, c, x, k1, p1, (g1 - 1) as nat, f);
            lemma_in_sold_through(cat, c, x, k2, p2, (g2 - 1) as nat, f);
            assert(is_upgrade_of(cat[y], p1) && is_upgrade_of(cat[y], p2));
            assert(p1 == p2);
            lemma_disjoint(cat, c, x, f, k1, k2, p1, (g1 - 1) as nat, (g2 - 1) as nat);
        }
    }
}

/// Refunds are never negative.
proof fn lemma_refund_nonneg(cat: Map<ItemId, Item>, s: Set<ItemId>, percent: nat)
    ensures
        refund_sum(cat, s, percent) >= 0,
    decreases s.len(),
{
    if s.finite() && s.len() > 0 {
        let k = s.choose();
        lemma_refund_nonneg(cat, s.remove(k), percent);
        assert(cat[k].cost * percent >= 0) by (nonlinear_arith);
    }
}

/// A refund sum can take out any one of its items first.
proof fn lemma_refund_remove(cat: Map<ItemId, Item>, s: Set<ItemId>, k: ItemId, percent: nat)
    requires
        s.finite(),
        s.contains(k),
    ensures
        refund_sum(cat, s, percent) == refund_of(cat[k], percent) + refund_sum(cat, s.remove(k), percent),
    decreases s.len(),
{
    let c = s.choose();
    if c != k {
        lemma_refund_remove(cat, s.remove(c), k, percent);
        lemma_refund_remove(cat, s.remove(k), c, percent);
        assert(s.remove(c).remove(k) =~= s.remove(k).remove(c));
    }
}

/// The refund of two disjoint finite sets is the sum of their refunds.
proof fn lemma_refund_union(cat: Map<ItemId, Item>, a: Set<ItemId>, b: Set<ItemId>, percent: nat)
    requires
        a.finite(),
        b.finite(),
        a.disjoint(b),
    ensures
        refund_sum(cat, a.union(b), percent) == refund_sum(cat, a, percent) + refund_sum(cat, b, percent),
    decreases a.len(),
{
    if a.len() == 0 {
        assert(a =~= Set::<ItemId>::empty());
        assert(a.union(b) =~= b);
    } else {
        let x = a.choose();
        lemma_refund_union(cat, a.remove(x), b, percent);
        lemma_refund_remove(cat, a.union(b), x, percent);
        lemma_refund_remove(cat, a, x, percent);
        assert(a.union(b).remove(x) =~= a.remove(x).union(b));
    }
}

/// A subset refunds no more.
proof fn lemma_refund_subset(cat: Map<ItemId, Item>, a: Set<ItemId>, b: Set<ItemId>, percent: nat)
    requires
        b.finite(),
        a.subset_of(b),
    ensures
        refund_sum(cat, a, percent) <= refund_sum(cat, b, percent),
{
    vstd::set_lib::lemma_set_subset_finite(b, a);
    let rest = b.difference(a);
    lemma_refund_union(cat, a, rest, percent);
    assert(a.union(rest) =~= b);
    lemma_refund_nonneg(cat, rest, percent);
}

/// Selling two disjoint sets one after the other is selling their union.
proof fn lemma_after_sale_twice(counts: Map<ItemId, usize>, a: Set<ItemId>, b: Set<ItemId>)
    requires
        a.disjoint(b),
    ensures
        after_sale(after_sale(counts, a), b) == after_sale(counts, a.union(b)),
{
    assert(after_sale(after_sale(counts, a), b) =~= after_sale(counts, a.union(b)));
}

/// What selling `x` sells is finite: `x` and held items.
proof fn lemma_sold_finite(cat: Map<ItemId, Item>, counts: Map<ItemId, usize>, x: ItemId, f: nat)
    requires
        counts.dom().finite(),
    ensures
        sold_set(cat, counts, x, f).finite(),
        sold_set(cat, counts, x, f).subset_of(counts.dom().insert(x)),
{
    assert forall|y: ItemId| #[trigger] sold_set(cat, counts, x, f).contains(y) implies counts.dom().insert(x).contains(y) by {
        if y != x {
            lemma_in_sold_held(cat, counts, x, y, f);
        }
    }
    vstd::set_lib::lemma_set_subset_finite(counts.dom().insert(x), sold_set(cat, counts, x, f));
}

/// The items sold so far in selling `x`: `x`, and everything sold with the held upgrades
/// of `x` among the first `i` keys.
pub open spec fn sold_so_far(cat: Map<ItemId, Item>, c0: Map<ItemId, usize>, x: ItemId, fuel: nat, keys: Seq<ItemId>, i: int) -> Set<ItemId> {
    Set::new(|y: ItemId| y == x || exists|j: int| 0 <= j < i && #[trigger] dependents(cat, c0, x).contains(keys[j])
        && in_sold(cat, c0, keys[j], y, (fuel - 1) as nat))
}

/// Before the upgrade `k` of `x` is sold, nothing that selling it sells has been sold
/// yet, and in the current counts selling it sells the same and meets the same bounds.
proof fn lemma_sale_step(
    cat: Map<ItemId, Item>,
    c0: Map<ItemId, usize>,
    x: ItemId,
    fuel: nat,
    keys: Seq<ItemId>,
    i: int,
)
    requires
        fuel > 0,
        0 <= i < keys.len(),
        keys.no_duplicates(),
        dependents(cat, c0, x).contains(keys[i]),
        chain_bounded(cat, c0, x, fuel),
        single_parent(cat, c0, x, fuel),
    ensures
        keys[i] != x,
        sold_so_far(cat, c0, x, fuel, keys, i).disjoint(sold_set(cat, c0, keys[i], (fuel - 1) as nat)),
        sold_set(cat, c0, keys[i], (fuel - 1) as nat).subset_of(sold_set(cat, c0, x, fuel)),
        forall|y: ItemId| #[trigger] in_sold(cat, after_sale(c0, sold_so_far(cat, c0, x, fuel, keys, i)), keys[i], y, (fuel - 1) as nat)
            <==> in_sold(cat, c0, keys[i], y, (fuel - 1) as nat),
        chain_bounded(cat, after_sale(c0, sold_so_far(cat, c0, x, fuel, keys, i)), keys[i], (fuel - 1) as nat),
        single_parent(cat, after_sale(c0, sold_so_far(cat, c0, x, fuel, keys, i)), keys[i], (fuel - 1) as nat),
{
    let k = keys[i];
    let g = (fuel - 1) as nat;
    let done = sold_so_far(cat, c0, x, fuel, keys, i);
    let cs = after_sale(c0, done);
    lemma_no_cycle(cat, c0, x, k, 0, fuel);
    assert forall|y: ItemId| #[trigger] in_sold(cat, c0, k, y, g) implies !done.contains(y) by {
        lemma_no_cycle(cat, c0, x, k, g, fuel);
        if done.contains(y) && y != x {
            let j = choose|j: int| 0 <= j < i && #[trigger] dependents(cat, c0, x).contains(keys[j])
                && in_sold(cat, c0, keys[j], y, g);
            assert(keys[j] != k);
            lemma_disjoint(cat, c0, x, fuel, keys[j], k, y, g, g);
        }
    }
    assert(done.disjoint(sold_set(cat, c0, k, g)));
    assert forall|y: ItemId| #[trigger] sold_set(cat, c0, k, g).contains(y) implies sold_set(cat, c0, x, fuel).contains(y) by {
        lemma_in_sold_through(cat, c0, x, k, y, g, fuel);
    }
    assert(cs.dom().subset_of(c0.dom()));
    lemma_frame(cat, c0, cs, k, g);
    assert(chain_bounded(cat, c0, k, g));
    lemma_chain_fewer(cat, c0, cs, k, g);
    assert forall|j: ItemId, a: ItemId, b: ItemId|
        #![trigger is_upgrade_of(cat[j], a), is_upgrade_of(cat[j], b)]
        cs.dom().contains(j) && is_upgrade_of(cat[j], a) && is_upgrade_of(cat[j], b)
            && in_sold(cat, cs, k, a, g) && in_sold(cat, cs, k, b, g) implies a == b by {
        lemma_in_sold_through(cat, c0, x, k, a, g, fuel);
        lemma_in_sold_through(cat, c0, x, k, b, g, fuel);
    }
}

/// One item's refund: the given percentage of its cost, rounded down, without overflow.
fn refund(cost: usize, percent: usize) -> (r: usize)
    requires
        percent <= 100,
    ensures
        r == (cost * percent) / 100,
        r <= cost,
{
    let q = cost / 100;
    let rem = cost % 100;
    assert(q * percent <= q * 100) by (nonlinear_arith)
        requires percent <= 100;
    assert(rem * percent <= 99 * 100) by (nonlinear_arith)
        requires rem < 100, percent <= 100;
    assert(q * 100 + rem == cost);
    assert(rem * percent / 100 <= rem) by (nonlinear_arith)
        requires percent <= 100, rem >= 0;
    assert(q * percent + rem * percent / 100 <= cost);
    let r = q * percent + rem * percent / 100;
    assert(cost * percent == (q * percent) * 100 + rem * percent) by (nonlinear_arith)
        requires cost == q * 100 + rem;
    assert((cost * percent) / 100 == q * percent + (rem * percent) / 100) by (nonlinear_arith)
        requires cost * percent == (q * percent) * 100 + rem * percent, rem * percent >= 0;
    assert(rem * percent / 100 <= rem) by (nonlinear_arith)
        requires percent <= 100, rem >= 0;
    r
}

impl Inventory {
    /// Sells one `id` for the given percentage of its cost, and with it one of every held
    /// upgrade built on it.
    fn sell_with_fuel(&mut self, character: &Character, id: ItemId, percent: usize, Ghost(fuel): Ghost<nat>)
        requires
            old(self).well_formed(),
            old(self).described_by(character.catalog()),
            character.catalog().dom().contains(id),
            count_in(old(self).counts(), id) > 0,
            percent <= 100,
            chain_bounded(character.catalog(), old(self).counts(), id, fuel),
            single_parent(character.catalog(), old(self).counts(), id, fuel),
            old(self).money + refund_sum(character.catalog(), sold_set(character.catalog(), old(self).counts(), id, fuel), percent as nat)
                <= usize::MAX,
        ensures
            final(self).counts() == after_sale(old(self).counts(), sold_set(character.catalog(), old(self).counts(), id, fuel)),
            final(self).money == old(self).money
                + refund_sum(character.catalog(), sold_set(character.catalog(), old(self).counts(), id, fuel), percent as nat),
            final(self).well_formed(),
        decreases fuel,
    {
        let ghost cat = character.catalog();
        let ghost c0 = self.counts();
        let ghost m0 = self.money as int;
        let ghost pct = percent as nat;
        let ghost sold = sold_set(cat, c0, id, fuel);
        proof {
            lemma_sold_finite(cat, c0, id, fuel);
            assert(sold.contains(id));
            lemma_refund_subset(cat, set![id], sold, pct);
            assert(set![id].remove(id) =~= Set::<ItemId>::empty());
            lemma_refund_remove(cat, set![id], id, pct);
        }
        let item = match item_catalog_get(&character.items, &id) {
            Some(it) => it,
            None => {
                assert(false);
                return;
            },
        };
        let back = refund(item.cost, percent);
        self.money = self.money + back;
        let count = self.count(id);
        if count > 1 {
            item_count_insert(&mut self.items, id, count - 1);
        } else {
            item_count_remove(&mut self.items, &id);
        }
        proof {
            assert(self.counts() =~= after_sale(c0, set![id]));
        }
        let keys = item_count_keys(&self.items);
        let ghost c1 = self.counts();
        proof {
            assert(sold_so_far(cat, c0, id, fuel, keys@, 0) =~= set![id]);
        }
        let mut i: usize = 0;
        while i < keys.len()
            invariant
                i <= keys@.len(),
                keys@.to_set() == c1.dom(),
                keys@.no_duplicates(),
                c1 == after_sale(c0, set![id]),
                cat == character.catalog(),
                pct == percent as nat,
                percent <= 100,
                fuel > 0,
                c0.dom().finite(),
                forall|y: ItemId| #[trigger] c0.dom().contains(y) ==> c0[y] > 0,
                c0.dom().subset_of(cat.dom()),
                chain_bounded(cat, c0, id, fuel),
                single_parent(cat, c0, id, fuel),
                sold == sold_set(cat, c0, id, fuel),
                sold.finite(),
                m0 + refund_sum(cat, sold, pct) <= usize::MAX,
                sold_so_far(cat, c0, id, fuel, keys@, i as int).subset_of(sold),
                self.counts() == after_sale(c0, sold_so_far(cat, c0, id, fuel, keys@, i as int)),
                self.money == m0 + refund_sum(cat, sold_so_far(cat, c0, id, fuel, keys@, i as int), pct),
                self.well_formed(),
                self.described_by(cat),
            decreases keys@.len() - i,
        {
            let k = keys[i];
            let ghost done = sold_so_far(cat, c0, id, fuel, keys@, i as int);
            proof {
                assert(keys@.contains(k)) by { assert(keys@[i as int] == k); }
                assert(c1.dom().contains(k));
                assert(c0.dom().contains(k));
            }
            let owned = match item_catalog_get(&character.items, &k) {
                Some(it) => it,
                None => {
                    assert(false);
                    return;
                },
            };
            let depends = match &owned.category {
                ItemCategory::Upgrade(components) => contains_item(components, id),
                _ => false,
            };
            if depends {
                proof {
                    assert(dependents(cat, c0, id).contains(k));
                    lemma_sale_step(cat, c0, id, fuel, keys@, i as int);
                    let part = sold_set(cat, c0, k, (fuel - 1) as nat);
                    lemma_sold_finite(cat, c0, k, (fuel - 1) as nat);
                    vstd::set_lib::lemma_set_subset_finite(sold, done);
                    lemma_refund_union(cat, done, part, pct);
                    lemma_refund_subset(cat, done.union(part), sold, pct);
                    assert(!done.contains(k)) by {
                        assert(in_sold(cat, c0, k, k, (fuel - 1) as nat));
                    }
                    assert(self.counts().dom().contains(k));
                    assert(self.counts().dom().subset_of(c0.dom()));
                    assert(sold_set(cat, self.counts(), k, (fuel - 1) as nat) =~= part);
                }
                self.sell_with_fuel(character, k, percent, Ghost((fuel - 1) as nat));
                proof {
                    let part = sold_set(cat, c0, k, (fuel - 1) as nat);
                    lemma_after_sale_twice(c0, done, part);
                    assert(sold_so_far(cat, c0, id, fuel, keys@, i + 1) =~= done.union(part)) by {
                        assert forall|y: ItemId| #[trigger] sold_so_far(cat, c0, id, fuel, keys@, i + 1).contains(y)
                            implies done.union(part).contains(y) by {
                            if y != id {
                                let j = choose|j: int| 0 <= j < i + 1 && #[trigger] dependents(cat, c0, id).contains(keys@[j])
                                    && in_sold(cat, c0, keys@[j], y, (fuel - 1) as nat);
                                if j < i {
                                    assert(done.contains(y));
                                }
                            }
                        }
                        assert forall|y: ItemId| #[trigger] done.union(part).contains(y)
                            implies sold_so_far(cat, c0, id, fuel, keys@, i + 1).contains(y) by {
                            if done.contains(y) && y != id {
                                let j = choose|j: int| 0 <= j < i && #[trigger] dependents(cat, c0, id).contains(keys@[j])
                                    && in_sold(cat, c0, keys@[j], y, (fuel - 1) as nat);
                                assert(0 <= j < i + 1);
                            }
                            if part.contains(y) {
                                assert(dependents(cat, c0, id).contains(keys@[i as int]));
                            }
                        }
                    }
                }
            } else {
                proof {
                    assert(!dependents(cat, c0, id).contains(k));
                    assert(sold_so_far(cat, c0, id, fuel, keys@, i + 1) =~= done) by {
                        assert forall|y: ItemId| #[trigger] sold_so_far(cat, c0, id, fuel, keys@, i + 1).contains(y)
                            implies done.contains(y) by {
                            if y != id {
                                let j = choose|j: int| 0 <= j < i + 1 && #[trigger] dependents(cat, c0, id).contains(keys@[j])
                                    && in_sold(cat, c0, keys@[j], y, (fuel - 1) as nat);
                                assert(j != i);
                            }
                        }
                        assert forall|y: ItemId| #[trigger] done.contains(y)
                            implies sold_so_far(cat, c0, id, fuel, keys@, i + 1).contains(y) by {
                            if y != id {
                                let j = choose|j: int| 0 <= j < i && #[trigger] dependents(cat, c0, id).contains(keys@[j])
                                    && in_sold(cat, c0, keys@[j], y, (fuel - 1) as nat);
                                assert(0 <= j < i + 1);
                            }
                        }
                    }
                }
            }
            i = i + 1;
        }
        proof {
            let done = sold_so_far(cat, c0, id, fuel, keys@, keys@.len() as int);
            assert forall|y: ItemId| #[trigger] sold.contains(y) implies done.contains(y) by {
                if y != id {
                    let k = choose|k: ItemId| #[trigger] dependents(cat, c0, id).contains(k)
                        && in_sold(cat, c0, k, y, (fuel - 1) as nat);
                    lemma_no_cycle(cat, c0, id, k, 0, fuel);
                    assert(c1.dom().contains(k));
                    assert(keys@.to_set().contains(k));
                    let j = choose|j: int| 0 <= j < keys@.len() && keys@[j] == k;
                    assert(dependents(cat, c0, id).contains(keys@[j]));
                }
            }
            assert(done =~= sold);
        }
    }
}

impl Inventory {
    /// Sells one `id` for `sell_return_percent` percent of its cost, and with it one of
    /// every held upgrade built on it, each for the same share of its own cost.
    pub fn sell(&mut self, character: &Character, id: ItemId, sell_return_percent: usize)
        requires
            old(self).well_formed(),
            old(self).described_by(character.catalog()),
            character.catalog().dom().contains(id),
            count_in(old(self).counts(), id) > 0,
            sell_return_percent <= 100,
            exists|n: nat| chain_bounded(character.catalog(), old(self).counts(), id, n),
            sells_as_tree(character.catalog(), old(self).counts(), id),
            old(self).money + refund_sum(character.catalog(), sold_with(character.catalog(), old(self).counts(), id),
                sell_return_percent as nat) <= usize::MAX,
        ensures
            final(self).counts() == after_sale(old(self).counts(), sold_with(character.catalog(), old(self).counts(), id)),
            final(self).money == old(self).money
                + refund_sum(character.catalog(), sold_with(character.catalog(), old(self).counts(), id), sell_return_percent as nat),
            final(self).well_formed(),
    {
        let ghost fuel = chain_fuel(character.catalog(), self.counts(), id);
        self.sell_with_fuel(character, id, sell_return_percent, Ghost(fuel));
    }
}

/// Law: selling an item takes one of it and one of each held upgrade built directly on
/// it, and returns at least the item's own share of its cost.
pub proof fn law_sale_takes_the_item_and_its_upgrades(inv: Inventory, character: Character, id: ItemId, percent: nat)
    requires
        inv.well_formed(),
        count_in(inv.counts(), id) > 0,
        exists|n: nat| chain_bounded(character.catalog(), inv.counts(), id, n),
    ensures
        count_in(after_sale(inv.counts(), sold_with(character.catalog(), inv.counts(), id)), id)
            == count_in(inv.counts(), id) - 1,
        forall|u: ItemId| #[trigger] dependents(character.catalog(), inv.counts(), id).contains(u) ==>
            count_in(after_sale(inv.counts(), sold_with(character.catalog(), inv.counts(), id)), u)
                == count_in(inv.counts(), u) - 1,
        refund_sum(character.catalog(), sold_with(character.catalog(), inv.counts(), id), percent)
            >= refund_of(character.catalog()[id], percent),
{
    let cat = character.catalog();
    let counts = inv.counts();
    let fuel = chain_fuel(cat, counts, id);
    let sold = sold_with(cat, counts, id);
    assert(chain_bounded(cat, counts, id, fuel));
    assert(fuel > 0);
    assert(in_sold(cat, counts, id, id, fuel));
    assert(sold.contains(id));
    assert forall|u: ItemId| #[trigger] dependents(cat, counts, id).contains(u) implies
        count_in(after_sale(counts, sold), u) == count_in(counts, u) - 1 by {
        assert(in_sold(cat, counts, u, u, (fuel - 1) as nat));
        assert(in_sold(cat, counts, id, u, fuel));
        assert(sold.contains(u));
        assert(counts.dom().contains(u));
    }
    lemma_sold_finite(cat, counts, id, fuel);
    let single = Set::<ItemId>::empty().insert(id);
    assert(single.len() == 1);
    assert(single.contains(single.choose()));
    assert(single.choose() == id);
    assert(single.remove(id) =~= Set::<ItemId>::empty());
    assert(refund_sum(cat, single.remove(id), percent) == 0);
    assert(refund_sum(cat, single, percent) == refund_of(cat[id], percent));
    lemma_refund_subset(cat, single, sold, percent);
}

} // verus!
