//! Items and the inventory a character buys them into.
use vstd::prelude::*;
use crate::ids::{ActionId, ItemId};
use crate::resources::{Stats, no_stats};
use crate::collections::{MoveTable, InputTable, move_table, input_table, new_input_table, input_table_insert, move_table_get, move_table_keys, ItemCounts, ItemCatalog, item_counts, catalog_items, new_item_counts, item_count_get, item_count_insert, item_count_remove, item_count_keys, item_catalog_get};

verus! {

/// How long a consumable lasts.
#[derive(Clone, Copy, Debug, PartialEq, Eq, Structural)]
pub enum ConsumableType {
    OneRound,
    UntilUsed,
}

/// What kind of item an item is; an upgrade lists the items it needs.
#[derive(Clone, Debug, PartialEq, Eq)]
pub enum ItemCategory {
    Consumable(ConsumableType),
    Basic,
    Upgrade(Vec<ItemId>),
}

/// The shop's description of an item.
#[derive(Clone, Debug)]
pub struct Item {
    pub category: ItemCategory,
    pub cost: usize,
    pub effect: Stats,
    pub explanation: String,
    pub max_stack: usize,
    pub suggested: bool,
}

impl Item {
    /// Whether the item only lasts one round.
    pub open spec fn is_one_round(&self) -> bool {
        self.category == ItemCategory::Consumable(ConsumableType::OneRound)
    }

    pub fn one_round(&self) -> (r: bool)
        ensures
            r == self.is_one_round(),
    {
        match &self.category {
            ItemCategory::Consumable(ConsumableType::OneRound) => true,
            _ => false,
        }
    }
}

impl Default for Item {
    fn default() -> (r: Self)
        ensures
            r.category == ItemCategory::Basic,
            r.cost == 0,
            r.effect == no_stats(),
            r.explanation@ == "Description missing"@,
            r.max_stack == 1,
            !r.suggested,
    {
        proof { reveal_strlit("Description missing"); }
        Item {
            category: ItemCategory::Basic,
            cost: 0,
            effect: Stats::identity(),
            explanation: "Description missing".to_owned(),
            max_stack: 1,
            suggested: false,
        }
    }
}

/// How many of `id` a count map holds; absent items count as none.
pub open spec fn count_in(m: Map<ItemId, usize>, id: ItemId) -> nat {
    if m.dom().contains(id) {
        m[id] as nat
    } else {
        0
    }
}

/// Every item that an upgrade needs has an entry in the count map.
pub open spec fn dependencies_owned(m: Map<ItemId, usize>, category: ItemCategory) -> bool {
    match category {
        ItemCategory::Upgrade(deps) => forall|i: int| 0 <= i < deps@.len() ==> #[trigger] m.dom().contains(deps@[i]),
        _ => true,
    }
}

/// What the game logic reads of a character: its moves and its catalog of items.
pub struct Character {
    pub moves: MoveTable,
    pub items: ItemCatalog,
}

/// The input notation of each move that has one.
pub open spec fn inputs_of(moves: Map<ActionId, crate::script::Action>) -> Map<ActionId, Seq<char>> {
    Map::new(
        |id: ActionId| moves.dom().contains(id) && moves[id].input is Some,
        |id: ActionId| moves[id].input.unwrap()@,
    )
}

impl Character {
    /// The character's items by identifier.
    pub open spec fn catalog(&self) -> Map<ItemId, Item> {
        catalog_items(self.items)
    }

    /// The character's moves by identifier.
    pub open spec fn move_list(&self) -> Map<ActionId, crate::script::Action> {
        move_table(self.moves)
    }

    /// The move with the given identifier, if the character has it.
    pub fn get_move(&self, id: ActionId) -> (r: Option<&crate::script::Action>)
        ensures
            r is Some == self.move_list().dom().contains(id),
            r matches Some(action) ==> *action == self.move_list()[id],
    {
        move_table_get(&self.moves, &id)
    }

    /// The input notation of each move that has one.
    pub fn get_inputs(&self) -> (r: InputTable)
        ensures
            input_table(r) == inputs_of(self.move_list()),
    {
        let keys = move_table_keys(&self.moves);
        let ghost moves = self.move_list();
        let mut table = new_input_table();
        let mut i: usize = 0;
        while i < keys.len()
            invariant
                i <= keys@.len(),
                keys@.to_set() == moves.dom(),
                keys@.no_duplicates(),
                moves == self.move_list(),
                input_table(table) == inputs_of(moves).restrict(keys@.subrange(0, i as int).to_set()),
            decreases keys@.len() - i,
        {
            let id = keys[i];
            proof {
                assert(keys@.contains(id)) by { assert(keys@[i as int] == id); }
                keys@.subrange(0, i as int).lemma_push_to_set_commute(id);
                assert(keys@.subrange(0, i + 1) =~= keys@.subrange(0, i as int).push(id));
            }
            match move_table_get(&self.moves, &id) {
                Some(action) => {
                    match &action.input {
                        Some(input) => {
                            input_table_insert(&mut table, id, input.clone());
                            assert(input_table(table) =~= inputs_of(moves).restrict(keys@.subrange(0, i + 1).to_set()));
                        },
                        None => {
                            assert(input_table(table) =~= inputs_of(moves).restrict(keys@.subrange(0, i + 1).to_set()));
                        },
                    }
                },
                None => {
                    assert(false);
                },
            }
            i = i + 1;
        }
        proof {
            assert(keys@.subrange(0, keys@.len() as int) =~= keys@);
            assert(inputs_of(moves).restrict(keys@.to_set()) =~= inputs_of(moves));
        }
        table
    }
}

/// The money and items a player holds.
pub struct Inventory {
    pub money: usize,
    pub items: ItemCounts,
}

impl Inventory {
    /// How many of each item the inventory holds.
    pub open spec fn counts(&self) -> Map<ItemId, usize> {
        item_counts(self.items)
    }

    /// The inventory's entries are finitely many and each holds at least one item.
    pub open spec fn well_formed(&self) -> bool {
        &&& self.counts().dom().finite()
        &&& forall|id: ItemId| #[trigger] self.counts().dom().contains(id) ==> self.counts()[id] > 0
    }

    /// Every item the inventory holds is described by the catalog.
    pub open spec fn described_by(&self, catalog: Map<ItemId, Item>) -> bool {
        forall|id: ItemId| #[trigger] self.counts().dom().contains(id) ==> catalog.dom().contains(id)
    }

    /// An empty inventory holding the given money.
    pub fn with_money(money: usize) -> (r: Self)
        ensures
            r.money == money,
            r.counts().dom().is_empty(),
            r.well_formed(),
    {
        let items = new_item_counts();
        proof {
            assert(item_counts(items).dom() =~= Set::<ItemId>::empty());
        }
        Inventory { money, items }
    }

    pub fn count(&self, item: ItemId) -> (r: usize)
        ensures
            r == count_in(self.counts(), item),
    {
        match item_count_get(&self.items, &item) {
            Some(c) => c,
            None => 0,
        }
    }

    pub fn contains(&self, item: ItemId) -> (r: bool)
        ensures
            r == (count_in(self.counts(), item) > 0),
    {
        self.count(item) > 0
    }

    /// Whether the inventory can take one more of the item: it holds no more than the
    /// item's stack limit.
    pub fn has_space_for(&self, id: ItemId, item: &Item) -> (r: bool)
        ensures
            r == (count_in(self.counts(), id) <= item.max_stack),
    {
        self.count(id) <= item.max_stack
    }

    /// Whether the item can be bought: it is affordable, there is space for it, and an
    /// upgrade's components all have an entry.
    pub fn can_buy(&self, id: ItemId, item: &Item) -> (r: bool)
        ensures
            r == (item.cost <= self.money && count_in(self.counts(), id) <= item.max_stack
                && dependencies_owned(self.counts(), item.category)),
    {
        if item.cost > self.money {
            return false;
        }
        if !self.has_space_for(id, item) {
            return false;
        }
        match &item.category {
            ItemCategory::Upgrade(dependencies) => self.has_entries_for(dependencies),
            _ => true,
        }
    }

    /// Whether every listed item has an entry.
    fn has_entries_for(&self, ids: &Vec<ItemId>) -> (r: bool)
        ensures
            r == forall|k: int| 0 <= k < ids@.len() ==> #[trigger] self.counts().dom().contains(ids@[k]),
    {
        let mut i: usize = 0;
        while i < ids.len()
            invariant
                i <= ids@.len(),
                forall|j: int| 0 <= j < i ==> #[trigger] self.counts().dom().contains(ids@[j]),
            decreases ids@.len() - i,
        {
            if item_count_get(&self.items, &ids[i]).is_none() {
                assert(!self.counts().dom().contains(ids@[i as int]));
                return false;
            }
            i = i + 1;
        }
        true
    }

    /// Pays for the item and adds one of it.
    pub fn buy(&mut self, id: ItemId, item: Item)
        requires
            item.cost <= old(self).money,
            count_in(old(self).counts(), id) < usize::MAX,
        ensures
            final(self).money == old(self).money - item.cost,
            final(self).counts() == old(self).counts().insert(id, (count_in(old(self).counts(), id) + 1) as usize),
            old(self).well_formed() ==> final(self).well_formed(),
    {
        self.money = self.money - item.cost;
        let current = self.count(id);
        item_count_insert(&mut self.items, id, current + 1);
    }

    /// Removes every one of an item.
    pub fn remove(&mut self, id: ItemId)
        ensures
            final(self).money == old(self).money,
            final(self).counts() == old(self).counts().remove(id),
            old(self).well_formed() ==> final(self).well_formed(),
    {
        item_count_remove(&mut self.items, &id);
    }

    /// Drops the items that only last one round.
    pub fn remove_one_round_consumables(&mut self, character: &Character)
        requires
            old(self).described_by(character.catalog()),
        ensures
            final(self).money == old(self).money,
            final(self).counts() == old(self).counts().restrict(
                old(self).counts().dom().filter(|id: ItemId| !character.catalog()[id].is_one_round()),
            ),
            old(self).well_formed() ==> final(self).well_formed(),
    {
        let keys = item_count_keys(&self.items);
        let ghost before = self.counts();
        let ghost mut seen: Set<ItemId> = Set::empty();
        let mut i: usize = 0;
        while i < keys.len()
            invariant
                i <= keys@.len(),
                keys@.to_set() == before.dom(),
                keys@.no_duplicates(),
                seen == keys@.subrange(0, i as int).to_set(),
                self.money == old(self).money,
                old(self).counts() == before,
                old(self).described_by(character.catalog()),
                self.counts() == before.restrict(
                    before.dom().filter(|x: ItemId| !(seen.contains(x) && character.catalog()[x].is_one_round())),
                ),
            decreases keys@.len() - i,
        {
            let id = keys[i];
            assert(keys@.to_set().contains(id)) by {
                assert(keys@.contains(id)) by { assert(keys@[i as int] == id); }
            }
            let entry = item_catalog_get(&character.items, &id);
            let drop = match entry {
                Some(it) => it.one_round(),
                None => false,
            };
            if drop {
                item_count_remove(&mut self.items, &id);
            }
            proof {
                let prev = before.dom().filter(|x: ItemId| !(seen.contains(x) && character.catalog()[x].is_one_round()));
                let seen2 = seen.insert(id);
                let next = before.dom().filter(|x: ItemId| !(seen2.contains(x) && character.catalog()[x].is_one_round()));
                assert(keys@.subrange(0, i + 1) =~= keys@.subrange(0, i as int).push(id));
                assert(keys@.subrange(0, i as int).push(id).to_set() =~= keys@.subrange(0, i as int).to_set().insert(id)) by {
                    keys@.subrange(0, i as int).lemma_push_to_set_commute(id);
                }
                if drop {
                    assert(next =~= prev.remove(id));
                    assert(self.counts() =~= before.restrict(next));
                } else {
                    assert(next =~= prev);
                }
                seen = seen2;
            }
            i = i + 1;
        }
        proof {
            assert(keys@.subrange(0, keys@.len() as int) =~= keys@);
            let all = before.dom().filter(|x: ItemId| !(seen.contains(x) && character.catalog()[x].is_one_round()));
            let keep = before.dom().filter(|x: ItemId| !character.catalog()[x].is_one_round());
            assert(all =~= keep);
            assert(self.counts().dom() =~= keep);
            if old(self).well_formed() {
                vstd::set_lib::lemma_set_subset_finite(before.dom(), keep);
            }
        }
    }
}

/// Whether the catalog entry is an upgrade that needs item `x`.
pub open spec fn is_upgrade_of(entry: Item, x: ItemId) -> bool {
    match entry.category {
        ItemCategory::Upgrade(deps) => deps@.contains(x),
        _ => false,
    }
}

/// The held items that are upgrades of `x`.
pub open spec fn dependents(cat: Map<ItemId, Item>, counts: Map<ItemId, usize>, x: ItemId) -> Set<ItemId> {
    counts.dom().filter(|k: ItemId| is_upgrade_of(cat[k], x))
}

/// Chains of held upgrades starting above `x` are shorter than `fuel`.
pub open spec fn chain_bounded(cat: Map<ItemId, Item>, counts: Map<ItemId, usize>, x: ItemId, fuel: nat) -> bool
    decreases fuel,
{
    fuel > 0 && forall|k: ItemId| #[trigger] dependents(cat, counts, x).contains(k)
        ==> chain_bounded(cat, counts, k, (fuel - 1) as nat)
}

/// The worth of `x` with everything held that is built on it, looking `fuel` levels up:
/// its cost plus, for each held upgrade of it, the number held times that upgrade's worth.
pub open spec fn price_upto(cat: Map<ItemId, Item>, counts: Map<ItemId, usize>, x: ItemId, fuel: nat) -> int
    decreases fuel, 0int,
{
    if fuel == 0 {
        0
    } else {
        cat[x].cost + sum_of_prices(cat, counts, dependents(cat, counts, x), (fuel - 1) as nat)
    }
}

/// The summed worth, times the number held, of a finite set of items.
pub open spec fn sum_of_prices(cat: Map<ItemId, Item>, counts: Map<ItemId, usize>, s: Set<ItemId>, fuel: nat) -> int
    decreases fuel, s.len(),
{
    if s.finite() && s.len() > 0 {
        let k = s.choose();
        counts[k] * price_upto(cat, counts, k, fuel) + sum_of_prices(cat, counts, s.remove(k), fuel)
    } else {
        0
    }
}

/// A fuel that bounds the chains above `x`, if there is one.
pub open spec fn chain_fuel(cat: Map<ItemId, Item>, counts: Map<ItemId, usize>, x: ItemId) -> nat {
    choose|n: nat| chain_bounded(cat, counts, x, n)
}

/// What `x` sells for together with everything held that is built on it.
pub open spec fn sell_price_of(cat: Map<ItemId, Item>, counts: Map<ItemId, usize>, x: ItemId) -> int {
    price_upto(cat, counts, x, chain_fuel(cat, counts, x))
}

/// Chains bounded by some fuel are bounded by any larger fuel.
pub(crate) proof fn lemma_chain_monotone(cat: Map<ItemId, Item>, counts: Map<ItemId, usize>, x: ItemId, n: nat, m: nat)
    requires
        chain_bounded(cat, counts, x, n),
        n <= m,
    ensures
        chain_bounded(cat, counts, x, m),
    decreases n,
{
    assert forall|k: ItemId| #[trigger] dependents(cat, counts, x).contains(k) implies chain_bounded(cat, counts, k, (m - 1) as nat) by {
        lemma_chain_monotone(cat, counts, k, (n - 1) as nat, (m - 1) as nat);
    }
}

/// Prices and their sums are never negative.
proof fn lemma_price_nonneg(cat: Map<ItemId, Item>, counts: Map<ItemId, usize>, x: ItemId, fuel: nat)
    ensures
        price_upto(cat, counts, x, fuel) >= 0,
    decreases fuel, 0int,
{
    if fuel > 0 {
        lemma_sum_nonneg(cat, counts, dependents(cat, counts, x), (fuel - 1) as nat);
    }
}

proof fn lemma_sum_nonneg(cat: Map<ItemId, Item>, counts: Map<ItemId, usize>, s: Set<ItemId>, fuel: nat)
    ensures
        sum_of_prices(cat, counts, s, fuel) >= 0,
    decreases fuel, s.len(),
{
    if s.finite() && s.len() > 0 {
        let k = s.choose();
        lemma_price_nonneg(cat, counts, k, fuel);
        lemma_sum_nonneg(cat, counts, s.remove(k), fuel);
        let c = counts[k] as int;
        let p = price_upto(cat, counts, k, fuel);
        assert(c * p >= 0) by (nonlinear_arith)
            requires c >= 0, p >= 0;
    }
}

/// A sum can take out any one of its items first.
proof fn lemma_sum_remove(cat: Map<ItemId, Item>, counts: Map<ItemId, usize>, s: Set<ItemId>, k: ItemId, fuel: nat)
    requires
        s.finite(),
        s.contains(k),
    ensures
        sum_of_prices(cat, counts, s, fuel)
            == counts[k] * price_upto(cat, counts, k, fuel) + sum_of_prices(cat, counts, s.remove(k), fuel),
    decreases s.len(),
{
    let c = s.choose();
    if c != k {
        lemma_sum_remove(cat, counts, s.remove(c), k, fuel);
        lemma_sum_remove(cat, counts, s.remove(k), c, fuel);
        assert(s.remove(c).remove(k) =~= s.remove(k).remove(c));
    }
}

/// The sum over a superset is the sum over the subset plus the sum over the rest.
proof fn lemma_sum_split(cat: Map<ItemId, Item>, counts: Map<ItemId, usize>, a: Set<ItemId>, b: Set<ItemId>, fuel: nat)
    requires
        b.finite(),
        a.subset_of(b),
    ensures
        sum_of_prices(cat, counts, b, fuel)
            == sum_of_prices(cat, counts, a, fuel) + sum_of_prices(cat, counts, b.difference(a), fuel),
    decreases a.len(),
{
    vstd::set_lib::lemma_set_subset_finite(b, a);
    if a.len() == 0 {
        assert(b.difference(a) =~= b);
    } else {
        let x = a.choose();
        lemma_sum_split(cat, counts, a.remove(x), b.remove(x), fuel);
        lemma_sum_remove(cat, counts, b, x, fuel);
        lemma_sum_remove(cat, counts, a, x, fuel);
        assert(b.remove(x).difference(a.remove(x)) =~= b.difference(a));
    }
}

impl Inventory {
    /// What selling one `id` returns, counting everything held that is built on it:
    /// the item's cost plus, for each held upgrade of it, the number held times that
    /// upgrade's sell price.
    pub fn sell_price(&self, character: &Character, id: ItemId) -> (r: usize)
        requires
            self.well_formed(),
            self.described_by(character.catalog()),
            character.catalog().dom().contains(id),
            exists|n: nat| chain_bounded(character.catalog(), self.counts(), id, n),
            sell_price_of(character.catalog(), self.counts(), id) <= usize::MAX,
        ensures
            r == sell_price_of(character.catalog(), self.counts(), id),
    {
        let ghost fuel = chain_fuel(character.catalog(), self.counts(), id);
        self.price_with_fuel(character, id, Ghost(fuel))
    }

    fn price_with_fuel(&self, character: &Character, id: ItemId, Ghost(fuel): Ghost<nat>) -> (r: usize)
        requires
            self.well_formed(),
            self.described_by(character.catalog()),
            character.catalog().dom().contains(id),
            chain_bounded(character.catalog(), self.counts(), id, fuel),
            price_upto(character.catalog(), self.counts(), id, fuel) <= usize::MAX,
        ensures
            r == price_upto(character.catalog(), self.counts(), id, fuel),
        decreases fuel,
    {
        let ghost cat = character.catalog();
        let ghost counts = self.counts();
        let ghost deps = dependents(cat, counts, id);
        let ghost f = (fuel - 1) as nat;
        let item = match item_catalog_get(&character.items, &id) {
            Some(it) => it,
            None => {
                assert(false);
                return 0;
            },
        };
        proof {
            vstd::set_lib::lemma_set_subset_finite(counts.dom(), deps);
            lemma_sum_nonneg(cat, counts, deps, f);
        }
        let keys = item_count_keys(&self.items);
        let ghost mut seen: Set<ItemId> = Set::empty();
        let mut acc: usize = 0;
        let mut i: usize = 0;
        while i < keys.len()
            invariant
                i <= keys@.len(),
                keys@.to_set() == counts.dom(),
                keys@.no_duplicates(),
                seen == keys@.subrange(0, i as int).to_set(),
                cat == character.catalog(),
                counts == self.counts(),
                deps == dependents(cat, counts, id),
                deps.finite(),
                fuel > 0,
                f == fuel - 1,
                self.well_formed(),
                self.described_by(cat),
                chain_bounded(cat, counts, id, fuel),
                item.cost + sum_of_prices(cat, counts, deps, f) <= usize::MAX,
                acc == sum_of_prices(cat, counts, deps.intersect(seen), f),
            decreases keys@.len() - i,
        {
            let k = keys[i];
            proof {
                assert(keys@.contains(k)) by { assert(keys@[i as int] == k); }
                assert(keys@.to_set().contains(k));
                assert(self.counts().dom().contains(k));
                assert(keys@.subrange(0, i + 1) =~= keys@.subrange(0, i as int).push(k));
                keys@.subrange(0, i as int).lemma_push_to_set_commute(k);
                assert(!seen.contains(k)) by {
                    if seen.contains(k) {
                        let j = choose|j: int| 0 <= j < i && keys@.subrange(0, i as int)[j] == k;
                        assert(keys@[j] == keys@[i as int]);
                    }
                }
            }
            let owned = match item_catalog_get(&character.items, &k) {
                Some(it) => it,
                None => {
                    assert(false);
                    return 0;
                },
            };
            let depends = match &owned.category {
                ItemCategory::Upgrade(components) => contains_item(components, id),
                _ => false,
            };
            proof {
                assert(depends == is_upgrade_of(cat[k], id));
            }
            if depends {
                let count = match item_count_get(&self.items, &k) {
                    Some(c) => c,
                    None => 0,
                };
                proof {
                    assert(deps.contains(k));
                    let before = deps.intersect(seen);
                    let after = deps.intersect(seen.insert(k));
                    assert(after =~= before.insert(k));
                    vstd::set_lib::lemma_set_subset_finite(deps, after);
                    lemma_sum_remove(cat, counts, after, k, f);
                    assert(after.remove(k) =~= before);
                    lemma_sum_split(cat, counts, after, deps, f);
                    lemma_sum_nonneg(cat, counts, deps.difference(after), f);
                    lemma_price_nonneg(cat, counts, k, f);
                    let c = counts[k] as int;
                    let p = price_upto(cat, counts, k, f);
                    assert(c >= 1);
                    assert(c * p >= p) by (nonlinear_arith)
                        requires c >= 1, p >= 0;
                }
                let price = self.price_with_fuel(character, k, Ghost(f));
                acc = acc + count * price;
            } else {
                proof {
                    assert(deps.intersect(seen.insert(k)) =~= deps.intersect(seen));
                }
            }
            proof {
                seen = seen.insert(k);
            }
            i = i + 1;
        }
        proof {
            assert(keys@.subrange(0, keys@.len() as int) =~= keys@);
            assert(deps.intersect(seen) =~= deps);
        }
        item.cost + acc
    }
}

/// Whether `id` occurs in `ids`, by a linear scan.
pub fn contains_item(ids: &Vec<ItemId>, id: ItemId) -> (r: bool)
    ensures
        r == ids@.contains(id),
{
    let mut i: usize = 0;
    while i < ids.len()
        invariant
            i <= ids.len(),
            forall|j: int| 0 <= j < i ==> ids@[j] != id,
        decreases ids.len() - i,
    {
        if ids[i] == id {
            return true;
        }
        i = i + 1;
    }
    false
}

/// Law: an item the shop lets a player buy can be paid for and added, when its stack
/// limit is below the largest count.
pub proof fn law_buyable_can_be_bought(inv: Inventory, id: ItemId, item: Item)
    requires
        item.cost <= inv.money && count_in(inv.counts(), id) <= item.max_stack
            && dependencies_owned(inv.counts(), item.category),
        item.max_stack < usize::MAX,
    ensures
        item.cost <= inv.money,
        count_in(inv.counts(), id) < usize::MAX,
{
}

} // verus!
