//! The shop's catalogs: the items every character can buy, and each character's own.
use vstd::prelude::*;
use crate::ids::ItemId;
use crate::items::{ConsumableType, Item, ItemCategory, chain_bounded, dependents, is_upgrade_of, lemma_chain_monotone};
use crate::resources::{Stats, no_stats};
use crate::collections::{ItemCatalog, catalog_items, new_item_catalog, item_catalog_insert};

verus! {

/// An item's category as plain values: its kind (a one round consumable, a consumable
/// kept until used, a basic item, an upgrade) and, for an upgrade, the items it needs.
pub open spec fn category_view(c: ItemCategory) -> (int, Seq<ItemId>) {
    match c {
        ItemCategory::Consumable(ConsumableType::OneRound) => (0, seq![]),
        ItemCategory::Consumable(ConsumableType::UntilUsed) => (1, seq![]),
        ItemCategory::Basic => (2, seq![]),
        ItemCategory::Upgrade(deps) => (3, deps@),
    }
}

/// What the shop shows and its logic reads of an item: cost, category, effect, stack
/// limit, whether it is suggested, and its description.
pub type ItemCard = (int, (int, Seq<ItemId>), Stats, int, bool, Seq<char>);

/// The card of an item.
pub open spec fn card_of(item: Item) -> ItemCard {
    (item.cost as int, category_view(item.category), item.effect, item.max_stack as int, item.suggested, item.explanation@)
}

/// The card of a basic item of the given cost and effect, stacking once.
pub open spec fn basic_card(cost: int, effect: Stats, text: Seq<char>) -> ItemCard {
    (cost, (2, seq![]), effect, 1, false, text)
}

/// The card of a one round consumable.
pub open spec fn one_round_card(cost: int, effect: Stats, text: Seq<char>) -> ItemCard {
    (cost, (0, seq![]), effect, 1, false, text)
}

/// The card of an upgrade of the given items.
pub open spec fn upgrade_card(cost: int, deps: Seq<ItemId>, effect: Stats, text: Seq<char>) -> ItemCard {
    (cost, (3, deps), effect, 1, false, text)
}

/// The items every character can buy.
pub open spec fn universal_card(id: ItemId) -> Option<ItemCard> {
    match id {
        ItemId::PreWorkout => Some(one_round_card(100, Stats { starting_meter: 50, ..no_stats() }, "Start with 50 meter\n\nGotta get that pump"@)),
        ItemId::Gi => Some(basic_card(400, no_stats(), "Forward+g+w to parry, cancels to anything on success.\n\nLesgo justin"@)),
        ItemId::Boots => Some(basic_card(400, no_stats(), "Bonus walk speed"@)),
        ItemId::HockeyPads => Some(basic_card(250, Stats { max_health: 30, ..no_stats() }, "Bonus max health\n\nI am wearing hockey pads"@)),
        ItemId::RedPaint => Some(basic_card(1000, no_stats(), "Increased animation speed\n\nBecause red makes you go fastah"@)),
        ItemId::Stopwatch => Some(basic_card(400, no_stats(), "Gain meter over time\n\nTick tock."@)),
        ItemId::Crowbar => Some(basic_card(250, Stats { opener_meter_gain: 10, opener_stun_frames: 5, ..no_stats() }, "Gain bonus stun frames, meter gain and damage on the opening hit of a combo\n\nBlock this whack ass mixup"@)),
        ItemId::OliveOil => Some(basic_card(400, no_stats(), "Slightly control knockback direction while getting comboed\n\nSlippery"@)),
        ItemId::Dumbbell => Some(basic_card(250, no_stats(), "Makes you fall faster when comboed."@)),
        ItemId::Feather => Some(basic_card(250, no_stats(), "Makes you jump slightly higher\n\nBoing"@)),
        ItemId::Cigarettes => Some(basic_card(400, Stats { backdash_invuln: 5, ..no_stats() }, "Makes you intangible for the first few frames of your backdash\n\nDissapear in a puff"@)),
        ItemId::ThumbTacks => Some((125, (2, seq![]), no_stats(), 10, false, "+1% damage to all hits\n\nPrickly!"@)),
        ItemId::ComicBook => Some(basic_card(1000, no_stats(), "Gives you one normal to normal cancel per sequence."@)),
        ItemId::RomaineLettuce => Some(basic_card(1000, no_stats(), "Press g+w mid-move to cancel ongoing action. Costs bar."@)),
        ItemId::TrackSpikes => Some(upgrade_card(1000, seq![ItemId::Boots, ItemId::Stopwatch, ItemId::ThumbTacks], no_stats(), "Allows you to cancel normals into a dash\n\nNow with Fast Action Disruption Compatible soles"@)),
        ItemId::MoonBoots => Some(upgrade_card(400, seq![ItemId::Boots], no_stats(), "Allows you to crouch before jumping to super jump\n\nBoing."@)),
        ItemId::FeatheredBoots => Some(upgrade_card(1000, seq![ItemId::Feather, ItemId::Boots], no_stats(), "Allows you to double jump"@)),
        ItemId::DivingHelmet => Some(upgrade_card(400, seq![ItemId::Dumbbell], no_stats(), "Allows you to tap down to fast fall\n\nHiyaa!"@)),
        ItemId::Wing => Some(upgrade_card(400, seq![ItemId::DivingHelmet, ItemId::Feather], no_stats(), "Allows you to dash mid air"@)),
        ItemId::GoalieGear => Some(upgrade_card(400, seq![ItemId::HockeyPads],
            Stats { max_health: 10, chip_damage: false, defense_meter: 1, ..no_stats() },
            "Increases health, removes chip damage on block and rewards blocking with meter\n\nJust try to break me"@)),
        _ => None,
    }
}

/// The universal items in the order the shop lists them.
pub open spec fn universal_ids() -> Seq<ItemId> {
    seq![
        ItemId::PreWorkout, ItemId::Gi, ItemId::Boots, ItemId::HockeyPads, ItemId::RedPaint,
        ItemId::Stopwatch, ItemId::Crowbar, ItemId::OliveOil, ItemId::Dumbbell, ItemId::Feather,
        ItemId::Cigarettes, ItemId::ThumbTacks, ItemId::ComicBook, ItemId::RomaineLettuce,
        ItemId::TrackSpikes, ItemId::MoonBoots, ItemId::FeatheredBoots, ItemId::DivingHelmet,
        ItemId::Wing, ItemId::GoalieGear,
    ]
}

/// Every entry is described by `cards`.
pub open spec fn all_described(s: Seq<(ItemId, Item)>, cards: spec_fn(ItemId) -> Option<ItemCard>) -> bool {
    forall|i: int| 0 <= i < s.len() ==> cards(#[trigger] s[i].0) == Some(card_of(s[i].1))
}

/// The ids of the entries, in order.
pub open spec fn entry_ids(s: Seq<(ItemId, Item)>) -> Seq<ItemId> {
    s.map_values(|e: (ItemId, Item)| e.0)
}

/// An item with the given shop description.
fn item(cost: usize, category: ItemCategory, effect: Stats, explanation: &str, max_stack: usize, suggested: bool) -> (r: Item)
    ensures
        r.cost == cost,
        r.category == category,
        r.effect == effect,
        r.explanation@ == explanation@,
        r.max_stack == max_stack,
        r.suggested == suggested,
{
    Item { category, cost, effect, explanation: explanation.to_owned(), max_stack, suggested }
}

/// Appends an entry that `cards` describes.
fn push_entry(v: &mut Vec<(ItemId, Item)>, id: ItemId, it: Item, Ghost(cards): Ghost<spec_fn(ItemId) -> Option<ItemCard>>)
    requires
        all_described(old(v)@, cards),
        cards(id) == Some(card_of(it)),
    ensures
        final(v)@ == old(v)@.push((id, it)),
        all_described(final(v)@, cards),
{
    v.push((id, it));
    proof {
        assert forall|i: int| 0 <= i < v@.len() implies cards(#[trigger] v@[i].0) == Some(card_of(v@[i].1)) by {
            if i < v@.len() - 1 {
                assert(v@[i] == old(v)@[i]);
            }
        }
    }
}

/// The items every character can buy, in the order the shop lists them.
pub fn universal_items() -> (r: Vec<(ItemId, Item)>)
    ensures
        entry_ids(r@) == universal_ids(),
        all_described(r@, |id: ItemId| universal_card(id)),
{
    let ghost cards = |id: ItemId| universal_card(id);
    let mut v: Vec<(ItemId, Item)> = Vec::new();
    let basic = ItemCategory::Basic;
    push_entry(&mut v, ItemId::PreWorkout, item(100, ItemCategory::Consumable(ConsumableType::OneRound),
        Stats { starting_meter: 50, ..Stats::identity() }, "Start with 50 meter\n\nGotta get that pump", 1, false), Ghost(cards));
    push_entry(&mut v, ItemId::Gi, item(400, ItemCategory::Basic, Stats::identity(),
        "Forward+g+w to parry, cancels to anything on success.\n\nLesgo justin", 1, false), Ghost(cards));
    push_entry(&mut v, ItemId::Boots, item(400, ItemCategory::Basic, Stats::identity(), "Bonus walk speed", 1, false), Ghost(cards));
    push_entry(&mut v, ItemId::HockeyPads, item(250, ItemCategory::Basic, Stats { max_health: 30, ..Stats::identity() },
        "Bonus max health\n\nI am wearing hockey pads", 1, false), Ghost(cards));
    push_entry(&mut v, ItemId::RedPaint, item(1000, ItemCategory::Basic, Stats::identity(),
        "Increased animation speed\n\nBecause red makes you go fastah", 1, false), Ghost(cards));
    push_entry(&mut v, ItemId::Stopwatch, item(400, ItemCategory::Basic, Stats::identity(),
        "Gain meter over time\n\nTick tock.", 1, false), Ghost(cards));
    push_entry(&mut v, ItemId::Crowbar, item(250, ItemCategory::Basic,
        Stats { opener_meter_gain: 10, opener_stun_frames: 5, ..Stats::identity() },
        "Gain bonus stun frames, meter gain and damage on the opening hit of a combo\n\nBlock this whack ass mixup", 1, false), Ghost(cards));
    push_entry(&mut v, ItemId::OliveOil, item(400, ItemCategory::Basic, Stats::identity(),
        "Slightly control knockback direction while getting comboed\n\nSlippery", 1, false), Ghost(cards));
    push_entry(&mut v, ItemId::Dumbbell, item(250, ItemCategory::Basic, Stats::identity(),
        "Makes you fall faster when comboed.", 1, false), Ghost(cards));
    push_entry(&mut v, ItemId::Feather, item(250, ItemCategory::Basic, Stats::identity(),
        "Makes you jump slightly higher\n\nBoing", 1, false), Ghost(cards));
    push_entry(&mut v, ItemId::Cigarettes, item(400, ItemCategory::Basic, Stats { backdash_invuln: 5, ..Stats::identity() },
        "Makes you intangible for the first few frames of your backdash\n\nDissapear in a puff", 1, false), Ghost(cards));
    push_entry(&mut v, ItemId::ThumbTacks, item(125, basic, Stats::identity(),
        "+1% damage to all hits\n\nPrickly!", 10, false), Ghost(cards));
    push_entry(&mut v, ItemId::ComicBook, item(1000, ItemCategory::Basic, Stats::identity(),
        "Gives you one normal to normal cancel per sequence.", 1, false), Ghost(cards));
    push_entry(&mut v, ItemId::RomaineLettuce, item(1000, ItemCategory::Basic, Stats::identity(),
        "Press g+w mid-move to cancel ongoing action. Costs bar.", 1, false), Ghost(cards));
    let spikes = vec![ItemId::Boots, ItemId::Stopwatch, ItemId::ThumbTacks];
    assert(spikes@ =~= seq![ItemId::Boots, ItemId::Stopwatch, ItemId::ThumbTacks]);
    push_entry(&mut v, ItemId::TrackSpikes, item(1000, ItemCategory::Upgrade(spikes), Stats::identity(),
        "Allows you to cancel normals into a dash\n\nNow with Fast Action Disruption Compatible soles", 1, false), Ghost(cards));
    let moon = vec![ItemId::Boots];
    assert(moon@ =~= seq![ItemId::Boots]);
    push_entry(&mut v, ItemId::MoonBoots, item(400, ItemCategory::Upgrade(moon), Stats::identity(),
        "Allows you to crouch before jumping to super jump\n\nBoing.", 1, false), Ghost(cards));
    let feathered = vec![ItemId::Feather, ItemId::Boots];
    assert(feathered@ =~= seq![ItemId::Feather, ItemId::Boots]);
    push_entry(&mut v, ItemId::FeatheredBoots, item(1000, ItemCategory::Upgrade(feathered), Stats::identity(),
        "Allows you to double jump", 1, false), Ghost(cards));
    let helmet = vec![ItemId::Dumbbell];
    assert(helmet@ =~= seq![ItemId::Dumbbell]);
    push_entry(&mut v, ItemId::DivingHelmet, item(400, ItemCategory::Upgrade(helmet), Stats::identity(),
        "Allows you to tap down to fast fall\n\nHiyaa!", 1, false), Ghost(cards));
    let wing = vec![ItemId::DivingHelmet, ItemId::Feather];
    assert(wing@ =~= seq![ItemId::DivingHelmet, ItemId::Feather]);
    push_entry(&mut v, ItemId::Wing, item(400, ItemCategory::Upgrade(wing), Stats::identity(),
        "Allows you to dash mid air", 1, false), Ghost(cards));
    let goalie = vec![ItemId::HockeyPads];
    assert(goalie@ =~= seq![ItemId::HockeyPads]);
    push_entry(&mut v, ItemId::GoalieGear, item(400, ItemCategory::Upgrade(goalie),
        Stats { max_health: 10, chip_damage: false, defense_meter: 1, ..Stats::identity() },
        "Increases health, removes chip damage on block and rewards blocking with meter\n\nJust try to break me", 1, false), Ghost(cards));
    assert(entry_ids(v@) =~= universal_ids());
    v
}

/// The catalog an ordered list of entries collects into: a later entry replaces an
/// earlier one of the same id.
pub open spec fn collected(s: Seq<(ItemId, Item)>) -> Map<ItemId, Item>
    decreases s.len(),
{
    if s.len() == 0 {
        Map::empty()
    } else {
        collected(s.drop_last()).insert(s.last().0, s.last().1)
    }
}

/// A catalog holds exactly the items `cards` describes, each as described.
pub open spec fn described(cat: Map<ItemId, Item>, cards: spec_fn(ItemId) -> Option<ItemCard>) -> bool {
    &&& forall|id: ItemId| #[trigger] cat.dom().contains(id) <==> cards(id) is Some
    &&& forall|id: ItemId| #[trigger] cat.dom().contains(id) ==> cards(id) == Some(card_of(cat[id]))
}

/// The collected catalog holds the listed ids, each as the cards describe it.
proof fn lemma_collected(s: Seq<(ItemId, Item)>, cards: spec_fn(ItemId) -> Option<ItemCard>)
    requires
        all_described(s, cards),
    ensures
        forall|id: ItemId| #[trigger] collected(s).dom().contains(id) <==> entry_ids(s).contains(id),
        forall|id: ItemId| #[trigger] collected(s).dom().contains(id) ==> cards(id) == Some(card_of(collected(s)[id])),
    decreases s.len(),
{
    if s.len() > 0 {
        let t = s.drop_last();
        assert(all_described(t, cards)) by {
            assert forall|i: int| 0 <= i < t.len() implies cards(#[trigger] t[i].0) == Some(card_of(t[i].1)) by {
                assert(t[i] == s[i]);
            }
        }
        lemma_collected(t, cards);
        let e = s.last();
        assert(entry_ids(s) =~= entry_ids(t).push(e.0));
        assert(cards(s[s.len() - 1].0) == Some(card_of(s[s.len() - 1].1)));
        assert(collected(s) == collected(t).insert(e.0, e.1));
        assert forall|id: ItemId| #[trigger] collected(s).dom().contains(id) <==> entry_ids(s).contains(id) by {
            if id == e.0 {
                assert(entry_ids(s)[s.len() - 1] == id);
            } else {
                if entry_ids(s).contains(id) {
                    let j = choose|j: int| 0 <= j < entry_ids(s).len() && entry_ids(s)[j] == id;
                    assert(entry_ids(t)[j] == id);
                }
                if entry_ids(t).contains(id) {
                    let j = choose|j: int| 0 <= j < entry_ids(t).len() && entry_ids(t)[j] == id;
                    assert(entry_ids(s)[j] == id);
                }
            }
        }
        assert forall|id: ItemId| #[trigger] collected(s).dom().contains(id) implies cards(id) == Some(card_of(collected(s)[id])) by {
            if id != e.0 {
                assert(collected(t).dom().contains(id));
            }
        }
    } else {
        assert(collected(s) == Map::<ItemId, Item>::empty());
        assert(entry_ids(s).len() == 0);
    }
}

/// Collects entries into a catalog, a later entry replacing an earlier one of the same id.
fn collect_catalog(entries: Vec<(ItemId, Item)>) -> (r: ItemCatalog)
    ensures
        catalog_items(r) == collected(entries@),
{
    let ghost orig = entries@;
    let mut rest = entries;
    let mut cat = new_item_catalog();
    proof {
        assert(catalog_items(cat) =~= collected(orig.subrange(0, 0)));
    }
    while rest.len() > 0
        invariant
            orig.len() >= rest@.len(),
            rest@ == orig.subrange(orig.len() - rest@.len(), orig.len() as int),
            catalog_items(cat) == collected(orig.subrange(0, orig.len() - rest@.len())),
        decreases rest@.len(),
    {
        let ghost k = orig.len() - rest@.len();
        let ghost pre = rest@;
        let (id, it) = rest.remove(0);
        proof {
            assert(pre[0] == orig[k]);
            assert(orig.subrange(0, k + 1).drop_last() =~= orig.subrange(0, k));
        }
        item_catalog_insert(&mut cat, id, it);
        assert(rest@ =~= orig.subrange(k + 1, orig.len() as int));
    }
    proof {
        assert(orig.subrange(0, orig.len() as int) =~= orig);
    }
    cat
}

/// The catalog of a character: its own items, then the universal ones.
fn character_catalog(own: Vec<(ItemId, Item)>, Ghost(cards): Ghost<spec_fn(ItemId) -> Option<ItemCard>>) -> (r: ItemCatalog)
    requires
        all_described(own@, cards),
        forall|id: ItemId| #[trigger] universal_card(id) is Some ==> cards(id) == universal_card(id),
        forall|id: ItemId| #[trigger] cards(id) is Some ==> (entry_ids(own@).contains(id) || universal_card(id) is Some),
    ensures
        described(catalog_items(r), cards),
{
    let mut entries = own;
    let ghost first = entries@;
    let mut shared = universal_items();
    let ghost second = shared@;
    entries.append(&mut shared);
    let ghost all = entries@;
    proof {
        assert(all =~= first + second);
        assert forall|i: int| 0 <= i < all.len() implies cards(#[trigger] all[i].0) == Some(card_of(all[i].1)) by {
            if i < first.len() {
                assert(all[i] == first[i]);
            } else {
                assert(all[i] == second[i - first.len()]);
                assert(universal_card(second[i - first.len()].0) == Some(card_of(second[i - first.len()].1)));
            }
        }
        assert(entry_ids(all) =~= entry_ids(first) + universal_ids());
        lemma_collected(all, cards);
    }
    let r = collect_catalog(entries);
    proof {
        assert forall|id: ItemId| #[trigger] catalog_items(r).dom().contains(id) <==> cards(id) is Some by {
            if entry_ids(first).contains(id) {
                let j = choose|j: int| 0 <= j < entry_ids(first).len() && entry_ids(first)[j] == id;
                assert(entry_ids(all)[j] == id);
            }
            if cards(id) is Some && !entry_ids(first).contains(id) {
                lemma_universal_listed(id);
                let j = choose|j: int| 0 <= j < universal_ids().len() && universal_ids()[j] == id;
                assert(entry_ids(all)[first.len() + j] == id);
            }
            if entry_ids(all).contains(id) {
                let j = choose|j: int| 0 <= j < entry_ids(all).len() && entry_ids(all)[j] == id;
                assert(cards(all[j].0) == Some(card_of(all[j].1)));
            }
        }
    }
    r
}

/// How many levels of upgrades an item sits on: an upgrade sits above all its components.
pub open spec fn upgrade_rank(id: ItemId) -> nat {
    match id {
        ItemId::Wing | ItemId::KunaiBelt => 2,
        ItemId::TrackSpikes | ItemId::MoonBoots | ItemId::FeatheredBoots | ItemId::DivingHelmet
        | ItemId::GoalieGear | ItemId::KunaiPouch | ItemId::SpaceSuitBoots => 1,
        _ => 0,
    }
}

/// Every upgrade the cards describe sits above each of its components.
pub open spec fn cards_ranked(cards: spec_fn(ItemId) -> Option<ItemCard>) -> bool {
    forall|k: ItemId, y: ItemId| #[trigger] cards(k) is Some && cards(k).unwrap().1.0 == 3
        && #[trigger] cards(k).unwrap().1.1.contains(y) ==> upgrade_rank(k) > upgrade_rank(y)
}

/// When every held upgrade sits above its components, the chains above `x` are no longer
/// than the levels above it.
proof fn lemma_rank_bounds_chains(cat: Map<ItemId, Item>, counts: Map<ItemId, usize>, x: ItemId)
    requires
        forall|k: ItemId, y: ItemId| #[trigger] counts.dom().contains(k) && #[trigger] is_upgrade_of(cat[k], y)
            ==> upgrade_rank(k) > upgrade_rank(y),
    ensures
        chain_bounded(cat, counts, x, (3 - upgrade_rank(x)) as nat),
    decreases 2 - upgrade_rank(x),
{
    let fuel = (3 - upgrade_rank(x)) as nat;
    assert forall|k: ItemId| #[trigger] dependents(cat, counts, x).contains(k) implies chain_bounded(cat, counts, k, (fuel - 1) as nat) by {
        assert(counts.dom().contains(k) && is_upgrade_of(cat[k], x));
        lemma_rank_bounds_chains(cat, counts, k);
        lemma_chain_monotone(cat, counts, k, (3 - upgrade_rank(k)) as nat, (fuel - 1) as nat);
    }
}

/// Law: in a catalog described by ranked cards, for any inventory holding only catalog
/// items, the chains of held upgrades above any item end, so its sell price is defined.
pub proof fn law_ranked_catalog_sellable(
    cat: Map<ItemId, Item>,
    cards: spec_fn(ItemId) -> Option<ItemCard>,
    counts: Map<ItemId, usize>,
    x: ItemId,
)
    requires
        described(cat, cards),
        cards_ranked(cards),
        counts.dom().subset_of(cat.dom()),
    ensures
        exists|n: nat| chain_bounded(cat, counts, x, n),
{
    assert forall|k: ItemId, y: ItemId| #[trigger] counts.dom().contains(k) && #[trigger] is_upgrade_of(cat[k], y)
        implies upgrade_rank(k) > upgrade_rank(y) by {
        assert(cat.dom().contains(k));
        let c = card_of(cat[k]);
        assert(cards(k) == Some(c));
        match cat[k].category {
            ItemCategory::Upgrade(deps) => {
                assert(c.1.0 == 3 && c.1.1 == deps@);
                assert(cards(k).unwrap().1.1.contains(y));
            },
            _ => {},
        }
    }
    lemma_rank_bounds_chains(cat, counts, x);
}

/// Every item with a universal card is listed among the universal items.
proof fn lemma_universal_listed(id: ItemId)
    requires
        universal_card(id) is Some,
    ensures
        universal_ids().contains(id),
{
    let u = universal_ids();
    match id {
        ItemId::PreWorkout => assert(u[0] == id),
        ItemId::Gi => assert(u[1] == id),
        ItemId::Boots => assert(u[2] == id),
        ItemId::HockeyPads => assert(u[3] == id),
        ItemId::RedPaint => assert(u[4] == id),
        ItemId::Stopwatch => assert(u[5] == id),
        ItemId::Crowbar => assert(u[6] == id),
        ItemId::OliveOil => assert(u[7] == id),
        ItemId::Dumbbell => assert(u[8] == id),
        ItemId::Feather => assert(u[9] == id),
        ItemId::Cigarettes => assert(u[10] == id),
        ItemId::ThumbTacks => assert(u[11] == id),
        ItemId::ComicBook => assert(u[12] == id),
        ItemId::RomaineLettuce => assert(u[13] == id),
        ItemId::TrackSpikes => assert(u[14] == id),
        ItemId::MoonBoots => assert(u[15] == id),
        ItemId::FeatheredBoots => assert(u[16] == id),
        ItemId::DivingHelmet => assert(u[17] == id),
        ItemId::Wing => assert(u[18] == id),
        ItemId::GoalieGear => assert(u[19] == id),
        _ => {},
    }
}

/// The card marked as suggested.
pub open spec fn suggested(c: ItemCard) -> ItemCard {
    (c.0, c.1, c.2, c.3, true, c.5)
}

/// The kunai and sword items of the samurai and the ronin; the ronin's shop suggests
/// the kunai upgrades and the smoke bomb.
pub open spec fn kunai_sword_card(id: ItemId, suggest: bool) -> Option<ItemCard> {
    let hint = |c: ItemCard| if suggest { suggested(c) } else { c };
    match id {
        ItemId::IceCube => Some(basic_card(400, no_stats(), "First hit of 2h against airborne opponent freezes their momentum.\n\nLand this for a good day"@)),
        ItemId::SpareKunai => Some(hint(basic_card(250, Stats { extra_kunais: 1, ..no_stats() }, "Three is better than two"@))),
        ItemId::KunaiPouch => Some(hint(upgrade_card(400, seq![ItemId::SpareKunai], Stats { extra_kunais: 2, ..no_stats() }, "5 uses for Kunai.\n\nThe more the merrier"@))),
        ItemId::KunaiBelt => Some(hint(upgrade_card(1000, seq![ItemId::KunaiPouch], Stats { extra_kunais: 3, ..no_stats() }, "8 uses for Kunai.\n\n8 is perfection."@))),
        ItemId::MiniTasers => Some(basic_card(400, no_stats(), "Adds a shock effect to kunais (more stun)"@)),
        ItemId::Protractor => Some(basic_card(250, no_stats(), "Stick position influences Kunai velocity\n\n. It's about angles."@)),
        ItemId::BladeOil => Some(one_round_card(100, Stats { retain_sharpness: true, ..no_stats() }, "Retain sharpness from the previous round."@)),
        ItemId::SmithyCoupon => Some(one_round_card(100, Stats { auto_sharpen: 2, ..no_stats() }, "Pre-sharpen the sword by two levels"@)),
        ItemId::Fireaxe => Some(basic_card(400, no_stats(), "Release stance while holding forward to do an overhead"@)),
        ItemId::SmokeBomb => Some(hint(basic_card(1000, no_stats(), "Dash in sword stance"@))),
        _ => None,
    }
}

/// The samurai's shop: its kunai and sword items, then the universal ones.
pub open spec fn samurai_card(id: ItemId) -> Option<ItemCard> {
    if kunai_sword_card(id, false) is Some { kunai_sword_card(id, false) } else { universal_card(id) }
}

/// The ronin's shop: its kunai and sword items, some suggested, then the universal ones.
pub open spec fn ronin_card(id: ItemId) -> Option<ItemCard> {
    if kunai_sword_card(id, true) is Some { kunai_sword_card(id, true) } else { universal_card(id) }
}

/// The kunai and sword items of mizku.
pub open spec fn mizku_own_card(id: ItemId) -> Option<ItemCard> {
    match id {
        ItemId::SpareKunai => Some(basic_card(75, Stats { extra_kunais: 1, ..no_stats() }, "Two is better than one"@)),
        ItemId::KunaiPouch => Some(upgrade_card(200, seq![ItemId::SpareKunai], Stats { extra_kunais: 3, ..no_stats() }, "5 uses for Kunai.\n\nThe more the merrier"@)),
        ItemId::KunaiBelt => Some(upgrade_card(500, seq![ItemId::KunaiPouch], Stats { extra_kunais: 3, ..no_stats() }, "8 uses for Kunai.\n\n8 is perfection."@)),
        ItemId::SpaceSuitBoots => Some(upgrade_card(800, seq![ItemId::Boots, ItemId::Dumbbell], no_stats(), "Makes jumping stomp launch on hit\n\nAnd we have liftoff"@)),
        ItemId::BladeOil => Some(one_round_card(100, Stats { retain_sharpness: true, ..no_stats() }, "Retain sharpness from the previous round."@)),
        ItemId::SmithyCoupon => Some(one_round_card(100, Stats { auto_sharpen: 2, ..no_stats() }, "Pre-sharpen the sword by two levels"@)),
        _ => None,
    }
}

/// Mizku's shop: its own items, then the universal ones.
pub open spec fn mizku_card(id: ItemId) -> Option<ItemCard> {
    if mizku_own_card(id) is Some { mizku_own_card(id) } else { universal_card(id) }
}

/// The training dummy's shop: a speed consumable, then the universal items.
pub open spec fn dummy_card(id: ItemId) -> Option<ItemCard> {
    if id == ItemId::Roids { Some(one_round_card(100, no_stats(), "Get yoked"@)) } else { universal_card(id) }
}

/// The kunai and sword items, listed in shop order.
fn kunai_sword_items(suggest: bool) -> (r: Vec<(ItemId, Item)>)
    ensures
        all_described(r@, |id: ItemId| kunai_sword_card(id, suggest)),
        forall|id: ItemId| #[trigger] kunai_sword_card(id, suggest) is Some ==> entry_ids(r@).contains(id),
{
    let ghost cards = |id: ItemId| kunai_sword_card(id, suggest);
    let mut v: Vec<(ItemId, Item)> = Vec::new();
    push_entry(&mut v, ItemId::IceCube, item(400, ItemCategory::Basic, Stats::identity(),
        "First hit of 2h against airborne opponent freezes their momentum.\n\nLand this for a good day", 1, false), Ghost(cards));
    push_entry(&mut v, ItemId::SpareKunai, item(250, ItemCategory::Basic, Stats { extra_kunais: 1, ..Stats::identity() },
        "Three is better than two", 1, suggest), Ghost(cards));
    let pouch = vec![ItemId::SpareKunai];
    assert(pouch@ =~= seq![ItemId::SpareKunai]);
    push_entry(&mut v, ItemId::KunaiPouch, item(400, ItemCategory::Upgrade(pouch), Stats { extra_kunais: 2, ..Stats::identity() },
        "5 uses for Kunai.\n\nThe more the merrier", 1, suggest), Ghost(cards));
    let belt = vec![ItemId::KunaiPouch];
    assert(belt@ =~= seq![ItemId::KunaiPouch]);
    push_entry(&mut v, ItemId::KunaiBelt, item(1000, ItemCategory::Upgrade(belt), Stats { extra_kunais: 3, ..Stats::identity() },
        "8 uses for Kunai.\n\n8 is perfection.", 1, suggest), Ghost(cards));
    push_entry(&mut v, ItemId::MiniTasers, item(400, ItemCategory::Basic, Stats::identity(),
        "Adds a shock effect to kunais (more stun)", 1, false), Ghost(cards));
    push_entry(&mut v, ItemId::Protractor, item(250, ItemCategory::Basic, Stats::identity(),
        "Stick position influences Kunai velocity\n\n. It's about angles.", 1, false), Ghost(cards));
    push_entry(&mut v, ItemId::BladeOil, item(100, ItemCategory::Consumable(ConsumableType::OneRound),
        Stats { retain_sharpness: true, ..Stats::identity() }, "Retain sharpness from the previous round.", 1, false), Ghost(cards));
    push_entry(&mut v, ItemId::SmithyCoupon, item(100, ItemCategory::Consumable(ConsumableType::OneRound),
        Stats { auto_sharpen: 2, ..Stats::identity() }, "Pre-sharpen the sword by two levels", 1, false), Ghost(cards));
    push_entry(&mut v, ItemId::Fireaxe, item(400, ItemCategory::Basic, Stats::identity(),
        "Release stance while holding forward to do an overhead", 1, false), Ghost(cards));
    push_entry(&mut v, ItemId::SmokeBomb, item(1000, ItemCategory::Basic, Stats::identity(),
        "Dash in sword stance", 1, suggest), Ghost(cards));
    proof {
        let ids = entry_ids(v@);
        assert forall|id: ItemId| #[trigger] kunai_sword_card(id, suggest) is Some implies ids.contains(id) by {
            match id {
                ItemId::IceCube => assert(ids[0] == id),
                ItemId::SpareKunai => assert(ids[1] == id),
                ItemId::KunaiPouch => assert(ids[2] == id),
                ItemId::KunaiBelt => assert(ids[3] == id),
                ItemId::MiniTasers => assert(ids[4] == id),
                ItemId::Protractor => assert(ids[5] == id),
                ItemId::BladeOil => assert(ids[6] == id),
                ItemId::SmithyCoupon => assert(ids[7] == id),
                ItemId::Fireaxe => assert(ids[8] == id),
                ItemId::SmokeBomb => assert(ids[9] == id),
                _ => {},
            }
        }
    }
    v
}

/// Moves entries described by one set of cards under another that agrees with it.
proof fn lemma_described_by_wider(
    s: Seq<(ItemId, Item)>,
    narrow: spec_fn(ItemId) -> Option<ItemCard>,
    wide: spec_fn(ItemId) -> Option<ItemCard>,
)
    requires
        all_described(s, narrow),
        forall|id: ItemId| #[trigger] narrow(id) is Some ==> wide(id) == narrow(id),
    ensures
        all_described(s, wide),
{
    assert forall|i: int| 0 <= i < s.len() implies wide(#[trigger] s[i].0) == Some(card_of(s[i].1)) by {
        assert(narrow(s[i].0) == Some(card_of(s[i].1)));
    }
}

/// The samurai's catalog: its kunai and sword items and the universal ones.
pub fn samurai_items() -> (r: ItemCatalog)
    ensures
        described(catalog_items(r), |id: ItemId| samurai_card(id)),
{
    let own = kunai_sword_items(false);
    proof {
        lemma_described_by_wider(own@, |id: ItemId| kunai_sword_card(id, false), |id: ItemId| samurai_card(id));
        assert forall|id: ItemId| #[trigger] samurai_card(id) is Some implies
            entry_ids(own@).contains(id) || universal_card(id) is Some by {
            if kunai_sword_card(id, false) is Some {
                assert(entry_ids(own@).contains(id));
            }
        }
    }
    character_catalog(own, Ghost(|id: ItemId| samurai_card(id)))
}

/// The ronin's catalog: its kunai and sword items, some suggested, and the universal ones.
pub fn ronin_items() -> (r: ItemCatalog)
    ensures
        described(catalog_items(r), |id: ItemId| ronin_card(id)),
{
    let own = kunai_sword_items(true);
    proof {
        lemma_described_by_wider(own@, |id: ItemId| kunai_sword_card(id, true), |id: ItemId| ronin_card(id));
        assert forall|id: ItemId| #[trigger] ronin_card(id) is Some implies
            entry_ids(own@).contains(id) || universal_card(id) is Some by {
            if kunai_sword_card(id, true) is Some {
                assert(entry_ids(own@).contains(id));
            }
        }
    }
    character_catalog(own, Ghost(|id: ItemId| ronin_card(id)))
}

/// Mizku's catalog: its kunai, sword and boot items and the universal ones.
pub fn mizku_items() -> (r: ItemCatalog)
    ensures
        described(catalog_items(r), |id: ItemId| mizku_card(id)),
{
    let ghost cards = |id: ItemId| mizku_card(id);
    let mut v: Vec<(ItemId, Item)> = Vec::new();
    push_entry(&mut v, ItemId::SpareKunai, item(75, ItemCategory::Basic, Stats { extra_kunais: 1, ..Stats::identity() },
        "Two is better than one", 1, false), Ghost(cards));
    let pouch = vec![ItemId::SpareKunai];
    assert(pouch@ =~= seq![ItemId::SpareKunai]);
    push_entry(&mut v, ItemId::KunaiPouch, item(200, ItemCategory::Upgrade(pouch), Stats { extra_kunais: 3, ..Stats::identity() },
        "5 uses for Kunai.\n\nThe more the merrier", 1, false), Ghost(cards));
    let belt = vec![ItemId::KunaiPouch];
    assert(belt@ =~= seq![ItemId::KunaiPouch]);
    push_entry(&mut v, ItemId::KunaiBelt, item(500, ItemCategory::Upgrade(belt), Stats { extra_kunais: 3, ..Stats::identity() },
        "8 uses for Kunai.\n\n8 is perfection.", 1, false), Ghost(cards));
    let boots = vec![ItemId::Boots, ItemId::Dumbbell];
    assert(boots@ =~= seq![ItemId::Boots, ItemId::Dumbbell]);
    push_entry(&mut v, ItemId::SpaceSuitBoots, item(800, ItemCategory::Upgrade(boots), Stats::identity(),
        "Makes jumping stomp launch on hit\n\nAnd we have liftoff", 1, false), Ghost(cards));
    push_entry(&mut v, ItemId::BladeOil, item(100, ItemCategory::Consumable(ConsumableType::OneRound),
        Stats { retain_sharpness: true, ..Stats::identity() }, "Retain sharpness from the previous round.", 1, false), Ghost(cards));
    push_entry(&mut v, ItemId::SmithyCoupon, item(100, ItemCategory::Consumable(ConsumableType::OneRound),
        Stats { auto_sharpen: 2, ..Stats::identity() }, "Pre-sharpen the sword by two levels", 1, false), Ghost(cards));
    proof {
        let ids = entry_ids(v@);
        assert forall|id: ItemId| #[trigger] mizku_card(id) is Some implies ids.contains(id) || universal_card(id) is Some by {
            match id {
                ItemId::SpareKunai => assert(ids[0] == id),
                ItemId::KunaiPouch => assert(ids[1] == id),
                ItemId::KunaiBelt => assert(ids[2] == id),
                ItemId::SpaceSuitBoots => assert(ids[3] == id),
                ItemId::BladeOil => assert(ids[4] == id),
                ItemId::SmithyCoupon => assert(ids[5] == id),
                _ => {},
            }
        }
    }
    character_catalog(v, Ghost(cards))
}

/// The training dummy's catalog: a speed consumable and the universal items.
pub fn dummy_items() -> (r: ItemCatalog)
    ensures
        described(catalog_items(r), |id: ItemId| dummy_card(id)),
{
    let ghost cards = |id: ItemId| dummy_card(id);
    let mut v: Vec<(ItemId, Item)> = Vec::new();
    push_entry(&mut v, ItemId::Roids, item(100, ItemCategory::Consumable(ConsumableType::OneRound), Stats::identity(),
        "Get yoked", 1, false), Ghost(cards));
    proof {
        assert forall|id: ItemId| #[trigger] dummy_card(id) is Some implies entry_ids(v@).contains(id) || universal_card(id) is Some by {
            if id == ItemId::Roids {
                assert(entry_ids(v@)[0] == id);
            }
        }
    }
    character_catalog(v, Ghost(cards))
}

/// Cpo's catalog: the universal items only.
pub fn cpo_items() -> (r: ItemCatalog)
    ensures
        described(catalog_items(r), |id: ItemId| universal_card(id)),
{
    let v: Vec<(ItemId, Item)> = Vec::new();
    proof {
        assert(entry_ids(v@).len() == 0);
    }
    character_catalog(v, Ghost(|id: ItemId| universal_card(id)))
}

/// Law: in every character's shop each upgrade sits above each of its components, so
/// upgrade chains end (see `law_ranked_catalog_sellable`).
pub proof fn law_shop_upgrades_ranked()
    ensures
        cards_ranked(|id: ItemId| universal_card(id)),
        cards_ranked(|id: ItemId| samurai_card(id)),
        cards_ranked(|id: ItemId| ronin_card(id)),
        cards_ranked(|id: ItemId| mizku_card(id)),
        cards_ranked(|id: ItemId| dummy_card(id)),
{
}

} // verus!
