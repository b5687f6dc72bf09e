use wag_characters::catalogs::{cpo_items, dummy_items, mizku_items, ronin_items, samurai_items, universal_items};
use wag_characters::builders::ActionBuilder;
use bevy::platform::collections::HashMap;
use wag_characters::ids::{ActionId, GameButton, ItemId};
use wag_characters::items::{contains_item, Character, ConsumableType, Inventory, Item, ItemCategory};
use wag_characters::resources::Stats;

fn basic(cost: usize) -> Item {
    Item { cost, ..Item::default() }
}

fn upgrade(cost: usize, deps: Vec<ItemId>) -> Item {
    Item { cost, category: ItemCategory::Upgrade(deps), ..Item::default() }
}

fn one_round(cost: usize) -> Item {
    Item { cost, category: ItemCategory::Consumable(ConsumableType::OneRound), ..Item::default() }
}

fn character(entries: Vec<(ItemId, Item)>) -> Character {
    let mut items = HashMap::new();
    for (id, item) in entries {
        items.insert(id, item);
    }
    Character { moves: HashMap::new(), items }
}

#[test]
fn item_defaults() {
    let item = Item::default();
    assert_eq!(item.category, ItemCategory::Basic);
    assert_eq!(item.cost, 0);
    assert_eq!(item.max_stack, 1);
    assert!(!item.suggested);
    assert_eq!(item.explanation, "Description missing");
    assert_eq!(item.effect, Stats::identity());
}

#[test]
fn empty_inventory_counts_nothing() {
    let inv = Inventory::with_money(1000);
    assert_eq!(inv.money, 1000);
    assert_eq!(inv.count(ItemId::Gi), 0);
    assert!(!inv.contains(ItemId::Gi));
}

#[test]
fn buying_pays_and_adds_one() {
    let mut inv = Inventory::with_money(1000);
    inv.buy(ItemId::Gi, basic(400));
    assert_eq!(inv.money, 600);
    assert_eq!(inv.count(ItemId::Gi), 1);
    assert!(inv.contains(ItemId::Gi));
    inv.buy(ItemId::Gi, basic(400));
    assert_eq!(inv.money, 200);
    assert_eq!(inv.count(ItemId::Gi), 2);
}

#[test]
fn can_buy_needs_money_space_and_components() {
    let mut inv = Inventory::with_money(500);
    assert!(inv.can_buy(ItemId::Boots, &basic(400)));
    assert!(!inv.can_buy(ItemId::Boots, &basic(600)));
    let moon_boots = upgrade(400, vec![ItemId::Boots]);
    assert!(!inv.can_buy(ItemId::MoonBoots, &moon_boots));
    inv.buy(ItemId::Boots, basic(100));
    assert!(inv.can_buy(ItemId::MoonBoots, &moon_boots));
    // The stack limit lets a second copy in before it refuses.
    assert!(inv.has_space_for(ItemId::Boots, &basic(0)));
    inv.buy(ItemId::Boots, basic(0));
    assert!(!inv.has_space_for(ItemId::Boots, &basic(0)));
    assert!(!inv.can_buy(ItemId::Boots, &basic(0)));
}

#[test]
fn remove_drops_every_copy() {
    let mut inv = Inventory::with_money(0);
    inv.buy(ItemId::ThumbTacks, basic(0));
    inv.buy(ItemId::ThumbTacks, basic(0));
    inv.buy(ItemId::Gi, basic(0));
    inv.remove(ItemId::ThumbTacks);
    assert_eq!(inv.count(ItemId::ThumbTacks), 0);
    assert_eq!(inv.count(ItemId::Gi), 1);
    inv.remove(ItemId::Feather);
    assert_eq!(inv.count(ItemId::Gi), 1);
}

#[test]
fn one_round_consumables_are_dropped() {
    let ch = character(vec![
        (ItemId::PreWorkout, one_round(100)),
        (ItemId::Gi, basic(400)),
        (ItemId::BladeOil, one_round(100)),
    ]);
    let mut inv = Inventory::with_money(10);
    inv.buy(ItemId::PreWorkout, one_round(0));
    inv.buy(ItemId::Gi, basic(0));
    inv.buy(ItemId::BladeOil, one_round(0));
    inv.remove_one_round_consumables(&ch);
    assert_eq!(inv.count(ItemId::PreWorkout), 0);
    assert_eq!(inv.count(ItemId::BladeOil), 0);
    assert_eq!(inv.count(ItemId::Gi), 1);
    assert_eq!(inv.money, 10);
}

#[test]
fn sell_price_counts_everything_built_on_an_item() {
    let ch = character(vec![
        (ItemId::Dumbbell, basic(250)),
        (ItemId::DivingHelmet, upgrade(400, vec![ItemId::Dumbbell])),
        (ItemId::Feather, basic(250)),
        (ItemId::Wing, upgrade(400, vec![ItemId::DivingHelmet, ItemId::Feather])),
    ]);
    let mut inv = Inventory::with_money(0);
    inv.buy(ItemId::Dumbbell, basic(0));
    assert_eq!(inv.sell_price(&ch, ItemId::Dumbbell), 250);
    inv.buy(ItemId::DivingHelmet, basic(0));
    assert_eq!(inv.sell_price(&ch, ItemId::Dumbbell), 650);
    inv.buy(ItemId::Feather, basic(0));
    inv.buy(ItemId::Wing, basic(0));
    assert_eq!(inv.sell_price(&ch, ItemId::Dumbbell), 1050);
    assert_eq!(inv.sell_price(&ch, ItemId::Feather), 650);
    assert_eq!(inv.sell_price(&ch, ItemId::Wing), 400);
    // Two held copies of an upgrade count twice.
    inv.buy(ItemId::Wing, basic(0));
    assert_eq!(inv.sell_price(&ch, ItemId::Feather), 1050);
}

#[test]
fn contains_item_scans_the_list() {
    let ids = vec![ItemId::Boots, ItemId::Feather];
    assert!(contains_item(&ids, ItemId::Feather));
    assert!(!contains_item(&ids, ItemId::Gi));
    assert!(!contains_item(&Vec::new(), ItemId::Gi));
}

#[test]
fn universal_items_are_listed_in_shop_order() {
    let items = universal_items();
    assert_eq!(items.len(), 20);
    assert_eq!(items[0].0, ItemId::PreWorkout);
    assert_eq!(items[0].1.cost, 100);
    assert_eq!(items[0].1.effect.starting_meter, 50);
    assert_eq!(items[0].1.category, ItemCategory::Consumable(ConsumableType::OneRound));
    assert_eq!(items[11].0, ItemId::ThumbTacks);
    assert_eq!(items[11].1.max_stack, 10);
    assert_eq!(items[14].0, ItemId::TrackSpikes);
    assert_eq!(
        items[14].1.category,
        ItemCategory::Upgrade(vec![ItemId::Boots, ItemId::Stopwatch, ItemId::ThumbTacks])
    );
    assert_eq!(items[19].0, ItemId::GoalieGear);
    assert_eq!(items[19].1.effect.max_health, 10);
    assert!(!items[19].1.effect.chip_damage);
    assert_eq!(items[19].1.effect.defense_meter, 1);
}

#[test]
fn character_catalogs_hold_their_own_and_universal_items() {
    let samurai = samurai_items();
    assert_eq!(samurai.len(), 30);
    assert_eq!(samurai.get(&ItemId::KunaiBelt).unwrap().cost, 1000);
    assert_eq!(samurai.get(&ItemId::KunaiBelt).unwrap().effect.extra_kunais, 3);
    assert!(!samurai.get(&ItemId::SmokeBomb).unwrap().suggested);
    assert_eq!(samurai.get(&ItemId::Gi).unwrap().cost, 400);
    assert!(samurai.get(&ItemId::Roids).is_none());

    let ronin = ronin_items();
    assert_eq!(ronin.len(), 30);
    assert!(ronin.get(&ItemId::SmokeBomb).unwrap().suggested);
    assert!(!ronin.get(&ItemId::Fireaxe).unwrap().suggested);

    let mizku = mizku_items();
    assert_eq!(mizku.len(), 26);
    assert_eq!(mizku.get(&ItemId::SpareKunai).unwrap().cost, 75);
    assert_eq!(
        mizku.get(&ItemId::SpaceSuitBoots).unwrap().category,
        ItemCategory::Upgrade(vec![ItemId::Boots, ItemId::Dumbbell])
    );

    let dummy = dummy_items();
    assert_eq!(dummy.len(), 21);
    assert_eq!(dummy.get(&ItemId::Roids).unwrap().cost, 100);

    let cpo = cpo_items();
    assert_eq!(cpo.len(), 20);
    assert!(cpo.get(&ItemId::IceCube).is_none());
}

#[test]
fn every_upgrade_in_a_shop_can_be_priced() {
    let ch = Character { moves: HashMap::new(), items: samurai_items() };
    let mut inv = Inventory::with_money(0);
    for id in [ItemId::SpareKunai, ItemId::KunaiPouch, ItemId::KunaiBelt, ItemId::Boots, ItemId::MoonBoots] {
        inv.buy(id, basic(0));
    }
    assert_eq!(inv.sell_price(&ch, ItemId::SpareKunai), 250 + 400 + 1000);
    assert_eq!(inv.sell_price(&ch, ItemId::Boots), 400 + 400);
}

#[test]
fn selling_takes_everything_built_on_the_item() {
    let ch = character(vec![
        (ItemId::Dumbbell, basic(250)),
        (ItemId::DivingHelmet, upgrade(400, vec![ItemId::Dumbbell])),
        (ItemId::Feather, basic(250)),
        (ItemId::Wing, upgrade(400, vec![ItemId::DivingHelmet, ItemId::Feather])),
    ]);
    let mut inv = Inventory::with_money(0);
    for id in [ItemId::Dumbbell, ItemId::DivingHelmet, ItemId::Feather, ItemId::Wing] {
        inv.buy(id, basic(0));
    }
    inv.sell(&ch, ItemId::Dumbbell, 50);
    assert_eq!(inv.money, 125 + 200 + 200);
    assert_eq!(inv.count(ItemId::Dumbbell), 0);
    assert_eq!(inv.count(ItemId::DivingHelmet), 0);
    assert_eq!(inv.count(ItemId::Wing), 0);
    assert_eq!(inv.count(ItemId::Feather), 1);
}

#[test]
fn selling_one_of_a_stack_keeps_the_rest() {
    let ch = character(vec![(ItemId::ThumbTacks, Item { max_stack: 10, ..basic(125) })]);
    let mut inv = Inventory::with_money(10);
    inv.buy(ItemId::ThumbTacks, basic(0));
    inv.buy(ItemId::ThumbTacks, basic(0));
    inv.sell(&ch, ItemId::ThumbTacks, 70);
    assert_eq!(inv.money, 10 + 87);
    assert_eq!(inv.count(ItemId::ThumbTacks), 1);
    inv.sell(&ch, ItemId::ThumbTacks, 100);
    assert_eq!(inv.money, 10 + 87 + 125);
    assert!(!inv.contains(ItemId::ThumbTacks));
}

#[test]
fn character_inputs_come_from_moves_with_inputs() {
    let mut moves = HashMap::new();
    moves.insert(ActionId::Character(1), ActionBuilder::button(GameButton::Fast).end_at(10).build(50));
    moves.insert(ActionId::Character(2), ActionBuilder::normal().end_at(10).build(50));
    moves.insert(ActionId::GiParry, ActionBuilder::special().with_input("{6}(gw)").end_at(30).build(50));
    let ch = Character { moves, items: HashMap::new() };
    let inputs = ch.get_inputs();
    assert_eq!(inputs.len(), 2);
    assert_eq!(inputs.get(&ActionId::Character(1)).map(|s| s.as_str()), Some("f"));
    assert_eq!(inputs.get(&ActionId::GiParry).map(|s| s.as_str()), Some("{6}(gw)"));
    assert!(inputs.get(&ActionId::Character(2)).is_none());
    assert!(ch.get_move(ActionId::Character(2)).is_some());
    assert!(ch.get_move(ActionId::FastFall).is_none());
}
