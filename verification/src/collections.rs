//! The engine's hash collections, as the logic uses them.
//!
//! Each collection that the logic reads is declared here, with a name for what it
//! holds and one trusted wrapper per method the logic calls.
use vstd::prelude::*;
use bevy::platform::collections::{HashMap, HashSet};
use bevy::platform::hash::FixedHasher;
use crate::ids::{ActionId, ItemId, GameButton, StatusFlag, flag_eq};
use crate::script::{Action, Timing};
use crate::events::ActionEvent;
use crate::items::Item;

verus! {

#[verifier::external_type_specification]
#[verifier::external_body]
#[verifier::reject_recursive_types(K)]
#[verifier::reject_recursive_types(V)]
#[verifier::reject_recursive_types(S)]
pub struct ExHashMap<K, V, S>(HashMap<K, V, S>);

#[verifier::external_type_specification]
#[verifier::external_body]
#[verifier::reject_recursive_types(T)]
#[verifier::reject_recursive_types(S)]
pub struct ExHashSet<T, S>(HashSet<T, S>);

#[verifier::external_type_specification]
#[verifier::external_body]
pub struct ExFixedHasher(FixedHasher);

/// A count for each item.
pub type ItemCounts = HashMap<ItemId, usize>;

/// How many of each item an inventory holds.
pub uninterp spec fn item_counts(m: ItemCounts) -> Map<ItemId, usize>;

/// Creates an empty item count map (`HashMap::new`).
#[verifier::external_body]
pub(crate) fn new_item_counts() -> (counts: ItemCounts)
    ensures
        item_counts(counts).dom().is_empty(),
{
    HashMap::new()
}

/// Looks up the count of an item (`HashMap::get`, the count copied out).
#[verifier::external_body]
pub(crate) fn item_count_get(m: &ItemCounts, id: &ItemId) -> (found: Option<usize>)
    ensures
        found == (if item_counts(*m).dom().contains(*id) {
            Some(item_counts(*m)[*id])
        } else {
            None
        }),
{
    m.get(id).copied()
}

/// Sets the count of an item, replacing any earlier one (`HashMap::insert`).
#[verifier::external_body]
pub(crate) fn item_count_insert(m: &mut ItemCounts, id: ItemId, count: usize)
    ensures
        item_counts(*final(m)) == item_counts(*old(m)).insert(id, count),
{
    m.insert(id, count);
}

/// Removes an item's entry (`HashMap::remove`).
#[verifier::external_body]
pub(crate) fn item_count_remove(m: &mut ItemCounts, id: &ItemId)
    ensures
        item_counts(*final(m)) == item_counts(*old(m)).remove(*id),
{
    m.remove(id);
}

/// The items that have an entry, each once, in the map's walking order (`HashMap::keys`).
#[verifier::external_body]
pub(crate) fn item_count_keys(m: &ItemCounts) -> (keys: Vec<ItemId>)
    ensures
        keys@.no_duplicates(),
        keys@.to_set() == item_counts(*m).dom(),
{
    m.keys().copied().collect()
}

/// A catalog of items by identifier.
pub type ItemCatalog = HashMap<ItemId, Item>;

/// The items a catalog describes.
pub uninterp spec fn catalog_items(m: ItemCatalog) -> Map<ItemId, Item>;

/// Creates an empty catalog (`HashMap::new`).
#[verifier::external_body]
pub(crate) fn new_item_catalog() -> (catalog: ItemCatalog)
    ensures
        catalog_items(catalog).dom().is_empty(),
{
    HashMap::new()
}

/// Looks up an item's description (`HashMap::get`).
#[verifier::external_body]
pub(crate) fn item_catalog_get<'a>(m: &'a ItemCatalog, id: &ItemId) -> (found: Option<&'a Item>)
    ensures
        found is Some == catalog_items(*m).dom().contains(*id),
        found matches Some(item) ==> *item == catalog_items(*m)[*id],
{
    m.get(id)
}

/// Adds or replaces an item's description (`HashMap::insert`).
#[verifier::external_body]
pub(crate) fn item_catalog_insert(m: &mut ItemCatalog, id: ItemId, item: Item)
    ensures
        catalog_items(*final(m)) == catalog_items(*old(m)).insert(id, item),
{
    m.insert(id, item);
}

/// A set of status flags.
pub type FlagSet = HashSet<StatusFlag>;

/// The flags a set holds.
pub uninterp spec fn flag_set(s: FlagSet) -> Set<StatusFlag>;

/// Whether the set holds a flag equal to `f`, comparing flags as `==` does (`flag_eq`):
/// a cancel flag naming actions is found by the actions it names.
pub open spec fn flag_in(set: Set<StatusFlag>, f: StatusFlag) -> bool {
    exists|g: StatusFlag| set.contains(g) && #[trigger] flag_eq(g, f)
}

/// Whether a flag equal to `flag` is in the set (`HashSet::contains`, which compares
/// by `==`).
#[verifier::external_body]
pub(crate) fn flag_set_contains(s: &FlagSet, flag: &StatusFlag) -> (found: bool)
    ensures
        found == flag_in(flag_set(*s), *flag),
{
    s.contains(flag)
}

/// Copies of the flags of the set, one for each, in the set's walking order
/// (`HashSet::iter`, then `Clone`): each copy equals, by `==`, a flag of the set, each
/// flag of the set has an equal copy, and no two copies are equal.
#[verifier::external_body]
pub(crate) fn flag_set_items(s: &FlagSet) -> (flags: Vec<StatusFlag>)
    ensures
        forall|i: int| 0 <= i < flags@.len() ==> #[trigger] flag_in(flag_set(*s), flags@[i]),
        forall|g: StatusFlag| #[trigger] flag_set(*s).contains(g) ==>
            exists|i: int| 0 <= i < flags@.len() && flag_eq(flags@[i], g),
        forall|i: int, j: int| 0 <= i < j < flags@.len() ==> !flag_eq(#[trigger] flags@[i], #[trigger] flags@[j]),
{
    s.iter().cloned().collect()
}

/// A set of held buttons.
pub type ButtonSet = HashSet<GameButton>;

/// The buttons a set holds.
pub uninterp spec fn button_set(s: ButtonSet) -> Set<GameButton>;

/// Whether a button is in the set (`HashSet::contains`).
#[verifier::external_body]
pub(crate) fn button_set_contains(s: &ButtonSet, button: &GameButton) -> (found: bool)
    ensures
        found == button_set(*s).contains(*button),
{
    s.contains(button)
}

/// A character's moves by identifier.
pub type MoveTable = HashMap<ActionId, Action>;

/// The moves a table holds.
pub uninterp spec fn move_table(m: MoveTable) -> Map<ActionId, Action>;

/// Looks up a move (`HashMap::get`).
#[verifier::external_body]
pub(crate) fn move_table_get<'a>(m: &'a MoveTable, id: &ActionId) -> (found: Option<&'a Action>)
    ensures
        found is Some == move_table(*m).dom().contains(*id),
        found matches Some(action) ==> *action == move_table(*m)[*id],
{
    m.get(id)
}

/// The identifiers that have a move, each once, in the table's walking order (`HashMap::keys`).
#[verifier::external_body]
pub(crate) fn move_table_keys(m: &MoveTable) -> (keys: Vec<ActionId>)
    ensures
        keys@.no_duplicates(),
        keys@.to_set() == move_table(*m).dom(),
{
    m.keys().copied().collect()
}

/// The input notation of each move that has one.
pub type InputTable = HashMap<ActionId, String>;

/// The notations a table holds.
pub uninterp spec fn input_table(m: InputTable) -> Map<ActionId, Seq<char>>;

/// Creates an empty input table (`HashMap::new`).
#[verifier::external_body]
pub(crate) fn new_input_table() -> (table: InputTable)
    ensures
        input_table(table).dom().is_empty(),
{
    HashMap::new()
}

/// Adds or replaces a notation (`HashMap::insert`).
#[verifier::external_body]
pub(crate) fn input_table_insert(m: &mut InputTable, id: ActionId, input: String)
    ensures
        input_table(*final(m)) == input_table(*old(m)).insert(id, input@),
{
    m.insert(id, input);
}

/// The events of a script, gathered by when they fire.
pub type TimingTable = HashMap<Timing, Vec<ActionEvent>>;

/// The events a timing table holds, by timing.
pub uninterp spec fn timing_table(m: TimingTable) -> Map<Timing, Seq<ActionEvent>>;

/// Creates an empty timing table (`HashMap::new`).
#[verifier::external_body]
pub(crate) fn new_timing_table() -> (table: TimingTable)
    ensures
        timing_table(table).dom().is_empty(),
{
    HashMap::new()
}

/// Takes the events of a timing out of the table (`HashMap::remove`).
#[verifier::external_body]
pub(crate) fn timing_table_remove(m: &mut TimingTable, timing: &Timing) -> (taken: Option<Vec<ActionEvent>>)
    ensures
        timing_table(*final(m)) == timing_table(*old(m)).remove(*timing),
        taken is Some == timing_table(*old(m)).dom().contains(*timing),
        taken matches Some(v) ==> v@ == timing_table(*old(m))[*timing],
{
    m.remove(timing)
}

/// Puts the events of a timing in the table, replacing what it held (`HashMap::insert`).
#[verifier::external_body]
pub(crate) fn timing_table_insert(m: &mut TimingTable, timing: Timing, events: Vec<ActionEvent>)
    ensures
        timing_table(*final(m)) == timing_table(*old(m)).insert(timing, events@),
{
    m.insert(timing, events);
}

/// The entries of the table, each once, in its walking order (`HashMap::into_iter`).
#[verifier::external_body]
pub(crate) fn timing_table_entries(m: TimingTable) -> (entries: Vec<(Timing, Vec<ActionEvent>)>)
    ensures
        forall|i: int| 0 <= i < entries@.len() ==> #[trigger] timing_table(m).dom().contains(entries@[i].0)
            && entries@[i].1@ == timing_table(m)[entries@[i].0],
        forall|t: Timing| #[trigger] timing_table(m).dom().contains(t) ==>
            exists|i: int| 0 <= i < entries@.len() && entries@[i].0 == t,
        forall|i: int, j: int| 0 <= i < j < entries@.len() ==> entries@[i].0 != entries@[j].0,
{
    m.into_iter().collect()
}

} // verus!
