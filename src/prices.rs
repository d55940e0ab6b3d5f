//! Price lists and item tallies, each held in a hash map.

use crate::item::{ItemId, ItemKey};
use vstd::prelude::*;

verus! {

/// Unit prices in coins, by item kind.
#[verifier::external_body]
pub struct PriceList {
    prices: hashbrown::HashMap<ItemId, u32>,
}

/// The prices that a list holds.
pub uninterp spec fn price_map(list: PriceList) -> Map<ItemKey, u32>;

/// Relies on hashbrown's `HashMap::new`: the new map is empty.
#[verifier::external_body]
fn empty_price_list() -> (r: PriceList)
    ensures
        price_map(r).is_empty(),
{
    PriceList { prices: hashbrown::HashMap::new() }
}

/// Relies on hashbrown's `HashMap::insert`: the key then maps to the price,
/// whatever it mapped to before. Keys are told apart by `ItemId`'s `==`,
/// which compares views, and its derived `Hash` agrees with it.
#[verifier::external_body]
fn insert_price(list: &mut PriceList, item: ItemId, price: u32)
    ensures
        price_map(*final(list)) == price_map(*old(list)).insert(item@, price),
{
    list.prices.insert(item, price);
}

/// Relies on hashbrown's `HashMap::get`: the price stored under the key.
#[verifier::external_body]
fn lookup_price(list: &PriceList, item: &ItemId) -> (r: Option<u32>)
    ensures
        r == (if price_map(*list).contains_key(item@) {
            Some(price_map(*list)[item@])
        } else {
            None::<u32>
        }),
{
    list.prices.get(item).copied()
}

/// Relies on hashbrown's `HashMap::iter`: every entry once, in an order that
/// the map does not promise.
#[verifier::external_body]
fn price_entries(list: &PriceList) -> (r: Vec<(ItemId, u32)>)
    ensures
        r@.len() == price_map(*list).len(),
        forall|i: int|
            0 <= i < r@.len() ==> price_map(*list).contains_key(#[trigger] r@[i].0@)
                && price_map(*list)[r@[i].0@] == r@[i].1,
        forall|k: ItemKey|
            price_map(*list).contains_key(k) ==> exists|i: int|
                0 <= i < r@.len() && #[trigger] r@[i].0@ == k,
        forall|i: int, j: int|
            0 <= i < j < r@.len() ==> #[trigger] r@[i].0@ != #[trigger] r@[j].0@,
{
    list.prices.iter().map(|(item, price)| (item.clone(), *price)).collect()
}

impl PriceList {
    /// An empty price list.
    pub fn new() -> (r: PriceList)
        ensures
            price_map(r).is_empty(),
    {
        empty_price_list()
    }

    /// Sets the price of an item.
    pub fn insert(&mut self, item: ItemId, price: u32)
        ensures
            price_map(*final(self)) == price_map(*old(self)).insert(item@, price),
    {
        insert_price(self, item, price)
    }

    /// The price of an item, if it has one.
    pub fn get(&self, item: &ItemId) -> (r: Option<u32>)
        ensures
            r == (if price_map(*self).contains_key(item@) {
                Some(price_map(*self)[item@])
            } else {
                None::<u32>
            }),
    {
        lookup_price(self, item)
    }

    /// Whether an item has a price.
    pub fn contains_key(&self, item: &ItemId) -> (r: bool)
        ensures
            r == price_map(*self).contains_key(item@),
    {
        lookup_price(self, item).is_some()
    }

    /// Every item and its price, once each, in no particular order.
    pub fn entries(&self) -> (r: Vec<(ItemId, u32)>)
        ensures
            r@.len() == price_map(*self).len(),
            forall|i: int|
                0 <= i < r@.len() ==> price_map(*self).contains_key(#[trigger] r@[i].0@)
                    && price_map(*self)[r@[i].0@] == r@[i].1,
            forall|k: ItemKey|
                price_map(*self).contains_key(k) ==> exists|i: int|
                    0 <= i < r@.len() && #[trigger] r@[i].0@ == k,
            forall|i: int, j: int|
                0 <= i < j < r@.len() ==> #[trigger] r@[i].0@ != #[trigger] r@[j].0@,
    {
        price_entries(self)
    }
}

/// Quantities of items by item name, as a trade left them.
#[derive(Debug)]
#[verifier::external_body]
pub struct ItemTally {
    counts: hashbrown::HashMap<String, u32>,
}

/// The quantities that a tally holds.
pub uninterp spec fn tally_map(tally: ItemTally) -> Map<Seq<char>, u32>;

/// Relies on hashbrown's `HashMap::new`: the new map is empty.
#[verifier::external_body]
fn empty_tally() -> (r: ItemTally)
    ensures
        tally_map(r).is_empty(),
{
    ItemTally { counts: hashbrown::HashMap::new() }
}

/// Relies on hashbrown's `HashMap::insert`: the name then maps to the
/// quantity, whatever it mapped to before.
#[verifier::external_body]
fn insert_count(tally: &mut ItemTally, name: String, quantity: u32)
    ensures
        tally_map(*final(tally)) == tally_map(*old(tally)).insert(name@, quantity),
{
    tally.counts.insert(name, quantity);
}

/// Relies on hashbrown's `HashMap::get`: the quantity stored under the name.
#[verifier::external_body]
fn lookup_count(tally: &ItemTally, name: &String) -> (r: Option<u32>)
    ensures
        r == (if tally_map(*tally).contains_key(name@) {
            Some(tally_map(*tally)[name@])
        } else {
            None::<u32>
        }),
{
    tally.counts.get(name).copied()
}

/// Relies on hashbrown's `HashMap::len`: the number of names.
#[verifier::external_body]
fn count_names(tally: &ItemTally) -> (r: usize)
    ensures
        r == tally_map(*tally).len(),
{
    tally.counts.len()
}

impl ItemTally {
    /// An empty tally.
    pub fn new() -> (r: ItemTally)
        ensures
            tally_map(r).is_empty(),
    {
        empty_tally()
    }

    /// Sets the quantity of a name.
    pub fn insert(&mut self, name: String, quantity: u32)
        ensures
            tally_map(*final(self)) == tally_map(*old(self)).insert(name@, quantity),
    {
        insert_count(self, name, quantity)
    }

    /// The quantity of a name, if it has one.
    pub fn get(&self, name: &String) -> (r: Option<u32>)
        ensures
            r == (if tally_map(*self).contains_key(name@) {
                Some(tally_map(*self)[name@])
            } else {
                None::<u32>
            }),
    {
        lookup_count(self, name)
    }

    /// The number of names.
    pub fn len(&self) -> (r: usize)
        ensures
            r == tally_map(*self).len(),
    {
        count_names(self)
    }
}

} // verus!
