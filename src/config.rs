//! Configuration: the operator's secrets and the reading of price lists,
//! whose keys name simple items or modular weapons.

use crate::item::{ItemId, ItemKey};
use crate::prices::{price_map, PriceList};
use crate::text::{split_first, split_once};
use vstd::prelude::*;

verus! {

/// Sensitive configuration values.
pub struct Secrets {
    pub username: String,
    pub password: String,
    pub character: String,
    /// Display names and account identifiers of the operators.
    pub admins: Vec<String>,
}

/// Prefix of every item definition path.
pub const ITEM_PREFIX: &'static str = "common.items.";

/// Prefix of the definition path of a modular weapon's primary component.
pub const PRIMARY_PREFIX: &'static str = "common.items.modular.weapon.primary.";

/// Prefix of the definition path of a modular weapon's secondary component.
pub const SECONDARY_PREFIX: &'static str = "common.items.modular.weapon.secondary.";

/// The item that a price-list key names. A key without `|` is a simple item's
/// path below `common.items.`; `material|primary|secondary` is a modular
/// weapon (the secondary part may hold further `|`); a key with exactly one
/// `|` names nothing.
pub open spec fn price_key(k: Seq<char>) -> Option<ItemKey> {
    match split_once(k, '|') {
        None => Some(ItemKey::Simple(ITEM_PREFIX@ + k)),
        Some((material, rest)) => match split_once(rest, '|') {
            None => None,
            Some((primary, secondary)) => Some(
                ItemKey::Modular {
                    material: ITEM_PREFIX@ + material,
                    primary: PRIMARY_PREFIX@ + primary,
                    secondary: SECONDARY_PREFIX@ + secondary,
                },
            ),
        },
    }
}

/// The item that a price-list key names, as [`price_key`] defines it.
pub fn parse_price_key(key: &str) -> (r: Option<ItemId>)
    ensures
        match price_key(key@) {
            Some(k) => r matches Some(id) && id@ == k,
            None => r is None,
        },
{
    match split_first(key, '|') {
        None => Some(ItemId::Simple(String::from_str(ITEM_PREFIX).concat(key))),
        Some((material, rest)) => match split_first(rest.as_str(), '|') {
            None => None,
            Some((primary, secondary)) => Some(
                ItemId::Modular {
                    material: String::from_str(ITEM_PREFIX).concat(material.as_str()),
                    primary: String::from_str(PRIMARY_PREFIX).concat(primary.as_str()),
                    secondary: String::from_str(SECONDARY_PREFIX).concat(secondary.as_str()),
                },
            ),
        },
    }
}

/// The views of price-list entries.
pub open spec fn entries_view(entries: Seq<(String, u32)>) -> Seq<(Seq<char>, u32)> {
    entries.map_values(|e: (String, u32)| (e.0@, e.1))
}

/// Every key names an item.
pub open spec fn keys_valid(entries: Seq<(Seq<char>, u32)>) -> bool {
    forall|i: int| 0 <= i < entries.len() ==> (#[trigger] price_key(entries[i].0)) is Some
}

/// The prices of valid entries, a later entry for an item replacing an
/// earlier one.
pub open spec fn prices_from(entries: Seq<(Seq<char>, u32)>) -> Map<ItemKey, u32>
    decreases entries.len(),
{
    if entries.len() == 0 {
        Map::empty()
    } else {
        prices_from(entries.drop_last()).insert(
            price_key(entries.last().0)->0,
            entries.last().1,
        )
    }
}

/// A price-list key that names no item.
#[derive(Clone, Copy, Debug, PartialEq, Eq, Structural)]
pub struct InvalidKey;

/// Builds a price list from its entries.
pub struct PriceListVisitor;

impl PriceListVisitor {
    /// What a price list is written as.
    pub fn expecting(&self) -> (r: &'static str)
        ensures
            r@ == "a map with simple and/or modular keys: material|primary|secondary"@,
    {
        "a map with simple and/or modular keys: material|primary|secondary"
    }

    /// The price list of the entries, in order; an error where a key names
    /// no item.
    pub fn visit_entries(self, entries: &Vec<(String, u32)>) -> (r: Result<PriceList, InvalidKey>)
        ensures
            r is Ok <==> keys_valid(entries_view(entries@)),
            r matches Ok(list) ==> price_map(list) == prices_from(entries_view(entries@)),
    {
        let ghost all = entries_view(entries@);
        let mut prices = PriceList::new();
        assert(price_map(prices) =~= prices_from(all.subrange(0, 0)));
        let mut i: usize = 0;
        while i < entries.len()
            invariant
                i <= entries@.len(),
                all == entries_view(entries@),
                keys_valid(all.subrange(0, i as int)),
                price_map(prices) == prices_from(all.subrange(0, i as int)),
            decreases entries@.len() - i,
        {
            let (key, price) = &entries[i];
            assert(all[i as int] == (key@, *price));
            match parse_price_key(key.as_str()) {
                None => {
                    assert(price_key(all[i as int].0) is None);
                    return Err(InvalidKey);
                },
                Some(item) => {
                    prices.insert(item, *price);
                    proof {
                        let prefix = all.subrange(0, i as int + 1);
                        assert(prefix.drop_last() =~= all.subrange(0, i as int));
                        assert(prefix.last() == all[i as int]);
                        assert forall|j: int| 0 <= j < prefix.len() implies (#[trigger] price_key(
                            prefix[j].0,
                        )) is Some by {
                            if j < i {
                                assert(prefix[j] == all.subrange(0, i as int)[j]);
                            }
                        }
                    }
                },
            }
            i = i + 1;
        }
        assert(all.subrange(0, entries@.len() as int) =~= all);
        Ok(prices)
    }
}

} // verus!
