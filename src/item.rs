//! Canonical item identifiers.

use vstd::prelude::*;

verus! {

/// The mathematical value of an [`ItemId`].
pub enum ItemKey {
    Simple(Seq<char>),
    Modular { material: Seq<char>, primary: Seq<char>, secondary: Seq<char> },
}

/// Identifier of an item kind, as the game knows it.
///
/// A simple item is named by its full definition path. A modular weapon is
/// named by the definition paths of its material, its primary component and
/// its secondary component.
#[derive(Clone, Debug, Hash)]
pub enum ItemId {
    Simple(String),
    Modular { material: String, primary: String, secondary: String },
}

impl View for ItemId {
    type V = ItemKey;

    open spec fn view(&self) -> ItemKey {
        match self {
            ItemId::Simple(s) => ItemKey::Simple(s@),
            ItemId::Modular { material, primary, secondary } => ItemKey::Modular {
                material: material@,
                primary: primary@,
                secondary: secondary@,
            },
        }
    }
}

impl PartialEq for ItemId {
    fn eq(&self, other: &ItemId) -> (r: bool) {
        match (self, other) {
            (ItemId::Simple(a), ItemId::Simple(b)) => *a == *b,
            (
                ItemId::Modular { material: m1, primary: p1, secondary: s1 },
                ItemId::Modular { material: m2, primary: p2, secondary: s2 },
            ) => *m1 == *m2 && *p1 == *p2 && *s1 == *s2,
            _ => false,
        }
    }
}

impl vstd::std_specs::cmp::PartialEqSpecImpl for ItemId {
    open spec fn obeys_eq_spec() -> bool {
        true
    }

    open spec fn eq_spec(&self, other: &ItemId) -> bool {
        self@ == other@
    }
}

impl Eq for ItemId {

}

/// Definition path of the coin item, the currency that balances trades.
pub const COINS_PATH: &'static str = "common.items.utility.coins";

/// The key of the coin item.
pub open spec fn coins_key() -> ItemKey {
    ItemKey::Simple(COINS_PATH@)
}

impl ItemId {
    /// The coin item.
    pub fn coins() -> (r: ItemId)
        ensures
            r@ == coins_key(),
    {
        ItemId::Simple(String::from_str(COINS_PATH))
    }

    /// Whether this is the coin item.
    pub fn is_coins(&self) -> (r: bool)
        ensures
            r == (self@ == coins_key()),
    {
        let coins = ItemId::coins();
        *self == coins
    }

    /// The definition path of a simple item; a modular item has none.
    pub fn itemdef_id(&self) -> (r: Option<&String>)
        ensures
            r matches Some(s) ==> self@ == ItemKey::Simple(s@),
            r is None <==> self@ is Modular,
    {
        match self {
            ItemId::Simple(s) => Some(s),
            ItemId::Modular { .. } => None,
        }
    }
}

} // verus!
