//! Price lookups: which priced items a player's search term finds.

use crate::item::{ItemId, ItemKey};
use crate::text::{contains_text, is_infix, lower_of, lowercase};
use vstd::prelude::*;

verus! {

/// One priced item, as a lookup reports it.
pub struct PriceEntry {
    pub item: ItemId,
    /// The item's display name.
    pub name: String,
    /// Unit price in coins.
    pub price: u32,
    /// How many the trader holds.
    pub stock: u32,
}

/// The view of a [`PriceEntry`].
pub struct PriceLine {
    pub item: ItemKey,
    pub name: Seq<char>,
    pub price: u32,
    pub stock: u32,
}

impl View for PriceEntry {
    type V = PriceLine;

    open spec fn view(&self) -> PriceLine {
        PriceLine { item: self.item@, name: self.name@, price: self.price, stock: self.stock }
    }
}

pub open spec fn price_lines(v: Seq<PriceEntry>) -> Seq<PriceLine> {
    v.map_values(|e: PriceEntry| e@)
}

/// The most results that a lookup reports one by one.
pub const MAX_RESULTS: usize = 10;

/// A term is found in a name, or in an item's definition path.
pub open spec fn matches_term(term: Seq<char>, name: Seq<char>, path: Option<Seq<char>>) -> bool {
    is_infix(term, name) || (path matches Some(p) && is_infix(term, p))
}

/// Whether `term` occurs in `name` or in `path`, all three already in lower case.
pub fn matches_lowered(term: &str, name: &str, path: Option<&str>) -> (r: bool)
    ensures
        r == matches_term(
            term@,
            name@,
            match path {
                Some(p) => Some(p@),
                None => None,
            },
        ),
{
    if contains_text(name, term) {
        return true;
    }
    match path {
        Some(p) => contains_text(p, term),
        None => false,
    }
}

/// A lookup for `term` finds the entry: ignoring case, the term occurs in the
/// entry's name or in the definition path of a simple item.
pub open spec fn entry_found(term: Seq<char>, e: PriceLine) -> bool {
    matches_term(
        lower_of(term),
        lower_of(e.name),
        match e.item {
            ItemKey::Simple(p) => Some(lower_of(p)),
            ItemKey::Modular { .. } => None,
        },
    )
}

/// The positions of the entries that a lookup for `term` finds, in order.
pub open spec fn found_positions(entries: Seq<PriceLine>, term: Seq<char>) -> Seq<usize>
    decreases entries.len(),
{
    if entries.len() == 0 {
        Seq::empty()
    } else {
        let rest = found_positions(entries.drop_last(), term);
        if entry_found(term, entries.last()) {
            rest.push((entries.len() - 1) as usize)
        } else {
            rest
        }
    }
}

proof fn lemma_found_positions_len(entries: Seq<PriceLine>, term: Seq<char>)
    ensures
        found_positions(entries, term).len() <= entries.len(),
    decreases entries.len(),
{
    if entries.len() > 0 {
        lemma_found_positions_len(entries.drop_last(), term);
    }
}

/// The answer to a price lookup.
pub enum PriceReply {
    /// No price matches.
    NotFound,
    /// More prices match than are reported one by one.
    TooMany { count: usize },
    /// The positions of the matching buy and sell entries.
    Found { buying: Vec<usize>, selling: Vec<usize> },
}

fn entry_matches(term: &str, entry: &PriceEntry) -> (r: bool)
    ensures
        r == entry_found(term@, entry@),
{
    let term = lowercase(term);
    let name = lowercase(entry.name.as_str());
    match entry.item.itemdef_id() {
        Some(path) => {
            let path = lowercase(path.as_str());
            matches_lowered(term.as_str(), name.as_str(), Some(path.as_str()))
        },
        None => matches_lowered(term.as_str(), name.as_str(), None),
    }
}

fn find_positions(term: &str, entries: &Vec<PriceEntry>) -> (r: Vec<usize>)
    ensures
        r@ == found_positions(price_lines(entries@), term@),
{
    let ghost all = price_lines(entries@);
    let mut found: Vec<usize> = Vec::new();
    assert(found@ =~= found_positions(all.subrange(0, 0), term@));
    let mut i: usize = 0;
    while i < entries.len()
        invariant
            i <= entries@.len(),
            all == price_lines(entries@),
            found@ == found_positions(all.subrange(0, i as int), term@),
        decreases entries@.len() - i,
    {
        let ghost prefix = all.subrange(0, i as int + 1);
        assert(prefix.drop_last() =~= all.subrange(0, i as int));
        assert(prefix.last() == entries@[i as int]@);
        if entry_matches(term, &entries[i]) {
            found.push(i);
        }
        i = i + 1;
    }
    assert(all.subrange(0, entries@.len() as int) =~= all);
    found
}

/// Looks `term` up among the buy and sell entries. Nothing found, or more
/// than [`MAX_RESULTS`] found, is reported as such; otherwise the reply
/// lists the positions of the entries found.
pub fn search_prices(term: &str, buying: &Vec<PriceEntry>, selling: &Vec<PriceEntry>) -> (r:
    PriceReply)
    requires
        buying@.len() + selling@.len() <= usize::MAX,
    ensures
        ({
            let b = found_positions(price_lines(buying@), term@);
            let s = found_positions(price_lines(selling@), term@);
            &&& b.len() + s.len() == 0 ==> r is NotFound
            &&& b.len() + s.len() > MAX_RESULTS ==> r == (PriceReply::TooMany {
                count: (b.len() + s.len()) as usize,
            })
            &&& 0 < b.len() + s.len() <= MAX_RESULTS ==> (r matches PriceReply::Found {
                buying: fb,
                selling: fs,
            } && fb@ == b && fs@ == s)
        }),
{
    let found_buying = find_positions(term, buying);
    let found_selling = find_positions(term, selling);
    proof {
        lemma_found_positions_len(price_lines(buying@), term@);
        lemma_found_positions_len(price_lines(selling@), term@);
    }
    let count = found_buying.len() + found_selling.len();
    if count == 0 {
        PriceReply::NotFound
    } else if count > MAX_RESULTS {
        PriceReply::TooMany { count }
    } else {
        PriceReply::Found { buying: found_buying, selling: found_selling }
    }
}

} // verus!
