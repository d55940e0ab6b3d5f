//! The trader's own state: its price lists and operators, the trade mode, the
//! negotiation retained from the last cycle and the receipt of the last
//! accepted trade.

use crate::item::ItemKey;
use crate::prices::{price_map, tally_map, ItemTally, PriceList};
use crate::trade::{
    cycle_action, decide, find_invalid_item, first_unpriced, lines_of, retained, retained_after, same_negotiation, Negotiation,
    OfferLine, OfferedItem, TradeAction, TradeMode, TradeSnapshot,
};
use vstd::prelude::*;

verus! {

/// What each side gave in the last accepted trade, by item name.
#[derive(Debug)]
pub struct Reciept {
    pub my_items: ItemTally,
    pub their_items: ItemTally,
}

/// The quantities of an offer by item name; a later stack of the same name
/// replaces an earlier one.
pub open spec fn tally_of(lines: Seq<OfferLine>) -> Map<Seq<char>, u32>
    decreases lines.len(),
{
    if lines.len() == 0 {
        Map::empty()
    } else {
        tally_of(lines.drop_last()).insert(lines.last().name, lines.last().quantity)
    }
}

fn tally(lines: &Vec<OfferedItem>) -> (r: ItemTally)
    ensures
        tally_map(r) == tally_of(lines_of(lines@)),
{
    let ghost all = lines_of(lines@);
    let mut counts = ItemTally::new();
    assert(tally_map(counts) =~= tally_of(all.subrange(0, 0)));
    let mut i: usize = 0;
    while i < lines.len()
        invariant
            i <= lines@.len(),
            all == lines_of(lines@),
            tally_map(counts) == tally_of(all.subrange(0, i as int)),
        decreases lines@.len() - i,
    {
        let line = &lines[i];
        counts.insert(line.name.clone(), line.quantity);
        proof {
            let prefix = all.subrange(0, i as int + 1);
            assert(prefix.drop_last() =~= all.subrange(0, i as int));
            assert(prefix.last() == line@);
        }
        i = i + 1;
    }
    assert(all.subrange(0, lines@.len() as int) =~= all);
    counts
}

/// A retained negotiation that passes the audit: neither offer holds a stack
/// to be removed.
pub open spec fn audit_clean(
    previous: Option<Negotiation>,
    buy: Map<ItemKey, u32>,
    sell: Map<ItemKey, u32>,
) -> bool {
    match previous {
        Some(n) => first_unpriced(n.mine, sell) is None && first_unpriced(n.theirs, buy) is None,
        None => true,
    }
}

/// One of `names` is `name`.
pub open spec fn listed(names: Seq<String>, name: Seq<char>) -> bool {
    exists|i: int| 0 <= i < names.len() && #[trigger] names[i]@ == name
}

fn is_listed(names: &Vec<String>, name: &String) -> (r: bool)
    ensures
        r == listed(names@, name@),
{
    let mut i: usize = 0;
    while i < names.len()
        invariant
            i <= names@.len(),
            forall|j: int| 0 <= j < i ==> #[trigger] names@[j]@ != name@,
        decreases names@.len() - i,
    {
        if names[i] == *name {
            return true;
        }
        i = i + 1;
    }
    false
}

/// The trader: everything that decides what the bot does in a trade.
pub struct Trader {
    /// Display names and account identifiers of the operators.
    pub admins: Vec<String>,
    /// What the trader pays for items it buys.
    pub buy_prices: PriceList,
    /// What the trader asks for items it sells.
    pub sell_prices: PriceList,
    /// The policy that decides trades.
    pub mode: TradeMode,
    /// The snapshot of the last cycle that passed the audit.
    pub previous: Option<TradeSnapshot>,
    /// The receipt of the last accepted trade.
    pub receipt: Option<Reciept>,
    /// How many more times the inventory is to be sorted.
    pub sort_count: u8,
}

impl Trader {
    /// In normal mode the retained negotiation passes the audit.
    pub open spec fn wf(&self) -> bool {
        self.mode == TradeMode::Normal ==> audit_clean(
            retained(self.previous),
            price_map(self.buy_prices),
            price_map(self.sell_prices),
        )
    }

    /// A trader in normal mode that has seen no trade yet.
    pub fn new(admins: Vec<String>, buy_prices: PriceList, sell_prices: PriceList) -> (r: Trader)
        ensures
            r.wf(),
            r.admins == admins,
            r.buy_prices == buy_prices,
            r.sell_prices == sell_prices,
            r.mode == TradeMode::Normal,
            r.previous is None,
            r.receipt is None,
            r.sort_count == 0,
    {
        Trader {
            admins,
            buy_prices,
            sell_prices,
            mode: TradeMode::Normal,
            previous: None,
            receipt: None,
            sort_count: 0,
        }
    }

    /// Runs one cycle on an open trade: chooses the action as
    /// [`cycle_action`] defines it, retains the snapshot where the cycle
    /// commits, and records a receipt of both offers when it accepts in
    /// normal mode. Under an operator's override nothing is retained or
    /// recorded.
    pub fn handle_trade(&mut self, snapshot: TradeSnapshot) -> (r: TradeAction)
        requires
            old(self).wf(),
        ensures
            final(self).wf(),
            r == cycle_action(
                old(self).mode,
                retained(old(self).previous),
                snapshot@,
                price_map(old(self).buy_prices),
                price_map(old(self).sell_prices),
            ),
            retained(final(self).previous) == retained_after(
                old(self).mode,
                retained(old(self).previous),
                snapshot@,
                price_map(old(self).buy_prices),
                price_map(old(self).sell_prices),
            ),
            r is Accept && old(self).mode == TradeMode::Normal ==> (final(self).receipt matches Some(receipt) && tally_map(
                receipt.my_items,
            ) == tally_of(snapshot@.mine) && tally_map(receipt.their_items) == tally_of(
                snapshot@.theirs,
            )),
            !(r is Accept && old(self).mode == TradeMode::Normal) ==> final(self).receipt == old(
                self,
            ).receipt,
            final(self).mode == old(self).mode,
            final(self).admins == old(self).admins,
            final(self).buy_prices == old(self).buy_prices,
            final(self).sell_prices == old(self).sell_prices,
            final(self).sort_count == old(self).sort_count,
    {
        let action = decide(
            self.mode,
            &self.previous,
            &snapshot,
            &self.buy_prices,
            &self.sell_prices,
        );
        let empty = snapshot.mine.len() == 0 && snapshot.theirs.len() == 0;
        let unchanged = match &self.previous {
            Some(p) => same_negotiation(p, &snapshot),
            None => false,
        };
        let commits = !empty && self.mode != TradeMode::AdminOverride && !unchanged && (self.mode
            != TradeMode::Normal || (
        find_invalid_item(&snapshot.mine, &self.sell_prices).is_none() && find_invalid_item(
            &snapshot.theirs,
            &self.buy_prices,
        ).is_none()));
        if let (TradeAction::Accept { .. }, TradeMode::Normal) = (action, self.mode) {
            self.receipt = Some(
                Reciept { my_items: tally(&snapshot.mine), their_items: tally(&snapshot.theirs) },
            );
        }
        if commits {
            self.previous = Some(snapshot);
        }
        action
    }

    /// An operator takes over the next trade: valuation is off until it ends,
    /// and nothing of earlier trades is kept. Entered from normal mode only.
    pub fn grant_admin_access(&mut self)
        requires
            old(self).mode == TradeMode::Normal,
        ensures
            final(self).wf(),
            final(self).mode == TradeMode::AdminOverride,
            final(self).previous is None,
            final(self).receipt is None,
            final(self).admins == old(self).admins,
            final(self).buy_prices == old(self).buy_prices,
            final(self).sell_prices == old(self).sell_prices,
            final(self).sort_count == old(self).sort_count,
    {
        self.mode = TradeMode::AdminOverride;
        self.previous = None;
        self.receipt = None;
    }

    /// The next trade only takes. Entered from normal mode only, and while no
    /// trade is open.
    pub fn start_take_all(&mut self)
        requires
            old(self).mode == TradeMode::Normal,
        ensures
            final(self).wf(),
            final(self).mode == TradeMode::TakeAll,
            final(self).previous is None,
            final(self).receipt is None,
            final(self).admins == old(self).admins,
            final(self).buy_prices == old(self).buy_prices,
            final(self).sell_prices == old(self).sell_prices,
            final(self).sort_count == old(self).sort_count,
    {
        self.mode = TradeMode::TakeAll;
        self.previous = None;
        self.receipt = None;
    }

    /// A trade ended (accepted, declined or without space): back to normal
    /// mode, with no negotiation retained. Returns whether another mode ended.
    pub fn trade_finished(&mut self) -> (r: bool)
        ensures
            r == (old(self).mode != TradeMode::Normal),
            final(self).wf(),
            final(self).mode == TradeMode::Normal,
            final(self).previous is None,
            final(self).receipt == old(self).receipt,
            final(self).admins == old(self).admins,
            final(self).buy_prices == old(self).buy_prices,
            final(self).sell_prices == old(self).sell_prices,
            final(self).sort_count == old(self).sort_count,
    {
        let ended = self.mode != TradeMode::Normal;
        self.mode = TradeMode::Normal;
        self.previous = None;
        ended
    }

    /// A cycle with no open trade. Where no invitation is pending either, a
    /// special mode has lost its trade and falls back to normal; in normal
    /// mode the trader then accepts an incoming invitation, which the result
    /// asks for.
    pub fn idle(&mut self, invites_pending: bool) -> (accept_invite: bool)
        requires
            old(self).wf(),
        ensures
            accept_invite == (!invites_pending && old(self).mode == TradeMode::Normal),
            final(self).wf(),
            !invites_pending ==> final(self).mode == TradeMode::Normal,
            !invites_pending && old(self).mode != TradeMode::Normal ==> final(self).previous is None,
            invites_pending || old(self).mode == TradeMode::Normal ==> final(self).mode == old(
                self,
            ).mode && final(self).previous == old(self).previous,
            final(self).receipt == old(self).receipt,
            final(self).admins == old(self).admins,
            final(self).buy_prices == old(self).buy_prices,
            final(self).sell_prices == old(self).sell_prices,
            final(self).sort_count == old(self).sort_count,
    {
        if invites_pending {
            return false;
        }
        if self.mode != TradeMode::Normal {
            self.mode = TradeMode::Normal;
            self.previous = None;
            return false;
        }
        true
    }

    /// Asks for repeated sorting of the inventory, `count` more times.
    pub fn sort_repeatedly(&mut self, count: u8)
        ensures
            final(self).sort_count == count,
            final(self).wf() == old(self).wf(),
            final(self).mode == old(self).mode,
            final(self).previous == old(self).previous,
            final(self).receipt == old(self).receipt,
            final(self).admins == old(self).admins,
            final(self).buy_prices == old(self).buy_prices,
            final(self).sell_prices == old(self).sell_prices,
    {
        self.sort_count = count;
    }

    /// Whether this cycle sorts the inventory; each sort uses up one of the
    /// pending count.
    pub fn next_sort(&mut self) -> (r: bool)
        ensures
            r == (old(self).sort_count > 0),
            final(self).sort_count == (if r { old(self).sort_count - 1 } else { 0 }),
            final(self).wf() == old(self).wf(),
            final(self).mode == old(self).mode,
            final(self).previous == old(self).previous,
            final(self).receipt == old(self).receipt,
            final(self).admins == old(self).admins,
            final(self).buy_prices == old(self).buy_prices,
            final(self).sell_prices == old(self).sell_prices,
    {
        if self.sort_count > 0 {
            self.sort_count = self.sort_count - 1;
            true
        } else {
            false
        }
    }

    /// Whether a player is an operator, by display name or, where given, by
    /// account identifier.
    pub fn is_user_admin(&self, name: &String, uuid: Option<&String>) -> (r: bool)
        ensures
            r == (listed(self.admins@, name@) || (uuid matches Some(u) && listed(
                self.admins@,
                u@,
            ))),
    {
        if is_listed(&self.admins, name) {
            return true;
        }
        match uuid {
            Some(u) => is_listed(&self.admins, u),
            None => false,
        }
    }
}

} // verus!
