//! One trade cycle: valuing both offers, auditing them for items without a
//! price, and choosing the single action that moves the trade towards a
//! balanced, acceptable state.

use crate::item::{coins_key, ItemId, ItemKey};
use crate::prices::{price_map, PriceList};
use vstd::prelude::*;

verus! {

/// One offered stack, as the cycle sees it.
pub struct OfferLine {
    pub slot: u64,
    pub quantity: u32,
    pub item: ItemKey,
    pub name: Seq<char>,
}

/// One stack that a party has placed in the trade.
pub struct OfferedItem {
    /// The inventory slot that holds the stack.
    pub slot: u64,
    /// How many of the stack are offered.
    pub quantity: u32,
    /// The kind of item in the slot.
    pub item: ItemId,
    /// The item's display name.
    pub name: String,
}

impl View for OfferedItem {
    type V = OfferLine;

    open spec fn view(&self) -> OfferLine {
        OfferLine { slot: self.slot, quantity: self.quantity, item: self.item@, name: self.name@ }
    }
}

/// The view of a list of offered stacks.
pub open spec fn lines_of(v: Seq<OfferedItem>) -> Seq<OfferLine> {
    v.map_values(|o: OfferedItem| o@)
}

/// The inventory stack that holds a party's coins.
#[derive(Clone, Copy, Debug, PartialEq, Eq, Structural)]
pub struct CoinStack {
    pub slot: u64,
    pub amount: u32,
}

/// What the cycle sees of a pending trade and of both inventories.
pub struct TradeSnapshot {
    /// The trade's phase, echoed back on accepting.
    pub phase: u64,
    /// My offer.
    pub mine: Vec<OfferedItem>,
    /// The other party's offer.
    pub theirs: Vec<OfferedItem>,
    /// My coin stack, if I hold coins.
    pub my_coins: Option<CoinStack>,
    /// The other party's coin stack, if they hold coins.
    pub their_coins: Option<CoinStack>,
}

/// The view of a [`TradeSnapshot`].
pub struct SnapshotView {
    pub phase: u64,
    pub mine: Seq<OfferLine>,
    pub theirs: Seq<OfferLine>,
    pub my_coins: Option<CoinStack>,
    pub their_coins: Option<CoinStack>,
}

impl View for TradeSnapshot {
    type V = SnapshotView;

    open spec fn view(&self) -> SnapshotView {
        SnapshotView {
            phase: self.phase,
            mine: lines_of(self.mine@),
            theirs: lines_of(self.theirs@),
            my_coins: self.my_coins,
            their_coins: self.their_coins,
        }
    }
}

/// The part of a snapshot that the trade itself holds: its phase and both
/// offers. Two cycles that see the same negotiation see an unchanged trade.
pub struct Negotiation {
    pub phase: u64,
    pub mine: Seq<OfferLine>,
    pub theirs: Seq<OfferLine>,
}

pub open spec fn negotiation_of(s: SnapshotView) -> Negotiation {
    Negotiation { phase: s.phase, mine: s.mine, theirs: s.theirs }
}

/// Neither party offers anything.
pub open spec fn is_empty_trade(s: SnapshotView) -> bool {
    s.mine.len() == 0 && s.theirs.len() == 0
}

/// `x`, saturated to the range of `i32`.
pub open spec fn clamp_i32(x: int) -> int {
    if x < i32::MIN {
        i32::MIN as int
    } else if x > i32::MAX {
        i32::MAX as int
    } else {
        x
    }
}

/// The value of one unit of an item. Coins are worth one each. Otherwise the
/// price in the primary table counts, else the negated price in the opposite
/// table, else `unpriced`. Prices above `i32::MAX` saturate.
pub open spec fn unit_value(
    item: ItemKey,
    primary: Map<ItemKey, u32>,
    opposite: Map<ItemKey, u32>,
    unpriced: int,
) -> int {
    if item == coins_key() {
        1
    } else if primary.contains_key(item) {
        clamp_i32(primary[item] as int)
    } else if opposite.contains_key(item) {
        -clamp_i32(opposite[item] as int)
    } else {
        unpriced
    }
}

/// The saturating sum of unit value times quantity over an offer, in order.
pub open spec fn offer_value(
    lines: Seq<OfferLine>,
    primary: Map<ItemKey, u32>,
    opposite: Map<ItemKey, u32>,
    unpriced: int,
) -> int
    decreases lines.len(),
{
    if lines.len() == 0 {
        0
    } else {
        let last = lines.last();
        clamp_i32(
            offer_value(lines.drop_last(), primary, opposite, unpriced) + clamp_i32(
                unit_value(last.item, primary, opposite, unpriced) * clamp_i32(last.quantity as int),
            ),
        )
    }
}

/// The value of my offer: sell prices first, and an item of mine without any
/// price is as bad as can be.
pub open spec fn my_offer_value(
    s: SnapshotView,
    buy: Map<ItemKey, u32>,
    sell: Map<ItemKey, u32>,
) -> int {
    offer_value(s.mine, sell, buy, i32::MIN as int)
}

/// The value of their offer: buy prices first, and an item of theirs without
/// any price is worth nothing.
pub open spec fn their_offer_value(
    s: SnapshotView,
    buy: Map<ItemKey, u32>,
    sell: Map<ItemKey, u32>,
) -> int {
    offer_value(s.theirs, buy, sell, 0)
}

/// The value of one unit of `item`, as [`unit_value`] defines it.
pub fn item_value(item: &ItemId, primary: &PriceList, opposite: &PriceList, unpriced: i32) -> (r:
    i32)
    ensures
        r == unit_value(item@, price_map(*primary), price_map(*opposite), unpriced as int),
{
    if item.is_coins() {
        return 1;
    }
    match primary.get(item) {
        Some(price) => saturate_price(price),
        None => match opposite.get(item) {
            Some(price) => -saturate_price(price),
            None => unpriced,
        },
    }
}

fn saturate_price(price: u32) -> (r: i32)
    ensures
        r == clamp_i32(price as int),
{
    if price > i32::MAX as u32 {
        i32::MAX
    } else {
        price as i32
    }
}

fn clamp_to_i32(x: i64) -> (r: i32)
    ensures
        r == clamp_i32(x as int),
{
    if x < i32::MIN as i64 {
        i32::MIN
    } else if x > i32::MAX as i64 {
        i32::MAX
    } else {
        x as i32
    }
}

/// The value of an offer, as [`offer_value`] defines it.
pub fn value_of_offer(
    lines: &Vec<OfferedItem>,
    primary: &PriceList,
    opposite: &PriceList,
    unpriced: i32,
) -> (r: i32)
    ensures
        r == offer_value(lines_of(lines@), price_map(*primary), price_map(*opposite), unpriced as int),
{
    let ghost all = lines_of(lines@);
    let mut total: i32 = 0;
    let mut i: usize = 0;
    while i < lines.len()
        invariant
            i <= lines@.len(),
            all == lines_of(lines@),
            total == offer_value(all.subrange(0, i as int), price_map(*primary), price_map(*opposite), unpriced as int),
        decreases lines@.len() - i,
    {
        let line = &lines[i];
        let unit = item_value(&line.item, primary, opposite, unpriced);
        let quantity = clamp_to_i32(line.quantity as i64);
        assert(-0x4000_0000_0000_0000 <= (unit as int) * (quantity as int) <= 0x4000_0000_0000_0000)
            by (nonlinear_arith)
            requires
                i32::MIN <= unit <= i32::MAX,
                0 <= quantity <= i32::MAX,
        ;
        let product: i64 = (unit as i64) * (quantity as i64);
        let term = clamp_to_i32(product);
        total = clamp_to_i32(total as i64 + term as i64);
        proof {
            let prefix = all.subrange(0, i as int + 1);
            assert(prefix.drop_last() =~= all.subrange(0, i as int));
            assert(prefix.last() == line@);
        }
        i = i + 1;
    }
    assert(all.subrange(0, lines@.len() as int) =~= all);
    total
}


/// A stack that the audit removes: not coins, and without a price in the
/// table that the offer is held to.
pub open spec fn is_unpriced(line: OfferLine, table: Map<ItemKey, u32>) -> bool {
    line.item != coins_key() && !table.contains_key(line.item)
}

/// The first stack of an offer that the audit removes.
pub open spec fn first_unpriced(lines: Seq<OfferLine>, table: Map<ItemKey, u32>) -> Option<
    OfferLine,
>
    decreases lines.len(),
{
    if lines.len() == 0 {
        None
    } else if is_unpriced(lines[0], table) {
        Some(lines[0])
    } else {
        first_unpriced(lines.drop_first(), table)
    }
}

/// The slot and quantity of the first stack of `lines` whose item is neither
/// coins nor priced in `table`.
pub fn find_invalid_item(lines: &Vec<OfferedItem>, table: &PriceList) -> (r: Option<(u64, u32)>)
    ensures
        match first_unpriced(lines_of(lines@), price_map(*table)) {
            Some(line) => r == Some((line.slot, line.quantity)),
            None => r is None,
        },
{
    let ghost all = lines_of(lines@);
    let ghost t = price_map(*table);
    assert(all.subrange(0, all.len() as int) =~= all);
    let mut i: usize = 0;
    while i < lines.len()
        invariant
            i <= lines@.len(),
            all == lines_of(lines@),
            t == price_map(*table),
            first_unpriced(all, t) == first_unpriced(all.subrange(i as int, all.len() as int), t),
        decreases lines@.len() - i,
    {
        let line = &lines[i];
        let ghost rest = all.subrange(i as int, all.len() as int);
        assert(rest[0] == line@);
        if !line.item.is_coins() && !table.contains_key(&line.item) {
            return Some((line.slot, line.quantity));
        }
        assert(rest.drop_first() =~= all.subrange(i as int + 1, all.len() as int));
        i = i + 1;
    }
    assert(all.subrange(i as int, all.len() as int) =~= Seq::<OfferLine>::empty());
    None
}

/// The offer holds a stack of coins with a positive quantity.
pub open spec fn offers_coins(lines: Seq<OfferLine>) -> bool {
    exists|i: int| 0 <= i < lines.len() && #[trigger] lines[i].item == coins_key() && lines[i].quantity > 0
}

fn offers_any_coins(lines: &Vec<OfferedItem>) -> (r: bool)
    ensures
        r == offers_coins(lines_of(lines@)),
{
    let ghost all = lines_of(lines@);
    let mut i: usize = 0;
    while i < lines.len()
        invariant
            i <= lines@.len(),
            all == lines_of(lines@),
            forall|j: int| 0 <= j < i ==> !(#[trigger] all[j].item == coins_key() && all[j].quantity > 0),
        decreases lines@.len() - i,
    {
        assert(all[i as int] == lines@[i as int]@);
        if lines[i].quantity > 0 && lines[i].item.is_coins() {
            assert(all[i as int].item == coins_key() && all[i as int].quantity > 0);
            return true;
        }
        i = i + 1;
    }
    false
}

fn same_lines(a: &Vec<OfferedItem>, b: &Vec<OfferedItem>) -> (r: bool)
    ensures
        r == (lines_of(a@) == lines_of(b@)),
{
    let ghost la = lines_of(a@);
    let ghost lb = lines_of(b@);
    if a.len() != b.len() {
        assert(la.len() != lb.len());
        return false;
    }
    let mut i: usize = 0;
    while i < a.len()
        invariant
            i <= a@.len(),
            a@.len() == b@.len(),
            la == lines_of(a@),
            lb == lines_of(b@),
            forall|j: int| 0 <= j < i ==> la[j] == lb[j],
        decreases a@.len() - i,
    {
        let x = &a[i];
        let y = &b[i];
        assert(la[i as int] == x@ && lb[i as int] == y@);
        if !(x.slot == y.slot && x.quantity == y.quantity && x.item == y.item && x.name == y.name) {
            assert(la[i as int] != lb[i as int]);
            return false;
        }
        i = i + 1;
    }
    assert(la =~= lb);
    true
}

/// Whether two snapshots hold the same negotiation.
pub fn same_negotiation(a: &TradeSnapshot, b: &TradeSnapshot) -> (r: bool)
    ensures
        r == (negotiation_of(a@) == negotiation_of(b@)),
{
    a.phase == b.phase && same_lines(&a.mine, &b.mine) && same_lines(&a.theirs, &b.theirs)
}

/// Which policy decides the trades.
#[derive(Clone, Copy, Debug, PartialEq, Eq, Structural)]
pub enum TradeMode {
    /// Trades are valued and balanced against the price lists.
    Normal,
    /// A trusted party may trade anything: every non-empty trade is accepted.
    AdminOverride,
    /// The other party gives items away: a trade is accepted only while my
    /// offer is empty.
    TakeAll,
}

/// The one action that a cycle takes on the trade.
#[derive(Clone, Copy, Debug, PartialEq, Eq, Structural)]
pub enum TradeAction {
    /// Do nothing this cycle.
    Wait,
    /// Accept the trade in the given phase.
    Accept { phase: u64 },
    /// Add coins from a stack to an offer (`ours`: to mine).
    AddItem { slot: u64, quantity: u32, ours: bool },
    /// Take a quantity of a stack out of an offer (`ours`: out of mine).
    RemoveItem { slot: u64, quantity: u32, ours: bool },
    /// Coins cannot balance the trade. `offer_value` is the value of the
    /// larger offer (mine where `my_offer`), and `coins` the number of coins
    /// that the other party to it holds.
    InsufficientFunds { offer_value: i32, coins: u32, my_offer: bool },
}

/// The number of coins in a stack, zero where there is none.
pub open spec fn coin_amount(stack: Option<CoinStack>) -> int {
    match stack {
        Some(c) => c.amount as int,
        None => 0,
    }
}

/// How coins balance a trade whose offers are worth `my_value` and
/// `their_value`: coins leave the richer side if it offers some, or else are
/// added to the poorer side if its owner holds enough.
pub open spec fn balance_action(s: SnapshotView, my_value: int, their_value: int) -> TradeAction {
    let difference = their_value - my_value;
    if difference == 0 {
        TradeAction::Accept { phase: s.phase }
    } else if difference > 0 {
        if offers_coins(s.theirs) && s.their_coins is Some {
            TradeAction::RemoveItem {
                slot: s.their_coins->0.slot,
                quantity: difference as u32,
                ours: false,
            }
        } else if !offers_coins(s.theirs) && s.my_coins is Some && s.my_coins->0.amount
            >= difference {
            TradeAction::AddItem { slot: s.my_coins->0.slot, quantity: difference as u32, ours: true }
        } else {
            TradeAction::InsufficientFunds {
                offer_value: their_value as i32,
                coins: coin_amount(s.my_coins) as u32,
                my_offer: false,
            }
        }
    } else {
        if offers_coins(s.mine) && s.my_coins is Some {
            TradeAction::RemoveItem {
                slot: s.my_coins->0.slot,
                quantity: (-difference) as u32,
                ours: true,
            }
        } else if !offers_coins(s.mine) && s.their_coins is Some && s.their_coins->0.amount
            >= -difference {
            TradeAction::AddItem {
                slot: s.their_coins->0.slot,
                quantity: (-difference) as u32,
                ours: false,
            }
        } else {
            TradeAction::InsufficientFunds {
                offer_value: my_value as i32,
                coins: coin_amount(s.their_coins) as u32,
                my_offer: true,
            }
        }
    }
}

/// The negotiation of a retained snapshot.
pub open spec fn retained(previous: Option<TradeSnapshot>) -> Option<Negotiation> {
    match previous {
        Some(p) => Some(negotiation_of(p@)),
        None => None,
    }
}

/// The action of one cycle in the given mode, after the cycle that retained
/// `previous`.
pub open spec fn cycle_action(
    mode: TradeMode,
    previous: Option<Negotiation>,
    s: SnapshotView,
    buy: Map<ItemKey, u32>,
    sell: Map<ItemKey, u32>,
) -> TradeAction {
    if is_empty_trade(s) {
        TradeAction::Wait
    } else if mode == TradeMode::AdminOverride {
        TradeAction::Accept { phase: s.phase }
    } else if previous == Some(negotiation_of(s)) {
        TradeAction::Wait
    } else {
        match mode {
            TradeMode::AdminOverride => TradeAction::Accept { phase: s.phase },
            TradeMode::TakeAll => if s.mine.len() == 0 {
                TradeAction::Accept { phase: s.phase }
            } else {
                TradeAction::Wait
            },
            TradeMode::Normal => match first_unpriced(s.mine, sell) {
                Some(line) => TradeAction::RemoveItem {
                    slot: line.slot,
                    quantity: line.quantity,
                    ours: true,
                },
                None => match first_unpriced(s.theirs, buy) {
                    Some(line) => TradeAction::RemoveItem {
                        slot: line.slot,
                        quantity: line.quantity,
                        ours: false,
                    },
                    None => balance_action(
                        s,
                        my_offer_value(s, buy, sell),
                        their_offer_value(s, buy, sell),
                    ),
                },
            },
        }
    }
}

/// Whether the cycle retains the snapshot as seen: the trade is not empty, has
/// changed, the mode is not an operator's override (which retains nothing),
/// and, in normal mode, no stack is to be removed.
pub open spec fn cycle_commits(
    mode: TradeMode,
    previous: Option<Negotiation>,
    s: SnapshotView,
    buy: Map<ItemKey, u32>,
    sell: Map<ItemKey, u32>,
) -> bool {
    &&& !is_empty_trade(s)
    &&& mode != TradeMode::AdminOverride
    &&& previous != Some(negotiation_of(s))
    &&& mode == TradeMode::Normal ==> first_unpriced(s.mine, sell) is None && first_unpriced(
        s.theirs,
        buy,
    ) is None
}

/// The negotiation retained after a cycle.
pub open spec fn retained_after(
    mode: TradeMode,
    previous: Option<Negotiation>,
    s: SnapshotView,
    buy: Map<ItemKey, u32>,
    sell: Map<ItemKey, u32>,
) -> Option<Negotiation> {
    if cycle_commits(mode, previous, s, buy, sell) {
        Some(negotiation_of(s))
    } else {
        previous
    }
}

fn balance(s: &TradeSnapshot, my_value: i32, their_value: i32) -> (r: TradeAction)
    ensures
        r == balance_action(s@, my_value as int, their_value as int),
{
    let difference: i64 = their_value as i64 - my_value as i64;
    if difference == 0 {
        TradeAction::Accept { phase: s.phase }
    } else if difference > 0 {
        let quantity = difference as u32;
        let they_offer_coins = offers_any_coins(&s.theirs);
        if they_offer_coins && s.their_coins.is_some() {
            let stack = s.their_coins.unwrap();
            TradeAction::RemoveItem { slot: stack.slot, quantity, ours: false }
        } else if !they_offer_coins && s.my_coins.is_some() && s.my_coins.unwrap().amount
            >= quantity {
            TradeAction::AddItem { slot: s.my_coins.unwrap().slot, quantity, ours: true }
        } else {
            let coins = match s.my_coins {
                Some(c) => c.amount,
                None => 0,
            };
            TradeAction::InsufficientFunds { offer_value: their_value, coins, my_offer: false }
        }
    } else {
        let quantity = (-difference) as u32;
        let i_offer_coins = offers_any_coins(&s.mine);
        if i_offer_coins && s.my_coins.is_some() {
            let stack = s.my_coins.unwrap();
            TradeAction::RemoveItem { slot: stack.slot, quantity, ours: true }
        } else if !i_offer_coins && s.their_coins.is_some() && s.their_coins.unwrap().amount
            >= quantity {
            TradeAction::AddItem { slot: s.their_coins.unwrap().slot, quantity, ours: false }
        } else {
            let coins = match s.their_coins {
                Some(c) => c.amount,
                None => 0,
            };
            TradeAction::InsufficientFunds { offer_value: my_value, coins, my_offer: true }
        }
    }
}

/// The action of one cycle, as [`cycle_action`] defines it.
pub fn decide(
    mode: TradeMode,
    previous: &Option<TradeSnapshot>,
    snapshot: &TradeSnapshot,
    buy: &PriceList,
    sell: &PriceList,
) -> (r: TradeAction)
    ensures
        r == cycle_action(mode, retained(*previous), snapshot@, price_map(*buy), price_map(*sell)),
{
    if snapshot.mine.len() == 0 && snapshot.theirs.len() == 0 {
        return TradeAction::Wait;
    }
    if mode == TradeMode::AdminOverride {
        return TradeAction::Accept { phase: snapshot.phase };
    }
    if let Some(p) = previous {
        if same_negotiation(p, snapshot) {
            return TradeAction::Wait;
        }
    }
    match mode {
        TradeMode::AdminOverride => TradeAction::Accept { phase: snapshot.phase },
        TradeMode::TakeAll => {
            if snapshot.mine.len() == 0 {
                TradeAction::Accept { phase: snapshot.phase }
            } else {
                TradeAction::Wait
            }
        },
        TradeMode::Normal => {
            if let Some((slot, quantity)) = find_invalid_item(&snapshot.mine, sell) {
                return TradeAction::RemoveItem { slot, quantity, ours: true };
            }
            if let Some((slot, quantity)) = find_invalid_item(&snapshot.theirs, buy) {
                return TradeAction::RemoveItem { slot, quantity, ours: false };
            }
            let my_value = value_of_offer(&snapshot.mine, sell, buy, i32::MIN);
            let their_value = value_of_offer(&snapshot.theirs, buy, sell, 0);
            balance(snapshot, my_value, their_value)
        },
    }
}

} // verus!
