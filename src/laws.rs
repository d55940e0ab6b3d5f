//! Properties of the trade cycle that hold for every snapshot.

use crate::item::ItemKey;
use crate::trade::{
    coin_amount, cycle_action, first_unpriced, is_empty_trade, my_offer_value, negotiation_of,
    offers_coins, retained_after, their_offer_value, Negotiation, SnapshotView, TradeAction,
    TradeMode,
};
use crate::trader::audit_clean;
use vstd::prelude::*;

verus! {

/// A changed trade whose offers pass the audit and are worth the same is
/// accepted in the first cycle that sees it, with no removal or addition
/// before it; the cycle retains it, and the cycles that see it again do
/// nothing: it is accepted exactly once. This holds in normal mode, and in
/// take-everything mode while my offer is empty. An operator's override
/// accepts in every cycle, and take-everything never accepts while my offer
/// holds anything.
pub proof fn balanced_trade_accepted_once(
    mode: TradeMode,
    previous: Option<Negotiation>,
    s: SnapshotView,
    buy: Map<ItemKey, u32>,
    sell: Map<ItemKey, u32>,
)
    requires
        !is_empty_trade(s),
        previous != Some(negotiation_of(s)),
        first_unpriced(s.mine, sell) is None,
        first_unpriced(s.theirs, buy) is None,
        my_offer_value(s, buy, sell) == their_offer_value(s, buy, sell),
        mode != TradeMode::AdminOverride,
        mode == TradeMode::TakeAll ==> s.mine.len() == 0,
    ensures
        cycle_action(mode, previous, s, buy, sell) == (TradeAction::Accept { phase: s.phase }),
        retained_after(mode, previous, s, buy, sell) == Some(negotiation_of(s)),
        cycle_action(mode, retained_after(mode, previous, s, buy, sell), s, buy, sell)
            == TradeAction::Wait,
{
}

/// A snapshot seen in two cycles in a row makes the second cycle wait, except
/// where the first cycle removed a stack that the audit rejects (that cycle
/// does not retain the snapshot, so the removal is asked for again), and
/// except under an operator's override, which retains nothing and accepts
/// every non-empty trade.
pub proof fn repeated_snapshot_waits(
    mode: TradeMode,
    previous: Option<Negotiation>,
    s: SnapshotView,
    buy: Map<ItemKey, u32>,
    sell: Map<ItemKey, u32>,
)
    requires
        !(mode == TradeMode::Normal && !is_empty_trade(s) && previous != Some(negotiation_of(s))
            && (first_unpriced(s.mine, sell) is Some || first_unpriced(s.theirs, buy) is Some)),
        !(mode == TradeMode::AdminOverride && !is_empty_trade(s)),
    ensures
        cycle_action(mode, retained_after(mode, previous, s, buy, sell), s, buy, sell)
            == TradeAction::Wait,
{
}

/// Where either offer holds a stack that is neither coins nor priced for its
/// side, the cycle's one action is the removal of all of such a stack, mine
/// first, whatever the offers are worth, and the snapshot is not retained.
/// The audit runs in normal mode only: an operator's override and
/// take-everything skip it.
pub proof fn unpriced_item_removed_first(
    mode: TradeMode,
    previous: Option<Negotiation>,
    s: SnapshotView,
    buy: Map<ItemKey, u32>,
    sell: Map<ItemKey, u32>,
)
    requires
        mode == TradeMode::Normal,
        audit_clean(previous, buy, sell),
        first_unpriced(s.mine, sell) is Some || first_unpriced(s.theirs, buy) is Some,
    ensures
        first_unpriced(s.mine, sell) matches Some(line) ==> cycle_action(
            mode,
            previous,
            s,
            buy,
            sell,
        ) == (TradeAction::RemoveItem { slot: line.slot, quantity: line.quantity, ours: true }),
        first_unpriced(s.mine, sell) is None ==> (first_unpriced(s.theirs, buy) matches Some(
            line,
        ) && cycle_action(mode, previous, s, buy, sell) == (TradeAction::RemoveItem {
            slot: line.slot,
            quantity: line.quantity,
            ours: false,
        })),
        retained_after(mode, previous, s, buy, sell) == previous,
{
    assert(!is_empty_trade(s)) by {
        if s.mine.len() == 0 && s.theirs.len() == 0 {
            assert(first_unpriced(s.mine, sell) is None);
            assert(first_unpriced(s.theirs, buy) is None);
        }
    }
}

/// Coins are only ever added from the coin stack of the side that gives them,
/// and never more than that stack holds.
pub proof fn coins_added_within_stock(
    mode: TradeMode,
    previous: Option<Negotiation>,
    s: SnapshotView,
    buy: Map<ItemKey, u32>,
    sell: Map<ItemKey, u32>,
)
    ensures
        cycle_action(mode, previous, s, buy, sell) matches TradeAction::AddItem {
            slot,
            quantity,
            ours,
        } ==> if ours {
            s.my_coins matches Some(c) && c.slot == slot && quantity <= c.amount
        } else {
            s.their_coins matches Some(c) && c.slot == slot && quantity <= c.amount
        },
{
}

/// Where the poorer side of a changed, audited trade offers no coins and its
/// owner holds fewer coins than the difference, the cycle reports the
/// shortfall, quoting the richer offer's value and those coins. Coins balance
/// trades in normal mode only: the other modes never value a trade.
pub proof fn shortfall_reported(
    mode: TradeMode,
    previous: Option<Negotiation>,
    s: SnapshotView,
    buy: Map<ItemKey, u32>,
    sell: Map<ItemKey, u32>,
)
    requires
        mode == TradeMode::Normal,
        !is_empty_trade(s),
        previous != Some(negotiation_of(s)),
        first_unpriced(s.mine, sell) is None,
        first_unpriced(s.theirs, buy) is None,
    ensures
        ({
            let mine = my_offer_value(s, buy, sell);
            let theirs = their_offer_value(s, buy, sell);
            &&& theirs > mine && !offers_coins(s.theirs) && coin_amount(s.my_coins) < theirs - mine
                ==> cycle_action(mode, previous, s, buy, sell)
                == (TradeAction::InsufficientFunds {
                offer_value: theirs as i32,
                coins: coin_amount(s.my_coins) as u32,
                my_offer: false,
            })
            &&& mine > theirs && !offers_coins(s.mine) && coin_amount(s.their_coins) < mine - theirs
                ==> cycle_action(mode, previous, s, buy, sell)
                == (TradeAction::InsufficientFunds {
                offer_value: mine as i32,
                coins: coin_amount(s.their_coins) as u32,
                my_offer: true,
            })
        }),
{
}

/// Under an operator's override the cycle never removes or adds anything: it
/// accepts or waits. Taking everything never accepts while my offer holds
/// anything, and never removes or adds either.
pub proof fn special_modes_skip_valuation(
    previous: Option<Negotiation>,
    s: SnapshotView,
    buy: Map<ItemKey, u32>,
    sell: Map<ItemKey, u32>,
)
    ensures
        cycle_action(TradeMode::AdminOverride, previous, s, buy, sell) is Wait || cycle_action(
            TradeMode::AdminOverride,
            previous,
            s,
            buy,
            sell,
        ) is Accept,
        cycle_action(TradeMode::TakeAll, previous, s, buy, sell) is Wait || cycle_action(
            TradeMode::TakeAll,
            previous,
            s,
            buy,
            sell,
        ) is Accept,
        cycle_action(TradeMode::TakeAll, previous, s, buy, sell) is Accept ==> s.mine.len() == 0,
{
}

} // verus!
