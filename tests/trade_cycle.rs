use trade_bot::item::ItemId;
use trade_bot::prices::PriceList;
use trade_bot::trade::{
    decide, find_invalid_item, item_value, same_negotiation, value_of_offer, CoinStack,
    OfferedItem, TradeAction, TradeMode, TradeSnapshot,
};
use trade_bot::trader::Trader;

fn simple(path: &str) -> ItemId {
    ItemId::Simple(path.to_string())
}

fn offered(slot: u64, quantity: u32, item: ItemId, name: &str) -> OfferedItem {
    OfferedItem { slot, quantity, item, name: name.to_string() }
}

fn coins(slot: u64, quantity: u32) -> OfferedItem {
    offered(slot, quantity, ItemId::coins(), "Coins")
}

fn apple() -> ItemId {
    simple("common.items.food.apple")
}

fn sword() -> ItemId {
    simple("common.items.weapons.sword.iron")
}

fn buy_list() -> PriceList {
    let mut buy = PriceList::new();
    buy.insert(apple(), 50);
    buy
}

fn sell_list() -> PriceList {
    let mut sell = PriceList::new();
    sell.insert(sword(), 100);
    sell
}

fn trader() -> Trader {
    Trader::new(vec!["operator".to_string()], buy_list(), sell_list())
}

fn snapshot(
    phase: u64,
    mine: Vec<OfferedItem>,
    theirs: Vec<OfferedItem>,
    my_coins: Option<CoinStack>,
    their_coins: Option<CoinStack>,
) -> TradeSnapshot {
    TradeSnapshot { phase, mine, theirs, my_coins, their_coins }
}

#[test]
fn adds_my_coins_then_accepts() {
    let mut t = trader();
    let first = snapshot(
        0,
        vec![],
        vec![offered(3, 1, apple(), "Apple")],
        Some(CoinStack { slot: 7, amount: 80 }),
        None,
    );
    assert_eq!(t.handle_trade(first), TradeAction::AddItem { slot: 7, quantity: 50, ours: true });
    let second = snapshot(
        0,
        vec![coins(7, 50)],
        vec![offered(3, 1, apple(), "Apple")],
        Some(CoinStack { slot: 7, amount: 80 }),
        None,
    );
    assert_eq!(t.handle_trade(second), TradeAction::Accept { phase: 0 });
}

#[test]
fn removes_unpriced_item_of_theirs() {
    let mut t = trader();
    let s = snapshot(
        0,
        vec![],
        vec![offered(4, 6, simple("common.items.crafting_ing.stones"), "Stones")],
        None,
        None,
    );
    assert_eq!(t.handle_trade(s), TradeAction::RemoveItem { slot: 4, quantity: 6, ours: false });
    assert!(t.previous.is_none());
}

#[test]
fn equal_values_accepted_with_receipt() {
    let mut t = trader();
    let s = snapshot(
        2,
        vec![offered(1, 1, sword(), "Iron Sword")],
        vec![offered(5, 2, apple(), "Apple")],
        None,
        None,
    );
    assert_eq!(t.handle_trade(s), TradeAction::Accept { phase: 2 });
    let receipt = t.receipt.as_ref().expect("receipt recorded");
    assert_eq!(receipt.my_items.get(&"Iron Sword".to_string()), Some(1));
    assert_eq!(receipt.their_items.get(&"Apple".to_string()), Some(2));
    assert_eq!(receipt.my_items.len(), 1);
    assert_eq!(receipt.their_items.len(), 1);
}

#[test]
fn shortfall_quotes_my_value_and_their_coins() {
    let mut t = trader();
    let s = snapshot(
        0,
        vec![offered(1, 1, sword(), "Iron Sword")],
        vec![coins(9, 40)],
        None,
        Some(CoinStack { slot: 9, amount: 40 }),
    );
    assert_eq!(
        t.handle_trade(s),
        TradeAction::InsufficientFunds { offer_value: 100, coins: 40, my_offer: true }
    );
}

#[test]
fn shortfall_quotes_their_value_and_my_coins() {
    let mut t = trader();
    let s = snapshot(
        0,
        vec![],
        vec![offered(3, 2, apple(), "Apple")],
        Some(CoinStack { slot: 7, amount: 30 }),
        None,
    );
    assert_eq!(
        t.handle_trade(s),
        TradeAction::InsufficientFunds { offer_value: 100, coins: 30, my_offer: false }
    );
}

#[test]
fn identical_snapshot_waits_the_second_time() {
    let mut t = trader();
    let make = || {
        snapshot(
            1,
            vec![offered(1, 1, sword(), "Iron Sword")],
            vec![offered(5, 2, apple(), "Apple")],
            None,
            None,
        )
    };
    assert_eq!(t.handle_trade(make()), TradeAction::Accept { phase: 1 });
    assert_eq!(t.handle_trade(make()), TradeAction::Wait);
}

#[test]
fn unpriced_item_removed_again_when_seen_again() {
    let mut t = trader();
    let make = || snapshot(0, vec![offered(2, 3, apple(), "Apple")], vec![], None, None);
    assert_eq!(t.handle_trade(make()), TradeAction::RemoveItem { slot: 2, quantity: 3, ours: true });
    assert_eq!(t.handle_trade(make()), TradeAction::RemoveItem { slot: 2, quantity: 3, ours: true });
}

#[test]
fn empty_trade_waits() {
    let mut t = trader();
    assert_eq!(t.handle_trade(snapshot(0, vec![], vec![], None, None)), TradeAction::Wait);
}

#[test]
fn my_unpriced_item_removed_before_theirs() {
    let mut t = trader();
    let s = snapshot(
        0,
        vec![offered(2, 3, simple("common.items.food.cheese"), "Cheese")],
        vec![offered(4, 1, simple("common.items.crafting_ing.stones"), "Stones")],
        None,
        None,
    );
    assert_eq!(t.handle_trade(s), TradeAction::RemoveItem { slot: 2, quantity: 3, ours: true });
}

#[test]
fn first_unpriced_item_is_found() {
    let buy = buy_list();
    let lines = vec![
        offered(1, 1, apple(), "Apple"),
        coins(2, 10),
        offered(3, 4, simple("common.items.a"), "A"),
        offered(4, 5, simple("common.items.b"), "B"),
    ];
    assert_eq!(find_invalid_item(&lines, &buy), Some((3, 4)));
    assert_eq!(find_invalid_item(&vec![coins(2, 10)], &buy), None);
}

#[test]
fn their_extra_coins_removed() {
    let mut t = trader();
    let s = snapshot(
        0,
        vec![offered(1, 1, sword(), "Iron Sword")],
        vec![coins(9, 130)],
        None,
        Some(CoinStack { slot: 9, amount: 500 }),
    );
    assert_eq!(t.handle_trade(s), TradeAction::RemoveItem { slot: 9, quantity: 30, ours: false });
}

#[test]
fn my_extra_coins_removed() {
    let mut t = trader();
    let s = snapshot(
        0,
        vec![coins(7, 60)],
        vec![offered(3, 1, apple(), "Apple")],
        Some(CoinStack { slot: 7, amount: 60 }),
        None,
    );
    assert_eq!(t.handle_trade(s), TradeAction::RemoveItem { slot: 7, quantity: 10, ours: true });
}

#[test]
fn their_coins_added_when_they_hold_enough() {
    let mut t = trader();
    let s = snapshot(
        0,
        vec![offered(1, 1, sword(), "Iron Sword")],
        vec![],
        None,
        Some(CoinStack { slot: 9, amount: 100 }),
    );
    assert_eq!(t.handle_trade(s), TradeAction::AddItem { slot: 9, quantity: 100, ours: false });
}

#[test]
fn values_follow_the_price_tables() {
    let buy = buy_list();
    let sell = sell_list();
    assert_eq!(item_value(&ItemId::coins(), &sell, &buy, i32::MIN), 1);
    assert_eq!(item_value(&sword(), &sell, &buy, i32::MIN), 100);
    assert_eq!(item_value(&apple(), &sell, &buy, i32::MIN), -50);
    assert_eq!(item_value(&simple("common.items.x"), &sell, &buy, i32::MIN), i32::MIN);
    assert_eq!(item_value(&sword(), &buy, &sell, 0), -100);
    assert_eq!(item_value(&simple("common.items.x"), &buy, &sell, 0), 0);
}

#[test]
fn offer_values_saturate() {
    let buy = buy_list();
    let sell = sell_list();
    let lines = vec![offered(1, u32::MAX, sword(), "Iron Sword"), coins(2, 5)];
    assert_eq!(value_of_offer(&lines, &sell, &buy, i32::MIN), i32::MAX);
    let lines = vec![offered(1, 3, apple(), "Apple"), coins(2, 5)];
    assert_eq!(value_of_offer(&lines, &buy, &sell, 0), 155);
    let negative = vec![offered(1, u32::MAX, apple(), "Apple")];
    assert_eq!(value_of_offer(&negative, &sell, &buy, i32::MIN), i32::MIN);
}

#[test]
fn admin_override_accepts_anything_offered() {
    let mut t = trader();
    t.grant_admin_access();
    let s = snapshot(
        3,
        vec![offered(2, 3, simple("common.items.food.cheese"), "Cheese")],
        vec![],
        None,
        None,
    );
    let same = snapshot(
        3,
        vec![offered(2, 3, simple("common.items.food.cheese"), "Cheese")],
        vec![],
        None,
        None,
    );
    assert_eq!(t.handle_trade(s), TradeAction::Accept { phase: 3 });
    assert!(t.previous.is_none());
    assert!(t.receipt.is_none());
    assert_eq!(t.handle_trade(same), TradeAction::Accept { phase: 3 });
    assert!(t.previous.is_none());
    assert!(t.receipt.is_none());
    assert_eq!(t.handle_trade(snapshot(3, vec![], vec![], None, None)), TradeAction::Wait);
}

#[test]
fn take_all_accepts_only_with_my_offer_empty() {
    let mut t = trader();
    t.start_take_all();
    let giving = snapshot(0, vec![offered(1, 1, sword(), "Iron Sword")], vec![], None, None);
    assert_eq!(t.handle_trade(giving), TradeAction::Wait);
    let taking = snapshot(1, vec![], vec![offered(3, 1, sword(), "Iron Sword")], None, None);
    assert_eq!(t.handle_trade(taking), TradeAction::Accept { phase: 1 });
}

#[test]
fn decide_compares_with_the_retained_snapshot() {
    let buy = buy_list();
    let sell = sell_list();
    let s = snapshot(0, vec![], vec![offered(3, 1, apple(), "Apple")], None, None);
    let same = snapshot(0, vec![], vec![offered(3, 1, apple(), "Apple")], None, None);
    let other = snapshot(1, vec![], vec![offered(3, 1, apple(), "Apple")], None, None);
    assert!(same_negotiation(&s, &same));
    assert!(!same_negotiation(&s, &other));
    assert_eq!(decide(TradeMode::Normal, &Some(same), &s, &buy, &sell), TradeAction::Wait);
    assert_eq!(
        decide(TradeMode::Normal, &Some(other), &s, &buy, &sell),
        TradeAction::InsufficientFunds { offer_value: 50, coins: 0, my_offer: false }
    );
}
