use trade_bot::config::{parse_price_key, InvalidKey, PriceListVisitor, Secrets};
use trade_bot::item::ItemId;
use trade_bot::messages::{
    buying_message, decimal_text, no_price_message, selling_message, shortfall_message,
    too_many_prices_message,
};
use trade_bot::schedule::Schedule;
use trade_bot::pricing::{matches_lowered, search_prices, PriceEntry, PriceReply};
use trade_bot::text::{contains_text, parse_u8, split_first, split_text};

fn entry(item: ItemId, name: &str, price: u32, stock: u32) -> PriceEntry {
    PriceEntry { item, name: name.to_string(), price, stock }
}

#[test]
fn simple_keys_get_the_item_prefix() {
    assert_eq!(
        parse_price_key("food.apple"),
        Some(ItemId::Simple("common.items.food.apple".to_string()))
    );
}

#[test]
fn modular_keys_name_three_components() {
    assert_eq!(
        parse_price_key("mineral.ingot.iron|sword.long|sword.long_damaged"),
        Some(ItemId::Modular {
            material: "common.items.mineral.ingot.iron".to_string(),
            primary: "common.items.modular.weapon.primary.sword.long".to_string(),
            secondary: "common.items.modular.weapon.secondary.sword.long_damaged".to_string(),
        })
    );
    assert_eq!(
        parse_price_key("a|b|c|d"),
        Some(ItemId::Modular {
            material: "common.items.a".to_string(),
            primary: "common.items.modular.weapon.primary.b".to_string(),
            secondary: "common.items.modular.weapon.secondary.c|d".to_string(),
        })
    );
}

#[test]
fn keys_with_two_parts_are_refused() {
    assert_eq!(parse_price_key("a|b"), None);
}

#[test]
fn visitor_builds_the_price_list() {
    let entries = vec![
        ("food.apple".to_string(), 5),
        ("a|b|c".to_string(), 700),
        ("food.apple".to_string(), 6),
    ];
    let list = PriceListVisitor.visit_entries(&entries).ok().expect("valid keys");
    assert_eq!(list.get(&ItemId::Simple("common.items.food.apple".to_string())), Some(6));
    assert!(list.contains_key(&ItemId::Modular {
        material: "common.items.a".to_string(),
        primary: "common.items.modular.weapon.primary.b".to_string(),
        secondary: "common.items.modular.weapon.secondary.c".to_string(),
    }));
    assert_eq!(list.entries().len(), 2);
    let bad = vec![("food.apple".to_string(), 5), ("x|y".to_string(), 1)];
    assert_eq!(PriceListVisitor.visit_entries(&bad).err(), Some(InvalidKey));
    assert_eq!(
        PriceListVisitor.expecting(),
        "a map with simple and/or modular keys: material|primary|secondary"
    );
}

#[test]
fn secrets_hold_the_operators() {
    let secrets = Secrets {
        username: "bot".to_string(),
        password: "SECRET-REDACTED".to_string(),
        character: "Trader".to_string(),
        admins: vec!["operator".to_string()],
    };
    assert_eq!(secrets.admins.len(), 1);
}

#[test]
fn text_is_split_at_every_separator() {
    assert_eq!(split_text("a b  c", ' '), vec!["a", "b", "", "c"]);
    assert_eq!(split_text("", ' '), vec![""]);
    assert_eq!(split_text("héllo wörld", ' '), vec!["héllo", "wörld"]);
    assert_eq!(split_first("x|y|z", '|'), Some(("x".to_string(), "y|z".to_string())));
    assert_eq!(split_first("xyz", '|'), None);
}

#[test]
fn substrings_are_found() {
    assert!(contains_text("iron sword", "n sw"));
    assert!(contains_text("iron sword", ""));
    assert!(!contains_text("iron", "iron sword"));
    assert!(!contains_text("iron sword", "swords"));
}

#[test]
fn small_numbers_parse() {
    assert_eq!(parse_u8("0"), Some(0));
    assert_eq!(parse_u8("+17"), Some(17));
    assert_eq!(parse_u8("255"), Some(255));
    assert_eq!(parse_u8("00255"), Some(255));
    assert_eq!(parse_u8("256"), None);
    assert_eq!(parse_u8("99999999999"), None);
    assert_eq!(parse_u8(""), None);
    assert_eq!(parse_u8("+"), None);
    assert_eq!(parse_u8("-1"), None);
    assert_eq!(parse_u8("1a"), None);
}

#[test]
fn lowered_terms_match_names_or_paths() {
    assert!(matches_lowered("apple", "red apple", None));
    assert!(matches_lowered("food", "red apple", Some("common.items.food.apple")));
    assert!(!matches_lowered("food", "red apple", None));
}

#[test]
fn price_search_ignores_case() {
    let buying = vec![entry(ItemId::Simple("common.items.food.apple".to_string()), "Apple", 5, 0)];
    let selling = vec![
        entry(ItemId::Simple("common.items.weapons.sword".to_string()), "Iron Sword", 100, 3),
        entry(ItemId::Simple("common.items.food.cheese".to_string()), "Cheese", 8, 10),
    ];
    match search_prices("APPLE", &buying, &selling) {
        PriceReply::Found { buying: b, selling: s } => {
            assert_eq!(b, vec![0]);
            assert!(s.is_empty());
        }
        _ => panic!("expected a match"),
    }
    match search_prices("FOOD", &buying, &selling) {
        PriceReply::Found { buying: b, selling: s } => {
            assert_eq!(b, vec![0]);
            assert_eq!(s, vec![1]);
        }
        _ => panic!("expected matches"),
    }
    assert!(matches!(search_prices("dragon", &buying, &selling), PriceReply::NotFound));
}

#[test]
fn price_search_refuses_more_than_ten() {
    let many: Vec<PriceEntry> = (0..11)
        .map(|i| entry(ItemId::Simple(format!("common.items.gem{i}")), "Gem", 1, 1))
        .collect();
    assert!(matches!(
        search_prices("gem", &many, &vec![]),
        PriceReply::TooMany { count: 11 }
    ));
    let ten: Vec<PriceEntry> = many.into_iter().take(10).collect();
    match search_prices("gem", &ten, &vec![]) {
        PriceReply::Found { buying: b, .. } => assert_eq!(b.len(), 10),
        _ => panic!("expected ten matches"),
    }
}

#[test]
fn shortfall_messages_quote_value_and_coins() {
    assert_eq!(
        shortfall_message(100, 40, true),
        "The value of my offer is 100 coins. You only have 40 coins."
    );
    assert_eq!(
        shortfall_message(-7, 0, false),
        "The value of your offer is -7 coins. I only have 0 coins."
    );
    assert_eq!(
        shortfall_message(i32::MIN, u32::MAX, false),
        "The value of your offer is -2147483648 coins. I only have 4294967295 coins."
    );
}

#[test]
fn price_messages() {
    assert_eq!(no_price_message("gem"), "I don't have a price for gem.");
    assert_eq!(
        too_many_prices_message("gem", 11),
        "I found 11 prices for gem. Please be more specific."
    );
    assert_eq!(buying_message("Apple", 5), "Buying Apple for 5 coins.");
    assert_eq!(
        selling_message("Iron Sword", 100, 3),
        "Selling Iron Sword for 100 coins. I have 3 in stock."
    );
    assert_eq!(decimal_text(0), "0");
    assert_eq!(decimal_text(1090), "1090");
}

#[test]
fn schedule_waits_for_the_delays() {
    let mut schedule = Schedule::new(1000);
    assert!(!schedule.trade_action_due(1300));
    assert!(schedule.trade_action_due(1301));
    assert!(!schedule.trade_action_due(500));
    schedule.trade_action_done(1301);
    assert!(!schedule.trade_action_due(1500));
    assert!(!schedule.announcement_due(1000 + 2_700_000));
    assert!(schedule.announcement_due(1001 + 2_700_000));
    schedule.announcement_done(5_000_000);
    assert!(!schedule.announcement_due(5_000_001));
}
