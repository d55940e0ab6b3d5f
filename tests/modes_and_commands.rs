use trade_bot::commands::{parse_command, Command, CommandReply, InvalidNumber, Usage};
use trade_bot::prices::PriceList;
use trade_bot::trade::{OfferedItem, TradeMode, TradeSnapshot};
use trade_bot::item::ItemId;
use trade_bot::trader::Trader;

fn trader() -> Trader {
    Trader::new(
        vec!["operator".to_string(), "0a1b-uuid".to_string()],
        PriceList::new(),
        PriceList::new(),
    )
}

#[test]
fn commands_are_parsed_by_their_first_word() {
    assert!(matches!(parse_command("admin_access"), Command::AdminAccess));
    assert!(matches!(parse_command("announce"), Command::Announce));
    assert!(matches!(parse_command("location"), Command::Location));
    assert!(matches!(parse_command("take"), Command::TakeAll));
    assert!(matches!(parse_command("hello there"), Command::Unknown));
    assert!(matches!(parse_command(""), Command::Unknown));
    match parse_command("ori 90") {
        Command::Orientation { heading: Some(h) } => assert_eq!(h, "90"),
        _ => panic!("expected a heading"),
    }
    assert!(matches!(parse_command("ori"), Command::Orientation { heading: None }));
    match parse_command("pos 1 2.5 -3") {
        Command::Position { coordinates: Some((x, y, z)) } => {
            assert_eq!((x.as_str(), y.as_str(), z.as_str()), ("1", "2.5", "-3"))
        }
        _ => panic!("expected coordinates"),
    }
    assert!(matches!(parse_command("pos 1 2"), Command::Position { coordinates: None }));
    match parse_command("price apple  sword") {
        Command::Price { terms } => assert_eq!(terms, vec!["apple", "", "sword"]),
        _ => panic!("expected terms"),
    }
    match parse_command("sort 3") {
        Command::Sort { count: Some(c) } => assert_eq!(c, "3"),
        _ => panic!("expected a count"),
    }
}

#[test]
fn operators_are_recognised_by_name_or_account() {
    let t = trader();
    assert!(t.is_user_admin(&"operator".to_string(), Some(&"ffff".to_string())));
    assert!(t.is_user_admin(&"operator".to_string(), None));
    assert!(t.is_user_admin(&"someone".to_string(), Some(&"0a1b-uuid".to_string())));
    assert!(!t.is_user_admin(&"someone".to_string(), Some(&"ffff".to_string())));
    assert!(!t.is_user_admin(&"someone".to_string(), None));
}

#[test]
fn privileged_commands_need_an_operator() {
    let mut t = trader();
    let refused = Ok(CommandReply::Correction { usage: Usage::Price });
    for text in
        ["admin_access", "announce", "location", "ori 10", "pos 1 2 3", "sort 2", "take", "bogus"]
    {
        assert_eq!(t.handle_command(&parse_command(text), false, false), refused);
    }
    assert_eq!(t.mode, TradeMode::Normal);
    assert_eq!(t.sort_count, 0);
    assert_eq!(
        t.handle_command(&parse_command("price apple"), false, false),
        Ok(CommandReply::Prices)
    );
    assert_eq!(
        t.handle_command(&parse_command("location"), true, true),
        Ok(CommandReply::Location)
    );
}

#[test]
fn operator_commands_take_effect() {
    let mut t = trader();
    assert_eq!(
        t.handle_command(&parse_command("admin_access"), true, true),
        Ok(CommandReply::GrantAccess { decline_open_trade: true })
    );
    assert_eq!(t.mode, TradeMode::AdminOverride);
    assert_eq!(t.handle_command(&parse_command("take"), true, false), Ok(CommandReply::ModeActive));
    assert_eq!(
        t.handle_command(&parse_command("admin_access"), true, false),
        Ok(CommandReply::ModeActive)
    );
    assert_eq!(t.mode, TradeMode::AdminOverride);
    assert!(t.trade_finished());
    assert_eq!(t.mode, TradeMode::Normal);
    assert_eq!(
        t.handle_command(&parse_command("ori"), true, false),
        Ok(CommandReply::Correction { usage: Usage::Orientation })
    );
    assert_eq!(t.handle_command(&parse_command("ori 45"), true, false), Ok(CommandReply::Orient));
    assert_eq!(
        t.handle_command(&parse_command("pos 1"), true, false),
        Ok(CommandReply::Correction { usage: Usage::Position })
    );
    assert_eq!(t.handle_command(&parse_command("pos 1 2 3"), true, false), Ok(CommandReply::Move));
    assert_eq!(t.handle_command(&parse_command("sort"), true, false), Ok(CommandReply::SortOnce));
    assert_eq!(
        t.handle_command(&parse_command("sort 2"), true, false),
        Ok(CommandReply::SortRepeatedly { count: 2 })
    );
    assert_eq!(t.sort_count, 2);
    assert!(t.next_sort());
    assert!(t.next_sort());
    assert!(!t.next_sort());
    assert_eq!(t.handle_command(&parse_command("sort 256"), true, false), Err(InvalidNumber));
    assert_eq!(t.handle_command(&parse_command("sort x"), true, false), Err(InvalidNumber));
    assert_eq!(t.sort_count, 0);
    assert_eq!(t.handle_command(&parse_command("take"), true, true), Ok(CommandReply::TradeOpen));
    assert_eq!(t.mode, TradeMode::Normal);
    assert_eq!(t.handle_command(&parse_command("take"), true, false), Ok(CommandReply::TakeAll));
    assert_eq!(t.mode, TradeMode::TakeAll);
    assert_eq!(
        t.handle_command(&parse_command("admin_access"), true, false),
        Ok(CommandReply::ModeActive)
    );
    assert_eq!(t.mode, TradeMode::TakeAll);
}

#[test]
fn usage_texts() {
    assert_eq!(Usage::Price.text(), "Use the format 'price [search_term]'");
    assert_eq!(Usage::Orientation.text(), "Use the format 'ori [0-360]'");
    assert_eq!(Usage::Position.text(), "Use the format 'pos [x] [y] [z]'.");
}

#[test]
fn special_modes_fall_back_when_idle() {
    let mut t = trader();
    assert!(t.idle(false));
    t.grant_admin_access();
    assert!(!t.idle(true));
    assert_eq!(t.mode, TradeMode::AdminOverride);
    assert!(!t.idle(false));
    assert_eq!(t.mode, TradeMode::Normal);
    t.start_take_all();
    assert!(!t.idle(false));
    assert_eq!(t.mode, TradeMode::Normal);
}

#[test]
fn granting_access_forgets_the_last_trade() {
    let mut t = trader();
    let s = TradeSnapshot {
        phase: 0,
        mine: vec![],
        theirs: vec![OfferedItem {
            slot: 1,
            quantity: 1,
            item: ItemId::coins(),
            name: "Coins".to_string(),
        }],
        my_coins: None,
        their_coins: None,
    };
    t.handle_trade(s);
    assert!(t.previous.is_some());
    assert!(t.receipt.is_none());
    t.grant_admin_access();
    assert!(t.previous.is_none());
    assert!(t.receipt.is_none());
}
