//! The texts that the trader sends to players.

use vstd::prelude::*;

verus! {

/// The character of a decimal digit.
pub open spec fn digit_char(d: nat) -> char {
    if d == 0 {
        '0'
    } else if d == 1 {
        '1'
    } else if d == 2 {
        '2'
    } else if d == 3 {
        '3'
    } else if d == 4 {
        '4'
    } else if d == 5 {
        '5'
    } else if d == 6 {
        '6'
    } else if d == 7 {
        '7'
    } else if d == 8 {
        '8'
    } else {
        '9'
    }
}

/// `n` in decimal, without leading zeros.
pub open spec fn decimal(n: nat) -> Seq<char>
    decreases n,
{
    if n < 10 {
        seq![digit_char(n)]
    } else {
        decimal(n / 10).push(digit_char(n % 10))
    }
}

/// `v` in decimal, with a leading `-` where it is negative.
pub open spec fn signed_decimal(v: int) -> Seq<char> {
    if v < 0 {
        seq!['-'] + decimal((-v) as nat)
    } else {
        decimal(v as nat)
    }
}

fn digit_text(d: u64) -> (r: &'static str)
    requires
        d < 10,
    ensures
        r@ == seq![digit_char(d as nat)],
{
    proof {
        reveal_strlit("0");
        reveal_strlit("1");
        reveal_strlit("2");
        reveal_strlit("3");
        reveal_strlit("4");
        reveal_strlit("5");
        reveal_strlit("6");
        reveal_strlit("7");
        reveal_strlit("8");
        reveal_strlit("9");
    }
    let r = match d {
        0 => "0",
        1 => "1",
        2 => "2",
        3 => "3",
        4 => "4",
        5 => "5",
        6 => "6",
        7 => "7",
        8 => "8",
        _ => "9",
    };
    assert(r@ =~= seq![digit_char(d as nat)]);
    r
}

/// `n` in decimal.
pub fn decimal_text(n: u64) -> (r: String)
    ensures
        r@ == decimal(n as nat),
    decreases n,
{
    if n < 10 {
        String::from_str(digit_text(n))
    } else {
        let mut s = decimal_text(n / 10);
        s.append(digit_text(n % 10));
        assert(s@ =~= decimal(n as nat));
        s
    }
}

/// `v` in decimal, signed.
pub fn signed_decimal_text(v: i32) -> (r: String)
    ensures
        r@ == signed_decimal(v as int),
{
    if v < 0 {
        let magnitude = (-(v as i64)) as u64;
        proof {
            reveal_strlit("-");
        }
        String::from_str("-").concat(decimal_text(magnitude).as_str())
    } else {
        decimal_text(v as u64)
    }
}

/// The text that tells the other party that coins cannot balance the trade.
pub open spec fn shortfall_text(offer_value: int, coins: nat, my_offer: bool) -> Seq<char> {
    if my_offer {
        "The value of my offer is "@ + signed_decimal(offer_value) + " coins. You only have "@
            + decimal(coins) + " coins."@
    } else {
        "The value of your offer is "@ + signed_decimal(offer_value) + " coins. I only have "@
            + decimal(coins) + " coins."@
    }
}

/// Tells the other party that coins cannot balance the trade: the value of
/// the larger offer (mine where `my_offer`) and the coins that the other side
/// holds.
pub fn shortfall_message(offer_value: i32, coins: u32, my_offer: bool) -> (r: String)
    ensures
        r@ == shortfall_text(offer_value as int, coins as nat, my_offer),
{
    let value = signed_decimal_text(offer_value);
    let held = decimal_text(coins as u64);
    if my_offer {
        String::from_str("The value of my offer is ").concat(value.as_str()).concat(
            " coins. You only have ",
        ).concat(held.as_str()).concat(" coins.")
    } else {
        String::from_str("The value of your offer is ").concat(value.as_str()).concat(
            " coins. I only have ",
        ).concat(held.as_str()).concat(" coins.")
    }
}

/// Said in the region when a trade completes.
pub const THANKS: &'static str = "Thank you for trading with me!";

/// No price matches a search term.
pub fn no_price_message(term: &str) -> (r: String)
    ensures
        r@ == "I don't have a price for "@ + term@ + "."@,
{
    String::from_str("I don't have a price for ").concat(term).concat(".")
}

/// Too many prices match a search term.
pub fn too_many_prices_message(term: &str, count: u64) -> (r: String)
    ensures
        r@ == "I found "@ + decimal(count as nat) + " prices for "@ + term@
            + ". Please be more specific."@,
{
    String::from_str("I found ").concat(decimal_text(count).as_str()).concat(
        " prices for ",
    ).concat(term).concat(". Please be more specific.")
}

/// The price at which the trader buys an item.
pub fn buying_message(name: &str, price: u32) -> (r: String)
    ensures
        r@ == "Buying "@ + name@ + " for "@ + decimal(price as nat) + " coins."@,
{
    String::from_str("Buying ").concat(name).concat(" for ").concat(
        decimal_text(price as u64).as_str(),
    ).concat(" coins.")
}

/// The price at which the trader sells an item, and its stock.
pub fn selling_message(name: &str, price: u32, stock: u32) -> (r: String)
    ensures
        r@ == "Selling "@ + name@ + " for "@ + decimal(price as nat) + " coins. I have "@
            + decimal(stock as nat) + " in stock."@,
{
    String::from_str("Selling ").concat(name).concat(" for ").concat(
        decimal_text(price as u64).as_str(),
    ).concat(" coins. I have ").concat(decimal_text(stock as u64).as_str()).concat(" in stock.")
}

} // verus!
