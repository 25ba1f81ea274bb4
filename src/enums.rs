//! Enums and pattern matching.

use vstd::prelude::*;

verus! {

/// The kind of an IP address.
pub enum IpAddrKind {
    V4,
    V6,
}

/// Routes a packet for an address of kind `ip_kind`; nothing to do yet.
pub fn route(ip_kind: &IpAddrKind) {
}

/// A US coin.
pub enum Coin {
    Penny,
    Nickel,
    Dime,
    Quarter,
}

/// The value of a coin in cents.
pub open spec fn cents(coin: Coin) -> u8 {
    match coin {
        Coin::Penny => 1,
        Coin::Nickel => 5,
        Coin::Dime => 10,
        Coin::Quarter => 25,
    }
}

/// The value of `coin` in cents.
pub fn value_in_cents(coin: Coin) -> (r: u8)
    ensures
        r == cents(coin),
{
    match coin {
        Coin::Penny => 1,
        Coin::Nickel => 5,
        Coin::Dime => 10,
        Coin::Quarter => {
            25
        },
    }
}

/// Adds one to the number that `x` holds, if any.
pub fn inc(x: Option<i32>) -> (r: Option<i32>)
    requires
        x matches Some(i) ==> i < i32::MAX,
    ensures
        x is None ==> r is None,
        x matches Some(i) ==> r == Some((i + 1) as i32),
{
    match x {
        None => None,
        Some(i) => Some(i + 1),
    }
}

/// Names a penny, and calls any other coin "other".
pub fn catch_all_match(coin: Coin) -> (r: String)
    ensures
        coin is Penny ==> r@ == "penny"@,
        !(coin is Penny) ==> r@ == "other"@,
{
    match coin {
        Coin::Penny => "penny".to_owned(),
        other => "other".to_owned(),
    }
}

/// Names a penny and a nickel, and calls any other coin "anything else".
pub fn placeholder_match(coin: Coin) -> (r: String)
    ensures
        coin is Penny ==> r@ == "penny"@,
        coin is Nickel ==> r@ == "nickel"@,
        !(coin is Penny || coin is Nickel) ==> r@ == "anything else"@,
{
    match coin {
        Coin::Penny => "penny".to_owned(),
        Coin::Nickel => "nickel".to_owned(),
        _ => "anything else".to_owned(),
    }
}

} // verus!
