//! Coins and their values, and small mappings over `Option` and `u8`.

use vstd::prelude::*;

verus! {

/// A US state that a quarter can come from.
#[derive(Clone, Copy, Debug, PartialEq, Eq, Structural)]
pub enum UsState {
    Alabama,
    Alaska,
}

/// A US coin; a quarter carries the state on its reverse.
#[derive(Clone, Copy, Debug, PartialEq, Eq, Structural)]
pub enum Coin {
    Penny,
    Nickel,
    Dime,
    Quarter(UsState),
}

/// The value of a coin in cents.
pub open spec fn cents(coin: Coin) -> nat {
    match coin {
        Coin::Penny => 1,
        Coin::Nickel => 5,
        Coin::Dime => 10,
        Coin::Quarter(_) => 25,
    }
}

/// The value of `coin` in cents.
pub fn value_in_cents(coin: Coin) -> (r: u32)
    ensures
        r == cents(coin),
{
    match coin {
        Coin::Penny => 1,
        Coin::Nickel => 5,
        Coin::Dime => 10,
        Coin::Quarter(_) => 25,
    }
}

/// The name of a coin's kind.
pub open spec fn coin_kind(coin: Coin) -> Seq<char> {
    match coin {
        Coin::Penny => "Penny"@,
        Coin::Nickel => "Nickel"@,
        Coin::Dime => "Dime"@,
        Coin::Quarter(_) => "Quarter"@,
    }
}

/// The name of the kind of `coin`: `Penny`, `Nickel`, `Dime` or `Quarter`.
pub fn coin_name(coin: Coin) -> (r: &'static str)
    ensures
        r@ == coin_kind(coin),
{
    match coin {
        Coin::Penny => "Penny",
        Coin::Nickel => "Nickel",
        Coin::Dime => "Dime",
        Coin::Quarter(_) => "Quarter",
    }
}

/// The state a quarter comes from; other coins have none.
pub fn quarter_state(coin: Coin) -> (r: Option<UsState>)
    ensures
        r == (match coin {
            Coin::Quarter(state) => Some(state),
            _ => None,
        }),
{
    match coin {
        Coin::Quarter(state) => Some(state),
        _ => None,
    }
}

/// One more than the value held, if any: `None` stays `None`.
pub fn option_plus_one(x: Option<i32>) -> (r: Option<i32>)
    requires
        x matches Some(i) ==> i < i32::MAX,
    ensures
        r == (match x {
            Some(i) => Some((i + 1) as i32),
            None => None,
        }),
{
    match x {
        None => None,
        Some(i) => Some(i + 1),
    }
}

/// `x` plus the value that `y` holds.
pub fn add_unwrapped(x: i32, y: Option<i32>) -> (r: i32)
    requires
        y is Some,
        i32::MIN <= x + y->0 <= i32::MAX,
    ensures
        r == x + y->0,
{
    x + y.unwrap()
}

/// The word for an odd digit below ten other than nine: `one`, `three`,
/// `five` or `seven`; no word for any other value.
pub open spec fn small_odd_word(n: u8) -> Option<Seq<char>> {
    if n == 1 {
        Some("one"@)
    } else if n == 3 {
        Some("three"@)
    } else if n == 5 {
        Some("five"@)
    } else if n == 7 {
        Some("seven"@)
    } else {
        None
    }
}

/// The word for `n` when it is 1, 3, 5 or 7; `None` for every other value.
pub fn number_word(n: u8) -> (r: Option<&'static str>)
    ensures
        r.is_some() == small_odd_word(n).is_some(),
        r matches Some(w) ==> small_odd_word(n) == Some(w@),
{
    match n {
        1 => Some("one"),
        3 => Some("three"),
        5 => Some("five"),
        7 => Some("seven"),
        _ => None,
    }
}

} // verus!
