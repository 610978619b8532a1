//! Coin denominations and what each is worth.

use vstd::prelude::*;
use vstd::string::StringExecFns;

verus! {

/// The state whose design a quarter carries.
#[derive(Clone, Copy, Debug, PartialEq, Eq)]
pub enum UsState {
    Alabama,
    Alaska,
}

/// A coin: exactly one of four denominations. Only a quarter carries
/// anything, the state it was minted for.
#[derive(Clone, Copy, Debug, PartialEq, Eq)]
pub enum Coin {
    Penny,
    Nickel,
    Dime,
    Quarter(UsState),
}

impl UsState {
    /// The state's name as text.
    pub open spec fn name(self) -> Seq<char> {
        match self {
            UsState::Alabama => "Alabama"@,
            UsState::Alaska => "Alaska"@,
        }
    }

    /// The state's name, as written in the variant.
    pub fn as_str(&self) -> (s: &'static str)
        ensures
            s@ == self.name(),
    {
        match self {
            UsState::Alabama => "Alabama",
            UsState::Alaska => "Alaska",
        }
    }
}

impl Coin {
    /// The coin's worth in cents. Every variant has an arm of its own, so
    /// a new denomination is rejected until it is given a value here.
    pub open spec fn cents(self) -> nat {
        match self {
            Coin::Penny => 1,
            Coin::Nickel => 5,
            Coin::Dime => 10,
            Coin::Quarter(_) => 25,
        }
    }

    /// The line that announces a state quarter; other coins have none.
    pub open spec fn notice(self) -> Option<Seq<char>> {
        match self {
            Coin::Penny => None,
            Coin::Nickel => None,
            Coin::Dime => None,
            Coin::Quarter(state) => Some("State quarter from "@ + state.name()),
        }
    }
}

/// Returns the coin's value in cents: 1, 5, 10 or 25. A quarter is worth
/// 25 whichever state it carries.
pub fn value_in_cents(coin: Coin) -> (cents: u32)
    ensures
        cents == coin.cents(),
        coin is Penny ==> cents == 1,
        coin is Nickel ==> cents == 5,
        coin is Dime ==> cents == 10,
        coin is Quarter ==> cents == 25,
{
    match coin {
        Coin::Penny => 1,
        Coin::Nickel => 5,
        Coin::Dime => 10,
        Coin::Quarter(_) => 25,
    }
}

/// The set of denominations is closed: every coin is a penny, a nickel,
/// a dime or a quarter, and is worth 1, 5, 10 or 25 cents accordingly.
/// A further variant would make this fail until it is accounted for.
pub proof fn lemma_denominations_are_closed(coin: Coin)
    ensures
        coin is Penny || coin is Nickel || coin is Dime || coin is Quarter,
        coin is Penny <==> coin.cents() == 1,
        coin is Nickel <==> coin.cents() == 5,
        coin is Dime <==> coin.cents() == 10,
        coin is Quarter <==> coin.cents() == 25,
{
}

/// Returns the line to report for a state quarter, `State quarter from`
/// followed by the state's name, and `None` for every other coin.
pub fn quarter_notice(coin: &Coin) -> (line: Option<String>)
    ensures
        line is Some <==> *coin is Quarter,
        match coin.notice() {
            Some(text) => line is Some && line->0@ == text,
            None => line is None,
        },
{
    match coin {
        Coin::Penny => None,
        Coin::Nickel => None,
        Coin::Dime => None,
        Coin::Quarter(state) => {
            let line = String::from_str("State quarter from ").concat(state.as_str());
            Some(line)
        },
    }
}

} // verus!
