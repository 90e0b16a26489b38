//! Plain-value forms of the host chain's payment data: a coin is an amount of
//! one denomination, and a payment carries the funds attached to the
//! triggering transaction.

use vstd::prelude::*;

verus! {

broadcast use vstd::string::to_string_from_display_ensures_for_str;

/// An amount of a single denomination.
#[derive(Clone, Debug, PartialEq, Eq)]
pub struct Coin {
    pub denom: String,
    pub amount: u128,
}

/// Builds the one-element coin list that every instruction of this library
/// carries.
pub fn coins(amount: u128, denom: &str) -> (v: Vec<Coin>)
    ensures
        v@.len() == 1,
        v@[0].amount == amount,
        v@[0].denom@ == denom@,
{
    let coin = Coin { denom: denom.to_string(), amount };
    let mut v: Vec<Coin> = Vec::new();
    v.push(coin);
    v
}

/// The funds attached to the transaction that triggered the current call,
/// together with the caller's identity. The host validates these before the
/// library sees them.
#[derive(Clone, Debug, PartialEq, Eq)]
pub struct PaymentInfo {
    pub sender: String,
    pub funds: Vec<Coin>,
}

} // verus!
