//! Payment extraction: the attached funds are reduced to the amount paid in a
//! required denomination, or to the reason they cannot be.

use vstd::prelude::*;

use crate::coin::Coin;
use crate::coin::PaymentInfo;

verus! {

/// Why the attached funds hold no usable payment. Mirrors the payment error
/// taxonomy of the host utility that extracts the funds.
#[derive(Clone, Debug, PartialEq, Eq)]
pub enum PaymentError {
    MissingDenom(String),
    ExtraDenom(String),
    MultipleDenoms,
    NoFunds,
    NonPayable,
}

/// No funds were attached at all: either the list is empty, or its one entry
/// carries a zero amount.
pub open spec fn no_funds_attached(funds: Seq<Coin>) -> bool {
    funds.len() == 0 || (funds.len() == 1 && funds[0].amount == 0)
}

/// Exactly one coin with a nonzero amount is attached.
pub open spec fn single_nonzero_coin(funds: Seq<Coin>) -> bool {
    funds.len() == 1 && funds[0].amount > 0
}

/// Exactly one nonzero coin is attached and it is of the demanded
/// denomination: the shape on which payment extraction succeeds.
pub open spec fn pays_in_denom(funds: Seq<Coin>, denom: Seq<char>) -> bool {
    single_nonzero_coin(funds) && funds[0].denom@ == denom
}

/// The amount of the first attached coin.
pub open spec fn first_amount(funds: Seq<Coin>) -> u128 {
    funds[0].amount
}

/// Exactly one nonzero coin is attached but of another denomination.
pub open spec fn pays_in_other_denom(funds: Seq<Coin>, denom: Seq<char>) -> bool {
    single_nonzero_coin(funds) && funds[0].denom@ != denom
}

/// The exact outcome of payment extraction on the given funds: the amount of
/// the one attached coin when it is nonzero and of the demanded denomination,
/// and the matching error for every other shape of the funds.
pub open spec fn must_pay_result(funds: Seq<Coin>, denom: Seq<char>, r: Result<u128, PaymentError>) -> bool {
    &&& no_funds_attached(funds) ==> (r matches Err(PaymentError::NoFunds))
    &&& funds.len() > 1 ==> (r matches Err(PaymentError::MultipleDenoms))
    &&& pays_in_denom(funds, denom) ==> (r matches Ok(a) && a == first_amount(funds))
    &&& pays_in_other_denom(funds, denom) ==> (r matches Err(PaymentError::MissingDenom(d)) && d@ == denom)
}

/// Relies on `cw_utils::must_pay`: it demands exactly one attached coin with a
/// nonzero amount and exactly the requested denomination, and returns that
/// coin's amount; every other shape of the funds is one of the error cases of
/// `must_pay_result`.
#[verifier::external_body]
pub(crate) fn must_pay(info: &PaymentInfo, denom: &str) -> (r: Result<u128, PaymentError>)
    ensures
        must_pay_result(info.funds@, denom@, r),
{
    let funds = info.funds.iter().map(|c| cosmwasm_std::coin(c.amount, c.denom.clone())).collect();
    let sender = cosmwasm_std::Addr::unchecked(info.sender.clone());
    match cw_utils::must_pay(&cosmwasm_std::MessageInfo { sender, funds }, denom) {
        Ok(amount) => Ok(amount.u128()),
        Err(cw_utils::PaymentError::MissingDenom(d)) => Err(PaymentError::MissingDenom(d)),
        Err(cw_utils::PaymentError::ExtraDenom(d)) => Err(PaymentError::ExtraDenom(d)),
        Err(cw_utils::PaymentError::MultipleDenoms {}) => Err(PaymentError::MultipleDenoms),
        Err(cw_utils::PaymentError::NoFunds {}) => Err(PaymentError::NoFunds),
        Err(cw_utils::PaymentError::NonPayable {}) => Err(PaymentError::NonPayable),
    }
}

/// The first attached coin in `required`'s denomination exists and carries at
/// least the required amount. Coins after the first of that denomination are
/// never inspected.
pub open spec fn first_coin_covers(funds: Seq<Coin>, required: Coin) -> bool {
    exists|i: int|
        0 <= i < funds.len() && funds[i].denom@ == required.denom@ && funds[i].amount
            >= required.amount && (forall|j: int|
            0 <= j < i ==> funds[j].denom@ != required.denom@)
}

/// Relies on `cosmwasm_std::has_coins`: it finds the first coin whose
/// denomination matches `required` and reports whether that coin's amount
/// reaches the required amount.
#[verifier::external_body]
fn has_coins_host(funds: &Vec<Coin>, required: &Coin) -> (r: bool)
    ensures
        r == first_coin_covers(funds@, *required),
{
    let fs: Vec<cosmwasm_std::Coin> = funds.iter().map(
        |c| cosmwasm_std::coin(c.amount, c.denom.clone()),
    ).collect();
    cosmwasm_std::has_coins(&fs, &cosmwasm_std::coin(required.amount, required.denom.clone()))
}

/// True when the attached funds cover `required`: the first coin attached in
/// `required`'s denomination carries at least the required amount.
pub fn has_required_coins(funds: &Vec<Coin>, required: &Coin) -> (r: bool)
    ensures
        r == first_coin_covers(funds@, *required),
{
    has_coins_host(funds, required)
}

} // verus!
