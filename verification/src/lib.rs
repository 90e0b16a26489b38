//! Fee accounting and revenue distribution for a chain application: a payment
//! attached to a transaction is checked against a required fee, then split
//! between a burn sink, an optional developer incentive, and the community
//! treasury, and the resulting transfer instructions are emitted in order.

use vstd::prelude::*;

pub mod coin;
pub mod emit;
pub mod fees;
pub mod msg;
pub mod pay;
pub mod royalty;

pub use coin::coins;
pub use coin::Coin;
pub use coin::PaymentInfo;
pub use emit::emit;
pub use emit::FairBurnEvent;
pub use emit::Response;
pub use fees::checked_fair_burn;
pub use fees::fair_burn;
pub use fees::DistributionPlan;
pub use fees::FeeConfig;
pub use fees::FeeError;
pub use msg::create_claim_for_msg;
pub use msg::create_fund_community_pool_msg;
pub use msg::BankMsg;
pub use msg::ClaimAction;
pub use msg::CosmosMsg;
pub use msg::StargazeMsg;
pub use msg::StargazeMsgWrapper;
pub use msg::StargazeRoute;
pub use pay::has_required_coins;
pub use pay::PaymentError;
pub use royalty::Rate;
pub use royalty::RoyaltyInfo;
pub use royalty::ValidationError;

verus! {

/// The chain's fee-denominated unit, as a specification-level character sequence.
pub open spec fn native_denom_spec() -> Seq<char> {
    "ustars"@
}

/// The chain's fee-denominated unit. All burn, incentive and treasury
/// instructions use this unit.
pub fn native_denom() -> (s: &'static str)
    ensures
        s@ == native_denom_spec(),
{
    "ustars"
}

} // verus!
