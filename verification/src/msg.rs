//! The custom chain messages the library emits, held as plain values: bank
//! sends and burns, and the chain's own routed messages (claims and
//! community-pool funding), each carrying a route tag and a data-version
//! string.

use vstd::prelude::*;
use vstd::string::StringExecFns;

use crate::coin::Coin;

verus! {

/// The version string stamped on every routed message.
pub open spec fn msg_data_version_spec() -> Seq<char> {
    "1.0.0"@
}

fn msg_data_version() -> (s: String)
    ensures
        s@ == msg_data_version_spec(),
{
    String::from_str("1.0.0")
}

/// The module a routed message is dispatched to.
#[derive(Clone, Copy, Debug, PartialEq, Eq, Structural)]
pub enum StargazeRoute {
    Claim,
    Distribution,
}

/// What a claim is being made for.
#[derive(Clone, Copy, Debug, PartialEq, Eq, Structural)]
pub enum ClaimAction {
    MintNFT,
    BidNFT,
}

/// The payload of a routed message: a claim on behalf of an address, or a
/// transfer into the community pool.
#[derive(Clone, Debug, PartialEq, Eq)]
pub enum StargazeMsg {
    ClaimFor { address: String, action: ClaimAction },
    FundCommunityPool { amount: Vec<Coin> },
}

/// A routed message: route tag, payload, and data-version string.
#[derive(Clone, Debug, PartialEq, Eq)]
pub struct StargazeMsgWrapper {
    pub route: StargazeRoute,
    pub msg_data: StargazeMsg,
    pub version: String,
}

/// An outbound instruction: a bank-module message, or a routed custom
/// message.
#[derive(Clone, Debug, PartialEq, Eq)]
pub enum CosmosMsg {
    Bank(BankMsg),
    Custom(StargazeMsgWrapper),
}

/// A bank-module instruction: transfer coins to an address, or destroy them
/// outright.
#[derive(Clone, Debug, PartialEq, Eq)]
pub enum BankMsg {
    Send { to_address: String, amount: Vec<Coin> },
    Burn { amount: Vec<Coin> },
}

impl From<StargazeMsgWrapper> for CosmosMsg {
    fn from(original: StargazeMsgWrapper) -> (m: CosmosMsg) {
        CosmosMsg::Custom(original)
    }
}

impl vstd::std_specs::convert::FromSpecImpl<StargazeMsgWrapper> for CosmosMsg {
    open spec fn obeys_from_spec() -> bool {
        true
    }

    open spec fn from_spec(original: StargazeMsgWrapper) -> CosmosMsg {
        CosmosMsg::Custom(original)
    }
}

/// Builds the routed message that claims on behalf of `address`.
pub fn create_claim_for_msg(address: String, action: ClaimAction) -> (m: CosmosMsg)
    ensures
        m matches CosmosMsg::Custom(w) && w.route == StargazeRoute::Claim && w.version@
            == msg_data_version_spec() && w.msg_data == (StargazeMsg::ClaimFor { address, action }),
{
    let wrapper = StargazeMsgWrapper {
        route: StargazeRoute::Claim,
        msg_data: StargazeMsg::ClaimFor { address, action },
        version: msg_data_version(),
    };
    CosmosMsg::from(wrapper)
}

/// Builds the routed message that moves `amount` into the community pool.
pub fn create_fund_community_pool_msg(amount: Vec<Coin>) -> (m: CosmosMsg)
    ensures
        m matches CosmosMsg::Custom(w) && w.route == StargazeRoute::Distribution && w.version@
            == msg_data_version_spec() && w.msg_data == (StargazeMsg::FundCommunityPool { amount }),
{
    let wrapper = StargazeMsgWrapper {
        route: StargazeRoute::Distribution,
        msg_data: StargazeMsg::FundCommunityPool { amount },
        version: msg_data_version(),
    };
    CosmosMsg::from(wrapper)
}

} // verus!
