//! Instruction emission: a computed plan is turned into outbound
//! instructions, appended in a fixed order to the caller-owned list —
//! developer payout first, then burn, then treasury — and summarised in an
//! event. Instructions whose amount is exactly zero are suppressed.

use vstd::prelude::*;

use crate::coin::coins;
use crate::fees::DistributionPlan;
use crate::msg::create_fund_community_pool_msg;
use crate::msg::BankMsg;
use crate::msg::CosmosMsg;
use crate::msg::StargazeMsg;
use crate::msg::StargazeRoute;
use crate::msg::msg_data_version_spec;
use crate::native_denom;
use crate::native_denom_spec;

verus! {

/// The caller-owned outbound instruction list.
#[derive(Clone, Debug, PartialEq, Eq)]
pub struct Response {
    pub messages: Vec<CosmosMsg>,
}

impl Response {
    /// An empty instruction list.
    pub fn new() -> (r: Response)
        ensures
            r.messages@.len() == 0,
    {
        Response { messages: Vec::new() }
    }
}

/// The summary of one emission: the burned amount, the developer and what
/// was paid out to them (present only when a developer was named), and the
/// amount routed to the treasury.
#[derive(Clone, Debug, PartialEq, Eq)]
pub struct FairBurnEvent {
    pub burn_amount: u128,
    pub dev: Option<String>,
    pub dev_amount: Option<u128>,
    pub dist_amount: u128,
}

/// `m` transfers exactly `amt` of the native unit to `to`.
pub open spec fn is_dev_send(m: CosmosMsg, to: Seq<char>, amt: u128) -> bool {
    m matches CosmosMsg::Bank(BankMsg::Send { to_address, amount: sent }) && to_address@ == to
        && sent@.len() == 1 && sent@[0].amount == amt && sent@[0].denom@ == native_denom_spec()
}

/// `m` burns exactly `amt` of the native unit.
pub open spec fn is_burn_msg(m: CosmosMsg, amt: u128) -> bool {
    m matches CosmosMsg::Bank(BankMsg::Burn { amount: burned }) && burned@.len() == 1
        && burned@[0].amount == amt && burned@[0].denom@ == native_denom_spec()
}

/// `m` routes exactly `amt` of the native unit into the community pool.
pub open spec fn is_fund_community_pool_msg(m: CosmosMsg, amt: u128) -> bool {
    m matches CosmosMsg::Custom(w) && w.route == StargazeRoute::Distribution && w.version@
        == msg_data_version_spec() && (w.msg_data matches StargazeMsg::FundCommunityPool {
        amount: funded,
    } && funded@.len() == 1 && funded@[0].amount == amt && funded@[0].denom@
        == native_denom_spec())
}

/// A developer payout is owed: a developer is named and their amount is
/// nonzero.
pub open spec fn has_dev_payout(plan: DistributionPlan) -> bool {
    plan.developer is Some && plan.developer_amount > 0
}

/// How many instructions emitting `plan` appends: one per nonzero amount.
pub open spec fn emitted_len(plan: DistributionPlan) -> int {
    (if has_dev_payout(plan) {
        1int
    } else {
        0int
    }) + (if plan.burn_amount > 0 {
        1int
    } else {
        0int
    }) + (if plan.treasury_amount > 0 {
        1int
    } else {
        0int
    })
}

/// `emitted` is exactly the instruction sequence of `plan`: the developer
/// payout (when owed), then the burn (when nonzero), then the
/// community-pool transfer (when nonzero), all in the native unit.
pub open spec fn emits_plan(plan: DistributionPlan, emitted: Seq<CosmosMsg>) -> bool {
    let d: int = if has_dev_payout(plan) {
        1int
    } else {
        0int
    };
    let b: int = if plan.burn_amount > 0 {
        1int
    } else {
        0int
    };
    &&& emitted.len() == emitted_len(plan)
    &&& has_dev_payout(plan) ==> (plan.developer matches Some(dev) && is_dev_send(
        emitted[0],
        dev@,
        plan.developer_amount,
    ))
    &&& plan.burn_amount > 0 ==> is_burn_msg(emitted[d], plan.burn_amount)
    &&& plan.treasury_amount > 0 ==> is_fund_community_pool_msg(
        emitted[d + b],
        plan.treasury_amount,
    )
}

/// Appends `plan`'s instructions to `res` — developer payout, then burn,
/// then treasury transfer, skipping any whose amount is zero — and returns
/// the summary event. Emission never fails and never touches the
/// instructions already in `res`.
pub fn emit(plan: DistributionPlan, res: &mut Response) -> (event: FairBurnEvent)
    ensures
        final(res).messages@.len() == old(res).messages@.len() + emitted_len(plan),
        final(res).messages@.subrange(0, old(res).messages@.len() as int) == old(res).messages@,
        emits_plan(plan, final(res).messages@.skip(old(res).messages@.len() as int)),
        event.burn_amount == plan.burn_amount,
        event.dist_amount == plan.treasury_amount,
        event.dev == plan.developer,
        event.dev_amount matches Some(paid) ==> plan.developer is Some && paid
            == plan.developer_amount,
        event.dev_amount is Some <==> plan.developer is Some,
{
    let ghost prefix_len = res.messages@.len() as int;
    match &plan.developer {
        Some(dev) => {
            if plan.developer_amount > 0 {
                let payout = coins(plan.developer_amount, native_denom());
                res.messages.push(
                    CosmosMsg::Bank(BankMsg::Send { to_address: dev.clone(), amount: payout }),
                );
            }
        },
        None => {},
    }
    if plan.burn_amount > 0 {
        let burned = coins(plan.burn_amount, native_denom());
        res.messages.push(CosmosMsg::Bank(BankMsg::Burn { amount: burned }));
    }
    if plan.treasury_amount > 0 {
        let funded = coins(plan.treasury_amount, native_denom());
        res.messages.push(create_fund_community_pool_msg(funded));
    }
    proof {
        assert(res.messages@.subrange(0, prefix_len) =~= old(res).messages@);
    }
    let dev_amount: Option<u128> = if plan.developer.is_some() {
        Some(plan.developer_amount)
    } else {
        None
    };
    FairBurnEvent {
        burn_amount: plan.burn_amount,
        dev: plan.developer,
        dev_amount,
        dist_amount: plan.treasury_amount,
    }
}

} // verus!
