//! The split-and-distribute accounting engine: a required fee is divided
//! between a burn sink, an optional developer incentive, and the community
//! treasury. Any rounding remainder is folded into the treasury share, so no
//! value is created or destroyed by the split.

use vstd::prelude::*;
use vstd::arithmetic::div_mod::lemma_div_is_ordered;
use vstd::arithmetic::div_mod::lemma_div_multiples_vanish;
use vstd::arithmetic::div_mod::lemma_div_pos_is_pos;
use vstd::arithmetic::div_mod::lemma_fundamental_div_mod;
use vstd::arithmetic::div_mod::lemma_mod_bound;
use vstd::arithmetic::mul::lemma_mul_inequality;
use vstd::arithmetic::mul::lemma_mul_is_commutative;
use vstd::arithmetic::mul::lemma_mul_is_distributive_add;
use vstd::arithmetic::mul::lemma_mul_nonnegative;

use crate::coin::PaymentInfo;
use crate::native_denom;
use crate::native_denom_spec;
use crate::pay::must_pay;
use crate::pay::no_funds_attached;
use crate::pay::pays_in_denom;
use crate::pay::pays_in_other_denom;
use crate::pay::PaymentError;

verus! {

/// The governance percentages the splitter runs under: `burn_percent` of a
/// fee leaves circulation (part of it redirected to the developer when one is
/// named), the rest funds the treasury. Fixed at startup, never mutated.
#[derive(Clone, Copy, Debug, PartialEq, Eq, Structural)]
pub struct FeeConfig {
    pub burn_percent: u64,
    pub dev_incentive_percent: u64,
}

/// The percentages every deployment runs with unless it chooses others.
pub open spec fn default_fee_config() -> FeeConfig {
    FeeConfig { burn_percent: 50u64, dev_incentive_percent: 10u64 }
}

/// The computed outcome of one split. `developer_amount` is zero whenever
/// `developer` is absent, and the three amounts always sum to the fee that
/// was split.
#[derive(Clone, Debug, PartialEq, Eq)]
pub struct DistributionPlan {
    pub burn_amount: u128,
    pub developer: Option<String>,
    pub developer_amount: u128,
    pub treasury_amount: u128,
}

/// The developer's share of `fee`: its incentive percentage, rounded down,
/// and nothing when no developer is named.
pub open spec fn dev_amount_of(config: FeeConfig, fee: u128, has_developer: bool) -> int {
    if has_developer {
        fee as int * config.dev_incentive_percent as int / 100
    } else {
        0
    }
}

/// The burned share of `fee`: the burn percentage, rounded down, with the
/// developer's percentage carved out of it when a developer is named.
pub open spec fn burn_amount_of(config: FeeConfig, fee: u128, has_developer: bool) -> int {
    if has_developer {
        fee as int * (config.burn_percent as int - config.dev_incentive_percent as int) / 100
    } else {
        fee as int * config.burn_percent as int / 100
    }
}

/// The treasury's share of `fee`: whatever the burn and the developer shares
/// leave over, including all rounding remainders.
pub open spec fn treasury_amount_of(config: FeeConfig, fee: u128, has_developer: bool) -> int {
    fee as int - burn_amount_of(config, fee, has_developer) - dev_amount_of(
        config,
        fee,
        has_developer,
    )
}

/// The plan that splitting `fee` under `config` yields.
pub open spec fn plan_of(config: FeeConfig, fee: u128, developer: Option<String>) -> DistributionPlan {
    DistributionPlan {
        burn_amount: burn_amount_of(config, fee, developer is Some) as u128,
        developer: developer,
        developer_amount: dev_amount_of(config, fee, developer is Some) as u128,
        treasury_amount: treasury_amount_of(config, fee, developer is Some) as u128,
    }
}

/// Splitting a non-negative quantity along percentages that sum to at most
/// 100 never exceeds the quantity, even after rounding each part down.
proof fn lemma_percent_parts_le(fee: int, p1: int, p2: int)
    requires
        0 <= fee,
        0 <= p1,
        0 <= p2,
        p1 + p2 <= 100,
    ensures
        0 <= fee * p1 / 100,
        0 <= fee * p2 / 100,
        fee * p1 / 100 + fee * p2 / 100 <= fee,
{
    let a = fee * p1;
    let b = fee * p2;
    lemma_mul_nonnegative(fee, p1);
    lemma_mul_nonnegative(fee, p2);
    lemma_div_pos_is_pos(a, 100);
    lemma_div_pos_is_pos(b, 100);
    lemma_mul_is_distributive_add(fee, p1, p2);
    lemma_mul_inequality(p1 + p2, 100, fee);
    lemma_mul_is_commutative(p1 + p2, fee);
    lemma_mul_is_commutative(100, fee);
    assert(a + b <= 100 * fee);
    lemma_fundamental_div_mod(a, 100);
    lemma_fundamental_div_mod(b, 100);
    lemma_mod_bound(a, 100);
    lemma_mod_bound(b, 100);
    assert(100 * (a / 100 + b / 100) <= a + b) by {
        lemma_mul_is_distributive_add(100, a / 100, b / 100);
    }
    lemma_div_is_ordered(100 * (a / 100 + b / 100), a + b, 100);
    lemma_div_multiples_vanish(a / 100 + b / 100, 100);
    lemma_div_is_ordered(a + b, 100 * fee, 100);
    lemma_div_multiples_vanish(fee, 100);
}

/// Conservation and non-negativity: under any well-formed configuration, for
/// every fee and every developer (present or absent), the three amounts of
/// the computed plan are each at most the fee and sum to it exactly.
pub proof fn lemma_plan_conservation(config: FeeConfig, fee: u128, developer: Option<String>)
    requires
        config.wf(),
    ensures
        plan_of(config, fee, developer).burn_amount + plan_of(config, fee, developer).developer_amount + plan_of(config, fee, developer).treasury_amount == fee,
        0 <= plan_of(config, fee, developer).burn_amount <= fee,
        0 <= plan_of(config, fee, developer).developer_amount <= fee,
        0 <= plan_of(config, fee, developer).treasury_amount <= fee,
{
    if developer is Some {
        lemma_percent_parts_le(
            fee as int,
            config.burn_percent as int - config.dev_incentive_percent as int,
            config.dev_incentive_percent as int,
        );
    } else {
        lemma_percent_parts_le(fee as int, config.burn_percent as int, 0);
    }
}

/// Whenever the developer is absent, the plan's developer amount is zero.
pub proof fn lemma_no_developer_no_incentive(config: FeeConfig, fee: u128)
    ensures
        plan_of(config, fee, None).developer_amount == 0,
{
}

/// The split is a pure function of its inputs: two plans computed from the
/// same configuration, fee and developer are identical.
pub proof fn lemma_fair_burn_deterministic(
    config: FeeConfig,
    fee: u128,
    developer: Option<String>,
    first: DistributionPlan,
    second: DistributionPlan,
)
    requires
        first == plan_of(config, fee, developer),
        second == plan_of(config, fee, developer),
    ensures
        first == second,
{
}

/// Relies on `cosmwasm_std`: `Uint128 * Decimal::percent(p)` divides by the
/// decimal type's fixed scale after a widening multiply, so it returns
/// `amount * p / 100` rounded down; for `p <= 100` the result fits and the
/// multiplication cannot panic.
#[verifier::external_body]
fn mul_percent(amount: u128, percent: u64) -> (r: u128)
    requires
        percent <= 100,
    ensures
        r as int == amount as int * percent as int / 100,
{
    (cosmwasm_std::Uint128::new(amount) * cosmwasm_std::Decimal::percent(percent)).u128()
}

impl FeeConfig {
    /// A configuration is well-formed when the developer incentive lies
    /// strictly under the burn percentage and the burn percentage is a
    /// percentage at all.
    pub open spec fn wf(self) -> bool {
        self.dev_incentive_percent < self.burn_percent && self.burn_percent <= 100
    }

    /// Builds a configuration, rejecting percentages that would let the
    /// split overrun the fee or the incentive overrun the burn.
    pub fn new(burn_percent: u64, dev_incentive_percent: u64) -> (r: Option<FeeConfig>)
        ensures
            r is Some <==> dev_incentive_percent < burn_percent && burn_percent <= 100,
            r matches Some(config) ==> config == (FeeConfig { burn_percent, dev_incentive_percent }),
            r matches Some(config) ==> config.wf(),
    {
        if dev_incentive_percent < burn_percent && burn_percent <= 100 {
            Some(FeeConfig { burn_percent, dev_incentive_percent })
        } else {
            None
        }
    }

    /// Splits `fee` under this configuration: the developer, when named,
    /// receives the incentive percentage of the fee; the burn takes the burn
    /// percentage, minus the incentive when one was paid; the treasury
    /// absorbs the remainder. All parts are rounded down, the remainder goes
    /// to the treasury, and the three parts sum exactly to `fee`.
    pub fn fair_burn(&self, fee: u128, developer: Option<String>) -> (plan: DistributionPlan)
        requires
            self.wf(),
        ensures
            plan == plan_of(*self, fee, developer),
            plan.burn_amount + plan.developer_amount + plan.treasury_amount == fee,
            developer is None ==> plan.developer_amount == 0,
    {
        let has_developer = developer.is_some();
        let developer_amount: u128 = if has_developer {
            mul_percent(fee, self.dev_incentive_percent)
        } else {
            0
        };
        let effective_burn_percent: u64 = if has_developer {
            self.burn_percent - self.dev_incentive_percent
        } else {
            self.burn_percent
        };
        let burn_amount = mul_percent(fee, effective_burn_percent);
        proof {
            lemma_percent_parts_le(
                fee as int,
                effective_burn_percent as int,
                if has_developer {
                    self.dev_incentive_percent as int
                } else {
                    0
                },
            );
        }
        let treasury_amount = fee - burn_amount - developer_amount;
        DistributionPlan { burn_amount, developer, developer_amount, treasury_amount }
    }
}

impl Default for FeeConfig {
    /// The default governance percentages: half of every fee leaves
    /// circulation, a fifth of that half going to a named developer.
    fn default() -> (config: FeeConfig)
        ensures
            config == default_fee_config(),
            config.wf(),
    {
        FeeConfig { burn_percent: 50, dev_incentive_percent: 10 }
    }
}

/// Splits `fee` under the default configuration. Pure and total: no failure
/// mode, and the same inputs always yield the same plan.
pub fn fair_burn(fee: u128, developer: Option<String>) -> (plan: DistributionPlan)
    ensures
        plan == plan_of(default_fee_config(), fee, developer),
        plan.burn_amount + plan.developer_amount + plan.treasury_amount == fee,
        developer is None ==> plan.developer_amount == 0,
{
    let config = FeeConfig::default();
    config.fair_burn(fee, developer)
}

/// Why a fee could not be charged against the attached funds.
#[derive(Clone, Debug, PartialEq, Eq)]
pub enum FeeError {
    /// The attached payment lies below the required fee: the required and
    /// the attached amount, in that order.
    InsufficientFee(u128, u128),
    /// The funds-extraction step failed, reproduced verbatim.
    Payment(PaymentError),
}

/// Charges `fee` against the funds attached in the native unit and splits it
/// under the default configuration. Fails when no usable payment in the
/// native unit is attached, or when the attached amount lies below `fee`;
/// any excess beyond `fee` is left alone, never distributed or refunded.
pub fn checked_fair_burn(info: &PaymentInfo, fee: u128, developer: Option<String>) -> (r: Result<
    DistributionPlan,
    FeeError,
>)
    ensures
        r is Ok <==> pays_in_denom(info.funds@, native_denom_spec()) && info.funds@[0].amount >= fee,
        r matches Ok(plan) ==> plan == plan_of(default_fee_config(), fee, developer),
        pays_in_denom(info.funds@, native_denom_spec()) && info.funds@[0].amount < fee ==> (r matches Err(FeeError::InsufficientFee(required, got)) && required == fee && got == info.funds@[0].amount),
        no_funds_attached(info.funds@) ==> (r matches Err(FeeError::Payment(PaymentError::NoFunds))),
        info.funds@.len() > 1 ==> (r matches Err(FeeError::Payment(PaymentError::MultipleDenoms))),
        pays_in_other_denom(info.funds@, native_denom_spec()) ==> (r matches Err(FeeError::Payment(PaymentError::MissingDenom(d))) && d@ == native_denom_spec()),
{
    let payment = match must_pay(info, native_denom()) {
        Ok(amount) => amount,
        Err(e) => {
            return Err(FeeError::Payment(e));
        },
    };
    if payment < fee {
        return Err(FeeError::InsufficientFee(fee, payment));
    }
    Ok(fair_burn(fee, developer))
}

} // verus!
