//! The fee record and the checked application of its ratios to 256-bit amounts.

use crate::bn::{u256_modulus, U256};
use vstd::prelude::*;

verus! {

/// Fee ratios: for each category a numerator and a denominator.
#[derive(Clone, Copy, Debug, PartialEq, Eq, Structural)]
pub struct Fees {
    /// Admin trade fee numerator
    pub admin_trade_fee_numerator: u64,
    /// Admin trade fee denominator
    pub admin_trade_fee_denominator: u64,
    /// Admin withdraw fee numerator
    pub admin_withdraw_fee_numerator: u64,
    /// Admin withdraw fee denominator
    pub admin_withdraw_fee_denominator: u64,
    /// Trade fee numerator
    pub trade_fee_numerator: u64,
    /// Trade fee denominator
    pub trade_fee_denominator: u64,
    /// Withdraw fee numerator
    pub withdraw_fee_numerator: u64,
    /// Withdraw fee denominator
    pub withdraw_fee_denominator: u64,
    /// Reflection fee numerator
    pub reflection_fee_numerator: u64,
    /// Reflection fee denominator
    pub reflection_fee_denominator: u64,
    /// Buyback fee numerator
    pub buyback_fee_numerator: u64,
    /// Buyback fee denominator
    pub buyback_fee_denominator: u64,
    /// Marketing fee numerator
    pub marketing_fee_numerator: u64,
    /// Marketing fee denominator
    pub marketing_fee_denominator: u64,
    /// Developer fee numerator
    pub developer_fee_numerator: u64,
    /// Developer fee denominator
    pub developer_fee_denominator: u64,
}

/// `floor(amount * numerator / denominator)`; `None` where the product does not
/// fit in 256 bits or the denominator is zero.
pub open spec fn ratio_of(amount: nat, numerator: nat, denominator: nat) -> Option<nat> {
    if denominator == 0 || amount * numerator >= u256_modulus() {
        None
    } else {
        Some(amount * numerator / denominator)
    }
}

/// The trade fee numerator scaled for a pool of `n_coins` assets,
/// `numerator * n_coins / (4 * (n_coins - 1))`, each step checked in 64 bits.
pub open spec fn adjusted_numerator_of(numerator: nat, n_coins: nat) -> Option<nat> {
    if numerator * n_coins > u64::MAX || n_coins < 2 || (n_coins - 1) * 4 > u64::MAX {
        None
    } else {
        Some(numerator * n_coins / (((n_coins - 1) * 4) as nat))
    }
}

/// The normalized trade fee: the adjusted numerator applied as a ratio.
pub open spec fn normalized_of(
    numerator: nat,
    denominator: nat,
    n_coins: nat,
    amount: nat,
) -> Option<nat> {
    match adjusted_numerator_of(numerator, n_coins) {
        Some(adjusted) => ratio_of(amount, adjusted, denominator),
        None => None,
    }
}

impl Fees {
    /// The sixteen fields in their stored order.
    pub open spec fn stored_fields(self) -> Seq<u64> {
        seq![
            self.admin_trade_fee_numerator,
            self.admin_trade_fee_denominator,
            self.admin_withdraw_fee_numerator,
            self.admin_withdraw_fee_denominator,
            self.trade_fee_numerator,
            self.trade_fee_denominator,
            self.withdraw_fee_numerator,
            self.withdraw_fee_denominator,
            self.reflection_fee_numerator,
            self.reflection_fee_denominator,
            self.buyback_fee_numerator,
            self.buyback_fee_denominator,
            self.marketing_fee_numerator,
            self.marketing_fee_denominator,
            self.developer_fee_numerator,
            self.developer_fee_denominator,
        ]
    }
}

/// The value of an optional 256-bit integer.
pub open spec fn opt_value(r: Option<U256>) -> Option<nat> {
    match r {
        Some(v) => Some(v@),
        None => None,
    }
}

/// Applies `numerator / denominator` to `amount`, multiplying first.
fn apply_ratio(amount: &U256, numerator: u64, denominator: u64) -> (r: Option<U256>)
    ensures
        opt_value(r) == ratio_of(amount@, numerator as nat, denominator as nat),
{
    match amount.checked_mul_u64(numerator) {
        Some(product) => product.checked_div_u64(denominator),
        None => None,
    }
}

impl Fees {
    /// Apply admin trade fee
    pub fn admin_trade_fee(&self, fee_amount: U256) -> (r: Option<U256>)
        ensures
            opt_value(r) == ratio_of(
                fee_amount@,
                self.admin_trade_fee_numerator as nat,
                self.admin_trade_fee_denominator as nat,
            ),
    {
        apply_ratio(&fee_amount, self.admin_trade_fee_numerator, self.admin_trade_fee_denominator)
    }

    /// Apply admin withdraw fee
    pub fn admin_withdraw_fee(&self, fee_amount: U256) -> (r: Option<U256>)
        ensures
            opt_value(r) == ratio_of(
                fee_amount@,
                self.admin_withdraw_fee_numerator as nat,
                self.admin_withdraw_fee_denominator as nat,
            ),
    {
        apply_ratio(&fee_amount, self.admin_withdraw_fee_numerator, self.admin_withdraw_fee_denominator)
    }

    /// Compute trade fee from amount
    pub fn trade_fee(&self, trade_amount: U256) -> (r: Option<U256>)
        ensures
            opt_value(r) == ratio_of(
                trade_amount@,
                self.trade_fee_numerator as nat,
                self.trade_fee_denominator as nat,
            ),
    {
        apply_ratio(&trade_amount, self.trade_fee_numerator, self.trade_fee_denominator)
    }

    /// Compute withdraw fee from amount
    pub fn withdraw_fee(&self, withdraw_amount: U256) -> (r: Option<U256>)
        ensures
            opt_value(r) == ratio_of(
                withdraw_amount@,
                self.withdraw_fee_numerator as nat,
                self.withdraw_fee_denominator as nat,
            ),
    {
        apply_ratio(&withdraw_amount, self.withdraw_fee_numerator, self.withdraw_fee_denominator)
    }

    /// Compute reflection fee from amount
    pub fn reflection_fee(&self, reflection_amount: U256) -> (r: Option<U256>)
        ensures
            opt_value(r) == ratio_of(
                reflection_amount@,
                self.reflection_fee_numerator as nat,
                self.reflection_fee_denominator as nat,
            ),
    {
        apply_ratio(&reflection_amount, self.reflection_fee_numerator, self.reflection_fee_denominator)
    }

    /// Compute buyback fee from amount
    pub fn buyback_fee(&self, buyback_amount: U256) -> (r: Option<U256>)
        ensures
            opt_value(r) == ratio_of(
                buyback_amount@,
                self.buyback_fee_numerator as nat,
                self.buyback_fee_denominator as nat,
            ),
    {
        apply_ratio(&buyback_amount, self.buyback_fee_numerator, self.buyback_fee_denominator)
    }

    /// Compute marketing fee from amount
    pub fn marketing_fee(&self, marketing_amount: U256) -> (r: Option<U256>)
        ensures
            opt_value(r) == ratio_of(
                marketing_amount@,
                self.marketing_fee_numerator as nat,
                self.marketing_fee_denominator as nat,
            ),
    {
        apply_ratio(&marketing_amount, self.marketing_fee_numerator, self.marketing_fee_denominator)
    }

    /// Compute developer fee from amount
    pub fn developer_fee(&self, developer_amount: U256) -> (r: Option<U256>)
        ensures
            opt_value(r) == ratio_of(
                developer_amount@,
                self.developer_fee_numerator as nat,
                self.developer_fee_denominator as nat,
            ),
    {
        apply_ratio(&developer_amount, self.developer_fee_numerator, self.developer_fee_denominator)
    }

    /// Compute normalized fee for symmetric/asymmetric deposits/withdraws
    pub fn normalized_trade_fee(&self, n_coins: u64, amount: U256) -> (r: Option<U256>)
        ensures
            opt_value(r) == normalized_of(
                self.trade_fee_numerator as nat,
                self.trade_fee_denominator as nat,
                n_coins as nat,
                amount@,
            ),
    {
        let scaled = match self.trade_fee_numerator.checked_mul(n_coins) {
            Some(v) => v,
            None => return None,
        };
        let others = match n_coins.checked_sub(1) {
            Some(v) => v,
            None => return None,
        };
        let divisor = match others.checked_mul(4) {
            Some(v) => v,
            None => return None,
        };
        let adjusted = match scaled.checked_div(divisor) {
            Some(v) => v,
            None => return None,
        };
        apply_ratio(&amount, adjusted, self.trade_fee_denominator)
    }
}

impl Default for Fees {
    /// The record with every numerator and denominator zero.
    fn default() -> (r: Fees)
        ensures
            forall|j: int| 0 <= j < 16 ==> #[trigger] r.stored_fields()[j] == 0,
    {
        Fees {
            admin_trade_fee_numerator: 0,
            admin_trade_fee_denominator: 0,
            admin_withdraw_fee_numerator: 0,
            admin_withdraw_fee_denominator: 0,
            trade_fee_numerator: 0,
            trade_fee_denominator: 0,
            withdraw_fee_numerator: 0,
            withdraw_fee_denominator: 0,
            reflection_fee_numerator: 0,
            reflection_fee_denominator: 0,
            buyback_fee_numerator: 0,
            buyback_fee_denominator: 0,
            marketing_fee_numerator: 0,
            marketing_fee_denominator: 0,
            developer_fee_numerator: 0,
            developer_fee_denominator: 0,
        }
    }
}

/// A ratio with a zero denominator yields no fee, whatever the amount, zero
/// included; so does the normalized fee.
pub proof fn lemma_zero_denominator_fails(amount: nat, numerator: nat, n_coins: nat)
    ensures
        ratio_of(amount, numerator, 0) is None,
        normalized_of(numerator, 0, n_coins, amount) is None,
{
}

/// An amount whose product with the numerator does not fit in 256 bits yields
/// no fee, rather than a wrapped or truncated one.
pub proof fn lemma_overflow_fails(amount: nat, numerator: nat, denominator: nat)
    requires
        amount * numerator >= u256_modulus(),
    ensures
        ratio_of(amount, numerator, denominator) is None,
{
}

/// The normalized fee of a single-asset pool divides by zero and so yields
/// no fee.
pub proof fn lemma_single_coin_fails(numerator: nat, denominator: nat, amount: nat)
    ensures
        normalized_of(numerator, denominator, 1, amount) is None,
{
}

} // verus!
