//! The fee model: what a transaction costs in the paying chain's coin, and
//! what that is worth in dollars.

use vstd::prelude::*;
use crate::price::AssetPrices;

verus! {

/// How many wei make one Gwei, the unit in which gas prices are quoted.
pub const WEI_PER_GWEI: u64 = 1_000_000_000;

/// How many wei make one coin (one ETH, one MNT).
pub const WEI_PER_COIN: u128 = 1_000_000_000_000_000_000;

/// Why a fee could not be computed.
#[derive(Clone, Copy, Debug, PartialEq, Eq, Structural)]
pub enum FeeError {
    /// The amount does not fit in 128 bits.
    Overflow,
    /// The layer-2 coin is priced at zero, so no amount of it is worth a
    /// given amount of the base chain's coin.
    ZeroPrice,
}

/// The fee of a transaction on the base chain, in wei: the price of one
/// unit of gas, in wei, times the units of gas used.
pub open spec fn spec_native_fee(gas_price: int, gas_used: int) -> int {
    gas_price * gas_used
}

/// What an amount of coin is worth: the amount in wei times the coin's
/// price in millionths of a dollar, which is a number of 10^-24 dollars.
pub open spec fn spec_usd_value(fee: int, price: int) -> int {
    fee * price
}

/// The blended fee of a transaction on the layer-2 chain, in wei: each
/// chain's gas price times its gas used, added up as they are. The base
/// chain's part is not converted into the layer-2 coin: both parts count
/// wei for wei.
pub open spec fn spec_blended_fee(
    l2_gas_price: int,
    l2_gas_used: int,
    l1_gas_price: int,
    l1_gas_used: int,
) -> int {
    l2_gas_price * l2_gas_used + l1_gas_price * l1_gas_used
}

/// The fee of a transaction on the base chain, in wei. With the gas price
/// in wei per unit of gas this is their product, and it always fits.
pub fn native_fee(gas_price: u64, gas_used: u64) -> (fee: u128)
    ensures
        fee == spec_native_fee(gas_price as int, gas_used as int),
{
    assert(gas_price * gas_used <= 0xffff_ffff_ffff_ffff * 0xffff_ffff_ffff_ffff)
        by (nonlinear_arith)
        requires
            0 <= gas_price <= 0xffff_ffff_ffff_ffff,
            0 <= gas_used <= 0xffff_ffff_ffff_ffff,
    ;
    (gas_price as u128) * (gas_used as u128)
}

/// What a fee is worth in dollars, as a number of 10^-24 dollars: the fee
/// in wei times the coin's price in millionths of a dollar. The product is
/// exact, and an error where it does not fit in 128 bits.
pub fn usd_value(fee: u128, price: u64) -> (r: Result<u128, FeeError>)
    ensures
        match r {
            Ok(value) => value == spec_usd_value(fee as int, price as int),
            Err(e) => e == FeeError::Overflow && spec_usd_value(fee as int, price as int)
                > u128::MAX,
        },
        r is Ok <==> spec_usd_value(fee as int, price as int) <= u128::MAX,
{
    match fee.checked_mul(price as u128) {
        Some(value) => Ok(value),
        None => Err(FeeError::Overflow),
    }
}

/// The base chain's fee in the units in which it is quoted: at a gas price
/// of `gwei` Gwei, the fee in coins is `gwei * gas_used` divided by 10^9.
/// Stated without the division: 10^9 times the fee in wei is
/// `gwei * gas_used` coins' worth of wei.
pub proof fn law_native_fee_from_gwei(gwei: nat, gas_used: nat)
    ensures
        spec_native_fee(gwei * WEI_PER_GWEI, gas_used as int) * WEI_PER_GWEI == gwei * gas_used
            * WEI_PER_COIN,
{
    assert(gwei * 1_000_000_000 * gas_used * 1_000_000_000 == gwei * gas_used
        * 1_000_000_000_000_000_000) by (nonlinear_arith);
}

/// A transaction on the layer-2 chain, priced as the simulation prices it:
/// the chain's own gas and the base chain's gas side by side.
#[derive(Clone, Copy, Debug, PartialEq, Eq, Structural)]
pub struct L2FeeEstimation {
    /// The layer-2 chain's gas price, in wei per unit of gas.
    pub l2_gas_price: u64,
    /// The units of gas used on the layer-2 chain.
    pub l2_gas_used: u64,
    /// The base chain's gas price, in wei per unit of gas.
    pub l1_gas_price: u64,
    /// The units of gas used on the base chain.
    pub l1_gas_used: u64,
}

impl L2FeeEstimation {
    /// The transaction's blended fee, in wei.
    pub open spec fn spec_total_fee(self) -> int {
        spec_blended_fee(
            self.l2_gas_price as int,
            self.l2_gas_used as int,
            self.l1_gas_price as int,
            self.l1_gas_used as int,
        )
    }

    /// Puts the four quantities of one transaction together.
    pub fn new(
        l2_gas_price: u64,
        l2_gas_used: u64,
        l1_gas_price: u64,
        l1_gas_used: u64,
    ) -> (r: Self)
        ensures
            r == (L2FeeEstimation { l2_gas_price, l2_gas_used, l1_gas_price, l1_gas_used }),
    {
        L2FeeEstimation { l2_gas_price, l2_gas_used, l1_gas_price, l1_gas_used }
    }

    /// The transaction's total fee in wei of MNT: the sum of the two
    /// products of gas price and gas used. It is an error exactly where
    /// that sum does not fit in 128 bits.
    pub fn calculate_total_fee_in_mnt(&self) -> (r: Result<u128, FeeError>)
        ensures
            match r {
                Ok(fee) => fee == self.spec_total_fee(),
                Err(e) => e == FeeError::Overflow && self.spec_total_fee() > u128::MAX,
            },
            r is Ok <==> self.spec_total_fee() <= u128::MAX,
    {
        let l2_part: u128 = native_fee(self.l2_gas_price, self.l2_gas_used);
        let l1_part: u128 = native_fee(self.l1_gas_price, self.l1_gas_used);
        match l2_part.checked_add(l1_part) {
            Some(fee) => Ok(fee),
            None => Err(FeeError::Overflow),
        }
    }
}

/// The blended fee in the units in which it is quoted: at gas prices of
/// `l2_gwei` and `l1_gwei` Gwei, the fee in coins is
/// `l2_gwei * l2_gas_used + l1_gwei * l1_gas_used` divided by 10^9. Stated
/// without the division, as the base chain's fee is.
pub proof fn law_blended_fee_from_gwei(
    l2_gwei: nat,
    l2_gas_used: nat,
    l1_gwei: nat,
    l1_gas_used: nat,
)
    ensures
        spec_blended_fee(
            l2_gwei * WEI_PER_GWEI,
            l2_gas_used as int,
            l1_gwei * WEI_PER_GWEI,
            l1_gas_used as int,
        ) * WEI_PER_GWEI == (l2_gwei * l2_gas_used + l1_gwei * l1_gas_used) * WEI_PER_COIN,
{
    assert((l2_gwei * 1_000_000_000 * l2_gas_used + l1_gwei * 1_000_000_000 * l1_gas_used)
        * 1_000_000_000 == (l2_gwei * l2_gas_used + l1_gwei * l1_gas_used)
        * 1_000_000_000_000_000_000) by (nonlinear_arith);
}

/// A transaction on the layer-2 chain, priced in detail: what it costs to
/// execute there, and what it costs to post its data to the base chain.
#[derive(Clone, Copy, Debug, PartialEq, Eq, Structural)]
pub struct RollupFeeEstimation {
    /// The layer-2 chain's gas price, in wei per unit of gas.
    pub l2_gas_price: u64,
    /// The units of gas used on the layer-2 chain.
    pub l2_gas_used: u64,
    /// The base chain's gas price, in wei per unit of gas.
    pub l1_gas_price: u64,
    /// The base chain's gas that posting one transaction's data takes.
    pub overhead: u64,
}

/// The two parts of a detailed layer-2 fee and their sum, in wei of MNT.
#[derive(Clone, Copy, Debug, PartialEq, Eq, Structural)]
pub struct FeeBreakdown {
    /// What executing the transaction on the layer-2 chain costs.
    pub execution_fee: u128,
    /// What posting its data to the base chain costs.
    pub rollup_fee: u128,
    /// Both together.
    pub total_fee: u128,
}

impl RollupFeeEstimation {
    /// The execution fee, in wei of MNT.
    pub open spec fn spec_execution_fee(self) -> int {
        self.l2_gas_price * self.l2_gas_used
    }

    /// The posting cost in wei of ETH, times the price of ETH: what the
    /// posting is worth, in 10^-24 dollars.
    pub open spec fn spec_rollup_value(self, prices: AssetPrices) -> int {
        self.l1_gas_price * self.overhead * prices.eth_usd
    }

    /// The rollup fee, in wei of MNT: the posting cost in wei of ETH, times
    /// the ratio of the price of ETH to the price of MNT, rounded down to a
    /// whole wei. It has no meaning where MNT is priced at zero.
    pub open spec fn spec_rollup_fee(self, prices: AssetPrices) -> int {
        self.spec_rollup_value(prices) / (prices.mnt_usd as int)
    }

    /// Execution fee and rollup fee together.
    pub open spec fn spec_total_fee(self, prices: AssetPrices) -> int {
        self.spec_execution_fee() + self.spec_rollup_fee(prices)
    }

    /// What the estimate comes to at the given prices.
    pub open spec fn spec_calculate(self, prices: AssetPrices) -> Result<FeeBreakdown, FeeError> {
        if prices.mnt_usd == 0 {
            Err(FeeError::ZeroPrice)
        } else if self.spec_rollup_value(prices) > u128::MAX || self.spec_total_fee(prices)
            > u128::MAX {
            Err(FeeError::Overflow)
        } else {
            Ok(
                FeeBreakdown {
                    execution_fee: self.spec_execution_fee() as u128,
                    rollup_fee: self.spec_rollup_fee(prices) as u128,
                    total_fee: self.spec_total_fee(prices) as u128,
                },
            )
        }
    }

    /// Puts the four quantities of one transaction together.
    pub fn new(l2_gas_price: u64, l2_gas_used: u64, l1_gas_price: u64, overhead: u64) -> (r: Self)
        ensures
            r == (RollupFeeEstimation { l2_gas_price, l2_gas_used, l1_gas_price, overhead }),
    {
        RollupFeeEstimation { l2_gas_price, l2_gas_used, l1_gas_price, overhead }
    }

    /// The execution fee, the rollup fee and their sum, in wei of MNT.
    ///
    /// The execution fee is the layer-2 gas price times the gas used. The
    /// rollup fee is the base chain's gas price times the overhead, turned
    /// from ETH into MNT at the ratio of the two prices and rounded down.
    /// A price of zero for MNT is an error; so is a posting cost whose
    /// dollar value, or a total that, does not fit in 128 bits.
    pub fn calculate(&self, prices: &AssetPrices) -> (r: Result<FeeBreakdown, FeeError>)
        ensures
            r == self.spec_calculate(*prices),
    {
        if prices.mnt_usd == 0 {
            return Err(FeeError::ZeroPrice);
        }
        let execution_fee: u128 = native_fee(self.l2_gas_price, self.l2_gas_used);
        let posting: u128 = native_fee(self.l1_gas_price, self.overhead);
        let rollup_fee: u128 = match posting.checked_mul(prices.eth_usd as u128) {
            Some(value) => value / (prices.mnt_usd as u128),
            None => {
                return Err(FeeError::Overflow);
            },
        };
        match execution_fee.checked_add(rollup_fee) {
            Some(total_fee) => Ok(FeeBreakdown { execution_fee, rollup_fee, total_fee }),
            None => Err(FeeError::Overflow),
        }
    }
}

/// The two ways in which a layer-2 fee is estimated. They do not agree,
/// and neither is derived from the other: a caller names the one it wants.
#[derive(Clone, Copy, Debug, PartialEq, Eq, Structural)]
pub enum FeeStrategy {
    /// Both chains' gas added up wei for wei.
    SimpleBlended(L2FeeEstimation),
    /// Execution on the layer-2 chain plus the cost of posting to the base
    /// chain, converted at the ratio of the two prices.
    ExecutionPlusRollup(RollupFeeEstimation),
}

impl FeeStrategy {
    /// The total fee that the chosen estimate gives, in wei of MNT.
    pub open spec fn spec_total_fee_in_mnt(self, prices: AssetPrices) -> Result<u128, FeeError> {
        match self {
            FeeStrategy::SimpleBlended(estimate) => if estimate.spec_total_fee() > u128::MAX {
                Err(FeeError::Overflow)
            } else {
                Ok(estimate.spec_total_fee() as u128)
            },
            FeeStrategy::ExecutionPlusRollup(estimate) => match estimate.spec_calculate(prices) {
                Ok(breakdown) => Ok(breakdown.total_fee),
                Err(e) => Err(e),
            },
        }
    }

    /// The total fee in wei of MNT, by the estimate that the caller chose.
    /// The prices are read by the detailed estimate only.
    pub fn total_fee_in_mnt(&self, prices: &AssetPrices) -> (r: Result<u128, FeeError>)
        ensures
            r == self.spec_total_fee_in_mnt(*prices),
    {
        match self {
            FeeStrategy::SimpleBlended(estimate) => estimate.calculate_total_fee_in_mnt(),
            FeeStrategy::ExecutionPlusRollup(estimate) => match estimate.calculate(prices) {
                Ok(breakdown) => Ok(breakdown.total_fee),
                Err(e) => Err(e),
            },
        }
    }
}

/// The detailed estimate adds up: wherever it succeeds, the total is the
/// execution fee plus the rollup fee, the execution fee is gas price times
/// gas used, and the rollup fee is the one whole number of wei of MNT
/// whose dollar value does not exceed the dollar value of the posting
/// cost, while one wei more would.
pub proof fn law_rollup_breakdown(estimate: RollupFeeEstimation, prices: AssetPrices)
    requires
        estimate.spec_calculate(prices) is Ok,
    ensures
        ({
            let b = estimate.spec_calculate(prices)->Ok_0;
            &&& b.total_fee == b.execution_fee + b.rollup_fee
            &&& b.execution_fee == estimate.l2_gas_price * estimate.l2_gas_used
            &&& b.rollup_fee * prices.mnt_usd <= estimate.l1_gas_price * estimate.overhead
                * prices.eth_usd < (b.rollup_fee + 1) * prices.mnt_usd
        }),
{
    let v = estimate.spec_rollup_value(prices);
    let m = prices.mnt_usd as int;
    assert(0 <= v) by (nonlinear_arith)
        requires
            v == estimate.l1_gas_price * estimate.overhead * prices.eth_usd,
    ;
    vstd::arithmetic::div_mod::lemma_fundamental_div_mod(v, m);
    vstd::arithmetic::div_mod::lemma_mod_bound(v, m);
    vstd::arithmetic::div_mod::lemma_div_pos_is_pos(v, m);
    assert(0 <= estimate.spec_execution_fee()) by (nonlinear_arith)
        requires
            estimate.spec_execution_fee() == estimate.l2_gas_price * estimate.l2_gas_used,
    ;
    let q = v / m;
    assert((q + 1) * m == q * m + m) by (nonlinear_arith);
    assert(q * m == m * q) by (nonlinear_arith);
}

} // verus!
