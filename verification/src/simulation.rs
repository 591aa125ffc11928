//! The simulation: one transaction a day at a gas price drawn anew each
//! day, the fee of each day, and the totals over all days.

use vstd::prelude::*;
use crate::chain::Chain;
use crate::fee::{native_fee, spec_native_fee, spec_usd_value, usd_value, FeeError, L2FeeEstimation};
use crate::price::AssetPrices;
use crate::random::random_in_range;

verus! {

/// The gas prices that a day may see, in wei per unit of gas, both ends
/// included.
#[derive(Clone, Copy, Debug, PartialEq, Eq, Structural)]
pub struct GasPriceRange {
    /// The lowest price.
    pub min: u64,
    /// The highest price.
    pub max: u64,
}

impl GasPriceRange {
    /// A range holds a price at all where its ends are in order.
    pub open spec fn is_valid(self) -> bool {
        self.min <= self.max
    }

    /// Whether a price lies in the range.
    pub open spec fn contains(self, gas_price: u64) -> bool {
        self.min <= gas_price <= self.max
    }

    /// The range from `min` to `max`. The ends are taken as they come: a
    /// range whose ends are out of order is found out when a price is
    /// drawn from it.
    pub fn new(min: u64, max: u64) -> (r: Self)
        ensures
            r == (GasPriceRange { min, max }),
    {
        GasPriceRange { min, max }
    }

    /// Draws one price from the range, each draw on its own. A range whose
    /// ends are out of order gives none; any other gives a price that lies
    /// in it.
    pub fn draw(&self) -> (r: Option<u64>)
        ensures
            match r {
                Some(gas_price) => self.contains(gas_price),
                None => !self.is_valid(),
            },
            r is Some <==> self.is_valid(),
    {
        if self.min <= self.max {
            Some(random_in_range(self.min, self.max))
        } else {
            None
        }
    }
}

/// What a run on the layer-2 chain needs beyond the base chain's inputs.
#[derive(Clone, Copy, Debug, PartialEq, Eq, Structural)]
pub struct L2Inputs {
    /// The layer-2 chain's gas prices.
    pub gas_price: GasPriceRange,
    /// The units of gas that the transaction uses on the layer-2 chain.
    pub gas_used: u64,
}

/// Everything that a run is configured with.
#[derive(Clone, Copy, Debug, PartialEq, Eq, Structural)]
pub struct SimulationConfig {
    /// How many days are simulated. None is a valid run.
    pub days: u64,
    /// The base chain's gas prices.
    pub gas_price: GasPriceRange,
    /// The units of gas that the transaction uses on the base chain.
    pub gas_used: u64,
    /// The layer-2 chain's inputs: present where the run is for that
    /// chain, absent where it is for the base chain.
    pub l2: Option<L2Inputs>,
}

/// The gas prices of one day.
#[derive(Clone, Copy, Debug, PartialEq, Eq, Structural)]
pub struct DayDraw {
    /// The base chain's gas price, in wei per unit of gas.
    pub gas_price: u64,
    /// The layer-2 chain's gas price: zero in a run for the base chain,
    /// which draws none.
    pub l2_gas_price: u64,
}

/// Why a run gave no report.
#[derive(Clone, Copy, Debug, PartialEq, Eq, Structural)]
pub enum SimulationError {
    /// A price had to be drawn from a range whose ends are out of order.
    InvalidRange,
    /// A fee, a dollar value or a total does not fit in 128 bits.
    Overflow,
    /// The gas prices handed in are not one set for each day.
    DrawCountMismatch,
}

impl SimulationConfig {
    /// The chain that the run is for.
    pub open spec fn spec_chain(self) -> Chain {
        match self.l2 {
            None => Chain::Ethereum,
            Some(_) => Chain::Mantle,
        }
    }

    /// Whether every range that a day draws from holds a price.
    pub open spec fn ranges_valid(self) -> bool {
        &&& self.gas_price.is_valid()
        &&& match self.l2 {
            None => true,
            Some(l2) => l2.gas_price.is_valid(),
        }
    }

    /// Whether a day of this run can have seen these gas prices.
    pub open spec fn admits(self, draw: DayDraw) -> bool {
        &&& self.gas_price.contains(draw.gas_price)
        &&& match self.l2 {
            None => draw.l2_gas_price == 0,
            Some(l2) => l2.gas_price.contains(draw.l2_gas_price),
        }
    }

    /// The highest gas prices that a day of this run can see.
    pub open spec fn highest_draw(self) -> DayDraw {
        DayDraw {
            gas_price: self.gas_price.max,
            l2_gas_price: match self.l2 {
                None => 0,
                Some(l2) => l2.gas_price.max,
            },
        }
    }

    /// The fee of a day with the given gas prices, in wei of the chain's
    /// coin: on the base chain gas price times gas used, on the layer-2
    /// chain the blended fee of both chains' gas.
    pub open spec fn spec_day_fee(self, draw: DayDraw) -> int {
        match self.l2 {
            None => spec_native_fee(draw.gas_price as int, self.gas_used as int),
            Some(l2) => (L2FeeEstimation {
                l2_gas_price: draw.l2_gas_price,
                l2_gas_used: l2.gas_used,
                l1_gas_price: draw.gas_price,
                l1_gas_used: self.gas_used,
            }).spec_total_fee(),
        }
    }

    /// The dollar value of a day's fee, in 10^-24 dollars, at the price of
    /// the chain's coin.
    pub open spec fn spec_day_usd(self, prices: AssetPrices, draw: DayDraw) -> int {
        spec_usd_value(self.spec_day_fee(draw), prices.spec_price_of(self.spec_chain()) as int)
    }

    /// The fees of the given days added up, first day first.
    pub open spec fn spec_total_fee(self, draws: Seq<DayDraw>) -> int
        decreases draws.len(),
    {
        if draws.len() == 0 {
            0
        } else {
            self.spec_total_fee(draws.drop_last()) + self.spec_day_fee(draws.last())
        }
    }

    /// The dollar values of the given days added up, first day first.
    pub open spec fn spec_total_usd(self, prices: AssetPrices, draws: Seq<DayDraw>) -> int
        decreases draws.len(),
    {
        if draws.len() == 0 {
            0
        } else {
            self.spec_total_usd(prices, draws.drop_last()) + self.spec_day_usd(prices, draws.last())
        }
    }

    /// A run of `days` days on the base chain.
    pub fn ethereum(days: u64, gas_price: GasPriceRange, gas_used: u64) -> (r: Self)
        ensures
            r == (SimulationConfig { days, gas_price, gas_used, l2: None }),
    {
        SimulationConfig { days, gas_price, gas_used, l2: None }
    }

    /// A run of `days` days on the layer-2 chain. The base chain's gas
    /// prices and gas used enter each day's fee beside the chain's own.
    pub fn mantle(
        days: u64,
        gas_price: GasPriceRange,
        gas_used: u64,
        l2_gas_price: GasPriceRange,
        l2_gas_used: u64,
    ) -> (r: Self)
        ensures
            r == (SimulationConfig {
                days,
                gas_price,
                gas_used,
                l2: Some(L2Inputs { gas_price: l2_gas_price, gas_used: l2_gas_used }),
            }),
    {
        SimulationConfig {
            days,
            gas_price,
            gas_used,
            l2: Some(L2Inputs { gas_price: l2_gas_price, gas_used: l2_gas_used }),
        }
    }

    /// The chain that the run is for.
    pub fn chain(&self) -> (r: Chain)
        ensures
            r == self.spec_chain(),
    {
        match self.l2 {
            None => Chain::Ethereum,
            Some(_) => Chain::Mantle,
        }
    }

    /// The fee of one day at the given gas prices, in wei of the chain's
    /// coin. It is an error exactly where it does not fit in 128 bits,
    /// which only the layer-2 chain's sum of two products can do.
    pub fn day_fee(&self, draw: DayDraw) -> (r: Result<u128, FeeError>)
        ensures
            match r {
                Ok(fee) => fee == self.spec_day_fee(draw),
                Err(e) => e == FeeError::Overflow && self.spec_day_fee(draw) > u128::MAX,
            },
            r is Ok <==> self.spec_day_fee(draw) <= u128::MAX,
    {
        match self.l2 {
            None => Ok(native_fee(draw.gas_price, self.gas_used)),
            Some(l2) => L2FeeEstimation::new(
                draw.l2_gas_price,
                l2.gas_used,
                draw.gas_price,
                self.gas_used,
            ).calculate_total_fee_in_mnt(),
        }
    }

    /// Draws each day's gas prices, every day on its own: the base chain's
    /// from its range and, in a run for the layer-2 chain, that chain's
    /// from its own range. A run of no days draws nothing and cannot fail;
    /// any other fails exactly where one of its ranges has its ends out of
    /// order.
    pub fn draw_prices(&self) -> (r: Result<Vec<DayDraw>, SimulationError>)
        ensures
            match r {
                Ok(draws) => {
                    &&& draws@.len() == self.days
                    &&& forall|i: int| 0 <= i < draws@.len() ==> self.admits(#[trigger] draws@[i])
                },
                Err(e) => e == SimulationError::InvalidRange && self.days > 0
                    && !self.ranges_valid(),
            },
            r is Ok <==> self.days == 0 || self.ranges_valid(),
    {
        let mut draws: Vec<DayDraw> = Vec::new();
        let mut day: u64 = 0;
        while day < self.days
            invariant
                day <= self.days,
                draws@.len() == day,
                forall|i: int| 0 <= i < draws@.len() ==> self.admits(#[trigger] draws@[i]),
            decreases self.days - day,
        {
            let gas_price: u64 = match self.gas_price.draw() {
                Some(gas_price) => gas_price,
                None => {
                    return Err(SimulationError::InvalidRange);
                },
            };
            let l2_gas_price: u64 = match self.l2 {
                None => 0,
                Some(l2) => match l2.gas_price.draw() {
                    Some(gas_price) => gas_price,
                    None => {
                        return Err(SimulationError::InvalidRange);
                    },
                },
            };
            draws.push(DayDraw { gas_price, l2_gas_price });
            day += 1;
        }
        proof {
            if self.days > 0 {
                assert(self.admits(draws@[0]));
            }
        }
        Ok(draws)
    }
}

/// What one day came to.
#[derive(Clone, Copy, Debug, PartialEq, Eq, Structural)]
pub struct DayResult {
    /// The day's number; the first day is day 0.
    pub day: u64,
    /// The gas prices that the day saw.
    pub draw: DayDraw,
    /// The day's fee, in wei of the chain's coin.
    pub fee: u128,
    /// The fee's dollar value, in 10^-24 dollars.
    pub usd: u128,
}

/// What a run came to: each day in turn, and the totals.
#[derive(Debug, PartialEq, Eq)]
pub struct SimulationReport {
    /// The chain that the run was for.
    pub chain: Chain,
    /// The days, first day first.
    pub days: Vec<DayResult>,
    /// All days' fees together, in wei of the chain's coin.
    pub total_fee: u128,
    /// All days' dollar values together, in 10^-24 dollars.
    pub total_usd: u128,
}

impl SimulationReport {
    /// The gas prices that the days of the run saw, first day first.
    pub open spec fn draws(self) -> Seq<DayDraw> {
        Seq::new(self.days@.len(), |i: int| self.days@[i].draw)
    }

    /// Whether this is the report of a run with the given configuration
    /// and prices on the gas prices that it records: one entry for each
    /// day, numbered from 0, each with the fee and the dollar value of its
    /// gas prices, and totals that are the sums of the days' values.
    pub open spec fn matches(self, config: SimulationConfig, prices: AssetPrices) -> bool {
        &&& self.chain == config.spec_chain()
        &&& self.days@.len() == config.days
        &&& forall|i: int|
            0 <= i < self.days@.len() ==> {
                &&& (#[trigger] self.days@[i]).day == i
                &&& self.days@[i].fee == config.spec_day_fee(self.days@[i].draw)
                &&& self.days@[i].usd == config.spec_day_usd(prices, self.days@[i].draw)
            }
        &&& self.total_fee == config.spec_total_fee(self.draws())
        &&& self.total_usd == config.spec_total_usd(prices, self.draws())
    }

    /// Whether every day's gas prices lie in the ranges of the run.
    pub open spec fn within(self, config: SimulationConfig) -> bool {
        forall|i: int| 0 <= i < self.days@.len() ==> config.admits((#[trigger] self.days@[i]).draw)
    }
}

/// No day's fee is negative, nor its dollar value.
pub proof fn lemma_day_values_nonnegative(
    config: SimulationConfig,
    prices: AssetPrices,
    draw: DayDraw,
)
    ensures
        0 <= config.spec_day_fee(draw),
        0 <= config.spec_day_usd(prices, draw),
{
    let price = prices.spec_price_of(config.spec_chain()) as int;
    match config.l2 {
        None => {
            assert(0 <= draw.gas_price * config.gas_used) by (nonlinear_arith);
        },
        Some(l2) => {
            assert(0 <= draw.l2_gas_price * l2.gas_used) by (nonlinear_arith);
            assert(0 <= draw.gas_price * config.gas_used) by (nonlinear_arith);
        },
    }
    assert(0 <= config.spec_day_fee(draw) * price) by (nonlinear_arith)
        requires
            0 <= config.spec_day_fee(draw),
            0 <= price,
    ;
}

/// The totals of the first `k` days do not exceed the totals of all days,
/// and no total is negative.
pub proof fn lemma_totals_grow(
    config: SimulationConfig,
    prices: AssetPrices,
    draws: Seq<DayDraw>,
    k: int,
)
    requires
        0 <= k <= draws.len(),
    ensures
        0 <= config.spec_total_fee(draws.take(k)) <= config.spec_total_fee(draws),
        0 <= config.spec_total_usd(prices, draws.take(k)) <= config.spec_total_usd(prices, draws),
    decreases draws.len(),
{
    if draws.len() == 0 {
        assert(draws.take(k) =~= draws);
    } else if k == draws.len() {
        assert(draws.take(k) =~= draws);
        lemma_totals_grow(config, prices, draws.drop_last(), k - 1);
        lemma_day_values_nonnegative(config, prices, draws.last());
    } else {
        lemma_totals_grow(config, prices, draws.drop_last(), k);
        lemma_day_values_nonnegative(config, prices, draws.last());
        assert(draws.drop_last().take(k) =~= draws.take(k));
    }
}

/// One day more adds that day's fee and dollar value to the totals.
pub proof fn lemma_totals_step(
    config: SimulationConfig,
    prices: AssetPrices,
    draws: Seq<DayDraw>,
    k: int,
)
    requires
        0 <= k < draws.len(),
    ensures
        config.spec_total_fee(draws.take(k + 1)) == config.spec_total_fee(draws.take(k))
            + config.spec_day_fee(draws[k]),
        config.spec_total_usd(prices, draws.take(k + 1)) == config.spec_total_usd(
            prices,
            draws.take(k),
        ) + config.spec_day_usd(prices, draws[k]),
{
    assert(draws.take(k + 1).drop_last() =~= draws.take(k));
    assert(draws.take(k + 1).last() == draws[k]);
}

/// Runs the simulation on gas prices that are handed in, one set for each
/// day: the run that `simulate` makes on the prices it draws.
///
/// Each day's fee is that of its gas prices, its dollar value the fee at
/// the price of the chain's coin, and the totals are the days' values
/// added up from the first day on. The run fails where the number of sets
/// is not the number of days, and otherwise exactly where a total does not
/// fit in 128 bits. Whether the prices lie in the configured ranges is not
/// looked at.
pub fn simulate_with_draws(
    config: &SimulationConfig,
    prices: &AssetPrices,
    draws: &Vec<DayDraw>,
) -> (r: Result<SimulationReport, SimulationError>)
    ensures
        match r {
            Ok(report) => {
                &&& draws@.len() == config.days
                &&& report.matches(*config, *prices)
                &&& report.draws() == draws@
            },
            Err(SimulationError::DrawCountMismatch) => draws@.len() != config.days,
            Err(SimulationError::Overflow) => {
                &&& draws@.len() == config.days
                &&& (config.spec_total_fee(draws@) > u128::MAX || config.spec_total_usd(
                    *prices,
                    draws@,
                ) > u128::MAX)
            },
            Err(SimulationError::InvalidRange) => false,
        },
        r is Ok <==> draws@.len() == config.days && config.spec_total_fee(draws@) <= u128::MAX
            && config.spec_total_usd(*prices, draws@) <= u128::MAX,
{
    let n: usize = draws.len();
    if n as u64 != config.days {
        return Err(SimulationError::DrawCountMismatch);
    }
    let chain = config.chain();
    let price: u64 = prices.price_of(chain);
    let mut days: Vec<DayResult> = Vec::new();
    let mut total_fee: u128 = 0;
    let mut total_usd: u128 = 0;
    let mut i: usize = 0;
    while i < n
        invariant
            i <= n,
            n == draws@.len(),
            n == config.days,
            price == prices.spec_price_of(config.spec_chain()),
            days@.len() == i,
            forall|j: int|
                0 <= j < i ==> {
                    &&& (#[trigger] days@[j]).day == j
                    &&& days@[j].draw == draws@[j]
                    &&& days@[j].fee == config.spec_day_fee(draws@[j])
                    &&& days@[j].usd == config.spec_day_usd(*prices, draws@[j])
                },
            total_fee == config.spec_total_fee(draws@.take(i as int)),
            total_usd == config.spec_total_usd(*prices, draws@.take(i as int)),
        decreases n - i,
    {
        let draw: DayDraw = draws[i];
        proof {
            lemma_totals_step(*config, *prices, draws@, i as int);
            lemma_totals_grow(*config, *prices, draws@, i + 1);
            lemma_totals_grow(*config, *prices, draws@.take(i + 1), i as int);
            assert(draws@.take(i + 1).take(i as int) =~= draws@.take(i as int));
            lemma_day_values_nonnegative(*config, *prices, draw);
        }
        let fee: u128 = match config.day_fee(draw) {
            Ok(fee) => fee,
            Err(_) => {
                return Err(SimulationError::Overflow);
            },
        };
        let usd: u128 = match usd_value(fee, price) {
            Ok(usd) => usd,
            Err(_) => {
                return Err(SimulationError::Overflow);
            },
        };
        total_fee = match total_fee.checked_add(fee) {
            Some(total) => total,
            None => {
                return Err(SimulationError::Overflow);
            },
        };
        total_usd = match total_usd.checked_add(usd) {
            Some(total) => total,
            None => {
                return Err(SimulationError::Overflow);
            },
        };
        days.push(DayResult { day: i as u64, draw, fee, usd });
        i += 1;
    }
    let report = SimulationReport { chain, days, total_fee, total_usd };
    proof {
        assert(draws@.take(n as int) =~= draws@);
        assert(report.draws() =~= draws@);
    }
    Ok(report)
}

impl SimulationConfig {
    /// The most that the fees of a run can come to: every day at the
    /// highest gas prices.
    pub open spec fn spec_highest_total_fee(self) -> int {
        self.days * self.spec_day_fee(self.highest_draw())
    }

    /// The most that the dollar values of a run can come to.
    pub open spec fn spec_highest_total_usd(self, prices: AssetPrices) -> int {
        self.days * self.spec_day_usd(prices, self.highest_draw())
    }
}

/// A day's fee and dollar value do not exceed those of a day at the
/// highest gas prices of the run.
pub proof fn lemma_day_values_bounded(
    config: SimulationConfig,
    prices: AssetPrices,
    draw: DayDraw,
)
    requires
        config.admits(draw),
    ensures
        config.spec_day_fee(draw) <= config.spec_day_fee(config.highest_draw()),
        config.spec_day_usd(prices, draw) <= config.spec_day_usd(prices, config.highest_draw()),
{
    let price = prices.spec_price_of(config.spec_chain()) as int;
    let high = config.highest_draw();
    assert(draw.gas_price * config.gas_used <= high.gas_price * config.gas_used)
        by (nonlinear_arith)
        requires
            draw.gas_price <= high.gas_price,
            0 <= config.gas_used,
    ;
    match config.l2 {
        None => {},
        Some(l2) => {
            assert(draw.l2_gas_price * l2.gas_used <= high.l2_gas_price * l2.gas_used)
                by (nonlinear_arith)
                requires
                    draw.l2_gas_price <= high.l2_gas_price,
                    0 <= l2.gas_used,
            ;
        },
    }
    assert(config.spec_day_fee(draw) * price <= config.spec_day_fee(high) * price)
        by (nonlinear_arith)
        requires
            config.spec_day_fee(draw) <= config.spec_day_fee(high),
            0 <= price,
    ;
}

/// The totals of days whose gas prices lie in the ranges of the run do not
/// exceed as many days at the highest gas prices.
pub proof fn lemma_totals_bounded(
    config: SimulationConfig,
    prices: AssetPrices,
    draws: Seq<DayDraw>,
)
    requires
        forall|i: int| 0 <= i < draws.len() ==> config.admits(#[trigger] draws[i]),
    ensures
        config.spec_total_fee(draws) <= draws.len() * config.spec_day_fee(config.highest_draw()),
        config.spec_total_usd(prices, draws) <= draws.len() * config.spec_day_usd(
            prices,
            config.highest_draw(),
        ),
    decreases draws.len(),
{
    let fee = config.spec_day_fee(config.highest_draw());
    let usd = config.spec_day_usd(prices, config.highest_draw());
    if draws.len() > 0 {
        let rest = draws.drop_last();
        assert forall|i: int| 0 <= i < rest.len() implies config.admits(#[trigger] rest[i]) by {
            assert(rest[i] == draws[i]);
        }
        lemma_totals_bounded(config, prices, rest);
        lemma_day_values_bounded(config, prices, draws.last());
        assert(draws.len() * fee == rest.len() * fee + fee) by (nonlinear_arith)
            requires
                draws.len() == rest.len() + 1,
        ;
        assert(draws.len() * usd == rest.len() * usd + usd) by (nonlinear_arith)
            requires
                draws.len() == rest.len() + 1,
        ;
    } else {
        assert(draws.len() * fee == 0) by (nonlinear_arith)
            requires
                draws.len() == 0,
        ;
        assert(draws.len() * usd == 0) by (nonlinear_arith)
            requires
                draws.len() == 0,
        ;
    }
}

/// The totals of days that all saw the same gas prices are the number of
/// days times one day's fee and dollar value.
pub proof fn lemma_totals_of_equal_days(
    config: SimulationConfig,
    prices: AssetPrices,
    draws: Seq<DayDraw>,
    draw: DayDraw,
)
    requires
        forall|i: int| 0 <= i < draws.len() ==> #[trigger] draws[i] == draw,
    ensures
        config.spec_total_fee(draws) == draws.len() * config.spec_day_fee(draw),
        config.spec_total_usd(prices, draws) == draws.len() * config.spec_day_usd(prices, draw),
    decreases draws.len(),
{
    let fee = config.spec_day_fee(draw);
    let usd = config.spec_day_usd(prices, draw);
    if draws.len() > 0 {
        let rest = draws.drop_last();
        assert forall|i: int| 0 <= i < rest.len() implies #[trigger] rest[i] == draw by {
            assert(rest[i] == draws[i]);
        }
        lemma_totals_of_equal_days(config, prices, rest, draw);
        assert(draws.last() == draw);
        assert(draws.len() * fee == rest.len() * fee + fee) by (nonlinear_arith)
            requires
                draws.len() == rest.len() + 1,
        ;
        assert(draws.len() * usd == rest.len() * usd + usd) by (nonlinear_arith)
            requires
                draws.len() == rest.len() + 1,
        ;
    } else {
        assert(draws.len() * fee == 0) by (nonlinear_arith)
            requires
                draws.len() == 0,
        ;
        assert(draws.len() * usd == 0) by (nonlinear_arith)
            requires
                draws.len() == 0,
        ;
    }
}

/// As many days as none at the highest gas prices come to nothing.
pub proof fn lemma_no_days_cost_nothing(config: SimulationConfig, prices: AssetPrices)
    ensures
        config.days == 0 ==> config.spec_highest_total_fee() == 0
            && config.spec_highest_total_usd(prices) == 0,
{
    let fee = config.spec_day_fee(config.highest_draw());
    let usd = config.spec_day_usd(prices, config.highest_draw());
    assert(0 * fee == 0 && 0 * usd == 0) by (nonlinear_arith);
}

/// Runs the simulation: for each day in turn, from day 0, it draws the
/// day's gas prices from the configured ranges, computes the day's fee and
/// its dollar value, and adds both to the totals.
///
/// What comes back is the report of a run on the gas prices that it
/// records, and each of those lies in its range. A run of no days always
/// succeeds, with no entries and totals of zero. A run of some days fails
/// with `InvalidRange` exactly where a range has its ends out of order.
/// Whether a total overflows depends on the prices drawn: it cannot where
/// as many days at the highest gas prices fit in 128 bits, and a run that
/// fails with `Overflow` is one where they do not.
pub fn simulate(config: &SimulationConfig, prices: &AssetPrices) -> (r: Result<
    SimulationReport,
    SimulationError,
>)
    ensures
        match r {
            Ok(report) => report.matches(*config, *prices) && report.within(*config),
            Err(SimulationError::InvalidRange) => config.days > 0 && !config.ranges_valid(),
            Err(SimulationError::Overflow) => {
                &&& config.days > 0
                &&& config.ranges_valid()
                &&& (config.spec_highest_total_fee() > u128::MAX || config.spec_highest_total_usd(
                    *prices,
                ) > u128::MAX)
            },
            Err(SimulationError::DrawCountMismatch) => false,
        },
        config.days == 0 ==> match r {
            Ok(report) => report.days@.len() == 0 && report.total_fee == 0 && report.total_usd
                == 0,
            Err(_) => false,
        },
        config.days > 0 && !config.ranges_valid() ==> r == Err::<
            SimulationReport,
            SimulationError,
        >(SimulationError::InvalidRange),
        (config.days == 0 || config.ranges_valid()) && config.spec_highest_total_fee() <= u128::MAX
            && config.spec_highest_total_usd(*prices) <= u128::MAX ==> r is Ok,
{
    let draws: Vec<DayDraw> = match config.draw_prices() {
        Ok(draws) => draws,
        Err(e) => {
            return Err(e);
        },
    };
    proof {
        lemma_totals_bounded(*config, *prices, draws@);
        lemma_no_days_cost_nothing(*config, *prices);
        if config.days > 0 {
            assert(config.admits(draws@[0]));
        }
    }
    let r = simulate_with_draws(config, prices, &draws);
    proof {
        if r is Ok {
            let report = r->Ok_0;
            assert forall|i: int| 0 <= i < report.days@.len() implies config.admits(
                (#[trigger] report.days@[i]).draw,
            ) by {
                assert(report.draws()[i] == draws@[i]);
            }
        }
    }
    r
}

/// A run of no days reports nothing and totals of zero.
pub proof fn law_no_days(config: SimulationConfig, prices: AssetPrices, report: SimulationReport)
    requires
        report.matches(config, prices),
        config.days == 0,
    ensures
        report.days@.len() == 0,
        report.total_fee == 0,
        report.total_usd == 0,
{
}

/// Where each range of a run holds one price only, every day comes to the
/// same: the fee and the dollar value of a day at those prices. The totals
/// are the number of days times one day's values.
pub proof fn law_degenerate_range(
    config: SimulationConfig,
    prices: AssetPrices,
    report: SimulationReport,
)
    requires
        report.matches(config, prices),
        report.within(config),
        config.gas_price.min == config.gas_price.max,
        config.l2 is Some ==> config.l2->Some_0.gas_price.min == config.l2->Some_0.gas_price.max,
    ensures
        forall|i: int|
            0 <= i < report.days@.len() ==> {
                &&& (#[trigger] report.days@[i]).draw == config.highest_draw()
                &&& report.days@[i].fee == config.spec_day_fee(config.highest_draw())
                &&& report.days@[i].usd == config.spec_day_usd(prices, config.highest_draw())
            },
        report.total_fee == config.days * config.spec_day_fee(config.highest_draw()),
        report.total_usd == config.days * config.spec_day_usd(prices, config.highest_draw()),
{
    let draw = config.highest_draw();
    assert forall|i: int| 0 <= i < report.days@.len() implies (#[trigger] report.days@[i]).draw
        == draw by {
        assert(config.admits(report.days@[i].draw));
    }
    assert forall|i: int| 0 <= i < report.draws().len() implies #[trigger] report.draws()[i]
        == draw by {
        assert(report.draws()[i] == report.days@[i].draw);
    }
    lemma_totals_of_equal_days(config, prices, report.draws(), draw);
}

/// The total dollar value of a run is the dollar value of its total fee:
/// adding up day by day loses nothing.
pub proof fn law_total_usd_of_total_fee(
    config: SimulationConfig,
    prices: AssetPrices,
    draws: Seq<DayDraw>,
)
    ensures
        config.spec_total_usd(prices, draws) == spec_usd_value(
            config.spec_total_fee(draws),
            prices.spec_price_of(config.spec_chain()) as int,
        ),
    decreases draws.len(),
{
    let price = prices.spec_price_of(config.spec_chain()) as int;
    if draws.len() > 0 {
        law_total_usd_of_total_fee(config, prices, draws.drop_last());
        let rest = config.spec_total_fee(draws.drop_last());
        let last = config.spec_day_fee(draws.last());
        assert((rest + last) * price == rest * price + last * price) by (nonlinear_arith);
    } else {
        assert(0 * price == 0) by (nonlinear_arith);
    }
}

} // verus!
