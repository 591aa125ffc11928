//! A whole run, from the user's selection to the lines that are put out.
//!
//! A run is configured, then simulated day by day, then reported; a
//! selection that names no chain ends it at once, with a notice and
//! without a fee being computed. Both ends are an `Outcome`.

use vstd::prelude::*;
use crate::chain::{select_chain, spec_select_chain, Chain, InvalidSelection};
use crate::price::AssetPrices;
use crate::report::{rejection_notice, report_lines, spec_rejection_notice, spec_report_lines};
use crate::simulation::{
    simulate, GasPriceRange, L2Inputs, SimulationConfig, SimulationError, SimulationReport,
};

verus! {

/// What a user enters for a run, beside the selection of the chain.
#[derive(Clone, Copy, Debug, PartialEq, Eq, Structural)]
pub struct RunInputs {
    /// How many days are simulated.
    pub days: u64,
    /// The base chain's gas prices.
    pub gas_price: GasPriceRange,
    /// The units of gas that the transaction uses on the base chain.
    pub gas_used: u64,
    /// The layer-2 chain's inputs. They are read in a run for that chain
    /// only, and may hold anything in a run for the base chain.
    pub l2: L2Inputs,
}

/// How a run ended.
#[derive(Debug, PartialEq, Eq)]
pub enum Outcome {
    /// The selection named no chain: nothing was drawn or computed.
    Rejected(InvalidSelection),
    /// The run was simulated to its last day.
    Reported(SimulationReport),
}

impl RunInputs {
    /// The configuration of a run with these inputs for the given chain.
    pub open spec fn spec_config(self, chain: Chain) -> SimulationConfig {
        SimulationConfig {
            days: self.days,
            gas_price: self.gas_price,
            gas_used: self.gas_used,
            l2: match chain {
                Chain::Ethereum => None,
                Chain::Mantle => Some(self.l2),
            },
        }
    }

    /// The configuration of a run with these inputs for the given chain:
    /// the layer-2 chain's inputs enter it where the run is for that chain.
    pub fn config(&self, chain: Chain) -> (r: SimulationConfig)
        ensures
            r == self.spec_config(chain),
    {
        match chain {
            Chain::Ethereum => SimulationConfig::ethereum(self.days, self.gas_price, self.gas_used),
            Chain::Mantle => SimulationConfig::mantle(
                self.days,
                self.gas_price,
                self.gas_used,
                self.l2.gas_price,
                self.l2.gas_used,
            ),
        }
    }
}

impl Outcome {
    /// The lines that the run puts out: of a rejected run the notice alone,
    /// of any other the lines of its report.
    pub open spec fn spec_lines(self) -> Seq<Seq<char>> {
        match self {
            Outcome::Rejected(_) => seq![spec_rejection_notice()],
            Outcome::Reported(report) => spec_report_lines(report),
        }
    }

    /// The lines that the run puts out, in order. A rejected run puts out
    /// its notice and no line of fees; any other puts out two lines for
    /// each day and then the totals.
    pub fn lines(&self) -> (lines: Vec<String>)
        ensures
            lines@.len() == self.spec_lines().len(),
            forall|i: int| 0 <= i < lines@.len() ==> (#[trigger] lines@[i])@ == self.spec_lines()[i],
    {
        match self {
            Outcome::Rejected(_) => {
                let mut lines: Vec<String> = Vec::new();
                lines.push(rejection_notice());
                lines
            },
            Outcome::Reported(report) => report_lines(report),
        }
    }
}

/// Runs from the selection to the outcome.
///
/// A selection that names no chain ends the run as `Rejected`, whatever
/// the other inputs are: that is an outcome, not a failure. With a chain
/// selected, the run is configured from the inputs for that chain and
/// simulated, and what holds of the simulation holds of the run: the
/// report is that of the gas prices it records, each of which lies in its
/// range; a run of some days fails with `InvalidRange` exactly where a
/// range has its ends out of order; and no total overflows where as many
/// days at the highest gas prices fit in 128 bits.
pub fn run(selection: i64, inputs: &RunInputs, prices: &AssetPrices) -> (r: Result<
    Outcome,
    SimulationError,
>)
    ensures
        match spec_select_chain(selection as int) {
            None => r == Ok::<Outcome, SimulationError>(
                Outcome::Rejected(InvalidSelection { selection }),
            ),
            Some(chain) => {
                let config = inputs.spec_config(chain);
                &&& match r {
                    Ok(Outcome::Rejected(_)) => false,
                    Ok(Outcome::Reported(report)) => report.matches(config, *prices)
                        && report.within(config),
                    Err(SimulationError::InvalidRange) => config.days > 0
                        && !config.ranges_valid(),
                    Err(SimulationError::Overflow) => {
                        &&& config.days > 0
                        &&& config.ranges_valid()
                        &&& (config.spec_highest_total_fee() > u128::MAX
                            || config.spec_highest_total_usd(*prices) > u128::MAX)
                    },
                    Err(SimulationError::DrawCountMismatch) => false,
                }
                &&& (config.days == 0 ==> match r {
                    Ok(Outcome::Reported(report)) => report.days@.len() == 0 && report.total_fee
                        == 0 && report.total_usd == 0,
                    _ => false,
                })
                &&& (config.days > 0 && !config.ranges_valid() ==> r == Err::<
                    Outcome,
                    SimulationError,
                >(SimulationError::InvalidRange))
                &&& ((config.days == 0 || config.ranges_valid()) && config.spec_highest_total_fee()
                    <= u128::MAX && config.spec_highest_total_usd(*prices) <= u128::MAX ==> r is Ok)
            },
        },
{
    match select_chain(selection) {
        Err(rejected) => Ok(Outcome::Rejected(rejected)),
        Ok(chain) => {
            let config = inputs.config(chain);
            match simulate(&config, prices) {
                Ok(report) => Ok(Outcome::Reported(report)),
                Err(e) => Err(e),
            }
        },
    }
}

} // verus!
