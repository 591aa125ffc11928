//! The lines that a run puts out: two for each day, and the totals.

use vstd::prelude::*;
use vstd::string::StringExecFns;
use crate::chain::Chain;
use crate::decimal::{decimal, fixed_point, pow10, push_decimal, push_decimal_padded};
use crate::fee::WEI_PER_COIN;
use crate::simulation::{DayResult, SimulationReport};

verus! {

/// How many units of 10^-24 dollars make one cent.
pub const USD_UNITS_PER_CENT: u128 = 10_000_000_000_000_000_000_000;

/// An amount of wei, written in coins with 18 digits behind the point.
/// Nothing is rounded: a wei is 10^-18 of a coin.
pub open spec fn coins_text(wei: nat) -> Seq<char> {
    fixed_point(wei, 18)
}

/// A dollar value in 10^-24 dollars, rounded to whole cents: to the
/// nearest cent, and of two that are equally near to the even one.
pub open spec fn spec_cents(usd: nat) -> nat {
    let whole = usd / (USD_UNITS_PER_CENT as nat);
    let rest = usd % (USD_UNITS_PER_CENT as nat);
    if 2 * rest > USD_UNITS_PER_CENT || (2 * rest == USD_UNITS_PER_CENT && whole % 2 == 1) {
        whole + 1
    } else {
        whole
    }
}

/// A dollar value in 10^-24 dollars, written in dollars with two digits
/// behind the point.
pub open spec fn dollars_text(usd: nat) -> Seq<char> {
    fixed_point(spec_cents(usd), 2)
}

/// The first line of a day: its number and its fee.
pub open spec fn spec_day_fee_line(chain: Chain, day: nat, fee: nat) -> Seq<char> {
    "Day "@ + decimal(day) + ": Total Transaction Fee: "@ + coins_text(fee) + " "@
        + chain.spec_unit()
}

/// The second line of a day: what its fee is worth.
pub open spec fn spec_day_usd_line(usd: nat) -> Seq<char> {
    "(~$"@ + dollars_text(usd) + " USD)"@
}

/// The line of the total fee.
pub open spec fn spec_total_fee_line(chain: Chain, days: nat, total_fee: nat) -> Seq<char> {
    "Total "@ + chain.spec_unit() + " fees over "@ + decimal(days) + " days: "@ + coins_text(
        total_fee,
    ) + " "@ + chain.spec_unit()
}

/// The line of the total dollar value.
pub open spec fn spec_total_usd_line(total_usd: nat) -> Seq<char> {
    "Total USD equivalent: $"@ + dollars_text(total_usd)
}

/// What is said to a user whose selection names no chain.
pub open spec fn spec_rejection_notice() -> Seq<char> {
    "Invalid selection. Please run the program again."@
}

/// All lines of a report in the order in which they are put out: for each
/// day its fee line and its dollar line, then an empty line, the line of
/// the total fee and the line of the total dollar value.
pub open spec fn spec_report_lines(report: SimulationReport) -> Seq<Seq<char>> {
    let n = report.days@.len() as int;
    Seq::new(
        (2 * n + 3) as nat,
        |i: int|
            if 0 <= i < 2 * n {
                let entry = report.days@[i / 2];
                if i % 2 == 0 {
                    spec_day_fee_line(report.chain, entry.day as nat, entry.fee as nat)
                } else {
                    spec_day_usd_line(entry.usd as nat)
                }
            } else if i == 2 * n {
                Seq::<char>::empty()
            } else if i == 2 * n + 1 {
                spec_total_fee_line(report.chain, n as nat, report.total_fee as nat)
            } else {
                spec_total_usd_line(report.total_usd as nat)
            },
    )
}

/// The two powers of ten by which amounts are split at the point.
pub proof fn lemma_pow10_values()
    ensures
        pow10(2) == 100,
        pow10(18) == WEI_PER_COIN,
{
    reveal_with_fuel(pow10, 19);
}

/// Rounding to cents picks a nearest cent: the rounded value is no more
/// than half a cent away, and where it is exactly half a cent away the
/// number of cents is even.
pub proof fn law_cents_nearest(usd: nat)
    ensures
        2 * (spec_cents(usd) * USD_UNITS_PER_CENT - usd) <= USD_UNITS_PER_CENT,
        2 * (usd - spec_cents(usd) * USD_UNITS_PER_CENT) <= USD_UNITS_PER_CENT,
        2 * (spec_cents(usd) * USD_UNITS_PER_CENT - usd) == USD_UNITS_PER_CENT || 2 * (usd
            - spec_cents(usd) * USD_UNITS_PER_CENT) == USD_UNITS_PER_CENT ==> spec_cents(usd) % 2
            == 0,
{
    let unit = USD_UNITS_PER_CENT as int;
    let whole = (usd as int) / unit;
    let rest = (usd as int) % unit;
    vstd::arithmetic::div_mod::lemma_fundamental_div_mod(usd as int, unit);
    assert(unit * whole == whole * unit) by (nonlinear_arith);
    assert((whole + 1) * unit == whole * unit + unit) by (nonlinear_arith);
}

/// A dollar value in 10^-24 dollars, rounded to whole cents: to the
/// nearest cent, and of two that are equally near to the even one.
pub fn cents(usd: u128) -> (r: u128)
    ensures
        r == spec_cents(usd as nat),
{
    let whole: u128 = usd / USD_UNITS_PER_CENT;
    let rest: u128 = usd % USD_UNITS_PER_CENT;
    let half: u128 = USD_UNITS_PER_CENT / 2;
    if rest > half || (rest == half && whole % 2 == 1) {
        whole + 1
    } else {
        whole
    }
}

/// Appends an amount of wei in coins, with 18 digits behind the point.
pub fn push_coins(text: &mut String, wei: u128)
    ensures
        final(text)@ == old(text)@ + coins_text(wei as nat),
{
    proof {
        lemma_pow10_values();
    }
    push_decimal(text, wei / WEI_PER_COIN);
    text.push('.');
    push_decimal_padded(text, wei % WEI_PER_COIN, 18);
    assert(final(text)@ =~= old(text)@ + coins_text(wei as nat));
}

/// Appends a dollar value in dollars, with two digits behind the point.
pub fn push_dollars(text: &mut String, usd: u128)
    ensures
        final(text)@ == old(text)@ + dollars_text(usd as nat),
{
    proof {
        lemma_pow10_values();
    }
    let rounded: u128 = cents(usd);
    push_decimal(text, rounded / 100);
    text.push('.');
    push_decimal_padded(text, rounded % 100, 2);
    assert(final(text)@ =~= old(text)@ + dollars_text(usd as nat));
}

/// The first line of a day: `Day`, the day's number, and the fee in coins
/// with 18 digits behind the point and the chain's unit.
pub fn day_fee_line(chain: Chain, day: u64, fee: u128) -> (line: String)
    ensures
        line@ == spec_day_fee_line(chain, day as nat, fee as nat),
{
    let mut line = String::from_str("Day ");
    push_decimal(&mut line, day as u128);
    line.append(": Total Transaction Fee: ");
    push_coins(&mut line, fee);
    line.append(" ");
    line.append(chain.unit());
    line
}

/// The second line of a day: the fee's dollar value, to the cent.
pub fn day_usd_line(usd: u128) -> (line: String)
    ensures
        line@ == spec_day_usd_line(usd as nat),
{
    let mut line = String::from_str("(~$");
    push_dollars(&mut line, usd);
    line.append(" USD)");
    line
}

/// The line of the total fee: the chain's unit, the number of days, and
/// the total in coins with 18 digits behind the point.
pub fn total_fee_line(chain: Chain, days: u64, total_fee: u128) -> (line: String)
    ensures
        line@ == spec_total_fee_line(chain, days as nat, total_fee as nat),
{
    let mut line = String::from_str("Total ");
    line.append(chain.unit());
    line.append(" fees over ");
    push_decimal(&mut line, days as u128);
    line.append(" days: ");
    push_coins(&mut line, total_fee);
    line.append(" ");
    line.append(chain.unit());
    line
}

/// The line of the total dollar value, to the cent.
pub fn total_usd_line(total_usd: u128) -> (line: String)
    ensures
        line@ == spec_total_usd_line(total_usd as nat),
{
    let mut line = String::from_str("Total USD equivalent: $");
    push_dollars(&mut line, total_usd);
    line
}

/// What is said to a user whose selection names no chain. A run that ends
/// so puts out this line and no other.
pub fn rejection_notice() -> (line: String)
    ensures
        line@ == spec_rejection_notice(),
{
    String::from_str("Invalid selection. Please run the program again.")
}

/// All lines of a report, in the order in which they are put out: two for
/// each day, an empty line, and the two lines of the totals.
pub fn report_lines(report: &SimulationReport) -> (lines: Vec<String>)
    ensures
        lines@.len() == spec_report_lines(*report).len(),
        forall|i: int|
            0 <= i < lines@.len() ==> (#[trigger] lines@[i])@ == spec_report_lines(*report)[i],
{
    let n: usize = report.days.len();
    let mut lines: Vec<String> = Vec::new();
    let mut k: usize = 0;
    while k < n
        invariant
            k <= n,
            n == report.days@.len(),
            lines@.len() == 2 * k,
            forall|i: int|
                0 <= i < lines@.len() ==> (#[trigger] lines@[i])@ == spec_report_lines(*report)[i],
        decreases n - k,
    {
        let entry: DayResult = report.days[k];
        let first = day_fee_line(report.chain, entry.day, entry.fee);
        let second = day_usd_line(entry.usd);
        lines.push(first);
        lines.push(second);
        k += 1;
    }
    lines.push(String::new());
    lines.push(total_fee_line(report.chain, n as u64, report.total_fee));
    lines.push(total_usd_line(report.total_usd));
    lines
}

} // verus!
