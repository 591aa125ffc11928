//! The two chains whose fees can be estimated, and how a caller picks one.

use vstd::prelude::*;

verus! {

/// A chain that fees are estimated for.
#[derive(Clone, Copy, Debug, PartialEq, Eq, Structural)]
pub enum Chain {
    /// The base chain; it is paid in ETH.
    Ethereum,
    /// The layer-2 chain; it is paid in MNT.
    Mantle,
}

/// A chain selection that names no chain.
#[derive(Clone, Copy, Debug, PartialEq, Eq, Structural)]
pub struct InvalidSelection {
    /// The number that was entered.
    pub selection: i64,
}

/// The chain that a selection stands for: 1 is the base chain, 2 the
/// layer-2 chain, and no other number stands for a chain.
pub open spec fn spec_select_chain(selection: int) -> Option<Chain> {
    if selection == 1 {
        Some(Chain::Ethereum)
    } else if selection == 2 {
        Some(Chain::Mantle)
    } else {
        None
    }
}

/// Turns the number that a user entered into a chain. Any number but 1
/// and 2 is handed back as an `InvalidSelection`; a run that meets one ends
/// without estimating anything, and is no failure.
pub fn select_chain(selection: i64) -> (r: Result<Chain, InvalidSelection>)
    ensures
        match spec_select_chain(selection as int) {
            Some(chain) => r == Ok::<Chain, InvalidSelection>(chain),
            None => r == Err::<Chain, InvalidSelection>(InvalidSelection { selection }),
        },
{
    if selection == 1 {
        Ok(Chain::Ethereum)
    } else if selection == 2 {
        Ok(Chain::Mantle)
    } else {
        Err(InvalidSelection { selection })
    }
}

impl Chain {
    /// The ticker of the coin in which the chain's fees are paid.
    pub open spec fn spec_unit(self) -> Seq<char> {
        match self {
            Chain::Ethereum => "ETH"@,
            Chain::Mantle => "MNT"@,
        }
    }

    /// The ticker of the coin in which the chain's fees are paid: `ETH` for
    /// the base chain, `MNT` for the layer-2 chain.
    pub fn unit(&self) -> (r: &'static str)
        ensures
            r@ == self.spec_unit(),
    {
        match self {
            Chain::Ethereum => "ETH",
            Chain::Mantle => "MNT",
        }
    }
}

} // verus!
