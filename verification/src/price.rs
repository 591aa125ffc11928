//! What the price feed answers, and the two asset prices that a run needs.

use vstd::prelude::*;

verus! {

/// How many millionths make one US dollar: the unit of every asset price.
pub const MICROS_PER_DOLLAR: u64 = 1_000_000;

/// What the feed knows of one asset.
#[derive(Clone, Copy, Debug, PartialEq, Eq, Structural)]
pub struct CurrencyInfo {
    /// The asset's price, in millionths of a US dollar.
    pub usd: u64,
}

/// The feed's answer: one entry for each asset that was asked for, absent
/// where the feed does not know the asset.
#[derive(Clone, Copy, Debug, PartialEq, Eq, Structural)]
pub struct CoinGeckoResponse {
    /// The base chain's coin.
    pub ethereum: Option<CurrencyInfo>,
    /// The layer-2 chain's coin.
    pub mantle: Option<CurrencyInfo>,
}

/// Why an answer of the feed cannot be used.
#[derive(Clone, Copy, Debug, PartialEq, Eq, Structural)]
pub enum PriceFeedError {
    /// The answer holds no price for the base chain's coin.
    EthereumPriceNotFound,
    /// The answer holds no price for the layer-2 chain's coin.
    MantlePriceNotFound,
}

/// The prices of the two coins, each in millionths of a US dollar. They
/// are read once and do not change during a run.
#[derive(Clone, Copy, Debug, PartialEq, Eq, Structural)]
pub struct AssetPrices {
    /// The price of one ETH.
    pub eth_usd: u64,
    /// The price of one MNT.
    pub mnt_usd: u64,
}

impl CoinGeckoResponse {
    /// The prices that an answer gives, or what it lacks. The base chain's
    /// coin is looked up first, so an answer that lacks both coins is
    /// reported as lacking that one.
    pub open spec fn spec_prices(self) -> Result<AssetPrices, PriceFeedError> {
        match (self.ethereum, self.mantle) {
            (None, _) => Err(PriceFeedError::EthereumPriceNotFound),
            (Some(_), None) => Err(PriceFeedError::MantlePriceNotFound),
            (Some(eth), Some(mnt)) => Ok(AssetPrices { eth_usd: eth.usd, mnt_usd: mnt.usd }),
        }
    }

    /// Takes both prices out of the feed's answer. An answer that lacks
    /// either coin is an error: a run needs both prices before it starts,
    /// whichever chain it is for.
    pub fn prices(&self) -> (r: Result<AssetPrices, PriceFeedError>)
        ensures
            r == self.spec_prices(),
    {
        match self.ethereum {
            None => Err(PriceFeedError::EthereumPriceNotFound),
            Some(eth) => match self.mantle {
                None => Err(PriceFeedError::MantlePriceNotFound),
                Some(mnt) => Ok(AssetPrices { eth_usd: eth.usd, mnt_usd: mnt.usd }),
            },
        }
    }
}

impl AssetPrices {
    /// The price of the coin in which a chain's fees are paid.
    pub open spec fn spec_price_of(self, chain: crate::chain::Chain) -> u64 {
        match chain {
            crate::chain::Chain::Ethereum => self.eth_usd,
            crate::chain::Chain::Mantle => self.mnt_usd,
        }
    }

    /// The price of the coin in which a chain's fees are paid, in
    /// millionths of a US dollar.
    pub fn price_of(&self, chain: crate::chain::Chain) -> (r: u64)
        ensures
            r == self.spec_price_of(chain),
    {
        match chain {
            crate::chain::Chain::Ethereum => self.eth_usd,
            crate::chain::Chain::Mantle => self.mnt_usd,
        }
    }
}

} // verus!
