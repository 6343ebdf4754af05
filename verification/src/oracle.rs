//! What the price oracle reported, and what the engine accepts of it.

use vstd::prelude::*;
use crate::error::TradeError;

verus! {

/// One reading of a price feed.
#[derive(Clone, Debug)]
pub struct OracleReading {
    /// The asset that the feed says it prices.
    pub asset_label: String,
    /// The price, scaled by ten to the power of `decimals`.
    pub price: i128,
    /// How many decimal places `price` carries.
    pub decimals: u8,
    /// When the feed last changed, in seconds.
    pub updated_at: u32,
}

/// A reading as a mathematical value.
pub struct OracleView {
    pub asset_label: Seq<char>,
    pub price: int,
    pub decimals: u8,
    pub updated_at: int,
}

impl View for OracleReading {
    type V = OracleView;

    open spec fn view(&self) -> OracleView {
        OracleView {
            asset_label: self.asset_label@,
            price: self.price as int,
            decimals: self.decimals,
            updated_at: self.updated_at as int,
        }
    }
}

/// The price that a reading gives for a symbol: the reading must be of that
/// asset, and a price of zero means that the feed has none.
pub open spec fn spec_price(reading: OracleView, symbol: Seq<char>) -> Result<int, TradeError> {
    if reading.asset_label != symbol {
        Err(TradeError::OracleAssetMismatch)
    } else if reading.price == 0 {
        Err(TradeError::OracleDataUnavailable)
    } else {
        Ok(reading.price)
    }
}

impl OracleReading {
    /// Whether the reading is of the asset named `symbol`.
    pub fn is_for(&self, symbol: &String) -> (same: bool)
        ensures
            same == (self@.asset_label == symbol@),
    {
        self.asset_label == *symbol
    }

    /// The price for `symbol`. Fails with `OracleAssetMismatch` where the
    /// reading is of another asset, else with `OracleDataUnavailable` where
    /// the price is zero.
    pub fn price_for(&self, symbol: &String) -> (r: Result<i128, TradeError>)
        ensures
            match spec_price(self@, symbol@) {
                Ok(price) => r matches Ok(p) && p == price,
                Err(e) => r == Err::<i128, TradeError>(e),
            },
    {
        if !self.is_for(symbol) {
            Err(TradeError::OracleAssetMismatch)
        } else if self.price == 0 {
            Err(TradeError::OracleDataUnavailable)
        } else {
            Ok(self.price)
        }
    }
}

} // verus!
