//! Assets.

use vstd::prelude::*;
use vstd::string::*;

verus! {

/// The class of an asset.
#[derive(Debug, PartialEq, Eq, Clone, Copy, Hash)]
pub enum AssetClass {
    Commodity,
    Cryptocurrency,
    Cryptoindex,
    Etf,
    Metal,
    Stock,
}

impl AssetClass {
    /// The token that names the class in a query.
    pub open spec fn token(self) -> Seq<char> {
        match self {
            AssetClass::Commodity => "etc"@,
            AssetClass::Cryptocurrency => "cryptocoin"@,
            AssetClass::Cryptoindex => "cryptocoin"@,
            AssetClass::Etf => "etf"@,
            AssetClass::Metal => "metal"@,
            AssetClass::Stock => "stock"@,
        }
    }

    /// Writes the class as its query token.
    pub fn to_string(&self) -> (r: String)
        ensures
            r@ == self.token(),
    {
        match self {
            AssetClass::Commodity => "etc",
            AssetClass::Cryptocurrency => "cryptocoin",
            AssetClass::Cryptoindex => "cryptocoin",
            AssetClass::Etf => "etf",
            AssetClass::Metal => "metal",
            AssetClass::Stock => "stock",
        }.to_owned()
    }
}

/// An asset offered by the exchange.
#[derive(Debug, Clone, Hash, PartialEq, Eq)]
pub struct Asset {
    pub id: String,
    /// Identifier under which the price chart is found.
    pub pid: String,
    pub name: String,
    pub symbol: String,
    pub type_: AssetClass,
}

} // verus!
