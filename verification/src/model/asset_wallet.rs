//! Asset wallets.

use super::AssetClass;
use rust_decimal::Decimal;
use vstd::prelude::*;

verus! {

/// A wallet that holds one asset of any class.
#[derive(Debug, Clone, PartialEq, Eq)]
pub struct AssetWallet {
    pub asset_id: String,
    pub asset_symbol: String,
    pub balance: Decimal,
    pub class: AssetClass,
    pub deleted: bool,
    pub id: String,
    pub is_default: bool,
    pub name: String,
}

} // verus!
