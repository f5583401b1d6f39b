//! Cryptocurrency wallets.

use rust_decimal::Decimal;
use vstd::prelude::*;

pub mod transaction;

pub use transaction::CryptoWalletTransaction;

verus! {

/// A wallet that holds a cryptocurrency.
#[derive(Debug, Clone, Eq, PartialEq, Hash)]
pub struct CryptoWallet {
    pub balance: Decimal,
    pub cryptocoin_id: String,
    pub deleted: bool,
    pub id: String,
    pub is_default: bool,
    pub name: String,
    pub pending_transactions_count: usize,
    pub symbol: String,
}

} // verus!
