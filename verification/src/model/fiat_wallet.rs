//! Fiat wallets.

use rust_decimal::Decimal;
use vstd::prelude::*;

pub mod transaction;

pub use transaction::FiatWalletTransaction;

verus! {

/// A wallet that holds a fiat currency.
#[derive(Debug, Clone, Eq, PartialEq, Hash)]
pub struct FiatWallet {
    pub balance: Decimal,
    pub fiat_id: String,
    pub id: String,
    pub name: String,
    pub pending_transactions_count: usize,
    pub symbol: String,
}

} // verus!
