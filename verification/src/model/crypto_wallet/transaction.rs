//! Transactions of cryptocurrency wallets.

use crate::model::{InOrOut, Timestamp, TransactionStatus, TransactionType};
use rust_decimal::Decimal;
use vstd::prelude::*;

verus! {

/// A transaction of a cryptocurrency wallet.
#[derive(Debug, Clone, Eq, PartialEq, Hash)]
pub struct CryptoWalletTransaction {
    pub amount_eur: Decimal,
    pub amount: Decimal,
    pub confirmations: usize,
    pub cryptocoin_id: String,
    pub current_fiat_amount: Decimal,
    pub current_fiat_id: String,
    pub datetime: Timestamp,
    pub fee: Decimal,
    pub id: String,
    pub in_or_out: InOrOut,
    pub recipient: String,
    pub status: TransactionStatus,
    pub transaction_type: TransactionType,
    pub wallet_id: String,
}

} // verus!
