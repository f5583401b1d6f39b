//! Transactions of fiat wallets.

use crate::model::{InOrOut, Timestamp, TransactionStatus, TransactionType};
use rust_decimal::Decimal;
use vstd::prelude::*;

verus! {

/// A transaction of a fiat wallet.
#[derive(Debug, Clone, Eq, PartialEq, Hash)]
pub struct FiatWalletTransaction {
    pub amount: Decimal,
    pub datetime: Timestamp,
    pub fee: Decimal,
    pub fiat_id: String,
    pub id: String,
    pub in_or_out: InOrOut,
    pub status: TransactionStatus,
    pub to_eur_rate: Decimal,
    pub transaction_type: TransactionType,
    pub user_id: String,
    pub wallet_id: String,
}

} // verus!
