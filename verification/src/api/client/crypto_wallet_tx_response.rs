//! One page of the transactions of the cryptocurrency wallets.

use crate::api::batch::{all_or_first_error, lemma_error_persists};
use crate::api::pagination::Links;
use crate::api::{ApiError, ApiResult};
use crate::model::crypto_wallet::CryptoWalletTransaction;
use crate::model::{InOrOut, Timestamp, TransactionStatus, TransactionType};
use rust_decimal::Decimal;
use vstd::prelude::*;

verus! {

/// The payload.
pub struct CryptoWalletTxResponse {
    pub data: Vec<Data>,
    pub links: Links,
}

/// One transaction record.
pub struct Data {
    pub id: String,
    pub attributes: Attributes,
}

/// The fields of a transaction record; direction, type and status are
/// still the tokens that were received.
pub struct Attributes {
    pub amount: Decimal,
    pub recipient: String,
    pub time: Time,
    pub confirmations: usize,
    pub in_or_out: String,
    pub type_: String,
    pub status: String,
    pub amount_eur: Decimal,
    pub wallet_id: String,
    pub cryptocoin_id: String,
    pub fee: Decimal,
    pub current_fiat_id: String,
    pub current_fiat_amount: Decimal,
}

/// The time of a record.
pub struct Time {
    pub date_iso8601: Timestamp,
}

impl Data {
    /// The record as a transaction, or the first of its direction, status
    /// and type, in this order, that is no known token.
    pub open spec fn transaction(self) -> Result<CryptoWalletTransaction, Seq<char>> {
        match InOrOut::parse(self.attributes.in_or_out@) {
            None => Err(self.attributes.in_or_out@),
            Some(in_or_out) => match TransactionStatus::parse(self.attributes.status@) {
                None => Err(self.attributes.status@),
                Some(status) => match TransactionType::parse(self.attributes.type_@) {
                    None => Err(self.attributes.type_@),
                    Some(transaction_type) => Ok(
                        CryptoWalletTransaction {
                            amount: self.attributes.amount,
                            amount_eur: self.attributes.amount_eur,
                            confirmations: self.attributes.confirmations,
                            cryptocoin_id: self.attributes.cryptocoin_id,
                            current_fiat_amount: self.attributes.current_fiat_amount,
                            current_fiat_id: self.attributes.current_fiat_id,
                            datetime: self.attributes.time.date_iso8601,
                            fee: self.attributes.fee,
                            id: self.id,
                            in_or_out,
                            recipient: self.attributes.recipient,
                            status,
                            transaction_type,
                            wallet_id: self.attributes.wallet_id,
                        },
                    ),
                },
            },
        }
    }
}

impl CryptoWalletTransaction {
    /// Validates a record and turns it into a transaction.
    pub fn try_from(data: Data) -> (r: Result<Self, ApiError>)
        ensures
            match data.transaction() {
                Ok(tx) => r == Ok::<Self, ApiError>(tx),
                Err(token) => r is Err && r->Err_0.unexpected_token() == Some(token),
            },
    {
        let in_or_out = match InOrOut::from_str(data.attributes.in_or_out.as_str()) {
            Ok(v) => v,
            Err(e) => {
                return Err(e);
            },
        };
        let status = match TransactionStatus::from_str(data.attributes.status.as_str()) {
            Ok(v) => v,
            Err(e) => {
                return Err(e);
            },
        };
        let transaction_type = match TransactionType::from_str(data.attributes.type_.as_str()) {
            Ok(v) => v,
            Err(e) => {
                return Err(e);
            },
        };
        Ok(
            CryptoWalletTransaction {
                amount: data.attributes.amount,
                amount_eur: data.attributes.amount_eur,
                confirmations: data.attributes.confirmations,
                cryptocoin_id: data.attributes.cryptocoin_id,
                current_fiat_amount: data.attributes.current_fiat_amount,
                current_fiat_id: data.attributes.current_fiat_id,
                datetime: data.attributes.time.date_iso8601,
                fee: data.attributes.fee,
                id: data.id,
                in_or_out,
                recipient: data.attributes.recipient,
                status,
                transaction_type,
                wallet_id: data.attributes.wallet_id,
            },
        )
    }
}

/// The outcome of each record of a page.
pub open spec fn outcomes(data: Seq<Data>) -> Seq<Result<CryptoWalletTransaction, Seq<char>>> {
    Seq::new(data.len(), |i: int| data[i].transaction())
}

impl CryptoWalletTxResponse {
    /// The number of the page that follows, if the page names one.
    pub fn next_page(&self) -> (r: Option<usize>)
        ensures
            r == self.links.page(),
    {
        self.links.next_page()
    }

    /// The transactions of the page, one for one and in order, or the
    /// token that the first invalid record holds.
    pub open spec fn transactions(self) -> Result<Seq<CryptoWalletTransaction>, Seq<char>> {
        all_or_first_error(outcomes(self.data@))
    }

    /// Turns the page into transactions. One invalid record fails the
    /// whole page with the error of the first such record.
    pub fn into_transactions(self) -> (r: ApiResult<Vec<CryptoWalletTransaction>>)
        ensures
            match self.transactions() {
                Ok(txs) => r is Ok && r->Ok_0@ == txs,
                Err(token) => r is Err && r->Err_0.unexpected_token() == Some(token),
            },
    {
        let ghost all = self.data@;
        let mut txs = Vec::with_capacity(self.data.len());
        for tx in it: self.data.into_iter()
            invariant
                it.seq() == all,
                all_or_first_error(outcomes(all).take(it.index() as int)) == Ok::<
                    Seq<CryptoWalletTransaction>,
                    Seq<char>,
                >(txs@),
        {
            let ghost k = it.index() as int;
            proof {
                assert(outcomes(all).take(k + 1).drop_last() =~= outcomes(all).take(k));
            }
            match CryptoWalletTransaction::try_from(tx) {
                Ok(tx) => {
                    txs.push(tx);
                },
                Err(e) => {
                    proof {
                        lemma_error_persists(outcomes(all), k + 1);
                    }
                    return Err(e);
                },
            }
        }
        assert(outcomes(all).take(all.len() as int) =~= outcomes(all));
        Ok(txs)
    }
}

} // verus!
