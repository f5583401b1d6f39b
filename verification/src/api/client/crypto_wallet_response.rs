//! The answer to a request for the cryptocurrency wallets.

use crate::model::CryptoWallet;
use rust_decimal::Decimal;
use vstd::prelude::*;

verus! {

/// The payload.
pub struct CryptoWalletResponse {
    pub data: Vec<Wallet>,
}

/// One wallet record.
pub struct Wallet {
    pub attributes: Attributes,
    pub id: String,
}

/// The fields of a wallet record.
pub struct Attributes {
    pub balance: Decimal,
    pub cryptocoin_id: String,
    pub cryptocoin_symbol: String,
    pub deleted: bool,
    pub is_default: bool,
    pub name: String,
    pub pending_transactions_count: usize,
}

impl Wallet {
    /// The wallet as a domain value.
    pub open spec fn crypto_wallet(self) -> CryptoWallet {
        CryptoWallet {
            id: self.id,
            balance: self.attributes.balance,
            cryptocoin_id: self.attributes.cryptocoin_id,
            deleted: self.attributes.deleted,
            is_default: self.attributes.is_default,
            name: self.attributes.name,
            pending_transactions_count: self.attributes.pending_transactions_count,
            symbol: self.attributes.cryptocoin_symbol,
        }
    }
}

impl CryptoWalletResponse {
    /// The wallets of the payload, one for one and in order.
    pub open spec fn wallets(self) -> Seq<CryptoWallet> {
        Seq::new(self.data@.len(), |i: int| self.data@[i].crypto_wallet())
    }

    /// Turns the payload into domain values.
    pub fn into_crypto_wallets(self) -> (r: Vec<CryptoWallet>)
        ensures
            r@ == self.wallets(),
    {
        let ghost all = self.data@;
        let mut wallets = Vec::with_capacity(self.data.len());
        for wallet in it: self.data.into_iter()
            invariant
                it.seq() == all,
                wallets@.len() == it.index(),
                forall|i: int| 0 <= i < wallets@.len() ==> wallets@[i] == all[i].crypto_wallet(),
        {
            wallets.push(
                CryptoWallet {
                    id: wallet.id,
                    balance: wallet.attributes.balance,
                    cryptocoin_id: wallet.attributes.cryptocoin_id,
                    deleted: wallet.attributes.deleted,
                    is_default: wallet.attributes.is_default,
                    name: wallet.attributes.name,
                    pending_transactions_count: wallet.attributes.pending_transactions_count,
                    symbol: wallet.attributes.cryptocoin_symbol,
                },
            );
        }
        assert(wallets@ =~= self.wallets());
        wallets
    }
}

} // verus!
