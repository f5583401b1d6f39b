//! The answer to a request for the fiat wallets.

use crate::model::FiatWallet;
use rust_decimal::Decimal;
use vstd::prelude::*;

verus! {

/// The payload.
pub struct FiatWalletResponse {
    pub data: Vec<Wallet>,
}

/// One wallet record.
pub struct Wallet {
    pub id: String,
    pub attributes: Attributes,
}

/// The fields of a wallet record.
pub struct Attributes {
    pub fiat_id: String,
    pub fiat_symbol: String,
    pub balance: Decimal,
    pub name: String,
    pub pending_transactions_count: usize,
}

impl Wallet {
    /// The wallet as a domain value.
    pub open spec fn fiat_wallet(self) -> FiatWallet {
        FiatWallet {
            balance: self.attributes.balance,
            fiat_id: self.attributes.fiat_id,
            id: self.id,
            name: self.attributes.name,
            pending_transactions_count: self.attributes.pending_transactions_count,
            symbol: self.attributes.fiat_symbol,
        }
    }
}

impl FiatWalletResponse {
    /// The wallets of the payload, one for one and in order.
    pub open spec fn wallets(self) -> Seq<FiatWallet> {
        Seq::new(self.data@.len(), |i: int| self.data@[i].fiat_wallet())
    }

    /// Turns the payload into domain values.
    pub fn into_fiat_wallets(self) -> (r: Vec<FiatWallet>)
        ensures
            r@ == self.wallets(),
    {
        let ghost all = self.data@;
        let mut wallets = Vec::with_capacity(self.data.len());
        for wallet in it: self.data.into_iter()
            invariant
                it.seq() == all,
                wallets@.len() == it.index(),
                forall|i: int| 0 <= i < wallets@.len() ==> wallets@[i] == all[i].fiat_wallet(),
        {
            wallets.push(
                FiatWallet {
                    balance: wallet.attributes.balance,
                    fiat_id: wallet.attributes.fiat_id,
                    id: wallet.id,
                    name: wallet.attributes.name,
                    pending_transactions_count: wallet.attributes.pending_transactions_count,
                    symbol: wallet.attributes.fiat_symbol,
                },
            );
        }
        assert(wallets@ =~= self.wallets());
        wallets
    }
}

} // verus!
