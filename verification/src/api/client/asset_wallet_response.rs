//! The answer to a request for the asset wallets: six collections of
//! wallets, one per asset class, each at its own place in the payload.

use crate::model::{AssetClass, AssetWallet};
use rust_decimal::Decimal;
use vstd::prelude::*;

verus! {

/// The payload.
pub struct AssetWalletResponse {
    pub data: Data,
}

/// The body of the payload.
pub struct Data {
    pub attributes: Attributes,
}

/// The collections, by kind of asset.
pub struct Attributes {
    pub cryptocoin: WalletCollection,
    pub commodity: CommodityWalletCollection,
    pub index: IndexWalletCollection,
    pub security: SecurityWalletCollection,
}

/// One collection of wallets.
pub struct WalletCollection {
    pub attributes: WalletCollectionAttributes,
}

/// The wallets of a collection.
pub struct WalletCollectionAttributes {
    pub wallets: Vec<Wallet>,
}

/// One wallet record.
pub struct Wallet {
    pub id: String,
    pub attributes: WalletAttributes,
}

/// The fields of a wallet record.
pub struct WalletAttributes {
    pub cryptocoin_id: String,
    pub cryptocoin_symbol: String,
    pub balance: Decimal,
    pub is_default: bool,
    pub name: String,
    pub deleted: bool,
}

/// The commodities that are held as metal.
pub struct CommodityWalletCollection {
    pub metal: WalletCollection,
}

/// The crypto indices.
pub struct IndexWalletCollection {
    pub index: WalletCollection,
}

/// The securities: commodities, funds and stocks.
pub struct SecurityWalletCollection {
    pub etc: WalletCollection,
    pub etf: WalletCollection,
    pub stock: WalletCollection,
}

impl Wallet {
    /// The wallet as a domain value of the given class.
    pub open spec fn asset_wallet(self, class: AssetClass) -> AssetWallet {
        AssetWallet {
            asset_id: self.attributes.cryptocoin_id,
            asset_symbol: self.attributes.cryptocoin_symbol,
            balance: self.attributes.balance,
            class,
            deleted: self.attributes.deleted,
            id: self.id,
            is_default: self.attributes.is_default,
            name: self.attributes.name,
        }
    }

    /// Turns the wallet into a domain value of the given class.
    pub fn into_asset_wallet(self, class: AssetClass) -> (r: AssetWallet)
        ensures
            r == self.asset_wallet(class),
    {
        AssetWallet {
            asset_id: self.attributes.cryptocoin_id,
            asset_symbol: self.attributes.cryptocoin_symbol,
            balance: self.attributes.balance,
            class,
            deleted: self.attributes.deleted,
            id: self.id,
            is_default: self.attributes.is_default,
            name: self.attributes.name,
        }
    }
}

/// The wallets of one collection, in their order, each as a domain value of
/// the collection's class.
pub open spec fn tagged(wallets: Seq<Wallet>, class: AssetClass) -> Seq<AssetWallet> {
    Seq::new(wallets.len(), |i: int| wallets[i].asset_wallet(class))
}

/// Appends the wallets of one collection to `out`.
fn push_tagged(out: &mut Vec<AssetWallet>, wallets: Vec<Wallet>, class: AssetClass)
    ensures
        final(out)@ == old(out)@ + tagged(wallets@, class),
{
    let ghost all = wallets@;
    let ghost before = out@;
    for wallet in it: wallets.into_iter()
        invariant
            it.seq() == all,
            out@ == before + tagged(all.take(it.index() as int), class),
    {
        out.push(wallet.into_asset_wallet(class));
        proof {
            let k = it.index() as int;
            assert(tagged(all.take(k + 1), class) =~= tagged(all.take(k), class).push(
                all[k].asset_wallet(class),
            ));
        }
    }
    assert(all.take(all.len() as int) =~= all);
}

impl AssetWalletResponse {
    /// Every wallet of the payload: the cryptocurrencies first, then the
    /// metals, the crypto indices, the commodities, the funds and the
    /// stocks, each collection in its own order.
    pub open spec fn flattened(self) -> Seq<AssetWallet> {
        let attr = self.data.attributes;
        tagged(attr.cryptocoin.attributes.wallets@, AssetClass::Cryptocurrency)
            + tagged(attr.commodity.metal.attributes.wallets@, AssetClass::Metal)
            + tagged(attr.index.index.attributes.wallets@, AssetClass::Cryptoindex)
            + tagged(attr.security.etc.attributes.wallets@, AssetClass::Commodity)
            + tagged(attr.security.etf.attributes.wallets@, AssetClass::Etf)
            + tagged(attr.security.stock.attributes.wallets@, AssetClass::Stock)
    }

    /// Flattens the six collections into one list.
    pub fn into_asset_wallets(self) -> (r: Vec<AssetWallet>)
        ensures
            r@ == self.flattened(),
    {
        let mut wallets = Vec::new();
        let attr = self.data.attributes;
        push_tagged(&mut wallets, attr.cryptocoin.attributes.wallets, AssetClass::Cryptocurrency);
        push_tagged(&mut wallets, attr.commodity.metal.attributes.wallets, AssetClass::Metal);
        push_tagged(&mut wallets, attr.index.index.attributes.wallets, AssetClass::Cryptoindex);
        push_tagged(&mut wallets, attr.security.etc.attributes.wallets, AssetClass::Commodity);
        push_tagged(&mut wallets, attr.security.etf.attributes.wallets, AssetClass::Etf);
        push_tagged(&mut wallets, attr.security.stock.attributes.wallets, AssetClass::Stock);
        wallets
    }
}

/// The flattened list holds as many wallets as the six collections
/// together, and holds them collection by collection in the fixed order:
/// a wallet that is the `i`-th of its collection stands `i` places behind
/// the end of the collections before it, under its collection's class.
pub proof fn lemma_flattened_order(response: AssetWalletResponse)
    ensures
        ({
            let attr = response.data.attributes;
            let coins = attr.cryptocoin.attributes.wallets@;
            let metals = attr.commodity.metal.attributes.wallets@;
            let indices = attr.index.index.attributes.wallets@;
            let etcs = attr.security.etc.attributes.wallets@;
            let etfs = attr.security.etf.attributes.wallets@;
            let stocks = attr.security.stock.attributes.wallets@;
            let flat = response.flattened();
            let a = coins.len() as int;
            let b = a + metals.len();
            let c = b + indices.len();
            let d = c + etcs.len();
            let e = d + etfs.len();
            &&& flat.len() == e + stocks.len()
            &&& forall|i: int|
                0 <= i < coins.len() ==> flat[i] == coins[i].asset_wallet(
                    AssetClass::Cryptocurrency,
                )
            &&& forall|i: int|
                0 <= i < metals.len() ==> flat[a + i] == metals[i].asset_wallet(AssetClass::Metal)
            &&& forall|i: int|
                0 <= i < indices.len() ==> flat[b + i] == indices[i].asset_wallet(
                    AssetClass::Cryptoindex,
                )
            &&& forall|i: int|
                0 <= i < etcs.len() ==> flat[c + i] == etcs[i].asset_wallet(AssetClass::Commodity)
            &&& forall|i: int|
                0 <= i < etfs.len() ==> flat[d + i] == etfs[i].asset_wallet(AssetClass::Etf)
            &&& forall|i: int|
                0 <= i < stocks.len() ==> flat[e + i] == stocks[i].asset_wallet(AssetClass::Stock)
        }),
{
}

} // verus!
