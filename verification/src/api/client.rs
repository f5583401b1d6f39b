//! The client: which request each operation sends, and what it makes of
//! the answer.

use crate::api::pagination::{
    advance, follows, page_size, page_size_for, Progress, ASSETS_DEFAULT_PAGE_SIZE,
    TRADE_DEFAULT_PAGE_SIZE,
};
use crate::api::{ApiError, ApiResult};
use crate::model::crypto_wallet::CryptoWalletTransaction;
use crate::model::fiat_wallet::FiatWalletTransaction;
use crate::model::ohlc::Period;
use crate::model::{Asset, AssetClass, Trade, TransactionStatus, TransactionType};
use crate::text::{decimal, decimal_string};
use vstd::prelude::*;
use vstd::string::*;

pub mod asset_wallet_response;
pub mod crypto_wallet_response;
pub mod crypto_wallet_tx_response;
pub mod fiat_wallet_response;
pub mod fiat_wallet_tx_response;
pub mod get_assets_response;
pub mod get_ohlc_response;
pub mod trade_response;

use crypto_wallet_tx_response::CryptoWalletTxResponse;
use fiat_wallet_tx_response::FiatWalletTxResponse;
use get_assets_response::GetAssetsResponse;
use trade_response::TradeResponse;

verus! {

/// Root of the operations that need an API key.
pub const BITPANDA_API_URL: &'static str = "https://api.bitpanda.com/v1";

/// Root of the public operations.
pub const BITPANDA_PUBLIC_URL: &'static str = "https://api.bitpanda.com";

/// The header that carries the API key.
pub const API_KEY_HEADER: &'static str = "X-API-KEY";

/// A GET request, ready to be sent.
#[derive(Debug, Clone, PartialEq, Eq)]
pub struct Request {
    /// The address.
    pub url: String,
    /// The value of the `API_KEY_HEADER` header, where one is to be sent.
    pub x_apikey: Option<String>,
}

/// A client of the exchange.
pub struct Client {
    x_apikey: Option<String>,
}

impl Default for Client {
    fn default() -> (r: Self)
        ensures
            r.apikey() is None,
    {
        Client { x_apikey: None }
    }
}

/// The address of a private operation.
pub open spec fn private_url(path: Seq<char>) -> Seq<char> {
    BITPANDA_API_URL@ + "/"@ + path
}

/// The address of a public operation.
pub open spec fn public_url(path: Seq<char>) -> Seq<char> {
    BITPANDA_PUBLIC_URL@ + "/v3/"@ + path
}

/// The path of one page of a listing.
pub open spec fn page_path(listing: Seq<char>, page: usize, size: nat) -> Seq<char> {
    listing + "?page="@ + decimal(page as nat) + "&page_size="@ + decimal(size)
}

/// The query arguments of the filters that are set: the type, then the
/// status, each by its wire token.
pub open spec fn filter_arguments(
    transaction_type: Option<TransactionType>,
    status: Option<TransactionStatus>,
) -> Seq<char> {
    (match transaction_type {
        Some(t) => "&type="@ + t.token(),
        None => Seq::empty(),
    }) + (match status {
        Some(s) => "&status="@ + s.token(),
        None => Seq::empty(),
    })
}

/// The path of one page of a transaction listing.
pub open spec fn transactions_path(
    listing: Seq<char>,
    fetched: nat,
    transaction_type: Option<TransactionType>,
    status: Option<TransactionStatus>,
    page: usize,
    max_results: Option<usize>,
) -> Seq<char> {
    page_path(listing, page, page_size_for(fetched, max_results, TRADE_DEFAULT_PAGE_SIZE as nat))
        + filter_arguments(transaction_type, status)
}

/// The path of one page of the asset listing.
pub open spec fn assets_path(asset_class: AssetClass, page: usize) -> Seq<char> {
    page_path("assets"@, page, ASSETS_DEFAULT_PAGE_SIZE as nat) + "&type[]="@ + asset_class.token()
}

/// The path of a price chart.
pub open spec fn ohlc_path(period: Period, pid: Seq<char>, currency: Seq<char>) -> Seq<char> {
    "ohlc/"@ + pid + "/"@ + currency + "/"@ + period.token()
}

fn write_page_path(listing: &str, page: usize, size: usize) -> (r: String)
    ensures
        r@ == page_path(listing@, page, size as nat),
{
    let mut url = String::from_str(listing);
    url.append("?page=");
    url.append(decimal_string(page).as_str());
    url.append("&page_size=");
    url.append(decimal_string(size).as_str());
    url
}

fn write_transactions_path(
    listing: &str,
    fetched: usize,
    transaction_type: Option<TransactionType>,
    status: Option<TransactionStatus>,
    page: usize,
    max_results: Option<usize>,
) -> (r: String)
    ensures
        r@ == transactions_path(listing@, fetched as nat, transaction_type, status, page, max_results),
{
    let size: usize = page_size(fetched, max_results, TRADE_DEFAULT_PAGE_SIZE);
    let mut url = write_page_path(listing, page, size);
    let ghost base = url@;
    let ghost type_argument: Seq<char> = match transaction_type {
        Some(t) => "&type="@ + t.token(),
        None => Seq::empty(),
    };
    if let Some(t) = transaction_type {
        url.append("&type=");
        url.append(t.to_string().as_str());
    }
    assert(url@ =~= base + type_argument);
    if let Some(s) = status {
        url.append("&status=");
        url.append(s.to_string().as_str());
    }
    assert(url@ =~= base + filter_arguments(transaction_type, status));
    url
}

impl Client {
    /// The API key the client was given, if any.
    pub closed spec fn apikey(self) -> Option<Seq<char>> {
        match self.x_apikey {
            Some(key) => Some(key@),
            None => None,
        }
    }

    /// Gives the client an API key.
    pub fn x_apikey(self, apikey: &str) -> (r: Self)
        ensures
            r.apikey() == Some(apikey@),
    {
        let mut client = self;
        client.x_apikey = Some(apikey.to_owned());
        client
    }

    /// The request for a private operation, without a key.
    pub fn priv_request(&self, url: &str) -> (r: Request)
        ensures
            r.url@ == private_url(url@),
            r.x_apikey is None,
    {
        let mut address = String::from_str(BITPANDA_API_URL);
        address.append("/");
        address.append(url);
        Request { url: address, x_apikey: None }
    }

    /// The request for a public operation.
    pub fn pub_request_v3(&self, url: &str) -> (r: Request)
        ensures
            r.url@ == public_url(url@),
            r.x_apikey is None,
    {
        let mut address = String::from_str(BITPANDA_PUBLIC_URL);
        address.append("/v3/");
        address.append(url);
        Request { url: address, x_apikey: None }
    }

    /// The request for a private operation, with the client's key. A
    /// client without a key is refused with `Unauthorized`.
    pub fn request_with_auth(&self, url: &str) -> (r: ApiResult<Request>)
        ensures
            is_private_request(r, self.apikey(), url@),
    {
        match &self.x_apikey {
            Some(apikey) => {
                let mut request = self.priv_request(url);
                request.x_apikey = Some(apikey.clone());
                Ok(request)
            },
            None => Err(ApiError::Unauthorized),
        }
    }
}

/// Whether `result` is the request for the private operation at `path`,
/// made by a client with the key `apikey`: with a key, the request to that
/// address that carries the key; without one, `Unauthorized`.
pub open spec fn is_private_request(
    result: ApiResult<Request>,
    apikey: Option<Seq<char>>,
    path: Seq<char>,
) -> bool {
    match apikey {
        Some(key) => {
            &&& result matches Ok(request)
            &&& request.url@ == private_url(path)
            &&& request.x_apikey matches Some(sent)
            &&& sent@ == key
        },
        None => result == Err::<Request, ApiError>(ApiError::Unauthorized),
    }
}

/// Whether `result` is what becomes of a fetch when a page arrives whose
/// records convert to `page`: the failure of the page, or the fetch with
/// the entities of the page added.
pub open spec fn is_next_step<T>(
    result: ApiResult<Progress<T>>,
    items: Seq<T>,
    page: Result<Seq<T>, Seq<char>>,
    next_page: Option<usize>,
    max_results: Option<usize>,
) -> bool {
    match page {
        Ok(page_items) => {
            &&& result matches Ok(progress)
            &&& follows(progress, items, page_items, next_page, max_results)
        },
        Err(token) => {
            &&& result matches Err(e)
            &&& e.unexpected_token() == Some(token)
        },
    }
}

impl Client {
    /// The request for the asset wallets.
    pub fn asset_wallets_request(&self) -> (r: ApiResult<Request>)
        ensures
            is_private_request(r, self.apikey(), "asset-wallets"@),
    {
        self.request_with_auth("asset-wallets")
    }

    /// The request for the cryptocurrency wallets.
    pub fn crypto_wallets_request(&self) -> (r: ApiResult<Request>)
        ensures
            is_private_request(r, self.apikey(), "wallets"@),
    {
        self.request_with_auth("wallets")
    }

    /// The request for the fiat wallets.
    pub fn fiat_wallets_request(&self) -> (r: ApiResult<Request>)
        ensures
            is_private_request(r, self.apikey(), "fiatwallets"@),
    {
        self.request_with_auth("fiatwallets")
    }

    /// The request for the price chart of an asset over a period.
    pub fn ohlc_request(&self, period: Period, pid: &str, currency: &str) -> (r: Request)
        ensures
            r.url@ == public_url(ohlc_path(period, pid@, currency@)),
            r.x_apikey is None,
    {
        let mut path = String::from_str("ohlc/");
        path.append(pid);
        path.append("/");
        path.append(currency);
        path.append("/");
        path.append(period.to_string().as_str());
        self.pub_request_v3(path.as_str())
    }

    /// The request for the page `page` of the trades, when `fetched`
    /// trades are in hand.
    pub fn trades_request(&self, fetched: usize, page: usize, max_results: Option<usize>) -> (r:
        ApiResult<Request>)
        ensures
            is_private_request(
                r,
                self.apikey(),
                page_path(
                    "trades"@,
                    page,
                    page_size_for(fetched as nat, max_results, TRADE_DEFAULT_PAGE_SIZE as nat),
                ),
            ),
    {
        let size: usize = page_size(fetched, max_results, TRADE_DEFAULT_PAGE_SIZE);
        let path = write_page_path("trades", page, size);
        self.request_with_auth(path.as_str())
    }

    /// Adds a page of trades to those in hand and decides how the fetch
    /// goes on. An invalid record fails the fetch.
    pub fn add_trades_page(
        trades: Vec<Trade>,
        response: TradeResponse,
        max_results: Option<usize>,
    ) -> (r: ApiResult<Progress<Trade>>)
        ensures
            is_next_step(r, trades@, response.trades(), response.links.page(), max_results),
    {
        let next_page = response.next_page();
        match response.into_trades() {
            Ok(page_items) => Ok(advance(trades, page_items, next_page, max_results)),
            Err(e) => Err(e),
        }
    }

    /// The request for the page `page` of the transactions of the
    /// cryptocurrency wallets, when `fetched` transactions are in hand.
    /// The filters that are set go into every page's request.
    pub fn crypto_wallet_transactions_request(
        &self,
        fetched: usize,
        transaction_type: Option<TransactionType>,
        status: Option<TransactionStatus>,
        page: usize,
        max_results: Option<usize>,
    ) -> (r: ApiResult<Request>)
        ensures
            is_private_request(
                r,
                self.apikey(),
                transactions_path(
                    "wallets/transactions"@,
                    fetched as nat,
                    transaction_type,
                    status,
                    page,
                    max_results,
                ),
            ),
    {
        let path = write_transactions_path(
            "wallets/transactions",
            fetched,
            transaction_type,
            status,
            page,
            max_results,
        );
        self.request_with_auth(path.as_str())
    }

    /// Adds a page of transactions to those in hand and decides how the
    /// fetch goes on. An invalid record fails the fetch.
    pub fn add_crypto_wallet_transactions_page(
        txs: Vec<CryptoWalletTransaction>,
        response: CryptoWalletTxResponse,
        max_results: Option<usize>,
    ) -> (r: ApiResult<Progress<CryptoWalletTransaction>>)
        ensures
            is_next_step(r, txs@, response.transactions(), response.links.page(), max_results),
    {
        let next_page = response.next_page();
        match response.into_transactions() {
            Ok(page_items) => Ok(advance(txs, page_items, next_page, max_results)),
            Err(e) => Err(e),
        }
    }

    /// The request for the page `page` of the transactions of the fiat
    /// wallets, when `fetched` transactions are in hand. The filters that
    /// are set go into every page's request.
    pub fn fiat_wallet_transactions_request(
        &self,
        fetched: usize,
        transaction_type: Option<TransactionType>,
        status: Option<TransactionStatus>,
        page: usize,
        max_results: Option<usize>,
    ) -> (r: ApiResult<Request>)
        ensures
            is_private_request(
                r,
                self.apikey(),
                transactions_path(
                    "fiatwallets/transactions"@,
                    fetched as nat,
                    transaction_type,
                    status,
                    page,
                    max_results,
                ),
            ),
    {
        let path = write_transactions_path(
            "fiatwallets/transactions",
            fetched,
            transaction_type,
            status,
            page,
            max_results,
        );
        self.request_with_auth(path.as_str())
    }

    /// Adds a page of transactions to those in hand and decides how the
    /// fetch goes on. An invalid record fails the fetch.
    pub fn add_fiat_wallet_transactions_page(
        txs: Vec<FiatWalletTransaction>,
        response: FiatWalletTxResponse,
        max_results: Option<usize>,
    ) -> (r: ApiResult<Progress<FiatWalletTransaction>>)
        ensures
            is_next_step(r, txs@, response.transactions(), response.links.page(), max_results),
    {
        let next_page = response.next_page();
        match response.into_transactions() {
            Ok(page_items) => Ok(advance(txs, page_items, next_page, max_results)),
            Err(e) => Err(e),
        }
    }

    /// The request for the page `page` of the assets of a class.
    pub fn assets_request(&self, asset_class: AssetClass, page: usize) -> (r: Request)
        ensures
            r.url@ == public_url(assets_path(asset_class, page)),
            r.x_apikey is None,
    {
        let mut path = write_page_path("assets", page, ASSETS_DEFAULT_PAGE_SIZE);
        path.append("&type[]=");
        path.append(asset_class.to_string().as_str());
        self.pub_request_v3(path.as_str())
    }

    /// Adds a page of assets to those in hand and decides how the fetch
    /// goes on: it is complete when the page names no successor.
    pub fn add_assets_page(
        assets: Vec<Asset>,
        response: GetAssetsResponse,
        asset_class: AssetClass,
    ) -> (r: Progress<Asset>)
        ensures
            follows(r, assets@, response.assets(asset_class), response.links.page(), None),
    {
        let next_page = response.next_page();
        advance(assets, response.into_assets(asset_class), next_page, None)
    }
}

} // verus!
