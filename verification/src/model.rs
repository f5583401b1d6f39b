//! The domain model: plain values, built anew by every fetch.

pub mod asset;
pub mod asset_wallet;
pub mod crypto_wallet;
pub mod fiat_wallet;
pub mod ohlc;
pub mod timestamp;
pub mod trade;
pub mod transaction;

pub use asset::{Asset, AssetClass};
pub use asset_wallet::AssetWallet;
pub use crypto_wallet::CryptoWallet;
pub use fiat_wallet::FiatWallet;
pub use ohlc::OpenHighLowCloseChart;
pub use timestamp::Timestamp;
pub use trade::{Trade, TradeStatus, TradeType};
pub use transaction::{InOrOut, TransactionStatus, TransactionType};
