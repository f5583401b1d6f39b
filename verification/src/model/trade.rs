//! Trades.

use crate::api::ApiError;
use crate::model::Timestamp;
use crate::text::str_eq;
use rust_decimal::Decimal;
use vstd::prelude::*;
use vstd::string::*;

verus! {

/// A trade on the exchange. A swap is a pair of trades, each of which owns
/// its counterpart as `related_swap_trade`.
#[derive(Debug, Eq, PartialEq, Hash)]
pub struct Trade {
    pub amount_asset: Decimal,
    pub amount_fiat: Decimal,
    pub datetime: Timestamp,
    pub fiat_to_eur_rate: Decimal,
    pub fiat_wallet_id: Option<String>,
    pub id_asset: String,
    pub id_fiat: String,
    pub id_wallet: String,
    pub id: String,
    pub price: Decimal,
    /// The other side of a swap.
    pub related_swap_trade: Option<Box<Trade>>,
    pub status: TradeStatus,
    pub symbol: String,
    pub type_: TradeType,
}

impl Trade {
    /// A copy of the trade and of every trade it owns.
    pub fn duplicate(&self) -> (r: Trade)
        ensures
            r == *self,
        decreases *self,
    {
        let related_swap_trade = match &self.related_swap_trade {
            None => None,
            Some(related) => Some(Box::new(related.duplicate())),
        };
        let fiat_wallet_id = match &self.fiat_wallet_id {
            None => None,
            Some(id) => Some(id.clone()),
        };
        Trade {
            amount_asset: self.amount_asset,
            amount_fiat: self.amount_fiat,
            datetime: self.datetime,
            fiat_to_eur_rate: self.fiat_to_eur_rate,
            fiat_wallet_id,
            id_asset: self.id_asset.clone(),
            id_fiat: self.id_fiat.clone(),
            id_wallet: self.id_wallet.clone(),
            id: self.id.clone(),
            price: self.price,
            related_swap_trade,
            status: self.status,
            symbol: self.symbol.clone(),
            type_: self.type_,
        }
    }
}

impl Clone for Trade {
    fn clone(&self) -> (r: Self)
        ensures
            r == *self,
    {
        self.duplicate()
    }
}

/// How far a trade has come.
#[derive(Debug, Copy, Clone, Eq, PartialEq, Hash)]
pub enum TradeStatus {
    Pending,
    Processing,
    Finished,
    Canceled,
}

impl TradeStatus {
    /// The status that a wire token stands for, if any.
    pub open spec fn parse(s: Seq<char>) -> Option<Self> {
        if s == "pending"@ {
            Some(TradeStatus::Pending)
        } else if s == "processing"@ {
            Some(TradeStatus::Processing)
        } else if s == "finished"@ {
            Some(TradeStatus::Finished)
        } else if s == "canceled"@ {
            Some(TradeStatus::Canceled)
        } else {
            None
        }
    }

    /// Reads a wire token. Any text outside the closed set is refused with
    /// `UnexpectedValue`, which carries the text.
    pub fn from_str(value: &str) -> (r: Result<Self, ApiError>)
        ensures
            match Self::parse(value@) {
                Some(v) => r == Ok::<Self, ApiError>(v),
                None => r is Err && r->Err_0.unexpected_token() == Some(value@),
            },
    {
        if str_eq(value, "pending") {
            Ok(TradeStatus::Pending)
        } else if str_eq(value, "processing") {
            Ok(TradeStatus::Processing)
        } else if str_eq(value, "finished") {
            Ok(TradeStatus::Finished)
        } else if str_eq(value, "canceled") {
            Ok(TradeStatus::Canceled)
        } else {
            Err(ApiError::UnexpectedValue(value.to_owned()))
        }
    }
}

/// The side of a trade.
#[derive(Debug, Copy, Clone, Eq, PartialEq, Hash)]
pub enum TradeType {
    Buy,
    Sell,
}

impl TradeType {
    /// The side that a wire token stands for, if any.
    pub open spec fn parse(s: Seq<char>) -> Option<Self> {
        if s == "buy"@ {
            Some(TradeType::Buy)
        } else if s == "sell"@ {
            Some(TradeType::Sell)
        } else {
            None
        }
    }

    /// Reads a wire token. Any text outside the closed set is refused with
    /// `UnexpectedValue`, which carries the text.
    pub fn from_str(value: &str) -> (r: Result<Self, ApiError>)
        ensures
            match Self::parse(value@) {
                Some(v) => r == Ok::<Self, ApiError>(v),
                None => r is Err && r->Err_0.unexpected_token() == Some(value@),
            },
    {
        if str_eq(value, "buy") {
            Ok(TradeType::Buy)
        } else if str_eq(value, "sell") {
            Ok(TradeType::Sell)
        } else {
            Err(ApiError::UnexpectedValue(value.to_owned()))
        }
    }
}

} // verus!
