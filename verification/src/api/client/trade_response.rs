//! One page of the trades.

use crate::api::batch::{all_or_first_error, lemma_error_persists};
use crate::api::pagination::Links;
use crate::api::{ApiError, ApiResult};
use crate::model::{Timestamp, Trade, TradeStatus, TradeType};
use rust_decimal::Decimal;
use vstd::prelude::*;

verus! {

/// The payload.
pub struct TradeResponse {
    pub data: Vec<Data>,
    pub links: Links,
}

/// One trade record.
pub struct Data {
    pub attributes: Attributes,
    pub id: String,
}

/// The fields of a trade record; status and type are still the tokens
/// that were received.
pub struct Attributes {
    pub status: String,
    pub type_: String,
    pub cryptocoin_id: String,
    pub cryptocoin_symbol: String,
    pub fiat_id: String,
    pub amount_fiat: Decimal,
    pub amount_cryptocoin: Decimal,
    pub fiat_to_eur_rate: Decimal,
    pub wallet_id: String,
    pub fiat_wallet_id: Option<String>,
    /// The other side of a swap: a record of the same shape.
    pub related_swap_trade: Option<Box<Data>>,
    pub time: Time,
    pub price: Decimal,
}

/// The time of a record.
pub struct Time {
    pub date_iso8601: Timestamp,
}

impl Data {
    /// The record as a trade that owns `related`, or the first of its
    /// status and type, in this order, that is no known token.
    pub open spec fn trade_with(self, related: Option<Box<Trade>>) -> Result<Trade, Seq<char>> {
        match TradeStatus::parse(self.attributes.status@) {
            None => Err(self.attributes.status@),
            Some(status) => match TradeType::parse(self.attributes.type_@) {
                None => Err(self.attributes.type_@),
                Some(type_) => Ok(
                    Trade {
                        amount_asset: self.attributes.amount_cryptocoin,
                        amount_fiat: self.attributes.amount_fiat,
                        datetime: self.attributes.time.date_iso8601,
                        fiat_to_eur_rate: self.attributes.fiat_to_eur_rate,
                        fiat_wallet_id: self.attributes.fiat_wallet_id,
                        id_asset: self.attributes.cryptocoin_id,
                        id_fiat: self.attributes.fiat_id,
                        id_wallet: self.attributes.wallet_id,
                        id: self.id,
                        price: self.attributes.price,
                        related_swap_trade: related,
                        status,
                        symbol: self.attributes.cryptocoin_symbol,
                        type_,
                    },
                ),
            },
        }
    }

    /// The record as a trade. A record that embeds a related swap becomes
    /// a trade that owns the embedded record's trade; one that embeds none
    /// becomes a trade without. The embedded record is validated first,
    /// so its failure is the failure of the whole.
    pub open spec fn trade(self) -> Result<Trade, Seq<char>>
        decreases self,
    {
        match self.attributes.related_swap_trade {
            None => self.trade_with(None),
            Some(inner) => match inner.trade() {
                Err(token) => Err(token),
                Ok(related) => self.trade_with(Some(Box::new(related))),
            },
        }
    }
}

impl Trade {
    /// Validates a record, and the records it embeds, and turns it into a
    /// trade.
    pub fn try_from(trade: Data) -> (r: Result<Self, ApiError>)
        ensures
            match trade.trade() {
                Ok(t) => r == Ok::<Self, ApiError>(t),
                Err(token) => r is Err && r->Err_0.unexpected_token() == Some(token),
            },
        decreases trade,
    {
        let related_swap = match trade.attributes.related_swap_trade {
            None => None,
            Some(data) => {
                match Trade::try_from(*data) {
                    Ok(related) => Some(Box::new(related)),
                    Err(e) => {
                        return Err(e);
                    },
                }
            },
        };
        let status = match TradeStatus::from_str(trade.attributes.status.as_str()) {
            Ok(v) => v,
            Err(e) => {
                return Err(e);
            },
        };
        let type_ = match TradeType::from_str(trade.attributes.type_.as_str()) {
            Ok(v) => v,
            Err(e) => {
                return Err(e);
            },
        };
        Ok(
            Trade {
                amount_asset: trade.attributes.amount_cryptocoin,
                amount_fiat: trade.attributes.amount_fiat,
                datetime: trade.attributes.time.date_iso8601,
                fiat_to_eur_rate: trade.attributes.fiat_to_eur_rate,
                fiat_wallet_id: trade.attributes.fiat_wallet_id,
                id_asset: trade.attributes.cryptocoin_id,
                id_fiat: trade.attributes.fiat_id,
                id_wallet: trade.attributes.wallet_id,
                id: trade.id,
                price: trade.attributes.price,
                related_swap_trade: related_swap,
                status,
                symbol: trade.attributes.cryptocoin_symbol,
                type_,
            },
        )
    }
}

/// The outcome of each record of a page.
pub open spec fn outcomes(data: Seq<Data>) -> Seq<Result<Trade, Seq<char>>> {
    Seq::new(data.len(), |i: int| data[i].trade())
}

impl TradeResponse {
    /// The number of the page that follows, if the page names one.
    pub fn next_page(&self) -> (r: Option<usize>)
        ensures
            r == self.links.page(),
    {
        self.links.next_page()
    }

    /// The trades of the page, one for one and in order, or the token that
    /// the first invalid record holds.
    pub open spec fn trades(self) -> Result<Seq<Trade>, Seq<char>> {
        all_or_first_error(outcomes(self.data@))
    }

    /// Turns the page into trades. One invalid record fails the whole page
    /// with the error of the first such record.
    pub fn into_trades(self) -> (r: ApiResult<Vec<Trade>>)
        ensures
            match self.trades() {
                Ok(trades) => r is Ok && r->Ok_0@ == trades,
                Err(token) => r is Err && r->Err_0.unexpected_token() == Some(token),
            },
    {
        let ghost all = self.data@;
        let mut trades = Vec::with_capacity(self.data.len());
        for trade in it: self.data.into_iter()
            invariant
                it.seq() == all,
                all_or_first_error(outcomes(all).take(it.index() as int)) == Ok::<
                    Seq<Trade>,
                    Seq<char>,
                >(trades@),
        {
            let ghost k = it.index() as int;
            proof {
                assert(outcomes(all).take(k + 1).drop_last() =~= outcomes(all).take(k));
            }
            match Trade::try_from(trade) {
                Ok(trade) => {
                    trades.push(trade);
                },
                Err(e) => {
                    proof {
                        lemma_error_persists(outcomes(all), k + 1);
                    }
                    return Err(e);
                },
            }
        }
        assert(outcomes(all).take(all.len() as int) =~= outcomes(all));
        Ok(trades)
    }
}

/// A record that embeds no related swap becomes a trade without one; a
/// record that embeds one becomes a trade whose related trade is the trade
/// of the embedded record.
pub proof fn lemma_related_swap_trade(record: Data)
    ensures
        record.trade() matches Ok(trade) ==> match record.attributes.related_swap_trade {
            None => trade.related_swap_trade is None,
            Some(inner) => trade.related_swap_trade matches Some(related) && inner.trade() == Ok::<
                Trade,
                Seq<char>,
            >(*related),
        },
{
}

} // verus!
