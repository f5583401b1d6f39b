use bitpanda_api::api::client::asset_wallet_response as aw;
use bitpanda_api::api::client::crypto_wallet_response as cw;
use bitpanda_api::api::client::crypto_wallet_tx_response as ctx;
use bitpanda_api::api::client::fiat_wallet_response as fw;
use bitpanda_api::api::client::fiat_wallet_tx_response as ftx;
use bitpanda_api::api::client::get_assets_response as ga;
use bitpanda_api::api::client::get_ohlc_response as oh;
use bitpanda_api::api::client::trade_response as tr;
use bitpanda_api::api::pagination::Links;
use bitpanda_api::model::crypto_wallet::CryptoWalletTransaction;
use bitpanda_api::model::fiat_wallet::FiatWalletTransaction;
use bitpanda_api::model::ohlc::{Ohlc, Period};
use bitpanda_api::model::{
    Asset, AssetClass, AssetWallet, CryptoWallet, FiatWallet, InOrOut, Timestamp, Trade,
    TradeStatus, TradeType, TransactionStatus, TransactionType,
};
use bitpanda_api::ApiError;
use rust_decimal::Decimal;

fn at(seconds: i64) -> Timestamp {
    Timestamp {
        seconds,
        nanos: 0,
        offset_seconds: 3600,
    }
}

fn raw_wallet(id: &str, cents: i64) -> aw::Wallet {
    aw::Wallet {
        id: id.to_string(),
        attributes: aw::WalletAttributes {
            cryptocoin_id: format!("asset-{id}"),
            cryptocoin_symbol: format!("SYM{id}"),
            balance: Decimal::new(cents, 2),
            is_default: cents % 2 == 0,
            name: format!("wallet {id}"),
            deleted: cents % 3 == 0,
        },
    }
}

fn collection(prefix: &str, n: usize) -> aw::WalletCollection {
    aw::WalletCollection {
        attributes: aw::WalletCollectionAttributes {
            wallets: (0..n)
                .map(|i| raw_wallet(&format!("{prefix}{i}"), i as i64 + 1))
                .collect(),
        },
    }
}

fn payload(counts: [usize; 6]) -> aw::AssetWalletResponse {
    aw::AssetWalletResponse {
        data: aw::Data {
            attributes: aw::Attributes {
                cryptocoin: collection("c", counts[0]),
                commodity: aw::CommodityWalletCollection {
                    metal: collection("m", counts[1]),
                },
                index: aw::IndexWalletCollection {
                    index: collection("i", counts[2]),
                },
                security: aw::SecurityWalletCollection {
                    etc: collection("e", counts[3]),
                    etf: collection("f", counts[4]),
                    stock: collection("s", counts[5]),
                },
            },
        },
    }
}

#[test]
fn asset_wallets_are_flattened_section_by_section() {
    let wallets = payload([2, 1, 3, 1, 2, 1]).into_asset_wallets();
    let seen: Vec<(String, AssetClass)> = wallets.iter().map(|w| (w.id.clone(), w.class)).collect();
    let expected: Vec<(String, AssetClass)> = vec![
        ("c0", AssetClass::Cryptocurrency),
        ("c1", AssetClass::Cryptocurrency),
        ("m0", AssetClass::Metal),
        ("i0", AssetClass::Cryptoindex),
        ("i1", AssetClass::Cryptoindex),
        ("i2", AssetClass::Cryptoindex),
        ("e0", AssetClass::Commodity),
        ("f0", AssetClass::Etf),
        ("f1", AssetClass::Etf),
        ("s0", AssetClass::Stock),
    ]
    .into_iter()
    .map(|(id, class)| (id.to_string(), class))
    .collect();
    assert_eq!(seen, expected);
}

#[test]
fn asset_wallets_keep_every_field() {
    let wallets = payload([0, 0, 0, 0, 1, 0]).into_asset_wallets();
    assert_eq!(
        wallets,
        vec![AssetWallet {
            asset_id: "asset-f0".to_string(),
            asset_symbol: "SYMf0".to_string(),
            balance: Decimal::new(1, 2),
            class: AssetClass::Etf,
            deleted: false,
            id: "f0".to_string(),
            is_default: false,
            name: "wallet f0".to_string(),
        }]
    );
}

#[test]
fn asset_wallets_count_is_the_sum_of_the_sections() {
    let shapes = [
        [0, 0, 0, 0, 0, 0],
        [1, 0, 0, 0, 0, 0],
        [0, 0, 0, 0, 0, 4],
        [3, 5, 0, 2, 7, 1],
        [10, 10, 10, 10, 10, 10],
    ];
    for counts in shapes {
        let wallets = payload(counts).into_asset_wallets();
        assert_eq!(wallets.len(), counts.iter().sum::<usize>());
        let classes = [
            AssetClass::Cryptocurrency,
            AssetClass::Metal,
            AssetClass::Cryptoindex,
            AssetClass::Commodity,
            AssetClass::Etf,
            AssetClass::Stock,
        ];
        let mut next = 0;
        for (section, class) in classes.iter().enumerate() {
            for _ in 0..counts[section] {
                assert_eq!(wallets[next].class, *class);
                next += 1;
            }
        }
    }
}

#[test]
fn crypto_wallets_map_one_to_one() {
    let response = cw::CryptoWalletResponse {
        data: vec![
            cw::Wallet {
                id: "w1".to_string(),
                attributes: cw::Attributes {
                    balance: Decimal::new(150, 2),
                    cryptocoin_id: "1".to_string(),
                    cryptocoin_symbol: "BTC".to_string(),
                    deleted: false,
                    is_default: true,
                    name: "BTC wallet".to_string(),
                    pending_transactions_count: 2,
                },
            },
            cw::Wallet {
                id: "w2".to_string(),
                attributes: cw::Attributes {
                    balance: Decimal::new(0, 0),
                    cryptocoin_id: "5".to_string(),
                    cryptocoin_symbol: "ETH".to_string(),
                    deleted: true,
                    is_default: false,
                    name: "ETH wallet".to_string(),
                    pending_transactions_count: 0,
                },
            },
        ],
    };
    assert_eq!(
        response.into_crypto_wallets(),
        vec![
            CryptoWallet {
                balance: Decimal::new(150, 2),
                cryptocoin_id: "1".to_string(),
                deleted: false,
                id: "w1".to_string(),
                is_default: true,
                name: "BTC wallet".to_string(),
                pending_transactions_count: 2,
                symbol: "BTC".to_string(),
            },
            CryptoWallet {
                balance: Decimal::new(0, 0),
                cryptocoin_id: "5".to_string(),
                deleted: true,
                id: "w2".to_string(),
                is_default: false,
                name: "ETH wallet".to_string(),
                pending_transactions_count: 0,
                symbol: "ETH".to_string(),
            },
        ]
    );
    assert!(cw::CryptoWalletResponse { data: vec![] }
        .into_crypto_wallets()
        .is_empty());
}

#[test]
fn fiat_wallets_map_one_to_one() {
    let response = fw::FiatWalletResponse {
        data: vec![fw::Wallet {
            id: "f1".to_string(),
            attributes: fw::Attributes {
                fiat_id: "1".to_string(),
                fiat_symbol: "EUR".to_string(),
                balance: Decimal::new(123456, 2),
                name: "EUR wallet".to_string(),
                pending_transactions_count: 1,
            },
        }],
    };
    assert_eq!(
        response.into_fiat_wallets(),
        vec![FiatWallet {
            balance: Decimal::new(123456, 2),
            fiat_id: "1".to_string(),
            id: "f1".to_string(),
            name: "EUR wallet".to_string(),
            pending_transactions_count: 1,
            symbol: "EUR".to_string(),
        }]
    );
}

#[test]
fn assets_carry_the_class_that_was_asked_for() {
    let page = |class: AssetClass| {
        ga::GetAssetsResponse {
            data: vec![
                ga::Data {
                    id: "1".to_string(),
                    attributes: ga::Attributes {
                        symbol: "BTC".to_string(),
                        name: "Bitcoin".to_string(),
                        pid: "p-btc".to_string(),
                    },
                },
                ga::Data {
                    id: "2".to_string(),
                    attributes: ga::Attributes {
                        symbol: "ETH".to_string(),
                        name: "Ethereum".to_string(),
                        pid: "p-eth".to_string(),
                    },
                },
            ],
            links: Links { next: None },
        }
        .into_assets(class)
    };
    assert_eq!(
        page(AssetClass::Cryptocurrency),
        vec![
            Asset {
                id: "1".to_string(),
                pid: "p-btc".to_string(),
                name: "Bitcoin".to_string(),
                symbol: "BTC".to_string(),
                type_: AssetClass::Cryptocurrency,
            },
            Asset {
                id: "2".to_string(),
                pid: "p-eth".to_string(),
                name: "Ethereum".to_string(),
                symbol: "ETH".to_string(),
                type_: AssetClass::Cryptocurrency,
            },
        ]
    );
    assert!(page(AssetClass::Stock)
        .iter()
        .all(|asset| asset.type_ == AssetClass::Stock));
}

#[test]
fn ohlc_keeps_the_order_received() {
    let candle = |n: i64| oh::Data {
        attributes: oh::Attributes {
            open: Decimal::new(n, 0),
            close: Decimal::new(n + 1, 0),
            high: Decimal::new(n + 2, 0),
            low: Decimal::new(n - 1, 0),
            time: oh::Time {
                date_iso8601: at(1_700_000_000 + n),
            },
        },
    };
    let chart = oh::GetOhlcResponse {
        data: vec![candle(30), candle(10), candle(20)],
    }
    .into_ohlc(Period::Week);
    assert_eq!(chart.period, Period::Week);
    assert_eq!(
        chart.chart,
        vec![
            Ohlc {
                close: Decimal::new(31, 0),
                high: Decimal::new(32, 0),
                low: Decimal::new(29, 0),
                open: Decimal::new(30, 0),
                time: at(1_700_000_030),
            },
            Ohlc {
                close: Decimal::new(11, 0),
                high: Decimal::new(12, 0),
                low: Decimal::new(9, 0),
                open: Decimal::new(10, 0),
                time: at(1_700_000_010),
            },
            Ohlc {
                close: Decimal::new(21, 0),
                high: Decimal::new(22, 0),
                low: Decimal::new(19, 0),
                open: Decimal::new(20, 0),
                time: at(1_700_000_020),
            },
        ]
    );
}

fn crypto_record(id: &str, in_or_out: &str, status: &str, type_: &str) -> ctx::Data {
    ctx::Data {
        id: id.to_string(),
        attributes: ctx::Attributes {
            amount: Decimal::new(5, 1),
            recipient: "someone".to_string(),
            time: ctx::Time {
                date_iso8601: at(1_650_000_000),
            },
            confirmations: 6,
            in_or_out: in_or_out.to_string(),
            type_: type_.to_string(),
            status: status.to_string(),
            amount_eur: Decimal::new(1500, 2),
            wallet_id: "w1".to_string(),
            cryptocoin_id: "1".to_string(),
            fee: Decimal::new(1, 3),
            current_fiat_id: "1".to_string(),
            current_fiat_amount: Decimal::new(1499, 2),
        },
    }
}

fn rejected_token<T: std::fmt::Debug>(result: Result<T, ApiError>) -> String {
    match result {
        Err(ApiError::UnexpectedValue(token)) => token,
        other => panic!("expected an unexpected value, got {:?}", other),
    }
}

#[test]
fn crypto_transaction_keeps_every_field() {
    let tx = CryptoWalletTransaction::try_from(crypto_record("t1", "incoming", "finished", "buy"))
        .unwrap();
    assert_eq!(
        tx,
        CryptoWalletTransaction {
            amount_eur: Decimal::new(1500, 2),
            amount: Decimal::new(5, 1),
            confirmations: 6,
            cryptocoin_id: "1".to_string(),
            current_fiat_amount: Decimal::new(1499, 2),
            current_fiat_id: "1".to_string(),
            datetime: at(1_650_000_000),
            fee: Decimal::new(1, 3),
            id: "t1".to_string(),
            in_or_out: InOrOut::Incoming,
            recipient: "someone".to_string(),
            status: TransactionStatus::Finished,
            transaction_type: TransactionType::Buy,
            wallet_id: "w1".to_string(),
        }
    );
}

#[test]
fn crypto_transaction_reports_the_first_invalid_field() {
    assert_eq!(
        rejected_token(CryptoWalletTransaction::try_from(crypto_record(
            "t", "sideways", "odd", "strange"
        ))),
        "sideways"
    );
    assert_eq!(
        rejected_token(CryptoWalletTransaction::try_from(crypto_record(
            "t", "incoming", "odd", "strange"
        ))),
        "odd"
    );
    assert_eq!(
        rejected_token(CryptoWalletTransaction::try_from(crypto_record(
            "t", "incoming", "pending", "strange"
        ))),
        "strange"
    );
}

#[test]
fn crypto_transactions_fail_as_a_whole_on_the_first_invalid_record() {
    let response = ctx::CryptoWalletTxResponse {
        data: vec![
            crypto_record("a", "incoming", "finished", "buy"),
            crypto_record("b", "outgoing", "not-a-real-status", "sell"),
            crypto_record("c", "nowhere", "finished", "sell"),
        ],
        links: Links { next: None },
    };
    assert_eq!(rejected_token(response.into_transactions()), "not-a-real-status");
}

#[test]
fn crypto_transactions_map_one_to_one() {
    let response = ctx::CryptoWalletTxResponse {
        data: vec![
            crypto_record("a", "incoming", "finished", "buy"),
            crypto_record("b", "outgoing", "unconfirmed_transaction_out", "withdrawal"),
            crypto_record("c", "outgoing", "open_invitation", "refund"),
        ],
        links: Links { next: None },
    };
    let txs = response.into_transactions().unwrap();
    let seen: Vec<(String, InOrOut, TransactionStatus, TransactionType)> = txs
        .iter()
        .map(|t| (t.id.clone(), t.in_or_out, t.status, t.transaction_type))
        .collect();
    assert_eq!(
        seen,
        vec![
            (
                "a".to_string(),
                InOrOut::Incoming,
                TransactionStatus::Finished,
                TransactionType::Buy
            ),
            (
                "b".to_string(),
                InOrOut::Outgoing,
                TransactionStatus::UnconfirmedTransactionOut,
                TransactionType::Withdrawal
            ),
            (
                "c".to_string(),
                InOrOut::Outgoing,
                TransactionStatus::OpenInvitation,
                TransactionType::Refund
            ),
        ]
    );
    let empty = ctx::CryptoWalletTxResponse {
        data: vec![],
        links: Links { next: None },
    };
    assert!(empty.into_transactions().unwrap().is_empty());
}

fn fiat_record(id: &str, in_or_out: &str, status: &str, type_: &str) -> ftx::Data {
    ftx::Data {
        id: id.to_string(),
        attributes: ftx::Attributes {
            amount: Decimal::new(10000, 2),
            time: ftx::Time {
                date_iso8601: at(1_660_000_000),
            },
            fiat_id: "1".to_string(),
            fee: Decimal::new(0, 0),
            in_or_out: in_or_out.to_string(),
            type_: type_.to_string(),
            status: status.to_string(),
            fiat_wallet_id: "fw1".to_string(),
            to_eur_rate: Decimal::new(1, 0),
            user_id: "u1".to_string(),
        },
    }
}

#[test]
fn fiat_transaction_keeps_every_field() {
    let tx =
        FiatWalletTransaction::try_from(fiat_record("f1", "outgoing", "processing", "withdrawal"))
            .unwrap();
    assert_eq!(
        tx,
        FiatWalletTransaction {
            amount: Decimal::new(10000, 2),
            datetime: at(1_660_000_000),
            fee: Decimal::new(0, 0),
            fiat_id: "1".to_string(),
            id: "f1".to_string(),
            in_or_out: InOrOut::Outgoing,
            status: TransactionStatus::Processing,
            to_eur_rate: Decimal::new(1, 0),
            transaction_type: TransactionType::Withdrawal,
            user_id: "u1".to_string(),
            wallet_id: "fw1".to_string(),
        }
    );
}

#[test]
fn fiat_transactions_fail_as_a_whole_on_the_first_invalid_record() {
    let response = ftx::FiatWalletTxResponse {
        data: vec![
            fiat_record("a", "incoming", "finished", "deposit"),
            fiat_record("b", "incoming", "finished", "gift"),
            fiat_record("c", "upwards", "finished", "deposit"),
        ],
        links: Links { next: None },
    };
    assert_eq!(rejected_token(response.into_transactions()), "gift");
    assert_eq!(
        rejected_token(FiatWalletTransaction::try_from(fiat_record(
            "x", "upwards", "odd", "gift"
        ))),
        "upwards"
    );
}

fn trade_record(id: &str, status: &str, type_: &str, related: Option<tr::Data>) -> tr::Data {
    tr::Data {
        id: id.to_string(),
        attributes: tr::Attributes {
            status: status.to_string(),
            type_: type_.to_string(),
            cryptocoin_id: format!("coin-{id}"),
            cryptocoin_symbol: "BTC".to_string(),
            fiat_id: "1".to_string(),
            amount_fiat: Decimal::new(5000, 2),
            amount_cryptocoin: Decimal::new(25, 4),
            fiat_to_eur_rate: Decimal::new(1, 0),
            wallet_id: format!("wallet-{id}"),
            fiat_wallet_id: Some(format!("fiat-{id}")),
            related_swap_trade: related.map(Box::new),
            time: tr::Time {
                date_iso8601: at(1_670_000_000),
            },
            price: Decimal::new(2000000, 2),
        },
    }
}

fn expected_trade(id: &str, status: TradeStatus, type_: TradeType, related: Option<Trade>) -> Trade {
    Trade {
        amount_asset: Decimal::new(25, 4),
        amount_fiat: Decimal::new(5000, 2),
        datetime: at(1_670_000_000),
        fiat_to_eur_rate: Decimal::new(1, 0),
        fiat_wallet_id: Some(format!("fiat-{id}")),
        id_asset: format!("coin-{id}"),
        id_fiat: "1".to_string(),
        id_wallet: format!("wallet-{id}"),
        id: id.to_string(),
        price: Decimal::new(2000000, 2),
        related_swap_trade: related.map(Box::new),
        status,
        symbol: "BTC".to_string(),
        type_,
    }
}

#[test]
fn trade_without_a_related_swap_has_none() {
    let trade = Trade::try_from(trade_record("t1", "finished", "buy", None)).unwrap();
    assert!(trade.related_swap_trade.is_none());
    assert_eq!(
        trade,
        expected_trade("t1", TradeStatus::Finished, TradeType::Buy, None)
    );
}

#[test]
fn trade_owns_the_trade_of_the_embedded_record() {
    let inner = trade_record("t2", "pending", "sell", None);
    let outer = trade_record("t1", "finished", "buy", Some(inner));
    let trade = Trade::try_from(outer).unwrap();
    let standalone = Trade::try_from(trade_record("t2", "pending", "sell", None)).unwrap();
    assert_eq!(trade.related_swap_trade.as_deref(), Some(&standalone));
    assert_eq!(
        trade,
        expected_trade(
            "t1",
            TradeStatus::Finished,
            TradeType::Buy,
            Some(expected_trade("t2", TradeStatus::Pending, TradeType::Sell, None)),
        )
    );
}

#[test]
fn trade_nesting_of_any_depth_is_followed() {
    let mut record = trade_record("t0", "canceled", "sell", None);
    let mut expected = expected_trade("t0", TradeStatus::Canceled, TradeType::Sell, None);
    for depth in 1..40 {
        let id = format!("t{depth}");
        record = trade_record(&id, "processing", "buy", Some(record));
        expected = expected_trade(&id, TradeStatus::Processing, TradeType::Buy, Some(expected));
    }
    assert_eq!(Trade::try_from(record).unwrap(), expected);
}

#[test]
fn trade_reports_the_embedded_record_before_its_own_fields() {
    let inner = trade_record("t2", "finished", "swap", None);
    let outer = trade_record("t1", "odd", "strange", Some(inner));
    assert_eq!(rejected_token(Trade::try_from(outer)), "swap");
    assert_eq!(
        rejected_token(Trade::try_from(trade_record("t1", "odd", "strange", None))),
        "odd"
    );
    assert_eq!(
        rejected_token(Trade::try_from(trade_record("t1", "pending", "strange", None))),
        "strange"
    );
}

#[test]
fn trades_fail_as_a_whole_on_the_first_invalid_record() {
    let response = tr::TradeResponse {
        data: vec![
            trade_record("a", "finished", "buy", None),
            trade_record(
                "b",
                "finished",
                "buy",
                Some(trade_record("b2", "not-a-real-status", "sell", None)),
            ),
            trade_record("c", "odd", "buy", None),
        ],
        links: Links { next: None },
    };
    assert_eq!(rejected_token(response.into_trades()), "not-a-real-status");
}

#[test]
fn trades_map_one_to_one() {
    let response = tr::TradeResponse {
        data: vec![
            trade_record("a", "finished", "buy", None),
            trade_record("b", "pending", "sell", None),
        ],
        links: Links { next: None },
    };
    assert_eq!(
        response.into_trades().unwrap(),
        vec![
            expected_trade("a", TradeStatus::Finished, TradeType::Buy, None),
            expected_trade("b", TradeStatus::Pending, TradeType::Sell, None),
        ]
    );
}

#[test]
fn trade_clone_is_equal_at_every_depth() {
    let trade = expected_trade(
        "t1",
        TradeStatus::Finished,
        TradeType::Buy,
        Some(expected_trade(
            "t2",
            TradeStatus::Pending,
            TradeType::Sell,
            Some(expected_trade("t3", TradeStatus::Canceled, TradeType::Buy, None)),
        )),
    );
    assert_eq!(trade.clone(), trade);
    assert_eq!(trade.duplicate(), trade);
}

#[test]
fn timestamp_validity() {
    assert!(at(0).is_valid());
    assert!(Timestamp { seconds: -1, nanos: 1_999_999_999, offset_seconds: -86_399 }.is_valid());
    assert!(Timestamp { seconds: 0, nanos: 0, offset_seconds: 86_399 }.is_valid());
    assert!(!Timestamp { seconds: 0, nanos: 2_000_000_000, offset_seconds: 0 }.is_valid());
    assert!(!Timestamp { seconds: 0, nanos: 0, offset_seconds: 86_400 }.is_valid());
    assert!(!Timestamp { seconds: 0, nanos: 0, offset_seconds: -86_400 }.is_valid());
}
