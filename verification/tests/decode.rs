//! Decoding tests: response bodies against their typed payloads.

use binance_spot::codec::deserialize_str;
use binance_spot::decimal::parse_decimal;
use binance_spot::decimal::Decimal;
use binance_spot::enums::OrderType;
use binance_spot::enums::RateLimitInterval;
use binance_spot::enums::RateLimiter;
use binance_spot::enums::STPMode;
use binance_spot::enums::SymbolStatus;
use binance_spot::error::DecodeKind;
use binance_spot::error::PathSeg;
use binance_spot::payloads::CurrentAveragePrice;
use binance_spot::payloads::ExchangeInfo;
use binance_spot::payloads::Filter;
use binance_spot::payloads::Kline;
use binance_spot::payloads::OrderBook;
use binance_spot::payloads::OrderLevel;
use binance_spot::payloads::RateLimit;
use binance_spot::payloads::RecentTrade;
use binance_spot::payloads::SOR;
use binance_spot::payloads::ServerTime;
use binance_spot::payloads::SymbolInfo;
use binance_spot::payloads::TestConnectivity;
use binance_spot::payloads::TickerPriceChangeStatistic;

fn dec(mantissa: i128, scale: u32) -> Decimal {
    Decimal::new(mantissa, scale)
}

#[test]
fn deserialize_response_exchange_info() {
    let json = r#"{
        "timezone": "UTC",
        "serverTime": 1565246363776,
        "rateLimits": [],
        "exchangeFilters": [],
        "symbols": [
            {
                "symbol": "ETHBTC",
                "status": "TRADING",
                "baseAsset": "ETH",
                "baseAssetPrecision": 8,
                "quoteAsset": "BTC",
                "quotePrecision": 8,
                "quoteAssetPrecision": 8,
                "baseCommissionPrecision": 8,
                "quoteCommissionPrecision": 8,
                "orderTypes": [
                    "LIMIT",
                    "LIMIT_MAKER",
                    "MARKET",
                    "STOP_LOSS",
                    "STOP_LOSS_LIMIT",
                    "TAKE_PROFIT",
                    "TAKE_PROFIT_LIMIT"
                ],
                "icebergAllowed": true,
                "ocoAllowed": true,
                "otoAllowed": true,
                "quoteOrderQtyMarketAllowed": true,
                "allowTrailingStop": false,
                "cancelReplaceAllowed":false,
                "amendAllowed":false,
                "isSpotTradingAllowed": true,
                "isMarginTradingAllowed": true,
                "filters": [],
                "permissions": [],
                "permissionSets": [
                    [
                        "SPOT",
                        "MARGIN"
                    ]
                ],
                "defaultSelfTradePreventionMode": "NONE",
                "allowedSelfTradePreventionModes": [
                    "NONE"
                ]
            }
        ],
        "sors": [
            {
                "baseAsset": "BTC",
                "symbols": [
                    "BTCUSDT",
                    "BTCUSDC"
                ]
            }
        ]
    }"#;
    let expected = ExchangeInfo {
        timezone: String::from("UTC"),
        server_time: 1565246363776,
        rate_limits: vec![],
        exchange_filters: vec![],
        symbols: vec![SymbolInfo {
            symbol: String::from("ETHBTC"),
            status: SymbolStatus::Trading,
            base_asset: String::from("ETH"),
            base_asset_precision: 8,
            quote_asset: String::from("BTC"),
            quote_asset_precision: 8,
            base_commission_precision: 8,
            quote_commission_precision: 8,
            order_types: vec![
                OrderType::Limit,
                OrderType::LimitMaker,
                OrderType::Market,
                OrderType::StopLoss,
                OrderType::StopLossLimit,
                OrderType::TakeProfit,
                OrderType::TakeProfitLimit,
            ],
            iceberg_allowed: true,
            oco_allowed: true,
            oto_allowed: true,
            quote_order_qty_market_allowed: true,
            allow_trailing_stop: false,
            cancel_replace_allowed: false,
            amend_allowed: false,
            is_spot_trading_allowed: true,
            is_margin_trading_allowed: true,
            filters: vec![],
            permissions: vec![],
            permission_sets: vec![vec![String::from("SPOT"), String::from("MARGIN")]],
            default_self_trade_prevention_mode: STPMode::NoPrevention,
            allowed_self_trade_prevention_modes: vec![STPMode::NoPrevention],
        }],
        sors: Some(vec![SOR {
            base_asset: String::from("BTC"),
            symbols: vec![String::from("BTCUSDT"), String::from("BTCUSDC")],
        }]),
    };

    let current: ExchangeInfo = deserialize_str(json).unwrap();

    assert_eq!(expected, current);
}

#[test]
fn deserialize_response_order_book() {
    let json = r#"{
        "lastUpdateId": 1027024,
        "bids": [
            [
            "4.00000000",
            "431.00000000"
            ]
        ],
        "asks": [
            [
            "4.00000200",
            "12.00000000"
            ]
        ]
    }"#;
    let expected = OrderBook {
        last_update_id: 1027024,
        bids: vec![OrderLevel(dec(400000000, 8), dec(43100000000, 8))],
        asks: vec![OrderLevel(dec(400000200, 8), dec(1200000000, 8))],
    };

    let current: OrderBook = deserialize_str(json).unwrap();

    assert_eq!(expected, current);
}

#[test]
fn kline_positions_match_documented_order() {
    let json = r#"[1499040000000, "0.01634790", "0.80000000", "0.01575800", "0.01577100", "148976.11427815", 1499644799999, "2434.19055334", 308, "1756.87402397", "28.46694368", "0"]"#;
    let k: Kline = deserialize_str(json).unwrap();
    assert_eq!(k.time_open(), 1499040000000);
    assert_eq!(k.open(), dec(1634790, 8));
    assert_eq!(k.high(), dec(80000000, 8));
    assert_eq!(k.low(), dec(1575800, 8));
    assert_eq!(k.close(), dec(1577100, 8));
    assert_eq!(k.volume(), dec(14897611427815, 8));
    assert_eq!(k.time_close(), 1499644799999);
    assert_eq!(k.quote_asset_volume(), dec(243419055334, 8));
    assert_eq!(k.id(), 308);
    assert_eq!(k.taker_buy_base_asset_volume(), dec(175687402397, 8));
    assert_eq!(k.taker_buy_quote_asset_volume(), dec(2846694368, 8));
}

#[test]
fn kline_wrong_arity_is_rejected_with_position() {
    // Eleven elements: the deprecated trailing field is missing.
    let json = r#"[1499040000000, "0.01634790", "0.80000000", "0.01575800", "0.01577100", "148976.11427815", 1499644799999, "2434.19055334", 308, "1756.87402397", "28.46694368"]"#;
    let r: Result<Kline, _> = deserialize_str(json);
    let e = r.unwrap_err();
    assert!(matches!(e.kind, DecodeKind::WrongArity { expected: 12, got: 11 }));
    assert_eq!(e.path, vec![]);
}

#[test]
fn order_level_wrong_arity_is_rejected_inside_book() {
    let json = r#"{"lastUpdateId": 1, "bids": [["4.0", "1.0", "extra"]], "asks": []}"#;
    let r: Result<OrderBook, _> = deserialize_str(json);
    let e = r.unwrap_err();
    assert!(matches!(e.kind, DecodeKind::WrongArity { expected: 2, got: 3 }));
    assert_eq!(
        e.path,
        vec![PathSeg::Key(String::from("bids")), PathSeg::Index(0)]
    );
    assert_eq!(e.path_string(), String::from(".bids[0]"));
}

#[test]
fn exchange_info_without_sors_is_explicitly_absent() {
    let json = r#"{
        "timezone": "UTC",
        "serverTime": 1,
        "rateLimits": [{"rateLimitType": "REQUEST_WEIGHT", "interval": "MINUTE", "intervalNum": 1, "limit": 6000}],
        "exchangeFilters": [],
        "symbols": []
    }"#;
    let info: ExchangeInfo = deserialize_str(json).unwrap();
    assert_eq!(info.sors, None);
    assert_eq!(
        info.rate_limits,
        vec![RateLimit {
            rate_limit_type: RateLimiter::RequestWeight,
            interval: RateLimitInterval::Minute,
            interval_num: 1,
            limit: 6000,
        }]
    );
}

#[test]
fn missing_required_field_names_its_path() {
    let json = r#"{"timezone": "UTC"}"#;
    let r: Result<ExchangeInfo, _> = deserialize_str(json);
    let e = r.unwrap_err();
    assert!(matches!(e.kind, DecodeKind::MissingField));
    assert_eq!(e.path, vec![PathSeg::Key(String::from("serverTime"))]);
}

#[test]
fn server_time_and_connectivity_decode() {
    let st: ServerTime = deserialize_str(r#"{"serverTime": 1499827319559}"#).unwrap();
    assert_eq!(st, ServerTime { server_time: 1499827319559 });
    let tc: TestConnectivity = deserialize_str(r#"{}"#).unwrap();
    assert_eq!(tc, TestConnectivity {});
    let f: Filter = deserialize_str(r#"{"anything": 1}"#).unwrap();
    assert_eq!(f, Filter {});
}

#[test]
fn malformed_json_is_a_syntax_error() {
    let r: Result<ServerTime, _> = deserialize_str(r#"{"serverTime": "#);
    let e = r.unwrap_err();
    assert!(matches!(e.kind, DecodeKind::Syntax(_)));
}

#[test]
fn unknown_enum_token_is_rejected() {
    let json = r#"{
        "timezone": "UTC",
        "serverTime": 1,
        "rateLimits": [{"rateLimitType": "SOMETHING_NEW", "interval": "MINUTE", "intervalNum": 1, "limit": 6000}],
        "exchangeFilters": [],
        "symbols": []
    }"#;
    let r: Result<ExchangeInfo, _> = deserialize_str(json);
    let e = r.unwrap_err();
    assert!(matches!(e.kind, DecodeKind::UnknownToken));
    assert_eq!(e.path_string(), String::from(".rateLimits[0].rateLimitType"));
}

#[test]
fn recent_trade_decodes_field_for_field() {
    let json = r#"{
        "id": 28457,
        "price": "4.00000100",
        "qty": "12.00000000",
        "quoteQty": "48.000012",
        "time": 1499865549590,
        "isBuyerMaker": true,
        "isBestMatch": true
    }"#;
    let t: RecentTrade = deserialize_str(json).unwrap();
    assert_eq!(
        t,
        RecentTrade {
            id: 28457,
            price: dec(400000100, 8),
            qty: dec(1200000000, 8),
            quote_qty: dec(48000012, 6),
            time: 1499865549590,
            is_buyer_maker: true,
            is_best_match: true,
        }
    );
}

#[test]
fn current_average_price_decodes() {
    let json = r#"{"mins": 5, "price": "9.35751834", "closeTime": 1694061154503}"#;
    let p: CurrentAveragePrice = deserialize_str(json).unwrap();
    assert_eq!(
        p,
        CurrentAveragePrice { mins: 5, price: dec(935751834, 8), close_time: 1694061154503 }
    );
}

#[test]
fn ticker_statistic_single_mini_shape_wins_first() {
    let json = r#"{
        "symbol": "BNBBTC",
        "openPrice": "99.00000000",
        "highPrice": "100.00000000",
        "lowPrice": "0.10000000",
        "lastPrice": "4.00000200",
        "volume": "8913.30000000",
        "quoteVolume": "15.30000000",
        "openTime": 1499783499040,
        "closeTime": 1499869899040,
        "firstId": 28385,
        "lastId": 28460,
        "count": 76
    }"#;
    let t: TickerPriceChangeStatistic = deserialize_str(json).unwrap();
    match t {
        TickerPriceChangeStatistic::MiniElement(m) => {
            assert_eq!(m.symbol, String::from("BNBBTC"));
            assert_eq!(m.last_price, dec(400000200, 8));
            assert_eq!(m.count, 76);
        }
        other => panic!("decoded into the wrong shape: {other:?}"),
    }
}

#[test]
fn ticker_statistic_list_shape() {
    let json = r#"[{
        "symbol": "BNBBTC",
        "openPrice": "99.00000000",
        "highPrice": "100.00000000",
        "lowPrice": "0.10000000",
        "lastPrice": "4.00000200",
        "volume": "8913.30000000",
        "quoteVolume": "15.30000000",
        "openTime": 1499783499040,
        "closeTime": 1499869899040,
        "firstId": 28385,
        "lastId": 28460,
        "count": 76
    }]"#;
    let t: TickerPriceChangeStatistic = deserialize_str(json).unwrap();
    match t {
        TickerPriceChangeStatistic::MiniList(l) => assert_eq!(l.len(), 1),
        other => panic!("decoded into the wrong shape: {other:?}"),
    }
}

#[test]
fn decimal_parse_accepts_signs_and_rejects_junk() {
    assert_eq!(parse_decimal("0"), Some(dec(0, 0)));
    assert_eq!(parse_decimal("-1.5"), Some(dec(-15, 1)));
    assert_eq!(parse_decimal("+2.50"), Some(dec(250, 2)));
    assert_eq!(parse_decimal("148976.11427815"), Some(dec(14897611427815, 8)));
    assert_eq!(parse_decimal(""), None);
    assert_eq!(parse_decimal("."), None);
    assert_eq!(parse_decimal("1."), None);
    assert_eq!(parse_decimal(".5"), None);
    assert_eq!(parse_decimal("1.2.3"), None);
    assert_eq!(parse_decimal("12a"), None);
    assert_eq!(parse_decimal("1e5"), None);
}
