//! Query-string tests: key order, omitted optional fields, value encoding.

use binance_spot::enums::KlineInterval;
use binance_spot::enums::SymbolStatus;
use binance_spot::params::GetAggregateTradesParams;
use binance_spot::params::GetExchangeInfoParams;
use binance_spot::params::GetKlineListParams;
use binance_spot::params::GetOlderTradesParams;
use binance_spot::params::GetOrderBookParams;
use binance_spot::params::GetTickerPriceChangeStatisticsParams;
use binance_spot::params::SymbolOrSymbols;

#[test]
fn kline_query_holds_exactly_the_set_fields() {
    let params = GetKlineListParams {
        symbol: String::from("BTCUSDT"),
        interval: KlineInterval::Minute1,
        start_time: None,
        end_time: None,
        time_zone: None,
        limit: Some(2),
    };
    assert_eq!(params.query_string(), String::from("symbol=BTCUSDT&interval=1m&limit=2"));
}

#[test]
fn kline_query_with_every_field() {
    let params = GetKlineListParams {
        symbol: String::from("BTCUSDT"),
        interval: KlineInterval::Month1,
        start_time: Some(1499040000000),
        end_time: Some(1499644799999),
        time_zone: Some(String::from("-1:00")),
        limit: Some(1000),
    };
    assert_eq!(
        params.query_string(),
        String::from(
            "symbol=BTCUSDT&interval=1M&startTime=1499040000000&endTime=1499644799999&timeZone=-1%3A00&limit=1000"
        )
    );
}

#[test]
fn exchange_info_query_omits_every_unset_field() {
    let params = GetExchangeInfoParams {
        symbol: None,
        symbols: None,
        permissions: None,
        show_permission_sets: None,
        symbol_status: None,
    };
    assert_eq!(params.query_string(), String::from(""));
}

#[test]
fn exchange_info_query_writes_symbol_lists_and_tokens() {
    let params = GetExchangeInfoParams {
        symbol: None,
        symbols: Some(vec![String::from("BTCUSDT"), String::from("BNBBTC")]),
        permissions: None,
        show_permission_sets: Some(true),
        symbol_status: Some(SymbolStatus::Trading),
    };
    assert_eq!(
        params.query_string(),
        String::from(
            "symbols=%5B%22BTCUSDT%22%2C%22BNBBTC%22%5D&showPermissionSets=true&symbolStatus=TRADING"
        )
    );
}

#[test]
fn order_book_query_with_and_without_limit() {
    let with = GetOrderBookParams { symbol: String::from("ETHBTC"), limit: Some(5000) };
    assert_eq!(with.query_string(), String::from("symbol=ETHBTC&limit=5000"));
    let without = GetOrderBookParams { symbol: String::from("ETHBTC"), limit: None };
    assert_eq!(without.query_string(), String::from("symbol=ETHBTC"));
}

#[test]
fn older_trades_query_writes_signed_ids() {
    let params = GetOlderTradesParams {
        symbol: String::from("ETHBTC"),
        limit: None,
        from_id: Some(-1),
    };
    assert_eq!(params.query_string(), String::from("symbol=ETHBTC&fromId=-1"));
}

#[test]
fn aggregate_trades_query_keeps_documented_key_order() {
    let params = GetAggregateTradesParams {
        symbol: String::from("ETHBTC"),
        from_id: Some(100),
        start_time: Some(1),
        end_time: Some(2),
        limit: Some(500),
    };
    assert_eq!(
        params.query_string(),
        String::from("symbol=ETHBTC&fromId=100&startTime=1&endTime=2&limit=500")
    );
}

#[test]
fn ticker_statistics_query_places_the_discriminator_first() {
    let mini = GetTickerPriceChangeStatisticsParams::Mini(SymbolOrSymbols {
        symbol: Some(String::from("BTCUSDT")),
        symbols: None,
    });
    assert_eq!(mini.query_string(), String::from("type=MINI&symbol=BTCUSDT"));
    let full = GetTickerPriceChangeStatisticsParams::Full(SymbolOrSymbols {
        symbol: None,
        symbols: Some(vec![String::from("BTCUSDT"), String::from("BNBUSDT")]),
    });
    assert_eq!(
        full.query_string(),
        String::from("type=FULL&symbols=%5B%22BTCUSDT%22%2C%22BNBUSDT%22%5D")
    );
    let all = GetTickerPriceChangeStatisticsParams::Full(SymbolOrSymbols {
        symbol: None,
        symbols: None,
    });
    assert_eq!(all.query_string(), String::from("type=FULL"));
}

#[test]
fn values_are_form_urlencoded() {
    // A space becomes '+', reserved ASCII is percent-encoded, and non-ASCII
    // is written as the percent-encoded bytes of its UTF-8 encoding.
    let params = GetOrderBookParams { symbol: String::from("a b&c=d\u{e9}"), limit: None };
    assert_eq!(params.query_string(), String::from("symbol=a+b%26c%3Dd%C3%A9"));
}
