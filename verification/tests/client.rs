//! Client tests: URL construction, header parsing, envelope assembly, the
//! credential wrapper, and the enum catalog.

use binance_spot::client::build_response;
use binance_spot::client::headers_from_retry_after;
use binance_spot::client::Client;
use binance_spot::client::ClientConfig;
use binance_spot::crypto::SensitiveString;
use binance_spot::enums::KlineInterval;
use binance_spot::enums::OrderSide;
use binance_spot::enums::OrderStatus;
use binance_spot::enums::STPMode;
use binance_spot::enums::SymbolStatus;
use binance_spot::enums::TimeInForce;
use binance_spot::error::Error;
use binance_spot::error::ErrorCode;
use binance_spot::params::GetKlineListParams;
use binance_spot::payloads::Headers;
use binance_spot::payloads::Response;
use binance_spot::payloads::ServerTime;
use binance_spot::url::Path;
use binance_spot::url::BASE_URL_API;
use binance_spot::url::BASE_URL_API_DATA;
use binance_spot::url::HEADER_RETRY_AFTER;

fn client() -> Client {
    Client::new(ClientConfig {
        base_url: String::from(BASE_URL_API),
        api_key: None,
        api_secret: None,
    })
}

#[test]
fn urls_concatenate_base_path_and_query() {
    let c = client();
    assert_eq!(c.get_server_time_url(), String::from("https://api.binance.com/api/v3/time"));
    assert_eq!(c.test_connectivity_url(), String::from("https://api.binance.com/api/v3/ping"));
    let params = GetKlineListParams {
        symbol: String::from("BTCUSDT"),
        interval: KlineInterval::Minute1,
        start_time: None,
        end_time: None,
        time_zone: None,
        limit: Some(2),
    };
    assert_eq!(
        c.get_kline_list_url(&params),
        String::from("https://api.binance.com/api/v3/klines?symbol=BTCUSDT&interval=1m&limit=2")
    );
    assert_eq!(
        c.get_ui_kline_list_url(&params),
        String::from("https://api.binance.com/api/v3/uiKlines?symbol=BTCUSDT&interval=1m&limit=2")
    );
}

#[test]
fn base_urls_and_header_names_are_fixed() {
    assert_eq!(BASE_URL_API, "https://api.binance.com");
    assert_eq!(BASE_URL_API_DATA, "https://data-api.binance.vision");
    assert_eq!(HEADER_RETRY_AFTER, "Retry-After");
    assert_eq!(Path::Depth.as_str(), "/api/v3/depth");
    assert_eq!(Path::Ticker24hr.as_str(), "/api/v3/ticker/24hr");
    assert_eq!(Path::OrderCancelReplace.as_str(), "/api/v3/order/cancelReplace");
}

#[test]
fn retry_after_is_read_only_when_present_and_numeric() {
    assert_eq!(headers_from_retry_after(Some("120")), Headers { retry_after: Some(120) });
    assert_eq!(headers_from_retry_after(Some("+7")), Headers { retry_after: Some(7) });
    assert_eq!(headers_from_retry_after(Some("soon")), Headers { retry_after: None });
    assert_eq!(headers_from_retry_after(Some("")), Headers { retry_after: None });
    assert_eq!(
        headers_from_retry_after(Some("99999999999999999999999")),
        Headers { retry_after: None }
    );
    assert_eq!(headers_from_retry_after(None), Headers { retry_after: None });
}

#[test]
fn build_response_pairs_payload_and_hint() {
    let r: Response<ServerTime> =
        build_response(r#"{"serverTime": 5}"#, Some("30")).unwrap();
    assert_eq!(r.result, ServerTime { server_time: 5 });
    assert_eq!(r.headers, Headers { retry_after: Some(30) });

    let e = build_response::<ServerTime>(r#"{"serverTime": true}"#, None).unwrap_err();
    assert!(matches!(e, Error::Decode(_)));
}

#[test]
fn sensitive_string_redacts_but_compares_on_content() {
    let a = SensitiveString::new(String::from("secret123"));
    let b = SensitiveString::from(String::from("secret123"));
    let c = SensitiveString::new(String::from("other"));
    assert_eq!(a.redacted(), "REDACTED");
    assert!(!a.redacted().contains("secret123"));
    assert_eq!(a.expose(), "secret123");
    assert!(a == b);
    assert!(a != c);
}

#[test]
fn enum_tokens_round_trip() {
    assert_eq!(KlineInterval::Minute1.token(), "1m");
    assert_eq!(KlineInterval::from_token("1m"), Some(KlineInterval::Minute1));
    assert_eq!(KlineInterval::Month1.token(), "1M");
    assert_eq!(KlineInterval::from_token("1M"), Some(KlineInterval::Month1));
    assert_eq!(KlineInterval::from_token("2m"), None);
    assert_eq!(SymbolStatus::EndOfDay.token(), "END_OF_DAY");
    assert_eq!(SymbolStatus::from_token("END_OF_DAY"), Some(SymbolStatus::EndOfDay));
    assert_eq!(OrderStatus::from_token("PARTIALLY_FILLED"), Some(OrderStatus::PartiallyFilled));
    assert_eq!(OrderStatus::ExpiredInMatch.token(), "EXPIRED_IN_MATCH");
    assert_eq!(STPMode::NoPrevention.token(), "NONE");
    assert_eq!(STPMode::from_token("EXPIRE_MAKER"), Some(STPMode::ExpireMaker));
    assert_eq!(OrderSide::BUY.token(), "BUY");
    assert_eq!(TimeInForce::from_token("FOK"), Some(TimeInForce::FOK));
    assert_eq!(TimeInForce::from_token("XXX"), None);
}

#[test]
fn error_codes_match_the_documented_values() {
    assert_eq!(ErrorCode::Unknown.code(), -1000);
    assert_eq!(ErrorCode::BadSymbol.code(), -1121);
    assert_eq!(ErrorCode::ClientOrderIdInvalid.code(), -2039);
    assert_eq!(ErrorCode::from_code(-1000), Some(ErrorCode::Unknown));
    assert_eq!(ErrorCode::from_code(-1121), Some(ErrorCode::BadSymbol));
    assert_eq!(ErrorCode::from_code(-1), None);
    assert_eq!(ErrorCode::from_code(ErrorCode::TooManyRequests.code()), Some(ErrorCode::TooManyRequests));
}
