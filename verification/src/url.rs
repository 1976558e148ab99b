//! The fixed external interface: base URLs, endpoint paths, and the header
//! names the client reads and writes.

use vstd::prelude::*;

verus! {

/// Production REST base URL.
pub const BASE_URL_API: &'static str = "https://api.binance.com";

/// Numbered production mirrors.
pub const BASE_URL_API1: &'static str = "https://api1.binance.com";

pub const BASE_URL_API2: &'static str = "https://api2.binance.com";

pub const BASE_URL_API3: &'static str = "https://api3.binance.com";

pub const BASE_URL_API4: &'static str = "https://api4.binance.com";

/// GCP-hosted mirror.
pub const BASE_URL_API_GCP: &'static str = "https://api-gcp.binance.com";

/// Mirror that serves only public market data.
pub const BASE_URL_API_DATA: &'static str = "https://data-api.binance.vision";

/// WebSocket market-data stream bases; declared for completeness, unused by
/// any implemented call.
pub const BASE_URL_STREAM_DATA1: &'static str = "wss://data-stream.binance.vision:9443";

pub const BASE_URL_STREAM_DATA2: &'static str = "wss://data-stream.binance.vision:443";

/// The response header carrying the retry-after hint.
pub const HEADER_RETRY_AFTER: &'static str = "Retry-After";

/// The request header carrying the API key on authenticated calls; declared
/// for future use, attached by no implemented call.
pub const HEADER_X_MBX_APIKEY: &'static str = "X-MBX-APIKEY";

/// The fixed set of endpoint path suffixes.
#[derive(Debug, Clone, Copy, PartialEq, Eq, Structural)]
pub enum Path {
    // General.
    Ping,
    Time,
    ExchangeInfo,
    // Market data.
    Depth,
    Trades,
    HistoricalTrades,
    AggTrades,
    KLines,
    UIKLines,
    AvgPrice,
    Ticker24hr,
    TickerTradingDay,
    TickerPrice,
    TickerBook,
    Ticker,
    // Trading (declared; not wired to any client call)
    Order,
    OrderTest,
    OpenOrders,
    OrderCancelReplace,
    OrderAmendKeepPriority,
    OrderListOCO,
    OrderListOTO,
    OrderListOTOCO,
    OrderList,
    SOROrder,
    SOROrderTest,
    RateLimitOrder,
}

impl Path {
    /// The path string of the endpoint.
    pub open spec fn spec_str(self) -> Seq<char> {
        match self {
            Path::Ping => "/api/v3/ping"@,
            Path::Time => "/api/v3/time"@,
            Path::ExchangeInfo => "/api/v3/exchangeInfo"@,
            Path::Depth => "/api/v3/depth"@,
            Path::Trades => "/api/v3/trades"@,
            Path::HistoricalTrades => "/api/v3/historicalTrades"@,
            Path::AggTrades => "/api/v3/aggTrades"@,
            Path::KLines => "/api/v3/klines"@,
            Path::UIKLines => "/api/v3/uiKlines"@,
            Path::AvgPrice => "/api/v3/avgPrice"@,
            Path::Ticker24hr => "/api/v3/ticker/24hr"@,
            Path::TickerTradingDay => "/api/v3/ticker/tradingDay"@,
            Path::TickerPrice => "/api/v3/ticker/price"@,
            Path::TickerBook => "/api/v3/ticker/bookTicker"@,
            Path::Ticker => "/api/v3/ticker"@,
            Path::Order => "/api/v3/order"@,
            Path::OrderTest => "/api/v3/order/test"@,
            Path::OpenOrders => "/api/v3/openOrders"@,
            Path::OrderCancelReplace => "/api/v3/order/cancelReplace"@,
            Path::OrderAmendKeepPriority => "/api/v3/order/amend/keepPriority"@,
            Path::OrderListOCO => "/api/v3/orderList/oco"@,
            Path::OrderListOTO => "/api/v3/orderList/oto"@,
            Path::OrderListOTOCO => "/api/v3/orderList/otoco"@,
            Path::OrderList => "/api/v3/orderList"@,
            Path::SOROrder => "/api/v3/sor/order"@,
            Path::SOROrderTest => "/api/v3/sor/order/test"@,
            Path::RateLimitOrder => "/api/v3/rateLimit/order"@,
        }
    }

    /// Writes the endpoint path.
    pub fn as_str(&self) -> (r: &'static str)
        ensures
            r@ == self.spec_str(),
    {
        match self {
            Path::Ping => "/api/v3/ping",
            Path::Time => "/api/v3/time",
            Path::ExchangeInfo => "/api/v3/exchangeInfo",
            Path::Depth => "/api/v3/depth",
            Path::Trades => "/api/v3/trades",
            Path::HistoricalTrades => "/api/v3/historicalTrades",
            Path::AggTrades => "/api/v3/aggTrades",
            Path::KLines => "/api/v3/klines",
            Path::UIKLines => "/api/v3/uiKlines",
            Path::AvgPrice => "/api/v3/avgPrice",
            Path::Ticker24hr => "/api/v3/ticker/24hr",
            Path::TickerTradingDay => "/api/v3/ticker/tradingDay",
            Path::TickerPrice => "/api/v3/ticker/price",
            Path::TickerBook => "/api/v3/ticker/bookTicker",
            Path::Ticker => "/api/v3/ticker",
            Path::Order => "/api/v3/order",
            Path::OrderTest => "/api/v3/order/test",
            Path::OpenOrders => "/api/v3/openOrders",
            Path::OrderCancelReplace => "/api/v3/order/cancelReplace",
            Path::OrderAmendKeepPriority => "/api/v3/order/amend/keepPriority",
            Path::OrderListOCO => "/api/v3/orderList/oco",
            Path::OrderListOTO => "/api/v3/orderList/oto",
            Path::OrderListOTOCO => "/api/v3/orderList/otoco",
            Path::OrderList => "/api/v3/orderList",
            Path::SOROrder => "/api/v3/sor/order",
            Path::SOROrderTest => "/api/v3/sor/order/test",
            Path::RateLimitOrder => "/api/v3/rateLimit/order",
        }
    }
}

} // verus!
