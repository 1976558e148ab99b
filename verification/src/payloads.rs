//! Response payloads, one structure per endpoint, mirroring the exchange's
//! JSON shapes field for field.
//!
//! Named-field payloads decode by key; the order-book level and the kline
//! bar are positional arrays and decode by strict index, rejecting any
//! other arity.  Every decoder implements [`FromJson`], so its acceptance
//! condition and its result are pinned down by a total specification.

use vstd::prelude::*;

use crate::codec::FromJson;
use crate::codec::spec_opt_field;
use crate::codec::spec_req_field;
use crate::codec::opt_field;
use crate::codec::req_field;
use crate::decimal::Decimal;
use crate::enums::OrderType;
use crate::enums::RateLimitInterval;
use crate::enums::RateLimiter;
use crate::enums::STPMode;
use crate::enums::SymbolStatus;
use crate::error::DecodeError;
use crate::error::DecodeKind;
use crate::json::JVal;
use crate::json::Json;
use crate::json::jlookup;
use crate::json::obj_get;
use crate::json::json_field_views;
use crate::json::json_views;
use crate::json::lemma_json_field_views_deep;
use crate::json::lemma_json_views_deep;
use crate::json::lemma_json_views_index;
use crate::json::lemma_json_views_len;
use crate::text::str_eq;

verus! {

use vstd::string::StringExecFns;

/// A millisecond timestamp, as the exchange reports times.
pub type Timestamp = u64;

/// Transport metadata delivered beside a decoded payload: the retry-after
/// hint, if the response carried one.  The hint is never fabricated: it is
/// present exactly when the header was present with an unsigned decimal
/// value.
#[derive(Debug, Clone, Copy, PartialEq, Eq, Structural)]
pub struct Headers {
    pub retry_after: Option<Timestamp>,
}

/// A decoded payload paired with its transport metadata.
#[derive(Debug, Clone, PartialEq)]
pub struct Response<T> {
    pub result: T,
    pub headers: Headers,
}

/// The (empty) response of the connectivity test endpoint.
#[derive(Debug, Clone, Copy, PartialEq, Eq, Structural)]
pub struct TestConnectivity {}

impl DeepView for TestConnectivity {
    type V = TestConnectivity;

    open spec fn deep_view(&self) -> TestConnectivity {
        *self
    }
}

impl FromJson for TestConnectivity {
    open spec fn spec_from_json(v: JVal) -> Option<TestConnectivity> {
        match v {
            JVal::Obj(_) => Some(TestConnectivity {}),
            _ => None,
        }
    }

    fn from_json(v: &Json) -> (r: Result<Self, DecodeError>) {
        match v {
            Json::Obj(_) => Ok(TestConnectivity {}),
            _ => Err(DecodeError::at_root(DecodeKind::WrongType)),
        }
    }
}

/// The response of the server time endpoint.
#[derive(Debug, Clone, Copy, PartialEq, Eq, Structural)]
pub struct ServerTime {
    pub server_time: Timestamp,
}

impl DeepView for ServerTime {
    type V = ServerTime;

    open spec fn deep_view(&self) -> ServerTime {
        *self
    }
}

impl FromJson for ServerTime {
    open spec fn spec_from_json(v: JVal) -> Option<ServerTime> {
        match v {
            JVal::Obj(fs) => {
                let server_time = spec_req_field::<Timestamp>(fs, "serverTime"@);
                if server_time is Some {
                    Some(ServerTime {
                        server_time: server_time->Some_0,
                    })
                } else {
                    None
                }
            },
            _ => None,
        }
    }

    fn from_json(v: &Json) -> (r: Result<Self, DecodeError>) {
        match v {
            Json::Obj(fields) => {
                proof {
                    lemma_json_field_views_deep(*fields);
                    assert((*v).deep_view() == JVal::Obj(json_field_views(fields@)));
                    assert(fields.deep_view() =~= json_field_views(fields@));
                }
                let server_time: Timestamp = req_field(fields, "serverTime")?;
                Ok(ServerTime {
                    server_time,
                })
            },
            _ => Err(DecodeError::at_root(DecodeKind::WrongType)),
        }
    }
}

/// One rate limit in force, as reported by the exchange information
/// endpoint.
#[derive(Debug, Clone, Copy, PartialEq, Eq, Structural)]
pub struct RateLimit {
    pub rate_limit_type: RateLimiter,
    pub interval: RateLimitInterval,
    pub interval_num: u64,
    pub limit: u64,
}

impl DeepView for RateLimit {
    type V = RateLimit;

    open spec fn deep_view(&self) -> RateLimit {
        *self
    }
}

impl FromJson for RateLimit {
    open spec fn spec_from_json(v: JVal) -> Option<RateLimit> {
        match v {
            JVal::Obj(fs) => {
                let rate_limit_type = spec_req_field::<RateLimiter>(fs, "rateLimitType"@);
                let interval = spec_req_field::<RateLimitInterval>(fs, "interval"@);
                let interval_num = spec_req_field::<u64>(fs, "intervalNum"@);
                let limit = spec_req_field::<u64>(fs, "limit"@);
                if rate_limit_type is Some && interval is Some && interval_num is Some && limit is Some {
                    Some(RateLimit {
                        rate_limit_type: rate_limit_type->Some_0,
                        interval: interval->Some_0,
                        interval_num: interval_num->Some_0,
                        limit: limit->Some_0,
                    })
                } else {
                    None
                }
            },
            _ => None,
        }
    }

    fn from_json(v: &Json) -> (r: Result<Self, DecodeError>) {
        match v {
            Json::Obj(fields) => {
                proof {
                    lemma_json_field_views_deep(*fields);
                    assert((*v).deep_view() == JVal::Obj(json_field_views(fields@)));
                    assert(fields.deep_view() =~= json_field_views(fields@));
                }
                let rate_limit_type: RateLimiter = req_field(fields, "rateLimitType")?;
                let interval: RateLimitInterval = req_field(fields, "interval")?;
                let interval_num: u64 = req_field(fields, "intervalNum")?;
                let limit: u64 = req_field(fields, "limit")?;
                Ok(RateLimit {
                    rate_limit_type,
                    interval,
                    interval_num,
                    limit,
                })
            },
            _ => Err(DecodeError::at_root(DecodeKind::WrongType)),
        }
    }
}

/// A symbol trading filter; the exchange's filter details are not
/// modelled, so any object is accepted.
#[derive(Debug, Clone, Copy, PartialEq, Eq, Structural)]
pub struct Filter {}

impl DeepView for Filter {
    type V = Filter;

    open spec fn deep_view(&self) -> Filter {
        *self
    }
}

impl FromJson for Filter {
    open spec fn spec_from_json(v: JVal) -> Option<Filter> {
        match v {
            JVal::Obj(_) => Some(Filter {}),
            _ => None,
        }
    }

    fn from_json(v: &Json) -> (r: Result<Self, DecodeError>) {
        match v {
            Json::Obj(_) => Ok(Filter {}),
            _ => Err(DecodeError::at_root(DecodeKind::WrongType)),
        }
    }
}

/// A smart order routing (SOR) entry: the venue symbols an order on the
/// base asset may be routed across.
#[derive(Debug, Clone, PartialEq)]
pub struct SOR {
    pub base_asset: String,
    pub symbols: Vec<String>,
}

/// Model of a [`SOR`].
pub struct SpecSOR {
    pub base_asset: Seq<char>,
    pub symbols: Seq<Seq<char>>,
}

impl DeepView for SOR {
    type V = SpecSOR;

    open spec fn deep_view(&self) -> SpecSOR {
        SpecSOR {
            base_asset: self.base_asset@,
            symbols: self.symbols.deep_view(),
        }
    }
}

impl FromJson for SOR {
    open spec fn spec_from_json(v: JVal) -> Option<SpecSOR> {
        match v {
            JVal::Obj(fs) => {
                let base_asset = spec_req_field::<String>(fs, "baseAsset"@);
                let symbols = spec_req_field::<Vec<String>>(fs, "symbols"@);
                if base_asset is Some && symbols is Some {
                    Some(SpecSOR {
                        base_asset: base_asset->Some_0,
                        symbols: symbols->Some_0,
                    })
                } else {
                    None
                }
            },
            _ => None,
        }
    }

    fn from_json(v: &Json) -> (r: Result<Self, DecodeError>) {
        match v {
            Json::Obj(fields) => {
                proof {
                    lemma_json_field_views_deep(*fields);
                    assert((*v).deep_view() == JVal::Obj(json_field_views(fields@)));
                    assert(fields.deep_view() =~= json_field_views(fields@));
                }
                let base_asset: String = req_field(fields, "baseAsset")?;
                let symbols: Vec<String> = req_field(fields, "symbols")?;
                Ok(SOR {
                    base_asset,
                    symbols,
                })
            },
            _ => Err(DecodeError::at_root(DecodeKind::WrongType)),
        }
    }
}

/// Everything the exchange reports about one symbol.
#[derive(Debug, Clone, PartialEq)]
pub struct SymbolInfo {
    pub symbol: String,
    pub status: SymbolStatus,
    pub base_asset: String,
    pub base_asset_precision: u8,
    pub quote_asset: String,
    pub quote_asset_precision: u8,
    pub base_commission_precision: u8,
    pub quote_commission_precision: u8,
    pub order_types: Vec<OrderType>,
    pub iceberg_allowed: bool,
    pub oco_allowed: bool,
    pub oto_allowed: bool,
    pub quote_order_qty_market_allowed: bool,
    pub allow_trailing_stop: bool,
    pub cancel_replace_allowed: bool,
    pub amend_allowed: bool,
    pub is_spot_trading_allowed: bool,
    pub is_margin_trading_allowed: bool,
    pub filters: Vec<Filter>,
    pub permissions: Vec<String>,
    pub permission_sets: Vec<Vec<String>>,
    pub default_self_trade_prevention_mode: STPMode,
    pub allowed_self_trade_prevention_modes: Vec<STPMode>,
}

/// Model of a [`SymbolInfo`].
pub struct SpecSymbolInfo {
    pub symbol: Seq<char>,
    pub status: SymbolStatus,
    pub base_asset: Seq<char>,
    pub base_asset_precision: u8,
    pub quote_asset: Seq<char>,
    pub quote_asset_precision: u8,
    pub base_commission_precision: u8,
    pub quote_commission_precision: u8,
    pub order_types: Seq<OrderType>,
    pub iceberg_allowed: bool,
    pub oco_allowed: bool,
    pub oto_allowed: bool,
    pub quote_order_qty_market_allowed: bool,
    pub allow_trailing_stop: bool,
    pub cancel_replace_allowed: bool,
    pub amend_allowed: bool,
    pub is_spot_trading_allowed: bool,
    pub is_margin_trading_allowed: bool,
    pub filters: Seq<Filter>,
    pub permissions: Seq<Seq<char>>,
    pub permission_sets: Seq<Seq<Seq<char>>>,
    pub default_self_trade_prevention_mode: STPMode,
    pub allowed_self_trade_prevention_modes: Seq<STPMode>,
}

impl DeepView for SymbolInfo {
    type V = SpecSymbolInfo;

    open spec fn deep_view(&self) -> SpecSymbolInfo {
        SpecSymbolInfo {
            symbol: self.symbol@,
            status: self.status,
            base_asset: self.base_asset@,
            base_asset_precision: self.base_asset_precision,
            quote_asset: self.quote_asset@,
            quote_asset_precision: self.quote_asset_precision,
            base_commission_precision: self.base_commission_precision,
            quote_commission_precision: self.quote_commission_precision,
            order_types: self.order_types.deep_view(),
            iceberg_allowed: self.iceberg_allowed,
            oco_allowed: self.oco_allowed,
            oto_allowed: self.oto_allowed,
            quote_order_qty_market_allowed: self.quote_order_qty_market_allowed,
            allow_trailing_stop: self.allow_trailing_stop,
            cancel_replace_allowed: self.cancel_replace_allowed,
            amend_allowed: self.amend_allowed,
            is_spot_trading_allowed: self.is_spot_trading_allowed,
            is_margin_trading_allowed: self.is_margin_trading_allowed,
            filters: self.filters.deep_view(),
            permissions: self.permissions.deep_view(),
            permission_sets: self.permission_sets.deep_view(),
            default_self_trade_prevention_mode: self.default_self_trade_prevention_mode,
            allowed_self_trade_prevention_modes: self.allowed_self_trade_prevention_modes.deep_view(),
        }
    }
}

impl FromJson for SymbolInfo {
    open spec fn spec_from_json(v: JVal) -> Option<SpecSymbolInfo> {
        match v {
            JVal::Obj(fs) => {
                let symbol = spec_req_field::<String>(fs, "symbol"@);
                let status = spec_req_field::<SymbolStatus>(fs, "status"@);
                let base_asset = spec_req_field::<String>(fs, "baseAsset"@);
                let base_asset_precision = spec_req_field::<u8>(fs, "baseAssetPrecision"@);
                let quote_asset = spec_req_field::<String>(fs, "quoteAsset"@);
                let quote_asset_precision = spec_req_field::<u8>(fs, "quoteAssetPrecision"@);
                let base_commission_precision = spec_req_field::<u8>(fs, "baseCommissionPrecision"@);
                let quote_commission_precision = spec_req_field::<u8>(fs, "quoteCommissionPrecision"@);
                let order_types = spec_req_field::<Vec<OrderType>>(fs, "orderTypes"@);
                let iceberg_allowed = spec_req_field::<bool>(fs, "icebergAllowed"@);
                let oco_allowed = spec_req_field::<bool>(fs, "ocoAllowed"@);
                let oto_allowed = spec_req_field::<bool>(fs, "otoAllowed"@);
                let quote_order_qty_market_allowed = spec_req_field::<bool>(fs, "quoteOrderQtyMarketAllowed"@);
                let allow_trailing_stop = spec_req_field::<bool>(fs, "allowTrailingStop"@);
                let cancel_replace_allowed = spec_req_field::<bool>(fs, "cancelReplaceAllowed"@);
                let amend_allowed = spec_req_field::<bool>(fs, "amendAllowed"@);
                let is_spot_trading_allowed = spec_req_field::<bool>(fs, "isSpotTradingAllowed"@);
                let is_margin_trading_allowed = spec_req_field::<bool>(fs, "isMarginTradingAllowed"@);
                let filters = spec_req_field::<Vec<Filter>>(fs, "filters"@);
                let permissions = spec_req_field::<Vec<String>>(fs, "permissions"@);
                let permission_sets = spec_req_field::<Vec<Vec<String>>>(fs, "permissionSets"@);
                let default_self_trade_prevention_mode = spec_req_field::<STPMode>(fs, "defaultSelfTradePreventionMode"@);
                let allowed_self_trade_prevention_modes = spec_req_field::<Vec<STPMode>>(fs, "allowedSelfTradePreventionModes"@);
                if symbol is Some && status is Some && base_asset is Some && base_asset_precision is Some && quote_asset is Some && quote_asset_precision is Some && base_commission_precision is Some && quote_commission_precision is Some && order_types is Some && iceberg_allowed is Some && oco_allowed is Some && oto_allowed is Some && quote_order_qty_market_allowed is Some && allow_trailing_stop is Some && cancel_replace_allowed is Some && amend_allowed is Some && is_spot_trading_allowed is Some && is_margin_trading_allowed is Some && filters is Some && permissions is Some && permission_sets is Some && default_self_trade_prevention_mode is Some && allowed_self_trade_prevention_modes is Some {
                    Some(SpecSymbolInfo {
                        symbol: symbol->Some_0,
                        status: status->Some_0,
                        base_asset: base_asset->Some_0,
                        base_asset_precision: base_asset_precision->Some_0,
                        quote_asset: quote_asset->Some_0,
                        quote_asset_precision: quote_asset_precision->Some_0,
                        base_commission_precision: base_commission_precision->Some_0,
                        quote_commission_precision: quote_commission_precision->Some_0,
                        order_types: order_types->Some_0,
                        iceberg_allowed: iceberg_allowed->Some_0,
                        oco_allowed: oco_allowed->Some_0,
                        oto_allowed: oto_allowed->Some_0,
                        quote_order_qty_market_allowed: quote_order_qty_market_allowed->Some_0,
                        allow_trailing_stop: allow_trailing_stop->Some_0,
                        cancel_replace_allowed: cancel_replace_allowed->Some_0,
                        amend_allowed: amend_allowed->Some_0,
                        is_spot_trading_allowed: is_spot_trading_allowed->Some_0,
                        is_margin_trading_allowed: is_margin_trading_allowed->Some_0,
                        filters: filters->Some_0,
                        permissions: permissions->Some_0,
                        permission_sets: permission_sets->Some_0,
                        default_self_trade_prevention_mode: default_self_trade_prevention_mode->Some_0,
                        allowed_self_trade_prevention_modes: allowed_self_trade_prevention_modes->Some_0,
                    })
                } else {
                    None
                }
            },
            _ => None,
        }
    }

    fn from_json(v: &Json) -> (r: Result<Self, DecodeError>) {
        match v {
            Json::Obj(fields) => {
                proof {
                    lemma_json_field_views_deep(*fields);
                    assert((*v).deep_view() == JVal::Obj(json_field_views(fields@)));
                    assert(fields.deep_view() =~= json_field_views(fields@));
                }
                let symbol: String = req_field(fields, "symbol")?;
                let status: SymbolStatus = req_field(fields, "status")?;
                let base_asset: String = req_field(fields, "baseAsset")?;
                let base_asset_precision: u8 = req_field(fields, "baseAssetPrecision")?;
                let quote_asset: String = req_field(fields, "quoteAsset")?;
                let quote_asset_precision: u8 = req_field(fields, "quoteAssetPrecision")?;
                let base_commission_precision: u8 = req_field(fields, "baseCommissionPrecision")?;
                let quote_commission_precision: u8 = req_field(fields, "quoteCommissionPrecision")?;
                let order_types: Vec<OrderType> = req_field(fields, "orderTypes")?;
                let iceberg_allowed: bool = req_field(fields, "icebergAllowed")?;
                let oco_allowed: bool = req_field(fields, "ocoAllowed")?;
                let oto_allowed: bool = req_field(fields, "otoAllowed")?;
                let quote_order_qty_market_allowed: bool = req_field(fields, "quoteOrderQtyMarketAllowed")?;
                let allow_trailing_stop: bool = req_field(fields, "allowTrailingStop")?;
                let cancel_replace_allowed: bool = req_field(fields, "cancelReplaceAllowed")?;
                let amend_allowed: bool = req_field(fields, "amendAllowed")?;
                let is_spot_trading_allowed: bool = req_field(fields, "isSpotTradingAllowed")?;
                let is_margin_trading_allowed: bool = req_field(fields, "isMarginTradingAllowed")?;
                let filters: Vec<Filter> = req_field(fields, "filters")?;
                let permissions: Vec<String> = req_field(fields, "permissions")?;
                let permission_sets: Vec<Vec<String>> = req_field(fields, "permissionSets")?;
                let default_self_trade_prevention_mode: STPMode = req_field(fields, "defaultSelfTradePreventionMode")?;
                let allowed_self_trade_prevention_modes: Vec<STPMode> = req_field(fields, "allowedSelfTradePreventionModes")?;
                Ok(SymbolInfo {
                    symbol,
                    status,
                    base_asset,
                    base_asset_precision,
                    quote_asset,
                    quote_asset_precision,
                    base_commission_precision,
                    quote_commission_precision,
                    order_types,
                    iceberg_allowed,
                    oco_allowed,
                    oto_allowed,
                    quote_order_qty_market_allowed,
                    allow_trailing_stop,
                    cancel_replace_allowed,
                    amend_allowed,
                    is_spot_trading_allowed,
                    is_margin_trading_allowed,
                    filters,
                    permissions,
                    permission_sets,
                    default_self_trade_prevention_mode,
                    allowed_self_trade_prevention_modes,
                })
            },
            _ => Err(DecodeError::at_root(DecodeKind::WrongType)),
        }
    }
}

/// The response of the exchange information endpoint.  `sors` is present
/// only when smart order routing is available; its absence decodes to an
/// explicit absent state, never to a default.
#[derive(Debug, Clone, PartialEq)]
pub struct ExchangeInfo {
    pub timezone: String,
    pub server_time: Timestamp,
    pub rate_limits: Vec<RateLimit>,
    pub exchange_filters: Vec<ExchangeFilter>,
    pub symbols: Vec<SymbolInfo>,
    pub sors: Option<Vec<SOR>>,
}

/// Model of a [`ExchangeInfo`].
pub struct SpecExchangeInfo {
    pub timezone: Seq<char>,
    pub server_time: Timestamp,
    pub rate_limits: Seq<RateLimit>,
    pub exchange_filters: Seq<ExchangeFilter>,
    pub symbols: Seq<SpecSymbolInfo>,
    pub sors: Option<Seq<SpecSOR>>,
}

impl DeepView for ExchangeInfo {
    type V = SpecExchangeInfo;

    open spec fn deep_view(&self) -> SpecExchangeInfo {
        SpecExchangeInfo {
            timezone: self.timezone@,
            server_time: self.server_time.deep_view(),
            rate_limits: self.rate_limits.deep_view(),
            exchange_filters: self.exchange_filters.deep_view(),
            symbols: self.symbols.deep_view(),
            sors: self.sors.deep_view(),
        }
    }
}

impl FromJson for ExchangeInfo {
    open spec fn spec_from_json(v: JVal) -> Option<SpecExchangeInfo> {
        match v {
            JVal::Obj(fs) => {
                let timezone = spec_req_field::<String>(fs, "timezone"@);
                let server_time = spec_req_field::<Timestamp>(fs, "serverTime"@);
                let rate_limits = spec_req_field::<Vec<RateLimit>>(fs, "rateLimits"@);
                let exchange_filters = spec_req_field::<Vec<ExchangeFilter>>(fs, "exchangeFilters"@);
                let symbols = spec_req_field::<Vec<SymbolInfo>>(fs, "symbols"@);
                let sors = spec_opt_field::<Vec<SOR>>(fs, "sors"@);
                if timezone is Some && server_time is Some && rate_limits is Some && exchange_filters is Some && symbols is Some && sors is Some {
                    Some(SpecExchangeInfo {
                        timezone: timezone->Some_0,
                        server_time: server_time->Some_0,
                        rate_limits: rate_limits->Some_0,
                        exchange_filters: exchange_filters->Some_0,
                        symbols: symbols->Some_0,
                        sors: sors->Some_0,
                    })
                } else {
                    None
                }
            },
            _ => None,
        }
    }

    fn from_json(v: &Json) -> (r: Result<Self, DecodeError>) {
        match v {
            Json::Obj(fields) => {
                proof {
                    lemma_json_field_views_deep(*fields);
                    assert((*v).deep_view() == JVal::Obj(json_field_views(fields@)));
                    assert(fields.deep_view() =~= json_field_views(fields@));
                }
                let timezone: String = req_field(fields, "timezone")?;
                let server_time: Timestamp = req_field(fields, "serverTime")?;
                let rate_limits: Vec<RateLimit> = req_field(fields, "rateLimits")?;
                let exchange_filters: Vec<ExchangeFilter> = req_field(fields, "exchangeFilters")?;
                let symbols: Vec<SymbolInfo> = req_field(fields, "symbols")?;
                let sors: Option<Vec<SOR>> = opt_field(fields, "sors")?;
                Ok(ExchangeInfo {
                    timezone,
                    server_time,
                    rate_limits,
                    exchange_filters,
                    symbols,
                    sors,
                })
            },
            _ => Err(DecodeError::at_root(DecodeKind::WrongType)),
        }
    }
}

/// The response of the order book endpoint.
#[derive(Debug, Clone, PartialEq)]
pub struct OrderBook {
    pub last_update_id: i64,
    pub bids: Vec<OrderLevel>,
    pub asks: Vec<OrderLevel>,
}

/// Model of a [`OrderBook`].
pub struct SpecOrderBook {
    pub last_update_id: i64,
    pub bids: Seq<OrderLevel>,
    pub asks: Seq<OrderLevel>,
}

impl DeepView for OrderBook {
    type V = SpecOrderBook;

    open spec fn deep_view(&self) -> SpecOrderBook {
        SpecOrderBook {
            last_update_id: self.last_update_id,
            bids: self.bids.deep_view(),
            asks: self.asks.deep_view(),
        }
    }
}

impl FromJson for OrderBook {
    open spec fn spec_from_json(v: JVal) -> Option<SpecOrderBook> {
        match v {
            JVal::Obj(fs) => {
                let last_update_id = spec_req_field::<i64>(fs, "lastUpdateId"@);
                let bids = spec_req_field::<Vec<OrderLevel>>(fs, "bids"@);
                let asks = spec_req_field::<Vec<OrderLevel>>(fs, "asks"@);
                if last_update_id is Some && bids is Some && asks is Some {
                    Some(SpecOrderBook {
                        last_update_id: last_update_id->Some_0,
                        bids: bids->Some_0,
                        asks: asks->Some_0,
                    })
                } else {
                    None
                }
            },
            _ => None,
        }
    }

    fn from_json(v: &Json) -> (r: Result<Self, DecodeError>) {
        match v {
            Json::Obj(fields) => {
                proof {
                    lemma_json_field_views_deep(*fields);
                    assert((*v).deep_view() == JVal::Obj(json_field_views(fields@)));
                    assert(fields.deep_view() =~= json_field_views(fields@));
                }
                let last_update_id: i64 = req_field(fields, "lastUpdateId")?;
                let bids: Vec<OrderLevel> = req_field(fields, "bids")?;
                let asks: Vec<OrderLevel> = req_field(fields, "asks")?;
                Ok(OrderBook {
                    last_update_id,
                    bids,
                    asks,
                })
            },
            _ => Err(DecodeError::at_root(DecodeKind::WrongType)),
        }
    }
}

/// One trade, as the recent and historical trade endpoints report it.
#[derive(Debug, Clone, Copy, PartialEq, Eq, Structural)]
pub struct RecentTrade {
    pub id: i64,
    pub price: Decimal,
    pub qty: Decimal,
    pub quote_qty: Decimal,
    pub time: Timestamp,
    pub is_buyer_maker: bool,
    pub is_best_match: bool,
}

impl DeepView for RecentTrade {
    type V = RecentTrade;

    open spec fn deep_view(&self) -> RecentTrade {
        *self
    }
}

impl FromJson for RecentTrade {
    open spec fn spec_from_json(v: JVal) -> Option<RecentTrade> {
        match v {
            JVal::Obj(fs) => {
                let id = spec_req_field::<i64>(fs, "id"@);
                let price = spec_req_field::<Decimal>(fs, "price"@);
                let qty = spec_req_field::<Decimal>(fs, "qty"@);
                let quote_qty = spec_req_field::<Decimal>(fs, "quoteQty"@);
                let time = spec_req_field::<Timestamp>(fs, "time"@);
                let is_buyer_maker = spec_req_field::<bool>(fs, "isBuyerMaker"@);
                let is_best_match = spec_req_field::<bool>(fs, "isBestMatch"@);
                if id is Some && price is Some && qty is Some && quote_qty is Some && time is Some && is_buyer_maker is Some && is_best_match is Some {
                    Some(RecentTrade {
                        id: id->Some_0,
                        price: price->Some_0,
                        qty: qty->Some_0,
                        quote_qty: quote_qty->Some_0,
                        time: time->Some_0,
                        is_buyer_maker: is_buyer_maker->Some_0,
                        is_best_match: is_best_match->Some_0,
                    })
                } else {
                    None
                }
            },
            _ => None,
        }
    }

    fn from_json(v: &Json) -> (r: Result<Self, DecodeError>) {
        match v {
            Json::Obj(fields) => {
                proof {
                    lemma_json_field_views_deep(*fields);
                    assert((*v).deep_view() == JVal::Obj(json_field_views(fields@)));
                    assert(fields.deep_view() =~= json_field_views(fields@));
                }
                let id: i64 = req_field(fields, "id")?;
                let price: Decimal = req_field(fields, "price")?;
                let qty: Decimal = req_field(fields, "qty")?;
                let quote_qty: Decimal = req_field(fields, "quoteQty")?;
                let time: Timestamp = req_field(fields, "time")?;
                let is_buyer_maker: bool = req_field(fields, "isBuyerMaker")?;
                let is_best_match: bool = req_field(fields, "isBestMatch")?;
                Ok(RecentTrade {
                    id,
                    price,
                    qty,
                    quote_qty,
                    time,
                    is_buyer_maker,
                    is_best_match,
                })
            },
            _ => Err(DecodeError::at_root(DecodeKind::WrongType)),
        }
    }
}

/// One compressed trade: fills at the same time, from the same taker
/// order, at the same price, with the quantity aggregated.  The wire keys
/// are the exchange's single-letter names.
#[derive(Debug, Clone, Copy, PartialEq, Eq, Structural)]
pub struct AggregateTrade {
    pub id: i64,
    pub price: Decimal,
    pub qty: Decimal,
    pub first_trade_id: i64,
    pub last_trade_id: i64,
    pub time: Timestamp,
    pub is_buyer_maker: bool,
    pub is_best_match: bool,
}

impl DeepView for AggregateTrade {
    type V = AggregateTrade;

    open spec fn deep_view(&self) -> AggregateTrade {
        *self
    }
}

impl FromJson for AggregateTrade {
    open spec fn spec_from_json(v: JVal) -> Option<AggregateTrade> {
        match v {
            JVal::Obj(fs) => {
                let id = spec_req_field::<i64>(fs, "a"@);
                let price = spec_req_field::<Decimal>(fs, "p"@);
                let qty = spec_req_field::<Decimal>(fs, "q"@);
                let first_trade_id = spec_req_field::<i64>(fs, "f"@);
                let last_trade_id = spec_req_field::<i64>(fs, "l"@);
                let time = spec_req_field::<Timestamp>(fs, "T"@);
                let is_buyer_maker = spec_req_field::<bool>(fs, "m"@);
                let is_best_match = spec_req_field::<bool>(fs, "M"@);
                if id is Some && price is Some && qty is Some && first_trade_id is Some && last_trade_id is Some && time is Some && is_buyer_maker is Some && is_best_match is Some {
                    Some(AggregateTrade {
                        id: id->Some_0,
                        price: price->Some_0,
                        qty: qty->Some_0,
                        first_trade_id: first_trade_id->Some_0,
                        last_trade_id: last_trade_id->Some_0,
                        time: time->Some_0,
                        is_buyer_maker: is_buyer_maker->Some_0,
                        is_best_match: is_best_match->Some_0,
                    })
                } else {
                    None
                }
            },
            _ => None,
        }
    }

    fn from_json(v: &Json) -> (r: Result<Self, DecodeError>) {
        match v {
            Json::Obj(fields) => {
                proof {
                    lemma_json_field_views_deep(*fields);
                    assert((*v).deep_view() == JVal::Obj(json_field_views(fields@)));
                    assert(fields.deep_view() =~= json_field_views(fields@));
                }
                let id: i64 = req_field(fields, "a")?;
                let price: Decimal = req_field(fields, "p")?;
                let qty: Decimal = req_field(fields, "q")?;
                let first_trade_id: i64 = req_field(fields, "f")?;
                let last_trade_id: i64 = req_field(fields, "l")?;
                let time: Timestamp = req_field(fields, "T")?;
                let is_buyer_maker: bool = req_field(fields, "m")?;
                let is_best_match: bool = req_field(fields, "M")?;
                Ok(AggregateTrade {
                    id,
                    price,
                    qty,
                    first_trade_id,
                    last_trade_id,
                    time,
                    is_buyer_maker,
                    is_best_match,
                })
            },
            _ => Err(DecodeError::at_root(DecodeKind::WrongType)),
        }
    }
}

/// The response of the current average price endpoint: the average over
/// the reported interval in minutes, and the last trade time.
#[derive(Debug, Clone, Copy, PartialEq, Eq, Structural)]
pub struct CurrentAveragePrice {
    pub mins: u64,
    pub price: Decimal,
    pub close_time: Timestamp,
}

impl DeepView for CurrentAveragePrice {
    type V = CurrentAveragePrice;

    open spec fn deep_view(&self) -> CurrentAveragePrice {
        *self
    }
}

impl FromJson for CurrentAveragePrice {
    open spec fn spec_from_json(v: JVal) -> Option<CurrentAveragePrice> {
        match v {
            JVal::Obj(fs) => {
                let mins = spec_req_field::<u64>(fs, "mins"@);
                let price = spec_req_field::<Decimal>(fs, "price"@);
                let close_time = spec_req_field::<Timestamp>(fs, "closeTime"@);
                if mins is Some && price is Some && close_time is Some {
                    Some(CurrentAveragePrice {
                        mins: mins->Some_0,
                        price: price->Some_0,
                        close_time: close_time->Some_0,
                    })
                } else {
                    None
                }
            },
            _ => None,
        }
    }

    fn from_json(v: &Json) -> (r: Result<Self, DecodeError>) {
        match v {
            Json::Obj(fields) => {
                proof {
                    lemma_json_field_views_deep(*fields);
                    assert((*v).deep_view() == JVal::Obj(json_field_views(fields@)));
                    assert(fields.deep_view() =~= json_field_views(fields@));
                }
                let mins: u64 = req_field(fields, "mins")?;
                let price: Decimal = req_field(fields, "price")?;
                let close_time: Timestamp = req_field(fields, "closeTime")?;
                Ok(CurrentAveragePrice {
                    mins,
                    price,
                    close_time,
                })
            },
            _ => Err(DecodeError::at_root(DecodeKind::WrongType)),
        }
    }
}

/// The mini shape of a ticker price change statistic.
#[derive(Debug, Clone, PartialEq)]
pub struct TickerPriceChangeStatisticMini {
    pub symbol: String,
    pub open_price: Decimal,
    pub high_price: Decimal,
    pub low_price: Decimal,
    pub last_price: Decimal,
    pub volume: Decimal,
    pub quote_volume: Decimal,
    pub open_time: Timestamp,
    pub close_time: Timestamp,
    pub first_id: i64,
    pub last_id: i64,
    pub count: u64,
}

/// Model of a [`TickerPriceChangeStatisticMini`].
pub struct SpecTickerPriceChangeStatisticMini {
    pub symbol: Seq<char>,
    pub open_price: Decimal,
    pub high_price: Decimal,
    pub low_price: Decimal,
    pub last_price: Decimal,
    pub volume: Decimal,
    pub quote_volume: Decimal,
    pub open_time: Timestamp,
    pub close_time: Timestamp,
    pub first_id: i64,
    pub last_id: i64,
    pub count: u64,
}

impl DeepView for TickerPriceChangeStatisticMini {
    type V = SpecTickerPriceChangeStatisticMini;

    open spec fn deep_view(&self) -> SpecTickerPriceChangeStatisticMini {
        SpecTickerPriceChangeStatisticMini {
            symbol: self.symbol@,
            open_price: self.open_price,
            high_price: self.high_price,
            low_price: self.low_price,
            last_price: self.last_price,
            volume: self.volume,
            quote_volume: self.quote_volume,
            open_time: self.open_time.deep_view(),
            close_time: self.close_time.deep_view(),
            first_id: self.first_id,
            last_id: self.last_id,
            count: self.count,
        }
    }
}

impl FromJson for TickerPriceChangeStatisticMini {
    open spec fn spec_from_json(v: JVal) -> Option<SpecTickerPriceChangeStatisticMini> {
        match v {
            JVal::Obj(fs) => {
                let symbol = spec_req_field::<String>(fs, "symbol"@);
                let open_price = spec_req_field::<Decimal>(fs, "openPrice"@);
                let high_price = spec_req_field::<Decimal>(fs, "highPrice"@);
                let low_price = spec_req_field::<Decimal>(fs, "lowPrice"@);
                let last_price = spec_req_field::<Decimal>(fs, "lastPrice"@);
                let volume = spec_req_field::<Decimal>(fs, "volume"@);
                let quote_volume = spec_req_field::<Decimal>(fs, "quoteVolume"@);
                let open_time = spec_req_field::<Timestamp>(fs, "openTime"@);
                let close_time = spec_req_field::<Timestamp>(fs, "closeTime"@);
                let first_id = spec_req_field::<i64>(fs, "firstId"@);
                let last_id = spec_req_field::<i64>(fs, "lastId"@);
                let count = spec_req_field::<u64>(fs, "count"@);
                if symbol is Some && open_price is Some && high_price is Some && low_price is Some && last_price is Some && volume is Some && quote_volume is Some && open_time is Some && close_time is Some && first_id is Some && last_id is Some && count is Some {
                    Some(SpecTickerPriceChangeStatisticMini {
                        symbol: symbol->Some_0,
                        open_price: open_price->Some_0,
                        high_price: high_price->Some_0,
                        low_price: low_price->Some_0,
                        last_price: last_price->Some_0,
                        volume: volume->Some_0,
                        quote_volume: quote_volume->Some_0,
                        open_time: open_time->Some_0,
                        close_time: close_time->Some_0,
                        first_id: first_id->Some_0,
                        last_id: last_id->Some_0,
                        count: count->Some_0,
                    })
                } else {
                    None
                }
            },
            _ => None,
        }
    }

    fn from_json(v: &Json) -> (r: Result<Self, DecodeError>) {
        match v {
            Json::Obj(fields) => {
                proof {
                    lemma_json_field_views_deep(*fields);
                    assert((*v).deep_view() == JVal::Obj(json_field_views(fields@)));
                    assert(fields.deep_view() =~= json_field_views(fields@));
                }
                let symbol: String = req_field(fields, "symbol")?;
                let open_price: Decimal = req_field(fields, "openPrice")?;
                let high_price: Decimal = req_field(fields, "highPrice")?;
                let low_price: Decimal = req_field(fields, "lowPrice")?;
                let last_price: Decimal = req_field(fields, "lastPrice")?;
                let volume: Decimal = req_field(fields, "volume")?;
                let quote_volume: Decimal = req_field(fields, "quoteVolume")?;
                let open_time: Timestamp = req_field(fields, "openTime")?;
                let close_time: Timestamp = req_field(fields, "closeTime")?;
                let first_id: i64 = req_field(fields, "firstId")?;
                let last_id: i64 = req_field(fields, "lastId")?;
                let count: u64 = req_field(fields, "count")?;
                Ok(TickerPriceChangeStatisticMini {
                    symbol,
                    open_price,
                    high_price,
                    low_price,
                    last_price,
                    volume,
                    quote_volume,
                    open_time,
                    close_time,
                    first_id,
                    last_id,
                    count,
                })
            },
            _ => Err(DecodeError::at_root(DecodeKind::WrongType)),
        }
    }
}

/// The full shape of a ticker price change statistic.
#[derive(Debug, Clone, PartialEq)]
pub struct TickerPriceChangeStatisticFull {
    pub symbol: String,
    pub price_change: Decimal,
    pub price_change_percent: Decimal,
    pub weighted_avg_price: Decimal,
    pub prev_close_price: Decimal,
    pub last_price: Decimal,
    pub last_qty: Decimal,
    pub bid_price: Decimal,
    pub bid_qty: Decimal,
    pub ask_price: Decimal,
    pub ask_qty: Decimal,
    pub open_price: Decimal,
    pub high_price: Decimal,
    pub low_price: Decimal,
    pub volume: Decimal,
    pub quote_volume: Decimal,
    pub open_time: Timestamp,
    pub close_time: Timestamp,
    pub first_id: i64,
    pub last_id: i64,
    pub count: u64,
}

/// Model of a [`TickerPriceChangeStatisticFull`].
pub struct SpecTickerPriceChangeStatisticFull {
    pub symbol: Seq<char>,
    pub price_change: Decimal,
    pub price_change_percent: Decimal,
    pub weighted_avg_price: Decimal,
    pub prev_close_price: Decimal,
    pub last_price: Decimal,
    pub last_qty: Decimal,
    pub bid_price: Decimal,
    pub bid_qty: Decimal,
    pub ask_price: Decimal,
    pub ask_qty: Decimal,
    pub open_price: Decimal,
    pub high_price: Decimal,
    pub low_price: Decimal,
    pub volume: Decimal,
    pub quote_volume: Decimal,
    pub open_time: Timestamp,
    pub close_time: Timestamp,
    pub first_id: i64,
    pub last_id: i64,
    pub count: u64,
}

impl DeepView for TickerPriceChangeStatisticFull {
    type V = SpecTickerPriceChangeStatisticFull;

    open spec fn deep_view(&self) -> SpecTickerPriceChangeStatisticFull {
        SpecTickerPriceChangeStatisticFull {
            symbol: self.symbol@,
            price_change: self.price_change,
            price_change_percent: self.price_change_percent,
            weighted_avg_price: self.weighted_avg_price,
            prev_close_price: self.prev_close_price,
            last_price: self.last_price,
            last_qty: self.last_qty,
            bid_price: self.bid_price,
            bid_qty: self.bid_qty,
            ask_price: self.ask_price,
            ask_qty: self.ask_qty,
            open_price: self.open_price,
            high_price: self.high_price,
            low_price: self.low_price,
            volume: self.volume,
            quote_volume: self.quote_volume,
            open_time: self.open_time.deep_view(),
            close_time: self.close_time.deep_view(),
            first_id: self.first_id,
            last_id: self.last_id,
            count: self.count,
        }
    }
}

impl FromJson for TickerPriceChangeStatisticFull {
    open spec fn spec_from_json(v: JVal) -> Option<SpecTickerPriceChangeStatisticFull> {
        match v {
            JVal::Obj(fs) => {
                let symbol = spec_req_field::<String>(fs, "symbol"@);
                let price_change = spec_req_field::<Decimal>(fs, "priceChange"@);
                let price_change_percent = spec_req_field::<Decimal>(fs, "priceChangePercent"@);
                let weighted_avg_price = spec_req_field::<Decimal>(fs, "weightedAvgPrice"@);
                let prev_close_price = spec_req_field::<Decimal>(fs, "prevClosePrice"@);
                let last_price = spec_req_field::<Decimal>(fs, "lastPrice"@);
                let last_qty = spec_req_field::<Decimal>(fs, "lastQty"@);
                let bid_price = spec_req_field::<Decimal>(fs, "bidPrice"@);
                let bid_qty = spec_req_field::<Decimal>(fs, "bidQty"@);
                let ask_price = spec_req_field::<Decimal>(fs, "askPrice"@);
                let ask_qty = spec_req_field::<Decimal>(fs, "askQty"@);
                let open_price = spec_req_field::<Decimal>(fs, "openPrice"@);
                let high_price = spec_req_field::<Decimal>(fs, "highPrice"@);
                let low_price = spec_req_field::<Decimal>(fs, "lowPrice"@);
                let volume = spec_req_field::<Decimal>(fs, "volume"@);
                let quote_volume = spec_req_field::<Decimal>(fs, "quoteVolume"@);
                let open_time = spec_req_field::<Timestamp>(fs, "openTime"@);
                let close_time = spec_req_field::<Timestamp>(fs, "closeTime"@);
                let first_id = spec_req_field::<i64>(fs, "firstId"@);
                let last_id = spec_req_field::<i64>(fs, "lastId"@);
                let count = spec_req_field::<u64>(fs, "count"@);
                if symbol is Some && price_change is Some && price_change_percent is Some && weighted_avg_price is Some && prev_close_price is Some && last_price is Some && last_qty is Some && bid_price is Some && bid_qty is Some && ask_price is Some && ask_qty is Some && open_price is Some && high_price is Some && low_price is Some && volume is Some && quote_volume is Some && open_time is Some && close_time is Some && first_id is Some && last_id is Some && count is Some {
                    Some(SpecTickerPriceChangeStatisticFull {
                        symbol: symbol->Some_0,
                        price_change: price_change->Some_0,
                        price_change_percent: price_change_percent->Some_0,
                        weighted_avg_price: weighted_avg_price->Some_0,
                        prev_close_price: prev_close_price->Some_0,
                        last_price: last_price->Some_0,
                        last_qty: last_qty->Some_0,
                        bid_price: bid_price->Some_0,
                        bid_qty: bid_qty->Some_0,
                        ask_price: ask_price->Some_0,
                        ask_qty: ask_qty->Some_0,
                        open_price: open_price->Some_0,
                        high_price: high_price->Some_0,
                        low_price: low_price->Some_0,
                        volume: volume->Some_0,
                        quote_volume: quote_volume->Some_0,
                        open_time: open_time->Some_0,
                        close_time: close_time->Some_0,
                        first_id: first_id->Some_0,
                        last_id: last_id->Some_0,
                        count: count->Some_0,
                    })
                } else {
                    None
                }
            },
            _ => None,
        }
    }

    fn from_json(v: &Json) -> (r: Result<Self, DecodeError>) {
        match v {
            Json::Obj(fields) => {
                proof {
                    lemma_json_field_views_deep(*fields);
                    assert((*v).deep_view() == JVal::Obj(json_field_views(fields@)));
                    assert(fields.deep_view() =~= json_field_views(fields@));
                }
                let symbol: String = req_field(fields, "symbol")?;
                let price_change: Decimal = req_field(fields, "priceChange")?;
                let price_change_percent: Decimal = req_field(fields, "priceChangePercent")?;
                let weighted_avg_price: Decimal = req_field(fields, "weightedAvgPrice")?;
                let prev_close_price: Decimal = req_field(fields, "prevClosePrice")?;
                let last_price: Decimal = req_field(fields, "lastPrice")?;
                let last_qty: Decimal = req_field(fields, "lastQty")?;
                let bid_price: Decimal = req_field(fields, "bidPrice")?;
                let bid_qty: Decimal = req_field(fields, "bidQty")?;
                let ask_price: Decimal = req_field(fields, "askPrice")?;
                let ask_qty: Decimal = req_field(fields, "askQty")?;
                let open_price: Decimal = req_field(fields, "openPrice")?;
                let high_price: Decimal = req_field(fields, "highPrice")?;
                let low_price: Decimal = req_field(fields, "lowPrice")?;
                let volume: Decimal = req_field(fields, "volume")?;
                let quote_volume: Decimal = req_field(fields, "quoteVolume")?;
                let open_time: Timestamp = req_field(fields, "openTime")?;
                let close_time: Timestamp = req_field(fields, "closeTime")?;
                let first_id: i64 = req_field(fields, "firstId")?;
                let last_id: i64 = req_field(fields, "lastId")?;
                let count: u64 = req_field(fields, "count")?;
                Ok(TickerPriceChangeStatisticFull {
                    symbol,
                    price_change,
                    price_change_percent,
                    weighted_avg_price,
                    prev_close_price,
                    last_price,
                    last_qty,
                    bid_price,
                    bid_qty,
                    ask_price,
                    ask_qty,
                    open_price,
                    high_price,
                    low_price,
                    volume,
                    quote_volume,
                    open_time,
                    close_time,
                    first_id,
                    last_id,
                    count,
                })
            },
            _ => Err(DecodeError::at_root(DecodeKind::WrongType)),
        }
    }
}

/// A symbol trading filter reported with its `filterType` discriminator;
/// the two modelled filters carry one decimal bound each.
#[derive(Debug, Clone, Copy, PartialEq, Eq, Structural)]
pub enum ExchangeFilter {
    PriceFilter { tick_size: Decimal },
    LotSize { step_size: Decimal },
}

impl DeepView for ExchangeFilter {
    type V = ExchangeFilter;

    open spec fn deep_view(&self) -> ExchangeFilter {
        *self
    }
}

impl FromJson for ExchangeFilter {
    open spec fn spec_from_json(v: JVal) -> Option<ExchangeFilter> {
        match v {
            JVal::Obj(fs) => match jlookup(fs, "filterType"@) {
                Some(JVal::Str(tag)) => if tag == "PRICE_FILTER"@ {
                    match spec_req_field::<Decimal>(fs, "tickSize"@) {
                        Some(d) => Some(ExchangeFilter::PriceFilter { tick_size: d }),
                        None => None,
                    }
                } else if tag == "LOT_SIZE"@ {
                    match spec_req_field::<Decimal>(fs, "stepSize"@) {
                        Some(d) => Some(ExchangeFilter::LotSize { step_size: d }),
                        None => None,
                    }
                } else {
                    None
                },
                _ => None,
            },
            _ => None,
        }
    }

    fn from_json(v: &Json) -> (r: Result<Self, DecodeError>) {
        match v {
            Json::Obj(fields) => {
                proof {
                    lemma_json_field_views_deep(*fields);
                    assert((*v).deep_view() == JVal::Obj(json_field_views(fields@)));
                    assert(fields.deep_view() =~= json_field_views(fields@));
                }
                match obj_get(fields, "filterType") {
                    Some(tag) => match tag {
                        Json::Str(s) => {
                            proof {
                                assert((*tag).deep_view() == JVal::Str(s@));
                            }
                            if str_eq(s.as_str(), "PRICE_FILTER") {
                                let tick_size: Decimal = req_field(fields, "tickSize")?;
                                Ok(ExchangeFilter::PriceFilter { tick_size })
                            } else if str_eq(s.as_str(), "LOT_SIZE") {
                                let step_size: Decimal = req_field(fields, "stepSize")?;
                                Ok(ExchangeFilter::LotSize { step_size })
                            } else {
                                Err(
                                    DecodeError::at_root(DecodeKind::UnknownToken).under_key(
                                        String::from_str("filterType"),
                                    ),
                                )
                            }
                        },
                        _ => Err(
                            DecodeError::at_root(DecodeKind::WrongType).under_key(
                                String::from_str("filterType"),
                            ),
                        ),
                    },
                    None => Err(
                        DecodeError::at_root(DecodeKind::MissingField).under_key(
                            String::from_str("filterType"),
                        ),
                    ),
                }
            },
            _ => Err(DecodeError::at_root(DecodeKind::WrongType)),
        }
    }
}

/// One order book level, a positional pair: price at index zero, quantity
/// at index one; any other arity is rejected.
#[derive(Debug, Clone, Copy, PartialEq, Eq, Structural)]
pub struct OrderLevel(pub Decimal, pub Decimal);

impl DeepView for OrderLevel {
    type V = OrderLevel;

    open spec fn deep_view(&self) -> OrderLevel {
        *self
    }
}

impl OrderLevel {
    /// The price of the level, index zero of the wire array.
    pub fn price(&self) -> (r: Decimal)
        ensures
            r == self.0,
    {
        self.0
    }

    /// The quantity of the level, index one of the wire array.
    pub fn qty(&self) -> (r: Decimal)
        ensures
            r == self.1,
    {
        self.1
    }
}

impl FromJson for OrderLevel {
    open spec fn spec_from_json(v: JVal) -> Option<OrderLevel> {
        match v {
            JVal::Arr(items) => if items.len() == 2 {
                match (Decimal::spec_from_json(items[0]), Decimal::spec_from_json(items[1])) {
                    (Some(price), Some(qty)) => Some(OrderLevel(price, qty)),
                    _ => None,
                }
            } else {
                None
            },
            _ => None,
        }
    }

    fn from_json(v: &Json) -> (r: Result<Self, DecodeError>) {
        match v {
            Json::Arr(items) => {
                proof {
                    lemma_json_views_deep(*items);
                    lemma_json_views_len(items@);
                    assert((*v).deep_view() == JVal::Arr(json_views(items@)));
                }
                if items.len() != 2 {
                    return Err(
                        DecodeError::at_root(
                            DecodeKind::WrongArity { expected: 2, got: items.len() },
                        ),
                    );
                }
                proof {
                    lemma_json_views_index(items@, 0);
                    lemma_json_views_index(items@, 1);
                }
                let price = match Decimal::from_json(&items[0]) {
                    Ok(d) => d,
                    Err(e) => {
                        return Err(e.under_index(0));
                    },
                };
                let qty = match Decimal::from_json(&items[1]) {
                    Ok(d) => d,
                    Err(e) => {
                        return Err(e.under_index(1));
                    },
                };
                Ok(OrderLevel(price, qty))
            },
            _ => Err(DecodeError::at_root(DecodeKind::WrongType)),
        }
    }
}

/// One kline (candlestick) bar, a positional array of exactly twelve
/// values in the documented order: open time, open, high, low, close,
/// volume, close time, quote asset volume, trade count, taker buy base
/// volume, taker buy quote volume, and one deprecated trailing field that
/// is carried but unused.  Any other arity is rejected.
#[derive(Debug, Clone, PartialEq)]
pub struct Kline(
    pub Timestamp,
    pub Decimal,
    pub Decimal,
    pub Decimal,
    pub Decimal,
    pub Decimal,
    pub Timestamp,
    pub Decimal,
    pub u64,
    pub Decimal,
    pub Decimal,
    pub String,
);

/// Model of a [`Kline`].
pub struct SpecKline(
    pub Timestamp,
    pub Decimal,
    pub Decimal,
    pub Decimal,
    pub Decimal,
    pub Decimal,
    pub Timestamp,
    pub Decimal,
    pub u64,
    pub Decimal,
    pub Decimal,
    pub Seq<char>,
);

impl DeepView for Kline {
    type V = SpecKline;

    open spec fn deep_view(&self) -> SpecKline {
        SpecKline(
            self.0,
            self.1,
            self.2,
            self.3,
            self.4,
            self.5,
            self.6,
            self.7,
            self.8,
            self.9,
            self.10,
            self.11@,
        )
    }
}

impl Kline {
    /// Kline open time, index zero of the wire array.
    pub fn time_open(&self) -> (r: Timestamp)
        ensures
            r == self.0,
    {
        self.0
    }

    /// Open price, index one.
    pub fn open(&self) -> (r: Decimal)
        ensures
            r == self.1,
    {
        self.1
    }

    /// High price, index two.
    pub fn high(&self) -> (r: Decimal)
        ensures
            r == self.2,
    {
        self.2
    }

    /// Low price, index three.
    pub fn low(&self) -> (r: Decimal)
        ensures
            r == self.3,
    {
        self.3
    }

    /// Close price, index four.
    pub fn close(&self) -> (r: Decimal)
        ensures
            r == self.4,
    {
        self.4
    }

    /// Base asset volume, index five.
    pub fn volume(&self) -> (r: Decimal)
        ensures
            r == self.5,
    {
        self.5
    }

    /// Kline close time, index six.
    pub fn time_close(&self) -> (r: Timestamp)
        ensures
            r == self.6,
    {
        self.6
    }

    /// Quote asset volume, index seven.
    pub fn quote_asset_volume(&self) -> (r: Decimal)
        ensures
            r == self.7,
    {
        self.7
    }

    /// Number of trades in the bar, index eight.
    pub fn id(&self) -> (r: u64)
        ensures
            r == self.8,
    {
        self.8
    }

    /// Taker buy base asset volume, index nine.
    pub fn taker_buy_base_asset_volume(&self) -> (r: Decimal)
        ensures
            r == self.9,
    {
        self.9
    }

    /// Taker buy quote asset volume, index ten.
    pub fn taker_buy_quote_asset_volume(&self) -> (r: Decimal)
        ensures
            r == self.10,
    {
        self.10
    }
}

impl FromJson for Kline {
    open spec fn spec_from_json(v: JVal) -> Option<SpecKline> {
        match v {
            JVal::Arr(items) => if items.len() == 12 {
                let t0 = u64::spec_from_json(items[0]);
                let p1 = Decimal::spec_from_json(items[1]);
                let p2 = Decimal::spec_from_json(items[2]);
                let p3 = Decimal::spec_from_json(items[3]);
                let p4 = Decimal::spec_from_json(items[4]);
                let p5 = Decimal::spec_from_json(items[5]);
                let t6 = u64::spec_from_json(items[6]);
                let p7 = Decimal::spec_from_json(items[7]);
                let n8 = u64::spec_from_json(items[8]);
                let p9 = Decimal::spec_from_json(items[9]);
                let p10 = Decimal::spec_from_json(items[10]);
                let s11 = String::spec_from_json(items[11]);
                if t0 is Some && p1 is Some && p2 is Some && p3 is Some && p4 is Some && p5 is Some
                    && t6 is Some && p7 is Some && n8 is Some && p9 is Some && p10 is Some
                    && s11 is Some {
                    Some(
                        SpecKline(
                            t0->Some_0,
                            p1->Some_0,
                            p2->Some_0,
                            p3->Some_0,
                            p4->Some_0,
                            p5->Some_0,
                            t6->Some_0,
                            p7->Some_0,
                            n8->Some_0,
                            p9->Some_0,
                            p10->Some_0,
                            s11->Some_0,
                        ),
                    )
                } else {
                    None
                }
            } else {
                None
            },
            _ => None,
        }
    }

    fn from_json(v: &Json) -> (r: Result<Self, DecodeError>) {
        match v {
            Json::Arr(items) => {
                proof {
                    lemma_json_views_deep(*items);
                    lemma_json_views_len(items@);
                    assert((*v).deep_view() == JVal::Arr(json_views(items@)));
                }
                if items.len() != 12 {
                    return Err(
                        DecodeError::at_root(
                            DecodeKind::WrongArity { expected: 12, got: items.len() },
                        ),
                    );
                }
                proof {
                    assert forall|j: int| 0 <= j < 12 implies json_views(items@)[j]
                        == crate::json::json_view(items@[j]) by {
                        lemma_json_views_index(items@, j);
                    }
                }
                let t0 = match u64::from_json(&items[0]) {
                    Ok(x) => x,
                    Err(e) => {
                        return Err(e.under_index(0));
                    },
                };
                let p1 = match Decimal::from_json(&items[1]) {
                    Ok(x) => x,
                    Err(e) => {
                        return Err(e.under_index(1));
                    },
                };
                let p2 = match Decimal::from_json(&items[2]) {
                    Ok(x) => x,
                    Err(e) => {
                        return Err(e.under_index(2));
                    },
                };
                let p3 = match Decimal::from_json(&items[3]) {
                    Ok(x) => x,
                    Err(e) => {
                        return Err(e.under_index(3));
                    },
                };
                let p4 = match Decimal::from_json(&items[4]) {
                    Ok(x) => x,
                    Err(e) => {
                        return Err(e.under_index(4));
                    },
                };
                let p5 = match Decimal::from_json(&items[5]) {
                    Ok(x) => x,
                    Err(e) => {
                        return Err(e.under_index(5));
                    },
                };
                let t6 = match u64::from_json(&items[6]) {
                    Ok(x) => x,
                    Err(e) => {
                        return Err(e.under_index(6));
                    },
                };
                let p7 = match Decimal::from_json(&items[7]) {
                    Ok(x) => x,
                    Err(e) => {
                        return Err(e.under_index(7));
                    },
                };
                let n8 = match u64::from_json(&items[8]) {
                    Ok(x) => x,
                    Err(e) => {
                        return Err(e.under_index(8));
                    },
                };
                let p9 = match Decimal::from_json(&items[9]) {
                    Ok(x) => x,
                    Err(e) => {
                        return Err(e.under_index(9));
                    },
                };
                let p10 = match Decimal::from_json(&items[10]) {
                    Ok(x) => x,
                    Err(e) => {
                        return Err(e.under_index(10));
                    },
                };
                let s11 = match String::from_json(&items[11]) {
                    Ok(x) => x,
                    Err(e) => {
                        return Err(e.under_index(11));
                    },
                };
                Ok(Kline(t0, p1, p2, p3, p4, p5, t6, p7, n8, p9, p10, s11))
            },
            _ => Err(DecodeError::at_root(DecodeKind::WrongType)),
        }
    }
}

/// Model of a [`TickerPriceChangeStatistic`].
pub enum SpecTickerPriceChangeStatistic {
    MiniElement(SpecTickerPriceChangeStatisticMini),
    MiniList(Seq<SpecTickerPriceChangeStatisticMini>),
    FullElement(SpecTickerPriceChangeStatisticFull),
    FullList(Seq<SpecTickerPriceChangeStatisticFull>),
}

/// The polymorphic response of the ticker statistics endpoint: a single
/// mini element, a list of mini elements, a single full element, or a list
/// of full elements, distinguished purely by structural shape.  Decoding
/// attempts the shapes in exactly that order and keeps the first fit;
/// because the mini field set is a subset of the full one, a full payload
/// also fits the mini shape and is reported as mini.
#[derive(Debug, Clone, PartialEq)]
pub enum TickerPriceChangeStatistic {
    MiniElement(TickerPriceChangeStatisticMini),
    MiniList(Vec<TickerPriceChangeStatisticMini>),
    FullElement(TickerPriceChangeStatisticFull),
    FullList(Vec<TickerPriceChangeStatisticFull>),
}

impl DeepView for TickerPriceChangeStatistic {
    type V = SpecTickerPriceChangeStatistic;

    open spec fn deep_view(&self) -> SpecTickerPriceChangeStatistic {
        match self {
            TickerPriceChangeStatistic::MiniElement(x) => SpecTickerPriceChangeStatistic::MiniElement(
                x.deep_view(),
            ),
            TickerPriceChangeStatistic::MiniList(x) => SpecTickerPriceChangeStatistic::MiniList(
                x.deep_view(),
            ),
            TickerPriceChangeStatistic::FullElement(x) => SpecTickerPriceChangeStatistic::FullElement(
                x.deep_view(),
            ),
            TickerPriceChangeStatistic::FullList(x) => SpecTickerPriceChangeStatistic::FullList(
                x.deep_view(),
            ),
        }
    }
}

impl FromJson for TickerPriceChangeStatistic {
    open spec fn spec_from_json(v: JVal) -> Option<SpecTickerPriceChangeStatistic> {
        if TickerPriceChangeStatisticMini::spec_from_json(v) is Some {
            Some(
                SpecTickerPriceChangeStatistic::MiniElement(
                    TickerPriceChangeStatisticMini::spec_from_json(v)->Some_0,
                ),
            )
        } else if Vec::<TickerPriceChangeStatisticMini>::spec_from_json(v) is Some {
            Some(
                SpecTickerPriceChangeStatistic::MiniList(
                    Vec::<TickerPriceChangeStatisticMini>::spec_from_json(v)->Some_0,
                ),
            )
        } else if TickerPriceChangeStatisticFull::spec_from_json(v) is Some {
            Some(
                SpecTickerPriceChangeStatistic::FullElement(
                    TickerPriceChangeStatisticFull::spec_from_json(v)->Some_0,
                ),
            )
        } else if Vec::<TickerPriceChangeStatisticFull>::spec_from_json(v) is Some {
            Some(
                SpecTickerPriceChangeStatistic::FullList(
                    Vec::<TickerPriceChangeStatisticFull>::spec_from_json(v)->Some_0,
                ),
            )
        } else {
            None
        }
    }

    fn from_json(v: &Json) -> (r: Result<Self, DecodeError>) {
        match TickerPriceChangeStatisticMini::from_json(v) {
            Ok(x) => {
                return Ok(TickerPriceChangeStatistic::MiniElement(x));
            },
            Err(_) => {},
        }
        match Vec::<TickerPriceChangeStatisticMini>::from_json(v) {
            Ok(x) => {
                return Ok(TickerPriceChangeStatistic::MiniList(x));
            },
            Err(_) => {},
        }
        match TickerPriceChangeStatisticFull::from_json(v) {
            Ok(x) => {
                return Ok(TickerPriceChangeStatistic::FullElement(x));
            },
            Err(_) => {},
        }
        match Vec::<TickerPriceChangeStatisticFull>::from_json(v) {
            Ok(x) => Ok(TickerPriceChangeStatistic::FullList(x)),
            Err(e) => Err(e),
        }
    }
}

/// An order book level decodes positionally: index zero is the price and
/// index one the quantity, and the accessors return exactly those values.
pub proof fn lemma_order_level_positions(items: Seq<JVal>, level: OrderLevel)
    requires
        OrderLevel::spec_from_json(JVal::Arr(items)) == Some(level),
    ensures
        items.len() == 2,
        Decimal::spec_from_json(items[0]) == Some(level.0),
        Decimal::spec_from_json(items[1]) == Some(level.1),
{
}

/// An order book level of any arity other than two is rejected, never
/// truncated or padded.
pub proof fn lemma_order_level_wrong_arity(items: Seq<JVal>)
    requires
        items.len() != 2,
    ensures
        OrderLevel::spec_from_json(JVal::Arr(items)) is None,
{
}

/// A kline bar decodes positionally: each of the twelve documented
/// positions lands in the field its accessor returns.
pub proof fn lemma_kline_positions(items: Seq<JVal>, k: SpecKline)
    requires
        Kline::spec_from_json(JVal::Arr(items)) == Some(k),
    ensures
        items.len() == 12,
        u64::spec_from_json(items[0]) == Some(k.0),
        Decimal::spec_from_json(items[1]) == Some(k.1),
        Decimal::spec_from_json(items[2]) == Some(k.2),
        Decimal::spec_from_json(items[3]) == Some(k.3),
        Decimal::spec_from_json(items[4]) == Some(k.4),
        Decimal::spec_from_json(items[5]) == Some(k.5),
        u64::spec_from_json(items[6]) == Some(k.6),
        Decimal::spec_from_json(items[7]) == Some(k.7),
        u64::spec_from_json(items[8]) == Some(k.8),
        Decimal::spec_from_json(items[9]) == Some(k.9),
        Decimal::spec_from_json(items[10]) == Some(k.10),
        String::spec_from_json(items[11]) == Some(k.11),
{
}

/// A kline bar of any arity other than twelve is rejected, never truncated
/// or padded.
pub proof fn lemma_kline_wrong_arity(items: Seq<JVal>)
    requires
        items.len() != 12,
    ensures
        Kline::spec_from_json(JVal::Arr(items)) is None,
{
}

/// An exchange information object without the optional routing entry still
/// decodes, and the entry is explicitly absent — never a default value.
pub proof fn lemma_exchange_info_absent_sors(
    fs: Seq<(Seq<char>, JVal)>,
    info: SpecExchangeInfo,
)
    requires
        jlookup(fs, "sors"@) is None,
        ExchangeInfo::spec_from_json(JVal::Obj(fs)) == Some(info),
    ensures
        info.sors is None,
{
}

} // verus!
