//! The endpoint client: immutable configuration, request URL construction,
//! and response assembly.
//!
//! The client itself performs no I/O: for each endpoint it builds the full
//! request URL — base URL, fixed path, and a `?`-prefixed query string when
//! the endpoint takes parameters — and it turns a response body and the
//! retry-after header value into a typed [`Response`] envelope.  The
//! transport that carries the request is the caller's.

use vstd::prelude::*;

use crate::codec::FromJson;
use crate::codec::deserialize_str;
use crate::codec::spec_deserialize;
use crate::crypto::SensitiveString;
use crate::error::Error;
use crate::params::GetAggregateTradesParams;
use crate::params::GetCurrentAveragePriceParams;
use crate::params::GetExchangeInfoParams;
use crate::params::GetKlineListParams;
use crate::params::GetOlderTradesParams;
use crate::params::GetOrderBookParams;
use crate::params::GetRecentTradesParams;
use crate::params::GetTickerPriceChangeStatisticsParams;
use crate::payloads::Headers;
use crate::payloads::Response;
use crate::query::qs_join;
use crate::text::parse_u64;
use crate::text::spec_parse_u64;
use crate::url::Path;

verus! {

/// The caller-supplied configuration: the target host, and credentials for
/// authenticated calls, which no implemented endpoint uses yet.
#[derive(Clone)]
pub struct ClientConfig {
    pub base_url: String,
    pub api_key: Option<SensitiveString>,
    pub api_secret: Option<SensitiveString>,
}

/// The endpoint client; holds only immutable configuration.
pub struct Client {
    base_url: String,
    cfg: ClientConfig,
}

impl Client {
    /// The configured base URL.
    pub closed spec fn spec_base_url(&self) -> Seq<char> {
        self.base_url@
    }

    /// The configuration the client was built over.
    pub closed spec fn spec_config(&self) -> ClientConfig {
        self.cfg
    }

    /// A client over the given configuration.
    pub fn new(cfg: ClientConfig) -> (r: Self)
        ensures
            r.spec_base_url() == cfg.base_url@,
            r.spec_config() == cfg,
    {
        Client { base_url: cfg.base_url.clone(), cfg }
    }

    /// The configured base URL.
    pub fn base_url(&self) -> (r: &str)
        ensures
            r@ == self.spec_base_url(),
    {
        self.base_url.as_str()
    }

    /// The configured credentials, for future authenticated calls.
    pub fn config(&self) -> (r: &ClientConfig)
        ensures
            *r == self.spec_config(),
    {
        &self.cfg
    }
}

impl Client {
    /// The request URL of the connectivity test endpoint.
    pub fn test_connectivity_url(&self) -> (r: String)
        ensures
            r@ == self.spec_base_url() + Path::Ping.spec_str(),
    {
        let mut u = self.base_url.clone();
        u.append(Path::Ping.as_str());
        u
    }

    /// The request URL of the server time endpoint.
    pub fn get_server_time_url(&self) -> (r: String)
        ensures
            r@ == self.spec_base_url() + Path::Time.spec_str(),
    {
        let mut u = self.base_url.clone();
        u.append(Path::Time.as_str());
        u
    }

    /// The request URL of the exchange information endpoint: base URL, fixed path, and the
    /// `?`-prefixed query string of the parameters.
    pub fn get_exchange_info_url(&self, params: &GetExchangeInfoParams) -> (r: String)
        ensures
            r@ == self.spec_base_url() + Path::ExchangeInfo.spec_str() + seq!['?'] + qs_join(
                params.spec_query_pairs(),
            ),
    {
        let mut u = self.base_url.clone();
        u.append(Path::ExchangeInfo.as_str());
        u.append("?");
        let q = params.query_string();
        u.append(q.as_str());
        proof {
            reveal_strlit("?");
            assert("?"@.len() == 1);
            assert("?"@ =~= seq!['?']);
            assert(u@ =~= self.spec_base_url() + Path::ExchangeInfo.spec_str() + seq!['?'] + qs_join(
                params.spec_query_pairs(),
            ));
        }
        u
    }

    /// The request URL of the order book endpoint: base URL, fixed path, and the
    /// `?`-prefixed query string of the parameters.
    pub fn get_order_book_url(&self, params: &GetOrderBookParams) -> (r: String)
        ensures
            r@ == self.spec_base_url() + Path::Depth.spec_str() + seq!['?'] + qs_join(
                params.spec_query_pairs(),
            ),
    {
        let mut u = self.base_url.clone();
        u.append(Path::Depth.as_str());
        u.append("?");
        let q = params.query_string();
        u.append(q.as_str());
        proof {
            reveal_strlit("?");
            assert("?"@.len() == 1);
            assert("?"@ =~= seq!['?']);
            assert(u@ =~= self.spec_base_url() + Path::Depth.spec_str() + seq!['?'] + qs_join(
                params.spec_query_pairs(),
            ));
        }
        u
    }

    /// The request URL of the recent trades endpoint: base URL, fixed path, and the
    /// `?`-prefixed query string of the parameters.
    pub fn recent_trades_list_url(&self, params: &GetRecentTradesParams) -> (r: String)
        ensures
            r@ == self.spec_base_url() + Path::Trades.spec_str() + seq!['?'] + qs_join(
                params.spec_query_pairs(),
            ),
    {
        let mut u = self.base_url.clone();
        u.append(Path::Trades.as_str());
        u.append("?");
        let q = params.query_string();
        u.append(q.as_str());
        proof {
            reveal_strlit("?");
            assert("?"@.len() == 1);
            assert("?"@ =~= seq!['?']);
            assert(u@ =~= self.spec_base_url() + Path::Trades.spec_str() + seq!['?'] + qs_join(
                params.spec_query_pairs(),
            ));
        }
        u
    }

    /// The request URL of the historical trades endpoint: base URL, fixed path, and the
    /// `?`-prefixed query string of the parameters.
    pub fn old_trade_lookup_url(&self, params: &GetOlderTradesParams) -> (r: String)
        ensures
            r@ == self.spec_base_url() + Path::HistoricalTrades.spec_str() + seq!['?'] + qs_join(
                params.spec_query_pairs(),
            ),
    {
        let mut u = self.base_url.clone();
        u.append(Path::HistoricalTrades.as_str());
        u.append("?");
        let q = params.query_string();
        u.append(q.as_str());
        proof {
            reveal_strlit("?");
            assert("?"@.len() == 1);
            assert("?"@ =~= seq!['?']);
            assert(u@ =~= self.spec_base_url() + Path::HistoricalTrades.spec_str() + seq!['?'] + qs_join(
                params.spec_query_pairs(),
            ));
        }
        u
    }

    /// The request URL of the aggregate trades endpoint: base URL, fixed path, and the
    /// `?`-prefixed query string of the parameters.
    pub fn aggregate_trades_list_url(&self, params: &GetAggregateTradesParams) -> (r: String)
        ensures
            r@ == self.spec_base_url() + Path::AggTrades.spec_str() + seq!['?'] + qs_join(
                params.spec_query_pairs(),
            ),
    {
        let mut u = self.base_url.clone();
        u.append(Path::AggTrades.as_str());
        u.append("?");
        let q = params.query_string();
        u.append(q.as_str());
        proof {
            reveal_strlit("?");
            assert("?"@.len() == 1);
            assert("?"@ =~= seq!['?']);
            assert(u@ =~= self.spec_base_url() + Path::AggTrades.spec_str() + seq!['?'] + qs_join(
                params.spec_query_pairs(),
            ));
        }
        u
    }

    /// The request URL of the kline endpoint: base URL, fixed path, and the
    /// `?`-prefixed query string of the parameters.
    pub fn get_kline_list_url(&self, params: &GetKlineListParams) -> (r: String)
        ensures
            r@ == self.spec_base_url() + Path::KLines.spec_str() + seq!['?'] + qs_join(
                params.spec_query_pairs(),
            ),
    {
        let mut u = self.base_url.clone();
        u.append(Path::KLines.as_str());
        u.append("?");
        let q = params.query_string();
        u.append(q.as_str());
        proof {
            reveal_strlit("?");
            assert("?"@.len() == 1);
            assert("?"@ =~= seq!['?']);
            assert(u@ =~= self.spec_base_url() + Path::KLines.spec_str() + seq!['?'] + qs_join(
                params.spec_query_pairs(),
            ));
        }
        u
    }

    /// The request URL of the presentation-optimized kline endpoint: base URL, fixed path, and the
    /// `?`-prefixed query string of the parameters.
    pub fn get_ui_kline_list_url(&self, params: &GetKlineListParams) -> (r: String)
        ensures
            r@ == self.spec_base_url() + Path::UIKLines.spec_str() + seq!['?'] + qs_join(
                params.spec_query_pairs(),
            ),
    {
        let mut u = self.base_url.clone();
        u.append(Path::UIKLines.as_str());
        u.append("?");
        let q = params.query_string();
        u.append(q.as_str());
        proof {
            reveal_strlit("?");
            assert("?"@.len() == 1);
            assert("?"@ =~= seq!['?']);
            assert(u@ =~= self.spec_base_url() + Path::UIKLines.spec_str() + seq!['?'] + qs_join(
                params.spec_query_pairs(),
            ));
        }
        u
    }

    /// The request URL of the current average price endpoint: base URL, fixed path, and the
    /// `?`-prefixed query string of the parameters.
    pub fn get_current_average_price_url(&self, params: &GetCurrentAveragePriceParams) -> (r: String)
        ensures
            r@ == self.spec_base_url() + Path::AvgPrice.spec_str() + seq!['?'] + qs_join(
                params.spec_query_pairs(),
            ),
    {
        let mut u = self.base_url.clone();
        u.append(Path::AvgPrice.as_str());
        u.append("?");
        let q = params.query_string();
        u.append(q.as_str());
        proof {
            reveal_strlit("?");
            assert("?"@.len() == 1);
            assert("?"@ =~= seq!['?']);
            assert(u@ =~= self.spec_base_url() + Path::AvgPrice.spec_str() + seq!['?'] + qs_join(
                params.spec_query_pairs(),
            ));
        }
        u
    }

    /// The request URL of the 24-hour ticker statistics endpoint: base URL, fixed path, and the
    /// `?`-prefixed query string of the parameters.
    pub fn ticker_price_change_statistics_url(&self, params: &GetTickerPriceChangeStatisticsParams) -> (r: String)
        ensures
            r@ == self.spec_base_url() + Path::Ticker24hr.spec_str() + seq!['?'] + qs_join(
                params.spec_query_pairs(),
            ),
    {
        let mut u = self.base_url.clone();
        u.append(Path::Ticker24hr.as_str());
        u.append("?");
        let q = params.query_string();
        u.append(q.as_str());
        proof {
            reveal_strlit("?");
            assert("?"@.len() == 1);
            assert("?"@ =~= seq!['?']);
            assert(u@ =~= self.spec_base_url() + Path::Ticker24hr.spec_str() + seq!['?'] + qs_join(
                params.spec_query_pairs(),
            ));
        }
        u
    }

}

/// Reads the retry-after hint out of the response header value: present
/// exactly when the header was present with an unsigned decimal value;
/// absent otherwise, never fabricated.
pub fn headers_from_retry_after(header: Option<&str>) -> (r: Headers)
    ensures
        r.retry_after == (match header {
            Some(s) => spec_parse_u64(s@),
            None => None,
        }),
{
    match header {
        Some(s) => Headers { retry_after: parse_u64(s) },
        None => Headers { retry_after: None },
    }
}

/// Assembles a response envelope: the body is decoded into the payload
/// type, and the retry-after header value becomes the hint.  The result is
/// an error exactly when the body does not decode.
pub fn build_response<T: FromJson>(body: &str, retry_after: Option<&str>) -> (r: Result<
    Response<T>,
    Error,
>)
    ensures
        r matches Ok(resp) ==> spec_deserialize::<T>(body@) == Some(resp.result.deep_view())
            && resp.headers.retry_after == (match retry_after {
            Some(s) => spec_parse_u64(s@),
            None => None,
        }),
        r is Err <==> spec_deserialize::<T>(body@) is None,
        r matches Err(e) ==> e is Decode,
{
    let headers = headers_from_retry_after(retry_after);
    match deserialize_str::<T>(body) {
        Ok(result) => Ok(Response { result, headers }),
        Err(e) => Err(Error::Decode(e)),
    }
}

} // verus!
