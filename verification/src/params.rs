//! Request parameters, one structure per endpoint, and their query strings.
//!
//! Each structure states, as [`spec_query_pairs`], exactly which `key=value`
//! pairs its query string holds: required fields always, optional fields
//! exactly when set, in the documented order and under the documented
//! camelCase keys.  The rendered string is the pairs joined by `'&'` with
//! form-urlencoded values.  The `lemma_*_keys` lemmas state the key counts
//! in closed form: no key ever appears twice, and omitted optional fields
//! leave no trace.
//!
//! [`spec_query_pairs`]: GetKlineListParams::spec_query_pairs

use vstd::prelude::*;

use crate::enums::KlineInterval;
use crate::enums::SymbolStatus;
use crate::query::count_key;
use crate::query::lemma_count_key_concat;
use crate::query::qs_join;
use crate::query::render_query;
use crate::text::bool_string;
use crate::text::dec_digits;
use crate::text::dec_signed;
use crate::text::i64_to_string;
use crate::text::u64_to_string;

verus! {

use vstd::string::StringExecFns;

/// A required pair.
pub open spec fn one_pair(key: Seq<char>, value: Seq<char>) -> Seq<(Seq<char>, Seq<char>)> {
    seq![(key, value)]
}

/// An optional pair: present exactly when the value is.
pub open spec fn opt_pair(key: Seq<char>, value: Option<Seq<char>>) -> Seq<
    (Seq<char>, Seq<char>),
> {
    match value {
        Some(v) => seq![(key, v)],
        None => Seq::empty(),
    }
}

/// The digits of an optional number.
pub open spec fn opt_u64_chars(v: Option<u64>) -> Option<Seq<char>> {
    match v {
        Some(n) => Some(dec_digits(n as nat)),
        None => None,
    }
}

/// The rendering of an optional signed number.
pub open spec fn opt_i64_chars(v: Option<i64>) -> Option<Seq<char>> {
    match v {
        Some(n) => Some(dec_signed(n as int)),
        None => None,
    }
}

/// The rendering of an optional boolean.
pub open spec fn opt_bool_chars(v: Option<bool>) -> Option<Seq<char>> {
    match v {
        Some(b) => Some(if b {
            "true"@
        } else {
            "false"@
        }),
        None => None,
    }
}

/// The token of an optional symbol status.
pub open spec fn opt_status_chars(v: Option<SymbolStatus>) -> Option<Seq<char>> {
    match v {
        Some(st) => Some(st.spec_token()),
        None => None,
    }
}

/// A quoted string inside a symbol list.
pub open spec fn quoted(s: Seq<char>) -> Seq<char> {
    "\""@ + s + "\""@
}

/// The comma-separated quoted entries of a symbol list.
pub open spec fn sym_list_inner(vs: Seq<Seq<char>>) -> Seq<char>
    decreases vs.len(),
{
    if vs.len() == 0 {
        Seq::empty()
    } else if vs.len() == 1 {
        quoted(vs[0])
    } else {
        sym_list_inner(vs.drop_last()) + ","@ + quoted(vs.last())
    }
}

/// A symbol list value, written in the documented bracketed form, e.g.
/// `["BTCUSDT","BNBBTC"]`.
pub open spec fn sym_list_chars(vs: Seq<Seq<char>>) -> Seq<char> {
    "["@ + sym_list_inner(vs) + "]"@
}

/// The rendering of an optional symbol list.
pub open spec fn opt_list_chars(v: Option<Vec<String>>) -> Option<Seq<char>> {
    match v {
        Some(vs) => Some(sym_list_chars(vs.deep_view())),
        None => None,
    }
}

/// Writes a symbol list value.
fn sym_list_value(vs: &Vec<String>) -> (r: String)
    ensures
        r@ == sym_list_chars(vs.deep_view()),
{
    let mut out = String::from_str("[");
    let n = vs.len();
    let mut i: usize = 0;
    while i < n
        invariant
            0 <= i <= n,
            n == vs@.len(),
            out@ == "["@ + sym_list_inner(vs.deep_view().subrange(0, i as int)),
        decreases n - i,
    {
        let ghost dv = vs.deep_view();
        proof {
            assert(dv.subrange(0, i + 1).drop_last() =~= dv.subrange(0, i as int));
            assert(dv.subrange(0, i + 1).last() == dv[i as int]);
            assert(dv[i as int] == vs@[i as int]@);
        }
        if i > 0 {
            out.append(",");
        }
        out.append("\"");
        out.append(vs[i].as_str());
        out.append("\"");
        proof {
            if i == 0 {
                assert(sym_list_inner(dv.subrange(0, 1)) =~= quoted(dv[0]));
            } else {
                assert(sym_list_inner(dv.subrange(0, i + 1)) =~= sym_list_inner(
                    dv.subrange(0, i as int),
                ) + ","@ + quoted(dv[i as int]));
            }
            assert(out@ =~= "["@ + sym_list_inner(dv.subrange(0, i + 1)));
        }
        i += 1;
    }
    proof {
        assert(vs.deep_view().subrange(0, n as int) =~= vs.deep_view());
    }
    out.append("]");
    proof {
        assert(out@ =~= sym_list_chars(vs.deep_view()));
    }
    out
}

/// Appends a required pair.
fn push_pair(pairs: &mut Vec<(String, String)>, key: &str, value: String)
    ensures
        final(pairs).deep_view() =~= old(pairs).deep_view() + one_pair(key@, value@),
{
    let ghost pre = pairs.deep_view();
    let ghost vv = value@;
    pairs.push((String::from_str(key), value));
    proof {
        assert(pairs.deep_view() =~= pre.push((key@, vv)));
        assert(pre.push((key@, vv)) =~= pre + one_pair(key@, vv));
    }
}

/// Appends an optional pair; an absent value appends nothing.
fn push_opt_pair(pairs: &mut Vec<(String, String)>, key: &str, value: Option<String>)
    ensures
        final(pairs).deep_view() =~= old(pairs).deep_view() + opt_pair(key@, value.deep_view()),
{
    match value {
        Some(v) => {
            push_pair(pairs, key, v);
        },
        None => {
            proof {
                assert(pairs.deep_view() =~= pairs.deep_view() + opt_pair(
                    key@,
                    None::<Seq<char>>,
                ));
            }
        },
    }
}

/// The key count of a required pair.
pub proof fn lemma_count_key_one(x: (Seq<char>, Seq<char>), k: Seq<char>)
    ensures
        count_key(seq![x], k) == (if x.0 == k {
            1int
        } else {
            0int
        }),
{
    assert(seq![x].drop_last() =~= Seq::<(Seq<char>, Seq<char>)>::empty());
    assert(count_key(Seq::<(Seq<char>, Seq<char>)>::empty(), k) == 0);
    assert(seq![x].last() == x);
}

/// The key count of an optional pair.
pub proof fn lemma_count_key_opt(key: Seq<char>, v: Option<Seq<char>>, k: Seq<char>)
    ensures
        count_key(opt_pair(key, v), k) == (if key == k && v is Some {
            1int
        } else {
            0int
        }),
{
    match v {
        Some(s) => {
            lemma_count_key_one((key, s), k);
        },
        None => {
        },
    }
}


/// Parameters for the exchange information endpoint.  `symbol`,
/// `symbols` and `symbol_status` are mutually exclusive on the exchange
/// side; honouring that is the caller's responsibility.
#[derive(Debug, Clone, PartialEq)]
pub struct GetExchangeInfoParams {
    pub symbol: Option<String>,
    pub symbols: Option<Vec<String>>,
    pub permissions: Option<Vec<String>>,
    pub show_permission_sets: Option<bool>,
    pub symbol_status: Option<SymbolStatus>,
}

impl GetExchangeInfoParams {
    /// The query pairs of the request, in the documented order.
    pub open spec fn spec_query_pairs(&self) -> Seq<(Seq<char>, Seq<char>)> {
        opt_pair("symbol"@, self.symbol.deep_view()) + opt_pair("symbols"@, opt_list_chars(self.symbols)) + opt_pair("permissions"@, opt_list_chars(self.permissions)) + opt_pair("showPermissionSets"@, opt_bool_chars(self.show_permission_sets)) + opt_pair("symbolStatus"@, opt_status_chars(self.symbol_status))
    }

    /// Builds the query pairs.
    fn query_pairs(&self) -> (r: Vec<(String, String)>)
        ensures
            r.deep_view() =~= self.spec_query_pairs(),
    {
        let mut pairs: Vec<(String, String)> = Vec::new();
        let symbol_value = match &self.symbol {
            Some(s) => Some(s.clone()),
            None => None,
        };
        push_opt_pair(&mut pairs, "symbol", symbol_value);
        let symbols_value = match &self.symbols {
            Some(vs) => Some(sym_list_value(vs)),
            None => None,
        };
        push_opt_pair(&mut pairs, "symbols", symbols_value);
        let permissions_value = match &self.permissions {
            Some(vs) => Some(sym_list_value(vs)),
            None => None,
        };
        push_opt_pair(&mut pairs, "permissions", permissions_value);
        let show_permission_sets_value = match self.show_permission_sets {
            Some(b) => Some(bool_string(b)),
            None => None,
        };
        push_opt_pair(&mut pairs, "showPermissionSets", show_permission_sets_value);
        let symbol_status_value = match self.symbol_status {
            Some(st) => Some(String::from_str(st.token())),
            None => None,
        };
        push_opt_pair(&mut pairs, "symbolStatus", symbol_status_value);
        proof {
            assert(pairs.deep_view() =~= self.spec_query_pairs());
        }
        pairs
    }

    /// Writes the query string of the request.
    pub fn query_string(&self) -> (r: String)
        ensures
            r@ == qs_join(self.spec_query_pairs()),
    {
        let pairs = self.query_pairs();
        render_query(&pairs)
    }
}

/// In a GetExchangeInfoParams query, each documented key appears exactly
/// once when its field is set and never otherwise, and no other key ever
/// appears.
pub proof fn lemma_get_exchange_info_params_keys(p: GetExchangeInfoParams, k: Seq<char>)
    ensures
        count_key(p.spec_query_pairs(), k) == spec_get_exchange_info_params_key_count(p, k),
{
    let a0 = opt_pair("symbol"@, p.symbol.deep_view());
    let a1 = opt_pair("symbols"@, opt_list_chars(p.symbols));
    let a2 = opt_pair("permissions"@, opt_list_chars(p.permissions));
    let a3 = opt_pair("showPermissionSets"@, opt_bool_chars(p.show_permission_sets));
    let a4 = opt_pair("symbolStatus"@, opt_status_chars(p.symbol_status));
    lemma_count_key_concat(a0, a1, k);
    lemma_count_key_concat((a0 + a1), a2, k);
    lemma_count_key_concat(((a0 + a1) + a2), a3, k);
    lemma_count_key_concat((((a0 + a1) + a2) + a3), a4, k);
    lemma_count_key_opt("symbol"@, p.symbol.deep_view(), k);
    lemma_count_key_opt("symbols"@, opt_list_chars(p.symbols), k);
    lemma_count_key_opt("permissions"@, opt_list_chars(p.permissions), k);
    lemma_count_key_opt("showPermissionSets"@, opt_bool_chars(p.show_permission_sets), k);
    lemma_count_key_opt("symbolStatus"@, opt_status_chars(p.symbol_status), k);
}

/// The key count that a GetExchangeInfoParams query owes: one per set field.
pub open spec fn spec_get_exchange_info_params_key_count(self_: GetExchangeInfoParams, k: Seq<char>) -> int {
    (if k == "symbol"@ && self_.symbol is Some {
            1int
        } else {
            0int
        })
        + (if k == "symbols"@ && self_.symbols is Some {
            1int
        } else {
            0int
        })
        + (if k == "permissions"@ && self_.permissions is Some {
            1int
        } else {
            0int
        })
        + (if k == "showPermissionSets"@ && self_.show_permission_sets is Some {
            1int
        } else {
            0int
        })
        + (if k == "symbolStatus"@ && self_.symbol_status is Some {
            1int
        } else {
            0int
        })
}

/// Parameters for the order book endpoint.  The limit defaults to 100
/// and is capped at 5000 by the exchange.
#[derive(Debug, Clone, PartialEq)]
pub struct GetOrderBookParams {
    pub symbol: String,
    pub limit: Option<u64>,
}

impl GetOrderBookParams {
    /// The query pairs of the request, in the documented order.
    pub open spec fn spec_query_pairs(&self) -> Seq<(Seq<char>, Seq<char>)> {
        one_pair("symbol"@, self.symbol@) + opt_pair("limit"@, opt_u64_chars(self.limit))
    }

    /// Builds the query pairs.
    fn query_pairs(&self) -> (r: Vec<(String, String)>)
        ensures
            r.deep_view() =~= self.spec_query_pairs(),
    {
        let mut pairs: Vec<(String, String)> = Vec::new();
        push_pair(&mut pairs, "symbol", self.symbol.clone());
        let limit_value = match self.limit {
            Some(n) => Some(u64_to_string(n)),
            None => None,
        };
        push_opt_pair(&mut pairs, "limit", limit_value);
        proof {
            assert(pairs.deep_view() =~= self.spec_query_pairs());
        }
        pairs
    }

    /// Writes the query string of the request.
    pub fn query_string(&self) -> (r: String)
        ensures
            r@ == qs_join(self.spec_query_pairs()),
    {
        let pairs = self.query_pairs();
        render_query(&pairs)
    }
}

/// In a GetOrderBookParams query, each documented key appears exactly
/// once when its field is set and never otherwise, and no other key ever
/// appears.
pub proof fn lemma_get_order_book_params_keys(p: GetOrderBookParams, k: Seq<char>)
    ensures
        count_key(p.spec_query_pairs(), k) == spec_get_order_book_params_key_count(p, k),
{
    let a0 = one_pair("symbol"@, p.symbol@);
    let a1 = opt_pair("limit"@, opt_u64_chars(p.limit));
    lemma_count_key_concat(a0, a1, k);
    lemma_count_key_one(("symbol"@, p.symbol@), k);
    lemma_count_key_opt("limit"@, opt_u64_chars(p.limit), k);
}

/// The key count that a GetOrderBookParams query owes: one per set field.
pub open spec fn spec_get_order_book_params_key_count(self_: GetOrderBookParams, k: Seq<char>) -> int {
    (if k == "symbol"@ {
            1int
        } else {
            0int
        })
        + (if k == "limit"@ && self_.limit is Some {
            1int
        } else {
            0int
        })
}

/// Parameters for the recent trades endpoint.  The limit defaults to 500
/// and is capped at 1000 by the exchange.
#[derive(Debug, Clone, PartialEq)]
pub struct GetRecentTradesParams {
    pub symbol: String,
    pub limit: Option<u64>,
}

impl GetRecentTradesParams {
    /// The query pairs of the request, in the documented order.
    pub open spec fn spec_query_pairs(&self) -> Seq<(Seq<char>, Seq<char>)> {
        one_pair("symbol"@, self.symbol@) + opt_pair("limit"@, opt_u64_chars(self.limit))
    }

    /// Builds the query pairs.
    fn query_pairs(&self) -> (r: Vec<(String, String)>)
        ensures
            r.deep_view() =~= self.spec_query_pairs(),
    {
        let mut pairs: Vec<(String, String)> = Vec::new();
        push_pair(&mut pairs, "symbol", self.symbol.clone());
        let limit_value = match self.limit {
            Some(n) => Some(u64_to_string(n)),
            None => None,
        };
        push_opt_pair(&mut pairs, "limit", limit_value);
        proof {
            assert(pairs.deep_view() =~= self.spec_query_pairs());
        }
        pairs
    }

    /// Writes the query string of the request.
    pub fn query_string(&self) -> (r: String)
        ensures
            r@ == qs_join(self.spec_query_pairs()),
    {
        let pairs = self.query_pairs();
        render_query(&pairs)
    }
}

/// In a GetRecentTradesParams query, each documented key appears exactly
/// once when its field is set and never otherwise, and no other key ever
/// appears.
pub proof fn lemma_get_recent_trades_params_keys(p: GetRecentTradesParams, k: Seq<char>)
    ensures
        count_key(p.spec_query_pairs(), k) == spec_get_recent_trades_params_key_count(p, k),
{
    let a0 = one_pair("symbol"@, p.symbol@);
    let a1 = opt_pair("limit"@, opt_u64_chars(p.limit));
    lemma_count_key_concat(a0, a1, k);
    lemma_count_key_one(("symbol"@, p.symbol@), k);
    lemma_count_key_opt("limit"@, opt_u64_chars(p.limit), k);
}

/// The key count that a GetRecentTradesParams query owes: one per set field.
pub open spec fn spec_get_recent_trades_params_key_count(self_: GetRecentTradesParams, k: Seq<char>) -> int {
    (if k == "symbol"@ {
            1int
        } else {
            0int
        })
        + (if k == "limit"@ && self_.limit is Some {
            1int
        } else {
            0int
        })
}

/// Parameters for the historical trades endpoint.
#[derive(Debug, Clone, PartialEq)]
pub struct GetOlderTradesParams {
    pub symbol: String,
    pub limit: Option<u64>,
    pub from_id: Option<i64>,
}

impl GetOlderTradesParams {
    /// The query pairs of the request, in the documented order.
    pub open spec fn spec_query_pairs(&self) -> Seq<(Seq<char>, Seq<char>)> {
        one_pair("symbol"@, self.symbol@) + opt_pair("limit"@, opt_u64_chars(self.limit)) + opt_pair("fromId"@, opt_i64_chars(self.from_id))
    }

    /// Builds the query pairs.
    fn query_pairs(&self) -> (r: Vec<(String, String)>)
        ensures
            r.deep_view() =~= self.spec_query_pairs(),
    {
        let mut pairs: Vec<(String, String)> = Vec::new();
        push_pair(&mut pairs, "symbol", self.symbol.clone());
        let limit_value = match self.limit {
            Some(n) => Some(u64_to_string(n)),
            None => None,
        };
        push_opt_pair(&mut pairs, "limit", limit_value);
        let from_id_value = match self.from_id {
            Some(n) => Some(i64_to_string(n)),
            None => None,
        };
        push_opt_pair(&mut pairs, "fromId", from_id_value);
        proof {
            assert(pairs.deep_view() =~= self.spec_query_pairs());
        }
        pairs
    }

    /// Writes the query string of the request.
    pub fn query_string(&self) -> (r: String)
        ensures
            r@ == qs_join(self.spec_query_pairs()),
    {
        let pairs = self.query_pairs();
        render_query(&pairs)
    }
}

/// In a GetOlderTradesParams query, each documented key appears exactly
/// once when its field is set and never otherwise, and no other key ever
/// appears.
pub proof fn lemma_get_older_trades_params_keys(p: GetOlderTradesParams, k: Seq<char>)
    ensures
        count_key(p.spec_query_pairs(), k) == spec_get_older_trades_params_key_count(p, k),
{
    let a0 = one_pair("symbol"@, p.symbol@);
    let a1 = opt_pair("limit"@, opt_u64_chars(p.limit));
    let a2 = opt_pair("fromId"@, opt_i64_chars(p.from_id));
    lemma_count_key_concat(a0, a1, k);
    lemma_count_key_concat((a0 + a1), a2, k);
    lemma_count_key_one(("symbol"@, p.symbol@), k);
    lemma_count_key_opt("limit"@, opt_u64_chars(p.limit), k);
    lemma_count_key_opt("fromId"@, opt_i64_chars(p.from_id), k);
}

/// The key count that a GetOlderTradesParams query owes: one per set field.
pub open spec fn spec_get_older_trades_params_key_count(self_: GetOlderTradesParams, k: Seq<char>) -> int {
    (if k == "symbol"@ {
            1int
        } else {
            0int
        })
        + (if k == "limit"@ && self_.limit is Some {
            1int
        } else {
            0int
        })
        + (if k == "fromId"@ && self_.from_id is Some {
            1int
        } else {
            0int
        })
}

/// Parameters for the aggregate trades endpoint; the id and time bounds
/// are inclusive.
#[derive(Debug, Clone, PartialEq)]
pub struct GetAggregateTradesParams {
    pub symbol: String,
    pub from_id: Option<i64>,
    pub start_time: Option<u64>,
    pub end_time: Option<u64>,
    pub limit: Option<u64>,
}

impl GetAggregateTradesParams {
    /// The query pairs of the request, in the documented order.
    pub open spec fn spec_query_pairs(&self) -> Seq<(Seq<char>, Seq<char>)> {
        one_pair("symbol"@, self.symbol@) + opt_pair("fromId"@, opt_i64_chars(self.from_id)) + opt_pair("startTime"@, opt_u64_chars(self.start_time)) + opt_pair("endTime"@, opt_u64_chars(self.end_time)) + opt_pair("limit"@, opt_u64_chars(self.limit))
    }

    /// Builds the query pairs.
    fn query_pairs(&self) -> (r: Vec<(String, String)>)
        ensures
            r.deep_view() =~= self.spec_query_pairs(),
    {
        let mut pairs: Vec<(String, String)> = Vec::new();
        push_pair(&mut pairs, "symbol", self.symbol.clone());
        let from_id_value = match self.from_id {
            Some(n) => Some(i64_to_string(n)),
            None => None,
        };
        push_opt_pair(&mut pairs, "fromId", from_id_value);
        let start_time_value = match self.start_time {
            Some(n) => Some(u64_to_string(n)),
            None => None,
        };
        push_opt_pair(&mut pairs, "startTime", start_time_value);
        let end_time_value = match self.end_time {
            Some(n) => Some(u64_to_string(n)),
            None => None,
        };
        push_opt_pair(&mut pairs, "endTime", end_time_value);
        let limit_value = match self.limit {
            Some(n) => Some(u64_to_string(n)),
            None => None,
        };
        push_opt_pair(&mut pairs, "limit", limit_value);
        proof {
            assert(pairs.deep_view() =~= self.spec_query_pairs());
        }
        pairs
    }

    /// Writes the query string of the request.
    pub fn query_string(&self) -> (r: String)
        ensures
            r@ == qs_join(self.spec_query_pairs()),
    {
        let pairs = self.query_pairs();
        render_query(&pairs)
    }
}

/// In a GetAggregateTradesParams query, each documented key appears exactly
/// once when its field is set and never otherwise, and no other key ever
/// appears.
pub proof fn lemma_get_aggregate_trades_params_keys(p: GetAggregateTradesParams, k: Seq<char>)
    ensures
        count_key(p.spec_query_pairs(), k) == spec_get_aggregate_trades_params_key_count(p, k),
{
    let a0 = one_pair("symbol"@, p.symbol@);
    let a1 = opt_pair("fromId"@, opt_i64_chars(p.from_id));
    let a2 = opt_pair("startTime"@, opt_u64_chars(p.start_time));
    let a3 = opt_pair("endTime"@, opt_u64_chars(p.end_time));
    let a4 = opt_pair("limit"@, opt_u64_chars(p.limit));
    lemma_count_key_concat(a0, a1, k);
    lemma_count_key_concat((a0 + a1), a2, k);
    lemma_count_key_concat(((a0 + a1) + a2), a3, k);
    lemma_count_key_concat((((a0 + a1) + a2) + a3), a4, k);
    lemma_count_key_one(("symbol"@, p.symbol@), k);
    lemma_count_key_opt("fromId"@, opt_i64_chars(p.from_id), k);
    lemma_count_key_opt("startTime"@, opt_u64_chars(p.start_time), k);
    lemma_count_key_opt("endTime"@, opt_u64_chars(p.end_time), k);
    lemma_count_key_opt("limit"@, opt_u64_chars(p.limit), k);
}

/// The key count that a GetAggregateTradesParams query owes: one per set field.
pub open spec fn spec_get_aggregate_trades_params_key_count(self_: GetAggregateTradesParams, k: Seq<char>) -> int {
    (if k == "symbol"@ {
            1int
        } else {
            0int
        })
        + (if k == "fromId"@ && self_.from_id is Some {
            1int
        } else {
            0int
        })
        + (if k == "startTime"@ && self_.start_time is Some {
            1int
        } else {
            0int
        })
        + (if k == "endTime"@ && self_.end_time is Some {
            1int
        } else {
            0int
        })
        + (if k == "limit"@ && self_.limit is Some {
            1int
        } else {
            0int
        })
}

/// Parameters for the kline endpoints.  The limit defaults to 500 and is
/// capped at 1000 by the exchange.
#[derive(Debug, Clone, PartialEq)]
pub struct GetKlineListParams {
    pub symbol: String,
    pub interval: KlineInterval,
    pub start_time: Option<u64>,
    pub end_time: Option<u64>,
    pub time_zone: Option<String>,
    pub limit: Option<u64>,
}

impl GetKlineListParams {
    /// The query pairs of the request, in the documented order.
    pub open spec fn spec_query_pairs(&self) -> Seq<(Seq<char>, Seq<char>)> {
        one_pair("symbol"@, self.symbol@) + one_pair("interval"@, self.interval.spec_token()) + opt_pair("startTime"@, opt_u64_chars(self.start_time)) + opt_pair("endTime"@, opt_u64_chars(self.end_time)) + opt_pair("timeZone"@, self.time_zone.deep_view()) + opt_pair("limit"@, opt_u64_chars(self.limit))
    }

    /// Builds the query pairs.
    fn query_pairs(&self) -> (r: Vec<(String, String)>)
        ensures
            r.deep_view() =~= self.spec_query_pairs(),
    {
        let mut pairs: Vec<(String, String)> = Vec::new();
        push_pair(&mut pairs, "symbol", self.symbol.clone());
        push_pair(&mut pairs, "interval", String::from_str(self.interval.token()));
        let start_time_value = match self.start_time {
            Some(n) => Some(u64_to_string(n)),
            None => None,
        };
        push_opt_pair(&mut pairs, "startTime", start_time_value);
        let end_time_value = match self.end_time {
            Some(n) => Some(u64_to_string(n)),
            None => None,
        };
        push_opt_pair(&mut pairs, "endTime", end_time_value);
        let time_zone_value = match &self.time_zone {
            Some(s) => Some(s.clone()),
            None => None,
        };
        push_opt_pair(&mut pairs, "timeZone", time_zone_value);
        let limit_value = match self.limit {
            Some(n) => Some(u64_to_string(n)),
            None => None,
        };
        push_opt_pair(&mut pairs, "limit", limit_value);
        proof {
            assert(pairs.deep_view() =~= self.spec_query_pairs());
        }
        pairs
    }

    /// Writes the query string of the request.
    pub fn query_string(&self) -> (r: String)
        ensures
            r@ == qs_join(self.spec_query_pairs()),
    {
        let pairs = self.query_pairs();
        render_query(&pairs)
    }
}

/// In a GetKlineListParams query, each documented key appears exactly
/// once when its field is set and never otherwise, and no other key ever
/// appears.
pub proof fn lemma_get_kline_list_params_keys(p: GetKlineListParams, k: Seq<char>)
    ensures
        count_key(p.spec_query_pairs(), k) == spec_get_kline_list_params_key_count(p, k),
{
    let a0 = one_pair("symbol"@, p.symbol@);
    let a1 = one_pair("interval"@, p.interval.spec_token());
    let a2 = opt_pair("startTime"@, opt_u64_chars(p.start_time));
    let a3 = opt_pair("endTime"@, opt_u64_chars(p.end_time));
    let a4 = opt_pair("timeZone"@, p.time_zone.deep_view());
    let a5 = opt_pair("limit"@, opt_u64_chars(p.limit));
    lemma_count_key_concat(a0, a1, k);
    lemma_count_key_concat((a0 + a1), a2, k);
    lemma_count_key_concat(((a0 + a1) + a2), a3, k);
    lemma_count_key_concat((((a0 + a1) + a2) + a3), a4, k);
    lemma_count_key_concat(((((a0 + a1) + a2) + a3) + a4), a5, k);
    lemma_count_key_one(("symbol"@, p.symbol@), k);
    lemma_count_key_one(("interval"@, p.interval.spec_token()), k);
    lemma_count_key_opt("startTime"@, opt_u64_chars(p.start_time), k);
    lemma_count_key_opt("endTime"@, opt_u64_chars(p.end_time), k);
    lemma_count_key_opt("timeZone"@, p.time_zone.deep_view(), k);
    lemma_count_key_opt("limit"@, opt_u64_chars(p.limit), k);
}

/// The key count that a GetKlineListParams query owes: one per set field.
pub open spec fn spec_get_kline_list_params_key_count(self_: GetKlineListParams, k: Seq<char>) -> int {
    (if k == "symbol"@ {
            1int
        } else {
            0int
        })
        + (if k == "interval"@ {
            1int
        } else {
            0int
        })
        + (if k == "startTime"@ && self_.start_time is Some {
            1int
        } else {
            0int
        })
        + (if k == "endTime"@ && self_.end_time is Some {
            1int
        } else {
            0int
        })
        + (if k == "timeZone"@ && self_.time_zone is Some {
            1int
        } else {
            0int
        })
        + (if k == "limit"@ && self_.limit is Some {
            1int
        } else {
            0int
        })
}

/// Parameters for the current average price endpoint.
#[derive(Debug, Clone, PartialEq)]
pub struct GetCurrentAveragePriceParams {
    pub symbol: String,
}

impl GetCurrentAveragePriceParams {
    /// The query pairs of the request, in the documented order.
    pub open spec fn spec_query_pairs(&self) -> Seq<(Seq<char>, Seq<char>)> {
        one_pair("symbol"@, self.symbol@)
    }

    /// Builds the query pairs.
    fn query_pairs(&self) -> (r: Vec<(String, String)>)
        ensures
            r.deep_view() =~= self.spec_query_pairs(),
    {
        let mut pairs: Vec<(String, String)> = Vec::new();
        push_pair(&mut pairs, "symbol", self.symbol.clone());
        proof {
            assert(pairs.deep_view() =~= self.spec_query_pairs());
        }
        pairs
    }

    /// Writes the query string of the request.
    pub fn query_string(&self) -> (r: String)
        ensures
            r@ == qs_join(self.spec_query_pairs()),
    {
        let pairs = self.query_pairs();
        render_query(&pairs)
    }
}

/// In a GetCurrentAveragePriceParams query, each documented key appears exactly
/// once when its field is set and never otherwise, and no other key ever
/// appears.
pub proof fn lemma_get_current_average_price_params_keys(p: GetCurrentAveragePriceParams, k: Seq<char>)
    ensures
        count_key(p.spec_query_pairs(), k) == spec_get_current_average_price_params_key_count(p, k),
{
    let a0 = one_pair("symbol"@, p.symbol@);
    lemma_count_key_one(("symbol"@, p.symbol@), k);
}

/// The key count that a GetCurrentAveragePriceParams query owes: one per set field.
pub open spec fn spec_get_current_average_price_params_key_count(self_: GetCurrentAveragePriceParams, k: Seq<char>) -> int {
    (if k == "symbol"@ {
            1int
        } else {
            0int
        })
}

/// The symbol selector of the ticker statistics endpoint: one symbol, a
/// list of symbols, or neither, which selects every symbol.  The two
/// fields are mutually exclusive on the exchange side.
#[derive(Debug, Clone, PartialEq)]
pub struct SymbolOrSymbols {
    pub symbol: Option<String>,
    pub symbols: Option<Vec<String>>,
}

impl SymbolOrSymbols {
    /// The query pairs of the request, in the documented order.
    pub open spec fn spec_query_pairs(&self) -> Seq<(Seq<char>, Seq<char>)> {
        opt_pair("symbol"@, self.symbol.deep_view()) + opt_pair("symbols"@, opt_list_chars(self.symbols))
    }

    /// Builds the query pairs.
    fn query_pairs(&self) -> (r: Vec<(String, String)>)
        ensures
            r.deep_view() =~= self.spec_query_pairs(),
    {
        let mut pairs: Vec<(String, String)> = Vec::new();
        let symbol_value = match &self.symbol {
            Some(s) => Some(s.clone()),
            None => None,
        };
        push_opt_pair(&mut pairs, "symbol", symbol_value);
        let symbols_value = match &self.symbols {
            Some(vs) => Some(sym_list_value(vs)),
            None => None,
        };
        push_opt_pair(&mut pairs, "symbols", symbols_value);
        proof {
            assert(pairs.deep_view() =~= self.spec_query_pairs());
        }
        pairs
    }

    /// Writes the query string of the request.
    pub fn query_string(&self) -> (r: String)
        ensures
            r@ == qs_join(self.spec_query_pairs()),
    {
        let pairs = self.query_pairs();
        render_query(&pairs)
    }
}

/// In a SymbolOrSymbols query, each documented key appears exactly
/// once when its field is set and never otherwise, and no other key ever
/// appears.
pub proof fn lemma_symbol_or_symbols_keys(p: SymbolOrSymbols, k: Seq<char>)
    ensures
        count_key(p.spec_query_pairs(), k) == spec_symbol_or_symbols_key_count(p, k),
{
    let a0 = opt_pair("symbol"@, p.symbol.deep_view());
    let a1 = opt_pair("symbols"@, opt_list_chars(p.symbols));
    lemma_count_key_concat(a0, a1, k);
    lemma_count_key_opt("symbol"@, p.symbol.deep_view(), k);
    lemma_count_key_opt("symbols"@, opt_list_chars(p.symbols), k);
}

/// The key count that a SymbolOrSymbols query owes: one per set field.
pub open spec fn spec_symbol_or_symbols_key_count(self_: SymbolOrSymbols, k: Seq<char>) -> int {
    (if k == "symbol"@ && self_.symbol is Some {
            1int
        } else {
            0int
        })
        + (if k == "symbols"@ && self_.symbols is Some {
            1int
        } else {
            0int
        })
}

/// Parameters for the ticker price change statistics endpoint: the same
/// symbol selector under either the mini or the full report shape, with the
/// shape written first as the `type` discriminator.
#[derive(Debug, Clone, PartialEq)]
pub enum GetTickerPriceChangeStatisticsParams {
    Mini(SymbolOrSymbols),
    Full(SymbolOrSymbols),
}

impl GetTickerPriceChangeStatisticsParams {
    /// The query pairs: the shape discriminator, then the symbol selector.
    pub open spec fn spec_query_pairs(&self) -> Seq<(Seq<char>, Seq<char>)> {
        match self {
            GetTickerPriceChangeStatisticsParams::Mini(sos) => one_pair("type"@, "MINI"@)
                + sos.spec_query_pairs(),
            GetTickerPriceChangeStatisticsParams::Full(sos) => one_pair("type"@, "FULL"@)
                + sos.spec_query_pairs(),
        }
    }

    /// Builds the query pairs.
    fn query_pairs(&self) -> (r: Vec<(String, String)>)
        ensures
            r.deep_view() =~= self.spec_query_pairs(),
    {
        let mut pairs: Vec<(String, String)> = Vec::new();
        match self {
            GetTickerPriceChangeStatisticsParams::Mini(sos) => {
                push_pair(&mut pairs, "type", String::from_str("MINI"));
                let mut rest = sos.query_pairs();
                let ghost pre = pairs.deep_view();
                let ghost restv = rest.deep_view();
                pairs.append(&mut rest);
                proof {
                    assert(pairs.deep_view() =~= pre + restv);
                    assert(pairs.deep_view() =~= self.spec_query_pairs());
                }
            },
            GetTickerPriceChangeStatisticsParams::Full(sos) => {
                push_pair(&mut pairs, "type", String::from_str("FULL"));
                let mut rest = sos.query_pairs();
                let ghost pre = pairs.deep_view();
                let ghost restv = rest.deep_view();
                pairs.append(&mut rest);
                proof {
                    assert(pairs.deep_view() =~= pre + restv);
                    assert(pairs.deep_view() =~= self.spec_query_pairs());
                }
            },
        }
        pairs
    }

    /// Writes the query string of the request.
    pub fn query_string(&self) -> (r: String)
        ensures
            r@ == qs_join(self.spec_query_pairs()),
    {
        let pairs = self.query_pairs();
        render_query(&pairs)
    }
}

/// In a ticker statistics query, the discriminator appears exactly once,
/// the selector keys exactly when set, and no other key ever appears.
pub proof fn lemma_get_ticker_price_change_statistics_params_keys(
    p: GetTickerPriceChangeStatisticsParams,
    k: Seq<char>,
)
    ensures
        count_key(p.spec_query_pairs(), k) == (if k == "type"@ {
            1int
        } else {
            0int
        }) + spec_symbol_or_symbols_key_count(
            match p {
                GetTickerPriceChangeStatisticsParams::Mini(sos) => sos,
                GetTickerPriceChangeStatisticsParams::Full(sos) => sos,
            },
            k,
        ),
{
    match p {
        GetTickerPriceChangeStatisticsParams::Mini(sos) => {
            lemma_count_key_concat(one_pair("type"@, "MINI"@), sos.spec_query_pairs(), k);
            lemma_count_key_one(("type"@, "MINI"@), k);
            lemma_symbol_or_symbols_keys(sos, k);
        },
        GetTickerPriceChangeStatisticsParams::Full(sos) => {
            lemma_count_key_concat(one_pair("type"@, "FULL"@), sos.spec_query_pairs(), k);
            lemma_count_key_one(("type"@, "FULL"@), k);
            lemma_symbol_or_symbols_keys(sos, k);
        },
    }
}

} // verus!
