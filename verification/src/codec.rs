//! Decoding JSON trees into typed values.
//!
//! [`FromJson`] ties an executable decoder to a total specification: the
//! spec function says exactly which trees are accepted and what model value
//! each accepted tree denotes; the decoder returns `Ok` precisely on the
//! accepted trees.  [`deserialize_str`] strings the external parser and a
//! decoder together, which is how every response body is read.

use vstd::prelude::*;

use crate::decimal::Decimal;
use crate::decimal::parse_decimal;
use crate::decimal::spec_parse_decimal;
use crate::enums::OrderType;
use crate::enums::RateLimitInterval;
use crate::enums::RateLimiter;
use crate::enums::STPMode;
use crate::enums::SymbolStatus;
use crate::error::DecodeError;
use crate::error::DecodeKind;
use crate::json::JVal;
use crate::json::Json;
use crate::json::jlookup;
use crate::json::json_of;
use crate::json::obj_get;
use crate::json::parse_json;

verus! {

use vstd::string::StringExecFns;

/// A value that can be decoded from a JSON tree.
pub trait FromJson: Sized + DeepView {
    /// The model value the decode yields on a given tree, if it accepts it.
    spec fn spec_from_json(v: JVal) -> Option<Self::V>;

    /// Decodes a JSON tree.
    fn from_json(v: &Json) -> (r: Result<Self, DecodeError>)
        ensures
            r matches Ok(x) ==> Self::spec_from_json(v.deep_view()) == Some(x.deep_view()),
            r is Err <==> Self::spec_from_json(v.deep_view()) is None,
    ;
}

impl FromJson for u64 {
    open spec fn spec_from_json(v: JVal) -> Option<u64> {
        match v {
            JVal::UInt(n) => Some(n),
            _ => None,
        }
    }

    fn from_json(v: &Json) -> (r: Result<Self, DecodeError>) {
        match v {
            Json::UInt(n) => Ok(*n),
            _ => Err(DecodeError::at_root(DecodeKind::WrongType)),
        }
    }
}

impl FromJson for i64 {
    open spec fn spec_from_json(v: JVal) -> Option<i64> {
        match v {
            JVal::UInt(n) => if n <= i64::MAX as u64 {
                Some(n as i64)
            } else {
                None
            },
            JVal::Int(n) => Some(n),
            _ => None,
        }
    }

    fn from_json(v: &Json) -> (r: Result<Self, DecodeError>) {
        match v {
            Json::UInt(n) => if *n <= i64::MAX as u64 {
                Ok(*n as i64)
            } else {
                Err(DecodeError::at_root(DecodeKind::BadNumber))
            },
            Json::Int(n) => Ok(*n),
            _ => Err(DecodeError::at_root(DecodeKind::WrongType)),
        }
    }
}

impl FromJson for u8 {
    open spec fn spec_from_json(v: JVal) -> Option<u8> {
        match v {
            JVal::UInt(n) => if n <= u8::MAX as u64 {
                Some(n as u8)
            } else {
                None
            },
            _ => None,
        }
    }

    fn from_json(v: &Json) -> (r: Result<Self, DecodeError>) {
        match v {
            Json::UInt(n) => if *n <= u8::MAX as u64 {
                Ok(*n as u8)
            } else {
                Err(DecodeError::at_root(DecodeKind::BadNumber))
            },
            _ => Err(DecodeError::at_root(DecodeKind::WrongType)),
        }
    }
}

impl FromJson for bool {
    open spec fn spec_from_json(v: JVal) -> Option<bool> {
        match v {
            JVal::Bool(b) => Some(b),
            _ => None,
        }
    }

    fn from_json(v: &Json) -> (r: Result<Self, DecodeError>) {
        match v {
            Json::Bool(b) => Ok(*b),
            _ => Err(DecodeError::at_root(DecodeKind::WrongType)),
        }
    }
}

impl FromJson for String {
    open spec fn spec_from_json(v: JVal) -> Option<Seq<char>> {
        match v {
            JVal::Str(s) => Some(s),
            _ => None,
        }
    }

    fn from_json(v: &Json) -> (r: Result<Self, DecodeError>) {
        match v {
            Json::Str(s) => Ok(s.clone()),
            _ => Err(DecodeError::at_root(DecodeKind::WrongType)),
        }
    }
}

impl FromJson for Decimal {
    /// A decimal arrives as a quoted digit string; a bare integer is also
    /// accepted, as is a non-integer numeric literal that the decimal
    /// grammar accepts.
    open spec fn spec_from_json(v: JVal) -> Option<Decimal> {
        match v {
            JVal::Str(s) => spec_parse_decimal(s),
            JVal::NumLit(s) => spec_parse_decimal(s),
            JVal::UInt(n) => Some(Decimal { mantissa: n as i128, scale: 0u32 }),
            JVal::Int(n) => Some(Decimal { mantissa: n as i128, scale: 0u32 }),
            _ => None,
        }
    }

    fn from_json(v: &Json) -> (r: Result<Self, DecodeError>) {
        match v {
            Json::Str(s) => match parse_decimal(s.as_str()) {
                Some(d) => Ok(d),
                None => Err(DecodeError::at_root(DecodeKind::BadNumber)),
            },
            Json::NumLit(s) => match parse_decimal(s.as_str()) {
                Some(d) => Ok(d),
                None => Err(DecodeError::at_root(DecodeKind::BadNumber)),
            },
            Json::UInt(n) => Ok(Decimal::from_u64(*n)),
            Json::Int(n) => Ok(Decimal::from_i64(*n)),
            _ => Err(DecodeError::at_root(DecodeKind::WrongType)),
        }
    }
}

/// The element-wise decode of an array's items, accepted only when every
/// item is.
pub open spec fn spec_decode_seq<T: FromJson>(items: Seq<JVal>) -> Option<Seq<T::V>>
    decreases items.len(),
{
    if items.len() == 0 {
        Some(Seq::empty())
    } else {
        match (spec_decode_seq::<T>(items.drop_last()), T::spec_from_json(items.last())) {
            (Some(pre), Some(x)) => Some(pre.push(x)),
            _ => None,
        }
    }
}

/// One rejected item rejects the whole array.
proof fn lemma_decode_seq_none<T: FromJson>(items: Seq<JVal>, i: int)
    requires
        0 <= i < items.len(),
        T::spec_from_json(items[i]) is None,
    ensures
        spec_decode_seq::<T>(items) is None,
    decreases items.len(),
{
    if i < items.len() - 1 {
        lemma_decode_seq_none::<T>(items.drop_last(), i);
    }
}

impl<T: FromJson> FromJson for Vec<T> {
    open spec fn spec_from_json(v: JVal) -> Option<Seq<T::V>> {
        match v {
            JVal::Arr(items) => spec_decode_seq::<T>(items),
            _ => None,
        }
    }

    fn from_json(v: &Json) -> (r: Result<Self, DecodeError>) {
        broadcast use crate::json::lemma_json_views_len, crate::json::lemma_json_views_index;

        match v {
            Json::Arr(items) => {
                let ghost ivals = crate::json::json_views(items@);
                proof {
                    assert((*v).deep_view() == JVal::Arr(ivals));
                }
                let mut out: Vec<T> = Vec::new();
                let n = items.len();
                let mut i: usize = 0;
                while i < n
                    invariant
                        0 <= i <= n,
                        n == items@.len(),
                        ivals == crate::json::json_views(items@),
                        ivals.len() == n,
                        (*v).deep_view() == JVal::Arr(ivals),
                        spec_decode_seq::<T>(ivals.subrange(0, i as int)) == Some(out.deep_view()),
                    decreases n - i,
                {
                    proof {
                        assert(ivals.subrange(0, i + 1).drop_last() =~= ivals.subrange(
                            0,
                            i as int,
                        ));
                        assert(ivals.subrange(0, i + 1).last() == ivals[i as int]);
                        crate::json::lemma_json_views_index(items@, i as int);
                        assert(ivals[i as int] == crate::json::json_view(items@[i as int]));
                    }
                    match T::from_json(&items[i]) {
                        Ok(x) => {
                            let ghost pre = out.deep_view();
                            out.push(x);
                            proof {
                                assert(out.deep_view() =~= pre.push(x.deep_view()));
                            }
                        },
                        Err(e) => {
                            proof {
                                lemma_decode_seq_none::<T>(ivals, i as int);
                            }
                            return Err(e.under_index(i));
                        },
                    }
                    i += 1;
                }
                proof {
                    assert(ivals.subrange(0, n as int) =~= ivals);
                }
                Ok(out)
            },
            _ => Err(DecodeError::at_root(DecodeKind::WrongType)),
        }
    }
}

/// The decode of a required object field.
pub open spec fn spec_req_field<T: FromJson>(
    fields: Seq<(Seq<char>, JVal)>,
    key: Seq<char>,
) -> Option<T::V> {
    match jlookup(fields, key) {
        Some(jv) => T::spec_from_json(jv),
        None => None,
    }
}

/// Decodes a required object field; an absent key is a missing-field error
/// under that key.
pub fn req_field<T: FromJson>(fields: &Vec<(String, Json)>, key: &str) -> (r: Result<
    T,
    DecodeError,
>)
    ensures
        r matches Ok(x) ==> spec_req_field::<T>(fields.deep_view(), key@) == Some(x.deep_view()),
        r is Err <==> spec_req_field::<T>(fields.deep_view(), key@) is None,
{
    match obj_get(fields, key) {
        Some(j) => match T::from_json(j) {
            Ok(x) => Ok(x),
            Err(e) => Err(e.under_key(String::from_str(key))),
        },
        None => Err(DecodeError::at_root(DecodeKind::MissingField).under_key(String::from_str(key))),
    }
}

/// The decode of an optional object field: an absent key or a JSON null is
/// an explicit absent state, never a default value.
pub open spec fn spec_opt_field<T: FromJson>(
    fields: Seq<(Seq<char>, JVal)>,
    key: Seq<char>,
) -> Option<Option<T::V>> {
    match jlookup(fields, key) {
        None => Some(None),
        Some(JVal::Null) => Some(None),
        Some(jv) => match T::spec_from_json(jv) {
            Some(x) => Some(Some(x)),
            None => None,
        },
    }
}

/// Decodes an optional object field.
pub fn opt_field<T: FromJson>(fields: &Vec<(String, Json)>, key: &str) -> (r: Result<
    Option<T>,
    DecodeError,
>)
    ensures
        r matches Ok(x) ==> spec_opt_field::<T>(fields.deep_view(), key@) == Some(x.deep_view()),
        r is Err <==> spec_opt_field::<T>(fields.deep_view(), key@) is None,
{
    match obj_get(fields, key) {
        None => Ok(None),
        Some(j) => match j {
            Json::Null => Ok(None),
            _ => match T::from_json(j) {
                Ok(x) => Ok(Some(x)),
                Err(e) => Err(e.under_key(String::from_str(key))),
            },
        },
    }
}

/// What decoding a whole body yields: the parsed tree's decode, if the text
/// parses at all.
pub open spec fn spec_deserialize<T: FromJson>(s: Seq<char>) -> Option<T::V> {
    match json_of(s) {
        Some(v) => T::spec_from_json(v),
        None => None,
    }
}

/// Decodes a response body: the external parser reads the text, and the
/// typed decoder reads the tree.
pub fn deserialize_str<T: FromJson>(json: &str) -> (r: Result<T, DecodeError>)
    ensures
        r matches Ok(x) ==> spec_deserialize::<T>(json@) == Some(x.deep_view()),
        r is Err <==> spec_deserialize::<T>(json@) is None,
{
    let tree = match parse_json(json) {
        Ok(t) => t,
        Err(e) => {
            return Err(e);
        },
    };
    match T::from_json(&tree) {
        Ok(x) => Ok(x),
        Err(e) => Err(e),
    }
}

impl DeepView for SymbolStatus {
    type V = SymbolStatus;

    open spec fn deep_view(&self) -> SymbolStatus {
        *self
    }
}

impl FromJson for SymbolStatus {
    open spec fn spec_from_json(v: JVal) -> Option<SymbolStatus> {
        match v {
            JVal::Str(s) => SymbolStatus::spec_from_token(s),
            _ => None,
        }
    }

    fn from_json(v: &Json) -> (r: Result<Self, DecodeError>) {
        match v {
            Json::Str(s) => match SymbolStatus::from_token(s.as_str()) {
                Some(x) => Ok(x),
                None => Err(DecodeError::at_root(DecodeKind::UnknownToken)),
            },
            _ => Err(DecodeError::at_root(DecodeKind::WrongType)),
        }
    }
}

impl DeepView for OrderType {
    type V = OrderType;

    open spec fn deep_view(&self) -> OrderType {
        *self
    }
}

impl FromJson for OrderType {
    open spec fn spec_from_json(v: JVal) -> Option<OrderType> {
        match v {
            JVal::Str(s) => OrderType::spec_from_token(s),
            _ => None,
        }
    }

    fn from_json(v: &Json) -> (r: Result<Self, DecodeError>) {
        match v {
            Json::Str(s) => match OrderType::from_token(s.as_str()) {
                Some(x) => Ok(x),
                None => Err(DecodeError::at_root(DecodeKind::UnknownToken)),
            },
            _ => Err(DecodeError::at_root(DecodeKind::WrongType)),
        }
    }
}

impl DeepView for STPMode {
    type V = STPMode;

    open spec fn deep_view(&self) -> STPMode {
        *self
    }
}

impl FromJson for STPMode {
    open spec fn spec_from_json(v: JVal) -> Option<STPMode> {
        match v {
            JVal::Str(s) => STPMode::spec_from_token(s),
            _ => None,
        }
    }

    fn from_json(v: &Json) -> (r: Result<Self, DecodeError>) {
        match v {
            Json::Str(s) => match STPMode::from_token(s.as_str()) {
                Some(x) => Ok(x),
                None => Err(DecodeError::at_root(DecodeKind::UnknownToken)),
            },
            _ => Err(DecodeError::at_root(DecodeKind::WrongType)),
        }
    }
}

impl DeepView for RateLimiter {
    type V = RateLimiter;

    open spec fn deep_view(&self) -> RateLimiter {
        *self
    }
}

impl FromJson for RateLimiter {
    open spec fn spec_from_json(v: JVal) -> Option<RateLimiter> {
        match v {
            JVal::Str(s) => RateLimiter::spec_from_token(s),
            _ => None,
        }
    }

    fn from_json(v: &Json) -> (r: Result<Self, DecodeError>) {
        match v {
            Json::Str(s) => match RateLimiter::from_token(s.as_str()) {
                Some(x) => Ok(x),
                None => Err(DecodeError::at_root(DecodeKind::UnknownToken)),
            },
            _ => Err(DecodeError::at_root(DecodeKind::WrongType)),
        }
    }
}

impl DeepView for RateLimitInterval {
    type V = RateLimitInterval;

    open spec fn deep_view(&self) -> RateLimitInterval {
        *self
    }
}

impl FromJson for RateLimitInterval {
    open spec fn spec_from_json(v: JVal) -> Option<RateLimitInterval> {
        match v {
            JVal::Str(s) => RateLimitInterval::spec_from_token(s),
            _ => None,
        }
    }

    fn from_json(v: &Json) -> (r: Result<Self, DecodeError>) {
        match v {
            Json::Str(s) => match RateLimitInterval::from_token(s.as_str()) {
                Some(x) => Ok(x),
                None => Err(DecodeError::at_root(DecodeKind::UnknownToken)),
            },
            _ => Err(DecodeError::at_root(DecodeKind::WrongType)),
        }
    }
}

} // verus!
