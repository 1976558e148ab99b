//! Text utilities shared by the query-string encoder and the decoders:
//! character views of ASCII bytes, verified string equality, and reading and
//! writing decimal integers.

use vstd::prelude::*;

verus! {

use vstd::string::StringExecFns;
use vstd::string::StringSliceAdditionalSpecFns;

/// The characters denoted by a sequence of ASCII bytes, one per byte.
pub open spec fn chars_of(bs: Seq<u8>) -> Seq<char> {
    Seq::new(bs.len(), |i: int| bs[i] as char)
}

/// Every byte of the sequence is ASCII.
pub open spec fn bytes_ascii(bs: Seq<u8>) -> bool {
    forall|i: int| 0 <= i < bs.len() ==> #[trigger] bs[i] < 128
}

/// Relies on String::from_utf8: ASCII bytes are valid UTF-8 and decode to
/// the characters with the same code points.
#[verifier::external_body]
pub(crate) fn ascii_to_string(bytes: Vec<u8>) -> (r: String)
    requires
        bytes_ascii(bytes@),
    ensures
        r@ == chars_of(bytes@),
{
    match String::from_utf8(bytes) {
        Ok(s) => s,
        Err(_) => String::new(),
    }
}

/// Element-wise comparison of two byte slices.
pub fn bytes_eq(a: &[u8], b: &[u8]) -> (r: bool)
    ensures
        r == (a@ == b@),
{
    if a.len() != b.len() {
        return false;
    }
    let n = a.len();
    let mut i: usize = 0;
    while i < n
        invariant
            n == a@.len() == b@.len(),
            0 <= i <= n,
            forall|j: int| 0 <= j < i ==> a@[j] == b@[j],
        decreases n - i,
    {
        if a[i] != b[i] {
            return false;
        }
        i += 1;
    }
    proof {
        assert(a@ =~= b@);
    }
    true
}

/// String equality decided through the UTF-8 bytes.
pub fn str_eq(a: &str, b: &str) -> (r: bool)
    ensures
        r == (a@ == b@),
{
    let r = bytes_eq(a.as_bytes(), b.as_bytes());
    proof {
        if a.spec_bytes() == b.spec_bytes() {
            vstd::utf8::encode_utf8_decode_utf8(a@);
            vstd::utf8::encode_utf8_decode_utf8(b@);
        }
    }
    r
}

/// A decimal digit.
pub open spec fn is_digit(c: char) -> bool {
    48 <= c as u32 && c as u32 <= 57
}

/// The value of a decimal digit.
pub open spec fn digit_of(c: char) -> nat {
    (c as u32 - 48) as nat
}

/// Every character of the sequence is a decimal digit.
pub open spec fn all_digits(s: Seq<char>) -> bool {
    forall|i: int| 0 <= i < s.len() ==> is_digit(#[trigger] s[i])
}

/// The number denoted by a sequence of decimal digits, most significant
/// first.
pub open spec fn digits_val(s: Seq<char>) -> nat
    decreases s.len(),
{
    if s.len() == 0 {
        0
    } else {
        digits_val(s.drop_last()) * 10 + digit_of(s.last())
    }
}

/// A digit prefix never exceeds the value of the whole digit string.
pub proof fn lemma_digits_val_prefix(s: Seq<char>, i: int)
    requires
        0 <= i <= s.len(),
    ensures
        digits_val(s.subrange(0, i)) <= digits_val(s),
    decreases s.len() - i,
{
    if i < s.len() {
        assert(s.subrange(0, i + 1).drop_last() =~= s.subrange(0, i));
        assert(digits_val(s.subrange(0, i)) <= digits_val(s.subrange(0, i + 1)));
        lemma_digits_val_prefix(s, i + 1);
    } else {
        assert(s.subrange(0, i) =~= s);
    }
}

/// How a string is read as an unsigned decimal integer: an optional leading
/// `'+'`, then one or more digits whose value fits in a `u64`; anything else
/// is rejected.
pub open spec fn spec_parse_u64(s: Seq<char>) -> Option<u64> {
    let ds = if s.len() > 0 && s[0] == '+' {
        s.drop_first()
    } else {
        s
    };
    if ds.len() > 0 && all_digits(ds) && digits_val(ds) <= u64::MAX {
        Some(digits_val(ds) as u64)
    } else {
        None
    }
}

/// Reads an unsigned decimal integer, as used for the retry-after response
/// header.
pub fn parse_u64(s: &str) -> (r: Option<u64>)
    ensures
        r == spec_parse_u64(s@),
{
    let n = s.unicode_len();
    let start: usize = if n > 0 && s.get_char(0) == '+' {
        1
    } else {
        0
    };
    let ghost ds = if s@.len() > 0 && s@[0] == '+' {
        s@.drop_first()
    } else {
        s@
    };
    proof {
        assert(ds =~= s@.subrange(start as int, n as int));
    }
    if start == n {
        return None;
    }
    let mut acc: u64 = 0;
    let mut i: usize = start;
    while i < n
        invariant
            start <= i <= n,
            n == s@.len(),
            0 < n,
            ds == (if s@.len() > 0 && s@[0] == '+' { s@.drop_first() } else { s@ }),
            ds =~= s@.subrange(start as int, n as int),
            all_digits(ds.subrange(0, i - start)),
            acc == digits_val(ds.subrange(0, i - start)),
        decreases n - i,
    {
        let c = s.get_char(i);
        let u = c as u32;
        proof {
            assert(ds[i - start] == s@[i as int]);
        }
        if u < 48 || u > 57 {
            proof {
                assert(c == ds[i - start]);
                assert(c as u32 == u);
                assert(!is_digit(ds[i - start]));
            }
            return None;
        }
        let d: u64 = (u - 48) as u64;
        proof {
            assert(ds.subrange(0, i - start + 1).drop_last() =~= ds.subrange(0, i - start));
            assert(ds.subrange(0, i - start + 1).last() == ds[i - start]);
        }
        let acc10 = match acc.checked_mul(10) {
            Some(x) => x,
            None => {
                proof {
                    lemma_digits_val_prefix(ds, i - start + 1);
                }
                return None;
            },
        };
        acc = match acc10.checked_add(d) {
            Some(x) => x,
            None => {
                proof {
                    lemma_digits_val_prefix(ds, i - start + 1);
                }
                return None;
            },
        };
        i += 1;
    }
    proof {
        assert(ds.subrange(0, n - start) =~= ds);
    }
    Some(acc)
}

/// The digit character for a value below ten.
pub open spec fn digit_char(n: nat) -> char {
    ((48 + n) as u32) as char
}

/// The decimal digits of a number, most significant first, without sign or
/// padding.
pub open spec fn dec_digits(n: nat) -> Seq<char>
    decreases n,
{
    if n < 10 {
        seq![digit_char(n)]
    } else {
        dec_digits(n / 10).push(digit_char(n % 10))
    }
}

/// The decimal rendering of a signed number: a `'-'` for negative values,
/// then the digits of the magnitude.
pub open spec fn dec_signed(n: int) -> Seq<char> {
    if n < 0 {
        seq!['-'] + dec_digits((-n) as nat)
    } else {
        dec_digits(n as nat)
    }
}

/// Appends the decimal digits of `n` as ASCII bytes.
pub fn push_u64_digits(out: &mut Vec<u8>, n: u64)
    requires
        bytes_ascii(old(out)@),
    ensures
        bytes_ascii(final(out)@),
        chars_of(final(out)@) =~= chars_of(old(out)@) + dec_digits(n as nat),
    decreases n,
{
    if n < 10 {
        let b: u8 = 48 + (n as u8);
        out.push(b);
        proof {
            assert(chars_of(out@) =~= chars_of(old(out)@) + dec_digits(n as nat));
        }
    } else {
        push_u64_digits(out, n / 10);
        let ghost mid = out@;
        let b: u8 = 48 + ((n % 10) as u8);
        out.push(b);
        proof {
            assert(chars_of(out@) =~= chars_of(mid) + seq![digit_char((n % 10) as nat)]);
            assert(dec_digits(n as nat) =~= dec_digits((n / 10) as nat) + seq![
                digit_char((n % 10) as nat),
            ]);
            assert(chars_of(out@) =~= chars_of(old(out)@) + dec_digits(n as nat));
        }
    }
}

/// Appends the decimal rendering of a signed number as ASCII bytes.
pub fn push_i64_digits(out: &mut Vec<u8>, n: i64)
    requires
        bytes_ascii(old(out)@),
    ensures
        bytes_ascii(final(out)@),
        chars_of(final(out)@) =~= chars_of(old(out)@) + dec_signed(n as int),
{
    if n >= 0 {
        push_u64_digits(out, n as u64);
    } else {
        out.push(45);
        let ghost mid = out@;
        proof {
            assert(chars_of(mid) =~= chars_of(old(out)@) + seq!['-']);
        }
        let m: i128 = n as i128;
        let mag: u64 = (-m) as u64;
        push_u64_digits(out, mag);
    }
}

/// The decimal digits of `n` as a fresh string.
pub fn u64_to_string(n: u64) -> (r: String)
    ensures
        r@ == dec_digits(n as nat),
{
    let mut out: Vec<u8> = Vec::new();
    push_u64_digits(&mut out, n);
    let r = ascii_to_string(out);
    proof {
        assert(r@ =~= dec_digits(n as nat));
    }
    r
}

/// The decimal rendering of `n` as a fresh string.
pub fn i64_to_string(n: i64) -> (r: String)
    ensures
        r@ == dec_signed(n as int),
{
    let mut out: Vec<u8> = Vec::new();
    push_i64_digits(&mut out, n);
    let r = ascii_to_string(out);
    proof {
        assert(r@ =~= dec_signed(n as int));
    }
    r
}

/// Writes a boolean as its wire token.
pub fn bool_string(b: bool) -> (r: String)
    ensures
        r@ == (if b {
            "true"@
        } else {
            "false"@
        }),
{
    if b {
        String::from_str("true")
    } else {
        String::from_str("false")
    }
}

} // verus!
