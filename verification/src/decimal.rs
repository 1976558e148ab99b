//! Fixed-point decimal numbers, as the exchange quotes prices and
//! quantities.
//!
//! A [`Decimal`] keeps the digits exactly as sent: `"4.00000000"` becomes
//! mantissa `400000000` at scale `8`, denoting mantissa / 10^scale.  The
//! mantissa is capped at 96 bits and the scale at 28 places, so every value
//! a well-formed quote can carry is representable without rounding.

use vstd::prelude::*;

use crate::text::all_digits;
use crate::text::digits_val;
use crate::text::is_digit;
use crate::text::lemma_digits_val_prefix;

verus! {

/// The largest mantissa magnitude: 2^96 - 1.
pub const MAX_MANTISSA: i128 = 79228162514264337593543950335;

/// The largest number of decimal places.
pub const MAX_SCALE: u32 = 28;

/// A decimal number: `mantissa / 10^scale`.
#[derive(Debug, Clone, Copy, PartialEq, Eq, Structural)]
pub struct Decimal {
    pub mantissa: i128,
    pub scale: u32,
}

impl DeepView for Decimal {
    type V = Decimal;

    open spec fn deep_view(&self) -> Decimal {
        *self
    }
}

impl Decimal {
    /// The value is within the 96-bit mantissa and 28-place scale caps.
    pub open spec fn wf(self) -> bool {
        &&& -MAX_MANTISSA <= self.mantissa <= MAX_MANTISSA
        &&& self.scale <= MAX_SCALE
    }

    /// A decimal from its parts.
    pub fn new(mantissa: i128, scale: u32) -> (r: Self)
        requires
            -MAX_MANTISSA <= mantissa <= MAX_MANTISSA,
            scale <= MAX_SCALE,
        ensures
            r == (Decimal { mantissa, scale }),
            r.wf(),
    {
        Decimal { mantissa, scale }
    }

    /// A whole number.
    pub fn from_u64(n: u64) -> (r: Self)
        ensures
            r == (Decimal { mantissa: n as i128, scale: 0u32 }),
            r.wf(),
    {
        Decimal { mantissa: n as i128, scale: 0 }
    }

    /// A whole signed number.
    pub fn from_i64(n: i64) -> (r: Self)
        ensures
            r == (Decimal { mantissa: n as i128, scale: 0u32 }),
            r.wf(),
    {
        Decimal { mantissa: n as i128, scale: 0 }
    }
}

/// The position of the first `'.'` at or after `i`.
pub open spec fn find_dot_at(s: Seq<char>, i: int) -> Option<int>
    decreases s.len() - i,
{
    if i < 0 || i >= s.len() {
        None
    } else if s[i] == '.' {
        Some(i)
    } else {
        find_dot_at(s, i + 1)
    }
}

/// The position of the first `'.'`.
pub open spec fn find_dot(s: Seq<char>) -> Option<int> {
    find_dot_at(s, 0)
}

/// How a string is read as a decimal: an optional sign, one or more integer
/// digits, and optionally a `'.'` followed by one or more fractional digits;
/// the scale is the number of fractional digits and the mantissa the value
/// of all digits, within the caps.  Anything else is rejected.
pub open spec fn spec_parse_decimal(s: Seq<char>) -> Option<Decimal> {
    let neg = s.len() > 0 && s[0] == '-';
    let body = if s.len() > 0 && (s[0] == '-' || s[0] == '+') {
        s.drop_first()
    } else {
        s
    };
    let ipart = match find_dot(body) {
        None => body,
        Some(d) => body.subrange(0, d),
    };
    let fpart = match find_dot(body) {
        None => Seq::<char>::empty(),
        Some(d) => body.subrange(d + 1, body.len() as int),
    };
    if ipart.len() > 0 && all_digits(ipart) && (find_dot(body) is Some ==> fpart.len() > 0)
        && all_digits(fpart) && fpart.len() <= MAX_SCALE && digits_val(ipart + fpart)
        <= MAX_MANTISSA {
        let m = digits_val(ipart + fpart) as int;
        Some(Decimal { mantissa: (if neg { -m } else { m }) as i128, scale: fpart.len() as u32 })
    } else {
        None
    }
}

/// A prefix of a concatenation is a prefix of its first part.
proof fn lemma_subrange_of_concat_prefix(a: Seq<char>, b: Seq<char>, k: int)
    requires
        0 <= k <= a.len(),
    ensures
        (a + b).subrange(0, k) =~= a.subrange(0, k),
{
}

/// Reads a decimal number from a string.
#[verifier::rlimit(50)]
pub fn parse_decimal(s: &str) -> (r: Option<Decimal>)
    ensures
        r == spec_parse_decimal(s@),
        r matches Some(d) ==> d.wf(),
{
    let n = s.unicode_len();
    let (neg, start): (bool, usize) = if n > 0 && s.get_char(0) == '-' {
        (true, 1)
    } else if n > 0 && s.get_char(0) == '+' {
        (false, 1)
    } else {
        (false, 0)
    };
    let ghost body = if s@.len() > 0 && (s@[0] == '-' || s@[0] == '+') {
        s@.drop_first()
    } else {
        s@
    };
    proof {
        assert(body =~= s@.subrange(start as int, n as int));
    }
    // Find the first dot of the body, if any.
    let mut dot: Option<usize> = None;
    let mut i: usize = start;
    while dot.is_none() && i < n
        invariant
            start <= i <= n,
            n == s@.len(),
            body == (if s@.len() > 0 && (s@[0] == '-' || s@[0] == '+') {
                s@.drop_first()
            } else {
                s@
            }),
            body =~= s@.subrange(start as int, n as int),
            match dot {
                None => find_dot(body) == find_dot_at(body, i - start),
                Some(d) => start <= d < n && find_dot(body) == Some(d - start),
            },
        decreases n - i, (if dot is None { 1int } else { 0int }),
    {
        proof {
            assert(body[i - start] == s@[i as int]);
        }
        if s.get_char(i) == '.' {
            dot = Some(i);
        } else {
            i += 1;
        }
    }
    let ghost ipart = match find_dot(body) {
        None => body,
        Some(d) => body.subrange(0, d),
    };
    let ghost fpart = match find_dot(body) {
        None => Seq::<char>::empty(),
        Some(d) => body.subrange(d + 1, body.len() as int),
    };
    let ghost combined = ipart + fpart;
    // The bounds of the integer part within `s`.
    let int_end: usize = match dot {
        Some(d) => d,
        None => n,
    };
    proof {
        assert(ipart =~= s@.subrange(start as int, int_end as int));
    }
    if int_end == start {
        // No integer digits.
        return None;
    }
    let mut acc: u128 = 0;
    let mut i: usize = start;
    while i < int_end
        invariant
            start <= i <= int_end <= n,
            n == s@.len(),
            body == (if s@.len() > 0 && (s@[0] == '-' || s@[0] == '+') {
                s@.drop_first()
            } else {
                s@
            }),
            ipart == (match find_dot(body) {
                None => body,
                Some(d) => body.subrange(0, d),
            }),
            fpart == (match find_dot(body) {
                None => Seq::<char>::empty(),
                Some(d) => body.subrange(d + 1, body.len() as int),
            }),
            combined == ipart + fpart,
            ipart =~= s@.subrange(start as int, int_end as int),
            all_digits(ipart.subrange(0, i - start)),
            acc == digits_val(ipart.subrange(0, i - start)),
            acc <= MAX_MANTISSA as u128,
        decreases int_end - i,
    {
        let c = s.get_char(i);
        let u = c as u32;
        proof {
            assert(ipart[i - start] == s@[i as int]);
        }
        if u < 48 || u > 57 {
            proof {
                assert(!is_digit(ipart[i - start]));
            }
            return None;
        }
        proof {
            assert(ipart.subrange(0, i - start + 1).drop_last() =~= ipart.subrange(0, i - start));
            assert(ipart.subrange(0, i - start + 1).last() == ipart[i - start]);
        }
        let d: u128 = (u - 48) as u128;
        let acc10 = acc * 10 + d;
        if acc10 > MAX_MANTISSA as u128 {
            proof {
                lemma_subrange_of_concat_prefix(ipart, fpart, i - start + 1);
                lemma_digits_val_prefix(combined, i - start + 1);
            }
            return None;
        }
        acc = acc10;
        i += 1;
    }
    proof {
        assert(ipart.subrange(0, int_end - start) =~= ipart);
        lemma_subrange_of_concat_prefix(ipart, fpart, ipart.len() as int);
        assert(combined.subrange(0, ipart.len() as int) =~= ipart);
    }
    // The fractional digits, if a dot was seen.
    let mut scale: u32 = 0;
    if let Some(d) = dot {
        proof {
            assert(fpart =~= s@.subrange(d + 1, n as int));
        }
        if d + 1 == n {
            // A dot with no fractional digits.
            return None;
        }
        let mut i: usize = d + 1;
        while i < n
            invariant
                d + 1 <= i <= n,
                d == int_end < n,
                start <= int_end,
                n == s@.len(),
                body == (if s@.len() > 0 && (s@[0] == '-' || s@[0] == '+') {
                    s@.drop_first()
                } else {
                    s@
                }),
                ipart == (match find_dot(body) {
                    None => body,
                    Some(dd) => body.subrange(0, dd),
                }),
                fpart == (match find_dot(body) {
                    None => Seq::<char>::empty(),
                    Some(dd) => body.subrange(dd + 1, body.len() as int),
                }),
                combined == ipart + fpart,
                fpart =~= s@.subrange(d + 1, n as int),
                ipart.len() == int_end - start,
                all_digits(ipart),
                all_digits(fpart.subrange(0, i - d - 1)),
                acc == digits_val(combined.subrange(0, ipart.len() + i - d - 1)),
                acc <= MAX_MANTISSA as u128,
                scale == i - d - 1,
                scale <= MAX_SCALE,
            decreases n - i,
        {
            let c = s.get_char(i);
            let u = c as u32;
            proof {
                assert(fpart[i - d - 1] == s@[i as int]);
                assert(combined[ipart.len() + i - d - 1] == fpart[i - d - 1]);
            }
            if u < 48 || u > 57 {
                proof {
                    assert(!is_digit(fpart[i - d - 1]));
                }
                return None;
            }
            if scale == MAX_SCALE {
                proof {
                    assert(fpart.len() > MAX_SCALE);
                }
                return None;
            }
            proof {
                let k = ipart.len() + i - d - 1;
                assert(combined.subrange(0, k + 1).drop_last() =~= combined.subrange(0, k));
                assert(combined.subrange(0, k + 1).last() == combined[k]);
            }
            let dv: u128 = (u - 48) as u128;
            let acc10 = acc * 10 + dv;
            if acc10 > MAX_MANTISSA as u128 {
                proof {
                    lemma_digits_val_prefix(combined, ipart.len() + i - d - 1 + 1);
                }
                return None;
            }
            acc = acc10;
            scale = scale + 1;
            i += 1;
        }
        proof {
            assert(fpart.subrange(0, n - d - 1) =~= fpart);
            assert(combined.subrange(0, ipart.len() + (n - d - 1)) =~= combined);
        }
    } else {
        proof {
            assert(combined =~= ipart);
        }
    }
    let m: i128 = acc as i128;
    let mantissa: i128 = if neg {
        -m
    } else {
        m
    };
    Some(Decimal { mantissa, scale })
}

} // verus!
