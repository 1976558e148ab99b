//! Query-string encoding.
//!
//! A request's parameters become `key=value` pairs joined by `'&'`.  Keys are
//! the documented camelCase names and are written as they are; values are
//! form-urlencoded: unreserved characters stand for themselves, a space
//! becomes `'+'`, and every other character is written as the
//! percent-encoded bytes of its UTF-8 encoding.

use vstd::prelude::*;

use crate::text::ascii_to_string;
use crate::text::bytes_ascii;
use crate::text::chars_of;

verus! {

/// A character that form-urlencoding leaves unchanged: a letter, a digit,
/// or one of `*`, `-`, `.`, `_`.
pub open spec fn is_unreserved(c: char) -> bool {
    let u = c as u32;
    (48 <= u && u <= 57) || (65 <= u && u <= 90) || (97 <= u && u <= 122) || u == 42 || u == 45
        || u == 46 || u == 95
}

/// The uppercase hexadecimal digit for a value below sixteen.
pub open spec fn hex_char(n: u8) -> char {
    if n < 10 {
        ((48 + n) as u8) as char
    } else {
        ((55 + n) as u8) as char
    }
}

/// The UTF-8 bytes of a character.
pub open spec fn utf8_of(c: char) -> Seq<u8> {
    let u = c as u32;
    if u < 0x80 {
        seq![u as u8]
    } else if u < 0x800 {
        seq![(0xC0 + u / 64) as u8, (0x80 + u % 64) as u8]
    } else if u < 0x10000 {
        seq![(0xE0 + u / 4096) as u8, (0x80 + (u / 64) % 64) as u8, (0x80 + u % 64) as u8]
    } else {
        seq![
            (0xF0 + u / 262144) as u8,
            (0x80 + (u / 4096) % 64) as u8,
            (0x80 + (u / 64) % 64) as u8,
            (0x80 + u % 64) as u8,
        ]
    }
}

/// The three characters of a percent-encoded byte.
pub open spec fn enc_byte(b: u8) -> Seq<char> {
    seq!['%', hex_char((b / 16) as u8), hex_char((b % 16) as u8)]
}

/// The percent-encoding of a byte sequence.
pub open spec fn enc_bytes(bs: Seq<u8>) -> Seq<char>
    decreases bs.len(),
{
    if bs.len() == 0 {
        Seq::empty()
    } else {
        enc_bytes(bs.drop_last()) + enc_byte(bs.last())
    }
}

/// The form-urlencoding of one character.
pub open spec fn enc_char(c: char) -> Seq<char> {
    if is_unreserved(c) {
        seq![c]
    } else if c as u32 == 32 {
        seq!['+']
    } else {
        enc_bytes(utf8_of(c))
    }
}

/// The form-urlencoding of a string.
pub open spec fn enc(s: Seq<char>) -> Seq<char>
    decreases s.len(),
{
    if s.len() == 0 {
        Seq::empty()
    } else {
        enc(s.drop_last()) + enc_char(s.last())
    }
}

/// One rendered pair: the key, `'='`, and the encoded value.
pub open spec fn pair_chars(p: (Seq<char>, Seq<char>)) -> Seq<char> {
    p.0 + seq!['='] + enc(p.1)
}

/// The rendered pairs joined by `'&'`.
pub open spec fn qs_join(pairs: Seq<(Seq<char>, Seq<char>)>) -> Seq<char>
    decreases pairs.len(),
{
    if pairs.len() == 0 {
        Seq::empty()
    } else if pairs.len() == 1 {
        pair_chars(pairs[0])
    } else {
        qs_join(pairs.drop_last()) + seq!['&'] + pair_chars(pairs.last())
    }
}

/// How often a key occurs among the pairs.
pub open spec fn count_key(pairs: Seq<(Seq<char>, Seq<char>)>, key: Seq<char>) -> int
    decreases pairs.len(),
{
    if pairs.len() == 0 {
        0
    } else {
        count_key(pairs.drop_last(), key) + (if pairs.last().0 == key {
            1int
        } else {
            0int
        })
    }
}

/// Key counts add up over concatenation.
pub proof fn lemma_count_key_concat(
    a: Seq<(Seq<char>, Seq<char>)>,
    b: Seq<(Seq<char>, Seq<char>)>,
    key: Seq<char>,
)
    ensures
        count_key(a + b, key) == count_key(a, key) + count_key(b, key),
    decreases b.len(),
{
    if b.len() == 0 {
        assert(a + b =~= a);
    } else {
        assert((a + b).drop_last() =~= a + b.drop_last());
        assert((a + b).last() == b.last());
        lemma_count_key_concat(a, b.drop_last(), key);
    }
}

/// Appends the three characters of a percent-encoded byte.
fn push_pct(out: &mut Vec<u8>, b: u8)
    requires
        bytes_ascii(old(out)@),
    ensures
        bytes_ascii(final(out)@),
        chars_of(final(out)@) =~= chars_of(old(out)@) + enc_byte(b),
{
    out.push(37);
    let hi = b / 16;
    let lo = b % 16;
    out.push(if hi < 10 { 48 + hi } else { 55 + hi });
    out.push(if lo < 10 { 48 + lo } else { 55 + lo });
}

/// Appends the percent-encoded UTF-8 bytes of one character.
fn push_char_utf8(out: &mut Vec<u8>, c: char)
    requires
        bytes_ascii(old(out)@),
    ensures
        bytes_ascii(final(out)@),
        chars_of(final(out)@) =~= chars_of(old(out)@) + enc_bytes(utf8_of(c)),
{
    let u = c as u32;
    if u < 0x80 {
        let ghost bs = utf8_of(c);
        push_pct(out, u as u8);
        proof {
            reveal_with_fuel(enc_bytes, 6);
            assert(bs.drop_last() =~= Seq::<u8>::empty());
            assert(enc_bytes(bs) =~= enc_byte(u as u8));
        }
    } else if u < 0x800 {
        let ghost bs = utf8_of(c);
        assert(u / 64 < 32 && u % 64 < 64) by (nonlinear_arith)
            requires
                u < 0x800,
        ;
        let b0: u8 = (0xC0 + u / 64) as u8;
        let b1: u8 = (0x80 + u % 64) as u8;
        push_pct(out, b0);
        push_pct(out, b1);
        proof {
            reveal_with_fuel(enc_bytes, 6);
            assert(bs =~= seq![b0, b1]);
            assert(bs.drop_last() =~= seq![b0]);
            assert(seq![b0].drop_last() =~= Seq::<u8>::empty());
            assert(enc_bytes(bs) =~= enc_byte(b0) + enc_byte(b1));
        }
    } else if u < 0x10000 {
        let ghost bs = utf8_of(c);
        assert(u / 4096 < 16 && (u / 64) % 64 < 64 && u % 64 < 64) by (nonlinear_arith)
            requires
                u < 0x10000,
        ;
        let b0: u8 = (0xE0 + u / 4096) as u8;
        let b1: u8 = (0x80 + (u / 64) % 64) as u8;
        let b2: u8 = (0x80 + u % 64) as u8;
        push_pct(out, b0);
        push_pct(out, b1);
        push_pct(out, b2);
        proof {
            reveal_with_fuel(enc_bytes, 6);
            assert(bs =~= seq![b0, b1, b2]);
            assert(bs.drop_last() =~= seq![b0, b1]);
            assert(seq![b0, b1].drop_last() =~= seq![b0]);
            assert(seq![b0].drop_last() =~= Seq::<u8>::empty());
            assert(enc_bytes(bs) =~= enc_byte(b0) + enc_byte(b1) + enc_byte(b2));
        }
    } else {
        let ghost bs = utf8_of(c);
        proof {
            vstd::utf8::char_is_scalar(c);
        }
        assert(u / 262144 < 8 && (u / 4096) % 64 < 64 && (u / 64) % 64 < 64 && u % 64 < 64)
            by (nonlinear_arith)
            requires
                u < 0x110000,
        ;
        let b0: u8 = (0xF0 + u / 262144) as u8;
        let b1: u8 = (0x80 + (u / 4096) % 64) as u8;
        let b2: u8 = (0x80 + (u / 64) % 64) as u8;
        let b3: u8 = (0x80 + u % 64) as u8;
        push_pct(out, b0);
        push_pct(out, b1);
        push_pct(out, b2);
        push_pct(out, b3);
        proof {
            reveal_with_fuel(enc_bytes, 6);
            assert(bs =~= seq![b0, b1, b2, b3]);
            assert(bs.drop_last() =~= seq![b0, b1, b2]);
            assert(seq![b0, b1, b2].drop_last() =~= seq![b0, b1]);
            assert(seq![b0, b1].drop_last() =~= seq![b0]);
            assert(seq![b0].drop_last() =~= Seq::<u8>::empty());
            assert(enc_bytes(bs) =~= enc_byte(b0) + enc_byte(b1) + enc_byte(b2) + enc_byte(b3));
        }
    }
}

/// Appends the form-urlencoding of a string.
pub fn push_encoded(out: &mut Vec<u8>, s: &str)
    requires
        bytes_ascii(old(out)@),
    ensures
        bytes_ascii(final(out)@),
        chars_of(final(out)@) =~= chars_of(old(out)@) + enc(s@),
{
    let n = s.unicode_len();
    let mut i: usize = 0;
    while i < n
        invariant
            0 <= i <= n,
            n == s@.len(),
            bytes_ascii(out@),
            chars_of(out@) =~= chars_of(old(out)@) + enc(s@.subrange(0, i as int)),
        decreases n - i,
    {
        let c = s.get_char(i);
        let ghost pre = out@;
        proof {
            assert(s@.subrange(0, i + 1).drop_last() =~= s@.subrange(0, i as int));
            assert(s@.subrange(0, i + 1).last() == s@[i as int]);
        }
        let u = c as u32;
        if (48 <= u && u <= 57) || (65 <= u && u <= 90) || (97 <= u && u <= 122) || u == 42 || u
            == 45 || u == 46 || u == 95 {
            out.push(u as u8);
            proof {
                assert(enc_char(c) =~= seq![c]);
                assert(chars_of(out@) =~= chars_of(pre) + enc_char(c));
            }
        } else if u == 32 {
            out.push(43);
            proof {
                assert(enc_char(c) =~= seq!['+']);
                assert(chars_of(out@) =~= chars_of(pre) + enc_char(c));
            }
        } else {
            push_char_utf8(out, c);
            proof {
                assert(enc_char(c) =~= enc_bytes(utf8_of(c)));
            }
        }
        i += 1;
    }
    proof {
        assert(s@.subrange(0, n as int) =~= s@);
    }
}

/// Renders `key=value` pairs, joined by `'&'`, with the values
/// form-urlencoded.
pub fn render_query(pairs: &Vec<(String, String)>) -> (r: String)
    ensures
        r@ == qs_join(pairs.deep_view()),
{
    let mut out = String::new();
    let n = pairs.len();
    let mut i: usize = 0;
    while i < n
        invariant
            0 <= i <= n,
            n == pairs@.len(),
            out@ == qs_join(pairs.deep_view().subrange(0, i as int)),
        decreases n - i,
    {
        let ghost dv = pairs.deep_view();
        proof {
            reveal_strlit("&");
            reveal_strlit("=");
            assert("&"@.len() == 1);
            assert("="@.len() == 1);
            assert("&"@ =~= seq!['&']);
            assert("="@ =~= seq!['=']);
            assert(dv.subrange(0, i + 1).drop_last() =~= dv.subrange(0, i as int));
            assert(dv.subrange(0, i + 1).last() == dv[i as int]);
            assert(dv[i as int] == (pairs@[i as int].0@, pairs@[i as int].1@));
        }
        if i > 0 {
            out.append("&");
        }
        out.append(pairs[i].0.as_str());
        out.append("=");
        let mut vb: Vec<u8> = Vec::new();
        push_encoded(&mut vb, pairs[i].1.as_str());
        let encoded = ascii_to_string(vb);
        proof {
            assert(encoded@ =~= enc(pairs@[i as int].1@));
        }
        out.append(encoded.as_str());
        proof {
            assert(pair_chars(dv[i as int]) =~= pairs@[i as int].0@ + seq!['='] + enc(
                pairs@[i as int].1@,
            ));
            if i == 0 {
                assert(qs_join(dv.subrange(0, 1)) =~= pair_chars(dv[0]));
            } else {
                assert(qs_join(dv.subrange(0, i + 1)) =~= qs_join(dv.subrange(0, i as int))
                    + seq!['&'] + pair_chars(dv[i as int]));
            }
            assert(out@ =~= qs_join(dv.subrange(0, i + 1)));
        }
        i += 1;
    }
    proof {
        assert(pairs.deep_view().subrange(0, n as int) =~= pairs.deep_view());
    }
    out
}

} // verus!
