//! Verified query-string serialization: decimal rendering, percent-encoding
//! of values, and joining `key=value` pairs with `&`.
//!
//! Optional fields that are unset are omitted entirely; a query with no set
//! fields serializes to the empty string, and the dispatcher then appends no
//! `?` at all.

use vstd::prelude::*;

verus! {

use vstd::string::StrSliceExecFns;
use vstd::string::StringExecFns;
use vstd::string::StringSliceAdditionalSpecFns;

/// The character for one decimal digit value.
pub open spec fn spec_digit(d: int) -> char {
    if d == 0 {
        '0'
    } else if d == 1 {
        '1'
    } else if d == 2 {
        '2'
    } else if d == 3 {
        '3'
    } else if d == 4 {
        '4'
    } else if d == 5 {
        '5'
    } else if d == 6 {
        '6'
    } else if d == 7 {
        '7'
    } else if d == 8 {
        '8'
    } else {
        '9'
    }
}

/// The decimal rendering of a natural number, most significant digit first.
pub open spec fn spec_decimal_nat(n: nat) -> Seq<char>
    decreases n,
{
    if n < 10 {
        seq![spec_digit(n as int)]
    } else {
        spec_decimal_nat(n / 10) + seq![spec_digit((n % 10) as int)]
    }
}

/// The decimal rendering of an integer: a minus sign for negatives, then the
/// digits of its magnitude.
pub open spec fn spec_decimal(n: int) -> Seq<char> {
    if n < 0 {
        seq!['-'] + spec_decimal_nat((-n) as nat)
    } else {
        spec_decimal_nat(n as nat)
    }
}

/// The digit bytes of `ds`, most significant last, read back as characters
/// most significant first.
pub open spec fn rev_chars(ds: Seq<u8>) -> Seq<char> {
    Seq::new(ds.len(), |t: int| ds[ds.len() - 1 - t] as char)
}

/// Renders an integer in decimal, exactly as [`spec_decimal`] says: a minus
/// sign for negatives, then the digits of the magnitude.
pub fn i32_to_string(n: i32) -> (r: String)
    ensures
        r@ == spec_decimal(n as int),
{
    let negative = n < 0;
    let mut m: u32 = if n < 0 {
        (-(n as i64)) as u32
    } else {
        n as u32
    };
    let ghost orig: nat = m as nat;
    proof {
        assert(orig == if n < 0 {
            -(n as int)
        } else {
            n as int
        });
    }
    let mut digits: Vec<u8> = Vec::new();
    let d0: u8 = (m % 10) as u8;
    digits.push(48 + d0);
    proof {
        assert((48 + d0) as char == spec_digit(d0 as int));
        assert(rev_chars(digits@) =~= seq![(48 + d0) as char]);
        if m / 10 > 0 {
            assert(spec_decimal_nat(orig) == spec_decimal_nat(orig / 10) + seq![
                spec_digit((orig % 10) as int),
            ]);
            assert(spec_decimal_nat(orig) =~= spec_decimal_nat((m / 10) as nat) + rev_chars(
                digits@,
            ));
        } else {
            assert(spec_decimal_nat(orig) =~= rev_chars(digits@));
        }
    }
    m = m / 10;
    while m > 0
        invariant
            digits@.len() > 0,
            forall|t: int| 0 <= t < digits@.len() ==> 48 <= #[trigger] digits@[t] <= 57,
            spec_decimal_nat(orig) == (if m > 0 {
                spec_decimal_nat(m as nat) + rev_chars(digits@)
            } else {
                rev_chars(digits@)
            }),
        decreases m,
    {
        let ghost ds1 = digits@;
        let d: u8 = (m % 10) as u8;
        digits.push(48 + d);
        proof {
            assert((48 + d) as char == spec_digit(d as int));
            assert(rev_chars(digits@) =~= seq![(48 + d) as char] + rev_chars(ds1));
            if m / 10 > 0 {
                assert(spec_decimal_nat(m as nat) == spec_decimal_nat((m / 10) as nat) + seq![
                    spec_digit((m % 10) as int),
                ]);
                assert(spec_decimal_nat((m / 10) as nat) + rev_chars(digits@)
                    =~= spec_decimal_nat(m as nat) + rev_chars(ds1));
            } else {
                assert(spec_decimal_nat(m as nat) =~= seq![spec_digit((m % 10) as int)]);
                assert(rev_chars(digits@) =~= spec_decimal_nat(m as nat) + rev_chars(ds1));
            }
        }
        m = m / 10;
    }
    let mut out: Vec<u8> = Vec::new();
    if negative {
        out.push(45);
    }
    let ghost off: int = if negative {
        1int
    } else {
        0int
    };
    let dn = digits.len();
    let mut k: usize = 0;
    while k < dn
        invariant
            k <= dn,
            dn == digits@.len(),
            off == if negative {
                1int
            } else {
                0int
            },
            out@.len() == off + k,
            negative ==> out@[0] == 45,
            forall|t: int| 0 <= t < out@.len() ==> #[trigger] out@[t] < 128,
            forall|t: int| 0 <= t < digits@.len() ==> 48 <= #[trigger] digits@[t] <= 57,
            forall|t: int| 0 <= t < k ==> #[trigger] out@[off + t] == digits@[dn - 1 - t],
        decreases dn - k,
    {
        out.push(digits[dn - 1 - k]);
        k += 1;
    }
    proof {
        let target = if n < 0 {
            seq!['-'] + rev_chars(digits@)
        } else {
            rev_chars(digits@)
        };
        assert forall|t: int| 0 <= t < out@.len() implies out@[t] as char == target[t] by {
            if n < 0 {
                if t > 0 {
                    assert(out@[off + (t - 1)] == digits@[dn - 1 - (t - 1)]);
                }
            } else {
                assert(out@[off + t] == digits@[dn - 1 - t]);
            }
        }
        assert(Seq::new(out@.len(), |t: int| out@[t] as char) =~= target);
        assert(spec_decimal(n as int) == Seq::new(out@.len(), |t: int| out@[t] as char));
    }
    string_from_ascii(out)
}

/// Relies on String::from_utf8: ASCII bytes are valid UTF-8, so the result
/// holds exactly the given bytes, one character per byte.
#[verifier::external_body]
pub fn string_from_ascii(bytes: Vec<u8>) -> (r: String)
    requires
        forall|k: int| 0 <= k < bytes@.len() ==> bytes@[k] < 128,
    ensures
        r@ == Seq::new(bytes@.len(), |k: int| bytes@[k] as char),
{
    String::from_utf8(bytes).unwrap_or_default()
}

/// Bytes that pass through percent-encoding unchanged: ASCII letters, digits,
/// and `-`, `.`, `_`, `~`.
pub open spec fn spec_unreserved(b: u8) -> bool {
    ||| 65 <= b <= 90
    ||| 97 <= b <= 122
    ||| 48 <= b <= 57
    ||| b == 45
    ||| b == 46
    ||| b == 95
    ||| b == 126
}

/// The character for one hexadecimal digit value, upper case.
pub open spec fn spec_hex_digit(d: int) -> char {
    if d < 10 {
        spec_digit(d)
    } else if d == 10 {
        'A'
    } else if d == 11 {
        'B'
    } else if d == 12 {
        'C'
    } else if d == 13 {
        'D'
    } else if d == 14 {
        'E'
    } else {
        'F'
    }
}

/// The percent-encoding of one byte.
pub open spec fn spec_pct_one(b: u8) -> Seq<char> {
    if spec_unreserved(b) {
        seq![b as char]
    } else {
        seq!['%', spec_hex_digit(b as int / 16), spec_hex_digit(b as int % 16)]
    }
}

/// The percent-encoding of a byte sequence.
pub open spec fn spec_pct_bytes(bs: Seq<u8>) -> Seq<char>
    decreases bs.len(),
{
    if bs.len() == 0 {
        Seq::empty()
    } else {
        spec_pct_bytes(bs.drop_last()) + spec_pct_one(bs.last())
    }
}

/// One hexadecimal digit byte, upper case.
fn hex_digit(d: u8) -> (c: u8)
    requires
        d < 16,
    ensures
        c as char == spec_hex_digit(d as int),
        c < 128,
{
    if d < 10 {
        48 + d
    } else {
        55 + d
    }
}

/// Percent-encodes the UTF-8 bytes of a string, exactly as
/// [`spec_pct_bytes`] says.
pub fn percent_encode(s: &str) -> (r: String)
    ensures
        r@ == spec_pct_bytes(s.spec_bytes()),
{
    let bs = s.as_bytes();
    let n = bs.len();
    let mut out: Vec<u8> = Vec::new();
    let mut i: usize = 0;
    while i < n
        invariant
            i <= n,
            n == bs@.len(),
            forall|k: int| 0 <= k < out@.len() ==> out@[k] < 128,
            Seq::new(out@.len(), |k: int| out@[k] as char) == spec_pct_bytes(bs@.take(i as int)),
        decreases n - i,
    {
        let b = bs[i];
        if (65 <= b && b <= 90) || (97 <= b && b <= 122) || (48 <= b && b <= 57) || b == 45 || b
            == 46 || b == 95 || b == 126 {
            out.push(b);
        } else {
            out.push(37);
            out.push(hex_digit(b / 16));
            out.push(hex_digit(b % 16));
        }
        proof {
            assert(bs@.take(i as int + 1).drop_last() =~= bs@.take(i as int));
            assert(bs@.take(i as int + 1).last() == bs@[i as int]);
            assert(Seq::new(out@.len(), |k: int| out@[k] as char) =~= spec_pct_bytes(
                bs@.take(i as int + 1),
            ));
        }
        i += 1;
    }
    proof {
        assert(bs@.take(n as int) =~= bs@);
    }
    string_from_ascii(out)
}

/// `key=value` pairs joined with `&`: empty for no pairs, no leading or
/// trailing separator.
pub open spec fn spec_join_pairs(ps: Seq<(Seq<char>, Seq<char>)>) -> Seq<char>
    decreases ps.len(),
{
    if ps.len() == 0 {
        Seq::empty()
    } else if ps.len() == 1 {
        ps[0].0 + "="@ + ps[0].1
    } else {
        spec_join_pairs(ps.drop_last()) + "&"@ + ps.last().0 + "="@ + ps.last().1
    }
}

/// The views of a list of owned pairs.
pub open spec fn spec_pair_views(ps: Seq<(String, String)>) -> Seq<(Seq<char>, Seq<char>)> {
    Seq::new(ps.len(), |k: int| (ps[k].0@, ps[k].1@))
}

/// Taking views commutes with concatenation of pair lists.
pub proof fn lemma_pair_views_concat(a: Seq<(String, String)>, b: Seq<(String, String)>)
    ensures
        spec_pair_views(a + b) == spec_pair_views(a) + spec_pair_views(b),
{
    assert(spec_pair_views(a + b) =~= spec_pair_views(a) + spec_pair_views(b));
}

/// Joins `key=value` pairs with `&`, exactly as [`spec_join_pairs`] says.
pub fn join_pairs(ps: &Vec<(String, String)>) -> (r: String)
    ensures
        r@ == spec_join_pairs(spec_pair_views(ps@)),
{
    let n = ps.len();
    let mut out = String::new();
    let mut i: usize = 0;
    while i < n
        invariant
            i <= n,
            n == ps@.len(),
            out@ == spec_join_pairs(spec_pair_views(ps@).take(i as int)),
        decreases n - i,
    {
        if i > 0 {
            out.append("&");
        }
        out.append(ps[i].0.as_str());
        out.append("=");
        out.append(ps[i].1.as_str());
        proof {
            assert(spec_pair_views(ps@).take(i as int + 1).drop_last() =~= spec_pair_views(
                ps@,
            ).take(i as int));
            assert(spec_pair_views(ps@).take(i as int + 1).last() == (
                ps@[i as int].0@,
                ps@[i as int].1@,
            ));
            if i == 0 {
                assert(out@ =~= spec_join_pairs(spec_pair_views(ps@).take(i as int + 1)));
            } else {
                assert(out@ =~= spec_join_pairs(spec_pair_views(ps@).take(i as int + 1)));
            }
        }
        i += 1;
    }
    proof {
        assert(spec_pair_views(ps@).take(n as int) =~= spec_pair_views(ps@));
    }
    out
}

} // verus!
