//! Decimal numerals: rendering an integer as text and reading one back.
//!
//! The JSON pipeline needs exact message texts that embed a size in
//! megabytes, and the timestamp tools turn `i64` values into text and
//! back; both directions are specified against the same digit model.

use vstd::prelude::*;

verus! {

/// The decimal digit character for a value in 0..9.
pub open spec fn digit_char(d: int) -> char {
    if d == 0 {
        '0'
    } else if d == 1 {
        '1'
    } else if d == 2 {
        '2'
    } else if d == 3 {
        '3'
    } else if d == 4 {
        '4'
    } else if d == 5 {
        '5'
    } else if d == 6 {
        '6'
    } else if d == 7 {
        '7'
    } else if d == 8 {
        '8'
    } else {
        '9'
    }
}

/// The decimal numeral of a non-negative integer, most significant digit
/// first, with no leading zeros (the numeral of 0 is "0").
pub open spec fn spec_udec(n: nat) -> Seq<char>
    decreases n,
{
    if n < 10 {
        seq![digit_char(n as int)]
    } else {
        spec_udec(n / 10) + seq![digit_char((n % 10) as int)]
    }
}

/// The decimal numeral of a signed integer: a leading '-' for negative
/// values, no sign otherwise.
pub open spec fn spec_idec(v: int) -> Seq<char> {
    if v >= 0 {
        spec_udec(v as nat)
    } else {
        seq!['-'] + spec_udec((-v) as nat)
    }
}

/// The one-character string for a decimal digit.
fn digit_str(d: u64) -> (r: &'static str)
    requires
        d < 10,
    ensures
        r@ == seq![digit_char(d as int)],
{
    proof {
        reveal_strlit("0");
        reveal_strlit("1");
        reveal_strlit("2");
        reveal_strlit("3");
        reveal_strlit("4");
        reveal_strlit("5");
        reveal_strlit("6");
        reveal_strlit("7");
        reveal_strlit("8");
        reveal_strlit("9");
    }
    if d == 0 {
        "0"
    } else if d == 1 {
        "1"
    } else if d == 2 {
        "2"
    } else if d == 3 {
        "3"
    } else if d == 4 {
        "4"
    } else if d == 5 {
        "5"
    } else if d == 6 {
        "6"
    } else if d == 7 {
        "7"
    } else if d == 8 {
        "8"
    } else {
        "9"
    }
}

/// Renders an unsigned value as its decimal numeral.
pub fn u64_to_dec(n: u64) -> (r: String)
    ensures
        r@ == spec_udec(n as nat),
    decreases n,
{
    if n < 10 {
        String::from_str(digit_str(n))
    } else {
        let mut s = u64_to_dec(n / 10);
        let t = u64_to_dec_low(n % 10);
        s.append(t.as_str());
        s
    }
}

/// Renders the low digit; split out so the recursive call above stays
/// structurally decreasing.
fn u64_to_dec_low(d: u64) -> (r: String)
    requires
        d < 10,
    ensures
        r@ == seq![digit_char(d as int)],
{
    String::from_str(digit_str(d))
}

/// Renders a signed value as its decimal numeral.
pub fn i64_to_dec(v: i64) -> (r: String)
    ensures
        r@ == spec_idec(v as int),
{
    if v >= 0 {
        u64_to_dec(v as u64)
    } else {
        proof {
            reveal_strlit("-");
        }
        let mag: u64 = ((-(v + 1)) as u64) + 1;
        let mut s = String::from_str("-");
        let t = u64_to_dec(mag);
        s.append(t.as_str());
        s
    }
}

/// A decimal digit character.
pub open spec fn is_digit(c: char) -> bool {
    48 <= c as u32 <= 57
}

/// The value of a decimal digit character.
pub open spec fn digit_val(c: char) -> int {
    c as u32 - 48
}

/// Every character of the sequence is a decimal digit.
pub open spec fn all_digits(s: Seq<char>) -> bool {
    forall|i: int| 0 <= i < s.len() ==> is_digit(#[trigger] s[i])
}

/// The value of a digit string, most significant digit first.
pub open spec fn digits_val(s: Seq<char>) -> int
    decreases s.len(),
{
    if s.len() == 0 {
        0
    } else {
        digits_val(s.drop_last()) * 10 + digit_val(s.last())
    }
}

/// What `i64` text parsing accepts: an optional single '+' or '-' sign,
/// then one or more decimal digits and nothing else, with the signed
/// value in range; anything else is rejected.
pub open spec fn spec_parse_i64(s: Seq<char>) -> Option<i64> {
    let signed = s.len() > 0 && (s[0] == '+' || s[0] == '-');
    let neg = s.len() > 0 && s[0] == '-';
    let ds = if signed {
        s.drop_first()
    } else {
        s
    };
    if ds.len() == 0 || !all_digits(ds) {
        None
    } else {
        let v = if neg {
            -digits_val(ds)
        } else {
            digits_val(ds)
        };
        if -0x8000_0000_0000_0000 <= v <= 0x7fff_ffff_ffff_ffff {
            Some(v as i64)
        } else {
            None
        }
    }
}

/// A digit string's value is non-negative.
proof fn lemma_digits_val_nonneg(s: Seq<char>)
    requires
        all_digits(s),
    ensures
        digits_val(s) >= 0,
    decreases s.len(),
{
    if s.len() > 0 {
        assert(all_digits(s.drop_last())) by {
            assert(forall|i: int|
                0 <= i < s.len() - 1 ==> s.drop_last()[i] == #[trigger] s[i]);
        }
        lemma_digits_val_nonneg(s.drop_last());
    }
}

/// Extending a digit string can only grow its value.
proof fn lemma_digits_val_mono(s: Seq<char>, k: int)
    requires
        all_digits(s),
        0 <= k <= s.len(),
    ensures
        digits_val(s) >= digits_val(s.subrange(0, k)),
    decreases s.len() - k,
{
    if k < s.len() {
        lemma_digits_val_mono(s, k + 1);
        let a = s.subrange(0, k);
        let b = s.subrange(0, k + 1);
        assert(b.drop_last() =~= a);
        assert(all_digits(b)) by {
            assert(forall|i: int| 0 <= i < b.len() ==> b[i] == #[trigger] s[i]);
        }
        lemma_digits_val_nonneg(a);
        assert(digits_val(b) == digits_val(a) * 10 + digit_val(b.last()));
        assert(digit_val(b.last()) >= 0);
        assert(digits_val(a) * 10 >= digits_val(a)) by (nonlinear_arith)
            requires
                digits_val(a) >= 0,
        ;
    } else {
        assert(s.subrange(0, k) =~= s);
    }
}

/// Reads a decimal `i64` from text, accepting exactly what
/// `spec_parse_i64` describes.
pub fn parse_i64(s: &str) -> (r: Option<i64>)
    ensures
        r == spec_parse_i64(s@),
{
    let n = s.unicode_len();
    let ghost gs = s@;
    if n == 0 {
        return None;
    }
    let first = s.get_char(0);
    let signed = first == '+' || first == '-';
    let neg = first == '-';
    let start: usize = if signed {
        1
    } else {
        0
    };
    let ghost ds = if signed {
        gs.drop_first()
    } else {
        gs
    };
    proof {
        assert(forall|j: int| 0 <= j < ds.len() ==> #[trigger] ds[j] == gs[j + start]);
    }
    if n == start {
        return None;
    }
    // The largest magnitude still representable: one more for a negative
    // value, whose range reaches one further down.
    let bound_div10: u64 = 922337203685477580;
    let bound_mod10: u64 = if neg {
        8
    } else {
        7
    };
    let ghost bound: int = if neg {
        0x8000_0000_0000_0000
    } else {
        0x7fff_ffff_ffff_ffff
    };
    let mut acc: u64 = 0;
    let mut i: usize = start;
    while i < n
        invariant
            start <= i <= n,
            gs == s@,
            n == gs.len(),
            n > start,
            signed == (gs[0] == '+' || gs[0] == '-'),
            neg == (gs[0] == '-'),
            ds == if signed {
                gs.drop_first()
            } else {
                gs
            },
            signed ==> start == 1,
            !signed ==> start == 0,
            ds.len() == n - start,
            forall|j: int| 0 <= j < ds.len() ==> #[trigger] ds[j] == gs[j + start],
            all_digits(ds.subrange(0, i - start)),
            acc as int == digits_val(ds.subrange(0, i - start)),
            acc as int <= bound,
            bound == if neg {
                0x8000_0000_0000_0000int
            } else {
                0x7fff_ffff_ffff_ffffint
            },
            bound_div10 == 922337203685477580,
            bound_mod10 as int == bound - 9223372036854775800,
        decreases n - i,
    {
        let c = s.get_char(i);
        let u = c as u32;
        if u < 48 || u > 57 {
            proof {
                assert(!is_digit(ds[i - start]));
                assert(!all_digits(ds));
            }
            return None;
        }
        let d = (u - 48) as u64;
        let ghost pre = ds.subrange(0, i - start);
        let ghost cur = ds.subrange(0, i + 1 - start);
        proof {
            assert(cur.drop_last() =~= pre);
            assert(cur.last() == ds[i - start]);
            assert(digit_val(ds[i - start]) == d as int);
            assert(digits_val(cur) == acc as int * 10 + d as int);
            assert(all_digits(cur));
        }
        if acc > bound_div10 || (acc == bound_div10 && d > bound_mod10) {
            // The value read so far already exceeds the range, and more
            // digits cannot shrink it.
            proof {
                assert(digits_val(cur) > bound);
                if all_digits(ds) {
                    lemma_digits_val_mono(ds, i + 1 - start);
                    assert(digits_val(ds) >= digits_val(cur));
                    assert(spec_parse_i64(gs) is None);
                } else {
                    assert(spec_parse_i64(gs) is None);
                }
            }
            return None;
        }
        acc = acc * 10 + d;
        i = i + 1;
    }
    proof {
        assert(ds.subrange(0, n - start) =~= ds);
        assert(acc as int == digits_val(ds));
        assert(all_digits(ds));
    }
    if neg {
        if acc == 9223372036854775808 {
            Some(i64::MIN)
        } else {
            Some(-(acc as i64))
        }
    } else {
        Some(acc as i64)
    }
}

} // verus!
