//! Decimal text for signed 64-bit integers.
//!
//! The wire protocol carries timestamps as base-10 strings, so this module
//! defines what the decimal text of an integer is (`spec_i64_dec`), what an
//! accepted numeral is (`spec_parse_i64`), and executable functions proved
//! against those definitions.

use vstd::prelude::*;
use vstd::string::*;
use vstd::arithmetic::div_mod::lemma_fundamental_div_mod;
use crate::strutil::push_char;

verus! {

/// The character for one decimal digit value.
pub open spec fn digit_char(d: int) -> char {
    if d == 0 {
        '0'
    } else if d == 1 {
        '1'
    } else if d == 2 {
        '2'
    } else if d == 3 {
        '3'
    } else if d == 4 {
        '4'
    } else if d == 5 {
        '5'
    } else if d == 6 {
        '6'
    } else if d == 7 {
        '7'
    } else if d == 8 {
        '8'
    } else {
        '9'
    }
}

pub open spec fn is_digit_char(c: char) -> bool {
    '0' as int <= c as int <= '9' as int
}

pub open spec fn digit_val(c: char) -> int {
    c as int - '0' as int
}

pub open spec fn all_digits(s: Seq<char>) -> bool {
    forall|i: int| 0 <= i < s.len() ==> is_digit_char(#[trigger] s[i])
}

/// The decimal text of a non-negative integer, most significant digit first,
/// without leading zeros (except for the single digit of zero itself).
pub open spec fn spec_nat_dec(n: nat) -> Seq<char>
    decreases n,
{
    if n < 10 {
        seq![digit_char(n as int)]
    } else {
        spec_nat_dec(n / 10).push(digit_char((n % 10) as int))
    }
}

/// The decimal text of a signed integer: a leading minus sign for negative
/// values, no sign otherwise.
pub open spec fn spec_i64_dec(i: int) -> Seq<char> {
    if i < 0 {
        seq!['-'] + spec_nat_dec((-i) as nat)
    } else {
        spec_nat_dec(i as nat)
    }
}

/// The value of a sequence of decimal digits, most significant first.
pub open spec fn digits_val(s: Seq<char>) -> int
    decreases s.len(),
{
    if s.len() == 0 {
        0
    } else {
        digits_val(s.drop_last()) * 10 + digit_val(s.last())
    }
}

/// What parsing a signed decimal numeral yields: an optional sign followed by
/// at least one digit, valued within `i64`; anything else is rejected.
pub open spec fn spec_parse_i64(s: Seq<char>) -> Option<int> {
    if s.len() == 0 {
        None
    } else {
        let signed = s[0] == '-' || s[0] == '+';
        let ds = if signed {
            s.subrange(1, s.len() as int)
        } else {
            s
        };
        if ds.len() == 0 || !all_digits(ds) {
            None
        } else {
            let v = if s[0] == '-' {
                -digits_val(ds)
            } else {
                digits_val(ds)
            };
            if i64::MIN <= v <= i64::MAX {
                Some(v)
            } else {
                None
            }
        }
    }
}

pub proof fn lemma_digits_val_nonneg(s: Seq<char>)
    requires
        all_digits(s),
    ensures
        digits_val(s) >= 0,
    decreases s.len(),
{
    if s.len() > 0 {
        assert(all_digits(s.drop_last()));
        lemma_digits_val_nonneg(s.drop_last());
    }
}

/// A digit string is worth at least any of its prefixes.
pub proof fn lemma_digits_val_prefix(s: Seq<char>, k: int)
    requires
        all_digits(s),
        0 <= k <= s.len(),
    ensures
        digits_val(s.subrange(0, k)) <= digits_val(s),
    decreases s.len() - k,
{
    if k < s.len() {
        let t = s.drop_last();
        assert(all_digits(t));
        assert(s.subrange(0, k) =~= t.subrange(0, k));
        lemma_digits_val_prefix(t, k);
        lemma_digits_val_nonneg(t);
    } else {
        assert(s.subrange(0, k) =~= s);
    }
}

proof fn lemma_digit_char_val(d: int)
    requires
        0 <= d <= 9,
    ensures
        is_digit_char(digit_char(d)),
        digit_val(digit_char(d)) == d,
{
}

/// The decimal text of a non-negative integer is all digits, starts with
/// something other than a sign, and parses back to the same value.
pub proof fn lemma_nat_dec_val(n: nat)
    ensures
        spec_nat_dec(n).len() >= 1,
        all_digits(spec_nat_dec(n)),
        digits_val(spec_nat_dec(n)) == n,
    decreases n,
{
    if n < 10 {
        lemma_digit_char_val(n as int);
        assert(spec_nat_dec(n).drop_last() =~= Seq::<char>::empty());
        assert(digits_val(Seq::<char>::empty()) == 0);
        assert(spec_nat_dec(n).last() == digit_char(n as int));
    } else {
        lemma_nat_dec_val(n / 10);
        lemma_digit_char_val((n % 10) as int);
        let s = spec_nat_dec(n);
        assert(s.drop_last() =~= spec_nat_dec(n / 10));
        lemma_fundamental_div_mod(n as int, 10);
    }
}

/// Round trip: the decimal text of any `i64` value parses back to it.
pub proof fn lemma_parse_i64_dec(i: i64)
    ensures
        spec_parse_i64(spec_i64_dec(i as int)) == Some(i as int),
{
    if i < 0 {
        let m = (-(i as int)) as nat;
        lemma_nat_dec_val(m);
        let s = spec_i64_dec(i as int);
        assert(s.subrange(1, s.len() as int) =~= spec_nat_dec(m));
    } else {
        lemma_nat_dec_val(i as nat);
        let s = spec_i64_dec(i as int);
        assert(is_digit_char(s[0]));
        assert(s[0] != '-' && s[0] != '+');
    }
}

fn digit_to_char(d: u64) -> (c: char)
    requires
        d < 10,
    ensures
        c == digit_char(d as int),
{
    if d == 0 {
        '0'
    } else if d == 1 {
        '1'
    } else if d == 2 {
        '2'
    } else if d == 3 {
        '3'
    } else if d == 4 {
        '4'
    } else if d == 5 {
        '5'
    } else if d == 6 {
        '6'
    } else if d == 7 {
        '7'
    } else if d == 8 {
        '8'
    } else {
        '9'
    }
}

fn fmt_u64(n: u64) -> (s: String)
    ensures
        s@ == spec_nat_dec(n as nat),
    decreases n,
{
    if n < 10 {
        let mut s = String::new();
        push_char(&mut s, digit_to_char(n));
        proof {
            assert(s@ =~= spec_nat_dec(n as nat));
        }
        s
    } else {
        let mut s = fmt_u64(n / 10);
        push_char(&mut s, digit_to_char(n % 10));
        proof {
            assert(s@ =~= spec_nat_dec(n as nat));
        }
        s
    }
}

/// The decimal text of a signed 64-bit integer.
pub fn fmt_i64(i: i64) -> (s: String)
    ensures
        s@ == spec_i64_dec(i as int),
{
    if i < 0 {
        let m = (-(i as i128)) as u64;
        let mut s = String::from_str("-");
        let digits = fmt_u64(m);
        s.append(digits.as_str());
        proof {
            reveal_strlit("-");
            assert(s@ =~= spec_i64_dec(i as int));
        }
        s
    } else {
        fmt_u64(i as u64)
    }
}

/// Parses a signed decimal numeral, exactly as `spec_parse_i64` reads it.
pub fn parse_i64(s: &str) -> (r: Option<i64>)
    ensures
        match r {
            Some(v) => spec_parse_i64(s@) == Some(v as int),
            None => spec_parse_i64(s@) is None,
        },
{
    let n = s.unicode_len();
    if n == 0 {
        return None;
    }
    let c0 = s.get_char(0);
    let neg = c0 == '-';
    let signed = neg || c0 == '+';
    let start: usize = if signed {
        1
    } else {
        0
    };
    if n == start {
        return None;
    }
    let limit: u128 = if neg {
        9223372036854775808
    } else {
        9223372036854775807
    };
    let ghost ds = if signed {
        s@.subrange(1, s@.len() as int)
    } else {
        s@
    };
    let mut acc: u128 = 0;
    let mut i: usize = start;
    while i < n
        invariant
            start <= i <= n,
            start < n,
            n == s@.len(),
            signed == (s@[0] == '-' || s@[0] == '+'),
            neg == (s@[0] == '-'),
            start == if signed { 1int } else { 0int },
            ds == if signed { s@.subrange(1, s@.len() as int) } else { s@ },
            ds.len() == n - start,
            all_digits(ds.subrange(0, i - start)),
            acc as int == digits_val(ds.subrange(0, i - start)),
            acc <= limit,
            limit == if neg { 9223372036854775808u128 } else { 9223372036854775807u128 },
        decreases n - i,
    {
        let c = s.get_char(i);
        let u = c as u32;
        proof {
            assert(ds[i - start] == s@[i as int]);
        }
        if u < 48 || u > 57 {
            proof {
                assert(c as int == u as int);
                assert(!is_digit_char(ds[i - start]));
                assert(!all_digits(ds));
                assert(spec_parse_i64(s@) is None);
            }
            return None;
        }
        let d = (u - 48) as u128;
        proof {
            let p = ds.subrange(0, i + 1 - start);
            assert(p.drop_last() =~= ds.subrange(0, i - start));
            assert(p.last() == ds[i - start]);
        }
        acc = acc * 10 + d;
        i = i + 1;
        if acc > limit {
            proof {
                assert(all_digits(ds.subrange(0, i - start)));
                lemma_digits_out_of_range(ds, i - start, acc as int, neg);
            }
            return None;
        }
    }
    proof {
        assert(ds.subrange(0, i - start) =~= ds);
    }
    if neg {
        let v = (-(acc as i128)) as i64;
        proof {
            assert(spec_parse_i64(s@) == Some(v as int));
        }
        Some(v)
    } else {
        let v = acc as i64;
        proof {
            assert(spec_parse_i64(s@) == Some(v as int));
        }
        Some(v)
    }
}

/// If some prefix of the digit string is already worth more than the `i64`
/// bound for the requested sign, the whole numeral is rejected.
proof fn lemma_digits_out_of_range(ds: Seq<char>, k: int, prefix_val: int, neg: bool)
    requires
        0 < k <= ds.len(),
        all_digits(ds.subrange(0, k)),
        digits_val(ds.subrange(0, k)) == prefix_val,
        neg ==> prefix_val > 9223372036854775808,
        !neg ==> prefix_val > 9223372036854775807,
    ensures
        all_digits(ds) ==> !(i64::MIN <= (if neg { -digits_val(ds) } else { digits_val(ds) }) <= i64::MAX),
{
    if all_digits(ds) {
        lemma_digits_val_prefix(ds, k);
        lemma_digits_val_nonneg(ds);
    }
}

} // verus!
