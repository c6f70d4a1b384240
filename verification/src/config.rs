//! Reading values out of the game's configuration files the way the game's own config reader does:
//! blank values of a repeated key are dropped, the first remaining value wins, and numbers are
//! parsed strictly.
use vstd::prelude::*;
use crate::text::{chars_of, owned, spec_trim, trim};

verus! {

/// The views of the values of a repeated key that are not blank, in file order.
pub open spec fn spec_values(raw: Seq<String>) -> Seq<Seq<char>>
    decreases raw.len(),
{
    if raw.len() == 0 {
        Seq::empty()
    } else if spec_trim(raw.last()@).len() == 0 {
        spec_values(raw.drop_last())
    } else {
        spec_values(raw.drop_last()).push(raw.last()@)
    }
}

/// The values of a repeated key that are not blank, in file order.
pub fn values(raw: &Vec<String>) -> (r: Vec<String>)
    ensures
        Seq::new(r@.len(), |i: int| r@[i]@) == spec_values(raw@),
{
    let mut out: Vec<String> = Vec::new();
    let mut i: usize = 0;
    while i < raw.len()
        invariant
            i <= raw@.len(),
            Seq::new(out@.len(), |k: int| out@[k]@) == spec_values(raw@.take(i as int)),
        decreases raw@.len() - i,
    {
        assert(raw@.take(i + 1).drop_last() =~= raw@.take(i as int));
        assert(raw@.take(i + 1).last() == raw@[i as int]);
        let t = trim(raw[i].as_str());
        let ghost before = out@;
        if chars_of(t.as_str()).len() != 0 {
            out.push(owned(raw[i].as_str()));
            assert(Seq::new(out@.len(), |k: int| out@[k]@) =~= Seq::new(before.len(), |k: int| before[k]@).push(raw@[i as int]@));
        }
        i = i + 1;
    }
    assert(raw@.take(raw@.len() as int) =~= raw@);
    out
}

/// The first value of a repeated key that is not blank.
pub open spec fn spec_first(raw: Seq<String>) -> Option<Seq<char>> {
    if spec_values(raw).len() == 0 {
        None
    } else {
        Some(spec_values(raw)[0])
    }
}

/// The first value of a repeated key that is not blank.
pub fn first(raw: &Vec<String>) -> (r: Option<String>)
    ensures
        match spec_first(raw@) {
            None => r is None,
            Some(v) => r matches Some(s) && s@ == v,
        },
{
    let vals = values(raw);
    if vals.len() == 0 {
        None
    } else {
        assert(vals@[0]@ == spec_values(raw@)[0]);
        Some(owned(vals[0].as_str()))
    }
}

/// The value of a run of decimal digits.
pub open spec fn digits_value(d: Seq<char>) -> int
    decreases d.len(),
{
    if d.len() == 0 {
        0
    } else {
        digits_value(d.drop_last()) * 10 + (d.last() as int - '0' as int)
    }
}

/// Whether every character of `d` is a decimal digit.
pub open spec fn all_digits(d: Seq<char>) -> bool {
    forall|i: int| 0 <= i < d.len() ==> '0' <= #[trigger] d[i] <= '9'
}

/// `i32`'s parse: an optional `+` or `-` and at least one decimal digit, nothing else, and a
/// value that fits.
pub open spec fn spec_parse_i32(s: Seq<char>) -> Option<i32> {
    let neg = s.len() > 0 && s[0] == '-';
    let signed = s.len() > 0 && (s[0] == '-' || s[0] == '+');
    let d = if signed {
        s.skip(1)
    } else {
        s
    };
    if d.len() == 0 || !all_digits(d) {
        None
    } else {
        let v = if neg {
            -digits_value(d)
        } else {
            digits_value(d)
        };
        if i32::MIN <= v <= i32::MAX {
            Some(v as i32)
        } else {
            None
        }
    }
}

proof fn lemma_digits_value_grows(d: Seq<char>, k: int)
    requires
        all_digits(d),
        0 <= k <= d.len(),
    ensures
        digits_value(d.take(k)) <= digits_value(d),
        0 <= digits_value(d.take(k)),
    decreases d.len() - k,
{
    if k < d.len() {
        lemma_digits_value_grows(d, k + 1);
        assert(d.take(k + 1).drop_last() =~= d.take(k));
        lemma_digits_value_nonneg(d.take(k));
    } else {
        assert(d.take(k) =~= d);
        lemma_digits_value_nonneg(d);
    }
}

proof fn lemma_digits_value_nonneg(d: Seq<char>)
    requires
        all_digits(d),
    ensures
        0 <= digits_value(d),
    decreases d.len(),
{
    if d.len() > 0 {
        lemma_digits_value_nonneg(d.drop_last());
    }
}

/// Parses a 32-bit integer as `str::parse::<i32>` does.
#[verifier::loop_isolation(false)]
pub fn parse_i32(s: &str) -> (r: Option<i32>)
    ensures
        r == spec_parse_i32(s@),
{
    let v = chars_of(s);
    let n = v.len();
    let neg = n > 0 && v[0] == '-';
    let signed = n > 0 && (v[0] == '-' || v[0] == '+');
    let start: usize = if signed {
        1
    } else {
        0
    };
    let ghost d = if signed {
        s@.skip(1)
    } else {
        s@
    };
    assert(d =~= s@.subrange(start as int, n as int));
    if start == n {
        return None;
    }
    let mut acc: i64 = 0;
    let mut i: usize = start;
    while i < n
        invariant
            v@ == s@,
            n == v@.len(),
            start <= i <= n,
            d == s@.subrange(start as int, n as int),
            all_digits(d.take(i - start)),
            acc == digits_value(d.take(i - start)),
            0 <= acc <= 0x8000_0000,
        decreases n - i,
    {
        let c = v[i];
        if !('0' <= c && c <= '9') {
            assert(d[i - start] == c);
            assert(!('0' <= d[i - start] <= '9'));
            assert(!all_digits(d));
            return None;
        }
        let digit = (c as u32 - '0' as u32) as i64;
        assert(d.take(i - start + 1).drop_last() =~= d.take(i - start));
        assert(d.take(i - start + 1).last() == c);
        let next = acc * 10 + digit;
        assert(next == digits_value(d.take(i - start + 1)));
        if next > 0x8000_0000 {
            proof {
                assert(all_digits(d.take(i - start + 1)));
                if all_digits(d) {
                    lemma_digits_value_grows(d, i - start + 1);
                }
            }
            return None;
        }
        acc = next;
        i = i + 1;
    }
    assert(d.take(n - start) =~= d);
    if neg {
        Some((-acc) as i32)
    } else if acc > 0x7fff_ffff {
        None
    } else {
        Some(acc as i32)
    }
}

/// The first value of a repeated key read as a number, 0 when there is none or it does not parse.
pub open spec fn spec_first_int_or_zero(raw: Seq<String>) -> i32 {
    match spec_first(raw) {
        None => 0,
        Some(v) => match spec_parse_i32(v) {
            Some(n) => n,
            None => 0,
        },
    }
}

/// The first value of a repeated key as a number, or 0.
pub fn first_int_or_zero(raw: &Vec<String>) -> (r: i32)
    ensures
        r == spec_first_int_or_zero(raw@),
{
    match first(raw) {
        None => 0,
        Some(v) => match parse_i32(v.as_str()) {
            Some(n) => n,
            None => 0,
        },
    }
}

} // verus!
