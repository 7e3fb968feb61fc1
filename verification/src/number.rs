use vstd::prelude::*;
use crate::text::{chars_of, decimal, digit, skip_white_back, skip_white_front, trim};

verus! {

/// Whether `s` is a non-empty run of ASCII decimal digits.
pub open spec fn all_digits(s: Seq<char>) -> bool {
    s.len() > 0 && forall|i: int| 0 <= i < s.len() ==> '0' <= #[trigger] s[i] <= '9'
}

/// The number a run of decimal digits spells.
pub open spec fn digits_value(s: Seq<char>) -> nat
    decreases s.len(),
{
    if s.len() == 0 {
        0
    } else {
        digits_value(s.drop_last()) * 10 + ((s.last() as int) - ('0' as int)) as nat
    }
}

/// The value of an unsigned integer literal as `str::parse` reads it for
/// unsigned types: an optional `+` followed by one or more digits, nothing
/// else (no white space, no `-`, no separators).
pub open spec fn unsigned_value(s: Seq<char>) -> Option<nat> {
    let body = if s.len() > 0 && s[0] == '+' { s.drop_first() } else { s };
    if all_digits(body) {
        Some(digits_value(body))
    } else {
        None
    }
}

proof fn lemma_digits_value_prefix(s: Seq<char>, i: int)
    requires
        0 <= i <= s.len(),
        forall|k: int| 0 <= k < s.len() ==> '0' <= #[trigger] s[k] <= '9',
    ensures
        digits_value(s.take(i)) <= digits_value(s),
    decreases s.len() - i,
{
    if i < s.len() {
        lemma_digits_value_prefix(s, i + 1);
        assert(s.take(i + 1).drop_last() =~= s.take(i));
    } else {
        assert(s.take(i) =~= s);
    }
}

/// Reading back the decimal representation of a number gives the number:
/// what `format!("{}", n)` writes, `parse_u32` reads as `n`.
pub proof fn lemma_decimal_reads_back(n: nat)
    ensures
        all_digits(decimal(n)),
        digits_value(decimal(n)) == n,
        unsigned_value(decimal(n)) == Some(n),
    decreases n,
{
    if n < 10 {
        assert(decimal(n) =~= seq![digit(n as int)]);
        assert(decimal(n).drop_last() =~= Seq::<char>::empty());
        assert(decimal(n).last() == digit(n as int));
        assert(digit(n as int) as int == 48 + n);
        assert(digits_value(decimal(n)) == digits_value(decimal(n).drop_last()) * 10 + ((
        decimal(n).last() as int) - ('0' as int)) as nat);
    } else {
        lemma_decimal_reads_back(n / 10);
        let d = decimal(n);
        assert(d.drop_last() =~= decimal(n / 10));
        assert(d.last() == digit((n % 10) as int));
        assert(digit((n % 10) as int) as int == 48 + n % 10);
        assert(digits_value(d) == digits_value(d.drop_last()) * 10 + ((d.last() as int) - (
        '0' as int)) as nat);
        assert(n == (n / 10) * 10 + n % 10);
        assert forall|i: int| 0 <= i < d.len() implies '0' <= #[trigger] d[i] <= '9' by {
            if i < d.len() - 1 {
                assert(d[i] == decimal(n / 10)[i]);
            }
        }
    }
    assert(decimal(n)[0] != '+');
}

/// Parse an unsigned decimal integer no larger than `max` from `v[lo..hi]`.
fn parse_bounded(v: &Vec<char>, lo: usize, hi: usize, max: u64) -> (r: Option<u64>)
    requires
        lo <= hi <= v@.len(),
        max <= 0xffff_ffffu64,
    ensures
        r == match unsigned_value(v@.subrange(lo as int, hi as int)) {
            Some(n) => if n <= max { Some(n as u64) } else { None },
            None => None,
        },
{
    let ghost s = v@.subrange(lo as int, hi as int);
    let start = if lo < hi && v[lo] == '+' { lo + 1 } else { lo };
    let ghost body = v@.subrange(start as int, hi as int);
    assert(body =~= (if s.len() > 0 && s[0] == '+' { s.drop_first() } else { s }));
    if start == hi {
        return None;
    }
    let mut value: u64 = 0;
    let mut i = start;
    while i < hi
        invariant
            lo <= start < hi <= v@.len(),
            start <= i <= hi,
            body == v@.subrange(start as int, hi as int),
            s == v@.subrange(lo as int, hi as int),
            body == (if s.len() > 0 && s[0] == '+' { s.drop_first() } else { s }),
            forall|k: int| 0 <= k < i - start ==> '0' <= #[trigger] body[k] <= '9',
            value == digits_value(body.take(i - start)),
            value <= max,
            max <= 0xffff_ffffu64,
        decreases hi - i,
    {
        let c = v[i];
        assert(body[i - start] == c);
        if c < '0' || c > '9' {
            assert(!all_digits(body));
            return None;
        }
        let d = (c as u64) - ('0' as u64);
        assert(body.take(i - start + 1).drop_last() =~= body.take(i - start));
        assert(value * 10 + d <= 0xffff_ffffu64 * 10 + 9) by (nonlinear_arith)
            requires
                value <= max,
                max <= 0xffff_ffffu64,
                d <= 9,
        ;
        let next = value * 10 + d;
        if next > max {
            // The digits read so far already spell more than `max`.
            proof {
                if all_digits(body) {
                    lemma_digits_value_prefix(body, i - start + 1);
                }
            }
            return None;
        }
        value = next;
        i = i + 1;
    }
    assert(body.take(hi - start) =~= body);
    Some(value)
}

/// Parse a `u32` as `str::parse::<u32>` does: `None` for anything but an
/// optional `+` and decimal digits, or for a value above `u32::MAX`.
pub fn parse_u32(s: &str) -> (r: Option<u32>)
    ensures
        r == match unsigned_value(s@) {
            Some(n) => if n <= u32::MAX { Some(n as u32) } else { None },
            None => None,
        },
{
    let v = chars_of(s);
    proof {
        assert(v@.subrange(0, v@.len() as int) =~= v@);
    }
    match parse_bounded(&v, 0, v.len(), 4294967295u64) {
        Some(n) => Some(n as u32),
        None => None,
    }
}

/// A count typed into a form: the trimmed text as a positive `u32`.
/// Anything else (empty, not a number, zero, too large) gives `None`.
pub fn positive_from_text(text: &str) -> (r: Option<u32>)
    ensures
        r == match unsigned_value(trim(text@)) {
            Some(n) => if 0 < n <= u32::MAX { Some(n as u32) } else { None },
            None => None,
        },
{
    let v = chars_of(text);
    proof {
        assert(v@.subrange(0, v@.len() as int) =~= v@);
    }
    let lo = skip_white_front(&v, 0, v.len());
    let hi = skip_white_back(&v, lo, v.len());
    match parse_bounded(&v, lo, hi, 4294967295u64) {
        Some(n) => if n > 0 { Some(n as u32) } else { None },
        None => None,
    }
}

/// A count typed into a form where nothing means zero: the trimmed text as
/// a `u32`, or 0 when it is not one.
pub fn count_from_text(text: &str) -> (r: u32)
    ensures
        r == match unsigned_value(trim(text@)) {
            Some(n) => if n <= u32::MAX { n as u32 } else { 0 },
            None => 0,
        },
{
    let v = chars_of(text);
    proof {
        assert(v@.subrange(0, v@.len() as int) =~= v@);
    }
    let lo = skip_white_front(&v, 0, v.len());
    let hi = skip_white_back(&v, lo, v.len());
    match parse_bounded(&v, lo, hi, 4294967295u64) {
        Some(n) => n as u32,
        None => 0,
    }
}

} // verus!
