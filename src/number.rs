//! Decimal numbers written as text in scene metadata.

use vstd::prelude::*;
use vstd::string::*;

verus! {

pub open spec fn is_digit(c: char) -> bool {
    '0' <= c && c <= '9'
}

pub open spec fn digit_value(c: char) -> int {
    c as int - '0' as int
}

/// The number that a string of decimal digits denotes.
pub open spec fn digits_value(s: Seq<char>) -> int
    decreases s.len(),
{
    if s.len() == 0 {
        0
    } else {
        digits_value(s.drop_last()) * 10 + digit_value(s.last())
    }
}

pub open spec fn all_digits(s: Seq<char>) -> bool {
    forall|i: int| 0 <= i < s.len() ==> is_digit(#[trigger] s[i])
}

/// Whether `s` is an unsigned integer that fits in a `u64`.
pub open spec fn is_u64_text(s: Seq<char>) -> bool {
    s.len() > 0 && all_digits(s) && digits_value(s) <= u64::MAX
}

/// Reads an unsigned decimal integer; `None` unless the whole text is digits
/// and the value fits in a `u64`.
pub fn parse_u64(s: &str) -> (r: Option<u64>)
    ensures
        r is Some <==> is_u64_text(s@),
        r matches Some(v) ==> v == digits_value(s@),
{
    let n = s.unicode_len();
    if n == 0 {
        return None;
    }
    let mut acc: u64 = 0;
    let mut i: usize = 0;
    while i < n
        invariant
            n == s@.len(),
            i <= n,
            all_digits(s@.subrange(0, i as int)),
            acc == digits_value(s@.subrange(0, i as int)),
        decreases n - i,
    {
        let c = s.get_char(i);
        let ghost pre = s@.subrange(0, i as int);
        let ghost next = s@.subrange(0, i + 1);
        assert(next.drop_last() =~= pre);
        if !('0' <= c && c <= '9') {
            assert(!all_digits(s@)) by {
                assert(!is_digit(s@[i as int]));
            }
            return None;
        }
        let d = (c as u32 - '0' as u32) as u64;
        assert(all_digits(next)) by {
            assert forall|k: int| 0 <= k < next.len() implies is_digit(#[trigger] next[k]) by {
                if k < i {
                    assert(next[k] == pre[k]);
                }
            }
        }
        if acc > (u64::MAX - d) / 10 {
            assert(digits_value(next) > u64::MAX) by (nonlinear_arith)
                requires
                    digits_value(next) == acc * 10 + d,
                    acc > (u64::MAX - d) / 10,
                    d <= 9;
            proof { lemma_prefix_bound(s@, i + 1); }
            return None;
        }
        assert(acc * 10 + d <= u64::MAX) by (nonlinear_arith)
            requires
                acc <= (u64::MAX - d) / 10,
                d <= 9;
        acc = acc * 10 + d;
        i = i + 1;
    }
    assert(s@.subrange(0, n as int) =~= s@);
    Some(acc)
}

/// A prefix of digits that overflows makes the whole text overflow.
proof fn lemma_prefix_bound(s: Seq<char>, k: int)
    requires
        0 <= k <= s.len(),
        all_digits(s.subrange(0, k)),
        digits_value(s.subrange(0, k)) > u64::MAX,
    ensures
        !is_u64_text(s),
    decreases s.len() - k,
{
    if k < s.len() && all_digits(s) {
        let next = s.subrange(0, k + 1);
        assert(next.drop_last() =~= s.subrange(0, k));
        assert(all_digits(next)) by {
            assert forall|j: int| 0 <= j < next.len() implies is_digit(#[trigger] next[j]) by {
                assert(next[j] == s[j]);
            }
        }
        assert(is_digit(s[k]));
        assert(digits_value(next) > u64::MAX);
        lemma_prefix_bound(s, k + 1);
    } else if k == s.len() {
        assert(s.subrange(0, k) =~= s);
    }
}

/// Position of the first '.' in `s`.
pub open spec fn first_dot(s: Seq<char>) -> Option<int>
    decreases s.len(),
{
    if s.len() == 0 {
        None
    } else {
        match first_dot(s.drop_last()) {
            Some(i) => Some(i),
            None => if s.last() == '.' { Some(s.len() - 1) } else { None },
        }
    }
}

proof fn lemma_first_dot(s: Seq<char>)
    ensures
        first_dot(s) matches Some(i) ==> 0 <= i < s.len() && s[i] == '.' && !s.subrange(0, i).contains('.'),
        first_dot(s) is None ==> !s.contains('.'),
    decreases s.len(),
{
    if s.len() > 0 {
        let p = s.drop_last();
        lemma_first_dot(p);
        if let Some(i) = first_dot(p) {
            assert(s.subrange(0, i) =~= p.subrange(0, i));
        } else if s.last() == '.' {
            assert(s.subrange(0, s.len() - 1) =~= p);
        } else {
            assert forall|k: int| 0 <= k < s.len() implies s[k] != '.' by {
                if k < s.len() - 1 {
                    assert(s[k] == p[k]);
                    assert(!p.contains('.'));
                }
            }
        }
    }
}

pub open spec fn pow10(n: nat) -> int
    decreases n,
{
    if n == 0 { 1 } else { 10 * pow10((n - 1) as nat) }
}

/// The value in thousandths of an unsigned decimal: digits, then optionally a
/// dot and one to three digits.
pub open spec fn unsigned_milli(b: Seq<char>) -> Option<int> {
    match first_dot(b) {
        None => if is_u64_text(b) { Some(digits_value(b) * 1000) } else { None },
        Some(p) => {
            let w = b.subrange(0, p);
            let f = b.subrange(p + 1, b.len() as int);
            if is_u64_text(w) && is_u64_text(f) && f.len() <= 3 {
                Some(digits_value(w) * 1000 + digits_value(f) * pow10((3 - f.len()) as nat))
            } else {
                None
            }
        },
    }
}

/// The value in thousandths of a decimal with an optional leading '-', when it
/// fits in an `i64`.
pub open spec fn decimal_milli(s: Seq<char>) -> Option<int> {
    if s.len() > 0 && s[0] == '-' {
        match unsigned_milli(s.drop_first()) {
            Some(v) => if v <= i64::MAX { Some(-v) } else { None },
            None => None,
        }
    } else {
        match unsigned_milli(s) {
            Some(v) => if v <= i64::MAX { Some(v) } else { None },
            None => None,
        }
    }
}

fn find_dot(s: &str) -> (r: Option<usize>)
    ensures
        r matches Some(i) ==> first_dot(s@) == Some(i as int) && i < s@.len(),
        r is None ==> first_dot(s@) is None,
{
    proof { lemma_first_dot(s@); }
    let n = s.unicode_len();
    let mut i: usize = 0;
    while i < n
        invariant
            n == s@.len(),
            i <= n,
            first_dot(s@.subrange(0, i as int)) is None,
        decreases n - i,
    {
        assert(s@.subrange(0, i + 1).drop_last() =~= s@.subrange(0, i as int));
        if s.get_char(i) == '.' {
            proof { lemma_first_dot_prefix(s@, i + 1); }
            return Some(i);
        }
        i = i + 1;
    }
    assert(s@.subrange(0, n as int) =~= s@);
    None
}

proof fn lemma_first_dot_prefix(s: Seq<char>, k: int)
    requires
        0 <= k <= s.len(),
        first_dot(s.subrange(0, k)) is Some,
    ensures
        first_dot(s) == first_dot(s.subrange(0, k)),
    decreases s.len() - k,
{
    if k == s.len() {
        assert(s.subrange(0, k) =~= s);
    } else {
        assert(s.subrange(0, k + 1).drop_last() =~= s.subrange(0, k));
        lemma_first_dot_prefix(s, k + 1);
    }
}

fn parse_unsigned_milli(b: &str) -> (r: Option<u64>)
    ensures
        r is Some <==> (unsigned_milli(b@) matches Some(v) && v <= i64::MAX),
        r matches Some(v) ==> unsigned_milli(b@) == Some(v as int) && v <= i64::MAX,
{
    let n = b.unicode_len();
    match find_dot(b) {
        None => {
            match parse_u64(b) {
                Some(w) => {
                    if w <= (i64::MAX as u64) / 1000 {
                        Some(w * 1000)
                    } else {
                        None
                    }
                },
                None => None,
            }
        },
        Some(p) => {
            let ws = b.substring_char(0, p);
            let fs = b.substring_char(p + 1, n);
            let fl = fs.unicode_len();
            if fl > 3 {
                return None;
            }
            match (parse_u64(ws), parse_u64(fs)) {
                (Some(w), Some(f)) => {
                    assert(f < pow10(fl as nat)) by {
                        lemma_digits_below(fs@);
                    }
                    let scale: u64 = if fl == 1 { 100 } else if fl == 2 { 10 } else { 1 };
                    assert(pow10((3 - fl) as nat) == scale) by {
                        reveal_with_fuel(pow10, 4);
                    }
                    assert(pow10(fl as nat) * scale == 1000) by {
                        reveal_with_fuel(pow10, 4);
                    }
                    assert(f * scale < 1000) by (nonlinear_arith)
                        requires
                            f < pow10(fl as nat),
                            pow10(fl as nat) * scale == 1000,
                            scale >= 1;
                    let fm = f * scale;
                    if w <= (i64::MAX as u64) / 1000 && w * 1000 <= (i64::MAX as u64) - fm {
                        Some(w * 1000 + fm)
                    } else {
                        assert(w * 1000 + fm > i64::MAX) by (nonlinear_arith)
                            requires
                                w > i64::MAX / 1000 || w * 1000 > i64::MAX - fm,
                                fm >= 0;
                        None
                    }
                },
                _ => None,
            }
        },
    }
}

proof fn lemma_digits_below(s: Seq<char>)
    requires
        all_digits(s),
    ensures
        0 <= digits_value(s) < pow10(s.len()),
    decreases s.len(),
{
    if s.len() > 0 {
        let p = s.drop_last();
        assert(all_digits(p)) by {
            assert forall|i: int| 0 <= i < p.len() implies is_digit(#[trigger] p[i]) by {
                assert(p[i] == s[i]);
            }
        }
        lemma_digits_below(p);
        assert(is_digit(s[s.len() - 1]));
        assert(digits_value(s) < pow10(s.len())) by (nonlinear_arith)
            requires
                digits_value(s) == digits_value(p) * 10 + digit_value(s.last()),
                digits_value(p) < pow10(p.len()),
                0 <= digit_value(s.last()) <= 9,
                pow10(s.len()) == 10 * pow10(p.len()),
                digits_value(p) >= 0;
    }
}

/// Reads a decimal such as `-2.5` in thousandths.
pub fn parse_milli(s: &str) -> (r: Option<i64>)
    ensures
        r is Some <==> decimal_milli(s@) is Some,
        r matches Some(v) ==> decimal_milli(s@) == Some(v as int),
{
    let n = s.unicode_len();
    if n > 0 && s.get_char(0) == '-' {
        let rest = s.substring_char(1, n);
        assert(rest@ =~= s@.drop_first());
        match parse_unsigned_milli(rest) {
            Some(v) => {
                assert(unsigned_milli(s@.drop_first()) == Some(v as int));
                Some(-(v as i64))
            },
            None => None,
        }
    } else {
        assert(!(s@.len() > 0 && s@[0] == '-'));
        match parse_unsigned_milli(s) {
            Some(v) => Some(v as i64),
            None => None,
        }
    }
}

} // verus!
