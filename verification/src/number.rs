//! Decimal integers in text: reading as `str::parse::<i64>` does, and writing as
//! `Display` for `i64` does.
use vstd::prelude::*;

verus! {

/// An ASCII decimal digit.
pub open spec fn is_digit(c: char) -> bool {
    '0' <= c && c <= '9'
}

/// The value of an ASCII decimal digit.
pub open spec fn digit_val(c: char) -> int {
    c as int - '0' as int
}

/// Every character is a decimal digit.
pub open spec fn all_digits(s: Seq<char>) -> bool {
    forall|i: int| 0 <= i < s.len() ==> is_digit(#[trigger] s[i])
}

/// The number a string of digits spells.
pub open spec fn digits_value(s: Seq<char>) -> int
    decreases s.len(),
{
    if s.len() == 0 {
        0
    } else {
        digits_value(s.drop_last()) * 10 + digit_val(s.last())
    }
}

/// The integer the text spells: an optional `+` or `-`, then at least one digit.
pub open spec fn parse_int_spec(s: Seq<char>) -> Option<int> {
    let neg = s.len() > 0 && s[0] == '-';
    let body = if s.len() > 0 && (s[0] == '-' || s[0] == '+') {
        s.drop_first()
    } else {
        s
    };
    if body.len() == 0 || !all_digits(body) {
        None
    } else if neg {
        Some(-digits_value(body))
    } else {
        Some(digits_value(body))
    }
}

/// What `str::parse::<i64>` gives: the integer the text spells, when it fits.
pub open spec fn parse_i64_spec(s: Seq<char>) -> Option<i64> {
    match parse_int_spec(s) {
        Some(v) => if i64::MIN <= v && v <= i64::MAX {
            Some(v as i64)
        } else {
            None
        },
        None => None,
    }
}

proof fn lemma_digits_nonneg(s: Seq<char>)
    requires
        all_digits(s),
    ensures
        digits_value(s) >= 0,
    decreases s.len(),
{
    if s.len() > 0 {
        assert(all_digits(s.drop_last()));
        lemma_digits_nonneg(s.drop_last());
        assert(is_digit(s[s.len() - 1]));
    }
}

proof fn lemma_digits_grow(s: Seq<char>, k: int)
    requires
        all_digits(s),
        0 <= k <= s.len(),
    ensures
        digits_value(s) >= digits_value(s.take(k)),
    decreases s.len() - k,
{
    if k < s.len() {
        let t = s.take(k + 1);
        assert(t.drop_last() =~= s.take(k));
        assert(all_digits(t));
        lemma_digits_nonneg(s.take(k));
        assert(is_digit(t[k]));
        lemma_digits_grow(s, k + 1);
    } else {
        assert(s.take(k) =~= s);
    }
}

/// Reads a decimal `i64` (see `parse_i64_spec`).
pub fn parse_i64(s: &Vec<char>) -> (res: Option<i64>)
    ensures
        res == parse_i64_spec(s@),
{
    let neg = s.len() > 0 && s[0] == '-';
    let start: usize = if s.len() > 0 && (s[0] == '-' || s[0] == '+') {
        1
    } else {
        0
    };
    let ghost body = if s@.len() > 0 && (s@[0] == '-' || s@[0] == '+') {
        s@.drop_first()
    } else {
        s@
    };
    assert(body =~= s@.subrange(start as int, s@.len() as int));
    if start >= s.len() {
        return None;
    }
    let mut acc: i128 = 0;
    let mut i = start;
    while i < s.len()
        invariant
            start <= i <= s.len(),
            body == s@.subrange(start as int, s@.len() as int),
            body == (if s@.len() > 0 && (s@[0] == '-' || s@[0] == '+') {
                s@.drop_first()
            } else {
                s@
            }),
            neg == (s@.len() > 0 && s@[0] == '-'),
            all_digits(body.take(i - start)),
            acc as int == digits_value(body.take(i - start)),
            0 <= acc <= 10_000_000_000_000_000_000,
        decreases s.len() - i,
    {
        let c = s[i];
        if !('0' <= c && c <= '9') {
            assert(body[i - start] == c);
            assert(!is_digit(body[i - start]));
            assert(!all_digits(body));
            assert(parse_int_spec(s@) is None);
            return None;
        }
        proof {
            let t = body.take(i - start + 1);
            assert(t.drop_last() =~= body.take(i - start));
            assert(t.last() == c);
            assert(all_digits(t));
        }
        acc = acc * 10 + (c as u32 - '0' as u32) as i128;
        i += 1;
        assert(acc as int == digits_value(body.take(i - start)));
        if acc > 10_000_000_000_000_000_000 {
            proof {
                if all_digits(body) {
                    lemma_digits_grow(body, i - start);
                }
            }
            return None;
        }
    }
    assert(body.take(i - start) =~= body);
    if neg {
        if acc > 9_223_372_036_854_775_808 {
            None
        } else {
            Some((-acc) as i64)
        }
    } else {
        if acc > 9_223_372_036_854_775_807 {
            None
        } else {
            Some(acc as i64)
        }
    }
}

/// The decimal digits of a natural number (no sign, no leading zeros; "0" for 0).
pub open spec fn nat_digits(n: nat) -> Seq<char>
    decreases n,
{
    if n < 10 {
        seq![((n + '0' as nat) as u32) as char]
    } else {
        nat_digits(n / 10) + seq![(((n % 10) + '0' as nat) as u32) as char]
    }
}

/// How `Display` writes an integer: a minus sign for negatives, then the digits.
pub open spec fn int_text(n: int) -> Seq<char> {
    if n < 0 {
        seq!['-'] + nat_digits((-n) as nat)
    } else {
        nat_digits(n as nat)
    }
}

fn digit_char(d: u128) -> (c: char)
    requires
        d < 10,
    ensures
        c == ((d + '0' as nat) as u32) as char,
{
    if d == 0 { '0' }
    else if d == 1 { '1' }
    else if d == 2 { '2' }
    else if d == 3 { '3' }
    else if d == 4 { '4' }
    else if d == 5 { '5' }
    else if d == 6 { '6' }
    else if d == 7 { '7' }
    else if d == 8 { '8' }
    else { '9' }
}

fn nat_text(n: u128) -> (res: Vec<char>)
    ensures
        res@ == nat_digits(n as nat),
    decreases n,
{
    if n < 10 {
        let mut v: Vec<char> = Vec::new();
        v.push(digit_char(n));
        assert(v@ =~= nat_digits(n as nat));
        v
    } else {
        let mut v = nat_text(n / 10);
        v.push(digit_char(n % 10));
        assert(v@ =~= nat_digits(n as nat));
        v
    }
}

/// An integer written in decimal.
pub fn i64_text(n: i64) -> (res: Vec<char>)
    ensures
        res@ == int_text(n as int),
{
    if n < 0 {
        let m: u128 = (-(n as i128)) as u128;
        let digits = nat_text(m);
        let mut v: Vec<char> = Vec::new();
        v.push('-');
        let r = crate::text::concat(&v, &digits);
        assert(v@ =~= seq!['-']);
        r
    } else {
        nat_text(n as u128)
    }
}

/// A count written in decimal.
pub fn usize_text(n: usize) -> (res: Vec<char>)
    ensures
        res@ == int_text(n as int),
{
    nat_text(n as u128)
}

/// The parts of a plain decimal number: an optional `+` or `-`, digits, and
/// optionally a `.` followed by more digits, with at least one digit in all.
/// The parts are whether it is negative, the whole digits and the fraction
/// digits.
pub open spec fn decimal_parts(s: Seq<char>) -> Option<(bool, Seq<char>, Seq<char>)> {
    let neg = s.len() > 0 && s[0] == '-';
    let body = if s.len() > 0 && (s[0] == '-' || s[0] == '+') {
        s.drop_first()
    } else {
        s
    };
    let (whole, frac) = match crate::text::find_seq(body, seq!['.']) {
        Some(p) => (body.subrange(0, p), body.subrange(p + 1, body.len() as int)),
        None => (body, Seq::empty()),
    };
    if all_digits(whole) && all_digits(frac) && whole.len() + frac.len() >= 1 {
        Some((neg, whole, frac))
    } else {
        None
    }
}

/// An integer held to the `i64` range: larger values become `i64::MAX`,
/// smaller ones `i64::MIN`.
pub open spec fn saturate_i64(v: int) -> i64 {
    if v > i64::MAX {
        i64::MAX
    } else if v < i64::MIN {
        i64::MIN
    } else {
        v as i64
    }
}

/// The whole part of a plain decimal number, truncated toward zero and held to
/// the `i64` range; `None` for text that is no plain decimal number.
pub open spec fn decimal_whole_spec(s: Seq<char>) -> Option<i64> {
    match decimal_parts(s) {
        Some((neg, whole, _)) => Some(saturate_i64(if neg { -digits_value(whole) } else { digits_value(whole) })),
        None => None,
    }
}

fn all_digits_exec(v: &Vec<char>) -> (res: bool)
    ensures
        res == all_digits(v@),
{
    let mut i: usize = 0;
    while i < v.len()
        invariant
            i <= v.len(),
            forall|k: int| 0 <= k < i ==> is_digit(#[trigger] v@[k]),
        decreases v.len() - i,
    {
        if !('0' <= v[i] && v[i] <= '9') {
            assert(!is_digit(v@[i as int]));
            return false;
        }
        i += 1;
    }
    true
}

/// Reads the whole part of a plain decimal number (see `decimal_whole_spec`).
pub fn decimal_whole(s: &Vec<char>) -> (res: Option<i64>)
    ensures
        res == decimal_whole_spec(s@),
{
    let neg = s.len() > 0 && s[0] == '-';
    let start: usize = if s.len() > 0 && (s[0] == '-' || s[0] == '+') {
        1
    } else {
        0
    };
    let body = crate::text::slice(s, start, s.len());
    proof {
        if s@.len() > 0 && (s@[0] == '-' || s@[0] == '+') {
            assert(body@ =~= s@.drop_first());
        } else {
            assert(body@ =~= s@);
        }
    }
    let mut dot: Vec<char> = Vec::new();
    dot.push('.');
    assert(dot@ =~= seq!['.']);
    let (whole, frac) = match crate::text::find(&body, &dot) {
        Some(p) => {
            proof {
                crate::text::lemma_find_seq(body@, dot@);
            }
            (crate::text::slice(&body, 0, p), crate::text::slice(&body, p + 1, body.len()))
        },
        None => {
            let e: Vec<char> = Vec::new();
            assert(e@ =~= Seq::<char>::empty());
            (body, e)
        },
    };
    if !(all_digits_exec(&whole) && all_digits_exec(&frac) && whole.len() + frac.len() >= 1) {
        return None;
    }
    if whole.len() == 0 {
        return Some(0);
    }
    let signed = if neg {
        let mut m: Vec<char> = Vec::new();
        m.push('-');
        crate::text::concat(&m, &whole)
    } else {
        whole
    };
    proof {
        lemma_digits_nonneg(whole@);
        if neg {
            assert(signed@.drop_first() =~= whole@);
        }
        assert(signed@.len() > 0);
        if !neg {
            assert(signed@[0] != '-' && signed@[0] != '+') by {
                assert(is_digit(whole@[0]));
            }
        }
    }
    match parse_i64(&signed) {
        Some(v) => Some(v),
        None => {
            if neg {
                Some(i64::MIN)
            } else {
                Some(i64::MAX)
            }
        },
    }
}

} // verus!
