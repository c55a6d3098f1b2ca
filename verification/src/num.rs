//! Decimal integers as `str::parse` reads them, and prefix and pattern
//! helpers for the text command protocols.
use vstd::prelude::*;
use vstd::string::*;
use crate::text::{chars_of, find_spec, find_str, occurs_at, str_eq};

verus! {

broadcast use vstd::string::group_string_axioms;

/// Whether a character is an ASCII decimal digit.
pub open spec fn is_digit(c: char) -> bool {
    '0' <= c <= '9'
}

/// The value of an ASCII decimal digit.
pub open spec fn digit_val(c: char) -> nat {
    (c as int - '0' as int) as nat
}

/// Whether every character is a decimal digit.
pub open spec fn all_digits(s: Seq<char>) -> bool {
    forall|i: int| 0 <= i < s.len() ==> is_digit(s[i])
}

/// Value of a string of decimal digits.
pub open spec fn dec_val(s: Seq<char>) -> nat
    decreases s.len(),
{
    if s.len() == 0 {
        0
    } else {
        dec_val(s.drop_last()) * 10 + digit_val(s.last())
    }
}

/// The digits of an unsigned number: the text without one leading `+`.
pub open spec fn unsigned_digits(s: Seq<char>) -> Seq<char> {
    if s.len() > 0 && s[0] == '+' {
        s.drop_first()
    } else {
        s
    }
}

/// What `str::parse` gives for an unsigned integer type whose largest value
/// is `max`: an optional `+`, then at least one digit, and no overflow.
pub open spec fn parse_unsigned(s: Seq<char>, max: nat) -> Option<nat> {
    let d = unsigned_digits(s);
    if d.len() > 0 && all_digits(d) && dec_val(d) <= max {
        Some(dec_val(d))
    } else {
        None
    }
}

/// What `str::parse` gives for a signed integer type with range
/// `min..=max`: an optional sign, then at least one digit, in range.
pub open spec fn parse_signed(s: Seq<char>, min: int, max: int) -> Option<int> {
    if s.len() > 0 && s[0] == '-' {
        let d = s.drop_first();
        if d.len() > 0 && all_digits(d) && -(dec_val(d) as int) >= min {
            Some(-(dec_val(d) as int))
        } else {
            None
        }
    } else {
        match parse_unsigned(s, max as nat) {
            Some(v) => if max >= 0 { Some(v as int) } else { None },
            None => None,
        }
    }
}

proof fn lemma_dec_val_prefix(s: Seq<char>, i: int)
    requires
        0 <= i <= s.len(),
    ensures
        dec_val(s.take(i)) <= dec_val(s),
    decreases s.len() - i,
{
    if i < s.len() {
        lemma_dec_val_prefix(s, i + 1);
        assert(s.take(i + 1).drop_last() =~= s.take(i));
    } else {
        assert(s.take(i) =~= s);
    }
}

/// Value of the decimal digits `d[from..]`-free string `d`, or `None` when a
/// character is not a digit, the string is empty or the value exceeds
/// `u64::MAX`.
fn digits_u64(d: &str) -> (r: Option<u64>)
    ensures
        match r {
            Some(v) => d@.len() > 0 && all_digits(d@) && dec_val(d@) == v,
            None => !(d@.len() > 0 && all_digits(d@) && dec_val(d@) <= u64::MAX),
        },
{
    let v = chars_of(d);
    let n = v.len();
    if n == 0 {
        return None;
    }
    let mut acc: u64 = 0;
    let mut i: usize = 0;
    assert(d@.take(0) =~= Seq::<char>::empty());
    while i < n
        invariant
            i <= n,
            n == d@.len(),
            v@ == d@,
            forall|j: int| 0 <= j < i ==> is_digit(d@[j]),
            acc == dec_val(d@.take(i as int)),
        decreases n - i,
    {
        let c = v[i];
        assert(d@.take(i + 1).drop_last() =~= d@.take(i as int));
        if !('0' <= c && c <= '9') {
            return None;
        }
        let dv = (c as u32 - '0' as u32) as u64;
        if acc > (u64::MAX - dv) / 10 {
            proof {
                assert(dec_val(d@.take(i + 1)) == acc * 10 + dv);
                assert(acc * 10 + dv > u64::MAX) by (nonlinear_arith)
                    requires acc > (u64::MAX - dv) / 10, dv <= 9;
                lemma_dec_val_prefix(d@, i + 1);
            }
            return None;
        }
        assert(acc * 10 + dv <= u64::MAX) by (nonlinear_arith)
            requires acc <= (u64::MAX - dv) / 10, dv <= 9;
        acc = acc * 10 + dv;
        i = i + 1;
    }
    assert(d@.take(n as int) =~= d@);
    Some(acc)
}

/// `str::parse::<u64>()`.
pub fn parse_u64(s: &str) -> (r: Option<u64>)
    ensures
        match r {
            Some(v) => parse_unsigned(s@, u64::MAX as nat) == Some(v as nat),
            None => parse_unsigned(s@, u64::MAX as nat) is None,
        },
{
    let n = s.unicode_len();
    let d = if n > 0 && s.get_char(0) == '+' { s.substring_char(1, n) } else { s };
    assert(d@ == unsigned_digits(s@)) by {
        if n > 0 && s@[0] == '+' {
            assert(s@.subrange(1, n as int) =~= s@.drop_first());
        }
    }
    digits_u64(d)
}

/// `str::parse::<u32>()`.
pub fn parse_u32(s: &str) -> (r: Option<u32>)
    ensures
        match r {
            Some(v) => parse_unsigned(s@, u32::MAX as nat) == Some(v as nat),
            None => parse_unsigned(s@, u32::MAX as nat) is None,
        },
{
    match parse_u64(s) {
        Some(v) => if v <= u32::MAX as u64 { Some(v as u32) } else { None },
        None => None,
    }
}

/// `str::parse::<usize>()`.
pub fn parse_usize(s: &str) -> (r: Option<usize>)
    ensures
        match r {
            Some(v) => parse_unsigned(s@, usize::MAX as nat) == Some(v as nat),
            None => parse_unsigned(s@, usize::MAX as nat) is None,
        },
{
    match parse_u64(s) {
        Some(v) => if v <= usize::MAX as u64 { Some(v as usize) } else { None },
        None => None,
    }
}

/// `str::parse::<i32>()`.
pub fn parse_i32(s: &str) -> (r: Option<i32>)
    ensures
        match r {
            Some(v) => parse_signed(s@, i32::MIN as int, i32::MAX as int) == Some(v as int),
            None => parse_signed(s@, i32::MIN as int, i32::MAX as int) is None,
        },
{
    let n = s.unicode_len();
    if n > 0 && s.get_char(0) == '-' {
        let d = s.substring_char(1, n);
        assert(d@ =~= s@.drop_first());
        match digits_u64(d) {
            Some(v) => if v <= 2147483648 { Some((0i64 - v as i64) as i32) } else { None },
            None => None,
        }
    } else {
        match parse_u64(s) {
            Some(v) => if v <= i32::MAX as u64 { Some(v as i32) } else { None },
            None => None,
        }
    }
}

/// Whether `s` begins with `p`.
pub open spec fn starts_with_spec(s: Seq<char>, p: Seq<char>) -> bool {
    p.len() <= s.len() && s.subrange(0, p.len() as int) == p
}

/// `str::starts_with` with a string pattern.
pub fn starts_with(s: &str, p: &str) -> (r: bool)
    ensures
        r == starts_with_spec(s@, p@),
{
    let n = s.unicode_len();
    let m = p.unicode_len();
    if m > n {
        return false;
    }
    str_eq(s.substring_char(0, m), p)
}

/// `s` with every occurrence of the non-empty pattern `p` removed, scanning
/// left to right as `str::replace(p, "")` does.
pub open spec fn remove_all(s: Seq<char>, p: Seq<char>) -> Seq<char>
    decreases s.len(),
{
    if p.len() == 0 {
        s
    } else {
        match find_spec(s, p) {
            Some(k) => if 0 <= k && k + p.len() <= s.len() {
                s.subrange(0, k) + remove_all(s.subrange(k + p.len(), s.len() as int), p)
            } else {
                s
            },
            None => s,
        }
    }
}

/// `str::replace(p, "")`: removes every occurrence of `p`.
pub fn remove_all_str(s: &str, p: &str) -> (r: String)
    requires
        p@.len() > 0,
    ensures
        r@ == remove_all(s@, p@),
{
    let mut out = String::new();
    let mut rest: &str = s;
    let m = p.unicode_len();
    loop
        invariant
            m == p@.len(),
            m > 0,
            out@ + remove_all(rest@, p@) == remove_all(s@, p@),
        decreases rest@.len(),
    {
        match find_str(rest, p) {
            Some(k) => {
                let n = rest.unicode_len();
                let head = rest.substring_char(0, k);
                let tail = rest.substring_char(k + m, n);
                let ghost old_out = out@;
                assert(remove_all(rest@, p@) == head@ + remove_all(tail@, p@));
                out.append(head);
                assert(out@ + remove_all(tail@, p@) =~= old_out + remove_all(rest@, p@));
                rest = tail;
            },
            None => {
                assert(remove_all(rest@, p@) == rest@);
                out.append(rest);
                return out;
            },
        }
    }
}

} // verus!
