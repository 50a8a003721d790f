use vstd::prelude::*;
use crate::common::text::chars_of;

verus! {

/// An ASCII decimal digit.
pub open spec fn is_digit(c: char) -> bool {
    '0' <= c && c <= '9'
}

/// The value of a decimal digit.
pub open spec fn digit_value(c: char) -> int {
    (c as int) - ('0' as int)
}

/// The digit character for `d` in `0..10`.
pub open spec fn digit_char(d: int) -> char {
    seq!['0', '1', '2', '3', '4', '5', '6', '7', '8', '9'][d]
}

pub open spec fn all_digits(s: Seq<char>) -> bool {
    forall|i: int| 0 <= i < s.len() ==> is_digit(#[trigger] s[i])
}

/// The number that a string of decimal digits denotes.
pub open spec fn decimal_value(s: Seq<char>) -> int
    decreases s.len(),
{
    if s.len() == 0 {
        0
    } else {
        decimal_value(s.drop_last()) * 10 + digit_value(s.last())
    }
}

/// The shortest decimal numeral of `n`.
pub open spec fn decimal_repr(n: nat) -> Seq<char>
    decreases n,
{
    if n < 10 {
        seq![digit_char(n as int)]
    } else {
        decimal_repr(n / 10) + seq![digit_char((n % 10) as int)]
    }
}

/// The numeral of `v` as `i32::to_string` writes it: a minus sign for negatives, then digits.
pub open spec fn i32_repr(v: i32) -> Seq<char> {
    if v < 0 {
        seq!['-'] + decimal_repr((-v) as nat)
    } else {
        decimal_repr(v as nat)
    }
}

/// What `str::parse::<i32>` gives: an optional `+` or `-`, then one or more
/// decimal digits whose value lies in the range of `i32`.
pub open spec fn parse_i32_spec(s: Seq<char>) -> Option<i32> {
    let neg = s.len() > 0 && s[0] == '-';
    let body = if s.len() > 0 && (s[0] == '-' || s[0] == '+') { s.skip(1) } else { s };
    if body.len() == 0 || !all_digits(body) {
        None
    } else {
        let v = if neg { -decimal_value(body) } else { decimal_value(body) };
        if i32::MIN <= v <= i32::MAX { Some(v as i32) } else { None }
    }
}

/// What `str::parse::<usize>` gives: an optional `+`, then one or more decimal
/// digits whose value fits in a `usize`.
pub open spec fn parse_usize_spec(s: Seq<char>) -> Option<usize> {
    let body = if s.len() > 0 && s[0] == '+' { s.skip(1) } else { s };
    if body.len() == 0 || !all_digits(body) {
        None
    } else if decimal_value(body) <= usize::MAX {
        Some(decimal_value(body) as usize)
    } else {
        None
    }
}

proof fn lemma_decimal_value_nonneg(s: Seq<char>)
    requires
        all_digits(s),
    ensures
        decimal_value(s) >= 0,
    decreases s.len(),
{
    if s.len() > 0 {
        lemma_decimal_value_nonneg(s.drop_last());
    }
}

/// Appending digits never makes the value smaller.
proof fn lemma_decimal_value_prefix(s: Seq<char>, k: int)
    requires
        all_digits(s),
        0 <= k <= s.len(),
    ensures
        decimal_value(s.take(k)) <= decimal_value(s),
    decreases s.len() - k,
{
    if k < s.len() {
        lemma_decimal_value_prefix(s, k + 1);
        assert(s.take(k + 1).drop_last() =~= s.take(k));
        lemma_decimal_value_nonneg(s.take(k));
    } else {
        assert(s.take(k) =~= s);
    }
}

/// Reads the optional sign and the digits of `v` from position `start`, stopping
/// early once the value exceeds `bound`.
/// Returns the value when every remaining character is a digit and the value is at most `bound`.
fn read_digits(v: &Vec<char>, start: usize, bound: u128) -> (r: Option<u128>)
    requires
        start <= v.len(),
        bound <= 0xffff_ffff_ffff_ffffu128,
    ensures
        ({
            let body = v@.skip(start as int);
            match r {
                Some(x) => all_digits(body) && x == decimal_value(body) && x <= bound,
                None => !all_digits(body) || decimal_value(body) > bound,
            }
        }),
{
    let ghost body = v@.skip(start as int);
    let mut acc: u128 = 0;
    let mut i: usize = start;
    assert(body.take(0) =~= Seq::<char>::empty());
    while i < v.len()
        invariant
            start <= i <= v.len(),
            body == v@.skip(start as int),
            bound <= 0xffff_ffff_ffff_ffffu128,
            all_digits(body.take(i - start)),
            acc == decimal_value(body.take(i - start)),
            acc <= bound,
        decreases v.len() - i,
    {
        let c = v[i];
        assert(c == body[i - start]);
        if !(c >= '0' && c <= '9') {
            return None;
        }
        let d = (c as u32 - '0' as u32) as u128;
        assert(body.take(i - start + 1).drop_last() =~= body.take(i - start));
        acc = acc * 10 + d;
        i = i + 1;
        if acc > bound {
            proof {
                if all_digits(body) {
                    lemma_decimal_value_prefix(body, i - start);
                }
            }
            return None;
        }
    }
    assert(body.take(i - start) =~= body);
    Some(acc)
}

/// `s` parsed as an `i32` the way `str::parse::<i32>` does; `None` where that fails.
pub fn parse_i32(s: &str) -> (r: Option<i32>)
    ensures
        r == parse_i32_spec(s@),
{
    let v = chars_of(s);
    let mut start: usize = 0;
    let mut neg = false;
    if v.len() > 0 && (v[0] == '-' || v[0] == '+') {
        neg = v[0] == '-';
        start = 1;
    }
    assert(start == 0 ==> v@.skip(0) =~= v@);
    if start == v.len() {
        return None;
    }
    match read_digits(&v, start, 2147483648) {
        None => None,
        Some(x) => {
            if neg {
                Some((0 - x as i64) as i32)
            } else if x <= 2147483647 {
                Some(x as i32)
            } else {
                None
            }
        },
    }
}

/// `s` parsed as a `usize` the way `str::parse::<usize>` does; `None` where that fails.
pub fn parse_usize(s: &str) -> (r: Option<usize>)
    ensures
        r == parse_usize_spec(s@),
{
    let v = chars_of(s);
    let mut start: usize = 0;
    if v.len() > 0 && v[0] == '+' {
        start = 1;
    }
    assert(start == 0 ==> v@.skip(0) =~= v@);
    if start == v.len() {
        return None;
    }
    match read_digits(&v, start, usize::MAX as u128) {
        None => {
            None
        },
        Some(x) => {
            Some(x as usize)
        },
    }
}

/// The one-character numeral of the digit `d`.
fn digit_str(d: u64) -> (r: &'static str)
    requires
        d < 10,
    ensures
        r@ == seq![digit_char(d as int)],
{
    proof {
        reveal_strlit("0");
        reveal_strlit("1");
        reveal_strlit("2");
        reveal_strlit("3");
        reveal_strlit("4");
        reveal_strlit("5");
        reveal_strlit("6");
        reveal_strlit("7");
        reveal_strlit("8");
        reveal_strlit("9");
    }
    match d {
        0 => "0",
        1 => "1",
        2 => "2",
        3 => "3",
        4 => "4",
        5 => "5",
        6 => "6",
        7 => "7",
        8 => "8",
        _ => "9",
    }
}

fn push_decimal(out: &mut String, n: u64)
    ensures
        final(out)@ == old(out)@ + decimal_repr(n as nat),
    decreases n,
{
    if n >= 10 {
        push_decimal(out, n / 10);
    }
    out.append(digit_str(n % 10));
    assert(out@ =~= old(out)@ + decimal_repr(n as nat));
}

/// The decimal numeral of `n`, as `usize::to_string` writes it.
pub fn usize_to_string(n: usize) -> (r: String)
    ensures
        r@ == decimal_repr(n as nat),
{
    let mut out = String::new();
    push_decimal(&mut out, n as u64);
    assert(out@ =~= decimal_repr(n as nat));
    out
}

/// The decimal numeral of `v`, as `i32::to_string` writes it.
pub fn i32_to_string(v: i32) -> (r: String)
    ensures
        r@ == i32_repr(v),
{
    let mut out = String::new();
    if v < 0 {
        proof {
            reveal_strlit("-");
        }
        out.append("-");
        push_decimal(&mut out, (0 - v as i64) as u64);
    } else {
        push_decimal(&mut out, v as u64);
    }
    assert(out@ =~= i32_repr(v));
    out
}

proof fn lemma_digit_char(d: int)
    requires
        0 <= d < 10,
    ensures
        is_digit(digit_char(d)),
        digit_value(digit_char(d)) == d,
{
    if d == 0 { assert(digit_char(d) == '0'); }
    else if d == 1 { assert(digit_char(d) == '1'); }
    else if d == 2 { assert(digit_char(d) == '2'); }
    else if d == 3 { assert(digit_char(d) == '3'); }
    else if d == 4 { assert(digit_char(d) == '4'); }
    else if d == 5 { assert(digit_char(d) == '5'); }
    else if d == 6 { assert(digit_char(d) == '6'); }
    else if d == 7 { assert(digit_char(d) == '7'); }
    else if d == 8 { assert(digit_char(d) == '8'); }
    else { assert(digit_char(d) == '9'); }
}

proof fn lemma_decimal_repr_roundtrip(n: nat)
    ensures
        all_digits(decimal_repr(n)),
        decimal_value(decimal_repr(n)) == n,
        decimal_repr(n).len() > 0,
    decreases n,
{
    let r = decimal_repr(n);
    if n >= 10 {
        lemma_decimal_repr_roundtrip(n / 10);
        lemma_digit_char((n % 10) as int);
        assert(r.drop_last() =~= decimal_repr(n / 10));
        vstd::arithmetic::div_mod::lemma_fundamental_div_mod(n as int, 10);
        assert(r.last() == digit_char((n % 10) as int));
        assert(decimal_value(r) == decimal_value(r.drop_last()) * 10 + digit_value(r.last()));
    } else {
        lemma_digit_char(n as int);
        assert(r.drop_last() =~= Seq::<char>::empty());
        assert(r.last() == digit_char(n as int));
        assert(decimal_value(r) == decimal_value(r.drop_last()) * 10 + digit_value(r.last()));
    }
    assert forall|i: int| 0 <= i < r.len() implies is_digit(#[trigger] r[i]) by {
        if n >= 10 && i < r.len() - 1 {
            assert(r[i] == decimal_repr(n / 10)[i]);
        }
    }
}

/// Reading back the numeral that `usize_to_string` writes gives the same number.
pub proof fn law_usize_parse_after_print(n: usize)
    ensures
        parse_usize_spec(decimal_repr(n as nat)) == Some(n),
{
    lemma_decimal_repr_roundtrip(n as nat);
    let s = decimal_repr(n as nat);
    assert(is_digit(s[0]));
}

/// Reading back the numeral that `i32_to_string` writes gives the same number.
pub proof fn law_i32_parse_after_print(v: i32)
    ensures
        parse_i32_spec(i32_repr(v)) == Some(v),
{
    if v < 0 {
        let m = (-v) as nat;
        lemma_decimal_repr_roundtrip(m);
        let s = i32_repr(v);
        assert(s.skip(1) =~= decimal_repr(m));
    } else {
        lemma_decimal_repr_roundtrip(v as nat);
        let s = decimal_repr(v as nat);
        assert(is_digit(s[0]));
    }
}

} // verus!
