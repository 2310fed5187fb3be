//! Decimal text for port numbers, both ways.
use vstd::prelude::*;
use crate::text::string_from_chars;

verus! {

pub open spec fn digit_char(d: nat) -> char {
    if d == 0 { '0' }
    else if d == 1 { '1' }
    else if d == 2 { '2' }
    else if d == 3 { '3' }
    else if d == 4 { '4' }
    else if d == 5 { '5' }
    else if d == 6 { '6' }
    else if d == 7 { '7' }
    else if d == 8 { '8' }
    else { '9' }
}

pub open spec fn is_digit(c: char) -> bool {
    '0' <= c && c <= '9'
}

pub open spec fn digit_value(c: char) -> nat {
    (c as u32 - '0' as u32) as nat
}

/// The decimal digits of `n`, most significant first, without leading zeros.
pub open spec fn decimal_spec(n: nat) -> Seq<char>
    decreases n,
{
    if n < 10 {
        seq![digit_char(n)]
    } else {
        decimal_spec(n / 10).push(digit_char(n % 10))
    }
}

fn digit(d: u64) -> (c: char)
    requires
        d < 10,
    ensures
        c == digit_char(d as nat),
{
    if d == 0 { '0' }
    else if d == 1 { '1' }
    else if d == 2 { '2' }
    else if d == 3 { '3' }
    else if d == 4 { '4' }
    else if d == 5 { '5' }
    else if d == 6 { '6' }
    else if d == 7 { '7' }
    else if d == 8 { '8' }
    else { '9' }
}

fn push_decimal(n: u64, out: &mut Vec<char>)
    ensures
        final(out)@ == old(out)@ + decimal_spec(n as nat),
    decreases n,
{
    if n >= 10 {
        push_decimal(n / 10, out);
    }
    out.push(digit(n % 10));
    proof {
        if n >= 10 {
            assert(old(out)@ + decimal_spec(n as nat) =~= old(out)@ + decimal_spec((n / 10) as nat) + seq![digit_char((n % 10) as nat)]);
        }
    }
}

/// The decimal text of a port, as `u16::to_string` writes it.
pub fn u16_to_string(n: u16) -> (s: String)
    ensures
        s@ == decimal_spec(n as nat),
{
    let mut chars: Vec<char> = Vec::new();
    push_decimal(n as u64, &mut chars);
    assert(chars@ =~= decimal_spec(n as nat));
    string_from_chars(chars.as_slice())
}

/// The decimal text of a count, as `usize::to_string` writes it.
pub fn usize_to_string(n: usize) -> (s: String)
    ensures
        s@ == decimal_spec(n as nat),
{
    let mut chars: Vec<char> = Vec::new();
    push_decimal(n as u64, &mut chars);
    assert(chars@ =~= decimal_spec(n as nat));
    string_from_chars(chars.as_slice())
}

/// Every character is a decimal digit.
pub open spec fn all_digits(s: Seq<char>) -> bool {
    forall|i: int| 0 <= i < s.len() ==> is_digit(#[trigger] s[i])
}

/// The number a run of decimal digits spells.
pub open spec fn digits_value(s: Seq<char>) -> nat
    decreases s.len(),
{
    if s.len() == 0 {
        0
    } else {
        digits_value(s.drop_last()) * 10 + digit_value(s.last())
    }
}

/// What `str::parse::<u16>` gives, as its documentation describes it for an unsigned type: an
/// optional `+`, then one or more decimal digits, spelling a number that fits in a `u16`.
pub open spec fn parse_u16_spec(s: Seq<char>) -> Option<u16> {
    let body = if s.len() > 0 && s[0] == '+' { s.drop_first() } else { s };
    if body.len() > 0 && all_digits(body) && digits_value(body) <= 65535 {
        Some(digits_value(body) as u16)
    } else {
        None
    }
}

proof fn lemma_digits_value_grows(s: Seq<char>, i: int)
    requires
        0 <= i <= s.len(),
    ensures
        digits_value(s.subrange(0, i)) <= digits_value(s),
    decreases s.len() - i,
{
    if i < s.len() {
        lemma_digits_value_grows(s.drop_last(), i);
        assert(s.drop_last().subrange(0, i) =~= s.subrange(0, i));
    } else {
        assert(s.subrange(0, i) =~= s);
    }
}

/// A port number written in decimal, as `str::parse::<u16>` reads it.
pub fn parse_u16(s: &str) -> (r: Option<u16>)
    ensures
        r == parse_u16_spec(s@),
{
    let chars = crate::text::str_chars(s);
    let start: usize = if chars.len() > 0 && chars[0] == '+' { 1 } else { 0 };
    let ghost body = if s@.len() > 0 && s@[0] == '+' { s@.drop_first() } else { s@ };
    assert(body =~= chars@.subrange(start as int, chars@.len() as int));
    if start >= chars.len() {
        return None;
    }
    let mut value: u32 = 0;
    let mut i: usize = start;
    while i < chars.len()
        invariant
            start <= i <= chars@.len(),
            chars@ == s@,
            body == chars@.subrange(start as int, chars@.len() as int),
            body == (if s@.len() > 0 && s@[0] == '+' { s@.drop_first() } else { s@ }),
            all_digits(chars@.subrange(start as int, i as int)),
            value == digits_value(chars@.subrange(start as int, i as int)),
            value <= 65535,
        decreases chars@.len() - i,
    {
        let c = chars[i];
        let ghost prefix = chars@.subrange(start as int, i as int);
        let ghost next = chars@.subrange(start as int, i + 1);
        assert(next.drop_last() =~= prefix);
        assert(next.last() == c);
        if !('0' <= c && c <= '9') {
            assert(body[i - start] == c);
            return None;
        }
        let d = (c as u32) - ('0' as u32);
        let next_value = value * 10 + d;
        if next_value > 65535 {
            proof {
                lemma_digits_value_grows(body, i + 1 - start);
                assert(body.subrange(0, i + 1 - start) =~= next);
            }
            return None;
        }
        value = next_value;
        i = i + 1;
    }
    Some(value as u16)
}

} // verus!
