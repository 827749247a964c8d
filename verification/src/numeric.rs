//! Decimal text of integers: parsing as `str::parse` does and formatting as
//! `to_string` does, with the round trip proved.
use vstd::prelude::*;
use crate::text::chars_of;
use vstd::string::*;

verus! {

/// `c` is an ASCII decimal digit.
pub open spec fn is_digit(c: char) -> bool {
    '0' <= c && c <= '9'
}

/// The value of the ASCII digit `c`.
pub open spec fn digit_value(c: char) -> nat {
    ((c as u32) - ('0' as u32)) as nat
}

/// The ASCII digit whose value is `d` (for `d < 10`).
pub open spec fn digit_char(d: nat) -> char {
    ((d + ('0' as u32)) as u32) as char
}

pub open spec fn all_digits(s: Seq<char>) -> bool {
    forall|i: int| 0 <= i < s.len() ==> is_digit(#[trigger] s[i])
}

/// The number that the digits `s` denote.
pub open spec fn digits_value(s: Seq<char>) -> nat
    decreases s.len(),
{
    if s.len() == 0 {
        0
    } else {
        digits_value(s.drop_last()) * 10 + digit_value(s.last())
    }
}

/// The shortest decimal digits of `n`.
pub open spec fn decimal_digits(n: nat) -> Seq<char>
    decreases n,
{
    if n < 10 {
        seq![digit_char(n)]
    } else {
        decimal_digits(n / 10).push(digit_char(n % 10))
    }
}

/// The decimal text of the integer `n` (with a `-` for negatives).
pub open spec fn signed_decimal(n: int) -> Seq<char> {
    if n < 0 {
        seq!['-'] + decimal_digits((-n) as nat)
    } else {
        decimal_digits(n as nat)
    }
}

/// What the text of an unsigned integer denotes when `parse` accepts it:
/// an optional `+`, then one or more ASCII digits.
pub open spec fn parse_unsigned(s: Seq<char>) -> Option<nat> {
    let d = if s.len() > 0 && s[0] == '+' { s.drop_first() } else { s };
    if d.len() > 0 && all_digits(d) {
        Some(digits_value(d))
    } else {
        None
    }
}

/// What the text of a signed integer denotes when `parse` accepts it:
/// an optional `+` or `-`, then one or more ASCII digits.
pub open spec fn parse_signed(s: Seq<char>) -> Option<int> {
    if s.len() > 0 && s[0] == '-' {
        let d = s.drop_first();
        if d.len() > 0 && all_digits(d) {
            Some(-(digits_value(d) as int))
        } else {
            None
        }
    } else {
        match parse_unsigned(s) {
            Some(v) => Some(v as int),
            None => None,
        }
    }
}

/// `str::parse::<u32>`.
pub open spec fn parse_u32_spec(s: Seq<char>) -> Option<u32> {
    match parse_unsigned(s) {
        Some(v) => if v <= u32::MAX { Some(v as u32) } else { None },
        None => None,
    }
}

/// `str::parse::<u64>`.
pub open spec fn parse_u64_spec(s: Seq<char>) -> Option<u64> {
    match parse_unsigned(s) {
        Some(v) => if v <= u64::MAX { Some(v as u64) } else { None },
        None => None,
    }
}

/// `str::parse::<i64>`.
pub open spec fn parse_i64_spec(s: Seq<char>) -> Option<i64> {
    match parse_signed(s) {
        Some(v) => if i64::MIN <= v <= i64::MAX { Some(v as i64) } else { None },
        None => None,
    }
}

pub proof fn lemma_digits_value_prefix(s: Seq<char>, i: int)
    requires
        0 <= i < s.len(),
    ensures
        digits_value(s.subrange(0, i + 1)) == digits_value(s.subrange(0, i)) * 10 + digit_value(
            s[i],
        ),
{
    assert(s.subrange(0, i + 1).drop_last() =~= s.subrange(0, i));
}

pub proof fn lemma_decimal_digits_props(n: nat)
    ensures
        decimal_digits(n).len() > 0,
        all_digits(decimal_digits(n)),
        digits_value(decimal_digits(n)) == n,
        decimal_digits(n)[0] != '+' && decimal_digits(n)[0] != '-',
    decreases n,
{
    if n < 10 {
        assert(digit_char(n) as u32 == n + 48);
        assert(decimal_digits(n).drop_last() =~= Seq::<char>::empty());
        assert(digits_value(decimal_digits(n)) == digits_value(decimal_digits(n).drop_last()) * 10
            + digit_value(decimal_digits(n).last()));
    } else {
        assert(digit_char(n % 10) as u32 == n % 10 + 48);
        lemma_decimal_digits_props(n / 10);
        let s = decimal_digits(n);
        assert(s.drop_last() =~= decimal_digits(n / 10));
        assert(s.last() == digit_char(n % 10));
        assert(digits_value(s) == digits_value(s.drop_last()) * 10 + digit_value(s.last()));
        assert((n / 10) * 10 + n % 10 == n);
        assert forall|i: int| 0 <= i < s.len() implies is_digit(#[trigger] s[i]) by {
            if i < s.len() - 1 {
                assert(s[i] == decimal_digits(n / 10)[i]);
            }
        }
    }
}

/// Formatting then parsing an unsigned number gives the number back.
pub proof fn lemma_parse_unsigned_decimal(n: nat)
    ensures
        parse_unsigned(decimal_digits(n)) == Some(n),
{
    lemma_decimal_digits_props(n);
}

/// Formatting then parsing a signed number gives the number back.
pub proof fn lemma_parse_signed_decimal(n: int)
    ensures
        parse_signed(signed_decimal(n)) == Some(n),
{
    if n < 0 {
        let m = (-n) as nat;
        lemma_decimal_digits_props(m);
        assert((seq!['-'] + decimal_digits(m)).drop_first() =~= decimal_digits(m));
    } else {
        lemma_decimal_digits_props(n as nat);
    }
}

/// Decimal text is ASCII, and as long as the number needs.
pub proof fn lemma_decimal_digits_ascii(n: nat, k: nat)
    requires
        k >= 1,
        n < pow10(k),
    ensures
        vstd::utf8::is_ascii_chars(decimal_digits(n)),
        decimal_digits(n).len() <= k,
    decreases n,
{
    if n < 10 {
        assert(digit_char(n) as u32 == n + 48);
    } else {
        assert(k >= 2) by {
            if k == 1 {
                assert(pow10(1) == 10) by { reveal_with_fuel(pow10, 2); }
            }
        }
        assert(pow10(k) == 10 * pow10((k - 1) as nat));
        assert(n / 10 < pow10((k - 1) as nat));
        lemma_decimal_digits_ascii(n / 10, (k - 1) as nat);
        assert(digit_char(n % 10) as u32 == n % 10 + 48);
        let s = decimal_digits(n);
        assert(s.drop_last() =~= decimal_digits(n / 10));
        assert forall|i: int| 0 <= i < s.len() implies '\0' <= #[trigger] s[i] <= '\u{7f}' by {
            if i < s.len() - 1 {
                assert(s[i] == decimal_digits(n / 10)[i]);
            }
        }
    }
}

/// Ten to the power `k`.
pub open spec fn pow10(k: nat) -> nat
    decreases k,
{
    if k == 0 {
        1
    } else {
        10 * pow10((k - 1) as nat)
    }
}

/// The decimal text of a 64-bit signed number is ASCII of at most 20 characters.
pub proof fn lemma_signed_decimal_i64(n: i64)
    ensures
        vstd::utf8::is_ascii_chars(signed_decimal(n as int)),
        signed_decimal(n as int).len() <= 20,
{
    assert(pow10(19) == 10000000000000000000) by {
        reveal_with_fuel(pow10, 20);
    }
    let m: nat = if n < 0 { (-(n as int)) as nat } else { n as nat };
    lemma_decimal_digits_ascii(m, 19);
    if n < 0 {
        let s = seq!['-'] + decimal_digits(m);
        assert forall|i: int| 0 <= i < s.len() implies '\0' <= #[trigger] s[i] <= '\u{7f}' by {
            if i > 0 {
                assert(s[i] == decimal_digits(m)[i - 1]);
            }
        }
    }
}

/// The value of an ASCII digit character.
fn digit_of(c: char) -> (d: u64)
    requires
        is_digit(c),
    ensures
        d == digit_value(c),
        d < 10,
{
    (c as u32 - '0' as u32) as u64
}

/// Parses the digits `v[start..]` into a number no larger than `max`.
fn parse_digits(v: &Vec<char>, start: usize, max: u64) -> (r: Option<u64>)
    requires
        start <= v@.len(),
    ensures
        ({
            let d = v@.subrange(start as int, v@.len() as int);
            match r {
                Some(x) => d.len() > 0 && all_digits(d) && digits_value(d) == x && x <= max,
                None => !(d.len() > 0 && all_digits(d) && digits_value(d) <= max),
            }
        }),
{
    let ghost d = v@.subrange(start as int, v@.len() as int);
    if start == v.len() {
        return None;
    }
    let mut acc: u64 = 0;
    let mut i: usize = start;
    while i < v.len()
        invariant
            start < v@.len(),
            start <= i <= v@.len(),
            d == v@.subrange(start as int, v@.len() as int),
            all_digits(v@.subrange(start as int, i as int)),
            acc == digits_value(v@.subrange(start as int, i as int)),
            acc <= max,
        decreases v@.len() - i,
    {
        let c = v[i];
        if !('0' <= c && c <= '9') {
            assert(d[i - start] == c);
            return None;
        }
        let dv = digit_of(c);
        proof {
            lemma_digits_value_prefix(d, i - start);
            assert(d.subrange(0, i - start + 1) =~= v@.subrange(start as int, i + 1));
            assert(d.subrange(0, i - start) =~= v@.subrange(start as int, i as int));
        }
        let next: u128 = acc as u128 * 10 + dv as u128;
        if next > max as u128 {
            proof {
                lemma_digits_value_monotone(d, i - start + 1);
            }
            return None;
        }
        acc = next as u64;
        i = i + 1;
        proof {
            assert forall|j: int| 0 <= j < v@.subrange(start as int, i as int).len()
                implies is_digit(#[trigger] v@.subrange(start as int, i as int)[j]) by {
                if j < i - 1 - start {
                    assert(v@.subrange(start as int, i as int)[j] == v@.subrange(start as int, i - 1)[j]);
                }
            }
        }
    }
    assert(v@.subrange(start as int, v@.len() as int) =~= d);
    Some(acc)
}

proof fn lemma_digits_value_monotone(d: Seq<char>, k: int)
    requires
        0 <= k <= d.len(),
        all_digits(d.subrange(0, k)),
    ensures
        all_digits(d) ==> digits_value(d.subrange(0, k)) <= digits_value(d),
    decreases d.len() - k,
{
    if k < d.len() && all_digits(d) {
        lemma_digits_value_prefix(d, k);
        assert forall|j: int| 0 <= j < d.subrange(0, k + 1).len()
            implies is_digit(#[trigger] d.subrange(0, k + 1)[j]) by {
            assert(d.subrange(0, k + 1)[j] == d[j]);
        }
        lemma_digits_value_monotone(d, k + 1);
    } else if k == d.len() {
        assert(d.subrange(0, k) =~= d);
    }
}


/// `str::parse::<u32>`.
pub fn parse_u32(s: &str) -> (r: Option<u32>)
    ensures
        r == parse_u32_spec(s@),
{
    let v = chars_of(s);
    let start: usize = if v.len() > 0 && v[0] == '+' { 1 } else { 0 };
    proof {
        if start == 1 {
            assert(s@.drop_first() =~= v@.subrange(1, v@.len() as int));
        } else {
            assert(s@ =~= v@.subrange(0, v@.len() as int));
        }
    }
    match parse_digits(&v, start, 0xffff_ffff) {
        Some(x) => Some(x as u32),
        None => None,
    }
}

/// `str::parse::<u64>`.
pub fn parse_u64(s: &str) -> (r: Option<u64>)
    ensures
        r == parse_u64_spec(s@),
{
    let v = chars_of(s);
    let start: usize = if v.len() > 0 && v[0] == '+' { 1 } else { 0 };
    proof {
        if start == 1 {
            assert(s@.drop_first() =~= v@.subrange(1, v@.len() as int));
        } else {
            assert(s@ =~= v@.subrange(0, v@.len() as int));
        }
    }
    parse_digits(&v, start, 0xffff_ffff_ffff_ffff)
}

/// `str::parse::<i64>`.
pub fn parse_i64(s: &str) -> (r: Option<i64>)
    ensures
        r == parse_i64_spec(s@),
{
    let v = chars_of(s);
    if v.len() > 0 && v[0] == '-' {
        proof {
            assert(s@.drop_first() =~= v@.subrange(1, v@.len() as int));
        }
        match parse_digits(&v, 1, 0x8000_0000_0000_0000) {
            Some(x) => Some((0i128 - x as i128) as i64),
            None => None,
        }
    } else {
        let start: usize = if v.len() > 0 && v[0] == '+' { 1 } else { 0 };
        proof {
            if start == 1 {
                assert(s@.drop_first() =~= v@.subrange(1, v@.len() as int));
            } else {
                assert(s@ =~= v@.subrange(0, v@.len() as int));
            }
        }
        match parse_digits(&v, start, 0x7fff_ffff_ffff_ffff) {
            Some(x) => Some(x as i64),
            None => None,
        }
    }
}

/// The one-character text of the digit `d`.
fn digit_str(d: u64) -> (r: &'static str)
    requires
        d < 10,
    ensures
        r@ == seq![digit_char(d as nat)],
{
    match d {
        0 => {
            proof { reveal_strlit("0"); }
            "0"
        },
        1 => {
            proof { reveal_strlit("1"); }
            "1"
        },
        2 => {
            proof { reveal_strlit("2"); }
            "2"
        },
        3 => {
            proof { reveal_strlit("3"); }
            "3"
        },
        4 => {
            proof { reveal_strlit("4"); }
            "4"
        },
        5 => {
            proof { reveal_strlit("5"); }
            "5"
        },
        6 => {
            proof { reveal_strlit("6"); }
            "6"
        },
        7 => {
            proof { reveal_strlit("7"); }
            "7"
        },
        8 => {
            proof { reveal_strlit("8"); }
            "8"
        },
        _ => {
            proof { reveal_strlit("9"); }
            "9"
        },
    }
}

/// The decimal text of `n` (`n.to_string()`).
pub fn format_u64(n: u64) -> (r: String)
    ensures
        r@ == decimal_digits(n as nat),
    decreases n,
{
    if n < 10 {
        String::from_str(digit_str(n))
    } else {
        let mut s = format_u64(n / 10);
        s.append(digit_str(n % 10));
        s
    }
}

/// The decimal text of `n` (`n.to_string()`).
pub fn format_i64(n: i64) -> (r: String)
    ensures
        r@ == signed_decimal(n as int),
{
    if n < 0 {
        let m: u64 = (0i128 - n as i128) as u64;
        let digits = format_u64(m);
        proof { reveal_strlit("-"); }
        let mut s = String::from_str("-");
        s.append(digits.as_str());
        s
    } else {
        format_u64(n as u64)
    }
}

} // verus!
