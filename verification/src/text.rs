//! Decimal numerals: writing numbers and reading them.

use vstd::prelude::*;
use vstd::string::*;

verus! {

/// The character that writes the digit `d`.
pub open spec fn digit_char(d: nat) -> char
    recommends
        d < 10,
{
    if d == 0 {
        '0'
    } else if d == 1 {
        '1'
    } else if d == 2 {
        '2'
    } else if d == 3 {
        '3'
    } else if d == 4 {
        '4'
    } else if d == 5 {
        '5'
    } else if d == 6 {
        '6'
    } else if d == 7 {
        '7'
    } else if d == 8 {
        '8'
    } else {
        '9'
    }
}

/// The decimal numeral of `n`, without sign or leading zeros.
pub open spec fn decimal_text(n: nat) -> Seq<char>
    decreases n,
{
    if n < 10 {
        seq![digit_char(n)]
    } else {
        decimal_text(n / 10).push(digit_char(n % 10))
    }
}

fn digit_str(d: u64) -> (s: &'static str)
    requires
        d < 10,
    ensures
        s@ == seq![digit_char(d as nat)],
{
    proof {
        reveal_strlit("0");
        reveal_strlit("1");
        reveal_strlit("2");
        reveal_strlit("3");
        reveal_strlit("4");
        reveal_strlit("5");
        reveal_strlit("6");
        reveal_strlit("7");
        reveal_strlit("8");
        reveal_strlit("9");
    }
    let s = if d == 0 {
        "0"
    } else if d == 1 {
        "1"
    } else if d == 2 {
        "2"
    } else if d == 3 {
        "3"
    } else if d == 4 {
        "4"
    } else if d == 5 {
        "5"
    } else if d == 6 {
        "6"
    } else if d == 7 {
        "7"
    } else if d == 8 {
        "8"
    } else {
        "9"
    };
    assert(s@ =~= seq![digit_char(d as nat)]);
    s
}

/// Writes `n` in decimal.
pub fn decimal_string(n: u64) -> (s: String)
    ensures
        s@ == decimal_text(n as nat),
    decreases n,
{
    if n < 10 {
        digit_str(n).to_owned()
    } else {
        let s = decimal_string(n / 10).concat(digit_str(n % 10));
        assert(s@ =~= decimal_text((n / 10) as nat).push(digit_char((n % 10) as nat)));
        s
    }
}

/// Joins two pieces of text.
pub fn concat_str(a: &str, b: &str) -> (s: String)
    ensures
        s@ == a@ + b@,
{
    a.to_owned().concat(b)
}

pub open spec fn is_decimal_digit(c: char) -> bool {
    '0' <= c <= '9'
}

/// The number a digit character stands for.
pub open spec fn digit_of(c: char) -> nat
    recommends
        is_decimal_digit(c),
{
    (c as u32 - '0' as u32) as nat
}

pub open spec fn all_decimal_digits(s: Seq<char>) -> bool {
    forall|i: int| 0 <= i < s.len() ==> is_decimal_digit(#[trigger] s[i])
}

/// The number that a run of digits writes, most significant digit first.
pub open spec fn decimal_value(s: Seq<char>) -> nat
    decreases s.len(),
{
    if s.len() == 0 {
        0
    } else {
        decimal_value(s.drop_last()) * 10 + digit_of(s.last())
    }
}

/// The value of an unsigned numeral: `s` must be one or more digits that write
/// a number no greater than `limit`.
pub open spec fn parsed_magnitude(s: Seq<char>, limit: nat) -> Option<nat> {
    if s.len() > 0 && all_decimal_digits(s) && decimal_value(s) <= limit {
        Some(decimal_value(s))
    } else {
        None
    }
}

/// What `s` reads as a `u32`: an optional `+`, then digits, within range.
pub open spec fn parsed_u32(s: Seq<char>) -> Option<u32> {
    let digits = if s.len() > 0 && s[0] == '+' {
        s.skip(1)
    } else {
        s
    };
    match parsed_magnitude(digits, 0xffff_ffff) {
        Some(v) => Some(v as u32),
        None => None,
    }
}

/// What `s` reads as an `i16`: an optional `+` or `-`, then digits, within
/// range.
pub open spec fn parsed_i16(s: Seq<char>) -> Option<i16> {
    if s.len() > 0 && s[0] == '-' {
        match parsed_magnitude(s.skip(1), 32768) {
            Some(v) => Some((0 - v) as i16),
            None => None,
        }
    } else {
        let digits = if s.len() > 0 && s[0] == '+' {
            s.skip(1)
        } else {
            s
        };
        match parsed_magnitude(digits, 32767) {
            Some(v) => Some(v as i16),
            None => None,
        }
    }
}

/// Reading more digits never makes the number smaller.
proof fn lemma_decimal_value_prefix(s: Seq<char>, k: int)
    requires
        0 <= k <= s.len(),
    ensures
        decimal_value(s.take(k)) <= decimal_value(s),
    decreases s.len(),
{
    if k < s.len() {
        lemma_decimal_value_prefix(s.drop_last(), k);
        assert(s.drop_last().take(k) =~= s.take(k));
    } else {
        assert(s.take(k) =~= s);
    }
}

/// A text with a character outside ASCII has a character after any sign that
/// is no digit.
proof fn lemma_non_ascii_is_no_numeral(s: Seq<char>, from: int)
    requires
        !vstd::utf8::is_ascii_chars(s),
        0 <= from <= 1,
        from == 1 ==> s.len() > 0 && (s[0] == '+' || s[0] == '-'),
    ensures
        from <= s.len(),
        !all_decimal_digits(s.skip(from)),
{
    let i = choose|i: int| 0 <= i < s.len() && !('\0' <= #[trigger] s[i] <= '\u{7f}');
    assert(from <= i);
    assert(s.skip(from)[i - from] == s[i]);
}

/// Reads the digits of `s` from position `start` on.
fn parse_magnitude(s: &str, start: usize, limit: u64) -> (r: Option<u64>)
    requires
        s.is_ascii(),
        start <= s@.len(),
        limit <= 0xffff_ffff,
    ensures
        match r {
            Some(v) => parsed_magnitude(s@.skip(start as int), limit as nat) == Some(v as nat),
            None => parsed_magnitude(s@.skip(start as int), limit as nat) is None,
        },
{
    broadcast use is_ascii_spec_bytes;

    let bytes = s.as_bytes();
    let n = bytes.len();
    let ghost digits = s@.skip(start as int);
    let mut acc: u64 = 0;
    let mut i: usize = start;
    while i < n
        invariant
            s.is_ascii(),
            bytes@ == s.spec_bytes(),
            n == s@.len(),
            start <= i <= n,
            digits == s@.skip(start as int),
            all_decimal_digits(digits.take(i - start)),
            acc == decimal_value(digits.take(i - start)),
            acc <= limit <= 0xffff_ffff,
        decreases n - i,
    {
        let b = bytes[i];
        assert(b == s@[i as int] as u8);
        assert(digits[i - start] == s@[i as int]);
        if b < 48 || b > 57 {
            assert(!is_decimal_digit(digits[i - start]));
            return None;
        }
        let d: u64 = (b - 48) as u64;
        proof {
            assert(digits.take(i - start + 1).drop_last() =~= digits.take(i - start));
            assert(digits.take(i - start + 1).last() == digits[i - start]);
            assert(d == digit_of(digits[i - start]));
        }
        let next = acc * 10 + d;
        if next > limit {
            proof {
                lemma_decimal_value_prefix(digits, i - start + 1);
            }
            return None;
        }
        acc = next;
        i = i + 1;
    }
    proof {
        assert(digits.take(n - start) =~= digits);
    }
    if n == start {
        None
    } else {
        Some(acc)
    }
}

/// Reads an unsigned 32-bit number written in decimal.
pub fn parse_u32(s: &str) -> (r: Option<u32>)
    ensures
        r == parsed_u32(s@),
{
    broadcast use is_ascii_spec_bytes;

    if !s.is_ascii() {
        proof {
            let from: int = if s@.len() > 0 && s@[0] == '+' {
                1
            } else {
                0
            };
            lemma_non_ascii_is_no_numeral(s@, from);
        }
        return None;
    }
    let bytes = s.as_bytes();
    let start: usize = if bytes.len() > 0 && bytes[0] == 43 {
        1
    } else {
        0
    };
    assert(s@.skip(0) =~= s@);
    match parse_magnitude(s, start, 0xffff_ffff) {
        Some(v) => Some(v as u32),
        None => None,
    }
}

/// Reads a signed 16-bit number written in decimal.
pub fn parse_i16(s: &str) -> (r: Option<i16>)
    ensures
        r == parsed_i16(s@),
{
    broadcast use is_ascii_spec_bytes;

    if !s.is_ascii() {
        proof {
            let from: int = if s@.len() > 0 && (s@[0] == '+' || s@[0] == '-') {
                1
            } else {
                0
            };
            lemma_non_ascii_is_no_numeral(s@, from);
        }
        return None;
    }
    let bytes = s.as_bytes();
    assert(s@.skip(0) =~= s@);
    if bytes.len() > 0 && bytes[0] == 45 {
        match parse_magnitude(s, 1, 32768) {
            Some(v) => Some((0 - (v as i32)) as i16),
            None => None,
        }
    } else {
        let start: usize = if bytes.len() > 0 && bytes[0] == 43 {
            1
        } else {
            0
        };
        match parse_magnitude(s, start, 32767) {
            Some(v) => Some(v as i16),
            None => None,
        }
    }
}

} // verus!
