//! Small operations on strings: comparison, prefixes, and decimal numbers
//! as block states write them.

use vstd::prelude::*;

verus! {

/// Whether two strings hold the same characters.
///
/// Trusted: this is `==` of `str`, which std documents as equality of the
/// two strings' contents.
#[verifier::external_body]
pub(crate) fn str_eq(a: &str, b: &str) -> (r: bool)
    ensures
        r == (a@ == b@),
{
    a == b
}

/// Whether `s` begins with `prefix`.
pub open spec fn spec_starts_with(s: Seq<char>, prefix: Seq<char>) -> bool {
    prefix.len() <= s.len() && s.subrange(0, prefix.len() as int) == prefix
}

/// `s` without `prefix` at its start, where it begins with it.
pub open spec fn spec_strip_prefix(s: Seq<char>, prefix: Seq<char>) -> Option<Seq<char>> {
    if spec_starts_with(s, prefix) {
        Some(s.subrange(prefix.len() as int, s.len() as int))
    } else {
        None
    }
}

/// `s` without `prefix` at its start, or `None` where `s` does not begin
/// with it.
pub fn strip_prefix<'a>(s: &'a str, prefix: &str) -> (r: Option<&'a str>)
    ensures
        match r {
            Some(rest) => spec_strip_prefix(s@, prefix@) == Some(rest@),
            None => spec_strip_prefix(s@, prefix@) is None,
        },
{
    let len: usize = s.unicode_len();
    let prefix_len: usize = prefix.unicode_len();
    if prefix_len > len {
        return None;
    }
    let head = s.substring_char(0, prefix_len);
    if str_eq(head, prefix) {
        Some(s.substring_char(prefix_len, len))
    } else {
        None
    }
}

/// The character that writes the digit `d`.
pub open spec fn digit_char(d: int) -> char {
    if d == 0 {
        '0'
    } else if d == 1 {
        '1'
    } else if d == 2 {
        '2'
    } else if d == 3 {
        '3'
    } else if d == 4 {
        '4'
    } else if d == 5 {
        '5'
    } else if d == 6 {
        '6'
    } else if d == 7 {
        '7'
    } else if d == 8 {
        '8'
    } else {
        '9'
    }
}

/// The digit that `c` writes, if it writes one.
pub open spec fn digit_value(c: char) -> Option<int> {
    if c == '0' {
        Some(0)
    } else if c == '1' {
        Some(1)
    } else if c == '2' {
        Some(2)
    } else if c == '3' {
        Some(3)
    } else if c == '4' {
        Some(4)
    } else if c == '5' {
        Some(5)
    } else if c == '6' {
        Some(6)
    } else if c == '7' {
        Some(7)
    } else if c == '8' {
        Some(8)
    } else if c == '9' {
        Some(9)
    } else {
        None
    }
}

/// The decimal digits of `n`, without leading zeros.
pub open spec fn spec_digits(n: nat) -> Seq<char>
    decreases n,
{
    if n < 10 {
        seq![digit_char(n as int)]
    } else {
        spec_digits(n / 10).push(digit_char((n % 10) as int))
    }
}

/// The decimal form of `v`: a minus sign for a negative number, then its
/// digits.
pub open spec fn spec_format_int(v: int) -> Seq<char> {
    if v < 0 {
        seq!['-'] + spec_digits((-v) as nat)
    } else {
        spec_digits(v as nat)
    }
}

/// The number that a non-empty run of decimal digits writes; `None` for an
/// empty string and for one that holds anything but digits.
pub open spec fn spec_parse_digits(s: Seq<char>) -> Option<nat>
    decreases s.len(),
{
    if s.len() == 0 {
        None
    } else {
        match digit_value(s.last()) {
            None => None,
            Some(d) => if s.len() == 1 {
                Some(d as nat)
            } else {
                match spec_parse_digits(s.drop_last()) {
                    None => None,
                    Some(v) => Some((v * 10 + d) as nat),
                }
            },
        }
    }
}

/// The integer that `s` writes: an optional `+` or `-`, then digits.
pub open spec fn spec_parse_int(s: Seq<char>) -> Option<int> {
    if s.len() > 0 && s[0] == '-' {
        match spec_parse_digits(s.skip(1)) {
            Some(v) => Some(-(v as int)),
            None => None,
        }
    } else if s.len() > 0 && s[0] == '+' {
        match spec_parse_digits(s.skip(1)) {
            Some(v) => Some(v as int),
            None => None,
        }
    } else {
        match spec_parse_digits(s) {
            Some(v) => Some(v as int),
            None => None,
        }
    }
}

/// The `i8` that `s` writes; `None` where `s` is no integer or the integer
/// does not fit.
pub open spec fn spec_parse_i8(s: Seq<char>) -> Option<i8> {
    match spec_parse_int(s) {
        Some(v) => if -128 <= v <= 127 {
            Some(v as i8)
        } else {
            None
        },
        None => None,
    }
}

/// The `u8` that `s` writes: an optional `+`, then digits; `None` where `s`
/// is no such number or the number does not fit. A minus sign is refused.
pub open spec fn spec_parse_u8(s: Seq<char>) -> Option<u8> {
    if s.len() > 0 && s[0] == '-' {
        None
    } else {
        match spec_parse_int(s) {
            Some(v) => if 0 <= v <= 255 {
                Some(v as u8)
            } else {
                None
            },
            None => None,
        }
    }
}

/// The digits of a number are one digit at least, and all of them digits.
pub proof fn lemma_digits(n: nat)
    ensures
        spec_digits(n).len() >= 1,
        forall|i: int|
            0 <= i < spec_digits(n).len() ==> digit_value(#[trigger] spec_digits(n)[i]) is Some,
        spec_parse_digits(spec_digits(n)) == Some(n),
    decreases n,
{
    if n < 10 {
        assert(digit_value(digit_char(n as int)) == Some(n as int));
    } else {
        lemma_digits(n / 10);
        let front = spec_digits(n / 10);
        let digits = spec_digits(n);
        assert(digit_value(digit_char((n % 10) as int)) == Some((n % 10) as int));
        assert(digits.drop_last() =~= front);
        assert(digits.last() == digit_char((n % 10) as int));
        assert forall|i: int| 0 <= i < digits.len() implies digit_value(
            #[trigger] digits[i],
        ) is Some by {
            if i < front.len() {
                assert(digits[i] == front[i]);
            }
        }
    }
}

/// Reading the decimal form of a number gives the number back.
pub proof fn lemma_parse_format(v: int)
    ensures
        spec_parse_int(spec_format_int(v)) == Some(v),
        v >= 0 ==> spec_format_int(v).len() >= 1 && spec_format_int(v)[0] != '-',
{
    if v < 0 {
        let digits = spec_digits((-v) as nat);
        let text = spec_format_int(v);
        lemma_digits((-v) as nat);
        assert(text[0] == '-');
        assert(text.skip(1) =~= digits);
    } else {
        let text = spec_format_int(v);
        lemma_digits(v as nat);
        assert(digit_value(text[0]) is Some);
    }
}

/// Reading the decimal form of an `i8` or of a `u8` gives it back.
pub proof fn lemma_parse_format_small(d: i8, w: u8)
    ensures
        spec_parse_i8(spec_format_int(d as int)) == Some(d),
        spec_parse_u8(spec_digits(w as nat)) == Some(w),
{
    lemma_parse_format(d as int);
    lemma_parse_format(w as int);
}

/// The string of the one digit `d`.
fn digit_str(d: u8) -> (r: &'static str)
    requires
        d < 10,
    ensures
        r@ == seq![digit_char(d as int)],
{
    proof {
        reveal_strlit("0");
        reveal_strlit("1");
        reveal_strlit("2");
        reveal_strlit("3");
        reveal_strlit("4");
        reveal_strlit("5");
        reveal_strlit("6");
        reveal_strlit("7");
        reveal_strlit("8");
        reveal_strlit("9");
    }
    let r = if d == 0 {
        "0"
    } else if d == 1 {
        "1"
    } else if d == 2 {
        "2"
    } else if d == 3 {
        "3"
    } else if d == 4 {
        "4"
    } else if d == 5 {
        "5"
    } else if d == 6 {
        "6"
    } else if d == 7 {
        "7"
    } else if d == 8 {
        "8"
    } else {
        "9"
    };
    assert(r@ =~= seq![digit_char(d as int)]);
    r
}

/// The decimal form of `n`.
pub fn format_u8(n: u8) -> (r: String)
    ensures
        r@ == spec_format_int(n as int),
        r@ == spec_digits(n as nat),
{
    reveal_with_fuel(spec_digits, 3);
    if n < 10 {
        String::from_str(digit_str(n))
    } else if n < 100 {
        let mut s = String::from_str(digit_str(n / 10));
        s.append(digit_str(n % 10));
        assert(s@ =~= spec_digits(n as nat));
        s
    } else {
        let mut s = String::from_str(digit_str(n / 100));
        s.append(digit_str((n / 10) % 10));
        s.append(digit_str(n % 10));
        assert((n as nat / 10) / 10 == n as nat / 100);
        assert(s@ =~= spec_digits(n as nat));
        s
    }
}

/// The decimal form of `v`.
pub fn format_i8(v: i8) -> (r: String)
    ensures
        r@ == spec_format_int(v as int),
{
    if v < 0 {
        let magnitude: u8 = if v == i8::MIN {
            128
        } else {
            (-v) as u8
        };
        proof {
            reveal_strlit("-");
        }
        let mut s = String::from_str("-");
        let digits = format_u8(magnitude);
        s.append(digits.as_str());
        assert(s@ =~= spec_format_int(v as int));
        s
    } else {
        format_u8(v as u8)
    }
}

/// The digit that `c` writes, if it writes one.
fn digit_of(c: char) -> (r: Option<u32>)
    ensures
        match r {
            Some(d) => digit_value(c) == Some(d as int) && d < 10,
            None => digit_value(c) is None,
        },
{
    if c == '0' {
        Some(0)
    } else if c == '1' {
        Some(1)
    } else if c == '2' {
        Some(2)
    } else if c == '3' {
        Some(3)
    } else if c == '4' {
        Some(4)
    } else if c == '5' {
        Some(5)
    } else if c == '6' {
        Some(6)
    } else if c == '7' {
        Some(7)
    } else if c == '8' {
        Some(8)
    } else if c == '9' {
        Some(9)
    } else {
        None
    }
}

/// A number at or above this bound fits neither `i8` nor `u8`.
const PARSE_CAP: u32 = 1000;

/// Reads the digits of `s` from position `start` on. Returns `None` where
/// they are no number, else the number, capped at `PARSE_CAP`.
fn parse_digits_from(s: &str, start: usize) -> (r: Option<u32>)
    requires
        start <= s@.len(),
    ensures
        match r {
            Some(v) => match spec_parse_digits(s@.skip(start as int)) {
                Some(w) => v <= PARSE_CAP && (v < PARSE_CAP ==> v == w) && (v == PARSE_CAP ==> w
                    >= PARSE_CAP),
                None => false,
            },
            None => spec_parse_digits(s@.skip(start as int)) is None,
        },
{
    let len: usize = s.unicode_len();
    if start == len {
        return None;
    }
    let ghost digits = s@.skip(start as int);
    let mut acc: u32 = 0;
    let mut i: usize = start;
    while i < len
        invariant
            start <= i <= len,
            len == s@.len(),
            digits == s@.skip(start as int),
            acc <= PARSE_CAP,
            i > start ==> match spec_parse_digits(digits.take(i - start)) {
                Some(w) => (acc < PARSE_CAP ==> acc == w) && (acc == PARSE_CAP ==> w >= PARSE_CAP),
                None => false,
            },
            i == start ==> acc == 0,
        decreases len - i,
    {
        let c = s.get_char(i);
        let ghost prefix = digits.take(i - start + 1);
        assert(prefix.last() == c);
        assert(prefix.drop_last() =~= digits.take(i - start));
        match digit_of(c) {
            None => {
                proof {
                    lemma_parse_digits_rejects(digits, i - start);
                }
                return None;
            },
            Some(d) => {
                let next: u32 = acc * 10 + d;
                acc = if next >= PARSE_CAP {
                    PARSE_CAP
                } else {
                    next
                };
            },
        }
        i = i + 1;
    }
    assert(digits.take(len - start) =~= digits);
    Some(acc)
}

/// A string with a character that is no digit writes no number.
proof fn lemma_parse_digits_rejects(s: Seq<char>, at: int)
    requires
        0 <= at < s.len(),
        digit_value(s[at]) is None,
    ensures
        spec_parse_digits(s) is None,
    decreases s.len(),
{
    if at < s.len() - 1 {
        lemma_parse_digits_rejects(s.drop_last(), at);
    }
}

/// Reads an integer: an optional sign, where `signed` allows `-`, and
/// digits. The magnitude is capped at `PARSE_CAP`.
fn parse_signed(s: &str) -> (r: Option<(bool, u32)>)
    ensures
        match r {
            Some((negative, v)) => match spec_parse_int(s@) {
                Some(w) => {
                    &&& negative == (s@.len() > 0 && s@[0] == '-')
                    &&& v <= PARSE_CAP
                    &&& v < PARSE_CAP ==> w == if negative {
                        -(v as int)
                    } else {
                        v as int
                    }
                    &&& v == PARSE_CAP ==> (w >= PARSE_CAP || w <= -(PARSE_CAP as int))
                },
                None => false,
            },
            None => spec_parse_int(s@) is None,
        },
{
    let len: usize = s.unicode_len();
    if len == 0 {
        assert(s@.skip(0) =~= s@);
        return None;
    }
    let first = s.get_char(0);
    if first == '-' {
        match parse_digits_from(s, 1) {
            Some(v) => Some((true, v)),
            None => None,
        }
    } else if first == '+' {
        match parse_digits_from(s, 1) {
            Some(v) => Some((false, v)),
            None => None,
        }
    } else {
        assert(s@.skip(0) =~= s@);
        match parse_digits_from(s, 0) {
            Some(v) => Some((false, v)),
            None => None,
        }
    }
}

/// Reads an `i8` as `str::parse` does: an optional sign, then digits, with
/// nothing before or after; `None` where the number does not fit.
pub fn parse_i8(s: &str) -> (r: Option<i8>)
    ensures
        r == spec_parse_i8(s@),
{
    match parse_signed(s) {
        None => None,
        Some((negative, v)) => {
            if negative {
                if v <= 128 {
                    Some((0 - v as i32) as i8)
                } else {
                    None
                }
            } else {
                if v <= 127 {
                    Some(v as i8)
                } else {
                    None
                }
            }
        },
    }
}

/// Reads a `u8` as `str::parse` does: an optional `+`, then digits; `None`
/// where the number does not fit or a minus sign stands first.
pub fn parse_u8(s: &str) -> (r: Option<u8>)
    ensures
        r == spec_parse_u8(s@),
{
    match parse_signed(s) {
        None => None,
        Some((negative, v)) => {
            if negative {
                None
            } else if v <= 255 {
                Some(v as u8)
            } else {
                None
            }
        },
    }
}

} // verus!
