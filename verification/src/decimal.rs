//! Reading decimal numbers: an optional sign, then one or more ASCII
//! digits, and nothing else.

use vstd::prelude::*;
use vstd::string::*;
use vstd::utf8::*;

use crate::text::{int_digits, nat_digits};

verus! {

/// The value of a decimal digit.
pub open spec fn digit_value(c: char) -> Option<int> {
    if '0' <= c <= '9' {
        Some(c as int - '0' as int)
    } else {
        None
    }
}

/// The number that a run of digits spells: zero for the empty run, and
/// nothing where a character is no digit.
pub open spec fn digits_value(s: Seq<char>) -> Option<int>
    decreases s.len(),
{
    if s.len() == 0 {
        Some(0)
    } else {
        match (digits_value(s.drop_last()), digit_value(s.last())) {
            (Some(v), Some(d)) => Some(v * 10 + d),
            _ => None,
        }
    }
}

/// The integer that a text spells: an optional `+` or `-`, then at least one
/// digit. Leading zeros are read; spaces are not.
pub open spec fn signed_decimal(s: Seq<char>) -> Option<int> {
    if s.len() == 0 {
        None
    } else if s[0] == '-' {
        if s.len() == 1 {
            None
        } else {
            match digits_value(s.skip(1)) {
                Some(v) => Some(-v),
                None => None,
            }
        }
    } else if s[0] == '+' {
        if s.len() == 1 {
            None
        } else {
            digits_value(s.skip(1))
        }
    } else {
        digits_value(s)
    }
}

/// The natural number that a text spells: an optional `+`, then at least
/// one digit. A `-` is not read, not even before zero.
pub open spec fn unsigned_decimal(s: Seq<char>) -> Option<int> {
    if s.len() == 0 || s[0] == '-' {
        None
    } else {
        signed_decimal(s)
    }
}

/// The integer that a text spells, where it is within `low ..= high`.
pub open spec fn decimal_within(s: Seq<char>, low: int, high: int) -> Option<int> {
    match signed_decimal(s) {
        Some(v) => if low <= v <= high {
            Some(v)
        } else {
            None
        },
        None => None,
    }
}

/// What a run of digits spells is no less than what any of its beginnings
/// spells, and every character of it is a digit.
pub proof fn lemma_digits_grow(s: Seq<char>, k: int)
    requires
        0 <= k <= s.len(),
        digits_value(s) is Some,
    ensures
        digits_value(s.take(k)) is Some,
        0 <= digits_value(s.take(k)).unwrap() <= digits_value(s).unwrap(),
        forall|i: int| 0 <= i < s.len() ==> digit_value(#[trigger] s[i]) is Some,
    decreases s.len(),
{
    if s.len() == 0 {
        assert(s.take(k) =~= s);
    } else {
        let rest = s.drop_last();
        lemma_digits_grow(rest, if k < s.len() {
            k
        } else {
            k - 1
        });
        assert forall|i: int| 0 <= i < s.len() implies digit_value(#[trigger] s[i]) is Some by {
            if i < rest.len() {
                assert(s[i] == rest[i]);
            }
        }
        if k < s.len() {
            assert(s.take(k) =~= rest.take(k));
        } else {
            assert(s.take(k) =~= s);
            assert(rest.take(k - 1) =~= rest);
        }
    }
}

/// Reading the digits of a natural number gives the number back.
pub proof fn lemma_nat_digits_read_back(n: nat)
    ensures
        digits_value(nat_digits(n)) == Some(n as int),
        nat_digits(n).len() >= 1,
        nat_digits(n)[0] != '-',
        nat_digits(n)[0] != '+',
    decreases n,
{
    if n < 10 {
        let s = nat_digits(n);
        assert(s.drop_last() =~= Seq::<char>::empty());
        assert(digits_value(s.drop_last()) == Some(0int));
    } else {
        lemma_nat_digits_read_back(n / 10);
        let s = nat_digits(n);
        assert(s.drop_last() =~= nat_digits(n / 10));
        assert(s[0] == nat_digits(n / 10)[0]);
    }
}

/// Reading the decimal text of an integer gives the integer back.
pub proof fn lemma_int_digits_read_back(n: int)
    ensures
        signed_decimal(int_digits(n)) == Some(n),
{
    if n < 0 {
        lemma_nat_digits_read_back((-n) as nat);
        let s = int_digits(n);
        assert(s.skip(1) =~= nat_digits((-n) as nat));
    } else {
        lemma_nat_digits_read_back(n as nat);
    }
}

/// The decimal text of an integer holds digits and at most a leading minus
/// sign: no colon, for one.
pub proof fn lemma_int_digits_have_no_colon(n: int)
    ensures
        forall|i: int| 0 <= i < int_digits(n).len() ==> (#[trigger] int_digits(n)[i]) != ':',
{
    if n < 0 {
        lemma_nat_digits_read_back((-n) as nat);
        lemma_digits_grow(nat_digits((-n) as nat), 0);
        let s = int_digits(n);
        assert forall|i: int| 0 <= i < s.len() implies (#[trigger] s[i]) != ':' by {
            if i > 0 {
                assert(s[i] == nat_digits((-n) as nat)[i - 1]);
                assert(digit_value(nat_digits((-n) as nat)[i - 1]) is Some);
            }
        }
    } else {
        lemma_nat_digits_read_back(n as nat);
        lemma_digits_grow(nat_digits(n as nat), 0);
        let s = int_digits(n);
        assert forall|i: int| 0 <= i < s.len() implies (#[trigger] s[i]) != ':' by {
            assert(digit_value(s[i]) is Some);
        }
    }
}

/// Two integers with the same decimal text are the same integer.
pub proof fn lemma_int_digits_are_distinct(a: int, b: int)
    requires
        int_digits(a) == int_digits(b),
    ensures
        a == b,
{
    lemma_int_digits_read_back(a);
    lemma_int_digits_read_back(b);
}

/// A text before a colon and a text after it can be told apart again, as
/// long as the first holds no colon itself.
pub proof fn lemma_colon_separates(
    first: Seq<char>,
    rest: Seq<char>,
    other_first: Seq<char>,
    other_rest: Seq<char>,
)
    requires
        forall|i: int| 0 <= i < first.len() ==> first[i] != ':',
        forall|i: int| 0 <= i < other_first.len() ==> other_first[i] != ':',
        first + seq![':'] + rest == other_first + seq![':'] + other_rest,
    ensures
        first == other_first,
        rest == other_rest,
{
    let a = first + seq![':'] + rest;
    let b = other_first + seq![':'] + other_rest;
    if first.len() < other_first.len() {
        assert(a[first.len() as int] == ':');
        assert(b[first.len() as int] == other_first[first.len() as int]);
    } else if other_first.len() < first.len() {
        assert(b[other_first.len() as int] == ':');
        assert(a[other_first.len() as int] == first[other_first.len() as int]);
    }
    assert(first =~= other_first) by {
        assert forall|i: int| 0 <= i < first.len() implies first[i] == other_first[i] by {
            assert(a[i] == first[i]);
            assert(b[i] == other_first[i]);
        }
    }
    assert(rest =~= other_rest) by {
        assert(a.len() == b.len());
        assert forall|i: int| 0 <= i < rest.len() implies rest[i] == other_rest[i] by {
            assert(a[first.len() + 1 + i] == rest[i]);
            assert(b[first.len() + 1 + i] == other_rest[i]);
        }
    }
}

/// Reads an integer within `low ..= high`.
fn parse_within(s: &str, low: i64, high: i64) -> (r: Option<i64>)
    requires
        -0x1_0000_0000 <= low <= high <= 0x1_0000_0000,
    ensures
        match r {
            Some(v) => decimal_within(s@, low as int, high as int) == Some(v as int),
            None => decimal_within(s@, low as int, high as int) is None,
        },
{
    if !s.is_ascii() {
        proof {
            lemma_not_ascii_not_decimal(s@);
        }
        return None;
    }
    let n = s.unicode_len();
    if n == 0 {
        return None;
    }
    let first = s.get_ascii(0);
    proof {
        lemma_ascii_char_is_its_byte(s@, 0);
    }
    let negative = first == 0x2d;
    let start: usize = if first == 0x2d || first == 0x2b {
        1
    } else {
        0
    };
    if start == n {
        return None;
    }
    let ghost digits = s@.skip(start as int);
    let mut value: i64 = 0;
    let mut i: usize = start;
    proof {
        assert(digits.take(0) =~= Seq::<char>::empty());
    }
    while i < n
        invariant
            start <= i <= n,
            n == s@.len(),
            s.is_ascii(),
            digits == s@.skip(start as int),
            digits_value(digits.take(i - start)) == Some(value as int),
            0 <= value <= 0x1_0000_0000,
            start < n,
            -0x1_0000_0000 <= low <= high <= 0x1_0000_0000,
            negative == (s@[0] == '-'),
            start == if s@[0] == '-' || s@[0] == '+' {
                1usize
            } else {
                0usize
            },
        decreases n - i,
    {
        let b = s.get_ascii(i);
        let ghost next = digits.take(i - start + 1);
        proof {
            assert(s@.skip(0) =~= s@);
            lemma_ascii_char_is_its_byte(s@, i as int);
            assert(next.drop_last() =~= digits.take(i - start));
            assert(next.last() == s@[i as int]);
            assert(digits.take(digits.len() as int) =~= digits);
        }
        if b < 0x30 || b > 0x39 {
            proof {
                assert(digit_value(s@[i as int]) is None);
                if digits_value(digits) is Some {
                    lemma_digits_grow(digits, digits.len() as int);
                    assert(digits[i - start] == s@[i as int]);
                }
            }
            return None;
        }
        let d = (b - 0x30) as i64;
        value = value * 10 + d;
        assert(digit_value(s@[i as int]) == Some(d as int));
        assert(digits_value(next) == Some(value as int));
        if value > 0x1_0000_0000 {
            proof {
                if digits_value(digits) is Some {
                    lemma_digits_grow(digits, i - start + 1);
                }
            }
            return None;
        }
        i = i + 1;
    }
    proof {
        assert(s@.skip(0) =~= s@);
        assert(digits.take(n - start) =~= digits);
    }
    let signed = if negative {
        -value
    } else {
        value
    };
    if low <= signed && signed <= high {
        Some(signed)
    } else {
        None
    }
}

/// An ASCII character is the byte that stands for it.
pub proof fn lemma_ascii_char_is_its_byte(s: Seq<char>, i: int)
    requires
        is_ascii_chars(s),
        0 <= i < s.len(),
    ensures
        s[i] as u8 as int == s[i] as int,
        0 <= s[i] as int <= 127,
{
    assert('\0' <= s[i] <= '\u{7f}');
}

/// What a text without a minus sign spells is not negative.
pub proof fn lemma_unsigned_is_not_negative(s: Seq<char>)
    requires
        s.len() > 0 ==> s[0] != '-',
    ensures
        signed_decimal(s) matches Some(v) ==> v >= 0,
{
    if s.len() > 0 {
        if s[0] == '+' {
            if s.len() > 1 && digits_value(s.skip(1)) is Some {
                lemma_digits_grow(s.skip(1), 0);
            }
        } else if digits_value(s) is Some {
            lemma_digits_grow(s, 0);
        }
    }
}

/// A text with a character beyond ASCII spells no number.
pub proof fn lemma_not_ascii_not_decimal(s: Seq<char>)
    requires
        !is_ascii_chars(s),
    ensures
        signed_decimal(s) is None,
{
    let i = choose|i: int| 0 <= i < s.len() && !('\0' <= #[trigger] s[i] <= '\u{7f}');
    assert(digit_value(s[i]) is None);
    assert(s[i] != '-' && s[i] != '+');
    if s[0] == '-' || s[0] == '+' {
        if s.len() > 1 {
            let rest = s.skip(1);
            assert(rest[i - 1] == s[i]);
            if digits_value(rest) is Some {
                lemma_digits_grow(rest, 0);
            }
        }
    } else {
        if digits_value(s) is Some {
            lemma_digits_grow(s, 0);
        }
    }
}

/// Reads an `i32`.
pub fn parse_i32(s: &str) -> (r: Option<i32>)
    ensures
        match r {
            Some(v) => signed_decimal(s@) == Some(v as int),
            None => !(signed_decimal(s@) matches Some(v) && i32::MIN <= v <= i32::MAX),
        },
{
    match parse_within(s, i32::MIN as i64, i32::MAX as i64) {
        Some(v) => Some(v as i32),
        None => None,
    }
}

/// Reads a `u32`.
pub fn parse_u32(s: &str) -> (r: Option<u32>)
    ensures
        match r {
            Some(v) => unsigned_decimal(s@) == Some(v as int),
            None => !(unsigned_decimal(s@) matches Some(v) && v <= u32::MAX),
        },
{
    if s.unicode_len() > 0 && s.get_char(0) == '-' {
        return None;
    }
    proof {
        lemma_unsigned_is_not_negative(s@);
    }
    match parse_within(s, 0, u32::MAX as i64) {
        Some(v) => Some(v as u32),
        None => None,
    }
}

/// Reads a `u16`.
pub fn parse_u16(s: &str) -> (r: Option<u16>)
    ensures
        match r {
            Some(v) => unsigned_decimal(s@) == Some(v as int),
            None => !(unsigned_decimal(s@) matches Some(v) && v <= u16::MAX),
        },
{
    if s.unicode_len() > 0 && s.get_char(0) == '-' {
        return None;
    }
    proof {
        lemma_unsigned_is_not_negative(s@);
    }
    match parse_within(s, 0, u16::MAX as i64) {
        Some(v) => Some(v as u16),
        None => None,
    }
}

} // verus!
