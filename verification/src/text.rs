//! Helpers on strings and bytes: comparison, decimal numbers, UTF-8.

use vstd::prelude::*;
use vstd::string::*;
use vstd::utf8::*;

verus! {

/// Whether two string slices hold the same characters.
pub fn str_eq(a: &str, b: &str) -> (r: bool)
    ensures
        r == (a@ == b@),
{
    let x = a.as_bytes();
    let y = b.as_bytes();
    proof {
        encode_utf8_decode_utf8(a@);
        encode_utf8_decode_utf8(b@);
    }
    if x.len() != y.len() {
        return false;
    }
    let mut i: usize = 0;
    while i < x.len()
        invariant
            x@.len() == y@.len(),
            0 <= i <= x@.len(),
            forall|j: int| 0 <= j < i ==> x@[j] == y@[j],
            x@ == encode_utf8(a@),
            y@ == encode_utf8(b@),
        decreases x@.len() - i,
    {
        if x[i] != y[i] {
            return false;
        }
        i = i + 1;
    }
    assert(x@ =~= y@);
    true
}

/// Whether two optional strings hold the same value.
pub fn opt_str_eq(a: &Option<String>, b: &Option<String>) -> (r: bool)
    ensures
        r == (opt_view(*a) == opt_view(*b)),
{
    match (a, b) {
        (None, None) => true,
        (Some(x), Some(y)) => str_eq(x.as_str(), y.as_str()),
        _ => false,
    }
}

/// The characters of an optional string.
pub open spec fn opt_view(s: Option<String>) -> Option<Seq<char>> {
    match s {
        Some(t) => Some(t@),
        None => None,
    }
}

/// A copy of an optional string.
pub fn opt_clone(s: &Option<String>) -> (r: Option<String>)
    ensures
        r == *s,
{
    match s {
        Some(t) => Some(t.clone()),
        None => None,
    }
}

/// The decimal digit that stands for `d`.
pub open spec fn digit_char(d: int) -> char {
    if d == 0 {
        '0'
    } else if d == 1 {
        '1'
    } else if d == 2 {
        '2'
    } else if d == 3 {
        '3'
    } else if d == 4 {
        '4'
    } else if d == 5 {
        '5'
    } else if d == 6 {
        '6'
    } else if d == 7 {
        '7'
    } else if d == 8 {
        '8'
    } else {
        '9'
    }
}

/// The decimal digits of a natural number, most significant first, without
/// leading zeros.
pub open spec fn nat_digits(n: nat) -> Seq<char>
    decreases n,
{
    if n < 10 {
        seq![digit_char(n as int)]
    } else {
        nat_digits(n / 10).push(digit_char((n % 10) as int))
    }
}

/// The decimal text of an integer: a minus sign for a negative one, then
/// the digits of its magnitude.
pub open spec fn int_digits(n: int) -> Seq<char> {
    if n < 0 {
        seq!['-'] + nat_digits((-n) as nat)
    } else {
        nat_digits(n as nat)
    }
}

fn digit_str(d: u8) -> (r: &'static str)
    requires
        d < 10,
    ensures
        r@ == seq![digit_char(d as int)],
{
    proof {
        reveal_strlit("0");
        reveal_strlit("1");
        reveal_strlit("2");
        reveal_strlit("3");
        reveal_strlit("4");
        reveal_strlit("5");
        reveal_strlit("6");
        reveal_strlit("7");
        reveal_strlit("8");
        reveal_strlit("9");
    }
    let r = if d == 0 {
        "0"
    } else if d == 1 {
        "1"
    } else if d == 2 {
        "2"
    } else if d == 3 {
        "3"
    } else if d == 4 {
        "4"
    } else if d == 5 {
        "5"
    } else if d == 6 {
        "6"
    } else if d == 7 {
        "7"
    } else if d == 8 {
        "8"
    } else {
        "9"
    };
    assert(r@ =~= seq![digit_char(d as int)]);
    r
}

/// Writes an `i32` in decimal.
pub fn i32_to_string(n: i32) -> (r: String)
    ensures
        r@ == int_digits(n as int),
{
    let negative = n < 0;
    let wide: i64 = n as i64;
    let magnitude: i64 = if negative {
        -wide
    } else {
        wide
    };
    let mut rest: i64 = magnitude;
    let mut tail = String::new();
    while rest >= 10
        invariant
            0 <= rest <= magnitude,
            nat_digits(magnitude as nat) == nat_digits(rest as nat) + tail@,
        decreases rest,
    {
        let d = (rest % 10) as u8;
        let head = String::from_str(digit_str(d));
        proof {
            assert(nat_digits(rest as nat) == nat_digits((rest / 10) as nat).push(
                digit_char((rest % 10) as int),
            ));
            assert(nat_digits((rest / 10) as nat).push(digit_char((rest % 10) as int)) + tail@
                =~= nat_digits((rest / 10) as nat) + (head@ + tail@));
        }
        tail = head.concat(tail.as_str());
        rest = rest / 10;
    }
    let first = String::from_str(digit_str(rest as u8));
    let digits = first.concat(tail.as_str());
    if negative {
        proof {
            reveal_strlit("-");
            assert("-"@ =~= seq!['-']);
        }
        String::from_str("-").concat(digits.as_str())
    } else {
        digits
    }
}

/// Whether `needle` stands in `haystack` at the position `k`.
pub open spec fn occurs_at(haystack: Seq<u8>, needle: Seq<u8>, k: int) -> bool {
    &&& 0 <= k
    &&& k + needle.len() <= haystack.len()
    &&& haystack.subrange(k, k + needle.len()) == needle
}

/// Whether `needle` stands somewhere in `haystack`.
pub open spec fn occurs_in(haystack: Seq<u8>, needle: Seq<u8>) -> bool {
    exists|k: int| occurs_at(haystack, needle, k)
}

/// Whether `needle` stands in `haystack` at the position `k`.
fn matches_at(haystack: &[u8], needle: &[u8], k: usize) -> (r: bool)
    requires
        k + needle@.len() <= haystack@.len() <= usize::MAX,
    ensures
        r == occurs_at(haystack@, needle@, k as int),
{
    let mut j: usize = 0;
    while j < needle.len()
        invariant
            0 <= j <= needle@.len(),
            k + needle@.len() <= haystack@.len() <= usize::MAX,
            forall|i: int| 0 <= i < j ==> haystack@[k + i] == needle@[i],
        decreases needle@.len() - j,
    {
        if haystack[k + j] != needle[j] {
            proof {
                let part = haystack@.subrange(k as int, k + needle@.len());
                assert(part[j as int] == haystack@[k + j]);
            }
            return false;
        }
        j = j + 1;
    }
    assert(haystack@.subrange(k as int, k + needle@.len()) =~= needle@);
    true
}

/// Whether the text `needle` stands somewhere in the text `haystack`, both
/// taken as the bytes of their UTF-8 encoding.
pub fn str_contains(haystack: &str, needle: &str) -> (r: bool)
    ensures
        r == occurs_in(encode_utf8(haystack@), encode_utf8(needle@)),
{
    let h = haystack.as_bytes();
    let n = needle.as_bytes();
    if n.len() > h.len() {
        return false;
    }
    let last = h.len() - n.len();
    let mut k: usize = 0;
    loop
        invariant
            0 <= k <= last,
            last == h@.len() - n@.len(),
            h@.len() <= usize::MAX,
            h@ == encode_utf8(haystack@),
            n@ == encode_utf8(needle@),
            forall|i: int| 0 <= i < k ==> !occurs_at(h@, n@, i),
        decreases last - k,
    {
        if matches_at(h, n, k) {
            assert(occurs_at(h@, n@, k as int));
            return true;
        }
        if k == last {
            return false;
        }
        k = k + 1;
    }
}

/// Whether a byte is an ASCII letter or digit.
pub open spec fn is_alphanumeric(b: u8) -> bool {
    ||| 0x30 <= b <= 0x39
    ||| 0x41 <= b <= 0x5a
    ||| 0x61 <= b <= 0x7a
}

/// Whether every byte is an ASCII letter or digit.
pub open spec fn all_alphanumeric(bytes: Seq<u8>) -> bool {
    forall|i: int| 0 <= i < bytes.len() ==> is_alphanumeric(#[trigger] bytes[i])
}

/// Whether a character is a lower-case hexadecimal digit.
pub open spec fn is_lower_hex(c: char) -> bool {
    ||| '0' <= c <= '9'
    ||| 'a' <= c <= 'f'
}

/// Whether every character is a lower-case hexadecimal digit.
pub open spec fn all_lower_hex(s: Seq<char>) -> bool {
    forall|i: int| 0 <= i < s.len() ==> is_lower_hex(#[trigger] s[i])
}

/// `String::from_utf8` of the standard library: the text that the bytes
/// encode, where they are well-formed UTF-8, and nothing otherwise.
#[verifier::external_body]
pub(crate) fn string_from_utf8(bytes: Vec<u8>) -> (r: Option<String>)
    ensures
        r is Some <==> valid_utf8(bytes@),
        r is Some ==> r.unwrap()@ == decode_utf8(bytes@),
{
    String::from_utf8(bytes).ok()
}

} // verus!
