//! Bytes written as hexadecimal digits, two for each byte, and read back.

use vstd::prelude::*;
use vstd::string::*;
use vstd::utf8::*;

verus! {

/// The lower-case hexadecimal digit that stands for `n`.
pub open spec fn hex_digit(n: int) -> char {
    if n == 0 {
        '0'
    } else if n == 1 {
        '1'
    } else if n == 2 {
        '2'
    } else if n == 3 {
        '3'
    } else if n == 4 {
        '4'
    } else if n == 5 {
        '5'
    } else if n == 6 {
        '6'
    } else if n == 7 {
        '7'
    } else if n == 8 {
        '8'
    } else if n == 9 {
        '9'
    } else if n == 10 {
        'a'
    } else if n == 11 {
        'b'
    } else if n == 12 {
        'c'
    } else if n == 13 {
        'd'
    } else if n == 14 {
        'e'
    } else {
        'f'
    }
}

/// The value of a hexadecimal digit, in either case.
pub open spec fn hex_value(c: char) -> Option<int> {
    if '0' <= c <= '9' {
        Some(c as int - '0' as int)
    } else if 'a' <= c <= 'f' {
        Some(c as int - 'a' as int + 10)
    } else if 'A' <= c <= 'F' {
        Some(c as int - 'A' as int + 10)
    } else {
        None
    }
}

/// The text that writes bytes in hexadecimal: two lower-case digits for
/// each byte, the high one first.
pub open spec fn hex_text(bytes: Seq<u8>) -> Seq<char>
    decreases bytes.len(),
{
    if bytes.len() == 0 {
        Seq::empty()
    } else {
        hex_text(bytes.drop_last()).push(hex_digit(bytes.last() as int / 16)).push(
            hex_digit(bytes.last() as int % 16),
        )
    }
}

/// The bytes that a text writes in hexadecimal: one for each two digits;
/// and nothing where the digits are odd in number or a character is no
/// digit.
pub open spec fn hex_bytes(text: Seq<char>) -> Option<Seq<u8>>
    decreases text.len(),
{
    if text.len() == 0 {
        Some(Seq::empty())
    } else if text.len() % 2 == 1 {
        None
    } else {
        match (
            hex_bytes(text.take(text.len() - 2)),
            hex_value(text[text.len() - 2]),
            hex_value(text[text.len() - 1]),
        ) {
            (Some(bytes), Some(high), Some(low)) => Some(bytes.push((high * 16 + low) as u8)),
            _ => None,
        }
    }
}

/// The hexadecimal text of bytes has two characters for each byte.
pub proof fn lemma_hex_text_len(bytes: Seq<u8>)
    ensures
        hex_text(bytes).len() == 2 * bytes.len(),
    decreases bytes.len(),
{
    if bytes.len() > 0 {
        lemma_hex_text_len(bytes.drop_last());
    }
}

/// Reading the hexadecimal text of bytes gives the bytes back.
pub proof fn lemma_hex_read_back(bytes: Seq<u8>)
    ensures
        hex_bytes(hex_text(bytes)) == Some(bytes),
    decreases bytes.len(),
{
    if bytes.len() > 0 {
        let rest = bytes.drop_last();
        let text = hex_text(bytes);
        lemma_hex_read_back(rest);
        lemma_hex_text_len(rest);
        lemma_hex_text_len(bytes);
        let high = bytes.last() as int / 16;
        let low = bytes.last() as int % 16;
        assert(text.take(text.len() - 2) =~= hex_text(rest));
        assert(text[text.len() - 2] == hex_digit(high));
        assert(text[text.len() - 1] == hex_digit(low));
        assert(hex_value(hex_digit(high)) == Some(high));
        assert(hex_value(hex_digit(low)) == Some(low));
        assert(rest.push((high * 16 + low) as u8) =~= bytes);
    }
}

/// A text that writes bytes holds hexadecimal digits only, and as many bytes
/// as half its length.
pub proof fn lemma_hex_bytes_shape(text: Seq<char>)
    requires
        hex_bytes(text) is Some,
    ensures
        forall|i: int| 0 <= i < text.len() ==> hex_value(#[trigger] text[i]) is Some,
        2 * hex_bytes(text).unwrap().len() == text.len(),
    decreases text.len(),
{
    if text.len() > 0 {
        let rest = text.take(text.len() - 2);
        lemma_hex_bytes_shape(rest);
        assert forall|i: int| 0 <= i < text.len() implies hex_value(#[trigger] text[i])
            is Some by {
            if i < rest.len() {
                assert(text[i] == rest[i]);
            }
        }
    }
}

fn hex_str(d: u8) -> (r: &'static str)
    requires
        d < 16,
    ensures
        r@ == seq![hex_digit(d as int)],
{
    proof {
        reveal_strlit("0");
        reveal_strlit("1");
        reveal_strlit("2");
        reveal_strlit("3");
        reveal_strlit("4");
        reveal_strlit("5");
        reveal_strlit("6");
        reveal_strlit("7");
        reveal_strlit("8");
        reveal_strlit("9");
        reveal_strlit("a");
        reveal_strlit("b");
        reveal_strlit("c");
        reveal_strlit("d");
        reveal_strlit("e");
        reveal_strlit("f");
    }
    let r = if d == 0 {
        "0"
    } else if d == 1 {
        "1"
    } else if d == 2 {
        "2"
    } else if d == 3 {
        "3"
    } else if d == 4 {
        "4"
    } else if d == 5 {
        "5"
    } else if d == 6 {
        "6"
    } else if d == 7 {
        "7"
    } else if d == 8 {
        "8"
    } else if d == 9 {
        "9"
    } else if d == 10 {
        "a"
    } else if d == 11 {
        "b"
    } else if d == 12 {
        "c"
    } else if d == 13 {
        "d"
    } else if d == 14 {
        "e"
    } else {
        "f"
    };
    assert(r@ =~= seq![hex_digit(d as int)]);
    r
}

/// Writes bytes in hexadecimal.
pub fn to_hex(bytes: &[u8]) -> (r: String)
    ensures
        r@ == hex_text(bytes@),
        r@.len() == 2 * bytes@.len(),
        hex_bytes(r@) == Some(bytes@),
{
    let mut text = String::new();
    let mut i: usize = 0;
    assert(bytes@.take(0) =~= Seq::<u8>::empty());
    while i < bytes.len()
        invariant
            0 <= i <= bytes@.len(),
            text@ == hex_text(bytes@.take(i as int)),
        decreases bytes@.len() - i,
    {
        let b = bytes[i];
        proof {
            let next = bytes@.take(i + 1);
            assert(next.last() == b);
            assert(next.drop_last() =~= bytes@.take(i as int));
        }
        let ghost before = text@;
        text = text.concat(hex_str(b / 16)).concat(hex_str(b % 16));
        assert(text@ =~= before.push(hex_digit(b as int / 16)).push(hex_digit(b as int % 16)));
        i = i + 1;
    }
    proof {
        assert(bytes@.take(i as int) =~= bytes@);
        lemma_hex_text_len(bytes@);
        lemma_hex_read_back(bytes@);
    }
    text
}

/// The value of a hexadecimal digit.
fn digit_value(b: u8) -> (r: Option<u8>)
    ensures
        match r {
            Some(v) => v < 16 && hex_value(b as char) == Some(v as int),
            None => hex_value(b as char) is None,
        },
{
    if 0x30 <= b && b <= 0x39 {
        Some(b - 0x30)
    } else if 0x61 <= b && b <= 0x66 {
        Some(b - 0x61 + 10)
    } else if 0x41 <= b && b <= 0x46 {
        Some(b - 0x41 + 10)
    } else {
        None
    }
}

/// A text with a character beyond ASCII writes no bytes.
pub proof fn lemma_not_ascii_not_hex(text: Seq<char>)
    requires
        !is_ascii_chars(text),
    ensures
        hex_bytes(text) is None,
{
    let i = choose|i: int| 0 <= i < text.len() && !('\0' <= #[trigger] text[i] <= '\u{7f}');
    if hex_bytes(text) is Some {
        lemma_hex_bytes_shape(text);
        assert(hex_value(text[i]) is Some);
    }
}

/// Reads the bytes that a text writes in hexadecimal.
pub fn from_hex(text: &str) -> (r: Option<Vec<u8>>)
    ensures
        match r {
            Some(bytes) => hex_bytes(text@) == Some(bytes@),
            None => hex_bytes(text@) is None,
        },
{
    if !text.is_ascii() {
        proof {
            lemma_not_ascii_not_hex(text@);
        }
        return None;
    }
    let n = text.unicode_len();
    if n % 2 == 1 {
        return None;
    }
    let mut bytes: Vec<u8> = Vec::new();
    let mut i: usize = 0;
    assert(text@.take(0) =~= Seq::<char>::empty());
    while i < n
        invariant
            0 <= i <= n,
            i % 2 == 0,
            n % 2 == 0,
            n == text@.len(),
            text.is_ascii(),
            hex_bytes(text@.take(i as int)) == Some(bytes@),
        decreases n - i,
    {
        let high = text.get_ascii(i);
        let low = text.get_ascii(i + 1);
        proof {
            assert('\0' <= text@[i as int] <= '\u{7f}');
            assert('\0' <= text@[i + 1] <= '\u{7f}');
            assert(high as char == text@[i as int]);
            assert(low as char == text@[i + 1]);
            let next = text@.take(i + 2);
            assert(next.take(next.len() - 2) =~= text@.take(i as int));
            assert(next[next.len() - 2] == text@[i as int]);
            assert(next[next.len() - 1] == text@[i + 1]);
        }
        match (digit_value(high), digit_value(low)) {
            (Some(h), Some(l)) => {
                bytes.push(h * 16 + l);
            },
            _ => {
                proof {
                    if hex_bytes(text@) is Some {
                        lemma_hex_bytes_shape(text@);
                    }
                }
                return None;
            },
        }
        i = i + 2;
    }
    assert(text@.take(i as int) =~= text@);
    Some(bytes)
}

} // verus!
