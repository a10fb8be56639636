//! Hex-prefixed string codec.
//!
//! The RPC wire format carries binary payloads as hex strings, optionally
//! prefixed with `0x`.  Decoding strips every leading `0x` repetition (the
//! way `str::trim_start_matches` would), then requires an even number of
//! hex digits, upper or lower case.  Encoding produces a `0x`-prefixed
//! lower-case hex string.

use vstd::prelude::*;
use vstd::string::*;

verus! {

/// A character that counts as a hex digit: `0-9`, `a-f` or `A-F`.
pub open spec fn is_hex_digit(c: char) -> bool {
    (0x30 <= c as u32 && c as u32 <= 0x39) || (0x61 <= c as u32 && c as u32 <= 0x66) || (0x41
        <= c as u32 && c as u32 <= 0x46)
}

/// Numeric value of a hex digit.
pub open spec fn hex_digit_value(c: char) -> u8
    recommends
        is_hex_digit(c),
{
    if 0x30 <= c as u32 && c as u32 <= 0x39 {
        (c as u32 - 0x30) as u8
    } else if 0x61 <= c as u32 && c as u32 <= 0x66 {
        (c as u32 - 0x61 + 10) as u8
    } else {
        (c as u32 - 0x41 + 10) as u8
    }
}

/// The string with every leading repetition of `0x` removed.
pub open spec fn strip_hex_prefix(s: Seq<char>) -> Seq<char>
    decreases s.len(),
{
    if s.len() >= 2 && s[0] == '0' && s[1] == 'x' {
        strip_hex_prefix(s.skip(2))
    } else {
        s
    }
}

/// Every character of the string is a hex digit.
pub open spec fn all_hex_digits(s: Seq<char>) -> bool {
    forall|i: int| 0 <= i < s.len() ==> is_hex_digit(#[trigger] s[i])
}

/// The bytes named by an even-length string of hex digits, two digits a byte,
/// high nibble first.
pub open spec fn hex_digits_to_bytes(s: Seq<char>) -> Seq<u8>
    recommends
        s.len() % 2 == 0,
        all_hex_digits(s),
{
    Seq::new((s.len() / 2) as nat, |i: int| (hex_digit_value(s[2 * i]) * 16 + hex_digit_value(s[2 * i + 1])) as u8)
}

/// What decoding a hex-prefixed string yields: strip the `0x` prefix, then
/// read pairs of hex digits.  `None` when a character is no hex digit or the
/// digit count is odd.
pub open spec fn spec_hex_decode(s: Seq<char>) -> Option<Seq<u8>> {
    let t = strip_hex_prefix(s);
    if t.len() % 2 == 0 && all_hex_digits(t) {
        Some(hex_digits_to_bytes(t))
    } else {
        None
    }
}

/// The lower-case hex character for a nibble.
pub open spec fn hex_char_of(n: u8) -> char
    recommends
        n < 16,
{
    if n == 0 {
        '0'
    } else if n == 1 {
        '1'
    } else if n == 2 {
        '2'
    } else if n == 3 {
        '3'
    } else if n == 4 {
        '4'
    } else if n == 5 {
        '5'
    } else if n == 6 {
        '6'
    } else if n == 7 {
        '7'
    } else if n == 8 {
        '8'
    } else if n == 9 {
        '9'
    } else if n == 10 {
        'a'
    } else if n == 11 {
        'b'
    } else if n == 12 {
        'c'
    } else if n == 13 {
        'd'
    } else if n == 14 {
        'e'
    } else {
        'f'
    }
}

/// The hex digits of a byte sequence, two a byte, high nibble first.
pub open spec fn hex_digits_of_bytes(bytes: Seq<u8>) -> Seq<char> {
    Seq::new(2 * bytes.len(), |i: int| if i % 2 == 0 {
        hex_char_of(bytes[i / 2] / 16)
    } else {
        hex_char_of(bytes[i / 2] % 16)
    })
}

/// What encoding bytes as a hex string yields: `0x`, then two lower-case hex
/// digits for each byte.
pub open spec fn spec_hex_encode(bytes: Seq<u8>) -> Seq<char> {
    seq!['0', 'x'] + hex_digits_of_bytes(bytes)
}

/// Numeric value of a hex digit character, or `None`.
fn hex_val(c: char) -> (r: Option<u8>)
    ensures
        r matches Some(v) ==> is_hex_digit(c) && v == hex_digit_value(c),
        r is None ==> !is_hex_digit(c),
{
    let u = c as u32;
    if 0x30 <= u && u <= 0x39 {
        Some((u - 0x30) as u8)
    } else if 0x61 <= u && u <= 0x66 {
        Some((u - 0x61 + 10) as u8)
    } else if 0x41 <= u && u <= 0x46 {
        Some((u - 0x41 + 10) as u8)
    } else {
        None
    }
}

/// Decodes a hex-prefixed string into bytes; `None` exactly when the string,
/// after stripping its `0x` prefix, is not an even number of hex digits.
pub fn hex_decode(s: &str) -> (r: Option<Vec<u8>>)
    ensures
        match spec_hex_decode(s@) {
            Some(b) => r matches Some(v) && v@ == b,
            None => r is None,
        },
{
    let n = s.unicode_len();
    let mut start: usize = 0;
    proof {
        assert(s@.skip(0) =~= s@);
    }
    while n - start >= 2 && s.get_char(start) == '0' && s.get_char(start + 1) == 'x'
        invariant
            start <= n,
            n == s@.len(),
            strip_hex_prefix(s@) == strip_hex_prefix(s@.skip(start as int)),
        decreases n - start,
    {
        proof {
            assert(s@.skip(start as int)[0] == s@[start as int]);
            assert(s@.skip(start as int)[1] == s@[start as int + 1]);
            assert(s@.skip(start as int).skip(2) =~= s@.skip(start as int + 2));
        }
        start = start + 2;
    }
    let ghost t = s@.skip(start as int);
    proof {
        if t.len() >= 2 {
            assert(t[0] == s@[start as int]);
            assert(t[1] == s@[start as int + 1]);
        }
        assert(strip_hex_prefix(t) == t);
        assert(strip_hex_prefix(s@) == t);
    }
    let m = n - start;
    if m % 2 != 0 {
        return None;
    }
    let count = m / 2;
    let mut out: Vec<u8> = Vec::new();
    let mut i: usize = 0;
    while i < count
        invariant
            i <= count,
            count == t.len() / 2,
            t.len() % 2 == 0,
            strip_hex_prefix(s@) == t,
            t == s@.skip(start as int),
            start + t.len() == n,
            n == s@.len(),
            out@.len() == i,
            forall|j: int|
                0 <= j < 2 * i ==> is_hex_digit(#[trigger] t[j]),
            forall|j: int|
                0 <= j < i ==> out@[j] == (hex_digit_value(t[2 * j]) * 16 + hex_digit_value(
                    t[2 * j + 1],
                )) as u8,
        decreases count - i,
    {
        proof {
            assert(t[2 * i as int] == s@[start + 2 * i as int]);
            assert(t[2 * i as int + 1] == s@[start + 2 * i as int + 1]);
        }
        let c1 = s.get_char(start + 2 * i);
        let c2 = s.get_char(start + 2 * i + 1);
        let v1 = match hex_val(c1) {
            Some(v) => v,
            None => {
                proof {
                    assert(!is_hex_digit(t[2 * i as int]));
                    assert(!all_hex_digits(t));
                }
                return None;
            },
        };
        let v2 = match hex_val(c2) {
            Some(v) => v,
            None => {
                proof {
                    assert(!is_hex_digit(t[2 * i as int + 1]));
                    assert(!all_hex_digits(t));
                }
                return None;
            },
        };
        out.push(v1 * 16 + v2);
        i = i + 1;
    }
    proof {
        assert forall|j: int| 0 <= j < t.len() implies is_hex_digit(#[trigger] t[j]) by {
            if j % 2 == 0 {
                assert(t[2 * (j / 2)] == t[j]);
            } else {
                assert(t[2 * (j / 2) + 1] == t[j]);
            }
        }
        assert(out@ =~= hex_digits_to_bytes(t));
    }
    Some(out)
}

/// The one-character string for a nibble's lower-case hex digit.
fn hex_char_str(n: u8) -> (r: &'static str)
    requires
        n < 16,
    ensures
        r@.len() == 1,
        r@[0] == hex_char_of(n),
{
    proof {
        reveal_strlit("0");
        reveal_strlit("1");
        reveal_strlit("2");
        reveal_strlit("3");
        reveal_strlit("4");
        reveal_strlit("5");
        reveal_strlit("6");
        reveal_strlit("7");
        reveal_strlit("8");
        reveal_strlit("9");
        reveal_strlit("a");
        reveal_strlit("b");
        reveal_strlit("c");
        reveal_strlit("d");
        reveal_strlit("e");
        reveal_strlit("f");
    }
    if n == 0 {
        "0"
    } else if n == 1 {
        "1"
    } else if n == 2 {
        "2"
    } else if n == 3 {
        "3"
    } else if n == 4 {
        "4"
    } else if n == 5 {
        "5"
    } else if n == 6 {
        "6"
    } else if n == 7 {
        "7"
    } else if n == 8 {
        "8"
    } else if n == 9 {
        "9"
    } else if n == 10 {
        "a"
    } else if n == 11 {
        "b"
    } else if n == 12 {
        "c"
    } else if n == 13 {
        "d"
    } else if n == 14 {
        "e"
    } else {
        "f"
    }
}

/// Encodes bytes as a `0x`-prefixed lower-case hex string.
pub fn hex_encode(bytes: &Vec<u8>) -> (r: String)
    ensures
        r@ == spec_hex_encode(bytes@),
{
    let mut s = String::from_str("0x");
    proof {
        reveal_strlit("0x");
        assert(s@ =~= seq!['0', 'x']);
        assert(s@ =~= seq!['0', 'x'] + hex_digits_of_bytes(bytes@.take(0)));
    }
    let mut i: usize = 0;
    while i < bytes.len()
        invariant
            i <= bytes@.len(),
            s@ == seq!['0', 'x'] + hex_digits_of_bytes(bytes@.take(i as int)),
        decreases bytes@.len() - i,
    {
        let b = bytes[i];
        s.append(hex_char_str(b / 16));
        s.append(hex_char_str(b % 16));
        proof {
            assert(s@ =~= seq!['0', 'x'] + hex_digits_of_bytes(bytes@.take(i as int + 1)));
        }
        i = i + 1;
    }
    proof {
        assert(bytes@.take(bytes@.len() as int) =~= bytes@);
    }
    s
}

/// Encoding then decoding returns the bytes: the digits produced by
/// `spec_hex_encode` never themselves start with `0x`, so only the written
/// prefix is stripped.
pub proof fn lemma_hex_round_trip(bytes: Seq<u8>)
    ensures
        spec_hex_decode(spec_hex_encode(bytes)) == Some(bytes),
{
    let digits = hex_digits_of_bytes(bytes);
    let full = spec_hex_encode(bytes);
    assert(full.skip(2) =~= digits);
    if digits.len() >= 2 {
        assert(digits[1] == hex_char_of(bytes[0] % 16));
        assert(digits[1] != 'x');
    }
    assert(strip_hex_prefix(digits) == digits);
    assert(strip_hex_prefix(full) == digits);
    assert forall|i: int| 0 <= i < digits.len() implies is_hex_digit(#[trigger] digits[i]) by {}
    assert(spec_hex_decode(full) == Some(hex_digits_to_bytes(digits)));
    assert forall|i: int| 0 <= i < bytes.len() implies hex_digits_to_bytes(digits)[i] == bytes[i] by {
        assert(digits[2 * i] == hex_char_of(bytes[i] / 16));
        assert(digits[2 * i + 1] == hex_char_of(bytes[i] % 16));
        assert(hex_digit_value(hex_char_of(bytes[i] / 16)) == bytes[i] / 16);
        assert(hex_digit_value(hex_char_of(bytes[i] % 16)) == bytes[i] % 16);
    }
    assert(hex_digits_to_bytes(digits) =~= bytes);
}

} // verus!
