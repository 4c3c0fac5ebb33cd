//! The opaque token that carries a resume position between requests: the
//! position's twenty bytes, written as forty lower-case hexadecimal
//! digits.

use crate::pagination::Cursor;
use vstd::bytes::{
    lemma_auto_spec_u32_to_from_le_bytes, lemma_auto_spec_u64_to_from_le_bytes, spec_u32_from_le_bytes,
    spec_u32_to_le_bytes, spec_u64_from_le_bytes, spec_u64_to_le_bytes, u32_from_le_bytes, u32_to_le_bytes,
    u64_from_le_bytes, u64_to_le_bytes,
};
use vstd::prelude::*;
use vstd::slice::slice_subrange;
use vstd::string::StringSliceAdditionalSpecFns;

verus! {

/// The number of bytes of a resume position.
pub const CURSOR_BYTES: usize = 20;

/// The hexadecimal digit for a value below sixteen.
pub open spec fn digit(n: u8) -> char {
    if n == 0 {
        '0'
    } else if n == 1 {
        '1'
    } else if n == 2 {
        '2'
    } else if n == 3 {
        '3'
    } else if n == 4 {
        '4'
    } else if n == 5 {
        '5'
    } else if n == 6 {
        '6'
    } else if n == 7 {
        '7'
    } else if n == 8 {
        '8'
    } else if n == 9 {
        '9'
    } else if n == 10 {
        'a'
    } else if n == 11 {
        'b'
    } else if n == 12 {
        'c'
    } else if n == 13 {
        'd'
    } else if n == 14 {
        'e'
    } else {
        'f'
    }
}

/// The bytes written as hexadecimal digits, two per byte, the high half
/// first.
pub open spec fn hex_of(bytes: Seq<u8>) -> Seq<char> {
    Seq::new(
        2 * bytes.len(),
        |i: int|
            if i % 2 == 0 {
                digit(bytes[i / 2] / 16)
            } else {
                digit(bytes[i / 2] % 16)
            },
    )
}

/// The bytes of a resume position: score, ordinal and fingerprint, each
/// with its low byte first.
pub open spec fn bytes_of(cursor: Cursor) -> Seq<u8> {
    spec_u32_to_le_bytes(cursor.score) + spec_u64_to_le_bytes(cursor.ordinal) + spec_u64_to_le_bytes(
        cursor.fingerprint,
    )
}

/// The token of a resume position.
pub open spec fn token_of(cursor: Cursor) -> Seq<char> {
    hex_of(bytes_of(cursor))
}

/// The digit for a value below sixteen, as a string of one character.
pub(crate) fn digit_text(n: u8) -> (text: &'static str)
    requires
        n < 16,
    ensures
        text@ == seq![digit(n)],
{
    proof {
        reveal_strlit("0");
        reveal_strlit("1");
        reveal_strlit("2");
        reveal_strlit("3");
        reveal_strlit("4");
        reveal_strlit("5");
        reveal_strlit("6");
        reveal_strlit("7");
        reveal_strlit("8");
        reveal_strlit("9");
        reveal_strlit("a");
        reveal_strlit("b");
        reveal_strlit("c");
        reveal_strlit("d");
        reveal_strlit("e");
        reveal_strlit("f");
    }
    let text = if n == 0 {
        "0"
    } else if n == 1 {
        "1"
    } else if n == 2 {
        "2"
    } else if n == 3 {
        "3"
    } else if n == 4 {
        "4"
    } else if n == 5 {
        "5"
    } else if n == 6 {
        "6"
    } else if n == 7 {
        "7"
    } else if n == 8 {
        "8"
    } else if n == 9 {
        "9"
    } else if n == 10 {
        "a"
    } else if n == 11 {
        "b"
    } else if n == 12 {
        "c"
    } else if n == 13 {
        "d"
    } else if n == 14 {
        "e"
    } else {
        "f"
    };
    assert(text@ =~= seq![digit(n)]);
    text
}

/// The value of the digit whose character code is `code`, if it is a
/// lower-case hexadecimal digit.
pub open spec fn digit_value(code: u8) -> Option<u8> {
    if 48 <= code <= 57 {
        Some((code - 48) as u8)
    } else if 97 <= code <= 102 {
        Some((code - 87) as u8)
    } else {
        None
    }
}

fn read_digit(code: u8) -> (value: Option<u8>)
    ensures
        value == digit_value(code),
        value is Some ==> value.unwrap() < 16,
{
    if 48 <= code && code <= 57 {
        Some(code - 48)
    } else if 97 <= code && code <= 102 {
        Some(code - 87)
    } else {
        None
    }
}

/// Writes bytes as hexadecimal digits.
pub fn to_hex(bytes: &Vec<u8>) -> (text: String)
    ensures
        text@ == hex_of(bytes@),
{
    let mut text = String::new();
    let mut i: usize = 0;
    while i < bytes.len()
        invariant
            i <= bytes@.len(),
            text@ == hex_of(bytes@.subrange(0, i as int)),
        decreases bytes@.len() - i,
    {
        let byte = bytes[i];
        let ghost before = text@;
        text.append(digit_text(byte / 16));
        text.append(digit_text(byte % 16));
        i = i + 1;
        proof {
            let wanted = hex_of(bytes@.subrange(0, i as int));
            assert(text@ == before + seq![digit(byte / 16)] + seq![digit(byte % 16)]);
            assert(text@.len() == wanted.len());
            assert forall|k: int| 0 <= k < wanted.len() implies text@[k] == wanted[k] by {
                if k < 2 * (i - 1) {
                    assert(before[k] == hex_of(bytes@.subrange(0, i - 1))[k]);
                    assert(bytes@.subrange(0, i - 1)[k / 2] == bytes@.subrange(0, i as int)[k / 2]);
                }
            }
            assert(text@ =~= wanted);
        }
    }
    assert(bytes@.subrange(0, bytes@.len() as int) =~= bytes@);
    text
}

/// Writes a resume position as its token.
pub fn encode(cursor: &Cursor) -> (token: String)
    ensures
        token@ == token_of(*cursor),
{
    let mut bytes = u32_to_le_bytes(cursor.score);
    let mut ordinal = u64_to_le_bytes(cursor.ordinal);
    let mut fingerprint = u64_to_le_bytes(cursor.fingerprint);
    bytes.append(&mut ordinal);
    bytes.append(&mut fingerprint);
    to_hex(&bytes)
}

/// Digits stand for their values: each hexadecimal digit is an ASCII
/// character whose code reads back as the value it was written for.
pub proof fn digit_reads_back(n: u8)
    requires
        n < 16,
    ensures
        '\0' <= digit(n) <= '\u{7f}',
        digit_value(digit(n) as u8) == Some(n),
{
}

/// Reads bytes back from hexadecimal digits. Text of odd length, or with
/// a character that is no lower-case hexadecimal digit, stands for no
/// bytes.
pub fn from_hex(text: &str) -> (result: Option<Vec<u8>>)
    ensures
        match result {
            Some(bytes) => text@ == hex_of(bytes@),
            None => forall|bytes: Seq<u8>| text@ != hex_of(bytes),
        },
{
    if !text.is_ascii() {
        proof {
            assert forall|bytes: Seq<u8>| text@ != hex_of(bytes) by {
                if text@ == hex_of(bytes) {
                    assert forall|i: int| 0 <= i < text@.len() implies '\0' <= #[trigger] text@[i]
                        <= '\u{7f}' by {
                        digit_reads_back(bytes[i / 2] / 16);
                        digit_reads_back(bytes[i / 2] % 16);
                    }
                }
            }
        }
        return None;
    }
    let raw = text.as_bytes();
    proof {
        vstd::string::is_ascii_spec_bytes(text);
        assert(raw@ =~= Seq::new(text@.len(), |i: int| text@.index(i) as u8));
    }
    let n = raw.len();
    if n % 2 != 0 {
        proof {
            assert forall|bytes: Seq<u8>| text@ != hex_of(bytes) by {
                assert(hex_of(bytes).len() == 2 * bytes.len());
            }
        }
        return None;
    }
    let mut bytes: Vec<u8> = Vec::new();
    let mut k: usize = 0;
    while k < n / 2
        invariant
            n == raw@.len(),
            n == text@.len(),
            n % 2 == 0,
            k <= n / 2,
            bytes@.len() == k,
            forall|i: int| 0 <= i < n ==> '\0' <= #[trigger] text@[i] <= '\u{7f}',
            forall|i: int| 0 <= i < n ==> raw@[i] == #[trigger] text@[i] as u8,
            forall|i: int| 0 <= i < 2 * k ==> #[trigger] text@[i] == hex_of(bytes@)[i],
        decreases n / 2 - k,
    {
        let high = read_digit(raw[2 * k]);
        let low = read_digit(raw[2 * k + 1]);
        match (high, low) {
            (Some(high), Some(low)) => {
                let ghost before = bytes@;
                bytes.push(high * 16 + low);
                proof {
                    assert forall|i: int| 0 <= i < 2 * (k + 1) implies #[trigger] text@[i] == hex_of(
                        bytes@,
                    )[i] by {
                        if i < 2 * k {
                            assert(text@[i] == hex_of(before)[i]);
                            assert(before[i / 2] == bytes@[i / 2]);
                        } else {
                            assert(bytes@[i / 2] == high * 16 + low);
                            assert((high * 16 + low) as u8 / 16 == high);
                            assert((high * 16 + low) as u8 % 16 == low);
                            assert(raw@[i] == text@[i] as u8);
                        }
                    }
                }
            },
            _ => {
                proof {
                    assert forall|other: Seq<u8>| text@ != hex_of(other) by {
                        if text@ == hex_of(other) {
                            let i = if high is None {
                                2 * k as int
                            } else {
                                2 * k + 1
                            };
                            assert(raw@[i] == text@[i] as u8);
                            digit_reads_back(other[i / 2] / 16);
                            digit_reads_back(other[i / 2] % 16);
                            assert(text@[i] == hex_of(other)[i]);
                        }
                    }
                }
                return None;
            },
        }
        k = k + 1;
    }
    assert(text@ =~= hex_of(bytes@));
    Some(bytes)
}

/// Hexadecimal text stands for one sequence of bytes only.
pub proof fn hex_is_injective(a: Seq<u8>, b: Seq<u8>)
    requires
        hex_of(a) == hex_of(b),
    ensures
        a == b,
{
    assert(hex_of(a).len() == 2 * a.len());
    assert(hex_of(b).len() == 2 * b.len());
    assert forall|i: int| 0 <= i < a.len() implies a[i] == b[i] by {
        digit_reads_back(a[i] / 16);
        digit_reads_back(a[i] % 16);
        digit_reads_back(b[i] / 16);
        digit_reads_back(b[i] % 16);
        assert((2 * i) / 2 == i && (2 * i + 1) / 2 == i);
        assert((2 * i) % 2 == 0 && (2 * i + 1) % 2 == 1);
        assert(hex_of(a)[2 * i] == digit(a[i] / 16));
        assert(hex_of(b)[2 * i] == digit(b[i] / 16));
        assert(hex_of(a)[2 * i + 1] == digit(a[i] % 16));
        assert(hex_of(b)[2 * i + 1] == digit(b[i] % 16));
        assert(a[i] / 16 == b[i] / 16);
        assert(a[i] % 16 == b[i] % 16);
    }
    assert(a =~= b);
}

/// A token stands for one resume position only.
pub proof fn token_is_injective(a: Cursor, b: Cursor)
    requires
        token_of(a) == token_of(b),
    ensures
        a == b,
{
    hex_is_injective(bytes_of(a), bytes_of(b));
    lemma_auto_spec_u32_to_from_le_bytes();
    lemma_auto_spec_u64_to_from_le_bytes();
    let x = bytes_of(a);
    let y = bytes_of(b);
    assert(x.subrange(0, 4) =~= spec_u32_to_le_bytes(a.score));
    assert(y.subrange(0, 4) =~= spec_u32_to_le_bytes(b.score));
    assert(x.subrange(4, 12) =~= spec_u64_to_le_bytes(a.ordinal));
    assert(y.subrange(4, 12) =~= spec_u64_to_le_bytes(b.ordinal));
    assert(x.subrange(12, 20) =~= spec_u64_to_le_bytes(a.fingerprint));
    assert(y.subrange(12, 20) =~= spec_u64_to_le_bytes(b.fingerprint));
    assert(spec_u32_from_le_bytes(spec_u32_to_le_bytes(a.score)) == a.score);
    assert(spec_u32_from_le_bytes(spec_u32_to_le_bytes(b.score)) == b.score);
    assert(spec_u64_from_le_bytes(spec_u64_to_le_bytes(a.ordinal)) == a.ordinal);
    assert(spec_u64_from_le_bytes(spec_u64_to_le_bytes(b.ordinal)) == b.ordinal);
    assert(spec_u64_from_le_bytes(spec_u64_to_le_bytes(a.fingerprint)) == a.fingerprint);
    assert(spec_u64_from_le_bytes(spec_u64_to_le_bytes(b.fingerprint)) == b.fingerprint);
}

/// Reads a resume position back from a token. Exactly the tokens that
/// `encode` writes are read; any other text is refused.
pub fn decode(token: &str) -> (result: Option<Cursor>)
    ensures
        match result {
            Some(cursor) => token@ == token_of(cursor),
            None => forall|cursor: Cursor| token@ != token_of(cursor),
        },
{
    proof {
        lemma_auto_spec_u32_to_from_le_bytes();
        lemma_auto_spec_u64_to_from_le_bytes();
    }
    match from_hex(token) {
        Some(bytes) => {
            if bytes.len() != CURSOR_BYTES {
                proof {
                    assert forall|cursor: Cursor| token@ != token_of(cursor) by {
                        if token@ == token_of(cursor) {
                            hex_is_injective(bytes@, bytes_of(cursor));
                            assert(spec_u32_to_le_bytes(cursor.score).len() == 4);
                            assert(spec_u64_to_le_bytes(cursor.ordinal).len() == 8);
                            assert(spec_u64_to_le_bytes(cursor.fingerprint).len() == 8);
                        }
                    }
                }
                return None;
            }
            let all = bytes.as_slice();
            let score = u32_from_le_bytes(slice_subrange(all, 0, 4));
            let ordinal = u64_from_le_bytes(slice_subrange(all, 4, 12));
            let fingerprint = u64_from_le_bytes(slice_subrange(all, 12, 20));
            let cursor = Cursor { score, ordinal, fingerprint };
            proof {
                assert(spec_u32_to_le_bytes(score) == bytes@.subrange(0, 4));
                assert(spec_u64_to_le_bytes(ordinal) == bytes@.subrange(4, 12));
                assert(spec_u64_to_le_bytes(fingerprint) == bytes@.subrange(12, 20));
                assert(bytes_of(cursor) =~= bytes@);
            }
            Some(cursor)
        },
        None => {
            None
        },
    }
}

/// What is written is read back: the token of a position is read as that
/// position, and as no other.
pub proof fn token_round_trip(cursor: Cursor, read: Option<Cursor>)
    requires
        match read {
            Some(other) => token_of(cursor) == token_of(other),
            None => forall|other: Cursor| token_of(cursor) != token_of(other),
        },
    ensures
        read == Some(cursor),
{
    match read {
        Some(other) => {
            token_is_injective(cursor, other);
        },
        None => {
            assert(token_of(cursor) == token_of(cursor));
        },
    }
}

} // verus!
