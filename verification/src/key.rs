//! Cache keys: the name under which a requested path is stored.

use sha1::{Digest, Sha1};
use vstd::prelude::*;
use vstd::string::*;
use vstd::utf8::encode_utf8;

verus! {

/// Number of bytes in a digest.
pub const DIGEST_LEN: usize = 20;

/// Number of characters in a cache key: two per digest byte.
pub const KEY_LEN: usize = 40;

/// The SHA-1 digest of a byte string.
pub uninterp spec fn sha1_digest(data: Seq<u8>) -> Seq<u8>;

/// Calls `sha1::Sha1::digest`, which hashes the whole input in one go.
///
/// Not proved: that the twenty bytes which come back are the SHA-1 digest of
/// `data`, a function of the input bytes alone.
#[verifier::external_body]
fn digest_of(data: &[u8]) -> (digest: [u8; DIGEST_LEN])
    ensures
        digest@ == sha1_digest(data@),
{
    Sha1::digest(data).into()
}

/// The lower-case hexadecimal digit of a value below sixteen.
pub open spec fn hex_digit(n: int) -> char {
    if n == 0 {
        '0'
    } else if n == 1 {
        '1'
    } else if n == 2 {
        '2'
    } else if n == 3 {
        '3'
    } else if n == 4 {
        '4'
    } else if n == 5 {
        '5'
    } else if n == 6 {
        '6'
    } else if n == 7 {
        '7'
    } else if n == 8 {
        '8'
    } else if n == 9 {
        '9'
    } else if n == 10 {
        'a'
    } else if n == 11 {
        'b'
    } else if n == 12 {
        'c'
    } else if n == 13 {
        'd'
    } else if n == 14 {
        'e'
    } else {
        'f'
    }
}

/// A character that a lower-case hexadecimal number is written with.
pub open spec fn is_hex_char(c: char) -> bool {
    ('0' <= c && c <= '9') || ('a' <= c && c <= 'f')
}

/// The bytes written in lower-case hexadecimal, two digits each, the high
/// half first.
pub open spec fn hex_lower(bytes: Seq<u8>) -> Seq<char> {
    Seq::new(
        2 * bytes.len(),
        |i: int|
            if i % 2 == 0 {
                hex_digit(bytes[i / 2] as int / 16)
            } else {
                hex_digit(bytes[i / 2] as int % 16)
            },
    )
}

/// The cache key of a request path: the hexadecimal SHA-1 digest of the
/// path's UTF-8 bytes. The repository takes no part in it.
pub open spec fn cache_key_of(path: Seq<char>) -> Seq<char> {
    hex_lower(sha1_digest(encode_utf8(path)))
}

/// A text that can serve as a flat file name: of the fixed key length and
/// made of hexadecimal digits only.
pub open spec fn is_key(key: Seq<char>) -> bool {
    &&& key.len() == KEY_LEN
    &&& forall|i: int| 0 <= i < key.len() ==> is_hex_char(#[trigger] key[i])
}

/// Hexadecimal text has two characters per byte, each a hexadecimal digit;
/// so it holds no path separator and no dot.
pub proof fn hex_lower_is_filename_safe(bytes: Seq<u8>)
    ensures
        hex_lower(bytes).len() == 2 * bytes.len(),
        forall|i: int|
            0 <= i < hex_lower(bytes).len() ==> is_hex_char(#[trigger] hex_lower(bytes)[i]),
        !hex_lower(bytes).contains('/'),
        !hex_lower(bytes).contains('\\'),
        !hex_lower(bytes).contains('.'),
{
}

/// The one-character text of a hexadecimal digit.
fn hex_digit_text(n: u8) -> (digit: &'static str)
    requires
        n < 16,
    ensures
        digit@ == seq![hex_digit(n as int)],
{
    proof {
        reveal_strlit("0");
        reveal_strlit("1");
        reveal_strlit("2");
        reveal_strlit("3");
        reveal_strlit("4");
        reveal_strlit("5");
        reveal_strlit("6");
        reveal_strlit("7");
        reveal_strlit("8");
        reveal_strlit("9");
        reveal_strlit("a");
        reveal_strlit("b");
        reveal_strlit("c");
        reveal_strlit("d");
        reveal_strlit("e");
        reveal_strlit("f");
    }
    let digit = match n {
        0 => "0",
        1 => "1",
        2 => "2",
        3 => "3",
        4 => "4",
        5 => "5",
        6 => "6",
        7 => "7",
        8 => "8",
        9 => "9",
        10 => "a",
        11 => "b",
        12 => "c",
        13 => "d",
        14 => "e",
        _ => "f",
    };
    assert(digit@ =~= seq![hex_digit(n as int)]);
    digit
}

/// Writes bytes in lower-case hexadecimal.
pub fn to_hex(bytes: &[u8]) -> (text: String)
    ensures
        text@ == hex_lower(bytes@),
{
    let mut text = String::new();
    let mut i: usize = 0;
    while i < bytes.len()
        invariant
            0 <= i <= bytes@.len(),
            text@ == hex_lower(bytes@.subrange(0, i as int)),
        decreases bytes@.len() - i,
    {
        let byte: u8 = bytes[i];
        let ghost before = text@;
        text.append(hex_digit_text(byte / 16));
        text.append(hex_digit_text(byte % 16));
        assert(text@ =~= hex_lower(bytes@.subrange(0, i + 1))) by {
            let prefix = bytes@.subrange(0, i as int);
            let longer = bytes@.subrange(0, i + 1);
            assert(text@ == before + seq![hex_digit(byte as int / 16)] + seq![
                hex_digit(byte as int % 16),
            ]);
            assert forall|k: int| 0 <= k < 2 * i implies hex_lower(longer)[k] == hex_lower(
                prefix,
            )[k] by {
                assert(longer[k / 2] == prefix[k / 2]);
            }
            assert(longer[i as int] == byte);
        }
        i += 1;
    }
    assert(bytes@.subrange(0, i as int) =~= bytes@);
    text
}

/// Derives the cache key of a request path.
///
/// The key depends on the path alone, is always forty hexadecimal digits
/// long, and so is safe as a flat file name.
pub fn cache_key(path: &str) -> (key: String)
    ensures
        key@ == cache_key_of(path@),
        is_key(key@),
        !key@.contains('/'),
{
    let digest: [u8; DIGEST_LEN] = digest_of(path.as_bytes());
    let key = to_hex(digest.as_slice());
    proof {
        hex_lower_is_filename_safe(digest@);
    }
    key
}

/// The cache key is a function of the path: equal paths have equal keys,
/// whatever the repository and whenever it is computed.
pub proof fn cache_key_is_deterministic(first: Seq<char>, second: Seq<char>)
    requires
        first == second,
    ensures
        cache_key_of(first) == cache_key_of(second),
{
}

} // verus!

