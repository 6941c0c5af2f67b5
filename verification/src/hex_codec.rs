use vstd::prelude::*;
use vstd::string::StringSliceAdditionalSpecFns;

verus! {

/// Why a hex string was refused (the variants of `hex::FromHexError`).
#[derive(Clone, Copy, Debug, PartialEq, Eq, Structural)]
pub enum HexError {
    /// A byte that is not `0-9`, `a-f` or `A-F`, with its position.
    InvalidHexCharacter { c: char, index: usize },
    /// The input has an odd number of bytes.
    OddLength,
    /// The input does not fit a fixed-size output.
    InvalidStringLength,
}

/// The lower-case hex digit of `n` (`0 <= n < 16`).
pub open spec fn hex_digit(n: int) -> char {
    if n < 10 {
        (48 + n) as char
    } else {
        (87 + n) as char
    }
}

/// Lower-case hex text of `bytes`: two digits per byte, high nibble first.
pub open spec fn hex_encoding(bytes: Seq<u8>) -> Seq<char> {
    Seq::new(
        2 * bytes.len(),
        |i: int|
            if i % 2 == 0 {
                hex_digit(bytes[i / 2] as int / 16)
            } else {
                hex_digit(bytes[i / 2] as int % 16)
            },
    )
}

/// Whether `c` is one of `0-9`, `a-f`, `A-F`.
pub open spec fn is_hex_byte(c: u8) -> bool {
    (48 <= c <= 57) || (97 <= c <= 102) || (65 <= c <= 70)
}

/// The value of the hex digit `c`.
pub open spec fn hex_value(c: u8) -> int {
    if 48 <= c <= 57 {
        c - 48
    } else if 97 <= c <= 102 {
        c - 87
    } else {
        c - 55
    }
}

/// Whether `k` is the position of the first byte of `text` that is not a hex digit.
pub open spec fn first_non_hex(text: Seq<u8>, k: int) -> bool {
    &&& 0 <= k < text.len()
    &&& !is_hex_byte(text[k])
    &&& forall|j: int| 0 <= j < k ==> is_hex_byte(#[trigger] text[j])
}

/// The bytes that the hex text `text` denotes, two digits per byte.
pub open spec fn hex_bytes(text: Seq<u8>) -> Seq<u8> {
    Seq::new(
        text.len() / 2,
        |i: int| (hex_value(text[2 * i]) * 16 + hex_value(text[2 * i + 1])) as u8,
    )
}

/// What decoding the hex text `text` gives: an odd length is refused first,
/// then the first byte that is not a hex digit, else the denoted bytes.
pub open spec fn hex_decoding(text: Seq<u8>) -> Result<Seq<u8>, HexError> {
    if text.len() % 2 != 0 {
        Err(HexError::OddLength)
    } else if exists|k: int| first_non_hex(text, k) {
        let k = choose|k: int| first_non_hex(text, k);
        Err(HexError::InvalidHexCharacter { c: text[k] as char, index: k as usize })
    } else {
        Ok(hex_bytes(text))
    }
}

/// Calls `hex::encode`; claims that the result is the lower-case hex text of
/// `bytes`, two digits per byte, high nibble first.
#[verifier::external_body]
pub(crate) fn hex_encode(bytes: &[u8]) -> (res: String)
    ensures
        res@ == hex_encoding(bytes@),
{
    hex::encode(bytes)
}

/// Calls `hex::decode` on the UTF-8 bytes of `text`; claims that it refuses an
/// odd length, then the first byte that is not a hex digit (reporting that
/// byte as a char and its position), and otherwise returns the denoted bytes.
#[verifier::external_body]
pub(crate) fn hex_decode(text: &str) -> (res: Result<Vec<u8>, HexError>)
    ensures
        match res {
            Ok(v) => hex_decoding(text.spec_bytes()) == Ok::<Seq<u8>, HexError>(v@),
            Err(e) => hex_decoding(text.spec_bytes()) == Err::<Seq<u8>, HexError>(e),
        },
{
    match hex::decode(text) {
        Ok(v) => Ok(v),
        Err(hex::FromHexError::InvalidHexCharacter { c, index }) => Err(
            HexError::InvalidHexCharacter { c, index },
        ),
        Err(hex::FromHexError::OddLength) => Err(HexError::OddLength),
        Err(hex::FromHexError::InvalidStringLength) => Err(HexError::InvalidStringLength),
    }
}

/// The value of a lower-case hex digit, inverse of `hex_digit`.
pub proof fn lemma_hex_digit_value(n: int)
    requires
        0 <= n < 16,
    ensures
        is_hex_byte(hex_digit(n) as u8),
        hex_value(hex_digit(n) as u8) == n,
{
}

/// The bytes of the ASCII text `text`, one per character.
pub open spec fn ascii_bytes(text: Seq<char>) -> Seq<u8> {
    Seq::new(text.len(), |i: int| text[i] as u8)
}

/// Decoding the (ASCII) hex text of any bytes gives those bytes back.
pub proof fn lemma_hex_text_round_trip(bytes: Seq<u8>)
    ensures
        hex_decoding(ascii_bytes(hex_encoding(bytes))) == Ok::<Seq<u8>, HexError>(bytes),
{
    let bs = ascii_bytes(hex_encoding(bytes));
    assert forall|j: int| 0 <= j < bs.len() implies is_hex_byte(#[trigger] bs[j]) by {
        let b = bytes[j / 2];
        if j % 2 == 0 {
            lemma_hex_digit_value(b as int / 16);
        } else {
            lemma_hex_digit_value(b as int % 16);
        }
    }
    assert(!exists|k: int| first_non_hex(bs, k));
    assert forall|i: int| 0 <= i < bytes.len() implies #[trigger] hex_bytes(bs)[i] == bytes[i] by {
        let b = bytes[i];
        lemma_hex_digit_value(b as int / 16);
        lemma_hex_digit_value(b as int % 16);
        assert((2 * i) / 2 == i);
        assert((2 * i + 1) / 2 == i);
        assert((2 * i) % 2 == 0);
        assert((2 * i + 1) % 2 == 1);
        assert(b as int == (b as int / 16) * 16 + b as int % 16);
    }
    assert(hex_bytes(bs) =~= bytes);
}

/// Decoding the hex text of any bytes gives those bytes back: the text that
/// `hex_encode` produces is accepted by `hex_decode`, which returns the
/// original bytes.
pub proof fn lemma_hex_round_trip(text: &str, bytes: Seq<u8>)
    requires
        text@ == hex_encoding(bytes),
    ensures
        hex_decoding(text.spec_bytes()) == Ok::<Seq<u8>, HexError>(bytes),
{
    broadcast use vstd::string::is_ascii_spec_bytes;

    assert forall|j: int| 0 <= j < text@.len() implies '\0' <= #[trigger] text@[j] <= '\u{7f}' by {
        let b = bytes[j / 2];
        if j % 2 == 0 {
            lemma_hex_digit_value(b as int / 16);
        } else {
            lemma_hex_digit_value(b as int % 16);
        }
    }
    assert(vstd::string::is_ascii(text));
    assert(text.spec_bytes() =~= ascii_bytes(hex_encoding(bytes)));
    lemma_hex_text_round_trip(bytes);
}

/// `c` with a lower-case hex letter (`a-f`) made upper-case.
pub open spec fn upper_hex_letter(c: u8) -> u8 {
    if 97 <= c <= 102 {
        (c - 32) as u8
    } else {
        c
    }
}

/// `text` with its lower-case hex letters made upper-case.
pub open spec fn upper_hex_letters(text: Seq<u8>) -> Seq<u8> {
    Seq::new(text.len(), |i: int| upper_hex_letter(text[i]))
}

/// Hex decoding does not depend on the case of the digits `a-f`: the same
/// bytes, or the same error, come out of a text and of its upper-case form.
pub proof fn law_hex_decoding_ignores_case(text: Seq<u8>)
    ensures
        hex_decoding(upper_hex_letters(text)) == hex_decoding(text),
{
    let u = upper_hex_letters(text);
    assert forall|j: int| #![trigger u[j]] #![trigger text[j]] 0 <= j < text.len() implies (is_hex_byte(u[j])
        == is_hex_byte(text[j]) && (is_hex_byte(text[j]) ==> hex_value(u[j]) == hex_value(text[j]))
        && (!is_hex_byte(text[j]) ==> u[j] == text[j])) by {}
    if text.len() % 2 == 0 {
        assert forall|k: int| first_non_hex(u, k) <==> first_non_hex(text, k) by {
            if 0 <= k < text.len() {
                if forall|j: int| 0 <= j < k ==> is_hex_byte(#[trigger] text[j]) {
                    assert forall|j: int| 0 <= j < k implies is_hex_byte(#[trigger] u[j]) by {
                        assert(is_hex_byte(text[j]));
                    }
                }
                if forall|j: int| 0 <= j < k ==> is_hex_byte(#[trigger] u[j]) {
                    assert forall|j: int| 0 <= j < k implies is_hex_byte(#[trigger] text[j]) by {
                        assert(is_hex_byte(u[j]));
                    }
                }
            }
        }
        if exists|k: int| first_non_hex(text, k) {
            let k1 = choose|k: int| first_non_hex(u, k);
            let k2 = choose|k: int| first_non_hex(text, k);
            assert(first_non_hex(text, k1));
            if k1 < k2 {
                assert(is_hex_byte(text[k1]));
            } else if k2 < k1 {
                assert(is_hex_byte(text[k2]));
            }
            assert(k1 == k2);
            assert(u[k1] == text[k1]);
        } else {
            assert forall|i: int| 0 <= i < text.len() / 2 implies #[trigger] hex_bytes(u)[i]
                == hex_bytes(text)[i] by {
                if !is_hex_byte(text[2 * i]) {
                    lemma_first_non_hex_exists(text, 2 * i);
                }
                if !is_hex_byte(text[2 * i + 1]) {
                    lemma_first_non_hex_exists(text, 2 * i + 1);
                }
            }
            assert(hex_bytes(u) =~= hex_bytes(text));
        }
    }
}

/// A text with a byte that is not a hex digit has a first such byte.
proof fn lemma_first_non_hex_exists(text: Seq<u8>, j: int)
    requires
        0 <= j < text.len(),
        !is_hex_byte(text[j]),
    ensures
        exists|k: int| first_non_hex(text, k),
    decreases j,
{
    if forall|i: int| 0 <= i < j ==> is_hex_byte(#[trigger] text[i]) {
        assert(first_non_hex(text, j));
    } else {
        let i = choose|i: int| 0 <= i < j && !is_hex_byte(#[trigger] text[i]);
        lemma_first_non_hex_exists(text, i);
    }
}

} // verus!
