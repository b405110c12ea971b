//! Text encodings of binary values: Base64 for transaction envelopes, Base58
//! for digests and hexadecimal for addresses.
//!
//! The encodings themselves are the work of `fastcrypto`. Base64 and Base58 are
//! known to the proofs by name only; hexadecimal is short enough to be written
//! out in full, so what the hexadecimal calls return is stated exactly.

use fastcrypto::encoding::{Base58, Base64, Encoding, Hex};
use vstd::prelude::*;

verus! {

/// The bytes that a Base64 text stands for; `None` where the text is not Base64.
pub uninterp spec fn base64_decoded(text: Seq<char>) -> Option<Seq<u8>>;

/// The Base64 text of a byte string.
pub uninterp spec fn base64_encoded(bytes: Seq<u8>) -> Seq<char>;

/// The bytes that a Base58 text stands for; `None` where the text is not Base58.
pub uninterp spec fn base58_decoded(text: Seq<char>) -> Option<Seq<u8>>;

/// The Base58 text of a byte string.
pub uninterp spec fn base58_encoded(bytes: Seq<u8>) -> Seq<char>;

/// The value of one hexadecimal digit, in either case.
pub open spec fn hex_digit_value(c: char) -> Option<int> {
    let n = c as int;
    if '0' as int <= n <= '9' as int {
        Some(n - '0' as int)
    } else if 'a' as int <= n <= 'f' as int {
        Some(n - 'a' as int + 10)
    } else if 'A' as int <= n <= 'F' as int {
        Some(n - 'A' as int + 10)
    } else {
        None
    }
}

/// The lower-case hexadecimal digit of a value below sixteen.
pub open spec fn hex_digit(value: int) -> char {
    if value < 10 {
        ('0' as int + value) as char
    } else {
        ('a' as int + value - 10) as char
    }
}

/// A hexadecimal text without its optional `0x` prefix.
pub open spec fn hex_payload(text: Seq<char>) -> Seq<char> {
    if text.len() >= 2 && text[0] == '0' && text[1] == 'x' {
        text.skip(2)
    } else {
        text
    }
}

/// Whether every character of `digits` is a hexadecimal digit.
pub open spec fn all_hex_digits(digits: Seq<char>) -> bool {
    forall|i: int| 0 <= i < digits.len() ==> (#[trigger] hex_digit_value(digits[i])) is Some
}

/// The byte that two hexadecimal digits spell, high digit first.
pub open spec fn hex_pair(high: char, low: char) -> u8 {
    (16 * hex_digit_value(high).unwrap() + hex_digit_value(low).unwrap()) as u8
}

/// The bytes that a hexadecimal text stands for. The text may start with
/// `0x`; what follows must be an even number of digits, upper or lower case.
pub open spec fn hex_decoded(text: Seq<char>) -> Option<Seq<u8>> {
    let digits = hex_payload(text);
    if digits.len() % 2 == 0 && all_hex_digits(digits) {
        Some(Seq::new(digits.len() / 2, |i: int| hex_pair(digits[2 * i], digits[2 * i + 1])))
    } else {
        None
    }
}

/// The lower-case hexadecimal digits of a byte string, two for each byte.
pub open spec fn hex_encoded(bytes: Seq<u8>) -> Seq<char> {
    Seq::new(
        2 * bytes.len(),
        |i: int|
            if i % 2 == 0 {
                hex_digit(bytes[i / 2] as int / 16)
            } else {
                hex_digit(bytes[i / 2] as int % 16)
            },
    )
}

/// The hexadecimal text of a byte string behind the prefix `0x`.
pub open spec fn prefixed_hex(bytes: Seq<u8>) -> Seq<char> {
    seq!['0', 'x'] + hex_encoded(bytes)
}

/// Whether `text` is the Base64 envelope of `bytes`: the encoder's answer for
/// them, which the decoder turns back into them.
pub open spec fn is_envelope_of(text: Seq<char>, bytes: Seq<u8>) -> bool {
    text == base64_encoded(bytes) && base64_decoded(text) == Some(bytes)
}

/// Prefixed hexadecimal text reads back as the bytes it was written from.
pub proof fn lemma_prefixed_hex_decodes(bytes: Seq<u8>)
    ensures
        hex_decoded(prefixed_hex(bytes)) == Some(bytes),
{
    let text = prefixed_hex(bytes);
    let digits = hex_encoded(bytes);
    assert(hex_payload(text) =~= digits);
    assert forall|i: int| 0 <= i < digits.len() implies (#[trigger] hex_digit_value(
        digits[i],
    )) is Some by {
        lemma_hex_digit_value(bytes[i / 2] as int / 16);
        lemma_hex_digit_value(bytes[i / 2] as int % 16);
    }
    let decoded = hex_decoded(text).unwrap();
    assert forall|k: int| 0 <= k < bytes.len() implies decoded[k] == bytes[k] by {
        lemma_hex_digit_value(bytes[k] as int / 16);
        lemma_hex_digit_value(bytes[k] as int % 16);
        assert((2 * k) / 2 == k && (2 * k) % 2 == 0);
        assert((2 * k + 1) / 2 == k && (2 * k + 1) % 2 == 1);
        assert(digits[2 * k] == hex_digit(bytes[k] as int / 16));
        assert(digits[2 * k + 1] == hex_digit(bytes[k] as int % 16));
    }
    assert(decoded =~= bytes);
}

/// A hexadecimal digit has the value it was written for.
proof fn lemma_hex_digit_value(value: int)
    requires
        0 <= value < 16,
    ensures
        hex_digit_value(hex_digit(value)) == Some(value),
{
}

/// `fastcrypto::encoding::Base64::decode`, the error dropped. Trusted: whether
/// it accepts a text, and the bytes it then returns, depend on the text alone.
#[verifier::external_body]
pub(crate) fn base64_decode(text: &str) -> (r: Option<Vec<u8>>)
    ensures
        match r {
            Some(bytes) => base64_decoded(text@) == Some(bytes@),
            None => base64_decoded(text@) is None,
        },
{
    Base64::decode(text).ok()
}

/// `fastcrypto::encoding::Base64::encode`. Trusted: the text depends on the
/// bytes alone, and decoding it gives the bytes back. The encoder panics on
/// more than `usize::MAX / 4` bytes, which `requires` leaves out.
#[verifier::external_body]
pub(crate) fn base64_encode(bytes: &[u8]) -> (r: String)
    requires
        bytes@.len() <= usize::MAX / 4,
    ensures
        r@ == base64_encoded(bytes@),
        base64_decoded(r@) == Some(bytes@),
{
    Base64::encode(bytes)
}

/// `fastcrypto::encoding::Base58::decode`, the error dropped. Trusted: whether
/// it accepts a text, and the bytes it then returns, depend on the text alone.
#[verifier::external_body]
pub(crate) fn base58_decode(text: &str) -> (r: Option<Vec<u8>>)
    ensures
        match r {
            Some(bytes) => base58_decoded(text@) == Some(bytes@),
            None => base58_decoded(text@) is None,
        },
{
    Base58::decode(text).ok()
}

/// `fastcrypto::encoding::Base58::encode` on 32 bytes. Trusted: the text
/// depends on the bytes alone, and decoding it gives the bytes back.
#[verifier::external_body]
pub(crate) fn base58_encode(bytes: &[u8; 32]) -> (r: String)
    ensures
        r@ == base58_encoded(bytes@),
        base58_decoded(r@) == Some(bytes@),
{
    Base58::encode(bytes)
}

/// `fastcrypto::encoding::Hex::decode`, the error dropped. Trusted: it strips
/// one leading `0x`, then accepts an even number of hexadecimal digits in
/// either case and returns the byte that each pair spells.
#[verifier::external_body]
pub(crate) fn hex_decode(text: &str) -> (r: Option<Vec<u8>>)
    ensures
        match r {
            Some(bytes) => hex_decoded(text@) == Some(bytes@),
            None => hex_decoded(text@) is None,
        },
{
    Hex::decode(text).ok()
}

/// `fastcrypto::encoding::Hex::encode_with_format` on 32 bytes. Trusted: it
/// writes `0x` and then two lower-case digits for each byte.
#[verifier::external_body]
pub(crate) fn hex_encode_prefixed(bytes: &[u8; 32]) -> (r: String)
    ensures
        r@ == prefixed_hex(bytes@),
{
    Hex::encode_with_format(bytes)
}

/// Decodes the Base64 envelope of a transaction body.
pub fn decode_envelope(envelope: &str) -> (r: Option<Vec<u8>>)
    ensures
        match r {
            Some(bytes) => base64_decoded(envelope@) == Some(bytes@),
            None => base64_decoded(envelope@) is None,
        },
{
    base64_decode(envelope)
}

/// Writes a transaction body as its Base64 envelope.
pub fn encode_envelope(bytes: &[u8]) -> (envelope: String)
    requires
        bytes@.len() <= usize::MAX / 4,
    ensures
        is_envelope_of(envelope@, bytes@),
{
    base64_encode(bytes)
}

} // verus!
