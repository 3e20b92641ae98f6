//! Text encodings used on the wire: standard base64 for the binary fields and
//! lossy UTF-8 for inbound chunks.

use vstd::prelude::*;
use vstd::utf8::{decode_utf8, valid_utf8};

verus! {

/// Why a text is not standard padded base64.
#[derive(Debug, Clone, Copy, PartialEq, Eq)]
pub enum DecodeFailure {
    /// A byte outside the alphabet, or padding in the wrong place: offset and byte.
    InvalidByte(usize, u8),
    /// The number of symbols cannot be the length of an encoding.
    InvalidLength(usize),
    /// The last symbol carries bits that no encoder would have set: offset and byte.
    InvalidLastSymbol(usize, u8),
    /// Padding is missing or not canonical.
    InvalidPadding,
}

/// The bytes that a text stands for in standard padded base64, or why it stands for none.
pub uninterp spec fn standard_decoding(text: Seq<char>) -> Result<Seq<u8>, DecodeFailure>;

/// The standard padded base64 text of a byte string.
pub uninterp spec fn standard_encoding(bytes: Seq<u8>) -> Seq<char>;

/// The text that stands for a chunk of bytes when invalid UTF-8 is replaced.
pub uninterp spec fn lossy_text(bytes: Seq<u8>) -> Seq<char>;

/// The number of symbols in the padded encoding of `len` bytes.
pub open spec fn encoded_len(len: nat) -> nat {
    4 * ((len + 2) / 3)
}

/// Whether the encoding of `len` bytes has a length that fits in `usize`.
pub open spec fn encodable(len: nat) -> bool {
    encoded_len(len) <= usize::MAX
}

/// Tells whether the encoding of `len` bytes has a length that fits in `usize`.
pub fn fits_encoding(len: usize) -> (r: bool)
    ensures
        r == encodable(len as nat),
{
    let groups: usize = if len % 3 == 0 {
        len / 3
    } else {
        len / 3 + 1
    };
    groups <= usize::MAX / 4
}

/// The character of a decimal digit.
pub open spec fn digit_char(digit: nat) -> char
    recommends
        digit < 10,
{
    (48 + digit) as u8 as char
}

/// A natural number in decimal, without sign or leading zeros.
pub open spec fn decimal_text(n: nat) -> Seq<char>
    decreases n,
{
    if n < 10 {
        seq![digit_char(n)]
    } else {
        decimal_text(n / 10).push(digit_char(n % 10))
    }
}

impl DecodeFailure {
    /// The human-readable description of the failure.
    pub open spec fn text(self) -> Seq<char> {
        match self {
            DecodeFailure::InvalidByte(offset, byte) => "Invalid symbol "@ + decimal_text(
                byte as nat,
            ) + ", offset "@ + decimal_text(offset as nat) + "."@,
            DecodeFailure::InvalidLength(len) => "Invalid input length: "@ + decimal_text(
                len as nat,
            ),
            DecodeFailure::InvalidLastSymbol(offset, byte) => "Invalid last symbol "@
                + decimal_text(byte as nat) + ", offset "@ + decimal_text(offset as nat) + "."@,
            DecodeFailure::InvalidPadding => "Invalid padding"@,
        }
    }

    /// Calls `Display` of `base64::DecodeError` on the error with the same variant
    /// and fields. Trusted: the text is the one that `Display` impl writes, with
    /// each number in decimal.
    #[verifier::external_body]
    pub(crate) fn message(&self) -> (r: String)
        ensures
            r@ == self.text(),
    {
        let error = match *self {
            DecodeFailure::InvalidByte(offset, byte) => base64::DecodeError::InvalidByte(offset, byte),
            DecodeFailure::InvalidLength(len) => base64::DecodeError::InvalidLength(len),
            DecodeFailure::InvalidLastSymbol(offset, byte) => base64::DecodeError::InvalidLastSymbol(offset, byte),
            DecodeFailure::InvalidPadding => base64::DecodeError::InvalidPadding,
        };
        error.to_string()
    }
}

/// Calls `decode` of base64's `STANDARD` engine. Trusted: the outcome depends on
/// the text alone; nothing more is claimed of which bytes or which failure.
#[verifier::external_body]
pub(crate) fn decode_standard(text: &str) -> (r: Result<Vec<u8>, DecodeFailure>)
    ensures
        r matches Ok(bytes) ==> (standard_decoding(text@) == Ok::<Seq<u8>, DecodeFailure>(bytes@)),
        r matches Err(failure) ==> (standard_decoding(text@) == Err::<Seq<u8>, DecodeFailure>(failure)),
{
    match base64::Engine::decode(&base64::engine::general_purpose::STANDARD, text) {
        Ok(bytes) => Ok(bytes),
        Err(base64::DecodeError::InvalidByte(offset, byte)) => Err(DecodeFailure::InvalidByte(offset, byte)),
        Err(base64::DecodeError::InvalidLength(len)) => Err(DecodeFailure::InvalidLength(len)),
        Err(base64::DecodeError::InvalidLastSymbol(offset, byte)) => Err(DecodeFailure::InvalidLastSymbol(offset, byte)),
        Err(base64::DecodeError::InvalidPadding) => Err(DecodeFailure::InvalidPadding),
    }
}

/// Calls `encode` of base64's `STANDARD` engine, which panics when the encoded
/// length overflows `usize`. Trusted: the text depends on the bytes alone, has
/// the padded length, and decodes back to the bytes with the same engine.
#[verifier::external_body]
pub(crate) fn encode_standard(bytes: &[u8]) -> (r: String)
    requires
        encodable(bytes@.len()),
    ensures
        r@ == standard_encoding(bytes@),
        r@.len() == encoded_len(bytes@.len()),
        (standard_decoding(r@) == Ok::<Seq<u8>, DecodeFailure>(bytes@)),
{
    base64::Engine::encode(&base64::engine::general_purpose::STANDARD, bytes)
}

/// Calls `String::from_utf8_lossy`. Trusted: the text depends on the bytes
/// alone, and valid UTF-8 decodes to the characters it encodes.
#[verifier::external_body]
pub(crate) fn text_of_chunk(bytes: &[u8]) -> (r: String)
    ensures
        r@ == lossy_text(bytes@),
        valid_utf8(bytes@) ==> r@ == decode_utf8(bytes@),
{
    String::from_utf8_lossy(bytes).into_owned()
}

} // verus!
