//! Conversions between hex, base58 and the database's bytea literals.
//!
//! Hexadecimal has an exact in-crate description: the encoding and decoding
//! calls promise precisely the digit-for-digit correspondence written out
//! below. Base58 is a base-conversion whose statement would not fit a
//! contract; its results are therefore only named, and everything built on
//! top speaks of those names.

use vstd::prelude::*;
use vstd::string::StringExecFns;

verus! {

/// Why an input string could not be converted.
#[derive(PartialEq, Eq, Structural, Clone, Copy, Debug)]
pub enum EncodingError {
    /// Not a string of hex digit pairs.
    InvalidHex,
    /// Not a base58 string.
    InvalidBase58,
}

/// The lowercase hex digit of a value below sixteen.
pub open spec fn hex_digit_char(v: u8) -> char {
    if v < 10 {
        ((v + 48) as u8) as char
    } else {
        ((v + 87) as u8) as char
    }
}

/// The hex spelling of `bytes`: two lowercase digits per byte, high first.
pub open spec fn hex_chars_of(bytes: Seq<u8>) -> Seq<char> {
    Seq::new(
        bytes.len() * 2,
        |i: int|
            if i % 2 == 0 {
                hex_digit_char(bytes[i / 2] / 16)
            } else {
                hex_digit_char(bytes[i / 2] % 16)
            },
    )
}

pub open spec fn is_hex_digit(c: char) -> bool {
    let u = c as u32;
    (48 <= u <= 57) || (97 <= u <= 102) || (65 <= u <= 70)
}

/// Value of one hex digit, either case.
pub open spec fn hex_digit_value(c: char) -> int {
    let u = c as u32;
    if 48 <= u <= 57 {
        u - 48
    } else if 97 <= u <= 102 {
        u - 87
    } else {
        u - 55
    }
}

/// A string the hex decoder accepts: digit pairs only.
pub open spec fn valid_hex(s: Seq<char>) -> bool {
    s.len() % 2 == 0 && forall|i: int| 0 <= i < s.len() ==> is_hex_digit(#[trigger] s[i])
}

/// The bytes a valid hex string spells.
pub open spec fn hex_bytes_of(s: Seq<char>) -> Seq<u8> {
    Seq::new(
        s.len() / 2,
        |i: int| (hex_digit_value(s[2 * i]) * 16 + hex_digit_value(s[2 * i + 1])) as u8,
    )
}

/// What `Base58::encode` spells for given bytes; the result depends on the
/// bytes alone.
pub uninterp spec fn base58_of(bytes: Seq<u8>) -> Seq<char>;

/// What `Base58::decode` makes of a string: the bytes it spells, or nothing
/// when it is not base58. The outcome depends on the characters alone.
pub uninterp spec fn base58_decoded(s: Seq<char>) -> Option<Seq<u8>>;

/// Relies on hex::encode: each byte becomes two lowercase hex digits, high
/// digit first.
#[verifier::external_body]
fn hex_encode(bytes: &Vec<u8>) -> (r: String)
    ensures
        r@ == hex_chars_of(bytes@),
{
    hex::encode(bytes.as_slice())
}

#[verifier::external_type_specification]
#[verifier::external_body]
pub struct ExFromHexError(hex::FromHexError);

/// Relies on hex::decode: pairs of hex digits, either case, become bytes;
/// an odd length or a character that is no hex digit is refused.
#[verifier::external_body]
fn hex_decode(s: &str) -> (r: Result<Vec<u8>, hex::FromHexError>)
    ensures
        r is Ok <==> valid_hex(s@),
        r matches Ok(b) ==> b@ == hex_bytes_of(s@),
{
    hex::decode(s)
}

#[verifier::external_type_specification]
#[verifier::external_body]
pub struct ExFastCryptoError(fastcrypto::error::FastCryptoError);

/// Relies on fastcrypto's Base58::encode; the result depends on the bytes
/// alone.
#[verifier::external_body]
fn base58_encode(bytes: &Vec<u8>) -> (r: String)
    ensures
        r@ == base58_of(bytes@),
{
    <fastcrypto::encoding::Base58 as fastcrypto::encoding::Encoding>::encode(bytes.as_slice())
}

/// Relies on fastcrypto's Base58::decode; whether it succeeds, and the bytes
/// it yields, depend on the characters alone.
#[verifier::external_body]
fn base58_decode(s: &str) -> (r: Result<Vec<u8>, fastcrypto::error::FastCryptoError>)
    ensures
        r is Ok <==> base58_decoded(s@) is Some,
        r matches Ok(b) ==> base58_decoded(s@) == Some(b@),
{
    <fastcrypto::encoding::Base58 as fastcrypto::encoding::Encoding>::decode(s)
}

/// Rewrites a base58-spelled value as the SQL predicate that finds it in a
/// bytea column: the value's bytes, hex-spelled, spliced into the query
/// text.
pub fn match_base58_with_bytea(base58_string: &str) -> (r: Result<String, EncodingError>)
    ensures
        r is Ok <==> base58_decoded(base58_string@) is Some,
        r matches Ok(q) ==> base58_decoded(base58_string@) matches Some(b) && q@
            == "SELECT * FROM your_table WHERE your_bytea_column = '\\x"@ + hex_chars_of(b)
            + "'"@,
        r is Err ==> r == Err::<String, _>(EncodingError::InvalidBase58),
{
    match base58_decode(base58_string) {
        Err(_) => Err(EncodingError::InvalidBase58),
        Ok(bytes) => {
            let hex_string = hex_encode(&bytes);
            let mut query = String::from_str(
                "SELECT * FROM your_table WHERE your_bytea_column = '\\x",
            );
            query.append(hex_string.as_str());
            query.append("'");
            Ok(query)
        },
    }
}

/// Respells a hex string in base58.
pub fn from_hex_to_base58(hex_string: &str) -> (r: Result<String, EncodingError>)
    ensures
        r is Ok <==> valid_hex(hex_string@),
        r matches Ok(b58) ==> b58@ == base58_of(hex_bytes_of(hex_string@)),
        r is Err ==> r == Err::<String, _>(EncodingError::InvalidHex),
{
    match hex_decode(hex_string) {
        Err(_) => Err(EncodingError::InvalidHex),
        Ok(bytes) => Ok(base58_encode(&bytes)),
    }
}

} // verus!
