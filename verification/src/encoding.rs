//! Hexadecimal encoding and decoding at the library's boundary, and the
//! validation of sender addresses.

use vstd::prelude::*;
use vstd::string::StrSliceExecFns;

verus! {

/// Errors of this library.
#[derive(Clone, Copy, Debug, PartialEq, Eq, Structural)]
pub enum SearchError {
    /// The sender address is not exactly 40 hexadecimal digits (20 bytes)
    /// after an optional `0x` prefix.
    InvalidSender,
}

/// True when `c` is a hexadecimal digit, of either case.
pub open spec fn is_hex_digit(c: char) -> bool {
    ('0' as int <= c as int && c as int <= '9' as int) || ('a' as int <= c as int && c as int
        <= 'f' as int) || ('A' as int <= c as int && c as int <= 'F' as int)
}

/// Numeric value of a hexadecimal digit.
pub open spec fn hex_digit_value(c: char) -> int {
    if '0' as int <= c as int && c as int <= '9' as int {
        c as int - '0' as int
    } else if 'a' as int <= c as int && c as int <= 'f' as int {
        10 + c as int - 'a' as int
    } else {
        10 + c as int - 'A' as int
    }
}

/// The sixteen lowercase hexadecimal digits, in order of value.
pub open spec fn hex_digits() -> Seq<char> {
    seq!['0', '1', '2', '3', '4', '5', '6', '7', '8', '9', 'a', 'b', 'c', 'd', 'e', 'f']
}

/// Lowercase hex encoding of a byte string: two digits per byte, high
/// nibble first.
pub open spec fn hex_encode_spec(b: Seq<u8>) -> Seq<char> {
    Seq::new(2 * b.len(), |i: int| hex_digits()[crate::scoring::nibble(b, i) as int])
}

/// An even-length string of hexadecimal digits.
pub open spec fn is_hex_string(s: Seq<char>) -> bool {
    s.len() % 2 == 0 && forall|i: int| 0 <= i < s.len() ==> is_hex_digit(#[trigger] s[i])
}

/// The bytes a hex string denotes: each pair of digits is one byte.
pub open spec fn hex_decode_spec(s: Seq<char>) -> Seq<u8> {
    Seq::new(s.len() / 2, |i: int| (16 * hex_digit_value(s[2 * i]) + hex_digit_value(s[2 * i + 1])) as u8)
}

/// The error type of the hex crate's decoder.
#[verifier::external_type_specification]
#[verifier::external_body]
pub struct ExFromHexError(hex::FromHexError);

/// Relies on hex::encode: lowercase hex encoding, two digits per byte.
#[verifier::external_body]
pub(crate) fn hex_encode(data: &[u8]) -> (r: String)
    ensures
        r@ == hex_encode_spec(data@),
{
    hex::encode(data)
}

/// Relies on hex::decode: succeeds exactly on even-length strings of hex
/// digits (either case mixed freely), returning one byte per digit pair.
#[verifier::external_body]
pub(crate) fn hex_decode(s: &str) -> (r: Result<Vec<u8>, hex::FromHexError>)
    ensures
        r is Ok <==> is_hex_string(s@),
        r matches Ok(v) ==> v@ == hex_decode_spec(s@),
{
    hex::decode(s)
}

/// `s` without its `0x` prefix, when it has one.
pub open spec fn trimmed_sender(s: Seq<char>) -> Seq<char> {
    if s.len() >= 2 && s[0] == '0' && s[1] == 'x' {
        s.skip(2)
    } else {
        s
    }
}

/// A well-formed sender address: 40 hex digits after an optional `0x`.
pub open spec fn valid_sender(s: Seq<char>) -> bool {
    is_hex_string(trimmed_sender(s)) && trimmed_sender(s).len() == 40
}

/// The 20 bytes a valid sender address denotes.
pub open spec fn sender_bytes(s: Seq<char>) -> Seq<u8> {
    hex_decode_spec(trimmed_sender(s))
}

/// Decodes a sender address into the 20 bytes it denotes, after stripping an
/// optional `0x` prefix; rejects anything that is not exactly 20 bytes of
/// hex digits.
pub fn decode_sender(sender: &str) -> (r: Result<[u8; 20], SearchError>)
    ensures
        r is Ok <==> valid_sender(sender@),
        r matches Ok(b) ==> b@ == sender_bytes(sender@),
        r matches Err(e) ==> e == SearchError::InvalidSender,
{
    let n = sender.unicode_len();
    let has_prefix = n >= 2 && sender.get_char(0) == '0' && sender.get_char(1) == 'x';
    let trimmed: &str = if has_prefix {
        sender.substring_char(2, n)
    } else {
        sender
    };
    proof {
        assert(trimmed@ =~= trimmed_sender(sender@));
    }
    match hex_decode(trimmed) {
        Err(_) => Err(SearchError::InvalidSender),
        Ok(v) => {
            if v.len() != 20 {
                Err(SearchError::InvalidSender)
            } else {
                let mut out: [u8; 20] = [0u8; 20];
                let mut i: usize = 0;
                while i < 20
                    invariant
                        i <= 20,
                        v@.len() == 20,
                        forall|j: int| 0 <= j < i ==> out@[j] == v@[j],
                    decreases 20 - i,
                {
                    out[i] = v[i];
                    i = i + 1;
                }
                proof {
                    assert(out@ =~= sender_bytes(sender@));
                }
                Ok(out)
            }
        },
    }
}

} // verus!
