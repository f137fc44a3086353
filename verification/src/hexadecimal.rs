//! Hexadecimal text for byte strings.

use vstd::prelude::*;
use vstd::string::*;

verus! {

/// The sixteen lower-case hexadecimal digits, in order.
pub open spec fn hex_alphabet() -> Seq<char> {
    seq!['0', '1', '2', '3', '4', '5', '6', '7', '8', '9', 'a', 'b', 'c', 'd', 'e', 'f']
}

/// Lower-case hexadecimal form of `bytes`: two digits per byte, the high
/// nibble first.
pub open spec fn hex_chars(bytes: Seq<u8>) -> Seq<char> {
    Seq::new(
        2 * bytes.len(),
        |i: int|
            if i % 2 == 0 {
                hex_alphabet()[bytes[i / 2] as int / 16]
            } else {
                hex_alphabet()[bytes[i / 2] as int % 16]
            },
    )
}

/// `0x` followed by the hexadecimal form of `bytes`.
pub open spec fn prefixed_hex(bytes: Seq<u8>) -> Seq<char> {
    seq!['0', 'x'] + hex_chars(bytes)
}

/// Encodes with `hex::encode`.
///
/// Trusted: the string holds two lower-case hexadecimal digits for each
/// byte, in the order of the bytes, the high nibble first.
#[verifier::external_body]
pub(crate) fn hex_encode(bytes: &[u8]) -> (text: String)
    ensures
        text@ == hex_chars(bytes@),
{
    hex::encode(bytes)
}

/// `bytes` in hexadecimal behind the prefix `0x`.
pub fn hex_with_prefix(bytes: &[u8]) -> (text: String)
    ensures
        text@ == prefixed_hex(bytes@),
        text@.len() == 2 + 2 * bytes@.len(),
{
    let digits = hex_encode(bytes);
    proof {
        reveal_strlit("0x");
    }
    String::from_str("0x").concat(digits.as_str())
}

/// The hexadecimal form of two byte strings joined is the two forms joined.
pub proof fn lemma_hex_chars_of_concat(first: Seq<u8>, second: Seq<u8>)
    ensures
        hex_chars(first + second) == hex_chars(first) + hex_chars(second),
{
    let joined = hex_chars(first + second);
    let parts = hex_chars(first) + hex_chars(second);
    assert forall|i: int| 0 <= i < joined.len() implies joined[i] == parts[i] by {
        if i >= 2 * first.len() {
            assert(parts[i] == hex_chars(second)[i - 2 * first.len()]);
        }
    }
}

} // verus!
