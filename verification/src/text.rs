//! Trusted views of two std string operations that vstd does not
//! specify: whitespace trimming and lossy UTF-8 decoding.

use vstd::prelude::*;

verus! {

/// What `str::trim` returns: the input without its leading and trailing
/// whitespace. Left abstract because the Unicode white-space property is
/// a large character table; the result depends on the characters alone.
pub uninterp spec fn trim_of(s: Seq<char>) -> Seq<char>;

/// What `String::from_utf8_lossy` returns: the bytes decoded as UTF-8,
/// with every invalid sequence replaced by U+FFFD. Left abstract except
/// for the ASCII case stated on the wrapper below; the result depends
/// on the bytes alone.
pub uninterp spec fn lossy_of(bytes: Seq<u8>) -> Seq<char>;

/// Relies on `str::trim`: returns the input without leading or trailing
/// whitespace, as an owned string.
#[verifier::external_body]
pub fn trim_str(s: &str) -> (r: String)
    ensures
        r@ == trim_of(s@),
{
    s.trim().to_string()
}

/// Relies on `String::from_utf8_lossy`: decodes the bytes as UTF-8,
/// substituting U+FFFD for invalid sequences. Its documentation promises
/// that valid UTF-8 passes through unchanged; ASCII bytes are valid
/// UTF-8, one character per byte, which the second clause states.
#[verifier::external_body]
pub fn decode_lossy(bytes: &Vec<u8>) -> (r: String)
    ensures
        r@ == lossy_of(bytes@),
        (forall|i: int| 0 <= i < bytes@.len() ==> bytes@[i] < 128) ==> r@ == bytes@.map_values(
            |b: u8| b as char,
        ),
{
    String::from_utf8_lossy(bytes).into_owned()
}

} // verus!
