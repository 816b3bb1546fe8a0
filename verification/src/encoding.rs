//! Canonical binary encoding of the values that parties commit to.

use vstd::bytes::spec_u64_to_le_bytes;
use vstd::prelude::*;
use vstd::utf8::encode_utf8;

verus! {

/// Encoding of one string: its length in UTF-8 bytes as a little-endian
/// 64-bit integer, then those bytes.
pub open spec fn encode_string(s: Seq<char>) -> Seq<u8> {
    spec_u64_to_le_bytes(encode_utf8(s).len() as u64) + encode_utf8(s)
}

/// Encoding of a pair of strings: the first string's encoding, then the second's.
pub open spec fn encode_string_pair(first: Seq<char>, second: Seq<char>) -> Seq<u8> {
    encode_string(first) + encode_string(second)
}

/// Calls `bincode::serialize` on the tuple `(first, second)`; an error of the
/// codec comes back rendered as text.
///
/// With the fixed-width little-endian integers and the unlimited size that this
/// entry point of `bincode` selects, a tuple is written as its fields in order
/// and a string as its byte length in eight bytes followed by its bytes; writing
/// into a vector cannot fail, so the call succeeds.
#[verifier::external_body]
pub(crate) fn bincode_serialize_pair(first: &str, second: &str) -> (out: Result<Vec<u8>, String>)
    ensures
        out is Ok,
        out.unwrap()@ == encode_string_pair(first@, second@),
{
    bincode::serialize(&(first, second)).map_err(|e| e.to_string())
}

} // verus!
