use vstd::prelude::*;
use vstd::utf8::decode_utf8;
use vstd::utf8::encode_utf8;
use vstd::utf8::valid_utf8;

use crate::error::StoreError;

verus! {

/// The number of bytes of a file that are kept when the ceiling is `max`.
pub open spec fn kept_len(len: nat, max: u64) -> nat {
    if len <= max as nat { len } else { max as nat }
}

/// The bytes of a file that make up its value: at most `max` from its start.
pub open spec fn kept_bytes(raw: Seq<u8>, max: u64) -> Seq<u8> {
    raw.take(kept_len(raw.len(), max) as int)
}

/// The value of a file whose content is `raw`, read under the ceiling `max`:
/// the kept bytes as text, or nothing when they are not valid UTF-8.
pub open spec fn resolved_value(raw: Seq<u8>, max: u64) -> Option<Seq<char>> {
    if valid_utf8(kept_bytes(raw, max)) {
        Some(decode_utf8(kept_bytes(raw, max)))
    } else {
        None
    }
}

/// Relies on `String::from_utf8`: it succeeds exactly on valid UTF-8 and then
/// holds the characters those bytes encode.
#[verifier::external_body]
fn utf8_to_string(bytes: Vec<u8>) -> (r: Option<String>)
    ensures
        r is Some <==> valid_utf8(bytes@),
        r is Some ==> r->0@ == decode_utf8(bytes@),
{
    String::from_utf8(bytes).ok()
}

/// The value of a file from its bytes: only the first `max_file_size` bytes
/// count, silently; the rest is dropped, and what is kept must be UTF-8.
pub fn value_from_bytes(raw: Vec<u8>, max_file_size: u64) -> (r: Result<String, StoreError>)
    ensures
        r is Ok <==> resolved_value(raw@, max_file_size) is Some,
        r is Ok ==> Some(r->Ok_0@) == resolved_value(raw@, max_file_size),
        r is Err ==> r == Err::<String, StoreError>(StoreError::InvalidText),
{
    let mut kept = raw;
    if (kept.len() as u64) > max_file_size {
        kept.truncate(max_file_size as usize);
    }
    assert(kept@ == kept_bytes(raw@, max_file_size));
    match utf8_to_string(kept) {
        Some(s) => Ok(s),
        None => Err(StoreError::InvalidText),
    }
}

/// However large the file, its value takes no more than `max` bytes as UTF-8.
pub proof fn lemma_value_within_ceiling(raw: Seq<u8>, max: u64)
    ensures
        resolved_value(raw, max) matches Some(v) ==> encode_utf8(v).len() <= max as nat,
        resolved_value(raw, max) matches Some(v) ==> encode_utf8(v) == raw.take(
            encode_utf8(v).len() as int,
        ),
{
    if valid_utf8(kept_bytes(raw, max)) {
        vstd::utf8::decode_utf8_encode_utf8(kept_bytes(raw, max));
    }
}

} // verus!
