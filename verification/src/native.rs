//! The native bridge: turning what the linked native routine hands back into
//! an owned string.
//!
//! The routine returns a pointer to a zero-terminated run of bytes, or a null
//! pointer. Here that is an `Option<&[u8]>`: `None` for the null pointer, and
//! otherwise the borrowed bytes that the pointer leads to, terminator
//! included. The borrow ends with the call, so nothing of it is kept: the
//! text is copied into a `String` before the function returns.

use vstd::prelude::*;
use vstd::slice::slice_subrange;
use vstd::string::StringSliceAdditionalSpecFns;
use vstd::utf8::*;

use crate::error::BridgeError;

verus! {

/// `at` is the place of the first zero byte of `bytes`.
pub open spec fn terminator_at(bytes: Seq<u8>, at: int) -> bool {
    &&& 0 <= at < bytes.len()
    &&& bytes[at] == 0
    &&& forall|j: int| 0 <= j < at ==> bytes[j] != 0
}

/// `bytes` holds a zero byte, so the text in it has an end.
pub open spec fn is_terminated(bytes: Seq<u8>) -> bool {
    exists|at: int| terminator_at(bytes, at)
}

/// The place of the first zero byte of a terminated sequence.
pub open spec fn terminator(bytes: Seq<u8>) -> int {
    choose|at: int| terminator_at(bytes, at)
}

/// The bytes of the text: all that stand before the terminator.
pub open spec fn text_bytes(bytes: Seq<u8>) -> Seq<u8> {
    bytes.subrange(0, terminator(bytes))
}

/// The first `n` bytes of `bytes` are well-formed UTF-8, and no longer run
/// from the start is.
pub open spec fn longest_valid_prefix(bytes: Seq<u8>, n: int) -> bool {
    &&& 0 <= n <= bytes.len()
    &&& valid_utf8(bytes.subrange(0, n))
    &&& forall|m: int| n < m <= bytes.len() ==> !valid_utf8(#[trigger] bytes.subrange(0, m))
}

/// A handle as a value: nothing for the null pointer, and otherwise the
/// bytes that the pointer leads to.
pub open spec fn handle_bytes(handle: Option<&[u8]>) -> Option<Seq<u8>> {
    match handle {
        Some(bytes) => Some(bytes@),
        None => None,
    }
}

/// What the bridge owes for a given handle: `result` is the text of the
/// handle, or the failure that the handle calls for.
pub open spec fn is_native_text(handle: Option<Seq<u8>>, result: Result<Seq<char>, BridgeError>) -> bool {
    match handle {
        None => result == Err::<Seq<char>, BridgeError>(BridgeError::NativeCallFailed),
        Some(bytes) => {
            let text = text_bytes(bytes);
            if valid_utf8(text) {
                result == Ok::<Seq<char>, BridgeError>(decode_utf8(text))
            } else {
                &&& result matches Err(BridgeError::EncodingError { offset })
                &&& longest_valid_prefix(text, offset as int)
            }
        },
    }
}

/// A sequence has one first zero byte at most.
pub proof fn lemma_terminator_unique(bytes: Seq<u8>, at: int)
    requires
        terminator_at(bytes, at),
    ensures
        is_terminated(bytes),
        terminator(bytes) == at,
{
    let chosen = terminator(bytes);
    assert(terminator_at(bytes, chosen));
    if chosen < at {
        assert(bytes[chosen] != 0);
    } else if at < chosen {
        assert(bytes[at] != 0);
    }
}

/// Calls `std::str::from_utf8` on `bytes`. Believed of it, as its
/// documentation says: it succeeds exactly on well-formed UTF-8, the string
/// slice it then gives has the very bytes it was given, and on failure
/// `Utf8Error::valid_up_to` is the length of the longest well-formed run
/// from the start.
#[verifier::external_body]
fn str_from_utf8(bytes: &[u8]) -> (result: Result<&str, usize>)
    ensures
        result is Ok <==> valid_utf8(bytes@),
        result matches Ok(text) ==> text.spec_bytes() == bytes@,
        result matches Err(valid_up_to) ==> longest_valid_prefix(bytes@, valid_up_to as int),
{
    match std::str::from_utf8(bytes) {
        Ok(text) => Ok(text),
        Err(error) => Err(error.valid_up_to()),
    }
}

/// Finds the end of the text in a terminated run of bytes.
pub fn find_terminator(bytes: &[u8]) -> (at: usize)
    requires
        is_terminated(bytes@),
    ensures
        terminator_at(bytes@, at as int),
        at as int == terminator(bytes@),
{
    let ghost end = terminator(bytes@);
    let mut at: usize = 0;
    while bytes[at] != 0
        invariant
            terminator_at(bytes@, end),
            0 <= at <= end,
            forall|j: int| 0 <= j < at ==> bytes@[j] != 0,
        decreases end - at,
    {
        at = at + 1;
    }
    proof {
        lemma_terminator_unique(bytes@, at as int);
    }
    at
}

/// Reads the text behind a native text handle into an owned string.
///
/// A null pointer (`None`) is a failed native call, and nothing is read.
/// Otherwise the bytes before the terminator are checked and copied: if
/// they are well-formed UTF-8 the result is exactly the text they encode,
/// and if not, the failure names how many bytes from the start were
/// well-formed, and no string is made at all.
pub fn fetch_native_text(handle: Option<&[u8]>) -> (result: Result<String, BridgeError>)
    requires
        handle matches Some(bytes) ==> is_terminated(bytes@),
    ensures
        result matches Ok(text) ==> is_native_text(handle_bytes(handle), Ok(text@)),
        result matches Err(error) ==> is_native_text(handle_bytes(handle), Err(error)),
{
    match handle {
        None => Err(BridgeError::NativeCallFailed),
        Some(bytes) => {
            let end = find_terminator(bytes);
            let text = slice_subrange(bytes, 0, end);
            match str_from_utf8(text) {
                Ok(borrowed) => {
                    proof {
                        encode_utf8_decode_utf8(borrowed@);
                    }
                    Ok(borrowed.to_owned())
                },
                Err(valid_up_to) => Err(BridgeError::EncodingError { offset: valid_up_to }),
            }
        },
    }
}

/// A handle settles its result: the bridge has one answer for it, the
/// offset of an encoding failure included.
pub proof fn lemma_native_text_is_determined(
    handle: Option<Seq<u8>>,
    first: Result<Seq<char>, BridgeError>,
    second: Result<Seq<char>, BridgeError>,
)
    requires
        is_native_text(handle, first),
        is_native_text(handle, second),
    ensures
        first == second,
{
    if let Some(bytes) = handle {
        let text = text_bytes(bytes);
        if !valid_utf8(text) {
            let a = first->Err_0->offset as int;
            let b = second->Err_0->offset as int;
            if a < b {
                assert(!valid_utf8(text.subrange(0, b)));
            } else if b < a {
                assert(!valid_utf8(text.subrange(0, a)));
            }
        }
    }
}

/// Every well-formed text comes back whole. Let `text` be well-formed UTF-8
/// without a zero byte, followed in memory by its terminator and by
/// whatever else (`rest`). Then the result for that handle is the text that
/// the bytes encode, all of it and no more: encoded again it gives `text`,
/// without the terminator.
pub proof fn lemma_well_formed_text_comes_back(
    text: Seq<u8>,
    rest: Seq<u8>,
    result: Result<Seq<char>, BridgeError>,
)
    requires
        valid_utf8(text),
        forall|i: int| 0 <= i < text.len() ==> text[i] != 0,
        is_native_text(Some(text + seq![0u8] + rest), result),
    ensures
        result == Ok::<Seq<char>, BridgeError>(decode_utf8(text)),
        encode_utf8(decode_utf8(text)) == text,
{
    let bytes = text + seq![0u8] + rest;
    assert(terminator_at(bytes, text.len() as int));
    lemma_terminator_unique(bytes, text.len() as int);
    assert(text_bytes(bytes) =~= text);
    decode_utf8_encode_utf8(text);
}

/// A text that is not well-formed UTF-8 yields no string, only an encoding
/// failure, and the offset it names lies inside the text: the bytes before
/// it are well-formed, and the run that starts there is not.
pub proof fn lemma_malformed_text_is_refused(bytes: Seq<u8>, result: Result<Seq<char>, BridgeError>)
    requires
        is_terminated(bytes),
        !valid_utf8(text_bytes(bytes)),
        is_native_text(Some(bytes), result),
    ensures
        result matches Err(BridgeError::EncodingError { offset }) && {
            &&& offset < text_bytes(bytes).len()
            &&& valid_utf8(text_bytes(bytes).subrange(0, offset as int))
            &&& !valid_utf8(text_bytes(bytes).subrange(offset as int, text_bytes(bytes).len() as int))
        },
{
    let text = text_bytes(bytes);
    let offset = result->Err_0->offset as int;
    assert(text.subrange(0, text.len() as int) =~= text);
    if valid_utf8(text.subrange(offset, text.len() as int)) {
        valid_utf8_concat(text.subrange(0, offset), text.subrange(offset, text.len() as int));
        assert(text.subrange(0, offset) + text.subrange(offset, text.len() as int) =~= text);
    }
}

} // verus!
