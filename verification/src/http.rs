//! Putting the text of a response together from the chunks in which it
//! arrives.

use vstd::prelude::*;
use vstd::slice::slice_subrange;
use vstd::string::{StringExecFns, StringSliceAdditionalSpecFns};
use vstd::utf8::{decode_utf8, valid_utf8};

verus! {

broadcast use {vstd::utf8::encode_utf8_decode_utf8, vstd::utf8::encode_utf8_valid_utf8};

/// Size of the buffer into which a response is read.
pub const CHUNK_BYTES: usize = 256;

/// Whether a response with this status code carries what was asked for.
pub fn is_success(status: u16) -> (ok: bool)
    ensures
        ok == (200 <= status <= 299),
{
    200 <= status && status <= 299
}

/// The first `k` bytes of `bytes` are valid UTF-8, and no longer start is.
pub open spec fn is_longest_valid_prefix(bytes: Seq<u8>, k: int) -> bool {
    &&& 0 <= k <= bytes.len()
    &&& valid_utf8(bytes.take(k))
    &&& forall|m: int| k < m <= bytes.len() ==> !valid_utf8(#[trigger] bytes.take(m))
}

/// `core::str::from_utf8`: bytes that are valid UTF-8 come back as the text
/// that they encode. Otherwise the error's `valid_up_to` comes back: the
/// length of the longest start of the bytes that is valid UTF-8, which is
/// shorter than the whole.
#[verifier::external_body]
fn text_of<'a>(bytes: &'a [u8]) -> (r: Result<&'a str, usize>)
    ensures
        match r {
            Ok(text) => text.spec_bytes() == bytes@,
            Err(k) => k < bytes@.len() && is_longest_valid_prefix(bytes@, k as int),
        },
{
    match core::str::from_utf8(bytes) {
        Ok(text) => Ok(text),
        Err(e) => Err(e.valid_up_to()),
    }
}

/// Takes the text out of the first `filled` bytes of `buf` and appends it to
/// `data`. A chunk may end in the middle of a character. Where all the bytes
/// are text, the buffer is left alone and nothing is kept. Otherwise what
/// follows the longest valid start of the bytes is moved to the front of the
/// buffer, to be completed by the next chunk, and its length is returned:
/// the next chunk is to be read in behind it.
pub fn absorb_chunk(data: &mut String, buf: &mut [u8; 256], filled: usize) -> (offset: usize)
    requires
        filled <= CHUNK_BYTES,
    ensures
        offset <= filled,
        is_longest_valid_prefix(old(buf)@.take(filled as int), filled - offset),
        final(data)@ == old(data)@ + decode_utf8(old(buf)@.take(filled - offset)),
        final(buf)@.take(offset as int) == old(buf)@.subrange(filled - offset, filled as int),
        offset == 0 ==> final(buf)@ == old(buf)@,
        offset > 0 ==> is_shifted(old(buf)@, final(buf)@, filled - offset),
{
    let ghost bytes = buf@.take(filled as int);
    match text_of(slice_subrange(buf.as_slice(), 0, filled)) {
        Ok(text) => {
            assert(bytes.take(filled as int) == bytes);
            data.append(text);
            0
        },
        Err(valid_up_to) => {
            assert(bytes.take(valid_up_to as int) == buf@.take(valid_up_to as int));
            match text_of(slice_subrange(buf.as_slice(), 0, valid_up_to)) {
                Ok(text) => {
                    data.append(text);
                },
                Err(_) => {
                    // The start is valid as a whole, so it has no shorter
                    // longest valid start.
                    assert(buf@.take(valid_up_to as int).take(valid_up_to as int) == buf@.take(
                        valid_up_to as int,
                    ));
                    unreached()
                },
            }
            shift_to_front(buf, valid_up_to);
            filled - valid_up_to
        },
    }
}

/// `after` is `before` with the bytes from `from` on moved to the front;
/// the bytes behind them are as they were.
pub open spec fn is_shifted(before: Seq<u8>, after: Seq<u8>, from: int) -> bool {
    &&& after.len() == before.len()
    &&& forall|i: int| 0 <= i < before.len() - from ==> after[i] == before[i + from]
    &&& forall|i: int| before.len() - from <= i < before.len() ==> after[i] == before[i]
}

/// Moves the bytes from `from` on to the front of the buffer.
fn shift_to_front(buf: &mut [u8; 256], from: usize)
    requires
        from <= CHUNK_BYTES,
    ensures
        is_shifted(old(buf)@, final(buf)@, from as int),
{
    let ghost before = buf@;
    let mut i: usize = 0;
    while i < CHUNK_BYTES - from
        invariant
            from <= CHUNK_BYTES,
            i <= CHUNK_BYTES - from,
            before.len() == CHUNK_BYTES,
            buf@.len() == CHUNK_BYTES,
            forall|j: int| 0 <= j < i ==> buf@[j] == before[j + from],
            forall|j: int| i <= j < CHUNK_BYTES ==> buf@[j] == before[j],
        decreases CHUNK_BYTES - from - i,
    {
        buf[i] = buf[i + from];
        i += 1;
    }
}

} // verus!
