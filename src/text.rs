//! Decoding of the fixed-size text buffers that the native library fills.

use vstd::prelude::*;
use vstd::utf8::{valid_utf8, decode_utf8};
use crate::error::{RsmiError, rsmi_try, status_error, STATUS_SUCCESS};

verus! {

/// Capacity of the buffer handed to a text-returning entry point.
pub const DEVICE_STRING_LEN: usize = 256;

/// `n` is where the text in `b` ends: at the first zero byte, or at the end of
/// the buffer when it holds none.
pub open spec fn is_text_end(b: Seq<u8>, n: int) -> bool {
    &&& 0 <= n <= b.len()
    &&& forall|i: int| 0 <= i < n ==> b[i] != 0
    &&& (n == b.len() || b[n] == 0)
}

/// The bytes of `b` before its first zero byte.
pub open spec fn text_bytes(b: Seq<u8>) -> Seq<u8> {
    b.take(choose|n: int| is_text_end(b, n))
}

/// A buffer has exactly one text end.
pub proof fn lemma_text_end_unique(b: Seq<u8>, n: int, m: int)
    requires
        is_text_end(b, n),
        is_text_end(b, m),
    ensures
        n == m,
{
    if n < m {
        assert(b[n] != 0);
    } else if m < n {
        assert(b[m] != 0);
    }
}

/// Relies on `String::from_utf8`: `Ok` exactly when the bytes are valid UTF-8,
/// and then the string that they encode.
#[verifier::external_body]
fn utf8_string(bytes: Vec<u8>) -> (r: Option<String>)
    ensures
        r is Some <==> valid_utf8(bytes@),
        r is Some ==> r->Some_0@ == decode_utf8(bytes@),
{
    String::from_utf8(bytes).ok()
}

/// A zeroed buffer of `DEVICE_STRING_LEN` bytes for a text-returning entry point.
pub fn string_buffer() -> (r: Vec<u8>)
    ensures
        r@ == Seq::new(DEVICE_STRING_LEN as nat, |i: int| 0u8),
{
    let mut r: Vec<u8> = Vec::with_capacity(DEVICE_STRING_LEN);
    let mut i: usize = 0;
    while i < DEVICE_STRING_LEN
        invariant
            i <= DEVICE_STRING_LEN,
            r@ == Seq::new(i as nat, |j: int| 0u8),
        decreases DEVICE_STRING_LEN - i,
    {
        r.push(0u8);
        i = i + 1;
    }
    r
}

/// The bytes of `buffer` before its first zero byte; all of them when it holds none.
pub fn text_prefix(buffer: &[u8]) -> (r: Vec<u8>)
    ensures
        r@ == text_bytes(buffer@),
{
    let mut r: Vec<u8> = Vec::new();
    let mut i: usize = 0;
    while i < buffer.len() && buffer[i] != 0
        invariant
            i <= buffer@.len(),
            forall|j: int| 0 <= j < i ==> buffer@[j] != 0,
            r@ == buffer@.take(i as int),
        decreases buffer@.len() - i,
    {
        r.push(buffer[i]);
        i = i + 1;
        assert(r@ =~= buffer@.take(i as int));
    }
    proof {
        assert(is_text_end(buffer@, i as int));
        let n = choose|n: int| is_text_end(buffer@, n);
        lemma_text_end_unique(buffer@, i as int, n);
    }
    r
}

/// Turns the outcome of a text-returning entry point into a string: the
/// status code's error if it is one, else the text before the first zero byte
/// of `buffer`, or `InvalidUtf8` when those bytes are not valid UTF-8.
pub fn device_string(status: u32, buffer: &[u8]) -> (r: Result<String, RsmiError>)
    ensures
        status != STATUS_SUCCESS ==> r == Err::<String, RsmiError>(status_error(status)->Some_0),
        status == STATUS_SUCCESS ==> (r is Ok <==> valid_utf8(text_bytes(buffer@))),
        status == STATUS_SUCCESS && r is Ok ==> r->Ok_0@ == decode_utf8(text_bytes(buffer@)),
        status == STATUS_SUCCESS && r is Err ==> r->Err_0 == RsmiError::InvalidUtf8,
{
    match rsmi_try(status) {
        Err(e) => Err(e),
        Ok(()) => {
            let bytes = text_prefix(buffer);
            match utf8_string(bytes) {
                Some(s) => Ok(s),
                None => Err(RsmiError::InvalidUtf8),
            }
        },
    }
}

} // verus!
