//! Native-to-host text: byte buffers copied out of the native library are
//! decoded lossily, so that no byte sequence can make a conversion fail.
use vstd::prelude::*;

verus! {

/// The text that a lossy UTF-8 decoding makes of a byte buffer.
pub uninterp spec fn lossy_utf8(bytes: Seq<u8>) -> Seq<char>;

/// Relies on `String::from_utf8_lossy`: the result depends on the bytes alone,
/// and an empty buffer gives an empty string.
#[verifier::external_body]
fn from_utf8_lossy(bytes: &[u8]) -> (r: String)
    ensures
        r@ == lossy_utf8(bytes@),
        bytes@.len() == 0 ==> r@.len() == 0,
{
    String::from_utf8_lossy(bytes).into_owned()
}

/// Decodes a string copied out of the native library. Invalid sequences are
/// replaced, never rejected.
pub fn decode_native_string(bytes: &[u8]) -> (r: String)
    ensures
        r@ == lossy_utf8(bytes@),
        bytes@.len() == 0 ==> r@.len() == 0,
{
    from_utf8_lossy(bytes)
}

/// Decodes each of a sequence of native strings, keeping their order.
pub fn decode_native_strings(buffers: &Vec<Vec<u8>>) -> (r: Vec<String>)
    ensures
        r@.len() == buffers@.len(),
        forall|i: int| 0 <= i < r@.len() ==> #[trigger] r@[i]@ == lossy_utf8(buffers@[i]@),
{
    let mut r: Vec<String> = Vec::new();
    let mut i: usize = 0;
    while i < buffers.len()
        invariant
            i <= buffers@.len(),
            r@.len() == i,
            forall|j: int| 0 <= j < i ==> #[trigger] r@[j]@ == lossy_utf8(buffers@[j]@),
        decreases buffers@.len() - i,
    {
        r.push(from_utf8_lossy(buffers[i].as_slice()));
        i = i + 1;
    }
    r
}

} // verus!
