//! Info logs: the buffer the driver writes a log into, and the message made
//! from what it wrote.
use vstd::prelude::*;

verus! {

/// The character code of a space.
pub const SPACE: u8 = 32;

/// What `String::from_utf8_lossy` makes of `bytes`: the text they encode as
/// UTF-8, each invalid sequence replaced by U+FFFD.
pub uninterp spec fn utf8_lossy(bytes: Seq<u8>) -> Seq<char>;

/// `bytes` are all ASCII.
pub open spec fn is_ascii(bytes: Seq<u8>) -> bool {
    forall|i: int| 0 <= i < bytes.len() ==> bytes[i] < 128
}

/// The characters with the codes of `bytes`, one for one.
pub open spec fn ascii_chars(bytes: Seq<u8>) -> Seq<char> {
    bytes.map_values(|b: u8| b as char)
}

/// Calls `String::from_utf8_lossy` on `bytes` and takes the text as an owned
/// string. Claimed of it: the text is the decoding named by [`utf8_lossy`],
/// and bytes that are all ASCII (valid UTF-8, one character per byte) come
/// back as those characters.
#[verifier::external_body]
pub(crate) fn decode_lossy(bytes: &[u8]) -> (text: String)
    ensures
        text@ == utf8_lossy(bytes@),
        is_ascii(bytes@) ==> text@ == ascii_chars(bytes@),
{
    String::from_utf8_lossy(bytes).into_owned()
}

/// The bytes of the C string the driver writes an info log into: `len`
/// spaces followed by the terminating 0, so a log of at most `len` bytes
/// (its own terminator included) lands inside it.
pub fn create_whitespace_cstring_with_len(len: usize) -> (buffer: Vec<u8>)
    requires
        len < usize::MAX,
    ensures
        buffer@ == Seq::new(len as nat, |i: int| SPACE).push(0u8),
        buffer@.len() == len + 1,
{
    let mut buffer: Vec<u8> = Vec::with_capacity(len + 1);
    let mut i: usize = 0;
    while i < len
        invariant
            i <= len,
            buffer@ == Seq::new(i as nat, |k: int| SPACE),
        decreases len - i,
    {
        buffer.push(SPACE);
        i = i + 1;
        assert(buffer@ =~= Seq::new(i as nat, |k: int| SPACE));
    }
    buffer.push(0u8);
    buffer
}

} // verus!
