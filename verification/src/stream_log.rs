use vstd::prelude::*;
use vstd::utf8::{valid_utf8, decode_utf8};
use crate::text::join;

verus! {

/// The text of `bytes`, by `String::from_utf8`, which succeeds exactly on
/// valid UTF-8 and then holds the characters the bytes encode.
#[verifier::external_body]
fn utf8_string(bytes: Vec<u8>) -> (r: Option<String>)
    ensures
        r is Some <==> valid_utf8(bytes@),
        r matches Some(s) ==> s@ == decode_utf8(bytes@),
{
    String::from_utf8(bytes).ok()
}

/// A server-sent event carrying the line `msg`.
pub open spec fn sse_spec(msg: Seq<char>) -> Seq<char> {
    "data: "@ + msg + "\n\n"@
}

/// Frames a log line as a server-sent event.
pub fn sse_message(msg: &str) -> (r: String)
    ensures
        r@ == sse_spec(msg@),
{
    let r = join("data: ", msg);
    join(r.as_str(), "\n\n")
}

/// The server-sent event for a log message received as bytes; `None` when
/// the bytes are not UTF-8.
pub fn sse_event(bytes: Vec<u8>) -> (r: Option<String>)
    ensures
        r is Some <==> valid_utf8(bytes@),
        r matches Some(s) ==> s@ == sse_spec(decode_utf8(bytes@)),
{
    match utf8_string(bytes) {
        Some(text) => Some(sse_message(text.as_str())),
        None => None,
    }
}

/// An event is the line preceded by `data: ` and followed by a blank line:
/// the line can be read back from its middle.
pub proof fn lemma_sse_frames_line(msg: Seq<char>)
    ensures
        sse_spec(msg).len() == msg.len() + 8,
        sse_spec(msg).subrange(0, 6) == "data: "@,
        sse_spec(msg).subrange(6, 6 + msg.len() as int) == msg,
        sse_spec(msg)[6 + msg.len() as int] == '\n',
        sse_spec(msg)[7 + msg.len() as int] == '\n',
{
    reveal_strlit("data: ");
    reveal_strlit("\n\n");
    assert(sse_spec(msg).subrange(0, 6) =~= "data: "@);
    assert(sse_spec(msg).subrange(6, 6 + msg.len() as int) =~= msg);
}

} // verus!
