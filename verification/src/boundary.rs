//! The boundary to a foreign caller, in safe terms.
//!
//! A foreign caller holds a session by a pointer and receives text through a pair of
//! out-parameters, a pointer and a length. Here each pointer is an `Option` of a
//! reference, `None` for null, and the text is a `String`; turning these into raw pointers
//! and buffers is left to the few unsafe lines that export the functions.
//!
//! Every call answers with a status: `-1` for an error, `0` for success without output,
//! `1` for success with output in the out-parameters. An error leaves the out-parameters
//! as they were. The text is handed over with its length: it may hold a zero byte.

use crate::session::drained;
use crate::session::ended;
use crate::session::fed;
use crate::session::RewriterWrapper;
use crate::session::SessionError;
use crate::session::SessionState;
use crate::session::SessionView;
use vstd::prelude::*;
use vstd::utf8::decode_utf8;
use vstd::utf8::decode_utf8_encode_utf8;
use vstd::utf8::encode_utf8;
use vstd::utf8::valid_utf8;

verus! {

/// The call failed: an argument was null, the engine refused the step, or the session
/// was no longer active.
pub const STATUS_ERROR: i32 = -1;

/// The call succeeded and there is no output.
pub const STATUS_NO_OUTPUT: i32 = 0;

/// The call succeeded and the out-parameters hold the output.
pub const STATUS_HAS_OUTPUT: i32 = 1;

/// The text that `String::from_utf8_lossy` makes of `bytes`: what is UTF-8 is decoded, and
/// U+FFFD stands for what is not.
pub uninterp spec fn utf8_lossy(bytes: Seq<u8>) -> Seq<char>;

/// `String::from_utf8_lossy`, as an owned string.
///
/// Believed: the result is a function of the bytes alone; bytes that are UTF-8 are
/// decoded as they are; and bytes are never repaired away, so the text of some bytes is
/// not empty.
#[verifier::external_body]
fn decode_lossy(bytes: &[u8]) -> (text: String)
    ensures
        text@ == utf8_lossy(bytes@),
        valid_utf8(bytes@) ==> text@ == decode_utf8(bytes@),
        bytes@.len() > 0 ==> text@.len() > 0,
{
    String::from_utf8_lossy(bytes).into_owned()
}

/// What the caller receives for the bytes that a step has drained from the sink: their
/// text, and nothing where there are no bytes.
pub open spec fn delivered(bytes: Seq<u8>) -> Option<Seq<char>> {
    if bytes.len() > 0 {
        Some(utf8_lossy(bytes))
    } else {
        None
    }
}

/// How drained bytes show in the out-parameters.
///
/// Where there are bytes, the out-parameters hold their text, which is not empty, and
/// the number of bytes that the text takes as UTF-8. Bytes that are UTF-8 are handed over
/// as they are: the text is what they encode, and the length is their number. Where
/// there are no bytes, there is no text and the length is zero.
pub open spec fn reported(bytes: Seq<u8>, output: Option<String>, output_len: usize) -> bool {
    match delivered(bytes) {
        Some(text) => {
            &&& output matches Some(handed)
            &&& handed@ == text
            &&& handed@.len() > 0
            &&& output_len == encode_utf8(handed@).len()
            &&& valid_utf8(bytes) ==> handed@ == decode_utf8(bytes) && output_len == bytes.len()
        },
        None => output is None && output_len == 0,
    }
}

/// The status that answers the result of a step: that of output where bytes were
/// drained, that of no output where none were, and an error for every error, the one of
/// a session that had been finalized before among them.
pub open spec fn status_of(result: Result<Seq<u8>, SessionError>) -> i32 {
    match result {
        Ok(bytes) => if bytes.len() > 0 {
            STATUS_HAS_OUTPUT
        } else {
            STATUS_NO_OUTPUT
        },
        Err(_) => STATUS_ERROR,
    }
}

/// How the result of a step shows in the status and the out-parameters: the status is
/// `status_of` the result; the out-parameters hold what `reported` says of the drained
/// bytes, and on an error what they held before.
pub open spec fn answered(
    result: Result<Seq<u8>, SessionError>,
    status: i32,
    old_output: Option<String>,
    old_output_len: usize,
    output: Option<String>,
    output_len: usize,
) -> bool {
    &&& status == status_of(result)
    &&& match result {
        Ok(bytes) => reported(bytes, output, output_len),
        Err(_) => output == old_output && output_len == old_output_len,
    }
}

/// Turns the bytes that a step has drained into what the caller receives.
///
/// Bytes that are not UTF-8 are repaired, never refused, and no byte is dropped: a zero
/// byte is text like any other.
pub fn deliver(bytes: &[u8]) -> (out: Option<String>)
    ensures
        match out {
            Some(text) => delivered(bytes@) == Some(text@),
            None => delivered(bytes@) is None,
        },
        bytes@.len() > 0 ==> (out matches Some(text) && text@ == utf8_lossy(bytes@) && text@.len()
            > 0),
        bytes@.len() > 0 && valid_utf8(bytes@) ==> (out matches Some(text) && text@ == decode_utf8(
            bytes@,
        ) && encode_utf8(text@) == bytes@),
{
    if bytes.len() == 0 {
        None
    } else {
        let text = decode_lossy(bytes);
        proof {
            if valid_utf8(bytes@) {
                decode_utf8_encode_utf8(bytes@);
            }
        }
        Some(text)
    }
}

/// Answers the result of a step in the status and the out-parameters: it delivers the
/// bytes of a step that succeeded, and reports the error of one that did not.
pub fn answer(
    result: Result<Vec<u8>, SessionError>,
    output: &mut Option<String>,
    output_len: &mut usize,
) -> (status: i32)
    ensures
        answered(
            drained(result),
            status,
            *old(output),
            *old(output_len),
            *final(output),
            *final(output_len),
        ),
{
    match result {
        Ok(bytes) => {
            match deliver(bytes.as_slice()) {
                Some(text) => {
                    proof {
                        if valid_utf8(bytes@) {
                            decode_utf8_encode_utf8(bytes@);
                        }
                    }
                    *output_len = text.as_str().as_bytes().len();
                    *output = Some(text);
                    STATUS_HAS_OUTPUT
                },
                None => {
                    *output_len = 0;
                    *output = None;
                    STATUS_NO_OUTPUT
                },
            }
        },
        Err(_) => STATUS_ERROR,
    }
}

/// Feeds `input` to the session and hands out what the engine has let go of.
///
/// With a null argument the call is an error and touches nothing. Otherwise the session
/// takes the step that `fed` describes, and the status and the out-parameters answer its
/// result as `answered` describes.
pub fn html_rewriter_transform_string(
    wrapper: Option<&mut RewriterWrapper>,
    input: Option<&[u8]>,
    output: Option<&mut Option<String>>,
    output_len: Option<&mut usize>,
) -> (status: i32)
    ensures
        match (wrapper, input, output, output_len) {
            (Some(session), Some(chunk), Some(text), Some(len)) => {
                &&& final(session)@ == fed(session@, chunk@).0
                &&& answered(
                    fed(session@, chunk@).1,
                    status,
                    *text,
                    *len,
                    *final(text),
                    *final(len),
                )
            },
            _ => {
                &&& status == STATUS_ERROR
                &&& wrapper matches Some(session) ==> *final(session) == *session
                &&& output matches Some(text) ==> *final(text) == *text
                &&& output_len matches Some(len) ==> *final(len) == *len
            },
        },
{
    match (wrapper, input, output, output_len) {
        (Some(session), Some(chunk), Some(text), Some(len)) => {
            let result = session.feed(chunk);
            answer(result, text, len)
        },
        _ => STATUS_ERROR,
    }
}

/// Ends the input of the session and hands out what the engine had held back.
///
/// With a null argument the call is an error and touches nothing. Otherwise the session
/// takes the step that `ended` describes, and the status and the out-parameters answer
/// its result as `answered` describes.
pub fn html_rewriter_finalize(
    wrapper: Option<&mut RewriterWrapper>,
    output: Option<&mut Option<String>>,
    output_len: Option<&mut usize>,
) -> (status: i32)
    ensures
        match (wrapper, output, output_len) {
            (Some(session), Some(text), Some(len)) => {
                &&& final(session)@ == ended(session@).0
                &&& answered(ended(session@).1, status, *text, *len, *final(text), *final(len))
            },
            _ => {
                &&& status == STATUS_ERROR
                &&& wrapper matches Some(session) ==> *final(session) == *session
                &&& output matches Some(text) ==> *final(text) == *text
                &&& output_len matches Some(len) ==> *final(len) == *len
            },
        },
{
    match (wrapper, output, output_len) {
        (Some(session), Some(text), Some(len)) => {
            let result = session.finalize();
            answer(result, text, len)
        },
        _ => STATUS_ERROR,
    }
}

/// After `finalize`, whatever it returned, the session is rejected: a feed and a second
/// `finalize` each leave the session as it is, hand out nothing and answer with an
/// error.
pub proof fn lemma_rejected_after_finalize(before: SessionView, chunk: Seq<u8>)
    ensures
        ({
            let over = ended(before).0;
            &&& over.state != SessionState::Active
            &&& fed(over, chunk).0 == over
            &&& fed(over, chunk).1 is Err
            &&& status_of(fed(over, chunk).1) == STATUS_ERROR
            &&& ended(over).0 == over
            &&& ended(over).1 is Err
            &&& status_of(ended(over).1) == STATUS_ERROR
        }),
{
}

} // verus!
