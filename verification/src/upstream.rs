//! What the two upstream services answer, and what an answer is worth.
//!
//! The account service answers with a JSON string, the user's descriptor.
//! The render service answers with the bytes of an image.

use crate::error::ErrorKind;
use vstd::prelude::*;

verus! {

/// `bytes::Bytes`, a shared buffer of bytes. Nothing is known of a value
/// but what [`content`] says it holds.
#[verifier::external_type_specification]
#[verifier::external_body]
pub struct ExBytes(bytes::Bytes);

/// `serde_json::Error`, the error of a failed decoding. Nothing is read
/// from it.
#[verifier::external_type_specification]
#[verifier::external_body]
pub struct ExJsonError(serde_json::Error);

/// The bytes that a `bytes::Bytes` buffer holds, in order.
pub uninterp spec fn content(buffer: bytes::Bytes) -> Seq<u8>;

/// The string that `serde_json::from_slice::<String>` reads from `body`:
/// `None` where it reports an error.
pub uninterp spec fn json_string(body: Seq<u8>) -> Option<Seq<char>>;

/// `Bytes::clone`: a second handle on the same bytes.
/// Trusted: the new buffer holds what the given one holds.
pub assume_specification[ <bytes::Bytes as Clone>::clone ](buffer: &bytes::Bytes) -> (r:
    bytes::Bytes)
    ensures
        content(r) == content(*buffer),
;

/// `Bytes::as_ref`: the buffer as a slice.
/// Trusted: the slice holds the buffer's bytes.
#[verifier::external_body]
pub(crate) fn as_slice(buffer: &bytes::Bytes) -> (r: &[u8])
    ensures
        r@ == content(*buffer),
{
    buffer.as_ref()
}

/// `serde_json::from_slice::<String>`: reads one JSON string from `body`.
/// Trusted: the outcome depends on the bytes of `body` alone, so it has a
/// name, `json_string`; nothing else is claimed of it.
#[verifier::external_body]
pub(crate) fn parse_json_string(body: &[u8]) -> (r: Result<String, serde_json::Error>)
    ensures
        match r {
            Ok(text) => json_string(body@) == Some(text@),
            Err(_) => json_string(body@) is None,
        },
{
    serde_json::from_slice::<String>(body)
}

/// An upstream service's answer to one call.
#[derive(Debug, PartialEq, Eq)]
pub enum HttpReply {
    /// The call did not complete: no connection, or the answer broke off.
    Unreachable,
    /// The service answered.
    Answered {
        /// The status code of the answer.
        status: u16,
        /// The body of the answer.
        body: bytes::Bytes,
    },
}

/// An [`HttpReply`] as a mathematical value.
pub enum HttpReplyView {
    Unreachable,
    Answered { status: u16, body: Seq<u8> },
}

impl View for HttpReply {
    type V = HttpReplyView;

    open spec fn view(&self) -> HttpReplyView {
        match *self {
            HttpReply::Unreachable => HttpReplyView::Unreachable,
            HttpReply::Answered { status, body } => HttpReplyView::Answered {
                status,
                body: content(body),
            },
        }
    }
}

/// Whether a status code reports success: the codes from 200 to 299 do.
pub open spec fn is_success(status: u16) -> bool {
    200 <= status < 300
}

/// What an answer of the account service is worth, given what its body
/// decodes to: without success the service counts as unavailable, and a
/// successful answer that holds no descriptor is malformed.
pub open spec fn descriptor_outcome(status: u16, decoded: Option<Seq<char>>) -> Result<
    Seq<char>,
    ErrorKind,
> {
    if !is_success(status) {
        Err(ErrorKind::UpstreamUnavailable)
    } else {
        match decoded {
            Some(descriptor) => Ok(descriptor),
            None => Err(ErrorKind::UpstreamMalformed),
        }
    }
}

/// What a reply of the account service is worth.
pub open spec fn descriptor_of_reply(reply: HttpReplyView) -> Result<Seq<char>, ErrorKind> {
    match reply {
        HttpReplyView::Unreachable => Err(ErrorKind::UpstreamUnavailable),
        HttpReplyView::Answered { status, body } => descriptor_outcome(status, json_string(body)),
    }
}

/// What a reply of the render service is worth: the body of a successful
/// answer is the image, whatever it holds.
pub open spec fn image_of_reply(reply: HttpReplyView) -> Result<Seq<u8>, ErrorKind> {
    match reply {
        HttpReplyView::Answered { status, body } if is_success(status) => Ok(body),
        _ => Err(ErrorKind::UpstreamUnavailable),
    }
}

/// Whether `r` is the outcome `expected`, text compared by its characters.
pub open spec fn same_text_outcome(r: Result<String, ErrorKind>, expected: Result<Seq<char>, ErrorKind>) -> bool {
    match (r, expected) {
        (Ok(a), Ok(b)) => a@ == b,
        (Err(a), Err(b)) => a == b,
        _ => false,
    }
}

/// Whether `r` is the outcome `expected`, buffers compared by their bytes.
pub open spec fn same_bytes_outcome(r: Result<bytes::Bytes, ErrorKind>, expected: Result<Seq<u8>, ErrorKind>) -> bool {
    match (r, expected) {
        (Ok(a), Ok(b)) => content(a) == b,
        (Err(a), Err(b)) => a == b,
        _ => false,
    }
}

/// Whether a status code reports success.
pub fn status_is_success(status: u16) -> (r: bool)
    ensures
        r == is_success(status),
{
    200 <= status && status < 300
}

/// Judges an answer of the account service from its status code and from
/// what its body decoded to.
pub fn judge_descriptor(status: u16, decoded: Option<String>) -> (r: Result<String, ErrorKind>)
    ensures
        same_text_outcome(
            r,
            descriptor_outcome(
                status,
                match decoded {
                    Some(text) => Some(text@),
                    None => None,
                },
            ),
        ),
{
    if !status_is_success(status) {
        Err(ErrorKind::UpstreamUnavailable)
    } else {
        match decoded {
            Some(descriptor) => Ok(descriptor),
            None => Err(ErrorKind::UpstreamMalformed),
        }
    }
}

/// Reads the user's descriptor out of a reply of the account service.
pub fn read_descriptor(reply: &HttpReply) -> (r: Result<String, ErrorKind>)
    ensures
        same_text_outcome(r, descriptor_of_reply(reply@)),
{
    match reply {
        HttpReply::Unreachable => Err(ErrorKind::UpstreamUnavailable),
        HttpReply::Answered { status, body } => {
            let decoded = match parse_json_string(as_slice(body)) {
                Ok(text) => Some(text),
                Err(_) => None,
            };
            judge_descriptor(*status, decoded)
        },
    }
}

/// Takes the image out of a reply of the render service.
pub fn read_image(reply: HttpReply) -> (r: Result<bytes::Bytes, ErrorKind>)
    ensures
        same_bytes_outcome(r, image_of_reply(reply@)),
{
    match reply {
        HttpReply::Unreachable => Err(ErrorKind::UpstreamUnavailable),
        HttpReply::Answered { status, body } => {
            if status_is_success(status) {
                Ok(body)
            } else {
                Err(ErrorKind::UpstreamUnavailable)
            }
        },
    }
}

} // verus!
