//! The parts of HTTP that the crate decides on: status classes and which
//! text a header may carry as its value.

use vstd::prelude::*;
use vstd::utf8::{encode_utf8, is_ascii_chars, is_ascii_chars_encode_utf8};
use crate::text::decimal_digits;

verus! {

/// Whether an HTTP status is in the success class, 200 to 299.
pub open spec fn status_is_success(status: u16) -> bool {
    200 <= status < 300
}

/// Whether an HTTP status is in the success class, 200 to 299.
pub fn is_success(status: u16) -> (success: bool)
    ensures
        success == status_is_success(status),
{
    200 <= status && status < 300
}

/// The HTTP statuses that the endpoints answer with.
#[derive(Clone, Copy, Debug, PartialEq, Eq, Structural)]
pub enum StatusCode {
    Success,
    NoContent,
    BadRequest,
    InternalServerError,
}

impl StatusCode {
    /// The numeric code of the status.
    pub open spec fn number(self) -> u16 {
        match self {
            StatusCode::Success => 200,
            StatusCode::NoContent => 204,
            StatusCode::BadRequest => 400,
            StatusCode::InternalServerError => 500,
        }
    }

    /// The numeric code of the status.
    pub fn code(&self) -> (code: u16)
        ensures
            code == self.number(),
    {
        match self {
            StatusCode::Success => 200,
            StatusCode::NoContent => 204,
            StatusCode::BadRequest => 400,
            StatusCode::InternalServerError => 500,
        }
    }
}

/// What came back from a request whose answer is judged by its status alone.
#[derive(Debug, PartialEq, Eq)]
pub enum HttpReply {
    /// The request failed before a status was received.
    RequestFailed { detail: String },
    /// A status was received; `body` is the text of the body where it could
    /// be read.
    Received { status: u16, body: Option<String> },
}

/// A reply as a mathematical value.
pub enum HttpReplyModel {
    RequestFailed { detail: Seq<char> },
    Received { status: u16, body: Option<Seq<char>> },
}

impl View for HttpReply {
    type V = HttpReplyModel;

    open spec fn view(&self) -> HttpReplyModel {
        match self {
            HttpReply::RequestFailed { detail } => HttpReplyModel::RequestFailed {
                detail: detail@,
            },
            HttpReply::Received { status, body } => HttpReplyModel::Received {
                status: *status,
                body: match body {
                    Some(body) => Some(body@),
                    None => None,
                },
            },
        }
    }
}

/// The bytes that a header value may hold: the tab, and everything from the
/// space upwards but the delete character.
pub open spec fn header_byte_allowed(byte: u8) -> bool {
    (byte >= 32 && byte != 127) || byte == 9
}

/// Whether every byte of the UTF-8 encoding of `text` may stand in a header
/// value.
pub open spec fn header_value_allowed(text: Seq<char>) -> bool {
    forall|i: int|
        0 <= i < encode_utf8(text).len() ==> header_byte_allowed(#[trigger] encode_utf8(text)[i])
}

/// Whether `text` can be made into a header value.
///
/// Trusted: calls `HeaderValue::from_str` of the `http` crate, as `axum`
/// exports it, and reports whether it succeeded. That function walks the
/// bytes of the string and fails exactly when one of them is below 32 and not
/// the tab, or is 127.
#[verifier::external_body]
pub(crate) fn header_value_accepts(text: &str) -> (accepted: bool)
    ensures
        accepted == header_value_allowed(text@),
{
    axum::http::HeaderValue::from_str(text).is_ok()
}

/// Text made of printable ASCII may stand in a header value.
pub proof fn lemma_printable_ascii_allowed(text: Seq<char>)
    requires
        forall|i: int| 0 <= i < text.len() ==> ' ' <= #[trigger] text[i] <= '~',
    ensures
        header_value_allowed(text),
{
    assert(is_ascii_chars(text));
    is_ascii_chars_encode_utf8(text);
    assert forall|i: int| 0 <= i < encode_utf8(text).len() implies header_byte_allowed(
        #[trigger] encode_utf8(text)[i],
    ) by {
        assert(text[i] as u8 == encode_utf8(text)[i]);
    }
}

/// A decimal numeral is made of the digits `0` to `9`.
pub proof fn lemma_decimal_digits_are_digits(value: nat)
    ensures
        decimal_digits(value).len() >= 1,
        forall|i: int|
            0 <= i < decimal_digits(value).len() ==> '0' <= #[trigger] decimal_digits(value)[i]
                <= '9',
    decreases value,
{
    if value >= 10 {
        lemma_decimal_digits_are_digits(value / 10);
    }
}

/// A decimal numeral may stand in a header value.
pub proof fn lemma_decimal_allowed(value: nat)
    ensures
        header_value_allowed(decimal_digits(value)),
{
    lemma_decimal_digits_are_digits(value);
    lemma_printable_ascii_allowed(decimal_digits(value));
}

} // verus!
