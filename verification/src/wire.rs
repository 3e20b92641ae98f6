//! The messages on the wire: one JSON object per request, one per reply.
//!
//! A request is `{"user-data": "<base64>", "nonce": "<base64>"}`. A reply is
//! either `{"document": "<base64>"}` or
//! `{"error": "<category>", "message": "<detail>"}`, the latter with a
//! `"status"` tag when the monitor is at fault.

use vstd::prelude::*;
use vstd::utf8::encode_utf8;

verus! {

/// serde_json's error type, carried through as it is.
#[verifier::external_type_specification]
#[verifier::external_body]
pub struct ExJsonError(serde_json::Error);

/// A text as a JSON string: quoted, with the characters escaped that JSON
/// does not take as they are.
pub uninterp spec fn json_string_text(text: Seq<char>) -> Seq<char>;

/// Calls `serde_json::to_string` on a string slice. Trusted: the result
/// depends on the text alone, and the call succeeds, since a string slice
/// holds no map and is written to a buffer in memory.
#[verifier::external_body]
pub(crate) fn json_string(text: &str) -> (r: Result<String, serde_json::Error>)
    ensures
        r is Ok,
        r matches Ok(quoted) ==> quoted@ == json_string_text(text@),
{
    serde_json::to_string(text)
}

/// The category of a reply to a chunk that is no request.
pub open spec fn invalid_json() -> Seq<char> {
    "invalid JSON request"@
}

/// The category of a reply to a request whose user data is not base64.
pub open spec fn invalid_report_data() -> Seq<char> {
    "Invalid report-data encoding"@
}

/// The category of a reply to a request whose nonce is not base64.
pub open spec fn invalid_nonce() -> Seq<char> {
    "Invalid nonce encoding"@
}

/// The category of a reply when the monitor gave no document.
pub open spec fn monitor_unavailable() -> Seq<char> {
    "NSM device not available"@
}

/// The status tag that sets monitor failures apart from bad input.
pub open spec fn unavailable_status() -> Seq<char> {
    "NSM_UNAVAILABLE"@
}

/// An inbound request: two base64 texts.
#[derive(Debug, Clone, PartialEq, Eq)]
pub struct AttestationRequest {
    /// The data to bind into the document.
    pub user_data: String,
    /// The freshness value to bind into the document.
    pub nonce: String,
}

/// An [`AttestationRequest`] as mathematical values.
pub struct AttestationRequestModel {
    pub user_data: Seq<char>,
    pub nonce: Seq<char>,
}

impl View for AttestationRequest {
    type V = AttestationRequestModel;

    open spec fn view(&self) -> AttestationRequestModel {
        AttestationRequestModel { user_data: self.user_data@, nonce: self.nonce@ }
    }
}

/// The reply that carries a document, as base64.
#[derive(Debug, Clone, PartialEq, Eq)]
pub struct AttestationResponse {
    /// The signed document, in standard padded base64.
    pub document: String,
}

/// The reply that reports a failure.
#[derive(Debug, Clone, PartialEq, Eq)]
pub struct ErrorResponse {
    /// A short category for machines.
    pub error: String,
    /// The detail for people.
    pub message: String,
    /// Present when the monitor, not the input, is at fault.
    pub status: Option<String>,
}

/// The one message written for an inbound request.
#[derive(Debug, Clone, PartialEq, Eq)]
pub enum Reply {
    /// The request was served.
    Attestation(AttestationResponse),
    /// The request was not served.
    Error(ErrorResponse),
}

/// A [`Reply`] as mathematical values.
pub enum ReplyModel {
    Attestation { document: Seq<char> },
    Error { error: Seq<char>, message: Seq<char>, status: Option<Seq<char>> },
}

impl View for Reply {
    type V = ReplyModel;

    open spec fn view(&self) -> ReplyModel {
        match *self {
            Reply::Attestation(response) => ReplyModel::Attestation { document: response.document@ },
            Reply::Error(response) => ReplyModel::Error {
                error: response.error@,
                message: response.message@,
                status: match response.status {
                    Some(tag) => Some(tag@),
                    None => None,
                },
            },
        }
    }
}

impl ReplyModel {
    /// A failure that the input is to blame for.
    pub open spec fn rejection(error: Seq<char>, message: Seq<char>) -> ReplyModel {
        ReplyModel::Error { error, message, status: None }
    }

    /// A failure that the monitor is to blame for.
    pub open spec fn unavailable(message: Seq<char>) -> ReplyModel {
        ReplyModel::Error {
            error: monitor_unavailable(),
            message,
            status: Some(unavailable_status()),
        }
    }

    /// The `"status"` member of an error object, with its leading comma.
    pub open spec fn status_member(status: Option<Seq<char>>) -> Seq<char> {
        match status {
            Some(tag) => ",\"status\":"@ + json_string_text(tag),
            None => Seq::empty(),
        }
    }

    /// The reply as compact JSON.
    pub open spec fn json_text(self) -> Seq<char> {
        match self {
            ReplyModel::Attestation { document } => "{\"document\":"@ + json_string_text(document)
                + "}"@,
            ReplyModel::Error { error, message, status } => "{\"error\":"@ + json_string_text(error)
                + ",\"message\":"@ + json_string_text(message) + Self::status_member(status)
                + "}"@,
        }
    }
}

/// A text as a JSON string.
fn quoted(text: &str) -> (r: String)
    ensures
        r@ == json_string_text(text@),
{
    match json_string(text) {
        Ok(quoted) => quoted,
        Err(_) => String::new(),
    }
}

impl Reply {
    /// The reply that carries `document`.
    pub fn attestation(document: String) -> (r: Reply)
        ensures
            r@ == (ReplyModel::Attestation { document: document@ }),
    {
        Reply::Attestation(AttestationResponse { document })
    }

    /// The reply that rejects the input under the category `error`.
    pub fn rejection(error: &str, message: String) -> (r: Reply)
        ensures
            r@ == ReplyModel::rejection(error@, message@),
    {
        Reply::Error(ErrorResponse { error: String::from_str(error), message, status: None })
    }

    /// The reply that reports that the monitor gave no document.
    pub fn unavailable(message: String) -> (r: Reply)
        ensures
            r@ == ReplyModel::unavailable(message@),
    {
        Reply::Error(
            ErrorResponse {
                error: String::from_str("NSM device not available"),
                message,
                status: Some(String::from_str("NSM_UNAVAILABLE")),
            },
        )
    }

    /// Writes the reply as compact JSON.
    pub fn to_json(&self) -> (r: String)
        ensures
            r@ == self@.json_text(),
    {
        match self {
            Reply::Attestation(response) => {
                let mut text = String::from_str("{\"document\":");
                text.append(quoted(response.document.as_str()).as_str());
                text.append("}");
                text
            },
            Reply::Error(response) => {
                let mut text = String::from_str("{\"error\":");
                text.append(quoted(response.error.as_str()).as_str());
                text.append(",\"message\":");
                text.append(quoted(response.message.as_str()).as_str());
                match &response.status {
                    Some(tag) => {
                        text.append(",\"status\":");
                        text.append(quoted(tag.as_str()).as_str());
                    },
                    None => {},
                }
                text.append("}");
                text
            },
        }
    }

    /// The bytes to put on the wire: the JSON text in UTF-8.
    pub fn to_bytes(&self) -> (r: Vec<u8>)
        ensures
            r@ == encode_utf8(self@.json_text()),
    {
        self.to_json().as_str().as_bytes_vec()
    }
}

/// On the wire a failure never reads as a document: the text of one names
/// `error` as its first member, the text of the other `document`.
pub proof fn lemma_failure_text_is_no_document(failure: ReplyModel, document: ReplyModel)
    requires
        failure is Error,
        document is Attestation,
    ensures
        failure.json_text() != document.json_text(),
{
    reveal_strlit("{\"error\":");
    reveal_strlit("{\"document\":");
    assert(failure.json_text()[2] == 'e');
    assert(document.json_text()[2] == 'd');
}

} // verus!
