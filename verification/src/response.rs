//! The runtime model of the emitted response conversion.
//!
//! The emitted `IntoResponse` impl classifies the value, and for
//! server-fault classifications logs the detail and hides the message
//! behind a fixed literal; every other classification passes the display
//! message through verbatim. The response body always carries the same
//! two fields: the numeric code and the error string.

use vstd::prelude::*;

use crate::render::debug_rendering;
use crate::render::render_debug;

verus! {

/// The one diagnostic record a server-fault response emits: the original
/// display message and the full debug rendering of the value.
pub struct LogRecord {
    pub message: String,
    pub details: String,
}

/// The structured response the emitted conversion produces: the status
/// code, the two body fields (serialized under the names `code` and
/// `error`), and the log record, if one was emitted.
pub struct ResponseParts {
    pub status: u16,
    pub body_code: u16,
    pub body_error: String,
    pub log: Option<LogRecord>,
}

/// A runtime value of the generated-for enum, as the emitted behaviors
/// see it: which variant it is, its opaque payload data, and the
/// externally supplied display message and causal chain.
pub struct ErrorValue {
    pub variant: usize,
    pub payload: Vec<String>,
    pub display: String,
    pub causes: Vec<String>,
}

/// The server-fault class of classification codes, whose detail is hidden
/// from callers and logged instead.
pub open spec fn is_server_fault(code: u16) -> bool {
    500 <= code < 600
}

/// The fixed message a server-fault response shows in place of the
/// value's own display text.
pub open spec fn hidden_message() -> Seq<char> {
    "Internal server error"@
}

/// What the emitted response conversion promises of its output, given the
/// classification code, the display message, and the debug rendering of
/// the value.
pub open spec fn response_spec(
    status: u16,
    display: Seq<char>,
    details: Seq<char>,
    r: ResponseParts,
) -> bool {
    &&& r.status == status
    &&& r.body_code == status
    &&& if is_server_fault(status) {
        &&& r.body_error@ == hidden_message()
        &&& r.log matches Some(l) && l.message@ == display && l.details@ == details
    } else {
        &&& r.body_error@ == display
        &&& r.log is None
    }
}

/// Whether a classification code falls in the server-fault class.
pub fn server_fault(code: u16) -> (r: bool)
    ensures
        r == is_server_fault(code),
{
    500 <= code && code < 600
}

/// The classifier the emitter attaches to the enum, over the resolved
/// codes: a value is classified by its variant alone; the payload is
/// never inspected.
pub fn classify(codes: &Vec<u16>, value: &ErrorValue) -> (r: u16)
    requires
        value.variant < codes@.len(),
    ensures
        r == codes@[value.variant as int],
{
    codes[value.variant]
}

/// The classification of a value depends on its variant alone: two values
/// of the same variant classify alike, whatever their payloads, display
/// messages, or causal chains.
pub proof fn lemma_classification_ignores_payload(codes: Seq<u16>, v1: ErrorValue, v2: ErrorValue)
    requires
        v1.variant == v2.variant,
        v1.variant < codes.len(),
    ensures
        codes[v1.variant as int] == codes[v2.variant as int],
{
}

/// The response builder: build the structured response for a value whose
/// classification, display message, and debug rendering are given.
pub fn build_response(status: u16, display: &str, details: &str) -> (r: ResponseParts)
    ensures
        response_spec(status, display@, details@, r),
{
    if server_fault(status) {
        ResponseParts {
            status,
            body_code: status,
            body_error: "Internal server error".to_owned(),
            log: Some(LogRecord { message: display.to_owned(), details: details.to_owned() }),
        }
    } else {
        ResponseParts { status, body_code: status, body_error: display.to_owned(), log: None }
    }
}

/// The whole emitted conversion for one value: classify it, render its
/// debug form, and build the response under the information-hiding
/// policy.
pub fn into_response_parts(codes: &Vec<u16>, value: &ErrorValue) -> (r: ResponseParts)
    requires
        value.variant < codes@.len(),
    ensures
        response_spec(
            codes@[value.variant as int],
            value.display@,
            debug_rendering(value.display@, value.causes@.map_values(|c: String| c@)),
            r,
        ),
{
    let status = classify(codes, value);
    let details = render_debug(value.display.as_str(), &value.causes);
    build_response(status, value.display.as_str(), details.as_str())
}

/// Two values of the same variant always yield the same classification
/// and the same response shape, whatever their payloads: the status and
/// numeric body code agree, a log record is present for the one exactly
/// when it is for the other, and for a server-fault classification even
/// the outward messages agree. Only for other classifications may the
/// message content differ.
pub proof fn lemma_builder_idempotent(
    status: u16,
    d1: Seq<char>,
    d2: Seq<char>,
    det1: Seq<char>,
    det2: Seq<char>,
    r1: ResponseParts,
    r2: ResponseParts,
)
    requires
        response_spec(status, d1, det1, r1),
        response_spec(status, d2, det2, r2),
    ensures
        r1.status == r2.status,
        r1.body_code == r2.body_code,
        r1.log is Some <==> r2.log is Some,
        is_server_fault(status) ==> r1.body_error@ == r2.body_error@,
{
}

/// Information hiding: a server-fault response always shows the fixed
/// literal, never the value's own display text, and logs the original
/// message together with the debug rendering.
pub proof fn lemma_server_fault_hides(
    status: u16,
    display: Seq<char>,
    details: Seq<char>,
    r: ResponseParts,
)
    requires
        response_spec(status, display, details, r),
        is_server_fault(status),
    ensures
        r.body_error@ == hidden_message(),
        r.log matches Some(l) && l.message@ == display && l.details@ == details,
{
}

/// Pass-through: a response for any other classification shows the
/// value's own display message verbatim and logs nothing.
pub proof fn lemma_pass_through(status: u16, display: Seq<char>, details: Seq<char>, r: ResponseParts)
    requires
        response_spec(status, display, details, r),
        !is_server_fault(status),
    ensures
        r.body_error@ == display,
        r.log is None,
{
}

} // verus!
