//! The event stream of the Python backend: server-sent events whose
//! `data: ` lines each carry one JSON object `{"type": …, "content": …}`,
//! and the base64 text in which a tailored `.docx` travels.
use vstd::prelude::*;
use base64::Engine;

verus! {

/// What the programs read of one event object.
pub struct SsePayload {
    /// The `"type"` member, when it is a string.
    pub kind: Option<String>,
    /// The `"content"` member, when it is a string.
    pub text: Option<String>,
    /// The `"content"` member written back as compact JSON (`null` when it
    /// is absent).
    pub content_json: String,
}

pub struct PayloadView {
    pub kind: Option<Seq<char>>,
    pub text: Option<Seq<char>>,
    pub content_json: Seq<char>,
}

impl View for SsePayload {
    type V = PayloadView;

    open spec fn view(&self) -> PayloadView {
        PayloadView {
            kind: crate::desktop::types::opt_view(self.kind),
            text: crate::desktop::types::opt_view(self.text),
            content_json: self.content_json@,
        }
    }
}

pub open spec fn payload_view(p: Option<SsePayload>) -> Option<PayloadView> {
    match p {
        Some(x) => Some(x@),
        None => None,
    }
}

/// What `serde_json` reads from the text `data`: `None` when it is not a
/// JSON document, else the string value of member `kind_key`, the string
/// value of member `content_key`, and member `content_key` written back as
/// compact JSON.
pub uninterp spec fn json_members(data: Seq<char>, kind_key: Seq<char>, content_key: Seq<char>) -> Option<
    PayloadView,
>;

/// One event object of the protocol: its `"type"` and `"content"` members.
pub open spec fn sse_payload(data: Seq<char>) -> Option<PayloadView> {
    json_members(data, "type"@, "content"@)
}

/// What `base64`'s standard engine decodes from `text`: the bytes, or the
/// text of its `DecodeError`.
pub uninterp spec fn base64_decoded(text: Seq<char>) -> Result<Seq<u8>, Seq<char>>;

/// What `base64`'s standard engine encodes the UTF-8 bytes of `text` to.
pub uninterp spec fn base64_of_text(text: Seq<char>) -> Seq<char>;

pub open spec fn decoded_view(r: Result<Vec<u8>, String>) -> Result<Seq<u8>, Seq<char>> {
    match r {
        Ok(b) => Ok(b@),
        Err(e) => Err(e@),
    }
}

/// Parses `data` with `serde_json::from_str::<serde_json::Value>` and reads
/// its members `kind_key` and `content_key` (`Value::as_str`, and `Value`'s
/// `Display` for the JSON text; indexing a missing member gives `null`).
/// Claims only that the result is [`json_members`] of the arguments.
#[verifier::external_body]
fn parse_event_json(data: &str, kind_key: &str, content_key: &str) -> (r: Option<SsePayload>)
    ensures
        payload_view(r) == json_members(data@, kind_key@, content_key@),
{
    match serde_json::from_str::<serde_json::Value>(data) {
        Ok(v) => Some(
            SsePayload {
                kind: v[kind_key].as_str().map(String::from),
                text: v[content_key].as_str().map(String::from),
                content_json: v[content_key].to_string(),
            },
        ),
        Err(_) => None,
    }
}

/// Reads one event object ([`sse_payload`]).
pub fn read_event(data: &str) -> (r: Option<SsePayload>)
    ensures
        payload_view(r) == sse_payload(data@),
{
    parse_event_json(data, "type", "content")
}

/// Decodes `text` with `base64::engine::general_purpose::STANDARD.decode`,
/// an error as its `Display` text. Claims only that the result is
/// [`base64_decoded`] of `text`.
#[verifier::external_body]
pub(crate) fn base64_decode(text: &str) -> (r: Result<Vec<u8>, String>)
    ensures
        decoded_view(r) == base64_decoded(text@),
{
    base64::engine::general_purpose::STANDARD.decode(text).map_err(|e| e.to_string())
}

/// Encodes the UTF-8 bytes of `text` (`str::as_bytes`) with
/// `base64::engine::general_purpose::STANDARD.encode`. Claims only that the
/// result is [`base64_of_text`] of `text`.
#[verifier::external_body]
pub(crate) fn base64_encode_text(text: &str) -> (r: String)
    ensures
        r@ == base64_of_text(text@),
{
    base64::engine::general_purpose::STANDARD.encode(text.as_bytes())
}

/// Whether an event's type is `name`.
pub fn kind_is(kind: &Option<String>, name: &str) -> (b: bool)
    ensures
        b == (crate::desktop::types::opt_view(*kind) == Some(name@)),
{
    match kind {
        Some(k) => crate::text::str_eq(k.as_str(), name),
        None => false,
    }
}

/// The payload of an SSE line: what follows `"data: "`, if it starts so.
pub open spec fn sse_data(line: Seq<char>) -> Option<Seq<char>> {
    if crate::text::has_prefix(line, "data: "@) {
        Some(line.skip(6))
    } else {
        None
    }
}

pub fn data_of_line(line: &str) -> (r: Option<String>)
    ensures
        crate::desktop::types::opt_view(r) == sse_data(line@),
{
    proof {
        reveal_strlit("data: ");
    }
    crate::text::strip_prefix(line, "data: ")
}

/// What one read of a stream body gave: a line, a read failure (its
/// description), or the end of the body.
pub enum StreamRead {
    Line(String),
    Failed(String),
    Ended,
}

pub enum ReadView {
    Line(Seq<char>),
    Failed(Seq<char>),
    Ended,
}

impl View for StreamRead {
    type V = ReadView;

    open spec fn view(&self) -> ReadView {
        match self {
            StreamRead::Line(l) => ReadView::Line(l@),
            StreamRead::Failed(d) => ReadView::Failed(d@),
            StreamRead::Ended => ReadView::Ended,
        }
    }
}

/// When reading goes on after a step's event was handed over.
#[derive(Clone, Copy, Debug, PartialEq, Eq, Structural)]
pub enum ReadOn {
    /// Whatever became of the event.
    Always,
    /// Only when the event was received.
    IfDelivered,
    /// Never: the stream is over.
    Never,
}

/// Whether to read on, `delivered` telling whether the event was received.
pub fn continues(on: ReadOn, delivered: bool) -> (r: bool)
    ensures
        r == match on {
            ReadOn::Always => true,
            ReadOn::IfDelivered => delivered,
            ReadOn::Never => false,
        },
{
    match on {
        ReadOn::Always => true,
        ReadOn::IfDelivered => delivered,
        ReadOn::Never => false,
    }
}

} // verus!
