//! How the shell forwards a backend stream to its front end: each `data: `
//! line becomes at most one window event, `chat:<kind>`, whose payload
//! carries the stream's id and the content (text, a JSON value, or null).
use vstd::prelude::*;
use crate::sse::{PayloadView, sse_data, sse_payload};

verus! {

/// A master resume as the front end hands it over (`docx_b64`: the
/// uploaded `.docx`, base64, when there is one).
#[derive(Debug, Clone)]
pub struct MasterResumePayload {
    pub name: String,
    pub text: String,
    pub docx_b64: Option<String>,
}

/// One document of a job's corpus, for retrieval (`source` labels it).
#[derive(Debug, Clone)]
pub struct RagDocPayload {
    pub source: String,
    pub text: String,
}

/// The content of an event.
pub enum EmitContent {
    Text(String),
    /// JSON text, forwarded as the value it denotes.
    Json(String),
    Null,
}

pub enum ContentView {
    Text(Seq<char>),
    Json(Seq<char>),
    Null,
}

/// A window event to emit.
pub struct Emit {
    pub event: &'static str,
    pub content: EmitContent,
}

pub struct EmitView {
    pub event: Seq<char>,
    pub content: ContentView,
}

/// What to do with one line.
pub enum StreamStep {
    Skip,
    /// Emit and read on, whether or not the emit succeeded.
    Emit(Emit),
    /// Emit and read on; stop when the emit fails.
    EmitOrStop(Emit),
    /// Emit and stop: the stream is complete.
    Finish(Emit),
}

pub enum StreamStepView {
    Skip,
    Emit(EmitView),
    EmitOrStop(EmitView),
    Finish(EmitView),
}

impl View for Emit {
    type V = EmitView;

    open spec fn view(&self) -> EmitView {
        EmitView {
            event: self.event@,
            content: match self.content {
                EmitContent::Text(t) => ContentView::Text(t@),
                EmitContent::Json(t) => ContentView::Json(t@),
                EmitContent::Null => ContentView::Null,
            },
        }
    }
}

impl View for StreamStep {
    type V = StreamStepView;

    open spec fn view(&self) -> StreamStepView {
        match self {
            StreamStep::Skip => StreamStepView::Skip,
            StreamStep::Emit(e) => StreamStepView::Emit(e@),
            StreamStep::EmitOrStop(e) => StreamStepView::EmitOrStop(e@),
            StreamStep::Finish(e) => StreamStepView::Finish(e@),
        }
    }
}

pub open spec fn ev(name: Seq<char>, c: ContentView) -> EmitView {
    EmitView { event: name, content: c }
}

/// The step for the event object of a JSON `data` payload.
pub open spec fn object_step(p: PayloadView) -> StreamStepView {
    let k = p.kind;
    if k == Some("token"@) {
        match p.text {
            Some(t) => StreamStepView::EmitOrStop(ev("chat:token"@, ContentView::Text(t))),
            None => StreamStepView::Skip,
        }
    } else if k == Some("stage"@) {
        match p.text {
            Some(t) => StreamStepView::Emit(ev("chat:log"@, ContentView::Text(t))),
            None => StreamStepView::Skip,
        }
    } else if k == Some("scorecard"@) {
        StreamStepView::Emit(ev("chat:scorecard"@, ContentView::Json(p.content_json)))
    } else if k == Some("resume_docx"@) {
        match p.text {
            Some(t) => StreamStepView::Emit(ev("chat:resume_docx"@, ContentView::Text(t))),
            None => StreamStepView::Skip,
        }
    } else if k == Some("tailored_resume"@) {
        match p.text {
            Some(t) => StreamStepView::Emit(ev("chat:tailored_resume"@, ContentView::Text(t))),
            None => StreamStepView::Skip,
        }
    } else if k == Some("done"@) {
        StreamStepView::Finish(ev("chat:done"@, ContentView::Null))
    } else if k == Some("error"@) {
        StreamStepView::Finish(
            ev(
                "chat:error"@,
                ContentView::Text(
                    match p.text {
                        Some(t) => t,
                        None => "Unknown error"@,
                    },
                ),
            ),
        )
    } else {
        StreamStepView::Skip
    }
}

/// The step for a line: blank and non-`data: ` lines are skipped, a
/// `[DONE]` payload completes the stream, and a payload that is not JSON is
/// forwarded as a token.
pub open spec fn stream_line_step_spec(line: Seq<char>) -> StreamStepView {
    if line.len() == 0 {
        StreamStepView::Skip
    } else {
        match sse_data(line) {
            None => StreamStepView::Skip,
            Some(data) => if crate::text::trim(data) == "[DONE]"@ {
                StreamStepView::Finish(ev("chat:done"@, ContentView::Null))
            } else {
                match sse_payload(data) {
                    None => StreamStepView::Emit(ev("chat:token"@, ContentView::Text(data))),
                    Some(p) => object_step(p),
                }
            },
        }
    }
}

fn emit(event: &'static str, content: EmitContent) -> (r: Emit)
    ensures
        r.event == event,
        r.content == content,
{
    Emit { event, content }
}

/// Computes [`object_step`].
pub fn step_for_object(p: crate::sse::SsePayload) -> (r: StreamStep)
    ensures
        r@ == object_step(p@),
{
    if crate::sse::kind_is(&p.kind, "token") {
        match p.text {
            Some(t) => StreamStep::EmitOrStop(emit("chat:token", EmitContent::Text(t))),
            None => StreamStep::Skip,
        }
    } else if crate::sse::kind_is(&p.kind, "stage") {
        match p.text {
            Some(t) => StreamStep::Emit(emit("chat:log", EmitContent::Text(t))),
            None => StreamStep::Skip,
        }
    } else if crate::sse::kind_is(&p.kind, "scorecard") {
        StreamStep::Emit(emit("chat:scorecard", EmitContent::Json(p.content_json)))
    } else if crate::sse::kind_is(&p.kind, "resume_docx") {
        match p.text {
            Some(t) => StreamStep::Emit(emit("chat:resume_docx", EmitContent::Text(t))),
            None => StreamStep::Skip,
        }
    } else if crate::sse::kind_is(&p.kind, "tailored_resume") {
        match p.text {
            Some(t) => StreamStep::Emit(emit("chat:tailored_resume", EmitContent::Text(t))),
            None => StreamStep::Skip,
        }
    } else if crate::sse::kind_is(&p.kind, "done") {
        StreamStep::Finish(emit("chat:done", EmitContent::Null))
    } else if crate::sse::kind_is(&p.kind, "error") {
        let t = match p.text {
            Some(t) => t,
            None => crate::text::owned("Unknown error"),
        };
        StreamStep::Finish(emit("chat:error", EmitContent::Text(t)))
    } else {
        StreamStep::Skip
    }
}

/// Decides what one line read from a backend stream becomes
/// ([`stream_line_step_spec`]).
pub fn stream_line_step(line: &str) -> (r: StreamStep)
    ensures
        r@ == stream_line_step_spec(line@),
{
    if line.is_empty() {
        return StreamStep::Skip;
    }
    let data = match crate::sse::data_of_line(line) {
        None => return StreamStep::Skip,
        Some(d) => d,
    };
    let t = crate::text::trimmed(data.as_str());
    if crate::text::str_eq(t.as_str(), "[DONE]") {
        return StreamStep::Finish(emit("chat:done", EmitContent::Null));
    }
    match crate::sse::read_event(data.as_str()) {
        None => StreamStep::Emit(emit("chat:token", EmitContent::Text(data))),
        Some(p) => step_for_object(p),
    }
}

/// The step for one read of the stream body: a line as
/// [`stream_line_step_spec`]; a failed read finishes the stream with
/// `chat:error`, and a body that ends finishes it with `chat:done`.
pub open spec fn read_step_spec(r: crate::sse::ReadView) -> StreamStepView {
    match r {
        crate::sse::ReadView::Line(l) => stream_line_step_spec(l),
        crate::sse::ReadView::Failed(d) => StreamStepView::Finish(ev("chat:error"@, ContentView::Text(d))),
        crate::sse::ReadView::Ended => StreamStepView::Finish(ev("chat:done"@, ContentView::Null)),
    }
}

/// Computes [`read_step_spec`].
pub fn read_step(read: crate::sse::StreamRead) -> (r: StreamStep)
    ensures
        r@ == read_step_spec(read@),
{
    match read {
        crate::sse::StreamRead::Line(l) => stream_line_step(l.as_str()),
        crate::sse::StreamRead::Failed(d) => StreamStep::Finish(failed_event(d)),
        crate::sse::StreamRead::Ended => StreamStep::Finish(ended_event()),
    }
}

/// When reading goes on after the step's event: after `EmitOrStop` only
/// if the event was delivered, never after `Finish`.
pub open spec fn read_on_spec(s: StreamStepView) -> crate::sse::ReadOn {
    match s {
        StreamStepView::Skip => crate::sse::ReadOn::Always,
        StreamStepView::Emit(_) => crate::sse::ReadOn::Always,
        StreamStepView::EmitOrStop(_) => crate::sse::ReadOn::IfDelivered,
        StreamStepView::Finish(_) => crate::sse::ReadOn::Never,
    }
}

pub fn read_on(s: &StreamStep) -> (r: crate::sse::ReadOn)
    ensures
        r == read_on_spec(s@),
{
    match s {
        StreamStep::Skip => crate::sse::ReadOn::Always,
        StreamStep::Emit(_) => crate::sse::ReadOn::Always,
        StreamStep::EmitOrStop(_) => crate::sse::ReadOn::IfDelivered,
        StreamStep::Finish(_) => crate::sse::ReadOn::Never,
    }
}

/// The events emitted for the reads `reads`, in order, when every event is
/// delivered: reading stops at the first step that finishes the stream.
pub open spec fn emitted(reads: Seq<crate::sse::ReadView>) -> Seq<EmitView>
    decreases reads.len(),
{
    if reads.len() == 0 {
        Seq::empty()
    } else {
        let rest = reads.drop_first();
        match read_step_spec(reads[0]) {
            StreamStepView::Skip => emitted(rest),
            StreamStepView::Emit(e) => seq![e] + emitted(rest),
            StreamStepView::EmitOrStop(e) => seq![e] + emitted(rest),
            StreamStepView::Finish(e) => seq![e],
        }
    }
}

/// Whether an event ends a stream for the front end.
pub open spec fn is_terminal(name: Seq<char>) -> bool {
    name == "chat:done"@ || name == "chat:error"@
}

/// The event for a stream that ended without `done`: it counts as done.
pub fn ended_event() -> (r: Emit)
    ensures
        r@ == ev("chat:done"@, ContentView::Null),
{
    emit("chat:done", EmitContent::Null)
}

/// The event for a stream that failed: `detail` says why.
pub fn failed_event(detail: String) -> (r: Emit)
    ensures
        r@ == ev("chat:error"@, ContentView::Text(detail@)),
{
    emit("chat:error", EmitContent::Text(detail))
}

/// The error text for a refused request: `HTTP <status>: <body>`.
pub fn http_error_text(status: &str, body: &str) -> (r: String)
    ensures
        r@ == "HTTP "@ + status@ + ": "@ + body@,
{
    let mut m = crate::text::owned("HTTP ");
    crate::text::push_str(&mut m, status);
    crate::text::push_str(&mut m, ": ");
    crate::text::push_str(&mut m, body);
    m
}

/// The streams the front end can start.
#[derive(Clone, Copy, Debug, PartialEq, Eq, Structural)]
pub enum StreamKind {
    Chat,
    Research,
    CompanyResearch,
    ApplicationTailor,
    KnockoutScreen,
}

pub open spec fn stream_path_spec(k: StreamKind) -> Seq<char> {
    match k {
        StreamKind::Chat => "/chat/stream"@,
        StreamKind::Research => "/research/stream"@,
        StreamKind::CompanyResearch => "/company-research/stream"@,
        StreamKind::ApplicationTailor => "/application/tailor-resume"@,
        StreamKind::KnockoutScreen => "/application/knockout-screen"@,
    }
}

impl StreamKind {
    /// The URL a stream of this kind is posted to on the backend at `base`.
    pub fn url(self, base: &str) -> (r: String)
        ensures
            r@ == base@ + stream_path_spec(self),
    {
        let path = match self {
            StreamKind::Chat => "/chat/stream",
            StreamKind::Research => "/research/stream",
            StreamKind::CompanyResearch => "/company-research/stream",
            StreamKind::ApplicationTailor => "/application/tailor-resume",
            StreamKind::KnockoutScreen => "/application/knockout-screen",
        };
        let mut u = crate::text::owned(base);
        crate::text::push_str(&mut u, path);
        u
    }
}

} // verus!
