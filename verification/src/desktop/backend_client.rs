//! What the desktop program asks of the Python backend and what comes back
//! on a stream.
use vstd::prelude::*;

verus! {

/// One event of a backend stream.
#[derive(Debug)]
pub enum ChatEvent {
    /// Token of the final response, appended to the bubble body.
    Token(String),
    /// Progress line from the agent, shown above the bubble.
    Log(String),
    /// The tailoring scorecard, as JSON text.
    Scorecard(String),
    /// Decoded `.docx` bytes of the tailored resume.
    ResumeDocx(Vec<u8>),
    /// The plain-text tailored resume.
    TailoredResume(String),
    Done,
    Error(String),
}

/// `(role, content)` pairs of prior turns, oldest first; `role` is `"user"`
/// or `"assistant"`.
pub type ChatHistory = Vec<(String, String)>;

/// A stream to open against the backend at `base_url`.
pub enum StreamRequest {
    /// `POST {base_url}/chat/stream`
    Chat {
        base_url: String,
        message: String,
        job_context: String,
        history: ChatHistory,
        mode: String,
        api_key: String,
    },
    /// `POST {base_url}/company-research/stream`
    CompanyResearch {
        base_url: String,
        company: String,
        role: String,
        location: String,
        job_description: String,
        tailored_resume: String,
        api_key: String,
        glassdoor_email: String,
        glassdoor_password: String,
        indeed_email: String,
        indeed_password: String,
    },
    /// `POST {base_url}/application/tailor-resume`
    ApplicationTailor {
        base_url: String,
        company: String,
        role: String,
        location: String,
        job_description: String,
        master_resumes: Vec<(String, String)>,
        api_key: String,
    },
    /// `POST {base_url}/application/knockout-screen`
    KnockoutScreen {
        base_url: String,
        company: String,
        role: String,
        location: String,
        job_description: String,
        tailored_resume: String,
        api_key: String,
    },
    /// `POST {base_url}/research/stream`
    Research {
        base_url: String,
        company: String,
        role: String,
        job_description: String,
        api_key: String,
    },
}

} // verus!

verus! {

/// History pairs as character sequences.
pub open spec fn history_view(h: Seq<(String, String)>) -> Seq<(Seq<char>, Seq<char>)> {
    h.map_values(|p: (String, String)| (p.0@, p.1@))
}

/// The mathematical content of a [`StreamRequest`].
pub enum RequestView {
    Chat {
        base_url: Seq<char>,
        message: Seq<char>,
        job_context: Seq<char>,
        history: Seq<(Seq<char>, Seq<char>)>,
        mode: Seq<char>,
        api_key: Seq<char>,
    },
    CompanyResearch {
        base_url: Seq<char>,
        company: Seq<char>,
        role: Seq<char>,
        location: Seq<char>,
        job_description: Seq<char>,
        tailored_resume: Seq<char>,
        api_key: Seq<char>,
        glassdoor_email: Seq<char>,
        glassdoor_password: Seq<char>,
        indeed_email: Seq<char>,
        indeed_password: Seq<char>,
    },
    ApplicationTailor {
        base_url: Seq<char>,
        company: Seq<char>,
        role: Seq<char>,
        location: Seq<char>,
        job_description: Seq<char>,
        master_resumes: Seq<(Seq<char>, Seq<char>)>,
        api_key: Seq<char>,
    },
    KnockoutScreen {
        base_url: Seq<char>,
        company: Seq<char>,
        role: Seq<char>,
        location: Seq<char>,
        job_description: Seq<char>,
        tailored_resume: Seq<char>,
        api_key: Seq<char>,
    },
    Research {
        base_url: Seq<char>,
        company: Seq<char>,
        role: Seq<char>,
        job_description: Seq<char>,
        api_key: Seq<char>,
    },
}

impl View for StreamRequest {
    type V = RequestView;

    open spec fn view(&self) -> RequestView {
        match self {
            StreamRequest::Chat { base_url, message, job_context, history, mode, api_key } =>
                RequestView::Chat {
                base_url: base_url@,
                message: message@,
                job_context: job_context@,
                history: history_view(history@),
                mode: mode@,
                api_key: api_key@,
            },
            StreamRequest::CompanyResearch {
                base_url,
                company,
                role,
                location,
                job_description,
                tailored_resume,
                api_key,
                glassdoor_email,
                glassdoor_password,
                indeed_email,
                indeed_password,
            } => RequestView::CompanyResearch {
                base_url: base_url@,
                company: company@,
                role: role@,
                location: location@,
                job_description: job_description@,
                tailored_resume: tailored_resume@,
                api_key: api_key@,
                glassdoor_email: glassdoor_email@,
                glassdoor_password: glassdoor_password@,
                indeed_email: indeed_email@,
                indeed_password: indeed_password@,
            },
            StreamRequest::ApplicationTailor {
                base_url,
                company,
                role,
                location,
                job_description,
                master_resumes,
                api_key,
            } => RequestView::ApplicationTailor {
                base_url: base_url@,
                company: company@,
                role: role@,
                location: location@,
                job_description: job_description@,
                master_resumes: history_view(master_resumes@),
                api_key: api_key@,
            },
            StreamRequest::KnockoutScreen {
                base_url,
                company,
                role,
                location,
                job_description,
                tailored_resume,
                api_key,
            } => RequestView::KnockoutScreen {
                base_url: base_url@,
                company: company@,
                role: role@,
                location: location@,
                job_description: job_description@,
                tailored_resume: tailored_resume@,
                api_key: api_key@,
            },
            StreamRequest::Research { base_url, company, role, job_description, api_key } =>
                RequestView::Research {
                base_url: base_url@,
                company: company@,
                role: role@,
                job_description: job_description@,
                api_key: api_key@,
            },
        }
    }
}

/// The view of an optional request.
pub open spec fn request_view(r: Option<StreamRequest>) -> Option<RequestView> {
    match r {
        Some(x) => Some(x@),
        None => None,
    }
}

/// The mathematical content of a [`ChatEvent`].
pub enum EventView {
    Token(Seq<char>),
    Log(Seq<char>),
    Scorecard(Seq<char>),
    ResumeDocx(Seq<u8>),
    TailoredResume(Seq<char>),
    Done,
    Error(Seq<char>),
}

impl View for ChatEvent {
    type V = EventView;

    open spec fn view(&self) -> EventView {
        match self {
            ChatEvent::Token(t) => EventView::Token(t@),
            ChatEvent::Log(t) => EventView::Log(t@),
            ChatEvent::Scorecard(t) => EventView::Scorecard(t@),
            ChatEvent::ResumeDocx(b) => EventView::ResumeDocx(b@),
            ChatEvent::TailoredResume(t) => EventView::TailoredResume(t@),
            ChatEvent::Done => EventView::Done,
            ChatEvent::Error(t) => EventView::Error(t@),
        }
    }
}

/// What to do with one line of the stream.
pub enum SseStep {
    /// Nothing to forward.
    Skip,
    /// Forward the event; stop reading when nobody receives it any more.
    Send(ChatEvent),
    /// Forward the event and read on whether or not it was received.
    Notify(ChatEvent),
    /// Forward the event and stop: the stream is complete.
    Finish(ChatEvent),
}

pub enum StepView {
    Skip,
    Send(EventView),
    Notify(EventView),
    Finish(EventView),
}

impl View for SseStep {
    type V = StepView;

    open spec fn view(&self) -> StepView {
        match self {
            SseStep::Skip => StepView::Skip,
            SseStep::Send(e) => StepView::Send(e@),
            SseStep::Notify(e) => StepView::Notify(e@),
            SseStep::Finish(e) => StepView::Finish(e@),
        }
    }
}

/// The step for an event object `p` (`None`: the line was not JSON).
/// `docx` is what the base64 text of a `resume_docx` event decodes to.
pub open spec fn payload_step(
    p: Option<crate::sse::PayloadView>,
    docx: Option<Result<Seq<u8>, Seq<char>>>,
) -> StepView {
    match p {
        None => StepView::Skip,
        Some(p) => {
            let k = p.kind;
            if k == Some("token"@) {
                match p.text {
                    Some(t) => StepView::Send(EventView::Token(t)),
                    None => StepView::Skip,
                }
            } else if k == Some("stage"@) {
                match p.text {
                    Some(t) => StepView::Send(EventView::Log(t)),
                    None => StepView::Skip,
                }
            } else if k == Some("scorecard"@) {
                StepView::Send(EventView::Scorecard(p.content_json))
            } else if k == Some("resume_docx"@) {
                match (p.text, docx) {
                    (Some(_), Some(Ok(b))) => StepView::Send(EventView::ResumeDocx(b)),
                    (Some(_), Some(Err(e))) => StepView::Notify(
                        EventView::Error("Failed to decode resume.docx: "@ + e),
                    ),
                    _ => StepView::Skip,
                }
            } else if k == Some("tailored_resume"@) {
                match p.text {
                    Some(t) => StepView::Send(EventView::TailoredResume(t)),
                    None => StepView::Skip,
                }
            } else if k == Some("done"@) {
                StepView::Finish(EventView::Done)
            } else if k == Some("error"@) {
                StepView::Finish(
                    EventView::Error(
                        match p.text {
                            Some(t) => t,
                            None => "Unknown error"@,
                        },
                    ),
                )
            } else {
                StepView::Skip
            }
        },
    }
}

/// The base64 text to decode for event object `p`, if it is a
/// `resume_docx` event carrying text.
pub open spec fn docx_text(p: Option<crate::sse::PayloadView>) -> Option<Seq<char>> {
    match p {
        Some(p) => if p.kind == Some("resume_docx"@) {
            p.text
        } else {
            None
        },
        None => None,
    }
}

/// The step for one line of the stream.
pub open spec fn line_step(line: Seq<char>) -> StepView {
    match crate::sse::sse_data(line) {
        None => StepView::Skip,
        Some(d) => {
            let p = crate::sse::sse_payload(d);
            payload_step(
                p,
                match docx_text(p) {
                    Some(t) => Some(crate::sse::base64_decoded(t)),
                    None => None,
                },
            )
        },
    }
}

/// Computes [`payload_step`].
pub fn step_for_payload(p: Option<crate::sse::SsePayload>, docx: Option<Result<Vec<u8>, String>>) -> (r:
    SseStep)
    ensures
        r@ == payload_step(
            crate::sse::payload_view(p),
            match docx {
                Some(d) => Some(crate::sse::decoded_view(d)),
                None => None,
            },
        ),
{
    let p = match p {
        None => return SseStep::Skip,
        Some(p) => p,
    };
    if crate::sse::kind_is(&p.kind, "token") {
        match p.text {
            Some(t) => SseStep::Send(ChatEvent::Token(t)),
            None => SseStep::Skip,
        }
    } else if crate::sse::kind_is(&p.kind, "stage") {
        match p.text {
            Some(t) => SseStep::Send(ChatEvent::Log(t)),
            None => SseStep::Skip,
        }
    } else if crate::sse::kind_is(&p.kind, "scorecard") {
        SseStep::Send(ChatEvent::Scorecard(p.content_json))
    } else if crate::sse::kind_is(&p.kind, "resume_docx") {
        match (p.text, docx) {
            (Some(_), Some(Ok(b))) => SseStep::Send(ChatEvent::ResumeDocx(b)),
            (Some(_), Some(Err(e))) => {
                let mut m = crate::text::owned("Failed to decode resume.docx: ");
                crate::text::push_str(&mut m, e.as_str());
                SseStep::Notify(ChatEvent::Error(m))
            },
            _ => SseStep::Skip,
        }
    } else if crate::sse::kind_is(&p.kind, "tailored_resume") {
        match p.text {
            Some(t) => SseStep::Send(ChatEvent::TailoredResume(t)),
            None => SseStep::Skip,
        }
    } else if crate::sse::kind_is(&p.kind, "done") {
        SseStep::Finish(ChatEvent::Done)
    } else if crate::sse::kind_is(&p.kind, "error") {
        let t = match p.text {
            Some(t) => t,
            None => crate::text::owned("Unknown error"),
        };
        SseStep::Finish(ChatEvent::Error(t))
    } else {
        SseStep::Skip
    }
}

/// The step for one read of the stream body: a line as [`line_step`]; a
/// failed read, or a body that ends before the stream completed, finishes
/// it with an error.
pub open spec fn read_step_spec(r: crate::sse::ReadView) -> StepView {
    match r {
        crate::sse::ReadView::Line(l) => line_step(l),
        crate::sse::ReadView::Failed(d) => StepView::Finish(EventView::Error("Backend stream read failed: "@ + d)),
        crate::sse::ReadView::Ended => StepView::Finish(EventView::Error("Backend stream ended before completion."@)),
    }
}

/// Computes [`read_step_spec`].
pub fn read_step(read: crate::sse::StreamRead) -> (r: SseStep)
    ensures
        r@ == read_step_spec(read@),
{
    match read {
        crate::sse::StreamRead::Line(l) => sse_line_step(l.as_str()),
        crate::sse::StreamRead::Failed(d) => SseStep::Finish(read_failed_event(d.as_str())),
        crate::sse::StreamRead::Ended => SseStep::Finish(cut_short_event()),
    }
}

/// When reading goes on after the step's event: after a `Send` only if it
/// was received, never after a `Finish`.
pub open spec fn read_on_spec(s: StepView) -> crate::sse::ReadOn {
    match s {
        StepView::Skip => crate::sse::ReadOn::Always,
        StepView::Send(_) => crate::sse::ReadOn::IfDelivered,
        StepView::Notify(_) => crate::sse::ReadOn::Always,
        StepView::Finish(_) => crate::sse::ReadOn::Never,
    }
}

pub fn read_on(s: &SseStep) -> (r: crate::sse::ReadOn)
    ensures
        r == read_on_spec(s@),
{
    match s {
        SseStep::Skip => crate::sse::ReadOn::Always,
        SseStep::Send(_) => crate::sse::ReadOn::IfDelivered,
        SseStep::Notify(_) => crate::sse::ReadOn::Always,
        SseStep::Finish(_) => crate::sse::ReadOn::Never,
    }
}

/// The events forwarded for the reads `reads`, in order, when every event
/// is received: reading stops at the first step that finishes the stream.
pub open spec fn stream_events(reads: Seq<crate::sse::ReadView>) -> Seq<EventView>
    decreases reads.len(),
{
    if reads.len() == 0 {
        Seq::empty()
    } else {
        let rest = reads.drop_first();
        match read_step_spec(reads[0]) {
            StepView::Skip => stream_events(rest),
            StepView::Send(e) => seq![e] + stream_events(rest),
            StepView::Notify(e) => seq![e] + stream_events(rest),
            StepView::Finish(e) => seq![e],
        }
    }
}

/// Decides what to do with one line read from a backend stream: lines that
/// are not `data: ` lines, or whose payload is not a JSON object the
/// program knows, are skipped ([`line_step`]).
pub fn sse_line_step(line: &str) -> (r: SseStep)
    ensures
        r@ == line_step(line@),
{
    let data = match crate::sse::data_of_line(line) {
        None => return SseStep::Skip,
        Some(d) => d,
    };
    let p = crate::sse::read_event(data.as_str());
    let docx = match &p {
        Some(q) => match (&q.kind, &q.text) {
            (Some(k), Some(t)) => if crate::text::str_eq(k.as_str(), "resume_docx") {
                Some(crate::sse::base64_decode(t.as_str()))
            } else {
                None
            },
            _ => None,
        },
        None => None,
    };
    step_for_payload(p, docx)
}

/// The event for a stream that could not be opened: `detail` says why.
pub fn connect_failed_event(detail: &str) -> (r: ChatEvent)
    ensures
        r@ == EventView::Error("Could not reach backend: "@ + detail@),
{
    let mut m = crate::text::owned("Could not reach backend: ");
    crate::text::push_str(&mut m, detail);
    ChatEvent::Error(m)
}

/// The event for a refused request: the HTTP status, followed by the
/// response body unless it is blank.
pub fn http_failure_event(status: &str, body: &str) -> (r: ChatEvent)
    ensures
        r@ == EventView::Error(
            "Backend returned "@ + if crate::text::is_blank(body@) {
                status@
            } else {
                status@ + ": "@ + body@
            },
        ),
{
    let mut m = crate::text::owned("Backend returned ");
    crate::text::push_str(&mut m, status);
    if !crate::text::is_blank_str(body) {
        crate::text::push_str(&mut m, ": ");
        crate::text::push_str(&mut m, body);
        assert(m@ =~= "Backend returned "@ + (status@ + ": "@ + body@));
    }
    ChatEvent::Error(m)
}

/// The event for a stream that broke while being read.
pub fn read_failed_event(detail: &str) -> (r: ChatEvent)
    ensures
        r@ == EventView::Error("Backend stream read failed: "@ + detail@),
{
    let mut m = crate::text::owned("Backend stream read failed: ");
    crate::text::push_str(&mut m, detail);
    ChatEvent::Error(m)
}

/// The event for a stream that ended without `done` or `error`.
pub fn cut_short_event() -> (r: ChatEvent)
    ensures
        r@ == EventView::Error("Backend stream ended before completion."@),
{
    ChatEvent::Error(crate::text::owned("Backend stream ended before completion."))
}

impl StreamRequest {
    /// The URL the request is posted to.
    pub fn endpoint(&self) -> (r: String)
        ensures
            r@ == match self@ {
                RequestView::Chat { base_url, .. } => base_url + "/chat/stream"@,
                RequestView::CompanyResearch { base_url, .. } => base_url + "/company-research/stream"@,
                RequestView::ApplicationTailor { base_url, .. } => base_url
                    + "/application/tailor-resume"@,
                RequestView::KnockoutScreen { base_url, .. } => base_url
                    + "/application/knockout-screen"@,
                RequestView::Research { base_url, .. } => base_url + "/research/stream"@,
            },
    {
        let (base, path) = match self {
            StreamRequest::Chat { base_url, .. } => (base_url, "/chat/stream"),
            StreamRequest::CompanyResearch { base_url, .. } => (base_url, "/company-research/stream"),
            StreamRequest::ApplicationTailor { base_url, .. } => (base_url, "/application/tailor-resume"),
            StreamRequest::KnockoutScreen { base_url, .. } => (base_url, "/application/knockout-screen"),
            StreamRequest::Research { base_url, .. } => (base_url, "/research/stream"),
        };
        let mut u = base.clone();
        crate::text::push_str(&mut u, path);
        u
    }
}

} // verus!
