//! Domain records of the desktop program and their mathematical views.
use vstd::prelude::*;

verus! {

/// Pipeline stage of a job application.
#[derive(Clone, Copy, Debug, PartialEq, Eq, Structural)]
pub enum JobStatus {
    Applied,
    Screening,
    Technical,
    Offer,
    Rejected,
}

/// Display label of a status.
pub open spec fn status_label(s: JobStatus) -> Seq<char> {
    match s {
        JobStatus::Applied => "Applied"@,
        JobStatus::Screening => "Screening"@,
        JobStatus::Technical => "Technical"@,
        JobStatus::Offer => "Offer"@,
        JobStatus::Rejected => "Rejected"@,
    }
}

/// Display colour (RGBA) of a status: amber, accent blue, purple, green,
/// red.
pub open spec fn status_color(s: JobStatus) -> [u8; 4] {
    match s {
        JobStatus::Applied => [0xF5u8, 0x9Eu8, 0x0Bu8, 0xFFu8],
        JobStatus::Screening => [0x00u8, 0x99u8, 0xFFu8, 0xFFu8],
        JobStatus::Technical => [0xA8u8, 0x55u8, 0xF7u8, 0xFFu8],
        JobStatus::Offer => [0x22u8, 0xC5u8, 0x5Eu8, 0xFFu8],
        JobStatus::Rejected => [0xEFu8, 0x44u8, 0x44u8, 0xFFu8],
    }
}

impl JobStatus {
    pub fn color(self) -> (r: [u8; 4])
        ensures
            r == status_color(self),
    {
        match self {
            JobStatus::Applied => [0xF5u8, 0x9Eu8, 0x0Bu8, 0xFFu8],
            JobStatus::Screening => [0x00u8, 0x99u8, 0xFFu8, 0xFFu8],
            JobStatus::Technical => [0xA8u8, 0x55u8, 0xF7u8, 0xFFu8],
            JobStatus::Offer => [0x22u8, 0xC5u8, 0x5Eu8, 0xFFu8],
            JobStatus::Rejected => [0xEFu8, 0x44u8, 0x44u8, 0xFFu8],
        }
    }

    pub fn label(self) -> (r: &'static str)
        ensures
            r@ == status_label(self),
    {
        match self {
            JobStatus::Applied => "Applied",
            JobStatus::Screening => "Screening",
            JobStatus::Technical => "Technical",
            JobStatus::Offer => "Offer",
            JobStatus::Rejected => "Rejected",
        }
    }
}

/// One dated entry on a job's stage timeline.
#[derive(Clone, Debug)]
pub struct StageNote {
    pub day_offset: i32,
    pub outcome: String,
    pub notes: String,
}

pub struct StageNoteView {
    pub day_offset: i32,
    pub outcome: Seq<char>,
    pub notes: Seq<char>,
}

impl View for StageNote {
    type V = StageNoteView;

    open spec fn view(&self) -> StageNoteView {
        StageNoteView { day_offset: self.day_offset, outcome: self.outcome@, notes: self.notes@ }
    }
}

impl StageNote {
    pub fn new(day_offset: i32, outcome: &str, notes: &str) -> (r: Self)
        ensures
            r@ == (StageNoteView { day_offset, outcome: outcome@, notes: notes@ }),
    {
        StageNote { day_offset, outcome: crate::text::owned(outcome), notes: crate::text::owned(notes) }
    }
}

/// Author of a chat message.
#[derive(Clone, Copy, Debug, PartialEq, Eq, Structural)]
pub enum MsgRole {
    User,
    Ai,
}

/// One chat bubble. `streaming` is transient UI state; `logs` are the agent
/// progress lines shown above the bubble.
#[derive(Clone, Debug)]
pub struct ChatMsg {
    pub role: MsgRole,
    pub text: String,
    pub streaming: bool,
    pub logs: Vec<String>,
}

pub struct MsgView {
    pub role: MsgRole,
    pub text: Seq<char>,
    pub streaming: bool,
    pub logs: Seq<Seq<char>>,
}

/// The views of a vector of strings.
pub open spec fn strings_view(v: Seq<String>) -> Seq<Seq<char>> {
    v.map_values(|s: String| s@)
}

impl View for ChatMsg {
    type V = MsgView;

    open spec fn view(&self) -> MsgView {
        MsgView {
            role: self.role,
            text: self.text@,
            streaming: self.streaming,
            logs: strings_view(self.logs@),
        }
    }
}

impl ChatMsg {
    pub fn user(t: &str) -> (r: Self)
        ensures
            r@ == (MsgView { role: MsgRole::User, text: t@, streaming: false, logs: seq![] }),
    {
        let r = ChatMsg { role: MsgRole::User, text: crate::text::owned(t), streaming: false, logs: Vec::new() };
        assert(strings_view(r.logs@) =~= seq![]);
        r
    }

    pub fn ai(t: &str) -> (r: Self)
        ensures
            r@ == (MsgView { role: MsgRole::Ai, text: t@, streaming: false, logs: seq![] }),
    {
        let r = ChatMsg { role: MsgRole::Ai, text: crate::text::owned(t), streaming: false, logs: Vec::new() };
        assert(strings_view(r.logs@) =~= seq![]);
        r
    }

    pub fn ai_streaming() -> (r: Self)
        ensures
            r@ == (MsgView { role: MsgRole::Ai, text: seq![], streaming: true, logs: seq![] }),
    {
        let r = ChatMsg { role: MsgRole::Ai, text: String::new(), streaming: true, logs: Vec::new() };
        assert(strings_view(r.logs@) =~= seq![]);
        r
    }
}

/// A titled conversation attached to a job.
#[derive(Clone, Debug)]
pub struct ChatThread {
    pub id: usize,
    pub title: String,
    pub messages: Vec<ChatMsg>,
}

pub struct ThreadView {
    pub id: usize,
    pub title: Seq<char>,
    pub messages: Seq<MsgView>,
}

pub open spec fn msgs_view(v: Seq<ChatMsg>) -> Seq<MsgView> {
    v.map_values(|m: ChatMsg| m@)
}

impl View for ChatThread {
    type V = ThreadView;

    open spec fn view(&self) -> ThreadView {
        ThreadView { id: self.id, title: self.title@, messages: msgs_view(self.messages@) }
    }
}

/// A tracked job application. `avatar_color` is RGBA (premultiplied);
/// `scorecard` is the tailoring scorecard as JSON text.
#[derive(Clone, Debug)]
pub struct Job {
    pub id: usize,
    pub company: String,
    pub role: String,
    pub location: String,
    pub job_description: String,
    pub research_status: String,
    pub status: JobStatus,
    pub current_stage: usize,
    pub stage_notes: Vec<StageNote>,
    pub chats: Vec<ChatThread>,
    pub avatar_color: [u8; 4],
    pub sidebar_expanded: bool,
    pub archived: bool,
    pub tailored_resume: Option<String>,
    pub resume_docx_path: Option<String>,
    pub scorecard: Option<String>,
}

pub struct JobView {
    pub id: usize,
    pub company: Seq<char>,
    pub role: Seq<char>,
    pub location: Seq<char>,
    pub job_description: Seq<char>,
    pub research_status: Seq<char>,
    pub status: JobStatus,
    pub current_stage: usize,
    pub stage_notes: Seq<StageNoteView>,
    pub chats: Seq<ThreadView>,
    pub avatar_color: [u8; 4],
    pub sidebar_expanded: bool,
    pub archived: bool,
    pub tailored_resume: Option<Seq<char>>,
    pub resume_docx_path: Option<Seq<char>>,
    pub scorecard: Option<Seq<char>>,
}

pub open spec fn opt_view(o: Option<String>) -> Option<Seq<char>> {
    match o {
        Some(s) => Some(s@),
        None => None,
    }
}

pub open spec fn notes_view(v: Seq<StageNote>) -> Seq<StageNoteView> {
    v.map_values(|n: StageNote| n@)
}

pub open spec fn threads_view(v: Seq<ChatThread>) -> Seq<ThreadView> {
    v.map_values(|t: ChatThread| t@)
}

impl View for Job {
    type V = JobView;

    open spec fn view(&self) -> JobView {
        JobView {
            id: self.id,
            company: self.company@,
            role: self.role@,
            location: self.location@,
            job_description: self.job_description@,
            research_status: self.research_status@,
            status: self.status,
            current_stage: self.current_stage,
            stage_notes: notes_view(self.stage_notes@),
            chats: threads_view(self.chats@),
            avatar_color: self.avatar_color,
            sidebar_expanded: self.sidebar_expanded,
            archived: self.archived,
            tailored_resume: opt_view(self.tailored_resume),
            resume_docx_path: opt_view(self.resume_docx_path),
            scorecard: opt_view(self.scorecard),
        }
    }
}

pub open spec fn jobs_view(v: Seq<Job>) -> Seq<JobView> {
    v.map_values(|j: Job| j@)
}

/// Research status given to a job whose stored status is missing.
pub open spec fn default_research_status_spec() -> Seq<char> {
    "Not started"@
}

pub fn default_research_status() -> (r: String)
    ensures
        r@ == default_research_status_spec(),
{
    crate::text::owned("Not started")
}

/// Which workspace the main panel shows.
#[derive(Clone, Copy, Debug, PartialEq, Eq, Structural)]
pub enum Screen {
    Chat,
    Timeline,
}

} // verus!
