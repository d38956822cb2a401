//! The desktop program's application state and every decision it makes:
//! selection, archiving, job creation, which backend stream to start, and how
//! each streamed event changes the jobs. The caller performs the outside
//! work (persisting, starting streams, writing files) that these methods
//! name in their results.
use vstd::prelude::*;
use crate::desktop::backend_client::{ChatEvent, RequestView, StreamRequest, request_view};
use crate::desktop::credentials::Credentials;
use crate::desktop::storage::{Resume, ResumeStore, ResumeView, resumes_view};
use crate::desktop::types::{
    ChatMsg, ChatThread, Job, JobStatus, JobView, MsgRole, MsgView, Screen, StageNote, ThreadView, jobs_view,
    msgs_view, threads_view,
};

verus! {

/// Lifecycle of the Python backend as the UI sees it.
#[derive(Debug, Clone, PartialEq)]
pub enum BackendStatus {
    Starting,
    Ready,
    Failed(String),
}

/// The "New job" form.
pub struct NewJobForm {
    pub open: bool,
    pub company: String,
    pub role: String,
    pub location: String,
    pub job_description: String,
    pub status: JobStatus,
    pub notes: String,
    pub error: Option<String>,
    /// Which master resume to tailor from; `None` lets the model pick.
    pub resume_id: Option<u64>,
}

/// Purely presentational state (modals, toggles, the stage editor, the
/// resume form).
pub struct UiState {
    pub sidebar_open: bool,
    pub show_archived: bool,
    pub show_settings: bool,
    pub settings_open_prev: bool,
    pub settings_tab: usize,
    pub gemini_key_visible: bool,
    pub glassdoor_pw_visible: bool,
    pub indeed_pw_visible: bool,
    pub gantt_offset: i32,
    pub se_job: Option<usize>,
    pub se_stage: Option<usize>,
    pub se_outcome: String,
    pub se_notes: String,
    pub show_report_modal: bool,
    pub report_modal_text: String,
    pub adding_resume: bool,
    pub new_resume_name: String,
    pub new_resume_text: String,
    pub resume_form_error: Option<String>,
}

impl NewJobForm {
    /// Whether the form is closed, empty, set to "Applied" and without a
    /// picked resume or error.
    pub open spec fn is_blank(&self) -> bool {
        &&& !self.open
        &&& self.company@ == Seq::<char>::empty()
        &&& self.role@ == Seq::<char>::empty()
        &&& self.location@ == Seq::<char>::empty()
        &&& self.job_description@ == Seq::<char>::empty()
        &&& self.status == JobStatus::Applied
        &&& self.notes@ == Seq::<char>::empty()
        &&& self.error is None
        &&& self.resume_id is None
    }

    pub fn blank() -> (r: Self)
        ensures
            r.is_blank(),
    {
        NewJobForm {
            open: false,
            company: String::new(),
            role: String::new(),
            location: String::new(),
            job_description: String::new(),
            status: JobStatus::Applied,
            notes: String::new(),
            error: None,
            resume_id: None,
        }
    }
}

impl UiState {
    /// The state at start-up: sidebar open, every modal and disclosure
    /// closed, the timeline scrolled 14 days back, nothing being edited.
    pub open spec fn is_initial(&self) -> bool {
        &&& self.sidebar_open
        &&& !self.show_archived
        &&& !self.show_settings
        &&& !self.settings_open_prev
        &&& self.settings_tab == 0
        &&& !self.gemini_key_visible
        &&& !self.glassdoor_pw_visible
        &&& !self.indeed_pw_visible
        &&& self.gantt_offset == -14
        &&& self.se_job is None
        &&& self.se_stage is None
        &&& self.se_outcome@ == Seq::<char>::empty()
        &&& self.se_notes@ == Seq::<char>::empty()
        &&& !self.show_report_modal
        &&& self.report_modal_text@ == Seq::<char>::empty()
        &&& !self.adding_resume
        &&& self.new_resume_name@ == Seq::<char>::empty()
        &&& self.new_resume_text@ == Seq::<char>::empty()
        &&& self.resume_form_error is None
    }

    pub fn initial() -> (r: Self)
        ensures
            r.is_initial(),
    {
        UiState {
            sidebar_open: true,
            show_archived: false,
            show_settings: false,
            settings_open_prev: false,
            settings_tab: 0,
            gemini_key_visible: false,
            glassdoor_pw_visible: false,
            indeed_pw_visible: false,
            gantt_offset: -14,
            se_job: None,
            se_stage: None,
            se_outcome: String::new(),
            se_notes: String::new(),
            show_report_modal: false,
            report_modal_text: String::new(),
            adding_resume: false,
            new_resume_name: String::new(),
            new_resume_text: String::new(),
            resume_form_error: None,
        }
    }
}

/// The stream currently feeding a thread: whether one is open and which
/// job and thread its events go to.
pub struct StreamSlot {
    pub active: bool,
    pub job_id: Option<usize>,
    pub chat_id: Option<usize>,
}

/// The whole application state of the desktop program.
pub struct InterPrepApp {
    pub jobs: Vec<Job>,
    pub selected_job: Option<usize>,
    pub selected_chat: Option<usize>,
    pub screen: Screen,
    pub draft: String,
    pub new_job: NewJobForm,
    pub creds: Credentials,
    pub ui: UiState,
    pub next_job_id: usize,
    pub next_chat_id: usize,
    pub backend_url: Option<String>,
    pub backend_status: BackendStatus,
    pub stream: StreamSlot,
    pub resume_store: ResumeStore,
}

// ─── Lookups ────────────────────────────────────────────────────────────────

/// First position at or after `i` of a job with id `id`.
pub open spec fn job_pos_from(js: Seq<JobView>, id: usize, i: int) -> Option<int>
    decreases js.len() - i,
{
    if i < 0 || i >= js.len() {
        None
    } else if js[i].id == id {
        Some(i)
    } else {
        job_pos_from(js, id, i + 1)
    }
}

/// Position of the first job with id `id` (`iter().find(|j| j.id == id)`).
pub open spec fn job_pos(js: Seq<JobView>, id: usize) -> Option<int> {
    job_pos_from(js, id, 0)
}

/// First position at or after `i` of a thread with id `id`.
pub open spec fn thread_pos_from(ts: Seq<ThreadView>, id: usize, i: int) -> Option<int>
    decreases ts.len() - i,
{
    if i < 0 || i >= ts.len() {
        None
    } else if ts[i].id == id {
        Some(i)
    } else {
        thread_pos_from(ts, id, i + 1)
    }
}

pub open spec fn thread_pos(ts: Seq<ThreadView>, id: usize) -> Option<int> {
    thread_pos_from(ts, id, 0)
}

/// First position at or after `i` of a thread titled `title`.
pub open spec fn titled_pos_from(ts: Seq<ThreadView>, title: Seq<char>, i: int) -> Option<int>
    decreases ts.len() - i,
{
    if i < 0 || i >= ts.len() {
        None
    } else if ts[i].title == title {
        Some(i)
    } else {
        titled_pos_from(ts, title, i + 1)
    }
}

/// Position of the first thread titled `title`.
pub open spec fn titled_pos(ts: Seq<ThreadView>, title: Seq<char>) -> Option<int> {
    titled_pos_from(ts, title, 0)
}

/// First position at or after `i` of a job that is not archived.
pub open spec fn unarchived_pos_from(js: Seq<JobView>, i: int) -> Option<int>
    decreases js.len() - i,
{
    if i < 0 || i >= js.len() {
        None
    } else if !js[i].archived {
        Some(i)
    } else {
        unarchived_pos_from(js, i + 1)
    }
}

pub open spec fn unarchived_pos(js: Seq<JobView>) -> Option<int> {
    unarchived_pos_from(js, 0)
}

/// Id of a job's first thread, if it has one.
pub open spec fn first_chat_id(j: JobView) -> Option<usize> {
    if j.chats.len() > 0 {
        Some(j.chats[0].id)
    } else {
        None
    }
}

/// The selection the app falls back to: the first non-archived job and the
/// first thread of the job found under that id.
pub open spec fn default_selection(js: Seq<JobView>) -> (Option<usize>, Option<usize>) {
    match unarchived_pos(js) {
        None => (None, None),
        Some(i) => {
            let id = js[i].id;
            (
                Some(id),
                match job_pos(js, id) {
                    Some(k) => first_chat_id(js[k]),
                    None => None,
                },
            )
        },
    }
}

pub proof fn lemma_job_pos_from(js: Seq<JobView>, id: usize, i: int)
    requires
        0 <= i,
    ensures
        job_pos_from(js, id, i) matches Some(k) ==> i <= k < js.len() && js[k].id == id
            && forall|m: int| i <= m < k ==> js[m].id != id,
        job_pos_from(js, id, i) is None ==> forall|m: int| i <= m < js.len() ==> js[m].id != id,
    decreases js.len() - i,
{
    if i < js.len() && js[i].id != id {
        lemma_job_pos_from(js, id, i + 1);
    }
}

pub proof fn lemma_thread_pos_from(ts: Seq<ThreadView>, id: usize, i: int)
    requires
        0 <= i,
    ensures
        thread_pos_from(ts, id, i) matches Some(k) ==> i <= k < ts.len() && ts[k].id == id
            && forall|m: int| i <= m < k ==> ts[m].id != id,
        thread_pos_from(ts, id, i) is None ==> forall|m: int|
            i <= m < ts.len() ==> ts[m].id != id,
    decreases ts.len() - i,
{
    if i < ts.len() && ts[i].id != id {
        lemma_thread_pos_from(ts, id, i + 1);
    }
}

/// Position of the first job with id `id`.
pub fn find_job(jobs: &Vec<Job>, id: usize) -> (r: Option<usize>)
    ensures
        r matches Some(i) ==> i < jobs@.len() && job_pos(jobs_view(jobs@), id) == Some(i as int),
        r is None ==> job_pos(jobs_view(jobs@), id) is None,
{
    let ghost js = jobs_view(jobs@);
    let mut i: usize = 0;
    while i < jobs.len()
        invariant
            0 <= i <= jobs.len(),
            js == jobs_view(jobs@),
            job_pos(js, id) == job_pos_from(js, id, i as int),
        decreases jobs.len() - i,
    {
        if jobs[i].id == id {
            return Some(i);
        }
        i += 1;
    }
    None
}

/// Position of the first thread with id `id`.
pub fn find_thread(chats: &Vec<ChatThread>, id: usize) -> (r: Option<usize>)
    ensures
        r matches Some(i) ==> i < chats@.len() && thread_pos(threads_view(chats@), id) == Some(i as int),
        r is None ==> thread_pos(threads_view(chats@), id) is None,
{
    let ghost ts = threads_view(chats@);
    let mut i: usize = 0;
    while i < chats.len()
        invariant
            0 <= i <= chats.len(),
            ts == threads_view(chats@),
            thread_pos(ts, id) == thread_pos_from(ts, id, i as int),
        decreases chats.len() - i,
    {
        if chats[i].id == id {
            return Some(i);
        }
        i += 1;
    }
    None
}

/// Position of the first thread titled `title`.
pub fn find_titled(chats: &Vec<ChatThread>, title: &str) -> (r: Option<usize>)
    ensures
        r matches Some(i) ==> i < chats@.len() && titled_pos(threads_view(chats@), title@) == Some(
            i as int,
        ),
        r is None ==> titled_pos(threads_view(chats@), title@) is None,
{
    let ghost ts = threads_view(chats@);
    let mut i: usize = 0;
    while i < chats.len()
        invariant
            0 <= i <= chats.len(),
            ts == threads_view(chats@),
            titled_pos(ts, title@) == titled_pos_from(ts, title@, i as int),
        decreases chats.len() - i,
    {
        if crate::text::str_eq(chats[i].title.as_str(), title) {
            return Some(i);
        }
        i += 1;
    }
    None
}

/// Position of the first job that is not archived.
pub fn find_unarchived(jobs: &Vec<Job>) -> (r: Option<usize>)
    ensures
        r matches Some(i) ==> i < jobs@.len() && unarchived_pos(jobs_view(jobs@)) == Some(i as int),
        r is None ==> unarchived_pos(jobs_view(jobs@)) is None,
{
    let ghost js = jobs_view(jobs@);
    let mut i: usize = 0;
    while i < jobs.len()
        invariant
            0 <= i <= jobs.len(),
            js == jobs_view(jobs@),
            unarchived_pos(js) == unarchived_pos_from(js, i as int),
        decreases jobs.len() - i,
    {
        if !jobs[i].archived {
            return Some(i);
        }
        i += 1;
    }
    None
}

/// Computes [`default_selection`].
pub fn compute_default_selection(jobs: &Vec<Job>) -> (r: (Option<usize>, Option<usize>))
    ensures
        r == default_selection(jobs_view(jobs@)),
{
    match find_unarchived(jobs) {
        None => (None, None),
        Some(i) => {
            let id = jobs[i].id;
            let chat = match find_job(jobs, id) {
                Some(k) => {
                    if jobs[k].chats.len() > 0 {
                        Some(jobs[k].chats[0].id)
                    } else {
                        None
                    }
                },
                None => None,
            };
            (Some(id), chat)
        },
    }
}

// ─── Id allocation ──────────────────────────────────────────────────────────

/// Largest job id in `js` (0 when there is none).
pub open spec fn max_job_id(js: Seq<JobView>) -> nat
    decreases js.len(),
{
    if js.len() == 0 {
        0
    } else {
        let m = max_job_id(js.drop_last());
        if js.last().id > m {
            js.last().id as nat
        } else {
            m
        }
    }
}

/// Largest thread id in `ts` (0 when there is none).
pub open spec fn max_thread_id(ts: Seq<ThreadView>) -> nat
    decreases ts.len(),
{
    if ts.len() == 0 {
        0
    } else {
        let m = max_thread_id(ts.drop_last());
        if ts.last().id > m {
            ts.last().id as nat
        } else {
            m
        }
    }
}

/// Largest thread id over all jobs (0 when there is none).
pub open spec fn max_chat_id(js: Seq<JobView>) -> nat
    decreases js.len(),
{
    if js.len() == 0 {
        0
    } else {
        let m = max_chat_id(js.drop_last());
        let t = max_thread_id(js.last().chats);
        if t > m {
            t
        } else {
            m
        }
    }
}

pub proof fn lemma_max_job_id(js: Seq<JobView>)
    ensures
        forall|i: int| 0 <= i < js.len() ==> #[trigger] js[i].id <= max_job_id(js),
    decreases js.len(),
{
    if js.len() > 0 {
        lemma_max_job_id(js.drop_last());
        assert forall|i: int| 0 <= i < js.len() implies #[trigger] js[i].id <= max_job_id(js) by {
            if i < js.len() - 1 {
                assert(js.drop_last()[i] == js[i]);
            }
        }
    }
}

pub proof fn lemma_max_thread_id(ts: Seq<ThreadView>)
    ensures
        forall|k: int| 0 <= k < ts.len() ==> #[trigger] ts[k].id <= max_thread_id(ts),
    decreases ts.len(),
{
    if ts.len() > 0 {
        lemma_max_thread_id(ts.drop_last());
        assert forall|k: int| 0 <= k < ts.len() implies #[trigger] ts[k].id <= max_thread_id(ts) by {
            if k < ts.len() - 1 {
                assert(ts.drop_last()[k] == ts[k]);
            }
        }
    }
}

pub proof fn lemma_max_chat_id(js: Seq<JobView>)
    ensures
        forall|i: int, k: int|
            0 <= i < js.len() && 0 <= k < js[i].chats.len() ==> #[trigger] js[i].chats[k].id
                <= max_chat_id(js),
    decreases js.len(),
{
    if js.len() > 0 {
        lemma_max_chat_id(js.drop_last());
        lemma_max_thread_id(js.last().chats);
        assert forall|i: int, k: int|
            0 <= i < js.len() && 0 <= k < js[i].chats.len() implies #[trigger] js[i].chats[k].id
                <= max_chat_id(js) by {
            if i < js.len() - 1 {
                assert(js.drop_last()[i] == js[i]);
            }
        }
    }
}

/// The id allocators' starting points for a loaded job list: one past the
/// largest job id and one past the largest thread id.
pub fn next_ids(jobs: &Vec<Job>) -> (r: (usize, usize))
    requires
        max_job_id(jobs_view(jobs@)) < usize::MAX,
        max_chat_id(jobs_view(jobs@)) < usize::MAX,
    ensures
        r.0 == max_job_id(jobs_view(jobs@)) + 1,
        r.1 == max_chat_id(jobs_view(jobs@)) + 1,
{
    let ghost js = jobs_view(jobs@);
    let mut mj: usize = 0;
    let mut mc: usize = 0;
    let mut i: usize = 0;
    assert(js.take(0) =~= Seq::<JobView>::empty());
    while i < jobs.len()
        invariant
            0 <= i <= jobs.len(),
            js == jobs_view(jobs@),
            mj == max_job_id(js.take(i as int)),
            mc == max_chat_id(js.take(i as int)),
        decreases jobs.len() - i,
    {
        assert(js.take(i + 1).drop_last() =~= js.take(i as int));
        if jobs[i].id > mj {
            mj = jobs[i].id;
        }
        let ghost ts = js[i as int].chats;
        let mut t: usize = 0;
        let mut k: usize = 0;
        assert(ts.take(0) =~= Seq::<ThreadView>::empty());
        while k < jobs[i].chats.len()
            invariant
                0 <= i < jobs.len(),
                0 <= k <= jobs[i as int].chats.len(),
                js == jobs_view(jobs@),
                ts == js[i as int].chats,
                t == max_thread_id(ts.take(k as int)),
            decreases jobs[i as int].chats.len() - k,
        {
            assert(ts.take(k + 1).drop_last() =~= ts.take(k as int));
            if jobs[i].chats[k].id > t {
                t = jobs[i].chats[k].id;
            }
            k += 1;
        }
        assert(ts.take(k as int) =~= ts);
        if t > mc {
            mc = t;
        }
        i += 1;
    }
    assert(js.take(i as int) =~= js);
    (mj + 1, mc + 1)
}

// ─── Nested updates ─────────────────────────────────────────────────────────

/// Applies `f` to the first job with id `jid`, if there is one.
pub open spec fn map_job(js: Seq<JobView>, jid: usize, f: spec_fn(JobView) -> JobView) -> Seq<
    JobView,
> {
    match job_pos(js, jid) {
        Some(i) => js.update(i, f(js[i])),
        None => js,
    }
}

/// Applies `g` to the first thread with id `cid` of the first job with id `jid`.
pub open spec fn map_thread(
    js: Seq<JobView>,
    jid: usize,
    cid: usize,
    g: spec_fn(ThreadView) -> ThreadView,
) -> Seq<JobView> {
    map_job(
        js,
        jid,
        |j: JobView|
            match thread_pos(j.chats, cid) {
                Some(k) => JobView { chats: j.chats.update(k, g(j.chats[k])), ..j },
                None => j,
            },
    )
}

/// Applies `h` to the last message of that thread, if it has messages.
pub open spec fn map_last_msg(
    js: Seq<JobView>,
    jid: usize,
    cid: usize,
    h: spec_fn(MsgView) -> MsgView,
) -> Seq<JobView> {
    map_thread(
        js,
        jid,
        cid,
        |t: ThreadView|
            if t.messages.len() > 0 {
                ThreadView {
                    messages: t.messages.update(
                        t.messages.len() - 1,
                        h(t.messages[t.messages.len() - 1]),
                    ),
                    ..t
                }
            } else {
                t
            },
    )
}

/// A streaming token appended to a still-streaming message.
pub open spec fn token_applied(m: MsgView, tok: Seq<char>) -> MsgView {
    if m.streaming {
        MsgView { text: m.text + tok, ..m }
    } else {
        m
    }
}

/// A message closed with `text`: when `only_if_streaming` holds this applies
/// only to a still-streaming message.
pub open spec fn closed_with(m: MsgView, text: Seq<char>, only_if_streaming: bool) -> MsgView {
    if !only_if_streaming || m.streaming {
        MsgView { text, streaming: false, ..m }
    } else {
        m
    }
}

/// A log line added to a still-streaming message.
pub open spec fn log_applied(m: MsgView, line: Seq<char>) -> MsgView {
    if m.streaming {
        MsgView { logs: m.logs.push(line), ..m }
    } else {
        m
    }
}

/// The message-level updates of [`InterPrepApp::update_last_message`].
pub open spec fn last_msg_op(m: MsgView, op: u8, text: Seq<char>, only_if_streaming: bool) -> MsgView {
    if op == 0 {
        closed_with(m, text, only_if_streaming)
    } else if op == 1 {
        token_applied(m, text)
    } else if op == 2 {
        log_applied(m, text)
    } else {
        MsgView { streaming: false, ..m }
    }
}

pub proof fn lemma_map_job_at(js: Seq<JobView>, jid: usize, i: int, f: spec_fn(JobView) -> JobView)
    requires
        job_pos(js, jid) == Some(i),
    ensures
        0 <= i < js.len(),
        map_job(js, jid, f) == js.update(i, f(js[i])),
{
    lemma_job_pos_from(js, jid, 0);
}

/// When job `jid` exists but has no thread `cid`, thread-level updates leave
/// the jobs unchanged.
pub proof fn lemma_map_thread_no_thread(
    js: Seq<JobView>,
    jid: usize,
    cid: usize,
    g: spec_fn(ThreadView) -> ThreadView,
)
    requires
        match job_pos(js, jid) {
            Some(i) => thread_pos(js[i].chats, cid) is None,
            None => true,
        },
    ensures
        map_thread(js, jid, cid, g) == js,
{
    lemma_job_pos_from(js, jid, 0);
    if let Some(i) = job_pos(js, jid) {
        assert(js.update(i, js[i]) =~= js);
    }
}

pub proof fn lemma_map_thread_at(
    js: Seq<JobView>,
    jid: usize,
    cid: usize,
    i: int,
    k: int,
    g: spec_fn(ThreadView) -> ThreadView,
)
    requires
        job_pos(js, jid) == Some(i),
        thread_pos(js[i].chats, cid) == Some(k),
    ensures
        0 <= i < js.len(),
        0 <= k < js[i].chats.len(),
        map_thread(js, jid, cid, g) == js.update(
            i,
            JobView { chats: js[i].chats.update(k, g(js[i].chats[k])), ..js[i] },
        ),
{
    lemma_job_pos_from(js, jid, 0);
    lemma_thread_pos_from(js[i].chats, cid, 0);
}

// ─── Prompt context ─────────────────────────────────────────────────────────

/// The first `n` characters of `s` (all of it when shorter).
pub open spec fn take_n(s: Seq<char>, n: int) -> Seq<char> {
    s.take(if n < s.len() { n } else { s.len() as int })
}

/// Last position below `n` of a thread titled `title`.
pub open spec fn last_titled_before(ts: Seq<ThreadView>, title: Seq<char>, n: int) -> Option<int>
    decreases n,
{
    if n <= 0 {
        None
    } else if ts[n - 1].title == title {
        Some(n - 1)
    } else {
        last_titled_before(ts, title, n - 1)
    }
}

/// A finished, non-blank AI message: a candidate research report.
pub open spec fn is_report_msg(m: MsgView) -> bool {
    m.role == MsgRole::Ai && !m.streaming && !crate::text::is_blank(m.text)
}

/// Last position below `n` of a report candidate.
pub open spec fn last_report_before(ms: Seq<MsgView>, n: int) -> Option<int>
    decreases n,
{
    if n <= 0 {
        None
    } else if is_report_msg(ms[n - 1]) {
        Some(n - 1)
    } else {
        last_report_before(ms, n - 1)
    }
}

/// The company research report for a job: the stored report when there is
/// one, else the last report candidate of its last "Company Research" thread.
pub open spec fn report_for(j: JobView, stored: Option<Seq<char>>) -> Option<Seq<char>> {
    match stored {
        Some(r) => Some(r),
        None => match last_titled_before(j.chats, "Company Research"@, j.chats.len() as int) {
            Some(k) => match last_report_before(j.chats[k].messages, j.chats[k].messages.len() as int) {
                Some(m) => Some(j.chats[k].messages[m].text),
                None => None,
            },
            None => None,
        },
    }
}

/// The system-prompt context block for job `job_id` (empty when there is no
/// such job): company and role, then location and the first 3000 characters
/// of the description when not blank, then, when asked for, the first 8000
/// characters of the research report.
pub open spec fn job_context(
    js: Seq<JobView>,
    job_id: usize,
    include_report: bool,
    stored: Option<Seq<char>>,
) -> Seq<char> {
    match job_pos(js, job_id) {
        None => seq![],
        Some(i) => {
            let j = js[i];
            let base = "Company: "@ + j.company + "\nRole: "@ + j.role;
            let a = if !crate::text::is_blank(j.location) {
                base + "\nLocation: "@ + j.location
            } else {
                base
            };
            let b = if !crate::text::is_blank(j.job_description) {
                a + "\n\nJob Description:\n"@ + take_n(j.job_description, 3000)
            } else {
                a
            };
            if include_report {
                match report_for(j, stored) {
                    Some(r) => b + "\n\nCompany Research Report:\n"@ + take_n(r, 8000),
                    None => b,
                }
            } else {
                b
            }
        },
    }
}

/// `(role, text)` of every finished, non-blank message, oldest first; the
/// role is `"user"` or `"assistant"`.
pub open spec fn history_of(ms: Seq<MsgView>) -> Seq<(Seq<char>, Seq<char>)>
    decreases ms.len(),
{
    if ms.len() == 0 {
        seq![]
    } else {
        let rest = history_of(ms.drop_last());
        let m = ms.last();
        if !m.streaming && !crate::text::is_blank(m.text) {
            rest.push(
                (
                    match m.role {
                        MsgRole::User => "user"@,
                        MsgRole::Ai => "assistant"@,
                    },
                    m.text,
                ),
            )
        } else {
            rest
        }
    }
}

/// `"interviewer"` for mock-interview threads, `"coach"` elsewhere.
pub open spec fn mode_of(title: Seq<char>) -> Seq<char> {
    if title == "Mock Interview"@ {
        "interviewer"@
    } else {
        "coach"@
    }
}

/// The `(name, text)` of every library resume, or only of the one with the
/// forced id.
pub open spec fn master_pairs(items: Seq<ResumeView>, forced: Option<u64>) -> Seq<(Seq<char>, Seq<char>)>
    decreases items.len(),
{
    if items.len() == 0 {
        seq![]
    } else {
        let rest = master_pairs(items.drop_last(), forced);
        let r = items.last();
        let keep = match forced {
            Some(f) => r.id == f,
            None => true,
        };
        if keep {
            rest.push((r.name, r.text))
        } else {
            rest
        }
    }
}

/// Fresh views for new messages and threads.
pub open spec fn ai_streaming_view() -> MsgView {
    MsgView { role: MsgRole::Ai, text: seq![], streaming: true, logs: seq![] }
}

pub open spec fn user_msg_view(t: Seq<char>) -> MsgView {
    MsgView { role: MsgRole::User, text: t, streaming: false, logs: seq![] }
}

pub open spec fn ai_msg_view(t: Seq<char>) -> MsgView {
    MsgView { role: MsgRole::Ai, text: t, streaming: false, logs: seq![] }
}

pub open spec fn thread_view(id: usize, title: Seq<char>, messages: Seq<MsgView>) -> ThreadView {
    ThreadView { id, title, messages }
}

/// A new thread holding only a reply placeholder.
pub open spec fn streaming_thread(id: usize, title: Seq<char>) -> ThreadView {
    thread_view(id, title, seq![ai_streaming_view()])
}

/// The kickoff prompt of a typed thread.
pub open spec fn kickoff_prompt(title: Seq<char>) -> Seq<char> {
    if title == "Mock Interview"@ {
        "Begin the interview now. Open with a brief greeting and your first question — ground it in something specific from my resume or the JD. Single question, no preamble."@
    } else if title == "Interview Questions"@ {
        "Generate the 8–12 most likely interview questions for this role at this company, ordered by stage (recruiter screen → technical → behavioral → final). For each, explain WHY they ask it and give a 2–3 sentence answer outline drawing on my resume."@
    } else {
        "Start a "@ + title + " session for me. Begin immediately with the first question or scenario, grounded in my resume and the JD."@
    }
}

/// Computes [`history_of`] for a thread.
pub fn build_history(thread: &ChatThread) -> (r: Vec<(String, String)>)
    ensures
        crate::desktop::backend_client::history_view(r@) == history_of(thread@.messages),
{
    let ghost ms = thread@.messages;
    let mut r: Vec<(String, String)> = Vec::new();
    let mut i: usize = 0;
    assert(ms.take(0) =~= Seq::<MsgView>::empty());
    while i < thread.messages.len()
        invariant
            0 <= i <= thread.messages.len(),
            ms == msgs_view(thread.messages@),
            crate::desktop::backend_client::history_view(r@) == history_of(ms.take(i as int)),
        decreases thread.messages.len() - i,
    {
        let m = &thread.messages[i];
        let ghost before = r@;
        assert(ms.take(i + 1).drop_last() =~= ms.take(i as int));
        assert(ms.take(i + 1).last() == ms[i as int]);
        if !m.streaming && !crate::text::is_blank_str(m.text.as_str()) {
            let role = match m.role {
                MsgRole::User => crate::text::owned("user"),
                MsgRole::Ai => crate::text::owned("assistant"),
            };
            r.push((role, m.text.clone()));
            assert(crate::desktop::backend_client::history_view(r@) =~= crate::desktop::backend_client::history_view(before).push((role@, m.text@)));
        }
        i += 1;
    }
    assert(ms.take(thread.messages.len() as int) =~= ms);
    r
}

/// Computes [`mode_of`] for a thread title.
pub fn mode_for_title(title: &str) -> (r: String)
    ensures
        r@ == mode_of(title@),
{
    if crate::text::str_eq(title, "Mock Interview") {
        crate::text::owned("interviewer")
    } else {
        crate::text::owned("coach")
    }
}

/// Computes [`mode_of`] for a thread.
pub fn mode_for_thread(thread: &ChatThread) -> (r: String)
    ensures
        r@ == mode_of(thread@.title),
{
    mode_for_title(thread.title.as_str())
}

/// Computes [`kickoff_prompt`].
pub fn kickoff_prompt_for(title: &str) -> (r: String)
    ensures
        r@ == kickoff_prompt(title@),
{
    if crate::text::str_eq(title, "Mock Interview") {
        crate::text::owned(
            "Begin the interview now. Open with a brief greeting and your first question — ground it in something specific from my resume or the JD. Single question, no preamble.",
        )
    } else if crate::text::str_eq(title, "Interview Questions") {
        crate::text::owned(
            "Generate the 8–12 most likely interview questions for this role at this company, ordered by stage (recruiter screen → technical → behavioral → final). For each, explain WHY they ask it and give a 2–3 sentence answer outline drawing on my resume.",
        )
    } else {
        let mut s = crate::text::owned("Start a ");
        crate::text::push_str(&mut s, title);
        crate::text::push_str(
            &mut s,
            " session for me. Begin immediately with the first question or scenario, grounded in my resume and the JD.",
        );
        s
    }
}

/// Computes [`master_pairs`] for the resume library.
pub fn master_resume_pairs(items: &[Resume], forced: Option<u64>) -> (r: Vec<(String, String)>)
    ensures
        crate::desktop::backend_client::history_view(r@) == master_pairs(resumes_view(items@), forced),
{
    let ghost rs = resumes_view(items@);
    let mut r: Vec<(String, String)> = Vec::new();
    let mut i: usize = 0;
    assert(rs.take(0) =~= Seq::<ResumeView>::empty());
    while i < items.len()
        invariant
            0 <= i <= items.len(),
            rs == resumes_view(items@),
            crate::desktop::backend_client::history_view(r@) == master_pairs(rs.take(i as int), forced),
        decreases items.len() - i,
    {
        let it = &items[i];
        let ghost before = r@;
        assert(rs.take(i + 1).drop_last() =~= rs.take(i as int));
        assert(rs.take(i + 1).last() == rs[i as int]);
        let keep = match forced {
            Some(f) => it.id == f,
            None => true,
        };
        if keep {
            r.push((it.name.clone(), it.text.clone()));
            assert(crate::desktop::backend_client::history_view(r@) =~= crate::desktop::backend_client::history_view(before).push((it.name@, it.text@)));
        }
        i += 1;
    }
    assert(rs.take(items.len() as int) =~= rs);
    r
}

/// Computes [`report_for`].
pub fn company_research_report_for(job: &Job, stored: Option<String>) -> (r: Option<String>)
    ensures
        crate::desktop::types::opt_view(r) == report_for(job@, crate::desktop::types::opt_view(stored)),
{
    if let Some(s) = stored {
        return Some(s);
    }
    let ghost ts = job@.chats;
    let mut n: usize = job.chats.len();
    while n > 0 && !crate::text::str_eq(job.chats[n - 1].title.as_str(), "Company Research")
        invariant
            n <= job.chats.len(),
            ts == threads_view(job.chats@),
            last_titled_before(ts, "Company Research"@, ts.len() as int) == last_titled_before(
                ts,
                "Company Research"@,
                n as int,
            ),
        decreases n,
    {
        n -= 1;
    }
    if n == 0 {
        return None;
    }
    let k = n - 1;
    let t = &job.chats[k];
    let ghost ms = t@.messages;
    let mut m: usize = t.messages.len();
    while m > 0 && !(t.messages[m - 1].role == MsgRole::Ai && !t.messages[m - 1].streaming
        && !crate::text::is_blank_str(t.messages[m - 1].text.as_str()))
        invariant
            m <= t.messages.len(),
            ms == msgs_view(t.messages@),
            last_report_before(ms, ms.len() as int) == last_report_before(ms, m as int),
        decreases m,
    {
        m -= 1;
    }
    if m == 0 {
        None
    } else {
        Some(t.messages[m - 1].text.clone())
    }
}

// ─── Starting streams ───────────────────────────────────────────────────────

/// Shown in place of a reply when no backend URL is known yet.
pub open spec fn not_ready_text(s: BackendStatus) -> Seq<char> {
    match s {
        BackendStatus::Starting => "Backend is still starting up, please wait a moment and try again."@,
        BackendStatus::Failed(_) => "Backend failed to start. Set your INTERPREP_BACKEND_DIR or check Python installation."@,
        BackendStatus::Ready => "Backend ready but URL missing — this is a bug."@,
    }
}

/// The thread with id `cid` of the job with id `jid`, if both exist.
pub open spec fn thread_at(js: Seq<JobView>, jid: usize, cid: usize) -> Option<ThreadView> {
    match job_pos(js, jid) {
        Some(i) => match thread_pos(js[i].chats, cid) {
            Some(k) => Some(js[i].chats[k]),
            None => None,
        },
        None => None,
    }
}

/// The thread-push update used when a new thread is opened on a job.
pub open spec fn add_thread(js: Seq<JobView>, jid: usize, t: ThreadView) -> Seq<JobView> {
    map_job(js, jid, |j: JobView| JobView { chats: j.chats.push(t), ..j })
}

/// The message-push update.
pub open spec fn add_msg(js: Seq<JobView>, jid: usize, cid: usize, m: MsgView) -> Seq<JobView> {
    map_thread(js, jid, cid, |t: ThreadView| ThreadView { messages: t.messages.push(m), ..t })
}

/// A job whose first "Application Prep" thread gets the note that the
/// knockout screen needs a tailored resume.
pub open spec fn knockout_nudged_job(j: JobView) -> JobView {
    match titled_pos(j.chats, "Application Prep"@) {
        Some(k) => JobView {
            chats: j.chats.update(
                k,
                ThreadView {
                    messages: j.chats[k].messages.push(
                        ai_msg_view(
                            "**Knockout screen unavailable.** Run Application Prep first — the screen needs the tailored resume as input."@,
                        ),
                    ),
                    ..j.chats[k]
                },
            ),
            ..j
        },
        None => j,
    }
}

/// [`knockout_nudged_job`] applied to job `jid`.
pub open spec fn knockout_nudged(js: Seq<JobView>, jid: usize) -> Seq<JobView> {
    map_job(js, jid, |j: JobView| knockout_nudged_job(j))
}

/// The thread that a JD analysis streams into: the job's first thread, or a
/// new one with id `next`.
pub open spec fn research_thread_id(j: JobView, next: usize) -> usize {
    if j.chats.len() > 0 {
        j.chats[0].id
    } else {
        next
    }
}

/// A job once its JD analysis starts: status "Analyzing…" and a reply
/// placeholder on its first thread, or a new "Research" thread holding one.
pub open spec fn research_opened(j: JobView, next: usize) -> JobView {
    if j.chats.len() > 0 {
        JobView {
            research_status: "Analyzing…"@,
            chats: j.chats.update(
                0,
                ThreadView { messages: j.chats[0].messages.push(ai_streaming_view()), ..j.chats[0] },
            ),
            ..j
        }
    } else {
        JobView {
            research_status: "Analyzing…"@,
            chats: seq![streaming_thread(next, "Research"@)],
            ..j
        }
    }
}

/// The jobs once Application Prep starts on job `jid` with thread id
/// `cid`: the thread is added and the status set to "Tailoring resume…";
/// with no resume on file, or no backend URL, the placeholder is closed with
/// a notice and the status says why.
pub open spec fn prep_jobs(
    js: Seq<JobView>,
    jid: usize,
    cid: usize,
    has_resumes: bool,
    has_url: bool,
) -> Seq<JobView> {
    let js1 = with_status(
        add_thread(js, jid, streaming_thread(cid, "Application Prep"@)),
        jid,
        "Tailoring resume…"@,
    );
    if !has_resumes {
        close_last(
            with_status(js1, jid, "No resume on file"@),
            jid,
            cid,
            "**Error:** add a resume in Settings → Resume before creating a job."@,
            false,
        )
    } else if has_url {
        js1
    } else {
        close_last(
            with_status(js1, jid, "Backend not ready"@),
            jid,
            cid,
            "Backend is not ready yet. Try again in a moment."@,
            false,
        )
    }
}

/// The tailoring stream Application Prep opens for job `j`, if any.
pub open spec fn prep_request(
    j: JobView,
    url: Option<String>,
    pairs: Seq<(Seq<char>, Seq<char>)>,
    api_key: Seq<char>,
) -> Option<RequestView> {
    if pairs.len() == 0 {
        None
    } else {
        match url {
            Some(u) => Some(
                RequestView::ApplicationTailor {
                    base_url: u@,
                    company: j.company,
                    role: j.role,
                    location: j.location,
                    job_description: j.job_description,
                    master_resumes: pairs,
                    api_key,
                },
            ),
            None => None,
        }
    }
}

/// Avatar colour (RGBA) of the job with id `n`: the palette indigo, green,
/// amber, red, pink, in turn.
pub open spec fn avatar_for(n: usize) -> [u8; 4] {
    if n % 5 == 0 {
        [0x63u8, 0x5Bu8, 0xFFu8, 0xFFu8]
    } else if n % 5 == 1 {
        [0x22u8, 0xC5u8, 0x5Eu8, 0xFFu8]
    } else if n % 5 == 2 {
        [0xF5u8, 0x9Eu8, 0x0Bu8, 0xFFu8]
    } else if n % 5 == 3 {
        [0xEFu8, 0x44u8, 0x44u8, 0xFFu8]
    } else {
        [0xECu8, 0x48u8, 0x99u8, 0xFFu8]
    }
}

/// The job the "New job" form creates, with id `id` and a "General Prep"
/// thread with id `cid`: trimmed fields, status "No JD added" or "Queued",
/// one "Submitted" stage note holding the form's notes.
pub open spec fn new_job_view(f: NewJobForm, id: usize, cid: usize) -> JobView {
    let jd = crate::text::trim(f.job_description@);
    JobView {
        id,
        company: crate::text::trim(f.company@),
        role: crate::text::trim(f.role@),
        location: crate::text::trim(f.location@),
        job_description: jd,
        research_status: if jd.len() == 0 {
            "No JD added"@
        } else {
            "Queued"@
        },
        status: f.status,
        current_stage: 0,
        stage_notes: seq![
            crate::desktop::types::StageNoteView { day_offset: 0, outcome: "Submitted"@, notes: f.notes@ },
        ],
        chats: seq![
            thread_view(
                cid,
                "General Prep"@,
                seq![ai_msg_view("Ready to help you prepare. Share the job description or ask me anything."@)],
            ),
        ],
        avatar_color: avatar_for(id),
        sidebar_expanded: true,
        archived: false,
        tailored_resume: None,
        resume_docx_path: None,
        scorecard: None,
    }
}

/// Whether the form names both a company and a role.
pub open spec fn form_valid(f: NewJobForm) -> bool {
    crate::text::trim(f.company@).len() > 0 && crate::text::trim(f.role@).len() > 0
}

/// The research-status update.
pub open spec fn with_status(js: Seq<JobView>, jid: usize, st: Seq<char>) -> Seq<JobView> {
    map_job(js, jid, |j: JobView| JobView { research_status: st, ..j })
}

/// Closing the last message of a thread with a notice.
pub open spec fn close_last(
    js: Seq<JobView>,
    jid: usize,
    cid: usize,
    text: Seq<char>,
    only_if_streaming: bool,
) -> Seq<JobView> {
    map_last_msg(js, jid, cid, |m: MsgView| last_msg_op(m, 0, text, only_if_streaming))
}

impl InterPrepApp {
    /// The trimmed draft that `send_message` sends.
    pub open spec fn draft_text(&self) -> Seq<char> {
        crate::text::trim(self.draft@)
    }

    /// The thread a message is sent to: the selected one, or a new one.
    pub open spec fn send_chat_id(&self) -> usize {
        match self.selected_chat {
            Some(c) => c,
            None => self.next_chat_id,
        }
    }

    /// The jobs once the thread to send to exists.
    pub open spec fn send_jobs_with_thread(&self, jid: usize) -> Seq<JobView> {
        if self.selected_chat is None {
            add_thread(
                self.jobs_v(),
                jid,
                thread_view(self.next_chat_id, take_n(self.draft_text(), 40), seq![]),
            )
        } else {
            self.jobs_v()
        }
    }

    /// The jobs once the user message and the reply placeholder are added.
    pub open spec fn send_jobs_with_msgs(&self, jid: usize) -> Seq<JobView> {
        add_msg(
            add_msg(self.send_jobs_with_thread(jid), jid, self.send_chat_id(), user_msg_view(self.draft_text())),
            jid,
            self.send_chat_id(),
            ai_streaming_view(),
        )
    }
}

// ─── Ending a stream ────────────────────────────────────────────────────────

/// Research status after a stream on a thread titled `title` ends,
/// successfully or (`failed`) with an error.
pub open spec fn end_status(status: Seq<char>, title: Seq<char>, failed: bool) -> Seq<char> {
    if title == "Company Research"@ {
        if failed { "Research failed"@ } else { "Ready"@ }
    } else if title == "Application Prep"@ {
        if failed { "Tailor failed"@ } else { "Resume tailored"@ }
    } else if status == "Analyzing…"@ {
        if failed { "Analysis failed"@ } else { "Analysis ready"@ }
    } else {
        status
    }
}

/// The last message of a thread when its stream ends: finished, or, on an
/// error, replaced by `**Error:** <error>` if it was still streaming.
pub open spec fn end_msg(m: MsgView, error: Option<Seq<char>>) -> MsgView {
    match error {
        None => MsgView { streaming: false, ..m },
        Some(e) => closed_with(m, "**Error:** "@ + e, true),
    }
}

/// A job after the stream feeding its thread `cid` ended.
pub open spec fn end_job(j: JobView, cid: usize, error: Option<Seq<char>>) -> JobView {
    match thread_pos(j.chats, cid) {
        None => j,
        Some(k) => {
            let t = j.chats[k];
            let t2 = if t.messages.len() > 0 {
                ThreadView {
                    messages: t.messages.update(
                        t.messages.len() - 1,
                        end_msg(t.messages[t.messages.len() - 1], error),
                    ),
                    ..t
                }
            } else {
                t
            };
            JobView {
                chats: j.chats.update(k, t2),
                research_status: end_status(j.research_status, t.title, error is Some),
                ..j
            }
        },
    }
}

/// The company research report to persist when a stream ends successfully:
/// the final text of a "Company Research" thread, unless blank.
pub open spec fn end_report(js: Seq<JobView>, jid: usize, cid: usize) -> Option<Seq<char>> {
    match job_pos(js, jid) {
        Some(i) => match thread_pos(js[i].chats, cid) {
            Some(k) => {
                let t = js[i].chats[k];
                if t.title == "Company Research"@ && t.messages.len() > 0 && !crate::text::is_blank(
                    t.messages[t.messages.len() - 1].text,
                ) {
                    Some(t.messages[t.messages.len() - 1].text)
                } else {
                    None
                }
            },
            None => None,
        },
        None => None,
    }
}

/// Whether the stream that ended was an "Application Prep" one (which
/// chains into company research).
pub open spec fn end_was_prep(js: Seq<JobView>, jid: usize, cid: usize) -> bool {
    match job_pos(js, jid) {
        Some(i) => match thread_pos(js[i].chats, cid) {
            Some(k) => js[i].chats[k].title != "Company Research"@ && js[i].chats[k].title
                == "Application Prep"@,
            None => false,
        },
        None => false,
    }
}

/// Bookkeeping of one poll of the stream: whether the stream is over,
/// whether the jobs need persisting, and which job (if any) should start
/// company research next.
pub struct PollState {
    pub stream_done: bool,
    pub should_save_jobs: bool,
    pub chain_company_research_for: Option<usize>,
}

/// Outside work an event asks of the caller.
pub enum EventFollowUp {
    Nothing,
    /// Write the tailored `.docx` for the job, then report the saved path
    /// with [`InterPrepApp::record_resume_docx`].
    SaveResumeDocx { job_id: usize, bytes: Vec<u8> },
    /// Persist the finished company research report for the job.
    SaveCompanyReport { job_id: usize, markdown: String },
}

/// What handling one event produced: the follow-up, and whether the rest
/// of the polled events must be dropped.
pub struct EventStep {
    pub stop: bool,
    pub follow_up: EventFollowUp,
}

// ─── Job-list transformations ───────────────────────────────────────────────

/// `js` with every job whose id is `id` removed, order kept.
pub open spec fn without_job(js: Seq<JobView>, id: usize) -> Seq<JobView>
    decreases js.len(),
{
    if js.len() == 0 {
        js
    } else {
        let rest = without_job(js.drop_last(), id);
        if js.last().id == id {
            rest
        } else {
            rest.push(js.last())
        }
    }
}

/// The job with its archive flag set to `archived`; archiving also
/// collapses it in the sidebar.
pub open spec fn with_archived(j: JobView, archived: bool) -> JobView {
    JobView {
        archived,
        sidebar_expanded: if archived { false } else { j.sidebar_expanded },
        ..j
    }
}

/// The job list with the first job with id `id` expanded or collapsed in
/// the sidebar, the other way round from before.
pub open spec fn toggled_expansion(js: Seq<JobView>, id: usize) -> Seq<JobView> {
    match job_pos(js, id) {
        Some(i) => js.update(i, JobView { sidebar_expanded: !js[i].sidebar_expanded, ..js[i] }),
        None => js,
    }
}

/// The chat selected after clicking the row of job `id` that was not
/// selected: the job's first thread, or the chat selected before when the
/// job has none.
pub open spec fn row_click_chat(js: Seq<JobView>, id: usize, before: Option<usize>) -> Option<usize> {
    match job_pos(js, id) {
        Some(i) => if js[i].chats.len() > 0 {
            Some(js[i].chats[0].id)
        } else {
            before
        },
        None => before,
    }
}

/// The job list after (un)archiving the first job with id `id`.
pub open spec fn set_archived(js: Seq<JobView>, id: usize, archived: bool) -> Seq<JobView> {
    match job_pos(js, id) {
        Some(i) => js.update(i, with_archived(js[i], archived)),
        None => js,
    }
}

impl InterPrepApp {
    pub open spec fn jobs_v(&self) -> Seq<JobView> {
        jobs_view(self.jobs@)
    }

    /// Position of the selected job in the list.
    pub open spec fn selected_job_pos(&self) -> Option<int> {
        match self.selected_job {
            Some(id) => job_pos(self.jobs_v(), id),
            None => None,
        }
    }

    /// Everything but the jobs and the selection is the same in `self` and `o`.
    pub open spec fn same_except_jobs_selection(&self, o: &Self) -> bool {
        &&& self.screen == o.screen
        &&& self.draft == o.draft
        &&& self.new_job == o.new_job
        &&& self.creds == o.creds
        &&& self.ui == o.ui
        &&& self.next_job_id == o.next_job_id
        &&& self.next_chat_id == o.next_chat_id
        &&& self.backend_url == o.backend_url
        &&& self.backend_status == o.backend_status
        &&& self.stream == o.stream
        &&& self.resume_store == o.resume_store
    }

    /// The start-up state for loaded `jobs`, `creds` and resume library: the
    /// default selection ([`default_selection`]), id allocators one past the
    /// largest ids in use (so no id is handed out twice), the chat screen,
    /// the backend still starting and no stream open.
    pub fn from_loaded(jobs: Vec<Job>, creds: Credentials, resume_store: ResumeStore) -> (r: Self)
        requires
            max_job_id(jobs_view(jobs@)) < usize::MAX,
            max_chat_id(jobs_view(jobs@)) < usize::MAX,
        ensures
            r.jobs_v() == jobs_view(jobs@),
            (r.selected_job, r.selected_chat) == default_selection(jobs_view(jobs@)),
            r.next_job_id == max_job_id(jobs_view(jobs@)) + 1,
            r.next_chat_id == max_chat_id(jobs_view(jobs@)) + 1,
            forall|i: int| 0 <= i < r.jobs_v().len() ==> #[trigger] r.jobs_v()[i].id < r.next_job_id,
            forall|i: int, k: int|
                0 <= i < r.jobs_v().len() && 0 <= k < r.jobs_v()[i].chats.len()
                    ==> #[trigger] r.jobs_v()[i].chats[k].id < r.next_chat_id,
            r.screen == Screen::Chat,
            r.draft@ == Seq::<char>::empty(),
            r.new_job.is_blank(),
            r.creds == creds,
            r.ui.is_initial(),
            r.backend_url is None,
            r.backend_status == BackendStatus::Starting,
            r.stream == (StreamSlot { active: false, job_id: None, chat_id: None }),
            r.resume_store == resume_store,
    {
        let (sj, sc) = compute_default_selection(&jobs);
        let (nj, nc) = next_ids(&jobs);
        proof {
            lemma_max_job_id(jobs_view(jobs@));
            lemma_max_chat_id(jobs_view(jobs@));
        }
        InterPrepApp {
            jobs,
            selected_job: sj,
            selected_chat: sc,
            screen: Screen::Chat,
            draft: String::new(),
            new_job: NewJobForm::blank(),
            creds,
            ui: UiState::initial(),
            next_job_id: nj,
            next_chat_id: nc,
            backend_url: None,
            backend_status: BackendStatus::Starting,
            stream: StreamSlot { active: false, job_id: None, chat_id: None },
            resume_store,
        }
    }

    /// The selected job (`None` when nothing is selected or the id is gone).
    pub fn selected_job(&self) -> (r: Option<&Job>)
        ensures
            r is Some == self.selected_job_pos() is Some,
            r matches Some(j) ==> j@ == self.jobs_v()[self.selected_job_pos()->0],
    {
        let id = match self.selected_job {
            Some(id) => id,
            None => return None,
        };
        match find_job(&self.jobs, id) {
            Some(i) => Some(&self.jobs[i]),
            None => None,
        }
    }

    /// Position of the selected thread within the selected job.
    pub open spec fn selected_thread_pos(&self) -> Option<int> {
        match (self.selected_job_pos(), self.selected_chat) {
            (Some(i), Some(cid)) => thread_pos(self.jobs_v()[i].chats, cid),
            _ => None,
        }
    }

    /// The selected thread of the selected job.
    pub fn selected_thread(&self) -> (r: Option<&ChatThread>)
        ensures
            r is Some == self.selected_thread_pos() is Some,
            r matches Some(t) ==> t@ == self.jobs_v()[self.selected_job_pos()->0].chats[self.selected_thread_pos()->0],
    {
        let id = match self.selected_job {
            Some(id) => id,
            None => return None,
        };
        let i = match find_job(&self.jobs, id) {
            Some(i) => i,
            None => return None,
        };
        let cid = match self.selected_chat {
            Some(c) => c,
            None => return None,
        };
        match find_thread(&self.jobs[i].chats, cid) {
            Some(k) => Some(&self.jobs[i].chats[k]),
            None => None,
        }
    }

    /// Positions of job `jid` and of its thread `cid`.
    pub fn thread_path(&self, jid: usize, cid: usize) -> (r: Option<(usize, usize)>)
        ensures
            r matches Some((i, k)) ==> i < self.jobs@.len() && k < self.jobs@[i as int].chats@.len()
                && job_pos(self.jobs_v(), jid) == Some(i as int) && thread_pos(
                self.jobs_v()[i as int].chats,
                cid,
            ) == Some(k as int),
            r is None ==> match job_pos(self.jobs_v(), jid) {
                Some(i) => thread_pos(self.jobs_v()[i].chats, cid) is None,
                None => true,
            },
    {
        match find_job(&self.jobs, jid) {
            Some(i) => match find_thread(&self.jobs[i].chats, cid) {
                Some(k) => Some((i, k)),
                None => None,
            },
            None => None,
        }
    }


    /// The settings, the form, the UI state, the job counter, the backend
    /// and the resume library are the same in `self` and `o`.
    pub open spec fn same_settings(&self, o: &Self) -> bool {
        &&& self.screen == o.screen
        &&& self.draft == o.draft
        &&& self.new_job == o.new_job
        &&& self.creds == o.creds
        &&& self.ui == o.ui
        &&& self.next_job_id == o.next_job_id
        &&& self.backend_url == o.backend_url
        &&& self.backend_status == o.backend_status
        &&& self.resume_store == o.resume_store
    }

    /// Only the jobs changed between `o` and `self`.
    pub open spec fn only_jobs_changed(&self, o: &Self) -> bool {
        &&& self.same_except_jobs_selection(o)
        &&& self.selected_job == o.selected_job
        &&& self.selected_chat == o.selected_chat
    }

    /// Sets the research status of the first job with id `jid`.
    pub fn set_research_status(&mut self, jid: usize, status: &str)
        ensures
            final(self).jobs_v() == map_job(
                old(self).jobs_v(),
                jid,
                |j: JobView| JobView { research_status: status@, ..j },
            ),
            final(self).only_jobs_changed(old(self)),
    {
        let ghost before = self.jobs_v();
        let ghost f = |j: JobView| JobView { research_status: status@, ..j };
        match find_job(&self.jobs, jid) {
            Some(i) => {
                self.jobs[i].research_status = crate::text::owned(status);
                proof {
                    lemma_map_job_at(before, jid, i as int, f);
                }
                assert(self.jobs_v() =~= before.update(i as int, f(before[i as int])));
            },
            None => {},
        }
    }

    /// Adds a thread to the first job with id `jid`.
    pub fn push_thread(&mut self, jid: usize, t: ChatThread)
        ensures
            final(self).jobs_v() == map_job(
                old(self).jobs_v(),
                jid,
                |j: JobView| JobView { chats: j.chats.push(t@), ..j },
            ),
            final(self).only_jobs_changed(old(self)),
    {
        let ghost before = self.jobs_v();
        let ghost tv = t@;
        let ghost f = |j: JobView| JobView { chats: j.chats.push(tv), ..j };
        match find_job(&self.jobs, jid) {
            Some(i) => {
                self.jobs[i].chats.push(t);
                proof {
                    lemma_map_job_at(before, jid, i as int, f);
                }
                assert(threads_view(self.jobs@[i as int].chats@) =~= before[i as int].chats.push(tv));
                assert(self.jobs_v() =~= before.update(i as int, f(before[i as int])));
            },
            None => {},
        }
    }

    /// Sets one optional text field of the first job with id `jid`:
    /// 0 = tailored resume, 1 = scorecard, 2 = `.docx` path.
    pub fn set_job_text_field(&mut self, jid: usize, field: u8, value: String)
        requires
            field < 3,
        ensures
            final(self).jobs_v() == map_job(
                old(self).jobs_v(),
                jid,
                |j: JobView|
                    if field == 0 {
                        JobView { tailored_resume: Some(value@), ..j }
                    } else if field == 1 {
                        JobView { scorecard: Some(value@), ..j }
                    } else {
                        JobView { resume_docx_path: Some(value@), ..j }
                    },
            ),
            final(self).only_jobs_changed(old(self)),
    {
        let ghost before = self.jobs_v();
        let ghost v = value@;
        let ghost f = |j: JobView|
            if field == 0 {
                JobView { tailored_resume: Some(v), ..j }
            } else if field == 1 {
                JobView { scorecard: Some(v), ..j }
            } else {
                JobView { resume_docx_path: Some(v), ..j }
            };
        match find_job(&self.jobs, jid) {
            Some(i) => {
                if field == 0 {
                    self.jobs[i].tailored_resume = Some(value);
                } else if field == 1 {
                    self.jobs[i].scorecard = Some(value);
                } else {
                    self.jobs[i].resume_docx_path = Some(value);
                }
                proof {
                    lemma_map_job_at(before, jid, i as int, f);
                }
                assert(self.jobs_v() =~= before.update(i as int, f(before[i as int])));
            },
            None => {},
        }
    }

    /// Adds a message to thread `cid` of job `jid`.
    pub fn push_message(&mut self, jid: usize, cid: usize, m: ChatMsg)
        ensures
            final(self).jobs_v() == map_thread(
                old(self).jobs_v(),
                jid,
                cid,
                |t: ThreadView| ThreadView { messages: t.messages.push(m@), ..t },
            ),
            final(self).only_jobs_changed(old(self)),
    {
        let ghost before = self.jobs_v();
        let ghost mv = m@;
        let ghost g = |t: ThreadView| ThreadView { messages: t.messages.push(mv), ..t };
        match self.thread_path(jid, cid) {
            Some((i, k)) => {
                self.jobs[i].chats[k].messages.push(m);
                proof {
                    lemma_map_thread_at(before, jid, cid, i as int, k as int, g);
                }
                assert(msgs_view(self.jobs@[i as int].chats@[k as int].messages@)
                    =~= before[i as int].chats[k as int].messages.push(mv));
                assert(threads_view(self.jobs@[i as int].chats@) =~= before[i as int].chats.update(
                    k as int,
                    g(before[i as int].chats[k as int]),
                ));
                assert(self.jobs_v() =~= before.update(
                    i as int,
                    JobView {
                        chats: before[i as int].chats.update(k as int, g(before[i as int].chats[k as int])),
                        ..before[i as int]
                    },
                ));
            },
            None => {
                proof {
                    lemma_map_thread_no_thread(before, jid, cid, g);
                }
            },
        }
    }

    /// Applies one of the message-level updates to the last message of
    /// thread `cid` of job `jid`:
    /// 0 = close it with `text` ([`closed_with`], `only_if_streaming`),
    /// 1 = append the token `text` ([`token_applied`]),
    /// 2 = add the log line `text` ([`log_applied`]),
    /// 3 = mark it finished (no longer streaming).
    pub fn update_last_message(
        &mut self,
        jid: usize,
        cid: usize,
        op: u8,
        text: &str,
        only_if_streaming: bool,
    )
        requires
            op < 4,
        ensures
            final(self).jobs_v() == map_last_msg(
                old(self).jobs_v(),
                jid,
                cid,
                |m: MsgView| last_msg_op(m, op, text@, only_if_streaming),
            ),
            final(self).only_jobs_changed(old(self)),
    {
        let ghost before = self.jobs_v();
        let ghost h = |m: MsgView| last_msg_op(m, op, text@, only_if_streaming);
        let ghost g = |t: ThreadView|
            if t.messages.len() > 0 {
                ThreadView {
                    messages: t.messages.update(
                        t.messages.len() - 1,
                        h(t.messages[t.messages.len() - 1]),
                    ),
                    ..t
                }
            } else {
                t
            };
        match self.thread_path(jid, cid) {
            Some((i, k)) => {
                let n = self.jobs[i].chats[k].messages.len();
                if n > 0 {
                    let streaming = self.jobs[i].chats[k].messages[n - 1].streaming;
                    if op == 0 {
                        if !only_if_streaming || streaming {
                            self.jobs[i].chats[k].messages[n - 1].text = crate::text::owned(text);
                            self.jobs[i].chats[k].messages[n - 1].streaming = false;
                        }
                    } else if op == 1 {
                        if streaming {
                            crate::text::push_str(&mut self.jobs[i].chats[k].messages[n - 1].text, text);
                        }
                    } else if op == 2 {
                        if streaming {
                            let line = crate::text::owned(text);
                            self.jobs[i].chats[k].messages[n - 1].logs.push(line);
                        }
                    } else {
                        self.jobs[i].chats[k].messages[n - 1].streaming = false;
                    }
                    assert(crate::desktop::types::strings_view(
                        self.jobs@[i as int].chats@[k as int].messages@[n - 1].logs@,
                    ) =~= h(before[i as int].chats[k as int].messages[n - 1]).logs);
                    assert(self.jobs@[i as int].chats@[k as int].messages@[n - 1]@ =~= h(
                        before[i as int].chats[k as int].messages[n - 1],
                    ));
                }
                proof {
                    lemma_map_thread_at(before, jid, cid, i as int, k as int, g);
                }
                assert(msgs_view(self.jobs@[i as int].chats@[k as int].messages@) =~= g(
                    before[i as int].chats[k as int],
                ).messages);
                assert(threads_view(self.jobs@[i as int].chats@) =~= before[i as int].chats.update(
                    k as int,
                    g(before[i as int].chats[k as int]),
                ));
                assert(self.jobs_v() =~= before.update(
                    i as int,
                    JobView {
                        chats: before[i as int].chats.update(k as int, g(before[i as int].chats[k as int])),
                        ..before[i as int]
                    },
                ));
            },
            None => {
                proof {
                    lemma_map_thread_no_thread(before, jid, cid, g);
                }
            },
        }
    }



    /// Computes [`job_context`]; `stored_report` is the report persisted for
    /// `job_id`, if any.
    pub fn job_context_for(&self, job_id: usize, include_report: bool, stored_report: Option<String>) -> (r: String)
        ensures
            r@ == job_context(
                self.jobs_v(),
                job_id,
                include_report,
                crate::desktop::types::opt_view(stored_report),
            ),
    {
        let i = match find_job(&self.jobs, job_id) {
            Some(i) => i,
            None => return String::new(),
        };
        let job = &self.jobs[i];
        let mut ctx = crate::text::owned("Company: ");
        crate::text::push_str(&mut ctx, job.company.as_str());
        crate::text::push_str(&mut ctx, "\nRole: ");
        crate::text::push_str(&mut ctx, job.role.as_str());
        if !crate::text::is_blank_str(job.location.as_str()) {
            crate::text::push_str(&mut ctx, "\nLocation: ");
            crate::text::push_str(&mut ctx, job.location.as_str());
        }
        if !crate::text::is_blank_str(job.job_description.as_str()) {
            crate::text::push_str(&mut ctx, "\n\nJob Description:\n");
            let jd = crate::text::take_chars(job.job_description.as_str(), 3000);
            crate::text::push_str(&mut ctx, jd.as_str());
        }
        if include_report {
            if let Some(report) = company_research_report_for(job, stored_report) {
                crate::text::push_str(&mut ctx, "\n\nCompany Research Report:\n");
                let rep = crate::text::take_chars(report.as_str(), 8000);
                crate::text::push_str(&mut ctx, rep.as_str());
            }
        }
        ctx
    }


    /// Takes a fresh thread id.
    fn alloc_chat_id(&mut self) -> (id: usize)
        requires
            old(self).next_chat_id < usize::MAX,
        ensures
            id == old(self).next_chat_id,
            final(self).next_chat_id == old(self).next_chat_id + 1,
            final(self).jobs_v() == old(self).jobs_v(),
            final(self).selected_job == old(self).selected_job,
            final(self).selected_chat == old(self).selected_chat,
            final(self).draft == old(self).draft,
            final(self).new_job == old(self).new_job,
            final(self).creds == old(self).creds,
            final(self).ui == old(self).ui,
            final(self).screen == old(self).screen,
            final(self).next_job_id == old(self).next_job_id,
            final(self).backend_url == old(self).backend_url,
            final(self).backend_status == old(self).backend_status,
            final(self).stream == old(self).stream,
            final(self).resume_store == old(self).resume_store,
    {
        let id = self.next_chat_id;
        self.next_chat_id = self.next_chat_id + 1;
        id
    }

    /// Sends the trimmed draft to the selected thread (opening a thread when
    /// none is selected). `stored_report` is the report persisted for the
    /// selected job. Returns the chat stream to open; without a backend URL
    /// the reply placeholder is closed with [`not_ready_text`] instead.
    pub fn send_message(&mut self, stored_report: Option<String>) -> (r: Option<StreamRequest>)
        requires
            old(self).draft_text().len() > 0 && old(self).selected_job is Some && old(self).selected_chat is None
                ==> old(self).next_chat_id < usize::MAX,
        ensures
            old(self).draft_text().len() == 0 ==> *final(self) == *old(self) && r is None,
            old(self).draft_text().len() > 0 ==> {
                &&& final(self).draft@ == Seq::<char>::empty()
                &&& final(self).selected_job == old(self).selected_job
                &&& final(self).screen == old(self).screen
                &&& final(self).new_job == old(self).new_job
                &&& final(self).creds == old(self).creds
                &&& final(self).ui == old(self).ui
                &&& final(self).next_job_id == old(self).next_job_id
                &&& final(self).backend_url == old(self).backend_url
                &&& final(self).backend_status == old(self).backend_status
                &&& final(self).resume_store == old(self).resume_store
                &&& match old(self).selected_job {
                    None => {
                        &&& r is None
                        &&& final(self).jobs_v() == old(self).jobs_v()
                        &&& final(self).selected_chat == old(self).selected_chat
                        &&& final(self).next_chat_id == old(self).next_chat_id
                        &&& final(self).stream == old(self).stream
                    },
                    Some(jid) => {
                        let o = old(self);
                        let cid = o.send_chat_id();
                        let js1 = o.send_jobs_with_thread(jid);
                        let js2 = o.send_jobs_with_msgs(jid);
                        let t = thread_at(js1, jid, cid);
                        &&& final(self).selected_chat == Some(cid)
                        &&& final(self).next_chat_id == if o.selected_chat is None {
                            o.next_chat_id + 1
                        } else {
                            o.next_chat_id as int
                        }
                        &&& match o.backend_url {
                            Some(url) => {
                                &&& final(self).jobs_v() == js2
                                &&& final(self).stream == (StreamSlot {
                                    active: true,
                                    job_id: Some(jid),
                                    chat_id: Some(cid),
                                })
                                &&& request_view(r) == Some(
                                    RequestView::Chat {
                                        base_url: url@,
                                        message: o.draft_text(),
                                        job_context: job_context(
                                            js1,
                                            jid,
                                            true,
                                            crate::desktop::types::opt_view(stored_report),
                                        ),
                                        history: match t {
                                            Some(t) => history_of(t.messages),
                                            None => seq![],
                                        },
                                        mode: match t {
                                            Some(t) => mode_of(t.title),
                                            None => seq![],
                                        },
                                        api_key: o.creds.gemini_api_key@,
                                    },
                                )
                            },
                            None => {
                                &&& r is None
                                &&& final(self).stream == o.stream
                                &&& final(self).jobs_v() == close_last(
                                    js2,
                                    jid,
                                    cid,
                                    not_ready_text(o.backend_status),
                                    true,
                                )
                            },
                        }
                    },
                }
            },
    {
        let text = crate::text::trimmed(self.draft.as_str());
        if text.as_str().is_empty() {
            return None;
        }
        self.draft = String::new();
        let jid = match self.selected_job {
            Some(j) => j,
            None => return None,
        };
        if self.selected_chat.is_none() {
            let chat_id = self.alloc_chat_id();
            let title = crate::text::take_chars(text.as_str(), 40);
            self.push_thread(jid, ChatThread { id: chat_id, title, messages: Vec::new() });
            self.selected_chat = Some(chat_id);
            proof {
                let ghost empty: Seq<ChatMsg> = Seq::empty();
                assert(msgs_view(empty) =~= Seq::<MsgView>::empty());
            }
        }
        let cid = match self.selected_chat {
            Some(c) => c,
            None => return None,
        };
        let ctx = self.job_context_for(jid, true, stored_report);
        let (history, mode) = match self.selected_thread() {
            Some(t) => (build_history(t), mode_for_thread(t)),
            None => (Vec::new(), String::new()),
        };
        proof {
            let ghost empty: Seq<(String, String)> = Seq::empty();
            assert(crate::desktop::backend_client::history_view(empty) =~= seq![]);
        }
        self.push_message(jid, cid, ChatMsg::user(text.as_str()));
        self.push_message(jid, cid, ChatMsg::ai_streaming());
        match &self.backend_url {
            Some(url) => {
                let req = StreamRequest::Chat {
                    base_url: url.clone(),
                    message: text,
                    job_context: ctx,
                    history,
                    mode,
                    api_key: self.creds.gemini_api_key.clone(),
                };
                self.stream = StreamSlot { active: true, job_id: Some(jid), chat_id: Some(cid) };
                Some(req)
            },
            None => {
                let msg = match &self.backend_status {
                    BackendStatus::Starting => "Backend is still starting up, please wait a moment and try again.",
                    BackendStatus::Failed(_) => "Backend failed to start. Set your INTERPREP_BACKEND_DIR or check Python installation.",
                    BackendStatus::Ready => "Backend ready but URL missing — this is a bug.",
                };
                self.update_last_message(jid, cid, 0, msg, true);
                None
            },
        }
    }

    /// Opens a typed thread (Mock Interview, Interview Questions, …) titled
    /// `title` on the selected job, with a reply placeholder, and selects it.
    /// Returns the chat stream to open with the [`kickoff_prompt`]; without a
    /// backend URL the placeholder is closed with a notice instead.
    pub fn start_typed_thread(&mut self, title: &str, stored_report: Option<String>) -> (r: Option<
        StreamRequest,
    >)
        requires
            old(self).selected_job is Some ==> old(self).next_chat_id < usize::MAX,
        ensures
            old(self).selected_job is None ==> *final(self) == *old(self) && r is None,
            old(self).selected_job is Some ==> {
                let o = old(self);
                let jid = o.selected_job->0;
                let cid = o.next_chat_id;
                let js1 = add_thread(o.jobs_v(), jid, thread_view(cid, title@, seq![ai_streaming_view()]));
                &&& final(self).selected_job == o.selected_job
                &&& final(self).selected_chat == Some(cid)
                &&& final(self).next_chat_id == cid + 1
                &&& final(self).screen == o.screen
                &&& final(self).draft == o.draft
                &&& final(self).new_job == o.new_job
                &&& final(self).creds == o.creds
                &&& final(self).ui == o.ui
                &&& final(self).next_job_id == o.next_job_id
                &&& final(self).backend_url == o.backend_url
                &&& final(self).backend_status == o.backend_status
                &&& final(self).resume_store == o.resume_store
                &&& match o.backend_url {
                    Some(url) => {
                        &&& final(self).jobs_v() == js1
                        &&& final(self).stream == (StreamSlot {
                            active: true,
                            job_id: Some(jid),
                            chat_id: Some(cid),
                        })
                        &&& request_view(r) == Some(
                            RequestView::Chat {
                                base_url: url@,
                                message: kickoff_prompt(title@),
                                job_context: job_context(
                                    js1,
                                    jid,
                                    true,
                                    crate::desktop::types::opt_view(stored_report),
                                ),
                                history: seq![],
                                mode: mode_of(title@),
                                api_key: o.creds.gemini_api_key@,
                            },
                        )
                    },
                    None => {
                        &&& r is None
                        &&& final(self).stream == o.stream
                        &&& final(self).jobs_v() == close_last(
                            js1,
                            jid,
                            cid,
                            "Backend not ready. Please wait for startup to complete."@,
                            false,
                        )
                    },
                }
            },
    {
        let jid = match self.selected_job {
            Some(j) => j,
            None => return None,
        };
        let chat_id = self.alloc_chat_id();
        let mut messages: Vec<ChatMsg> = Vec::new();
        messages.push(ChatMsg::ai_streaming());
        proof {
            assert(msgs_view(messages@) =~= seq![ai_streaming_view()]);
        }
        let thread = ChatThread { id: chat_id, title: crate::text::owned(title), messages };
        self.push_thread(jid, thread);
        self.selected_chat = Some(chat_id);
        let prompt = kickoff_prompt_for(title);
        let ctx = self.job_context_for(jid, true, stored_report);
        let mode = mode_for_title(title);
        match &self.backend_url {
            Some(url) => {
                let history: Vec<(String, String)> = Vec::new();
                proof {
                    assert(crate::desktop::backend_client::history_view(history@) =~= seq![]);
                }
                let req = StreamRequest::Chat {
                    base_url: url.clone(),
                    message: prompt,
                    job_context: ctx,
                    history,
                    mode,
                    api_key: self.creds.gemini_api_key.clone(),
                };
                self.stream = StreamSlot { active: true, job_id: Some(jid), chat_id: Some(chat_id) };
                Some(req)
            },
            None => {
                self.update_last_message(
                    jid,
                    chat_id,
                    0,
                    "Backend not ready. Please wait for startup to complete.",
                    false,
                );
                None
            },
        }
    }

    /// Takes a fresh thread id and adds a thread titled `title` with a reply
    /// placeholder to job `jid`.
    fn open_streaming_thread(&mut self, jid: usize, title: &str) -> (cid: usize)
        requires
            old(self).next_chat_id < usize::MAX,
        ensures
            cid == old(self).next_chat_id,
            final(self).next_chat_id == cid + 1,
            final(self).jobs_v() == add_thread(old(self).jobs_v(), jid, streaming_thread(cid, title@)),
            final(self).same_settings(old(self)),
            final(self).selected_job == old(self).selected_job,
            final(self).selected_chat == old(self).selected_chat,
            final(self).stream == old(self).stream,
    {
        let cid = self.alloc_chat_id();
        let mut messages: Vec<ChatMsg> = Vec::new();
        messages.push(ChatMsg::ai_streaming());
        proof {
            assert(msgs_view(messages@) =~= seq![ai_streaming_view()]);
        }
        let thread = ChatThread { id: cid, title: crate::text::owned(title), messages };
        self.push_thread(jid, thread);
        cid
    }

    /// Step one of the flow that follows job creation: opens an
    /// "Application Prep" thread on job `job_id`, selects it, and returns the
    /// tailoring stream to open with the master resumes ([`master_pairs`],
    /// honouring the resume picked in the form). With no resume on file, or
    /// no backend URL, the placeholder is closed with a notice instead.
    pub fn start_application_prep(&mut self, job_id: usize) -> (r: Option<StreamRequest>)
        requires
            job_pos(old(self).jobs_v(), job_id) is Some ==> old(self).next_chat_id < usize::MAX,
        ensures
            job_pos(old(self).jobs_v(), job_id) is None ==> *final(self) == *old(self) && r is None,
            job_pos(old(self).jobs_v(), job_id) matches Some(i) ==> {
                let o = old(self);
                let cid = o.next_chat_id;
                let pairs = master_pairs(o.resume_store@.items, o.new_job.resume_id);
                &&& final(self).same_settings(o)
                &&& final(self).selected_job == o.selected_job
                &&& final(self).selected_chat == Some(cid)
                &&& final(self).next_chat_id == cid + 1
                &&& final(self).jobs_v() == prep_jobs(
                    o.jobs_v(),
                    job_id,
                    cid,
                    pairs.len() > 0,
                    o.backend_url is Some,
                )
                &&& request_view(r) == prep_request(
                    o.jobs_v()[i],
                    o.backend_url,
                    pairs,
                    o.creds.gemini_api_key@,
                )
                &&& final(self).stream == if r is Some {
                    StreamSlot { active: true, job_id: Some(job_id), chat_id: Some(cid) }
                } else {
                    o.stream
                }
            },
    {
        let i = match find_job(&self.jobs, job_id) {
            Some(i) => i,
            None => return None,
        };
        let company = self.jobs[i].company.clone();
        let role = self.jobs[i].role.clone();
        let location = self.jobs[i].location.clone();
        let job_description = self.jobs[i].job_description.clone();
        let master = master_resume_pairs(self.resume_store.items(), self.new_job.resume_id);
        let cid = self.open_streaming_thread(job_id, "Application Prep");
        self.set_research_status(job_id, "Tailoring resume…");
        self.selected_chat = Some(cid);
        if master.len() == 0 {
            self.set_research_status(job_id, "No resume on file");
            self.update_last_message(
                job_id,
                cid,
                0,
                "**Error:** add a resume in Settings → Resume before creating a job.",
                false,
            );
            return None;
        }
        match &self.backend_url {
            Some(url) => {
                let req = StreamRequest::ApplicationTailor {
                    base_url: url.clone(),
                    company,
                    role,
                    location,
                    job_description,
                    master_resumes: master,
                    api_key: self.creds.gemini_api_key.clone(),
                };
                self.stream = StreamSlot { active: true, job_id: Some(job_id), chat_id: Some(cid) };
                Some(req)
            },
            None => {
                self.set_research_status(job_id, "Backend not ready");
                self.update_last_message(
                    job_id,
                    cid,
                    0,
                    "Backend is not ready yet. Try again in a moment.",
                    false,
                );
                None
            },
        }
    }

    /// Opens a "Knockout Screen" thread on job `job_id`, selects it, and
    /// returns the knockout-screen stream to open with the job's tailored
    /// resume. Without a tailored resume the first "Application Prep" thread
    /// gets a nudge ([`knockout_nudged`]) instead; without a backend URL the
    /// placeholder is closed with a notice.
    pub fn start_knockout_screen(&mut self, job_id: usize) -> (r: Option<StreamRequest>)
        requires
            job_pos(old(self).jobs_v(), job_id) matches Some(i) && crate::text::trim(
                match old(self).jobs_v()[i].tailored_resume {
                    Some(t) => t,
                    None => seq![],
                },
            ).len() > 0 ==> old(self).next_chat_id < usize::MAX,
        ensures
            job_pos(old(self).jobs_v(), job_id) is None ==> *final(self) == *old(self) && r is None,
            job_pos(old(self).jobs_v(), job_id) matches Some(i) ==> {
                let o = old(self);
                let j = o.jobs_v()[i];
                let resume = match j.tailored_resume {
                    Some(t) => t,
                    None => seq![],
                };
                let cid = o.next_chat_id;
                let js1 = add_thread(o.jobs_v(), job_id, streaming_thread(cid, "Knockout Screen"@));
                &&& final(self).same_settings(o)
                &&& final(self).selected_job == o.selected_job
                &&& if crate::text::trim(resume).len() == 0 {
                    &&& r is None
                    &&& final(self).jobs_v() == knockout_nudged(o.jobs_v(), job_id)
                    &&& final(self).selected_chat == o.selected_chat
                    &&& final(self).next_chat_id == o.next_chat_id
                    &&& final(self).stream == o.stream
                } else {
                    &&& final(self).selected_chat == Some(cid)
                    &&& final(self).next_chat_id == cid + 1
                    &&& match o.backend_url {
                        Some(url) => {
                            &&& final(self).jobs_v() == js1
                            &&& final(self).stream == (StreamSlot {
                                active: true,
                                job_id: Some(job_id),
                                chat_id: Some(cid),
                            })
                            &&& request_view(r) == Some(
                                RequestView::KnockoutScreen {
                                    base_url: url@,
                                    company: j.company,
                                    role: j.role,
                                    location: j.location,
                                    job_description: j.job_description,
                                    tailored_resume: resume,
                                    api_key: o.creds.gemini_api_key@,
                                },
                            )
                        },
                        None => {
                            &&& r is None
                            &&& final(self).stream == o.stream
                            &&& final(self).jobs_v() == close_last(
                                js1,
                                job_id,
                                cid,
                                "Backend is not ready yet. Try again in a moment."@,
                                false,
                            )
                        },
                    }
                }
            },
    {
        let i = match find_job(&self.jobs, job_id) {
            Some(i) => i,
            None => return None,
        };
        let resume = match &self.jobs[i].tailored_resume {
            Some(t) => t.clone(),
            None => String::new(),
        };
        if crate::text::is_blank_str(resume.as_str()) {
            let ghost before = self.jobs_v();
            let ghost f = |j: JobView| knockout_nudged_job(j);
            match find_titled(&self.jobs[i].chats, "Application Prep") {
                Some(k) => {
                    let m = ChatMsg::ai(
                        "**Knockout screen unavailable.** Run Application Prep first — the screen needs the tailored resume as input.",
                    );
                    let ghost mv = m@;
                    self.jobs[i].chats[k].messages.push(m);
                    assert(msgs_view(self.jobs@[i as int].chats@[k as int].messages@)
                        =~= before[i as int].chats[k as int].messages.push(mv));
                    assert(threads_view(self.jobs@[i as int].chats@) =~= f(before[i as int]).chats);
                },
                None => {
                    assert(f(before[i as int]) == before[i as int]);
                },
            }
            proof {
                lemma_map_job_at(before, job_id, i as int, f);
            }
            assert(self.jobs_v() =~= before.update(i as int, f(before[i as int])));
            return None;
        }
        let company = self.jobs[i].company.clone();
        let role = self.jobs[i].role.clone();
        let location = self.jobs[i].location.clone();
        let job_description = self.jobs[i].job_description.clone();
        let cid = self.open_streaming_thread(job_id, "Knockout Screen");
        self.selected_chat = Some(cid);
        match &self.backend_url {
            Some(url) => {
                let req = StreamRequest::KnockoutScreen {
                    base_url: url.clone(),
                    company,
                    role,
                    location,
                    job_description,
                    tailored_resume: resume,
                    api_key: self.creds.gemini_api_key.clone(),
                };
                self.stream = StreamSlot { active: true, job_id: Some(job_id), chat_id: Some(cid) };
                Some(req)
            },
            None => {
                self.update_last_message(
                    job_id,
                    cid,
                    0,
                    "Backend is not ready yet. Try again in a moment.",
                    false,
                );
                None
            },
        }
    }

    /// Step two of the flow that follows job creation: opens a "Company
    /// Research" thread on job `job_id` (without selecting it) and returns
    /// the research stream to open, fed the job's tailored resume and the
    /// scraper logins. Without a backend URL the placeholder is closed with a
    /// notice instead.
    pub fn start_company_research(&mut self, job_id: usize) -> (r: Option<StreamRequest>)
        requires
            job_pos(old(self).jobs_v(), job_id) is Some ==> old(self).next_chat_id < usize::MAX,
        ensures
            job_pos(old(self).jobs_v(), job_id) is None ==> *final(self) == *old(self) && r is None,
            job_pos(old(self).jobs_v(), job_id) matches Some(i) ==> {
                let o = old(self);
                let j = o.jobs_v()[i];
                let cid = o.next_chat_id;
                let js1 = with_status(
                    add_thread(o.jobs_v(), job_id, streaming_thread(cid, "Company Research"@)),
                    job_id,
                    "Researching…"@,
                );
                &&& final(self).same_settings(o)
                &&& final(self).selected_job == o.selected_job
                &&& final(self).selected_chat == o.selected_chat
                &&& final(self).next_chat_id == cid + 1
                &&& match o.backend_url {
                    Some(url) => {
                        &&& final(self).jobs_v() == js1
                        &&& final(self).stream == (StreamSlot {
                            active: true,
                            job_id: Some(job_id),
                            chat_id: Some(cid),
                        })
                        &&& request_view(r) == Some(
                            RequestView::CompanyResearch {
                                base_url: url@,
                                company: j.company,
                                role: j.role,
                                location: j.location,
                                job_description: j.job_description,
                                tailored_resume: match j.tailored_resume {
                                    Some(t) => t,
                                    None => seq![],
                                },
                                api_key: o.creds.gemini_api_key@,
                                glassdoor_email: o.creds.glassdoor_email@,
                                glassdoor_password: o.creds.glassdoor_password@,
                                indeed_email: o.creds.indeed_email@,
                                indeed_password: o.creds.indeed_password@,
                            },
                        )
                    },
                    None => {
                        &&& r is None
                        &&& final(self).stream == o.stream
                        &&& final(self).jobs_v() == close_last(
                            with_status(js1, job_id, "Backend not ready"@),
                            job_id,
                            cid,
                            "Backend is not ready yet. Try again in a moment."@,
                            false,
                        )
                    },
                }
            },
    {
        let i = match find_job(&self.jobs, job_id) {
            Some(i) => i,
            None => return None,
        };
        let company = self.jobs[i].company.clone();
        let role = self.jobs[i].role.clone();
        let location = self.jobs[i].location.clone();
        let job_description = self.jobs[i].job_description.clone();
        let tailored_resume = match &self.jobs[i].tailored_resume {
            Some(t) => t.clone(),
            None => String::new(),
        };
        let cid = self.open_streaming_thread(job_id, "Company Research");
        self.set_research_status(job_id, "Researching…");
        match &self.backend_url {
            Some(url) => {
                let req = StreamRequest::CompanyResearch {
                    base_url: url.clone(),
                    company,
                    role,
                    location,
                    job_description,
                    tailored_resume,
                    api_key: self.creds.gemini_api_key.clone(),
                    glassdoor_email: self.creds.glassdoor_email.clone(),
                    glassdoor_password: self.creds.glassdoor_password.clone(),
                    indeed_email: self.creds.indeed_email.clone(),
                    indeed_password: self.creds.indeed_password.clone(),
                };
                self.stream = StreamSlot { active: true, job_id: Some(job_id), chat_id: Some(cid) };
                Some(req)
            },
            None => {
                self.set_research_status(job_id, "Backend not ready");
                self.update_last_message(
                    job_id,
                    cid,
                    0,
                    "Backend is not ready yet. Try again in a moment.",
                    false,
                );
                None
            },
        }
    }

    /// Starts the JD analysis of job `job_id`. A trimmed description under
    /// 30 bytes only sets the status "Add a fuller JD first". Otherwise the
    /// job gets [`research_opened`] and the research stream to open is
    /// returned; without a backend URL the placeholder is closed with a
    /// notice instead. The selection does not change.
    pub fn start_research_for_job(&mut self, job_id: usize) -> (r: Option<StreamRequest>)
        requires
            job_pos(old(self).jobs_v(), job_id) matches Some(i) && old(self).jobs_v()[i].chats.len() == 0
                && crate::text::utf8_len(crate::text::trim(old(self).jobs_v()[i].job_description)) >= 30
                ==> old(self).next_chat_id < usize::MAX,
        ensures
            job_pos(old(self).jobs_v(), job_id) is None ==> *final(self) == *old(self) && r is None,
            job_pos(old(self).jobs_v(), job_id) matches Some(i) ==> {
                let o = old(self);
                let j = o.jobs_v()[i];
                let jd = crate::text::trim(j.job_description);
                let tid = research_thread_id(j, o.next_chat_id);
                let js1 = map_job(o.jobs_v(), job_id, |x: JobView| research_opened(x, o.next_chat_id));
                &&& final(self).same_settings(o)
                &&& final(self).selected_job == o.selected_job
                &&& final(self).selected_chat == o.selected_chat
                &&& if crate::text::utf8_len(jd) < 30 {
                    &&& r is None
                    &&& final(self).jobs_v() == with_status(o.jobs_v(), job_id, "Add a fuller JD first"@)
                    &&& final(self).next_chat_id == o.next_chat_id
                    &&& final(self).stream == o.stream
                } else {
                    &&& final(self).next_chat_id == if j.chats.len() > 0 {
                        o.next_chat_id as int
                    } else {
                        o.next_chat_id + 1
                    }
                    &&& match o.backend_url {
                        Some(url) => {
                            &&& final(self).jobs_v() == js1
                            &&& final(self).stream == (StreamSlot {
                                active: true,
                                job_id: Some(job_id),
                                chat_id: Some(tid),
                            })
                            &&& request_view(r) == Some(
                                RequestView::Research {
                                    base_url: url@,
                                    company: j.company,
                                    role: j.role,
                                    job_description: jd,
                                    api_key: o.creds.gemini_api_key@,
                                },
                            )
                        },
                        None => {
                            &&& r is None
                            &&& final(self).stream == o.stream
                            &&& final(self).jobs_v() == close_last(
                                with_status(js1, job_id, "Backend not ready"@),
                                job_id,
                                tid,
                                "Backend not ready. Wait for startup or check Python installation."@,
                                true,
                            )
                        },
                    }
                }
            },
    {
        let i = match find_job(&self.jobs, job_id) {
            Some(i) => i,
            None => return None,
        };
        let jd = crate::text::trimmed(self.jobs[i].job_description.as_str());
        if crate::text::utf8_len_below(jd.as_str(), 30) {
            self.set_research_status(job_id, "Add a fuller JD first");
            return None;
        }
        let company = self.jobs[i].company.clone();
        let role = self.jobs[i].role.clone();
        let ghost before = self.jobs_v();
        let ghost next = self.next_chat_id;
        let ghost f = |x: JobView| research_opened(x, next);
        self.jobs[i].research_status = crate::text::owned("Analyzing…");
        let tid = if self.jobs[i].chats.len() > 0 {
            self.jobs[i].chats[0].messages.push(ChatMsg::ai_streaming());
            assert(msgs_view(self.jobs@[i as int].chats@[0].messages@)
                =~= before[i as int].chats[0].messages.push(ai_streaming_view()));
            assert(threads_view(self.jobs@[i as int].chats@) =~= f(before[i as int]).chats);
            self.jobs[i].chats[0].id
        } else {
            let t = self.next_chat_id;
            self.next_chat_id = self.next_chat_id + 1;
            let mut messages: Vec<ChatMsg> = Vec::new();
            messages.push(ChatMsg::ai_streaming());
            assert(msgs_view(messages@) =~= seq![ai_streaming_view()]);
            self.jobs[i].chats.push(ChatThread { id: t, title: crate::text::owned("Research"), messages });
            assert(threads_view(self.jobs@[i as int].chats@) =~= f(before[i as int]).chats);
            t
        };
        proof {
            lemma_map_job_at(before, job_id, i as int, f);
        }
        assert(self.jobs_v() =~= before.update(i as int, f(before[i as int])));
        match &self.backend_url {
            Some(url) => {
                let req = StreamRequest::Research {
                    base_url: url.clone(),
                    company,
                    role,
                    job_description: jd,
                    api_key: self.creds.gemini_api_key.clone(),
                };
                self.stream = StreamSlot { active: true, job_id: Some(job_id), chat_id: Some(tid) };
                Some(req)
            },
            None => {
                self.set_research_status(job_id, "Backend not ready");
                self.update_last_message(
                    job_id,
                    tid,
                    0,
                    "Backend not ready. Wait for startup or check Python installation.",
                    true,
                );
                None
            },
        }
    }

    /// Creates the job described by the "New job" form ([`new_job_view`]),
    /// selects it, switches to the chat screen, starts Application Prep on
    /// it and resets the form. Returns the new job's id and the tailoring
    /// stream to open. A form without company or role only gets the error
    /// "Company and role are required.".
    pub fn create_job(&mut self) -> (r: Option<(usize, Option<StreamRequest>)>)
        requires
            form_valid(old(self).new_job) ==> old(self).next_job_id < usize::MAX
                && old(self).next_chat_id < usize::MAX - 1,
        ensures
            !form_valid(old(self).new_job) ==> {
                let o = old(self);
                &&& r is None
                &&& final(self).jobs_v() == o.jobs_v()
                &&& final(self).selected_job == o.selected_job
                &&& final(self).selected_chat == o.selected_chat
                &&& final(self).next_chat_id == o.next_chat_id
                &&& final(self).stream == o.stream
                &&& final(self).same_settings(
                    &InterPrepApp {
                        new_job: NewJobForm {
                            error: final(self).new_job.error,
                            ..o.new_job
                        },
                        ..*o
                    },
                )
                &&& crate::desktop::types::opt_view(final(self).new_job.error) == Some(
                    "Company and role are required."@,
                )
            },
            form_valid(old(self).new_job) ==> {
                let o = old(self);
                let jid = o.next_job_id;
                let cid = o.next_chat_id;
                let js0 = o.jobs_v().push(new_job_view(o.new_job, jid, cid));
                let pairs = master_pairs(o.resume_store@.items, o.new_job.resume_id);
                &&& r matches Some((id, req)) && id == jid && request_view(req) == prep_request(
                    js0[job_pos(js0, jid)->0],
                    o.backend_url,
                    pairs,
                    o.creds.gemini_api_key@,
                ) && final(self).stream == if req is Some {
                    StreamSlot { active: true, job_id: Some(jid), chat_id: Some((cid + 1) as usize) }
                } else {
                    o.stream
                }
                &&& final(self).jobs_v() == prep_jobs(
                    js0,
                    jid,
                    (cid + 1) as usize,
                    pairs.len() > 0,
                    o.backend_url is Some,
                )
                &&& final(self).selected_job == Some(jid)
                &&& final(self).selected_chat == Some((cid + 1) as usize)
                &&& final(self).next_job_id == jid + 1
                &&& final(self).next_chat_id == cid + 2
                &&& final(self).screen == Screen::Chat
                &&& !final(self).new_job.open
                &&& final(self).new_job.company@ == Seq::<char>::empty()
                &&& final(self).new_job.role@ == Seq::<char>::empty()
                &&& final(self).new_job.location@ == Seq::<char>::empty()
                &&& final(self).new_job.job_description@ == Seq::<char>::empty()
                &&& final(self).new_job.notes@ == Seq::<char>::empty()
                &&& final(self).new_job.status == o.new_job.status
                &&& final(self).new_job.error is None
                &&& final(self).new_job.resume_id is None
                &&& final(self).draft == o.draft
                &&& final(self).creds == o.creds
                &&& final(self).ui == o.ui
                &&& final(self).backend_url == o.backend_url
                &&& final(self).backend_status == o.backend_status
                &&& final(self).resume_store == o.resume_store
            },
    {
        let company = crate::text::trimmed(self.new_job.company.as_str());
        let role = crate::text::trimmed(self.new_job.role.as_str());
        if company.as_str().is_empty() || role.as_str().is_empty() {
            self.new_job.error = Some(crate::text::owned("Company and role are required."));
            return None;
        }
        let jid = self.next_job_id;
        let avatar: [u8; 4] = if jid % 5 == 0 {
            [0x63u8, 0x5Bu8, 0xFFu8, 0xFFu8]
        } else if jid % 5 == 1 {
            [0x22u8, 0xC5u8, 0x5Eu8, 0xFFu8]
        } else if jid % 5 == 2 {
            [0xF5u8, 0x9Eu8, 0x0Bu8, 0xFFu8]
        } else if jid % 5 == 3 {
            [0xEFu8, 0x44u8, 0x44u8, 0xFFu8]
        } else {
            [0xECu8, 0x48u8, 0x99u8, 0xFFu8]
        };
        let cid = self.alloc_chat_id();
        let jd = crate::text::trimmed(self.new_job.job_description.as_str());
        let research_status = if jd.as_str().is_empty() {
            crate::text::owned("No JD added")
        } else {
            crate::text::owned("Queued")
        };
        let mut stage_notes: Vec<StageNote> = Vec::new();
        stage_notes.push(StageNote::new(0, "Submitted", self.new_job.notes.as_str()));
        let mut messages: Vec<ChatMsg> = Vec::new();
        messages.push(
            ChatMsg::ai("Ready to help you prepare. Share the job description or ask me anything."),
        );
        let mut chats: Vec<ChatThread> = Vec::new();
        chats.push(ChatThread { id: cid, title: crate::text::owned("General Prep"), messages });
        let job = Job {
            id: jid,
            company,
            role,
            location: crate::text::trimmed(self.new_job.location.as_str()),
            job_description: jd,
            research_status,
            status: self.new_job.status,
            current_stage: 0,
            stage_notes,
            chats,
            avatar_color: avatar,
            sidebar_expanded: true,
            archived: false,
            tailored_resume: None,
            resume_docx_path: None,
            scorecard: None,
        };
        proof {
            assert(crate::desktop::types::notes_view(job.stage_notes@) =~= new_job_view(
                self.new_job,
                jid,
                cid,
            ).stage_notes);
            assert(msgs_view(job.chats@[0].messages@) =~= new_job_view(self.new_job, jid, cid).chats[0].messages);
            assert(threads_view(job.chats@) =~= new_job_view(self.new_job, jid, cid).chats);
            assert(job@ == new_job_view(self.new_job, jid, cid));
        }
        let ghost before = self.jobs_v();
        self.next_job_id = self.next_job_id + 1;
        self.jobs.push(job);
        assert(self.jobs_v() =~= before.push(new_job_view(old(self).new_job, jid, cid)));
        proof {
            lemma_job_pos_from(self.jobs_v(), jid, 0);
            assert(self.jobs_v()[self.jobs_v().len() - 1].id == jid);
        }
        self.selected_job = Some(jid);
        self.selected_chat = Some(cid);
        self.screen = Screen::Chat;
        let req = self.start_application_prep(jid);
        self.new_job.open = false;
        self.new_job.company = String::new();
        self.new_job.role = String::new();
        self.new_job.location = String::new();
        self.new_job.job_description = String::new();
        self.new_job.notes = String::new();
        self.new_job.error = None;
        self.new_job.resume_id = None;
        Some((jid, req))
    }

    /// Ends the stream of thread `cid` of job `jid` (see [`end_job`]) and
    /// returns the report to persist and whether it was an Application Prep
    /// stream.
    pub fn end_stream_on_thread(&mut self, jid: usize, cid: usize, error: Option<&str>) -> (r: (
        Option<String>,
        bool,
    ))
        ensures
            final(self).jobs_v() == map_job(
                old(self).jobs_v(),
                jid,
                |j: JobView|
                    end_job(
                        j,
                        cid,
                        match error {
                            Some(e) => Some(e@),
                            None => None,
                        },
                    ),
            ),
            final(self).only_jobs_changed(old(self)),
            error is None ==> crate::desktop::types::opt_view(r.0) == end_report(old(self).jobs_v(), jid, cid),
            error is Some ==> r.0 is None,
            r.1 == (error is None && end_was_prep(old(self).jobs_v(), jid, cid)),
    {
        let ghost before = self.jobs_v();
        let ghost err = match error {
            Some(e) => Some(e@),
            None => None,
        };
        let ghost f = |j: JobView| end_job(j, cid, err);
        match find_job(&self.jobs, jid) {
            None => {
                return (None, false);
            },
            Some(i) => {
                proof {
                    lemma_map_job_at(before, jid, i as int, f);
                }
                match find_thread(&self.jobs[i].chats, cid) {
                    None => {
                        assert(before.update(i as int, f(before[i as int])) =~= before);
                        return (None, false);
                    },
                    Some(k) => {
                        let is_cr = crate::text::str_eq(
                            self.jobs[i].chats[k].title.as_str(),
                            "Company Research",
                        );
                        let is_ap = crate::text::str_eq(
                            self.jobs[i].chats[k].title.as_str(),
                            "Application Prep",
                        );
                        let n = self.jobs[i].chats[k].messages.len();
                        let mut report: Option<String> = None;
                        if n > 0 {
                            match error {
                                None => {
                                    self.jobs[i].chats[k].messages[n - 1].streaming = false;
                                    if is_cr && !crate::text::is_blank_str(
                                        self.jobs[i].chats[k].messages[n - 1].text.as_str(),
                                    ) {
                                        report = Some(self.jobs[i].chats[k].messages[n - 1].text.clone());
                                    }
                                },
                                Some(e) => {
                                    if self.jobs[i].chats[k].messages[n - 1].streaming {
                                        let mut t = crate::text::owned("**Error:** ");
                                        crate::text::push_str(&mut t, e);
                                        self.jobs[i].chats[k].messages[n - 1].text = t;
                                        self.jobs[i].chats[k].messages[n - 1].streaming = false;
                                    }
                                },
                            }
                            assert(crate::desktop::types::strings_view(
                                self.jobs@[i as int].chats@[k as int].messages@[n - 1].logs@,
                            ) =~= before[i as int].chats[k as int].messages[n - 1].logs);
                            assert(self.jobs@[i as int].chats@[k as int].messages@[n - 1]@ =~= end_msg(
                                before[i as int].chats[k as int].messages[n - 1],
                                err,
                            ));
                        }
                        let failed = error.is_some();
                        let mut finished_prep = false;
                        if is_cr {
                            if failed {
                                self.jobs[i].research_status = crate::text::owned("Research failed");
                            } else {
                                self.jobs[i].research_status = crate::text::owned("Ready");
                            }
                        } else if is_ap {
                            if failed {
                                self.jobs[i].research_status = crate::text::owned("Tailor failed");
                            } else {
                                self.jobs[i].research_status = crate::text::owned("Resume tailored");
                                finished_prep = true;
                            }
                        } else if crate::text::str_eq(
                            self.jobs[i].research_status.as_str(),
                            "Analyzing…",
                        ) {
                            if failed {
                                self.jobs[i].research_status = crate::text::owned("Analysis failed");
                            } else {
                                self.jobs[i].research_status = crate::text::owned("Analysis ready");
                            }
                        }
                        let ghost t = before[i as int].chats[k as int];
                        let ghost t2 = if t.messages.len() > 0 {
                            ThreadView {
                                messages: t.messages.update(
                                    t.messages.len() - 1,
                                    end_msg(t.messages[t.messages.len() - 1], err),
                                ),
                                ..t
                            }
                        } else {
                            t
                        };
                        assert(msgs_view(self.jobs@[i as int].chats@[k as int].messages@) =~= t2.messages);
                        assert(threads_view(self.jobs@[i as int].chats@) =~= before[i as int].chats.update(
                            k as int,
                            t2,
                        ));
                        assert(self.jobs_v() =~= before.update(i as int, f(before[i as int])));
                        return (report, finished_prep);
                    },
                }
            },
        }
    }

    /// Applies one polled stream event. Events go to the thread of the open
    /// stream; without one, the stream counts as done and the remaining
    /// events of the poll are dropped.
    pub fn handle_stream_event(&mut self, poll: &mut PollState, event: ChatEvent) -> (r: EventStep)
        ensures
            final(self).only_jobs_changed(old(self)),
            match (old(self).stream.job_id, old(self).stream.chat_id) {
                (Some(jid), Some(cid)) => {
                    let js = old(self).jobs_v();
                    &&& !r.stop
                    &&& match event {
                        ChatEvent::Token(tok) => {
                            &&& final(self).jobs_v() == map_last_msg(
                                js,
                                jid,
                                cid,
                                |m: MsgView| last_msg_op(m, 1, tok@, false),
                            )
                            &&& *final(poll) == *old(poll)
                            &&& r.follow_up is Nothing
                        },
                        ChatEvent::Log(line) => {
                            &&& final(self).jobs_v() == map_last_msg(
                                js,
                                jid,
                                cid,
                                |m: MsgView| last_msg_op(m, 2, line@, false),
                            )
                            &&& *final(poll) == *old(poll)
                            &&& r.follow_up is Nothing
                        },
                        ChatEvent::Scorecard(card) => {
                            &&& final(self).jobs_v() == map_job(
                                js,
                                jid,
                                |j: JobView| JobView { scorecard: Some(card@), ..j },
                            )
                            &&& final(poll).should_save_jobs
                            &&& final(poll).stream_done == old(poll).stream_done
                            &&& final(poll).chain_company_research_for == old(
                                poll,
                            ).chain_company_research_for
                            &&& r.follow_up is Nothing
                        },
                        ChatEvent::ResumeDocx(bytes) => {
                            &&& final(self).jobs_v() == js
                            &&& *final(poll) == *old(poll)
                            &&& r.follow_up matches EventFollowUp::SaveResumeDocx { job_id, bytes: b }
                                && job_id == jid && b@ == bytes@
                        },
                        ChatEvent::TailoredResume(text) => {
                            &&& final(self).jobs_v() == map_job(
                                js,
                                jid,
                                |j: JobView| JobView { tailored_resume: Some(text@), ..j },
                            )
                            &&& final(poll).should_save_jobs
                            &&& final(poll).stream_done == old(poll).stream_done
                            &&& final(poll).chain_company_research_for == old(
                                poll,
                            ).chain_company_research_for
                            &&& r.follow_up is Nothing
                        },
                        ChatEvent::Done => {
                            &&& final(self).jobs_v() == map_job(
                                js,
                                jid,
                                |j: JobView| end_job(j, cid, None),
                            )
                            &&& final(poll).should_save_jobs
                            &&& final(poll).stream_done
                            &&& final(poll).chain_company_research_for == if end_was_prep(
                                js,
                                jid,
                                cid,
                            ) {
                                Some(jid)
                            } else {
                                old(poll).chain_company_research_for
                            }
                            &&& match end_report(js, jid, cid) {
                                Some(rep) => r.follow_up matches EventFollowUp::SaveCompanyReport {
                                    job_id,
                                    markdown,
                                } && job_id == jid && markdown@ == rep,
                                None => r.follow_up is Nothing,
                            }
                        },
                        ChatEvent::Error(e) => {
                            &&& final(self).jobs_v() == map_job(
                                js,
                                jid,
                                |j: JobView| end_job(j, cid, Some(e@)),
                            )
                            &&& final(poll).should_save_jobs
                            &&& final(poll).stream_done
                            &&& final(poll).chain_company_research_for == old(
                                poll,
                            ).chain_company_research_for
                            &&& r.follow_up is Nothing
                        },
                    }
                },
                _ => {
                    &&& r.stop
                    &&& r.follow_up is Nothing
                    &&& final(self).jobs_v() == old(self).jobs_v()
                    &&& final(poll).stream_done
                    &&& final(poll).should_save_jobs == old(poll).should_save_jobs
                    &&& final(poll).chain_company_research_for == old(
                        poll,
                    ).chain_company_research_for
                },
            },
    {
        let (jid, cid) = match (self.stream.job_id, self.stream.chat_id) {
            (Some(j), Some(c)) => (j, c),
            _ => {
                poll.stream_done = true;
                return EventStep { stop: true, follow_up: EventFollowUp::Nothing };
            },
        };
        match event {
            ChatEvent::Token(tok) => {
                self.update_last_message(jid, cid, 1, tok.as_str(), false);
                EventStep { stop: false, follow_up: EventFollowUp::Nothing }
            },
            ChatEvent::Log(line) => {
                self.update_last_message(jid, cid, 2, line.as_str(), false);
                EventStep { stop: false, follow_up: EventFollowUp::Nothing }
            },
            ChatEvent::Scorecard(card) => {
                self.set_job_text_field(jid, 1, card);
                poll.should_save_jobs = true;
                EventStep { stop: false, follow_up: EventFollowUp::Nothing }
            },
            ChatEvent::ResumeDocx(bytes) => {
                EventStep { stop: false, follow_up: EventFollowUp::SaveResumeDocx { job_id: jid, bytes } }
            },
            ChatEvent::TailoredResume(text) => {
                self.set_job_text_field(jid, 0, text);
                poll.should_save_jobs = true;
                EventStep { stop: false, follow_up: EventFollowUp::Nothing }
            },
            ChatEvent::Done => {
                let (report, finished_prep) = self.end_stream_on_thread(jid, cid, None);
                if finished_prep {
                    poll.chain_company_research_for = Some(jid);
                }
                poll.should_save_jobs = true;
                poll.stream_done = true;
                let follow_up = match report {
                    Some(markdown) => EventFollowUp::SaveCompanyReport { job_id: jid, markdown },
                    None => EventFollowUp::Nothing,
                };
                EventStep { stop: false, follow_up }
            },
            ChatEvent::Error(e) => {
                self.end_stream_on_thread(jid, cid, Some(e.as_str()));
                poll.should_save_jobs = true;
                poll.stream_done = true;
                EventStep { stop: false, follow_up: EventFollowUp::Nothing }
            },
        }
    }

    /// Records where the tailored `.docx` of job `jid` was saved (`None`
    /// when saving failed, which changes nothing).
    pub fn record_resume_docx(&mut self, poll: &mut PollState, jid: usize, saved_path: Option<String>)
        ensures
            final(self).only_jobs_changed(old(self)),
            match saved_path {
                Some(p) => final(self).jobs_v() == map_job(
                    old(self).jobs_v(),
                    jid,
                    |j: JobView| JobView { resume_docx_path: Some(p@), ..j },
                ) && final(poll).should_save_jobs,
                None => final(self).jobs_v() == old(self).jobs_v() && final(poll).should_save_jobs
                    == old(poll).should_save_jobs,
            },
            final(poll).stream_done == old(poll).stream_done,
            final(poll).chain_company_research_for == old(poll).chain_company_research_for,
    {
        if let Some(p) = saved_path {
            self.set_job_text_field(jid, 2, p);
            poll.should_save_jobs = true;
        }
    }

    /// Closes the stream slot once a poll found the stream done.
    pub fn finish_poll(&mut self, poll: &PollState)
        ensures
            final(self).jobs_v() == old(self).jobs_v(),
            final(self).selected_job == old(self).selected_job,
            final(self).selected_chat == old(self).selected_chat,
            poll.stream_done ==> final(self).stream == (StreamSlot {
                active: false,
                job_id: None,
                chat_id: None,
            }),
            !poll.stream_done ==> final(self).stream == old(self).stream,
            final(self).draft == old(self).draft,
            final(self).new_job == old(self).new_job,
            final(self).next_chat_id == old(self).next_chat_id,
            final(self).next_job_id == old(self).next_job_id,
            final(self).backend_url == old(self).backend_url,
    {
        if poll.stream_done {
            self.stream = StreamSlot { active: false, job_id: None, chat_id: None };
        }
    }

    /// Applies the outcome of the backend start-up: its base URL, or the
    /// error that stopped it.
    pub fn on_sidecar_result(&mut self, result: Result<String, String>)
        ensures
            final(self).jobs_v() == old(self).jobs_v(),
            final(self).stream == old(self).stream,
            match result {
                Ok(url) => final(self).backend_url == Some(url) && final(self).backend_status
                    == BackendStatus::Ready,
                Err(e) => final(self).backend_url == old(self).backend_url && final(self).backend_status
                    == BackendStatus::Failed(e),
            },
    {
        match result {
            Ok(url) => {
                self.backend_url = Some(url);
                self.backend_status = BackendStatus::Ready;
            },
            Err(e) => {
                self.backend_status = BackendStatus::Failed(e);
            },
        }
    }

    /// Sets the archive flag of the first job with id `job_id`.
    fn set_job_archived(&mut self, job_id: usize, archived: bool)
        ensures
            final(self).jobs_v() == set_archived(old(self).jobs_v(), job_id, archived),
            final(self).same_except_jobs_selection(old(self)),
            final(self).selected_job == old(self).selected_job,
            final(self).selected_chat == old(self).selected_chat,
    {
        let ghost before = self.jobs_v();
        match find_job(&self.jobs, job_id) {
            Some(i) => {
                self.jobs[i].archived = archived;
                if archived {
                    self.jobs[i].sidebar_expanded = false;
                }
                assert(self.jobs@[i as int]@ == with_archived(before[i as int], archived));
                assert(self.jobs_v() =~= before.update(i as int, with_archived(before[i as int], archived)));
            },
            None => {},
        }
    }

    /// Archives a job (hidden from the main list, kept on disk). When it was
    /// the selected job the selection moves to [`default_selection`]. The
    /// caller persists the jobs afterwards.
    pub fn archive_job(&mut self, job_id: usize)
        ensures
            final(self).jobs_v() == set_archived(old(self).jobs_v(), job_id, true),
            final(self).same_except_jobs_selection(old(self)),
            old(self).selected_job == Some(job_id) ==> (final(self).selected_job, final(self).selected_chat)
                == default_selection(final(self).jobs_v()),
            old(self).selected_job != Some(job_id) ==> final(self).selected_job == old(self).selected_job
                && final(self).selected_chat == old(self).selected_chat,
    {
        self.set_job_archived(job_id, true);
        if self.selected_job == Some(job_id) {
            let (j, c) = compute_default_selection(&self.jobs);
            self.selected_job = j;
            self.selected_chat = c;
        }
    }

    /// A click on the sidebar row of job `job_id`: the selected job only
    /// expands or collapses; another job becomes selected, with its first
    /// thread ([`row_click_chat`]), and expands or collapses.
    pub fn click_job_row(&mut self, job_id: usize)
        ensures
            final(self).jobs_v() == toggled_expansion(old(self).jobs_v(), job_id),
            final(self).same_except_jobs_selection(old(self)),
            old(self).selected_job == Some(job_id) ==> final(self).selected_job == old(self).selected_job
                && final(self).selected_chat == old(self).selected_chat,
            old(self).selected_job != Some(job_id) ==> final(self).selected_job == Some(job_id)
                && final(self).selected_chat == row_click_chat(old(self).jobs_v(), job_id, old(self).selected_chat),
    {
        let ghost before = self.jobs_v();
        let pos = find_job(&self.jobs, job_id);
        if self.selected_job != Some(job_id) {
            self.selected_job = Some(job_id);
            if let Some(i) = pos {
                if self.jobs[i].chats.len() > 0 {
                    self.selected_chat = Some(self.jobs[i].chats[0].id);
                }
            }
        }
        if let Some(i) = pos {
            let e = self.jobs[i].sidebar_expanded;
            self.jobs[i].sidebar_expanded = !e;
            assert(self.jobs@[i as int]@ == JobView { sidebar_expanded: !before[i as int].sidebar_expanded, ..before[i as int] });
            assert(self.jobs_v() =~= toggled_expansion(before, job_id));
        } else {
            assert(self.jobs_v() =~= before);
        }
    }

    /// Restores an archived job to the main list. The caller persists the
    /// jobs afterwards.
    pub fn unarchive_job(&mut self, job_id: usize)
        ensures
            final(self).jobs_v() == set_archived(old(self).jobs_v(), job_id, false),
            final(self).same_except_jobs_selection(old(self)),
            final(self).selected_job == old(self).selected_job,
            final(self).selected_chat == old(self).selected_chat,
    {
        self.set_job_archived(job_id, false);
    }

    /// Permanently removes every job with id `job_id` and its threads. When it
    /// was the selected job the selection moves to [`default_selection`].
    /// The caller persists the jobs afterwards.
    pub fn delete_job(&mut self, job_id: usize)
        ensures
            final(self).jobs_v() == without_job(old(self).jobs_v(), job_id),
            final(self).same_except_jobs_selection(old(self)),
            old(self).selected_job == Some(job_id) ==> (final(self).selected_job, final(self).selected_chat)
                == default_selection(final(self).jobs_v()),
            old(self).selected_job != Some(job_id) ==> final(self).selected_job == old(self).selected_job
                && final(self).selected_chat == old(self).selected_chat,
    {
        let mut old_jobs: Vec<Job> = Vec::new();
        std::mem::swap(&mut old_jobs, &mut self.jobs);
        let ghost all = jobs_view(old_jobs@);
        let n = old_jobs.len();
        let mut kept: Vec<Job> = Vec::new();
        assert(all.take(0) =~= Seq::<JobView>::empty());
        while old_jobs.len() > 0
            invariant
                old_jobs.len() <= n,
                all.len() == n,
                jobs_view(old_jobs@) == all.skip(n - old_jobs.len()),
                jobs_view(kept@) == without_job(all.take(n - old_jobs.len()), job_id),
            decreases old_jobs.len(),
        {
            let ghost done = (n - old_jobs.len()) as int;
            let ghost before = kept@;
            let ghost ob = old_jobs@;
            assert(jobs_view(ob)[0] == ob[0]@);
            let j = old_jobs.remove(0);
            assert(j@ == all[done]);
            assert(old_jobs@ =~= ob.skip(1));
            assert(jobs_view(ob.skip(1)) =~= jobs_view(ob).skip(1));
            assert(jobs_view(old_jobs@) =~= all.skip(done + 1));
            assert(all.take(done + 1).drop_last() =~= all.take(done));
            if j.id != job_id {
                kept.push(j);
                assert(jobs_view(kept@) =~= jobs_view(before).push(all[done]));
            }
        }
        assert(all.take(n as int) =~= all);
        self.jobs = kept;
        if self.selected_job == Some(job_id) {
            let (j, c) = compute_default_selection(&self.jobs);
            self.selected_job = j;
            self.selected_chat = c;
        }
    }
}

// ─── Editors and forms ──────────────────────────────────────────────────────

impl InterPrepApp {
    /// Everything but the UI state is the same in `self` and `o`.
    pub open spec fn only_ui_changed(&self, o: &Self) -> bool {
        &&& self.jobs == o.jobs
        &&& self.selected_job == o.selected_job
        &&& self.selected_chat == o.selected_chat
        &&& self.screen == o.screen
        &&& self.draft == o.draft
        &&& self.new_job == o.new_job
        &&& self.creds == o.creds
        &&& self.next_job_id == o.next_job_id
        &&& self.next_chat_id == o.next_chat_id
        &&& self.backend_url == o.backend_url
        &&& self.backend_status == o.backend_status
        &&& self.stream == o.stream
        &&& self.resume_store == o.resume_store
    }

    /// Opens the stage editor on stage note `si` of the job at position
    /// `ji`, loaded with that note's outcome and notes.
    pub fn open_stage_editor(&mut self, ji: usize, si: usize)
        requires
            ji < old(self).jobs@.len(),
            si < old(self).jobs@[ji as int].stage_notes@.len(),
        ensures
            final(self).only_ui_changed(old(self)),
            final(self).ui == (UiState {
                se_job: Some(ji),
                se_stage: Some(si),
                se_outcome: old(self).jobs@[ji as int].stage_notes@[si as int].outcome,
                se_notes: old(self).jobs@[ji as int].stage_notes@[si as int].notes,
                ..old(self).ui
            }),
    {
        let outcome = self.jobs[ji].stage_notes[si].outcome.clone();
        let notes = self.jobs[ji].stage_notes[si].notes.clone();
        self.ui.se_job = Some(ji);
        self.ui.se_stage = Some(si);
        self.ui.se_outcome = outcome;
        self.ui.se_notes = notes;
    }

    /// Closes the stage editor without saving.
    pub fn close_stage_editor(&mut self)
        ensures
            final(self).only_ui_changed(old(self)),
            final(self).ui == (UiState { se_job: None, se_stage: None, ..old(self).ui }),
    {
        self.ui.se_job = None;
        self.ui.se_stage = None;
    }

    /// Saves the stage editor into its stage note, moves the job's current
    /// stage up to that stage when it is not past it yet, and closes the
    /// editor. Nothing is saved when the editor is not open.
    pub fn save_stage_edit(&mut self)
        requires
            match (old(self).ui.se_job, old(self).ui.se_stage) {
                (Some(ji), Some(si)) => ji < old(self).jobs@.len() && si < old(self).jobs@[ji as int].stage_notes@.len(),
                _ => true,
            },
        ensures
            match (old(self).ui.se_job, old(self).ui.se_stage) {
                (Some(ji), Some(si)) => {
                    let o = old(self);
                    let j = o.jobs_v()[ji as int];
                    let n = j.stage_notes[si as int];
                    &&& final(self).jobs_v() == o.jobs_v().update(
                        ji as int,
                        JobView {
                            stage_notes: j.stage_notes.update(
                                si as int,
                                crate::desktop::types::StageNoteView {
                                    outcome: o.ui.se_outcome@,
                                    notes: o.ui.se_notes@,
                                    ..n
                                },
                            ),
                            current_stage: if si >= j.current_stage {
                                si
                            } else {
                                j.current_stage
                            },
                            ..j
                        },
                    )
                    &&& final(self).same_except_jobs_selection(
                        &InterPrepApp { ui: UiState { se_job: None, se_stage: None, ..old(self).ui }, ..*old(self) },
                    )
                },
                _ => *final(self) == *old(self),
            },
            final(self).selected_job == old(self).selected_job,
            final(self).selected_chat == old(self).selected_chat,
    {
        let ji = match self.ui.se_job {
            Some(j) => j,
            None => return,
        };
        let si = match self.ui.se_stage {
            Some(s) => s,
            None => return,
        };
        let ghost before = self.jobs_v();
        let outcome = self.ui.se_outcome.clone();
        let notes = self.ui.se_notes.clone();
        self.jobs[ji].stage_notes[si].outcome = outcome;
        self.jobs[ji].stage_notes[si].notes = notes;
        if si >= self.jobs[ji].current_stage {
            self.jobs[ji].current_stage = si;
        }
        assert(crate::desktop::types::notes_view(self.jobs@[ji as int].stage_notes@) =~= before[ji as int].stage_notes.update(
            si as int,
            crate::desktop::types::StageNoteView {
                outcome: old(self).ui.se_outcome@,
                notes: old(self).ui.se_notes@,
                ..before[ji as int].stage_notes[si as int]
            },
        ));
        assert(self.jobs_v() =~= before.update(ji as int, self.jobs@[ji as int]@));
        self.ui.se_job = None;
        self.ui.se_stage = None;
    }

    /// Takes the resume read from an uploaded file (`None`: it could not be
    /// read) into the library, or sets the form error: a text under 80
    /// bytes is too short to be a usable resume.
    pub fn accept_uploaded_resume(&mut self, read: Option<(String, String)>)
        requires
            old(self).resume_store@.next_id < u64::MAX,
        ensures
            final(self).jobs == old(self).jobs,
            final(self).selected_job == old(self).selected_job,
            final(self).selected_chat == old(self).selected_chat,
            final(self).creds == old(self).creds,
            final(self).next_chat_id == old(self).next_chat_id,
            final(self).stream == old(self).stream,
            final(self).ui == (UiState { resume_form_error: final(self).ui.resume_form_error, ..old(self).ui }),
            match read {
                Some((name, text)) => if crate::text::utf8_len(text@) >= 80 {
                    &&& final(self).ui.resume_form_error is None
                    &&& final(self).resume_store@.items == old(self).resume_store@.items.push(
                        ResumeView { id: old(self).resume_store@.next_id, name: name@, text: text@ },
                    )
                    &&& final(self).resume_store@.next_id == old(self).resume_store@.next_id + 1
                } else {
                    &&& crate::desktop::types::opt_view(final(self).ui.resume_form_error) == Some(
                        "That file is too short to be a usable resume."@,
                    )
                    &&& final(self).resume_store == old(self).resume_store
                },
                None => {
                    &&& crate::desktop::types::opt_view(final(self).ui.resume_form_error) == Some(
                        "Could not read that file. Try .txt, .md, or .docx."@,
                    )
                    &&& final(self).resume_store == old(self).resume_store
                },
            },
    {
        self.ui.resume_form_error = None;
        match read {
            Some((name, text)) => {
                if !crate::text::utf8_len_below(text.as_str(), 80) {
                    self.resume_store.add(name, text);
                } else {
                    self.ui.resume_form_error = Some(
                        crate::text::owned("That file is too short to be a usable resume."),
                    );
                }
            },
            None => {
                self.ui.resume_form_error = Some(
                    crate::text::owned("Could not read that file. Try .txt, .md, or .docx."),
                );
            },
        }
    }

    /// Called once per frame after the modals were drawn: whether the
    /// settings modal just closed, in which case the credentials are to be
    /// saved. Remembers whether it is open for the next frame.
    pub fn settings_frame_end(&mut self) -> (save: bool)
        ensures
            save == (old(self).ui.settings_open_prev && !old(self).ui.show_settings),
            final(self).only_ui_changed(old(self)),
            final(self).ui == (UiState { settings_open_prev: old(self).ui.show_settings, ..old(self).ui }),
    {
        let save = self.ui.settings_open_prev && !self.ui.show_settings;
        self.ui.settings_open_prev = self.ui.show_settings;
        save
    }

    /// Persists the credentials to the keychain `kc`
    /// ([`Credentials::save`]).
    pub fn save_credentials(&self, kc: &mut crate::keychain::Keychain)
        ensures
            final(kc).log@.len() == old(kc).log@.len() + 5,
            final(kc).log@.take(old(kc).log@.len() as int) == old(kc).log@,
            forall|i: int|
                0 <= i < 5 ==> crate::keychain::is_op_on(
                    #[trigger] final(kc).log@[old(kc).log@.len() + i],
                    crate::desktop::credentials::service_spec(),
                    crate::desktop::credentials::field_names_spec()[i],
                    crate::desktop::credentials::op_for(self.creds.values()[i]),
                ),
    {
        self.creds.save(kc);
    }

    /// Opens the report viewer on `text`.
    pub fn open_report(&mut self, text: String)
        ensures
            final(self).only_ui_changed(old(self)),
            final(self).ui == (UiState { show_report_modal: true, report_modal_text: text, ..old(self).ui }),
    {
        self.ui.show_report_modal = true;
        self.ui.report_modal_text = text;
    }
}

} // verus!
