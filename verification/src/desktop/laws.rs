//! Properties of the desktop program that span its operations: what the
//! resume library, archiving, deleting, creating jobs, the timeline and the
//! chat layout keep true.
use vstd::prelude::*;
use crate::desktop::app::{
    add_thread, close_last, default_selection, job_pos, job_pos_from, map_job, new_job_view,
    prep_jobs, set_archived, streaming_thread, unarchived_pos, unarchived_pos_from, with_status,
    without_job, NewJobForm,
};
use crate::desktop::backend_client::{payload_step, read_step_spec, stream_events, EventView, StepView};
use crate::desktop::app::{end_job, history_of, thread_pos};
use crate::desktop::recorder::int_sample_spec;
use crate::desktop::types::{MsgRole, MsgView};
use crate::sse::PayloadView;
use crate::desktop::markdown::{BlockView, blocks_of, line_block, lines, markdown_blocks_spec};
use crate::desktop::storage::{ResumeStoreView, ResumeView, ids_below_next, without_resume};
use crate::desktop::types::JobView;

verus! {

// ─── Resume library ─────────────────────────────────────────────────────────

/// Removing by id keeps exactly the resumes with other ids, in order.
pub proof fn law_remove_resume_is_filter(items: Seq<ResumeView>, id: u64)
    ensures
        without_resume(items, id) == items.filter(|r: ResumeView| r.id != id),
    decreases items.len(),
{
    reveal(Seq::filter);
    if items.len() > 0 {
        law_remove_resume_is_filter(items.drop_last(), id);
    }
}

/// No resume with the removed id is left.
pub proof fn law_remove_resume_leaves_none(items: Seq<ResumeView>, id: u64)
    ensures
        forall|k: int|
            0 <= k < without_resume(items, id).len() ==> #[trigger] without_resume(items, id)[k].id
                != id,
{
    law_remove_resume_is_filter(items, id);
    let p = |r: ResumeView| r.id != id;
    assert forall|k: int| 0 <= k < without_resume(items, id).len() implies #[trigger] without_resume(
        items,
        id,
    )[k].id != id by {
        items.lemma_filter_pred(p, k);
    }
}

proof fn lemma_remove_absent(items: Seq<ResumeView>, id: u64)
    requires
        forall|k: int| 0 <= k < items.len() ==> #[trigger] items[k].id != id,
    ensures
        without_resume(items, id) == items,
    decreases items.len(),
{
    if items.len() > 0 {
        lemma_remove_absent(items.drop_last(), id);
        assert(items.drop_last().push(items.last()) =~= items);
    }
}

/// In a library whose ids are all below its next id, removing the resume
/// just added gives the library back as it was.
pub proof fn law_add_then_remove_resume(s: ResumeStoreView, name: Seq<char>, text: Seq<char>)
    requires
        ids_below_next(s),
    ensures
        without_resume(s.items.push(ResumeView { id: s.next_id, name, text }), s.next_id) == s.items,
{
    assert forall|k: int| 0 <= k < s.items.len() implies #[trigger] s.items[k].id != s.next_id by {
        assert(s.items[k].id < s.next_id);
    }
    lemma_remove_absent(s.items, s.next_id);
    let added = s.items.push(ResumeView { id: s.next_id, name, text });
    assert(added.drop_last() =~= s.items);
}

/// Adding keeps every id below the next id.
pub proof fn law_add_resume_keeps_ids_fresh(s: ResumeStoreView, name: Seq<char>, text: Seq<char>)
    requires
        ids_below_next(s),
        s.next_id < u64::MAX,
    ensures
        ids_below_next(
            ResumeStoreView {
                items: s.items.push(ResumeView { id: s.next_id, name, text }),
                next_id: (s.next_id + 1) as u64,
            },
        ),
{
    let t = ResumeStoreView {
        items: s.items.push(ResumeView { id: s.next_id, name, text }),
        next_id: (s.next_id + 1) as u64,
    };
    assert forall|i: int| 0 <= i < t.items.len() implies #[trigger] t.items[i].id < t.next_id by {
        if i < s.items.len() {
            assert(t.items[i] == s.items[i]);
        }
    }
}

/// Removing keeps every id below the next id.
pub proof fn law_remove_resume_keeps_ids_fresh(s: ResumeStoreView, id: u64)
    requires
        ids_below_next(s),
    ensures
        ids_below_next(ResumeStoreView { items: without_resume(s.items, id), next_id: s.next_id }),
{
    law_remove_resume_is_filter(s.items, id);
    let p = |r: ResumeView| r.id != id;
    let f = s.items.filter(p);
    assert forall|i: int| 0 <= i < f.len() implies #[trigger] f[i].id < s.next_id by {
        assert(f.contains(f[i]));
        s.items.lemma_filter_contains_rev(p, f[i]);
        let j = choose|j: int| 0 <= j < s.items.len() && s.items[j] == f[i];
        assert(s.items[j].id < s.next_id);
    }
}

// ─── Jobs ───────────────────────────────────────────────────────────────────

/// Deleting keeps exactly the jobs with other ids, in order.
pub proof fn law_delete_is_filter(js: Seq<JobView>, id: usize)
    ensures
        without_job(js, id) == js.filter(|j: JobView| j.id != id),
    decreases js.len(),
{
    reveal(Seq::filter);
    if js.len() > 0 {
        law_delete_is_filter(js.drop_last(), id);
    }
}

/// After a delete no job has the deleted id, and every other job is still
/// there.
pub proof fn law_delete_removes_only_that_job(js: Seq<JobView>, id: usize)
    ensures
        forall|k: int| 0 <= k < without_job(js, id).len() ==> #[trigger] without_job(js, id)[k].id != id,
        forall|k: int| 0 <= k < js.len() && js[k].id != id ==> without_job(js, id).contains(#[trigger] js[k]),
{
    law_delete_is_filter(js, id);
    let p = |j: JobView| j.id != id;
    assert forall|k: int| 0 <= k < without_job(js, id).len() implies #[trigger] without_job(js, id)[k].id
        != id by {
        js.lemma_filter_pred(p, k);
    }
    assert forall|k: int| 0 <= k < js.len() && js[k].id != id implies without_job(js, id).contains(
        #[trigger] js[k],
    ) by {
        js.lemma_filter_contains(p, k);
    }
}

/// Two job lists with the same ids place every id at the same position.
pub proof fn lemma_job_pos_same_ids(a: Seq<JobView>, b: Seq<JobView>, id: usize, i: int)
    requires
        a.len() == b.len(),
        forall|k: int| 0 <= k < a.len() ==> #[trigger] a[k].id == b[k].id,
    ensures
        job_pos_from(a, id, i) == job_pos_from(b, id, i),
    decreases a.len() - i,
{
    if 0 <= i < a.len() && a[i].id != id {
        lemma_job_pos_same_ids(a, b, id, i + 1);
    }
}

/// Archiving or restoring keeps every job, in place, with its id; the job
/// found under the id gets the new archive flag.
pub proof fn law_archive_keeps_every_job(js: Seq<JobView>, id: usize, archived: bool)
    ensures
        set_archived(js, id, archived).len() == js.len(),
        forall|k: int| 0 <= k < js.len() ==> #[trigger] set_archived(js, id, archived)[k].id == js[k].id,
        job_pos(js, id) matches Some(i) ==> set_archived(js, id, archived)[i].archived == archived,
{
    crate::desktop::app::lemma_job_pos_from(js, id, 0);
}

/// Restoring a job right after archiving it gives back the list as it was,
/// but for the job staying collapsed in the sidebar.
pub proof fn law_archive_then_unarchive(js: Seq<JobView>, id: usize)
    requires
        job_pos(js, id) matches Some(i) && !js[i].archived,
    ensures
        set_archived(set_archived(js, id, true), id, false) == js.update(
            job_pos(js, id)->0,
            JobView { sidebar_expanded: false, ..js[job_pos(js, id)->0] },
        ),
{
    let a = set_archived(js, id, true);
    law_archive_keeps_every_job(js, id, true);
    lemma_job_pos_same_ids(js, a, id, 0);
    crate::desktop::app::lemma_job_pos_from(js, id, 0);
    let i = job_pos(js, id)->0;
    assert(set_archived(a, id, false) =~= js.update(i, JobView { sidebar_expanded: false, ..js[i] }));
}

/// Every job has its own id.
pub open spec fn unique_ids(js: Seq<JobView>) -> bool {
    forall|a: int, b: int| 0 <= a < js.len() && 0 <= b < js.len() && a != b ==> js[a].id != js[b].id
}

proof fn lemma_unarchived_pos_from(js: Seq<JobView>, i: int)
    requires
        0 <= i,
    ensures
        unarchived_pos_from(js, i) matches Some(k) ==> i <= k < js.len() && !js[k].archived,
        unarchived_pos_from(js, i) is None ==> forall|m: int| i <= m < js.len() ==> js[m].archived,
    decreases js.len() - i,
{
    if i < js.len() && js[i].archived {
        lemma_unarchived_pos_from(js, i + 1);
    }
}

/// With unique ids, the selection the app falls back to (after an archive
/// or a delete, and at start-up) is never an archived job, and it is empty
/// only when every job is archived.
pub proof fn law_fallback_selection_unarchived(js: Seq<JobView>)
    requires
        unique_ids(js),
    ensures
        default_selection(js).0 matches Some(id) ==> (job_pos(js, id) matches Some(k) && !js[k].archived),
        default_selection(js).0 is None ==> forall|m: int| 0 <= m < js.len() ==> #[trigger] js[m].archived,
{
    lemma_unarchived_pos_from(js, 0);
    if let Some(i) = unarchived_pos(js) {
        let id = js[i].id;
        crate::desktop::app::lemma_job_pos_from(js, id, 0);
        if let Some(k) = job_pos(js, id) {
            assert(k == i);
        }
    }
}

/// Every job id is below `n`.
pub open spec fn ids_below(js: Seq<JobView>, n: usize) -> bool {
    forall|k: int| 0 <= k < js.len() ==> #[trigger] js[k].id < n
}

proof fn lemma_map_job_keeps_ids(js: Seq<JobView>, jid: usize, f: spec_fn(JobView) -> JobView)
    requires
        forall|j: JobView| #[trigger] f(j).id == j.id,
    ensures
        map_job(js, jid, f).len() == js.len(),
        forall|k: int| 0 <= k < js.len() ==> #[trigger] map_job(js, jid, f)[k].id == js[k].id,
{
    crate::desktop::app::lemma_job_pos_from(js, jid, 0);
}

/// Application Prep changes no job's id and adds no job.
pub proof fn law_prep_keeps_ids(js: Seq<JobView>, jid: usize, cid: usize, has_resumes: bool, has_url: bool)
    ensures
        prep_jobs(js, jid, cid, has_resumes, has_url).len() == js.len(),
        forall|k: int|
            0 <= k < js.len() ==> #[trigger] prep_jobs(js, jid, cid, has_resumes, has_url)[k].id
                == js[k].id,
{
    let t = streaming_thread(cid, "Application Prep"@);
    let fa = |j: JobView| JobView { chats: j.chats.push(t), ..j };
    assert forall|j: JobView| #[trigger] fa(j).id == j.id by {}
    lemma_map_job_keeps_ids(js, jid, fa);
    let js0 = add_thread(js, jid, t);
    let fs = |st: Seq<char>| |j: JobView| JobView { research_status: st, ..j };
    let f1 = fs("Tailoring resume…"@);
    assert forall|j: JobView| #[trigger] f1(j).id == j.id by {}
    lemma_map_job_keeps_ids(js0, jid, f1);
    let js1 = with_status(js0, jid, "Tailoring resume…"@);
    let f2 = fs("No resume on file"@);
    assert forall|j: JobView| #[trigger] f2(j).id == j.id by {}
    lemma_map_job_keeps_ids(js1, jid, f2);
    let f3 = fs("Backend not ready"@);
    assert forall|j: JobView| #[trigger] f3(j).id == j.id by {}
    lemma_map_job_keeps_ids(js1, jid, f3);
    let js2 = with_status(js1, jid, "No resume on file"@);
    let js3 = with_status(js1, jid, "Backend not ready"@);
    let g = |j: JobView|
        match crate::desktop::app::thread_pos(j.chats, cid) {
            Some(k) => JobView {
                chats: j.chats.update(
                    k,
                    (|t: crate::desktop::types::ThreadView|
                        if t.messages.len() > 0 {
                            crate::desktop::types::ThreadView {
                                messages: t.messages.update(
                                    t.messages.len() - 1,
                                    crate::desktop::app::last_msg_op(
                                        t.messages[t.messages.len() - 1],
                                        0,
                                        "**Error:** add a resume in Settings → Resume before creating a job."@,
                                        false,
                                    ),
                                ),
                                ..t
                            }
                        } else {
                            t
                        })(j.chats[k]),
                ),
                ..j
            },
            None => j,
        };
    assert forall|j: JobView| #[trigger] g(j).id == j.id by {}
    lemma_map_job_keeps_ids(js2, jid, g);
    let h = |j: JobView|
        match crate::desktop::app::thread_pos(j.chats, cid) {
            Some(k) => JobView {
                chats: j.chats.update(
                    k,
                    (|t: crate::desktop::types::ThreadView|
                        if t.messages.len() > 0 {
                            crate::desktop::types::ThreadView {
                                messages: t.messages.update(
                                    t.messages.len() - 1,
                                    crate::desktop::app::last_msg_op(
                                        t.messages[t.messages.len() - 1],
                                        0,
                                        "Backend is not ready yet. Try again in a moment."@,
                                        false,
                                    ),
                                ),
                                ..t
                            }
                        } else {
                            t
                        })(j.chats[k]),
                ),
                ..j
            },
            None => j,
        };
    assert forall|j: JobView| #[trigger] h(j).id == j.id by {}
    lemma_map_job_keeps_ids(js3, jid, h);
}

/// When every job id is below the next id, the new job's id is unused, and
/// the list with the new job keeps every id below the advanced counter —
/// job creation never reuses an id.
pub proof fn law_new_job_id_fresh(js: Seq<JobView>, f: NewJobForm, id: usize, cid: usize)
    requires
        ids_below(js, id),
        id < usize::MAX,
    ensures
        job_pos(js, id) is None,
        ids_below(js.push(new_job_view(f, id, cid)), (id + 1) as usize),
{
    crate::desktop::app::lemma_job_pos_from(js, id, 0);
    let t = js.push(new_job_view(f, id, cid));
    assert forall|k: int| 0 <= k < t.len() implies #[trigger] t[k].id < (id + 1) as usize by {
        if k < js.len() {
            assert(t[k] == js[k]);
        }
    }
}

/// Saving a stage never moves the job's current stage back.
pub proof fn law_stage_edit_moves_forward(current: usize, edited: usize)
    ensures
        (if edited >= current {
            edited
        } else {
            current
        }) >= current,
{
}

// ─── Timeline ───────────────────────────────────────────────────────────────

/// Weekday initials repeat every seven days.
pub proof fn law_weekday_period(offset: i32)
    requires
        offset <= i32::MAX - 7,
    ensures
        crate::desktop::calendar::weekday_letter(offset) == crate::desktop::calendar::weekday_letter(
            (offset + 7) as i32,
        ),
{
    assert((offset + 7) % 7 == offset % 7) by (nonlinear_arith);
}

// ─── Chat layout ────────────────────────────────────────────────────────────

/// Blocks `k` and `k + 1` are both gaps.
pub open spec fn gap_pair(bs: Seq<BlockView>, k: int) -> bool {
    bs[k] is Gap && bs[k + 1] is Gap
}

proof fn lemma_no_adjacent_gaps(ls: Seq<Seq<char>>)
    ensures
        ({
            let (bs, ic, lb) = blocks_of(ls);
            &&& forall|k: int| 0 <= k < bs.len() - 1 ==> !#[trigger] gap_pair(bs, k)
            &&& (bs.len() > 0 && bs.last() is Gap) ==> lb
        }),
    decreases ls.len(),
{
    if ls.len() > 0 {
        lemma_no_adjacent_gaps(ls.drop_last());
        let (bs, ic, lb) = blocks_of(ls.drop_last());
        let (o, ic2, lb2) = line_block(ls.last(), ic, lb);
        if let Some(b) = o {
            let bs2 = bs.push(b);
            assert forall|k: int| 0 <= k < bs2.len() - 1 implies !#[trigger] gap_pair(bs2, k) by {
                if k < bs.len() - 1 {
                    assert(bs2[k] == bs[k] && bs2[k + 1] == bs[k + 1]);
                    assert(!gap_pair(bs, k));
                } else {
                    assert(bs2[k] == bs.last());
                    assert(bs2[k + 1] == b);
                    if b is Gap {
                        assert(!lb);
                    }
                }
            }
        }
    }
}

/// A run of blank lines is drawn as one gap: no two gaps are adjacent.
pub proof fn law_blank_runs_collapse(text: Seq<char>)
    ensures
        forall|k: int|
            0 <= k < markdown_blocks_spec(text).len() - 1 ==> !#[trigger] gap_pair(
                markdown_blocks_spec(text),
                k,
            ),
{
    lemma_no_adjacent_gaps(lines(text));
}

/// A step that finishes a stream forwards `Done` or an error.
pub proof fn lemma_finish_is_outcome(r: crate::sse::ReadView)
    ensures
        read_step_spec(r) matches StepView::Finish(e) ==> (e is Done || e is Error),
{
}

/// A stream read to its end (the last read is a failure or the end of the
/// body) forwards at least one event, and the last is `Done` or an error.
pub proof fn law_stream_ends_with_outcome(reads: Seq<crate::sse::ReadView>)
    requires
        reads.len() > 0,
        !(reads.last() is Line),
    ensures
        stream_events(reads).len() > 0,
        stream_events(reads).last() is Done || stream_events(reads).last() is Error,
    decreases reads.len(),
{
    lemma_finish_is_outcome(reads[0]);
    let rest = reads.drop_first();
    match read_step_spec(reads[0]) {
        StepView::Finish(e) => {},
        _ => {
            assert(reads.len() > 1);
            assert(rest.last() == reads.last());
            law_stream_ends_with_outcome(rest);
        },
    }
}

/// A body that ends before any line finished the stream forwards, last,
/// the error that the stream ended before completion.
pub proof fn law_early_end_is_cut_short(reads: Seq<crate::sse::ReadView>)
    requires
        reads.len() > 0,
        reads.last() is Ended,
        forall|i: int| 0 <= i < reads.len() - 1 ==> !(#[trigger] read_step_spec(reads[i]) is Finish),
    ensures
        stream_events(reads).len() > 0,
        stream_events(reads).last() == EventView::Error("Backend stream ended before completion."@),
    decreases reads.len(),
{
    let rest = reads.drop_first();
    if reads.len() > 1 {
        assert(!(read_step_spec(reads[0]) is Finish));
        assert(rest.last() == reads.last());
        assert forall|i: int| 0 <= i < rest.len() - 1 implies !(#[trigger] read_step_spec(rest[i]) is Finish) by {
            assert(rest[i] == reads[i + 1]);
        }
        law_early_end_is_cut_short(rest);
    }
}

// ─── Stream events ──────────────────────────────────────────────────────────

proof fn lemma_event_kinds()
    ensures
        "token"@ != "stage"@,
        "token"@ != "scorecard"@,
        "token"@ != "resume_docx"@,
        "token"@ != "tailored_resume"@,
        "token"@ != "done"@,
        "token"@ != "error"@,
        "stage"@ != "scorecard"@,
        "stage"@ != "resume_docx"@,
        "stage"@ != "tailored_resume"@,
        "stage"@ != "done"@,
        "stage"@ != "error"@,
        "scorecard"@ != "resume_docx"@,
        "scorecard"@ != "tailored_resume"@,
        "scorecard"@ != "done"@,
        "scorecard"@ != "error"@,
        "resume_docx"@ != "tailored_resume"@,
        "resume_docx"@ != "done"@,
        "resume_docx"@ != "error"@,
        "tailored_resume"@ != "done"@,
        "tailored_resume"@ != "error"@,
        "done"@ != "error"@,
{
    reveal_strlit("token");
    reveal_strlit("stage");
    reveal_strlit("scorecard");
    reveal_strlit("resume_docx");
    reveal_strlit("tailored_resume");
    reveal_strlit("done");
    reveal_strlit("error");
    assert("token"@.len() == 5 && "stage"@.len() == 5 && "error"@.len() == 5 && "done"@.len() == 4);
    assert("scorecard"@.len() == 9 && "resume_docx"@.len() == 11 && "tailored_resume"@.len() == 15);
    assert("token"@[0] != "stage"@[0]);
    assert("token"@[0] != "error"@[0]);
    assert("stage"@[0] != "error"@[0]);
}

/// Every event the backend sends is passed on with what it carries: a
/// token, a stage line and a tailored resume with their string content, a
/// scorecard with its content as JSON text, a `.docx` with its decoded
/// bytes; `done` completes the stream and `error` ends it with its message
/// (`Unknown error` when it has none). An event of no known type is
/// dropped.
pub proof fn law_events_forwarded(p: PayloadView, docx: Option<Result<Seq<u8>, Seq<char>>>)
    ensures
        p.kind == Some("token"@) ==> match p.text {
            Some(t) => payload_step(Some(p), docx) == StepView::Send(EventView::Token(t)),
            None => payload_step(Some(p), docx) == StepView::Skip,
        },
        p.kind == Some("stage"@) ==> match p.text {
            Some(t) => payload_step(Some(p), docx) == StepView::Send(EventView::Log(t)),
            None => payload_step(Some(p), docx) == StepView::Skip,
        },
        p.kind == Some("tailored_resume"@) ==> match p.text {
            Some(t) => payload_step(Some(p), docx) == StepView::Send(EventView::TailoredResume(t)),
            None => payload_step(Some(p), docx) == StepView::Skip,
        },
        p.kind == Some("scorecard"@) ==> payload_step(Some(p), docx) == StepView::Send(
            EventView::Scorecard(p.content_json),
        ),
        (p.kind == Some("resume_docx"@) && p.text is Some) ==> match docx {
            Some(Ok(b)) => payload_step(Some(p), docx) == StepView::Send(EventView::ResumeDocx(b)),
            Some(Err(e)) => payload_step(Some(p), docx) == StepView::Notify(
                EventView::Error("Failed to decode resume.docx: "@ + e),
            ),
            None => payload_step(Some(p), docx) == StepView::Skip,
        },
        p.kind == Some("done"@) ==> payload_step(Some(p), docx) == StepView::Finish(EventView::Done),
        p.kind == Some("error"@) ==> payload_step(Some(p), docx) == StepView::Finish(
            EventView::Error(
                match p.text {
                    Some(t) => t,
                    None => "Unknown error"@,
                },
            ),
        ),
        p.kind != Some("token"@) && p.kind != Some("stage"@) && p.kind != Some("scorecard"@) && p.kind
            != Some("resume_docx"@) && p.kind != Some("tailored_resume"@) && p.kind != Some("done"@)
            && p.kind != Some("error"@) ==> payload_step(Some(p), docx) == StepView::Skip,
{
    lemma_event_kinds();
}

// ─── Chat history ───────────────────────────────────────────────────────────

/// A message that counts as a turn of the conversation: finished and not
/// blank.
pub open spec fn is_turn(m: MsgView) -> bool {
    !m.streaming && !crate::text::is_blank(m.text)
}

pub open spec fn turns(ms: Seq<MsgView>) -> Seq<MsgView> {
    ms.filter(|m: MsgView| is_turn(m))
}

/// The history sent with a message has one pair per finished, non-blank
/// message of the thread, in order: its text, and the role `"user"` for
/// the user's messages and `"assistant"` for the AI's.
pub proof fn law_history_roles(ms: Seq<MsgView>)
    ensures
        history_of(ms).len() == turns(ms).len(),
        forall|i: int|
            0 <= i < history_of(ms).len() ==> {
                let m = turns(ms)[i];
                &&& (#[trigger] history_of(ms)[i]).1 == m.text
                &&& (history_of(ms)[i].0 == "user"@ <==> m.role == MsgRole::User)
                &&& (history_of(ms)[i].0 == "assistant"@ <==> m.role == MsgRole::Ai)
            },
    decreases ms.len(),
{
    reveal(Seq::filter);
    reveal_strlit("user");
    reveal_strlit("assistant");
    assert("user"@.len() != "assistant"@.len());
    if ms.len() > 0 {
        law_history_roles(ms.drop_last());
        let f = turns(ms);
        let g = turns(ms.drop_last());
        assert(f == if is_turn(ms.last()) {
            g.push(ms.last())
        } else {
            g
        });
        let h = history_of(ms);
        let h0 = history_of(ms.drop_last());
        assert forall|i: int| 0 <= i < h.len() implies {
            let m = f[i];
            &&& (#[trigger] h[i]).1 == m.text
            &&& (h[i].0 == "user"@ <==> m.role == MsgRole::User)
            &&& (h[i].0 == "assistant"@ <==> m.role == MsgRole::Ai)
        } by {
            if i < h0.len() {
                assert(h[i] == h0[i]);
                assert(f[i] == g[i]);
            }
        }
    }
}

// ─── Markdown headings ──────────────────────────────────────────────────────

/// Outside a code block, a line of one to four `#` and a space is a
/// heading of that level holding the rest of the line.
pub proof fn law_heading_levels(rest: Seq<char>, last_blank: bool)
    ensures
        line_block("# "@ + rest, false, last_blank) == (Some(BlockView::Heading(1, rest)), false, false),
        line_block("## "@ + rest, false, last_blank) == (Some(BlockView::Heading(2, rest)), false, false),
        line_block("### "@ + rest, false, last_blank) == (Some(BlockView::Heading(3, rest)), false, false),
        line_block("#### "@ + rest, false, last_blank) == (Some(BlockView::Heading(4, rest)), false, false),
{
    reveal_strlit("# ");
    reveal_strlit("## ");
    reveal_strlit("### ");
    reveal_strlit("#### ");
    reveal_strlit("```");
    let hs = seq!["# "@, "## "@, "### "@, "#### "@];
    assert forall|k: int| 0 <= k < 4 implies {
        let line = #[trigger] hs[k] + rest;
        &&& crate::text::trim_start(line) == line
        &&& !crate::text::has_prefix(line, "```"@)
        &&& line.skip(k + 2) =~= rest
        &&& line[0] == '#'
    } by {
        let line = hs[k] + rest;
        assert(hs[k][0] == '#');
        assert(line[0] == '#');
        assert(!crate::text::is_ws('#'));
        assert(crate::text::trim_start(line) == line);
        if line.len() >= 3 {
            assert(line.subrange(0, 3)[0] == line[0]);
            assert("```"@[0] == '`');
            assert(line.subrange(0, 3) != "```"@);
        }
        assert(hs[k].len() == k + 2);
        assert(line.skip(k + 2) =~= rest);
    }
    let l1 = "# "@ + rest;
    let l2 = "## "@ + rest;
    let l3 = "### "@ + rest;
    let l4 = "#### "@ + rest;
    assert(hs[0] == "# "@ && hs[1] == "## "@ && hs[2] == "### "@ && hs[3] == "#### "@);
    assert(l1.subrange(0, 2) =~= "# "@);
    assert(l2.subrange(0, 3) =~= "## "@);
    assert(l2.subrange(0, 2)[1] != "# "@[1]);
    assert(l3.subrange(0, 4) =~= "### "@);
    assert(l3.subrange(0, 2)[1] != "# "@[1]);
    assert(l3.subrange(0, 3)[2] != "## "@[2]);
    assert(l4.subrange(0, 5) =~= "#### "@);
    assert(l4.subrange(0, 2)[1] != "# "@[1]);
    assert(l4.subrange(0, 3)[2] != "## "@[2]);
    assert(l4.subrange(0, 4)[3] != "### "@[3]);
}

// ─── PCM samples ────────────────────────────────────────────────────────────

/// Integer samples decode to their little-endian two's-complement value,
/// which lies in `[-full scale, full scale)`; 8-bit samples are unsigned
/// with 128 as silence.
pub proof fn law_pcm_signed(c: Seq<u8>)
    ensures
        c.len() == 1 ==> int_sample_spec(c, 8) == Ok::<(int, int), Seq<char>>((c[0] - 128, 128)),
        c.len() == 2 ==> int_sample_spec(c, 16) == Ok::<(int, int), Seq<char>>(
            (c[0] + 256 * c[1] - (if c[1] >= 128 { 65536int } else { 0int }), 32768),
        ),
        c.len() == 3 ==> int_sample_spec(c, 24) == Ok::<(int, int), Seq<char>>(
            (c[0] + 256 * c[1] + 65536 * c[2] - (if c[2] >= 128 { 16777216int } else { 0int }), 8388608),
        ),
        c.len() == 4 ==> int_sample_spec(c, 32) == Ok::<(int, int), Seq<char>>(
            (
                c[0] + 256 * c[1] + 65536 * c[2] + 16777216 * c[3] - (if c[3] >= 128 {
                    4294967296int
                } else {
                    0int
                }),
                2147483648,
            ),
        ),
        forall|bits: u16, v: int, s: int|
            int_sample_spec(c, bits) == Ok::<(int, int), Seq<char>>((v, s)) ==> -s <= v < s,
{
    reveal_with_fuel(crate::desktop::recorder::le_unsigned, 5);
    reveal_with_fuel(crate::desktop::recorder::pow256, 5);
    if c.len() >= 1 {
        assert(c.skip(1).len() == c.len() - 1);
    }
    if c.len() >= 2 {
        assert(c.skip(1)[0] == c[1]);
        assert(c.skip(1).skip(1).len() == c.len() - 2);
    }
    if c.len() >= 3 {
        assert(c.skip(1).skip(1)[0] == c[2]);
        assert(c.skip(1).skip(1).skip(1).len() == c.len() - 3);
    }
    if c.len() >= 4 {
        assert(c.skip(1).skip(1).skip(1)[0] == c[3]);
        assert(c.skip(1).skip(1).skip(1).skip(1).len() == c.len() - 4);
    }
}

// ─── Research status ────────────────────────────────────────────────────────

/// When the stream on a job's "Company Research" thread ends, the job's
/// research status is "Ready" after a clean end and "Research failed"
/// after an error; on its "Application Prep" thread it is "Resume
/// tailored" or "Tailor failed".
pub proof fn law_stream_end_status(j: JobView, cid: usize, error: Option<Seq<char>>)
    ensures
        thread_pos(j.chats, cid) matches Some(k) && j.chats[k].title == "Company Research"@ ==> end_job(
            j,
            cid,
            error,
        ).research_status == if error is None {
            "Ready"@
        } else {
            "Research failed"@
        },
        thread_pos(j.chats, cid) matches Some(k) && j.chats[k].title == "Application Prep"@ ==> end_job(
            j,
            cid,
            error,
        ).research_status == if error is None {
            "Resume tailored"@
        } else {
            "Tailor failed"@
        },
{
    reveal_strlit("Company Research");
    reveal_strlit("Application Prep");
    assert("Company Research"@[0] != "Application Prep"@[0]);
}

} // verus!
