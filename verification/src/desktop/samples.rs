//! The two example jobs the desktop program starts with when no saved job
//! list can be read.
use vstd::prelude::*;
use crate::desktop::app::{ai_msg_view, thread_view, user_msg_view};
use crate::desktop::types::{
    ChatMsg, ChatThread, Job, JobStatus, JobView, StageNote, StageNoteView, jobs_view, msgs_view,
    notes_view, threads_view,
};

verus! {

/// The example jobs: a Stripe application in its technical stage and an
/// Anthropic application just submitted, with their stage notes and coach
/// threads.
pub open spec fn sample_jobs_spec() -> Seq<JobView> {
    seq![
        JobView {
            id: 1,
            company: "Stripe"@,
            role: "Software Engineer"@,
            location: "Remote US"@,
            job_description: "Senior Software Engineer role focused on payments infrastructure, distributed systems, APIs, and reliability."@,
            research_status: "Sample"@,
            status: JobStatus::Technical,
            current_stage: 2,
            stage_notes: seq![StageNoteView { day_offset: -75i32, outcome: "Submitted"@, notes: "Applied via Stripe careers portal."@ }, StageNoteView { day_offset: -13i32, outcome: "Passed"@, notes: "30-min call with recruiter Sarah."@ }, StageNoteView { day_offset: -2i32, outcome: "In progress"@, notes: "Technical screen scheduled — systems design focus."@ }],
            chats: seq![thread_view(1, "System Design Prep"@, seq![ai_msg_view("Ready to help you prepare for the Stripe Systems Design interview.\n\n• Review distributed systems fundamentals\n• Study Stripe's payment architecture\n• Practice designing a rate limiter or payment ledger\n\nWhat aspect would you like to focus on first?"@), user_msg_view("Can you explain how Stripe handles idempotency keys?"@), ai_msg_view("Great question. Stripe uses idempotency keys to safely retry requests.\n\n**How it works:**\n\n• Client generates a unique key per logical operation\n• Server stores the key + result for ~24 hours\n• Duplicate requests return the cached response\n\nThis prevents double-charges when network errors cause retries."@)]), thread_view(2, "Behavioral Questions"@, seq![ai_msg_view("Let's work on your behavioural responses using the STAR format.\n\nTell me about a time you:\n• Led a technical project under pressure\n• Disagreed with a team decision\n• Improved a critical system's reliability\n\nWhich would you like to prepare first?"@)])],
            avatar_color: [168u8, 85u8, 247u8, 255u8],
            sidebar_expanded: true,
            archived: false,
            tailored_resume: None,
            resume_docx_path: None,
            scorecard: None,
        },
        JobView {
            id: 2,
            company: "Anthropic"@,
            role: "ML Engineer"@,
            location: "San Francisco, CA"@,
            job_description: "ML Engineer role focused on model evaluation, safety, interpretability, and production machine learning systems."@,
            research_status: "Sample"@,
            status: JobStatus::Applied,
            current_stage: 0,
            stage_notes: seq![StageNoteView { day_offset: -2i32, outcome: "Submitted"@, notes: "Applied through referral from Sarah."@ }],
            chats: seq![thread_view(3, "Job Description Analysis"@, seq![ai_msg_view("I've analysed the Anthropic ML Engineer, Alignment role.\n\n**Key requirements:**\n\n• Strong background in ML research (PyTorch, JAX)\n• Experience with RLHF or constitutional AI\n• Published research or open-source contributions\n\n**Your angle:**\n\nHighlight any work on model evaluation, safety testing, or interpretability."@)])],
            avatar_color: [217u8, 119u8, 87u8, 255u8],
            sidebar_expanded: false,
            archived: false,
            tailored_resume: None,
            resume_docx_path: None,
            scorecard: None,
        },
    ]
}

pub fn sample_jobs() -> (r: Vec<Job>)
    ensures
        jobs_view(r@) == sample_jobs_spec(),
{
    let mut r: Vec<Job> = Vec::new();
    let mut notes: Vec<StageNote> = Vec::new();
    notes.push(StageNote::new(-75, "Submitted", "Applied via Stripe careers portal."));
    notes.push(StageNote::new(-13, "Passed", "30-min call with recruiter Sarah."));
    notes.push(StageNote::new(-2, "In progress", "Technical screen scheduled — systems design focus."));
    let mut chats: Vec<ChatThread> = Vec::new();
    let mut msgs: Vec<ChatMsg> = Vec::new();
    msgs.push(ChatMsg::ai("Ready to help you prepare for the Stripe Systems Design interview.\n\n• Review distributed systems fundamentals\n• Study Stripe's payment architecture\n• Practice designing a rate limiter or payment ledger\n\nWhat aspect would you like to focus on first?"));
    msgs.push(ChatMsg::user("Can you explain how Stripe handles idempotency keys?"));
    msgs.push(ChatMsg::ai("Great question. Stripe uses idempotency keys to safely retry requests.\n\n**How it works:**\n\n• Client generates a unique key per logical operation\n• Server stores the key + result for ~24 hours\n• Duplicate requests return the cached response\n\nThis prevents double-charges when network errors cause retries."));
    chats.push(ChatThread { id: 1, title: crate::text::owned("System Design Prep"), messages: msgs });
    let mut msgs: Vec<ChatMsg> = Vec::new();
    msgs.push(ChatMsg::ai("Let's work on your behavioural responses using the STAR format.\n\nTell me about a time you:\n• Led a technical project under pressure\n• Disagreed with a team decision\n• Improved a critical system's reliability\n\nWhich would you like to prepare first?"));
    chats.push(ChatThread { id: 2, title: crate::text::owned("Behavioral Questions"), messages: msgs });
    r.push(Job {
        id: 1,
        company: crate::text::owned("Stripe"),
        role: crate::text::owned("Software Engineer"),
        location: crate::text::owned("Remote US"),
        job_description: crate::text::owned("Senior Software Engineer role focused on payments infrastructure, distributed systems, APIs, and reliability."),
        research_status: crate::text::owned("Sample"),
        status: JobStatus::Technical,
        current_stage: 2,
        stage_notes: notes,
        chats,
        avatar_color: [168u8, 85u8, 247u8, 255u8],
        sidebar_expanded: true,
        archived: false,
        tailored_resume: None,
        resume_docx_path: None,
        scorecard: None,
    });
    let mut notes: Vec<StageNote> = Vec::new();
    notes.push(StageNote::new(-2, "Submitted", "Applied through referral from Sarah."));
    let mut chats: Vec<ChatThread> = Vec::new();
    let mut msgs: Vec<ChatMsg> = Vec::new();
    msgs.push(ChatMsg::ai("I've analysed the Anthropic ML Engineer, Alignment role.\n\n**Key requirements:**\n\n• Strong background in ML research (PyTorch, JAX)\n• Experience with RLHF or constitutional AI\n• Published research or open-source contributions\n\n**Your angle:**\n\nHighlight any work on model evaluation, safety testing, or interpretability."));
    chats.push(ChatThread { id: 3, title: crate::text::owned("Job Description Analysis"), messages: msgs });
    r.push(Job {
        id: 2,
        company: crate::text::owned("Anthropic"),
        role: crate::text::owned("ML Engineer"),
        location: crate::text::owned("San Francisco, CA"),
        job_description: crate::text::owned("ML Engineer role focused on model evaluation, safety, interpretability, and production machine learning systems."),
        research_status: crate::text::owned("Sample"),
        status: JobStatus::Applied,
        current_stage: 0,
        stage_notes: notes,
        chats,
        avatar_color: [217u8, 119u8, 87u8, 255u8],
        sidebar_expanded: false,
        archived: false,
        tailored_resume: None,
        resume_docx_path: None,
        scorecard: None,
    });
    proof {
        assert(notes_view(r@[0].stage_notes@) =~= sample_jobs_spec()[0].stage_notes);
        assert(msgs_view(r@[0].chats@[0].messages@) =~= sample_jobs_spec()[0].chats[0].messages);
        assert(msgs_view(r@[0].chats@[1].messages@) =~= sample_jobs_spec()[0].chats[1].messages);
        assert(threads_view(r@[0].chats@) =~= sample_jobs_spec()[0].chats);
        assert(notes_view(r@[1].stage_notes@) =~= sample_jobs_spec()[1].stage_notes);
        assert(msgs_view(r@[1].chats@[0].messages@) =~= sample_jobs_spec()[1].chats[0].messages);
        assert(threads_view(r@[1].chats@) =~= sample_jobs_spec()[1].chats);
        assert(jobs_view(r@) =~= sample_jobs_spec());
    }
    r
}

} // verus!
