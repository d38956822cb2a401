use interprep::desktop::app::{
    BackendStatus, EventFollowUp, InterPrepApp, PollState,
};
use interprep::desktop::backend_client::{ChatEvent, StreamRequest};
use interprep::desktop::credentials::Credentials;
use interprep::desktop::samples::sample_jobs;
use interprep::desktop::storage::{Resume, ResumeStore};
use interprep::desktop::types::{ChatMsg, ChatThread, Job, JobStatus, MsgRole, Screen, StageNote};

fn job(id: usize, archived: bool, chat_ids: &[usize]) -> Job {
    Job {
        id,
        company: format!("Co{id}"),
        role: "Engineer".to_owned(),
        location: String::new(),
        job_description: String::new(),
        research_status: "Queued".to_owned(),
        status: JobStatus::Applied,
        current_stage: 0,
        stage_notes: vec![StageNote::new(0, "Submitted", "")],
        chats: chat_ids
            .iter()
            .map(|&c| ChatThread { id: c, title: "General Prep".to_owned(), messages: Vec::new() })
            .collect(),
        avatar_color: [0, 0, 0, 255],
        sidebar_expanded: true,
        archived,
        tailored_resume: None,
        resume_docx_path: None,
        scorecard: None,
    }
}

fn app_with(jobs: Vec<Job>) -> InterPrepApp {
    InterPrepApp::from_loaded(jobs, Credentials::default(), ResumeStore::empty())
}

fn one_resume() -> ResumeStore {
    ResumeStore::from_saved(
        vec![Resume { id: 1, name: "Main".to_owned(), text: "Resume text".to_owned() }],
        2,
    )
}

#[test]
fn start_up_selects_first_unarchived_job_and_seeds_ids() {
    let app = app_with(vec![job(4, true, &[9]), job(7, false, &[3, 12]), job(2, false, &[])]);
    assert_eq!(app.selected_job, Some(7));
    assert_eq!(app.selected_chat, Some(3));
    assert_eq!(app.next_job_id, 8);
    assert_eq!(app.next_chat_id, 13);
    assert_eq!(app.screen, Screen::Chat);
    assert_eq!(app.backend_status, BackendStatus::Starting);
    assert!(!app.stream.active);
    assert_eq!(app.ui.gantt_offset, -14);
}

#[test]
fn start_up_with_no_jobs_selects_nothing() {
    let app = app_with(Vec::new());
    assert_eq!(app.selected_job, None);
    assert_eq!(app.selected_chat, None);
    assert_eq!(app.next_job_id, 1);
    assert_eq!(app.next_chat_id, 1);
}

#[test]
fn create_job_requires_company_and_role() {
    let mut app = app_with(Vec::new());
    app.new_job.company = "  ".to_owned();
    app.new_job.role = "Engineer".to_owned();
    assert!(app.create_job().is_none());
    assert_eq!(app.new_job.error.as_deref(), Some("Company and role are required."));
    assert!(app.jobs.is_empty());
}

#[test]
fn create_job_without_resume_reports_missing_resume() {
    let mut app = app_with(Vec::new());
    app.new_job.company = " Acme ".to_owned();
    app.new_job.role = "SRE".to_owned();
    app.new_job.notes = "  referral ".to_owned();
    let (id, req) = app.create_job().expect("created");
    assert_eq!(id, 1);
    assert!(req.is_none());
    let j = &app.jobs[0];
    assert_eq!(j.company, "Acme");
    assert_eq!(j.research_status, "No resume on file");
    assert_eq!(j.stage_notes[0].outcome, "Submitted");
    assert_eq!(j.stage_notes[0].notes, "  referral ");
    assert_eq!(j.avatar_color, [0x22, 0xC5, 0x5E, 0xFF]);
    assert_eq!(j.chats.len(), 2);
    assert_eq!(j.chats[0].title, "General Prep");
    assert_eq!(
        j.chats[0].messages[0].text,
        "Ready to help you prepare. Share the job description or ask me anything."
    );
    assert_eq!(j.chats[1].title, "Application Prep");
    let last = j.chats[1].messages.last().unwrap();
    assert_eq!(last.text, "**Error:** add a resume in Settings → Resume before creating a job.");
    assert!(!last.streaming);
    assert_eq!(app.selected_job, Some(1));
    assert_eq!(app.selected_chat, Some(2));
    assert_eq!(app.next_chat_id, 3);
    assert_eq!(app.next_job_id, 2);
    assert!(app.new_job.company.is_empty() && app.new_job.error.is_none());
}

#[test]
fn create_job_with_resume_and_backend_opens_tailoring_stream() {
    let mut app = InterPrepApp::from_loaded(Vec::new(), Credentials::default(), one_resume());
    app.backend_url = Some("http://127.0.0.1:9000".to_owned());
    app.creds.gemini_api_key = "k".to_owned();
    app.new_job.company = "Acme".to_owned();
    app.new_job.role = "SRE".to_owned();
    app.new_job.job_description = " Run things ".to_owned();
    let (id, req) = app.create_job().expect("created");
    match req {
        Some(StreamRequest::ApplicationTailor { base_url, company, job_description, master_resumes, api_key, .. }) => {
            assert_eq!(base_url, "http://127.0.0.1:9000");
            assert_eq!(company, "Acme");
            assert_eq!(job_description, "Run things");
            assert_eq!(master_resumes, vec![("Main".to_owned(), "Resume text".to_owned())]);
            assert_eq!(api_key, "k");
        }
        _ => panic!("expected a tailoring request"),
    }
    assert!(app.stream.active);
    assert_eq!(app.stream.job_id, Some(id));
    assert_eq!(app.jobs[0].research_status, "Tailoring resume…");
}

#[test]
fn send_message_opens_thread_and_streams() {
    let mut app = app_with(vec![job(1, false, &[])]);
    app.backend_url = Some("http://h".to_owned());
    app.draft = "  How do I prepare?  ".to_owned();
    let req = app.send_message(None).expect("request");
    assert!(app.draft.is_empty());
    let t = &app.jobs[0].chats[0];
    assert_eq!(t.title, "How do I prepare?");
    assert_eq!(t.messages.len(), 2);
    assert_eq!(t.messages[0].role, MsgRole::User);
    assert!(t.messages[1].streaming);
    match req {
        StreamRequest::Chat { message, mode, history, job_context, .. } => {
            assert_eq!(message, "How do I prepare?");
            assert_eq!(mode, "coach");
            assert!(history.is_empty());
            assert_eq!(job_context, "Company: Co1\nRole: Engineer");
        }
        _ => panic!("expected a chat request"),
    }
}

#[test]
fn send_message_without_backend_closes_the_reply() {
    let mut app = app_with(vec![job(1, false, &[5])]);
    app.draft = "hi".to_owned();
    assert!(app.send_message(None).is_none());
    let m = app.jobs[0].chats[0].messages.last().unwrap();
    assert_eq!(m.text, "Backend is still starting up, please wait a moment and try again.");
    assert!(!m.streaming);
}

#[test]
fn blank_draft_sends_nothing() {
    let mut app = app_with(vec![job(1, false, &[5])]);
    app.draft = "   ".to_owned();
    assert!(app.send_message(None).is_none());
    assert_eq!(app.draft, "   ");
    assert!(app.jobs[0].chats[0].messages.is_empty());
}

#[test]
fn mock_interview_kickoff() {
    let mut app = app_with(vec![job(1, false, &[])]);
    app.backend_url = Some("http://h".to_owned());
    match app.start_typed_thread("Mock Interview", None) {
        Some(StreamRequest::Chat { message, mode, .. }) => {
            assert!(message.starts_with("Begin the interview now."));
            assert_eq!(mode, "interviewer");
        }
        _ => panic!("expected a chat request"),
    }
    match app.start_typed_thread("Salary Negotiation", None) {
        Some(StreamRequest::Chat { message, mode, .. }) => {
            assert_eq!(
                message,
                "Start a Salary Negotiation session for me. Begin immediately with the first question or scenario, grounded in my resume and the JD."
            );
            assert_eq!(mode, "coach");
        }
        _ => panic!("expected a chat request"),
    }
}

#[test]
fn knockout_screen_needs_tailored_resume() {
    let mut j = job(1, false, &[]);
    j.chats.push(ChatThread { id: 4, title: "Application Prep".to_owned(), messages: Vec::new() });
    let mut app = app_with(vec![j]);
    assert!(app.start_knockout_screen(1).is_none());
    let msgs = &app.jobs[0].chats[0].messages;
    assert_eq!(msgs.len(), 1);
    assert!(msgs[0].text.starts_with("**Knockout screen unavailable.**"));
    app.jobs[0].tailored_resume = Some("Tailored".to_owned());
    app.backend_url = Some("http://h".to_owned());
    assert!(matches!(app.start_knockout_screen(1), Some(StreamRequest::KnockoutScreen { .. })));
    assert_eq!(app.jobs[0].chats[1].title, "Knockout Screen");
}

#[test]
fn research_needs_a_fuller_description() {
    let mut j = job(1, false, &[]);
    j.job_description = "  too short  ".to_owned();
    let mut app = app_with(vec![j]);
    assert!(app.start_research_for_job(1).is_none());
    assert_eq!(app.jobs[0].research_status, "Add a fuller JD first");
    app.jobs[0].job_description = "A long enough job description for the analysis.".to_owned();
    assert!(app.start_research_for_job(1).is_none());
    assert_eq!(app.jobs[0].research_status, "Backend not ready");
    assert_eq!(app.jobs[0].chats[0].title, "Research");
    let m = app.jobs[0].chats[0].messages.last().unwrap();
    assert_eq!(m.text, "Backend not ready. Wait for startup or check Python installation.");
}

#[test]
fn company_research_does_not_change_selection() {
    let mut app = app_with(vec![job(1, false, &[5])]);
    app.backend_url = Some("http://h".to_owned());
    let req = app.start_company_research(1);
    assert!(matches!(req, Some(StreamRequest::CompanyResearch { .. })));
    assert_eq!(app.selected_chat, Some(5));
    assert_eq!(app.jobs[0].research_status, "Researching…");
}

#[test]
fn stream_events_fill_the_reply_and_finish_it() {
    let mut app = app_with(vec![job(1, false, &[])]);
    app.backend_url = Some("http://h".to_owned());
    app.draft = "question".to_owned();
    app.send_message(None).expect("request");
    let mut poll = PollState { stream_done: false, should_save_jobs: false, chain_company_research_for: None };
    app.handle_stream_event(&mut poll, ChatEvent::Log("searching".to_owned()));
    app.handle_stream_event(&mut poll, ChatEvent::Token("Hel".to_owned()));
    app.handle_stream_event(&mut poll, ChatEvent::Token("lo".to_owned()));
    let step = app.handle_stream_event(&mut poll, ChatEvent::Done);
    assert!(matches!(step.follow_up, EventFollowUp::Nothing));
    assert!(poll.stream_done && poll.should_save_jobs);
    app.finish_poll(&poll);
    assert!(!app.stream.active);
    let m = app.jobs[0].chats[0].messages.last().unwrap();
    assert_eq!(m.text, "Hello");
    assert_eq!(m.logs, vec!["searching".to_owned()]);
    assert!(!m.streaming);
}

#[test]
fn stream_error_marks_the_reply() {
    let mut app = app_with(vec![job(1, false, &[])]);
    app.backend_url = Some("http://h".to_owned());
    app.draft = "q".to_owned();
    app.send_message(None).expect("request");
    let mut poll = PollState { stream_done: false, should_save_jobs: false, chain_company_research_for: None };
    app.handle_stream_event(&mut poll, ChatEvent::Error("boom".to_owned()));
    let m = app.jobs[0].chats[0].messages.last().unwrap();
    assert_eq!(m.text, "**Error:** boom");
    assert!(poll.stream_done);
}

#[test]
fn archive_moves_selection_and_unarchive_restores() {
    let mut app = app_with(vec![job(1, false, &[10]), job(2, false, &[20])]);
    app.archive_job(1);
    assert!(app.jobs[0].archived && !app.jobs[0].sidebar_expanded);
    assert_eq!(app.selected_job, Some(2));
    assert_eq!(app.selected_chat, Some(20));
    app.unarchive_job(1);
    assert!(!app.jobs[0].archived);
    assert_eq!(app.jobs.len(), 2);
}

#[test]
fn delete_removes_the_job() {
    let mut app = app_with(vec![job(1, false, &[10]), job(2, true, &[20]), job(3, false, &[])]);
    app.delete_job(1);
    assert_eq!(app.jobs.iter().map(|j| j.id).collect::<Vec<_>>(), vec![2, 3]);
    assert_eq!(app.selected_job, Some(3));
    assert_eq!(app.selected_chat, None);
}

#[test]
fn stage_edit_saves_and_advances() {
    let mut j = job(1, false, &[]);
    j.stage_notes.push(StageNote::new(3, "Scheduled", "call"));
    let mut app = app_with(vec![j]);
    app.open_stage_editor(0, 1);
    assert_eq!(app.ui.se_outcome, "Scheduled");
    app.ui.se_outcome = "Passed".to_owned();
    app.ui.se_notes = "went well".to_owned();
    app.save_stage_edit();
    assert_eq!(app.jobs[0].stage_notes[1].outcome, "Passed");
    assert_eq!(app.jobs[0].stage_notes[1].notes, "went well");
    assert_eq!(app.jobs[0].current_stage, 1);
    assert_eq!(app.ui.se_job, None);
    app.open_stage_editor(0, 0);
    app.save_stage_edit();
    assert_eq!(app.jobs[0].current_stage, 1);
}

#[test]
fn uploaded_resumes_must_be_long_enough() {
    let mut app = app_with(Vec::new());
    app.accept_uploaded_resume(Some(("cv".to_owned(), "short".to_owned())));
    assert_eq!(app.ui.resume_form_error.as_deref(), Some("That file is too short to be a usable resume."));
    app.accept_uploaded_resume(None);
    assert_eq!(app.ui.resume_form_error.as_deref(), Some("Could not read that file. Try .txt, .md, or .docx."));
    app.accept_uploaded_resume(Some(("cv".to_owned(), "x".repeat(80))));
    assert!(app.ui.resume_form_error.is_none());
    assert_eq!(app.resume_store.len(), 1);
    assert_eq!(app.resume_store.items()[0].id, 1);
}

#[test]
fn credentials_autosave_when_settings_close() {
    let mut app = app_with(Vec::new());
    app.ui.show_settings = true;
    assert!(!app.settings_frame_end());
    app.ui.show_settings = false;
    assert!(app.settings_frame_end());
    assert!(!app.settings_frame_end());
}

#[test]
fn sidecar_result_sets_status() {
    let mut app = app_with(Vec::new());
    app.on_sidecar_result(Err("no python".to_owned()));
    assert_eq!(app.backend_status, BackendStatus::Failed("no python".to_owned()));
    app.on_sidecar_result(Ok("http://127.0.0.1:8765".to_owned()));
    assert_eq!(app.backend_status, BackendStatus::Ready);
    assert_eq!(app.backend_url.as_deref(), Some("http://127.0.0.1:8765"));
}

#[test]
fn sample_jobs_are_the_two_examples() {
    let jobs = sample_jobs();
    assert_eq!(jobs.len(), 2);
    assert_eq!(jobs[0].company, "Stripe");
    assert_eq!(jobs[0].chats.len(), 2);
    assert_eq!(jobs[1].company, "Anthropic");
    assert_eq!(jobs[1].avatar_color, [217, 119, 87, 255]);
    let app = app_with(jobs);
    assert_eq!(app.selected_job, Some(1));
    assert_eq!(app.selected_chat, Some(1));
    assert_eq!(app.next_chat_id, 4);
}

#[test]
fn chat_message_constructors() {
    let m = ChatMsg::ai_streaming();
    assert!(m.streaming && m.text.is_empty() && m.role == MsgRole::Ai);
    assert_eq!(ChatMsg::user("q").role, MsgRole::User);
}

#[test]
fn stage_editor_closes_without_saving() {
    let mut app = app_with(vec![job(1, false, &[])]);
    app.open_stage_editor(0, 0);
    assert_eq!(app.ui.se_outcome, "Submitted");
    app.ui.se_outcome = "Passed".to_owned();
    app.close_stage_editor();
    assert_eq!(app.ui.se_job, None);
    assert_eq!(app.ui.se_stage, None);
    app.save_stage_edit();
    assert_eq!(app.jobs[0].stage_notes[0].outcome, "Submitted");
    assert_eq!(app.jobs[0].current_stage, 0);
}

#[test]
fn report_modal_shows_the_text() {
    let mut app = app_with(Vec::new());
    assert!(!app.ui.show_report_modal);
    app.open_report("# Acme\nfounded 1999".to_owned());
    assert!(app.ui.show_report_modal);
    assert_eq!(app.ui.report_modal_text, "# Acme\nfounded 1999");
}

#[test]
fn sidebar_row_click_selects_or_toggles() {
    let mut app = app_with(vec![job(1, false, &[10, 11]), job(2, false, &[]), job(3, false, &[30])]);
    app.selected_job = Some(1);
    app.selected_chat = Some(11);
    app.click_job_row(3);
    assert_eq!(app.selected_job, Some(3));
    assert_eq!(app.selected_chat, Some(30));
    assert!(!app.jobs[2].sidebar_expanded);
    app.click_job_row(3);
    assert_eq!(app.selected_chat, Some(30));
    assert!(app.jobs[2].sidebar_expanded);
    app.click_job_row(2);
    assert_eq!(app.selected_job, Some(2));
    assert_eq!(app.selected_chat, Some(30));
    assert!(!app.jobs[1].sidebar_expanded);
}

#[test]
fn short_paths_take_no_thread_id() {
    let mut j = job(1, false, &[]);
    j.job_description = "short".to_owned();
    let mut app = app_with(vec![j]);
    app.next_chat_id = usize::MAX;
    assert!(app.start_research_for_job(1).is_none());
    assert_eq!(app.jobs[0].research_status, "Add a fuller JD first");
    assert!(app.jobs[0].chats.is_empty());
    assert!(app.start_knockout_screen(1).is_none());
    assert_eq!(app.next_chat_id, usize::MAX);
}
