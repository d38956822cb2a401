use interprep::desktop::backend_client::{read_on, read_step};
use interprep::desktop::calendar::stage_end_day;
use interprep::sse::{continues, ReadOn, StreamRead};
use std::io::Write;
use interprep::desktop::backend_client::{
    connect_failed_event, cut_short_event, http_failure_event, sse_line_step, ChatEvent, SseStep,
    StreamRequest,
};
use interprep::desktop::calendar::{day_of_week_letter, day_to_month_day};
use interprep::desktop::cli::{
    duration_from_seconds, recorder_config, recording_notice, run_mode, CliArgs, RunMode, UiSeed,
};
use interprep::desktop::credentials::{field_names, stored_value, store_op, Credentials, Lookup, StoreOp};
use interprep::desktop::jobs_store::normalize_loaded;
use interprep::desktop::markdown::{markdown_blocks, rich_segments, text_lines, MdBlock};
use interprep::desktop::recorder::{
    auto_stop_due, decode_i24_le, device_lines, float_sample_bytes, int_sample, packet_sample_count,
    AudioDeviceEntry, CaptureSource,
};
use interprep::desktop::sidecar::{base_url, health_url, port_or_default, uvicorn_args};
use interprep::desktop::storage::{
    company_research_report_path, decode_xml_entities, extract_docx_text, nonblank_report, read_resume_bytes,
    resume_format, strip_docx_xml, ResumeFormat, ResumeStore,
};
use interprep::desktop::types::JobStatus;

fn cli() -> CliArgs {
    CliArgs {
        gui: false,
        list_devices: false,
        seconds: 10,
        out_dir: "captures".to_owned(),
        system_file: "system_audio.wav".to_owned(),
        mic_file: "microphone.wav".to_owned(),
        system_device: None,
        mic_device: Some("Headset".to_owned()),
        poll_timeout_ms: 100,
    }
}

#[test]
fn resume_store_assigns_fresh_ids_and_removes() {
    let mut s = ResumeStore::empty();
    assert!(s.is_empty());
    let a = s.add("A".to_owned(), "text a".to_owned());
    let b = s.add("B".to_owned(), "text b".to_owned());
    assert_eq!((a, b), (1, 2));
    assert_eq!(s.len(), 2);
    s.remove(a);
    assert_eq!(s.items().iter().map(|r| r.id).collect::<Vec<_>>(), vec![2]);
    assert_eq!(s.next_id(), 3);
    // Removing what was just added gives the library back.
    let c = s.add("C".to_owned(), "t".to_owned());
    s.remove(c);
    assert_eq!(s.len(), 1);
}

#[test]
fn saved_next_id_zero_becomes_one() {
    assert_eq!(ResumeStore::from_saved(Vec::new(), 0).next_id(), 1);
    assert_eq!(ResumeStore::from_saved(Vec::new(), 9).next_id(), 9);
}

#[test]
fn docx_xml_becomes_lines() {
    let xml = "<w:body><w:p><w:r><w:t>Jane &amp; Co</w:t></w:r><w:r><w:t xml:space=\"preserve\"> Doe</w:t></w:r></w:p>\
               <w:p><w:r><w:t>   </w:t></w:r></w:p><w:p><w:t>&lt;Skills&gt;</w:t></w:p></w:body>";
    assert_eq!(strip_docx_xml(xml), "Jane & Co Doe\n<Skills>\n");
    assert_eq!(decode_xml_entities("&quot;a&apos;&#10;&#9;"), "\"a'\n\t");
}

#[test]
fn resume_formats_by_extension() {
    assert_eq!(resume_format(Some("TXT")), ResumeFormat::PlainText);
    assert_eq!(resume_format(Some("md")), ResumeFormat::PlainText);
    assert_eq!(resume_format(Some("Docx")), ResumeFormat::Docx);
    assert_eq!(resume_format(Some("pdf")), ResumeFormat::Pdf);
    assert_eq!(resume_format(Some("rtf")), ResumeFormat::Unsupported);
    assert_eq!(resume_format(None), ResumeFormat::Unsupported);
}

#[test]
fn plain_text_resume_is_trimmed() {
    let r = read_resume_bytes(Some("cv"), Some("txt"), b"  Jane Doe\nEngineer \n", None);
    assert_eq!(r, Some(("cv".to_owned(), "Jane Doe\nEngineer".to_owned())));
    assert_eq!(read_resume_bytes(None, Some("md"), b"x", None), Some(("Resume".to_owned(), "x".to_owned())));
    assert_eq!(read_resume_bytes(Some("cv"), Some("txt"), b"   \n", None), None);
    assert_eq!(read_resume_bytes(Some("cv"), Some("txt"), &[0xff, 0xfe], None), None);
    assert_eq!(read_resume_bytes(Some("cv"), Some("doc"), b"text", None), None);
    assert_eq!(read_resume_bytes(Some("cv"), Some("docx"), b"not a zip", None), None);
}

#[test]
fn pdf_resume_takes_the_extracted_text() {
    let pdf = b"%PDF-1.4";
    assert_eq!(
        read_resume_bytes(Some("cv"), Some("PDF"), pdf, Some("  Jane Doe \n".to_owned())),
        Some(("cv".to_owned(), "Jane Doe".to_owned()))
    );
    assert_eq!(read_resume_bytes(Some("cv"), Some("pdf"), pdf, None), None);
    assert_eq!(read_resume_bytes(Some("cv"), Some("pdf"), pdf, Some(" ".to_owned())), None);
    assert_eq!(read_resume_bytes(Some("cv"), Some("txt"), b"plain", Some("ignored".to_owned())), Some(("cv".to_owned(), "plain".to_owned())));
}

#[test]
fn report_paths_and_loading() {
    assert_eq!(
        company_research_report_path(12),
        vec!["InterPrep", "applications", "12", "company_research.md"]
    );
    assert_eq!(nonblank_report(" \n".to_owned()), None);
    assert_eq!(nonblank_report("# Report".to_owned()), Some("# Report".to_owned()));
}

#[test]
fn sse_lines_become_events() {
    assert!(matches!(sse_line_step("event: ping"), SseStep::Skip));
    assert!(matches!(sse_line_step("data: not json"), SseStep::Skip));
    match sse_line_step(r#"data: {"type":"token","content":"Hi"}"#) {
        SseStep::Send(ChatEvent::Token(t)) => assert_eq!(t, "Hi"),
        _ => panic!("token"),
    }
    match sse_line_step(r#"data: {"type":"stage","content":"Thinking"}"#) {
        SseStep::Send(ChatEvent::Log(t)) => assert_eq!(t, "Thinking"),
        _ => panic!("stage"),
    }
    match sse_line_step(r#"data: {"type":"scorecard","content":{"match":87}}"#) {
        SseStep::Send(ChatEvent::Scorecard(t)) => assert_eq!(t, r#"{"match":87}"#),
        _ => panic!("scorecard"),
    }
    match sse_line_step(r#"data: {"type":"resume_docx","content":"UEsDBA=="}"#) {
        SseStep::Send(ChatEvent::ResumeDocx(b)) => assert_eq!(b, vec![0x50, 0x4b, 0x03, 0x04]),
        _ => panic!("docx"),
    }
    match sse_line_step(r#"data: {"type":"resume_docx","content":"@@@"}"#) {
        SseStep::Notify(ChatEvent::Error(e)) => assert!(e.starts_with("Failed to decode resume.docx: ")),
        _ => panic!("bad docx"),
    }
    assert!(matches!(sse_line_step(r#"data: {"type":"done"}"#), SseStep::Finish(ChatEvent::Done)));
    match sse_line_step(r#"data: {"type":"error"}"#) {
        SseStep::Finish(ChatEvent::Error(e)) => assert_eq!(e, "Unknown error"),
        _ => panic!("error"),
    }
    assert!(matches!(sse_line_step(r#"data: {"type":"other"}"#), SseStep::Skip));
}

#[test]
fn stream_failures_read_well() {
    let e = |ev: ChatEvent| match ev {
        ChatEvent::Error(t) => t,
        _ => panic!("error event"),
    };
    assert_eq!(e(connect_failed_event("refused")), "Could not reach backend: refused");
    assert_eq!(e(http_failure_event("500 Internal Server Error", "  ")), "Backend returned 500 Internal Server Error");
    assert_eq!(e(http_failure_event("422", "bad")), "Backend returned 422: bad");
    assert_eq!(e(cut_short_event()), "Backend stream ended before completion.");
}

#[test]
fn request_endpoints() {
    let r = StreamRequest::Research {
        base_url: "http://h".to_owned(),
        company: String::new(),
        role: String::new(),
        job_description: String::new(),
        api_key: String::new(),
    };
    assert_eq!(r.endpoint(), "http://h/research/stream");
}

#[test]
fn markdown_blocks_for_a_message() {
    let text = "# Title\n\n\n- one\n* two\n• three\n12. twelfth\n---\n```\ncode\n```\nplain **bold**\r\n";
    let blocks = markdown_blocks(text);
    let kinds: Vec<String> = blocks
        .iter()
        .map(|b| match b {
            MdBlock::Heading(l, t) => format!("h{l}:{t}"),
            MdBlock::Gap => "gap".to_owned(),
            MdBlock::Bullet(t) => format!("bullet:{t}"),
            MdBlock::Numbered(n, t) => format!("num:{n}:{t}"),
            MdBlock::Rule => "rule".to_owned(),
            MdBlock::Code(t) => format!("code:{t}"),
            MdBlock::FenceClose => "fence".to_owned(),
            MdBlock::Text(t) => format!("text:{t}"),
        })
        .collect();
    assert_eq!(
        kinds,
        vec![
            "h1:Title", "gap", "bullet:one", "bullet:two", "bullet:three", "num:12:twelfth", "rule",
            "code:code", "fence", "text:plain **bold**",
        ]
    );
}

#[test]
fn lines_match_std() {
    for s in ["a\nb", "a\r\nb\r\n", "", "\n", "x\r", "\n\nz"] {
        let std: Vec<String> = s.lines().map(|l| l.to_owned()).collect();
        assert_eq!(text_lines(s), std);
    }
}

#[test]
fn bold_runs() {
    assert_eq!(rich_segments("plain"), vec![("plain".to_owned(), false)]);
    assert_eq!(
        rich_segments("**How it works:** today"),
        vec![("How it works:".to_owned(), true), (" today".to_owned(), false)]
    );
}

#[test]
fn calendar_labels() {
    assert_eq!(day_to_month_day(0), (5, 3, "May"));
    assert_eq!(day_to_month_day(-3), (4, 30, "Apr"));
    assert_eq!(day_to_month_day(-33), (3, 31, "Mar"));
    assert_eq!(day_to_month_day(29), (6, 1, "Jun"));
    assert_eq!(day_to_month_day(59), (7, 1, "Jul"));
    assert_eq!(day_to_month_day(90), (8, 1, "Aug"));
    assert_eq!(day_of_week_letter(0), "S");
    assert_eq!(day_of_week_letter(1), "M");
    assert_eq!(day_of_week_letter(-1), "S");
    assert_eq!(day_of_week_letter(-2), "F");
    assert_eq!(day_of_week_letter(10), "W");
    assert_eq!(day_of_week_letter(11), "T");
    assert_eq!(day_of_week_letter(4), day_of_week_letter(4 + 7));
}

#[test]
fn status_labels_and_colors() {
    assert_eq!(JobStatus::Offer.label(), "Offer");
    assert_eq!(JobStatus::Screening.color(), [0x00, 0x99, 0xFF, 0xFF]);
}

#[test]
fn loaded_jobs_get_a_research_status() {
    let mut jobs = interprep::desktop::samples::sample_jobs();
    jobs[0].research_status = "  ".to_owned();
    jobs[1].research_status = String::new();
    jobs[1].job_description = " ".to_owned();
    normalize_loaded(&mut jobs);
    assert_eq!(jobs[0].research_status, "Not started");
    assert_eq!(jobs[1].research_status, "No JD added");
}

#[test]
fn credential_entries() {
    assert_eq!(field_names(), vec!["gemini_api_key", "glassdoor_email", "glassdoor_password", "indeed_email", "indeed_password"]);
    assert!(matches!(store_op(""), StoreOp::Delete));
    assert!(matches!(store_op("k"), StoreOp::Write(v) if v == "k"));
    assert_eq!(stored_value(Lookup::Found("k".to_owned())), "k");
    assert_eq!(stored_value(Lookup::NoEntry), "");
    assert_eq!(stored_value(Lookup::Failed), "");
    let c = Credentials::from_values(vec!["g".into(), "ge".into(), "gp".into(), "ie".into(), "ip".into()]);
    assert_eq!(c.indeed_password, "ip");
    let ops = c.save_ops();
    assert_eq!(ops[1].0, "glassdoor_email");
}

#[test]
fn command_line_modes() {
    let mut a = cli();
    assert_eq!(run_mode(true, &a), RunMode::Gui);
    assert_eq!(run_mode(false, &a), RunMode::Record);
    a.list_devices = true;
    assert_eq!(run_mode(false, &a), RunMode::ListDevices);
    a.gui = true;
    assert_eq!(run_mode(false, &a), RunMode::Gui);
    let _seed = UiSeed::from_args(&a);
    assert_eq!(duration_from_seconds(0), None);
    assert_eq!(duration_from_seconds(5), Some(5));
    assert_eq!(recording_notice(0), "Press Ctrl+C to stop recording.");
    assert_eq!(recording_notice(10), "Recording for 10 second(s)...");
    let c = recorder_config(&cli());
    assert_eq!(c.mic_device_name.as_deref(), Some("Headset"));
    assert_eq!(c.output_dir, "captures");
}

#[test]
fn pcm_samples_decode() {
    assert_eq!(decode_i24_le(&[0xff, 0xff, 0xff]), Ok(-1));
    assert_eq!(decode_i24_le(&[0x00, 0x00, 0x80]), Ok(-8388608));
    assert_eq!(decode_i24_le(&[0x01, 0x02, 0x03]), Ok(0x030201));
    assert!(decode_i24_le(&[1, 2]).is_err());
    assert_eq!(int_sample(&[0x80], 8), Ok((0, 128)));
    assert_eq!(int_sample(&[0x00, 0x80], 16), Ok((-32768, 32768)));
    assert_eq!(int_sample(&[0xff, 0xff, 0xff, 0x7f], 32), Ok((2147483647, 2147483648)));
    assert_eq!(int_sample(&[0], 12), Err("unsupported PCM sample width: 12 bits".to_owned()));
    assert_eq!(int_sample(&[0, 0, 0], 16), Err("invalid 16-bit integer sample".to_owned()));
    assert_eq!(float_sample_bytes(&[1, 2, 3, 4], 32), Ok([1, 2, 3, 4]));
    assert_eq!(float_sample_bytes(&[1, 2], 64), Err("unsupported floating-point sample width: 64 bits".to_owned()));
    assert_eq!(packet_sample_count(12, 32), Ok(3));
    assert_eq!(packet_sample_count(10, 32), Err("packet size 10 is not aligned to the sample width 4".to_owned()));
    assert_eq!(packet_sample_count(10, 4), Err("unsupported sample width: 4 bits".to_owned()));
}

#[test]
fn recorder_helpers() {
    assert_eq!(CaptureSource::SystemAudio.label(), "system audio");
    assert_eq!(CaptureSource::Microphone.worker_name(), "capture-mic");
    assert!(auto_stop_due(10_000_000_000, Some(10)));
    assert!(!auto_stop_due(9_999_999_999, Some(10)));
    assert!(!auto_stop_due(u128::MAX, None));
    let devices = vec![
        AudioDeviceEntry { name: "Speakers".to_owned(), is_default: true },
        AudioDeviceEntry { name: "HDMI".to_owned(), is_default: false },
    ];
    assert_eq!(device_lines(&devices), vec!["  [default] Speakers", "  [       ] HDMI"]);
    assert_eq!(device_lines(&Vec::new()), vec!["  (no active devices found)"]);
}

#[test]
fn sidecar_command_line() {
    assert_eq!(base_url(8765), "http://127.0.0.1:8765");
    assert_eq!(health_url(80), "http://127.0.0.1:80/health");
    assert_eq!(port_or_default(None), 8765);
    assert_eq!(
        uvicorn_args(&vec!["-3.12".to_owned()], 9000),
        vec!["-3.12", "-m", "uvicorn", "main:app", "--port", "9000", "--host", "127.0.0.1", "--log-level", "error"]
    );
}

#[test]
fn credentials_from_keychain_reads() {
    let c = Credentials::from_lookups(vec![
        Lookup::Found("key".to_owned()),
        Lookup::NoEntry,
        Lookup::Failed,
        Lookup::Found(String::new()),
        Lookup::Found("pw".to_owned()),
    ]);
    assert_eq!(c.gemini_api_key, "key");
    assert!(c.glassdoor_email.is_empty());
    assert!(c.glassdoor_password.is_empty());
    assert!(c.indeed_email.is_empty());
    assert_eq!(c.indeed_password, "pw");
}

#[test]
fn store_file_locations() {
    assert_eq!(interprep::desktop::jobs_store::jobs_path(), vec!["InterPrep", "jobs.json"]);
    assert_eq!(interprep::desktop::storage::index_path(), vec!["InterPrep".to_owned(), "resumes.json".to_owned()]);
    assert_eq!(interprep::shell::stores::jobs_path(), vec!["InterPrep", "jobs.json"]);
    assert_eq!(interprep::shell::stores::resumes_path(), vec!["InterPrep", "resumes.json"]);
}

fn docx_archive(xml: &str) -> Vec<u8> {
    let mut w = zip::ZipWriter::new(std::io::Cursor::new(Vec::new()));
    w.start_file("word/document.xml", zip::write::SimpleFileOptions::default()).unwrap();
    w.write_all(xml.as_bytes()).unwrap();
    w.finish().unwrap().into_inner()
}

#[test]
fn docx_archive_text_is_extracted() {
    let bytes = docx_archive("<w:body><w:p><w:r><w:t>Jane &amp; Co</w:t></w:r></w:p><w:p><w:t>Engineer</w:t></w:p></w:body>");
    assert_eq!(extract_docx_text(&bytes), Some("Jane & Co\nEngineer\n".to_owned()));
    assert_eq!(
        read_resume_bytes(Some("cv"), Some("DOCX"), &bytes, None),
        Some(("cv".to_owned(), "Jane & Co\nEngineer".to_owned()))
    );
    assert_eq!(extract_docx_text(b"PK not really"), None);
}

#[test]
fn stage_pills_end_at_the_next_stage_today_or_two_weeks_on() {
    let notes = vec![
        interprep::desktop::types::StageNote::new(-20, "Submitted", ""),
        interprep::desktop::types::StageNote::new(-6, "Scheduled", ""),
    ];
    assert_eq!(stage_end_day(&notes, 0, 1), -6);
    assert_eq!(stage_end_day(&notes, 1, 1), 0);
    assert_eq!(stage_end_day(&notes, 1, 0), 8);
}

#[test]
fn stream_reads_end_the_stream() {
    assert!(matches!(read_step(StreamRead::Ended), SseStep::Finish(ChatEvent::Error(ref e)) if e == "Backend stream ended before completion."));
    assert!(matches!(read_step(StreamRead::Failed("reset".to_owned())), SseStep::Finish(ChatEvent::Error(ref e)) if e == "Backend stream read failed: reset"));
    assert!(matches!(read_step(StreamRead::Line(r#"data: {"type":"done"}"#.to_owned())), SseStep::Finish(ChatEvent::Done)));
    let tok = read_step(StreamRead::Line(r#"data: {"type":"token","content":"x"}"#.to_owned()));
    assert_eq!(read_on(&tok), ReadOn::IfDelivered);
    assert_eq!(read_on(&read_step(StreamRead::Ended)), ReadOn::Never);
    assert_eq!(read_on(&read_step(StreamRead::Line(String::new()))), ReadOn::Always);
    assert!(continues(ReadOn::Always, false));
    assert!(continues(ReadOn::IfDelivered, true));
    assert!(!continues(ReadOn::IfDelivered, false));
    assert!(!continues(ReadOn::Never, true));
}
