use interprep::shell::stream::{read_on as shell_read_on, read_step as shell_read_step};
use interprep::sse::{ReadOn, StreamRead};
use interprep::desktop::credentials::Lookup;
use interprep::shell::replies::{refused_error, reply_error, sample_rate, stt_text, tts_audio};
use interprep::shell::bridge::{gen_token, hex_token, BridgeState, SidecarStatus};
use interprep::shell::commands::{
    application_file, check_can_start, decode_resume_docx, non_empty, opt, recording_config,
    StartRecordingArgs,
};
use interprep::shell::credentials::{field_result, legacy_fields, open_failed, write_result, Credentials, WriteOutcome};
use interprep::shell::sidecar::{
    accept_stored_token, bridge_file_body, exited_error, not_ready_error, parse_port, remembered_port,
    sidecar_args,
};
use interprep::shell::stream::{
    http_error_text, stream_line_step, EmitContent, StreamKind, StreamStep,
};
use interprep::shell::voice::{looks_unfinished, pcm16_samples, ListenEvent, QuestionListen};

#[test]
fn bridge_state_lifecycle() {
    let mut s = BridgeState::new();
    assert!(matches!(s.status(), SidecarStatus::Starting));
    assert_eq!(s.require_url(), Err("Backend is not ready yet".to_owned()));
    s.on_failed("no python".to_owned());
    assert!(matches!(s.status(), SidecarStatus::Failed(e) if e == "no python"));
    s.on_started("http://127.0.0.1:8765".to_owned(), "abc".to_owned(), 8765);
    assert!(matches!(s.status(), SidecarStatus::Ready(u) if u == "http://127.0.0.1:8765"));
    assert_eq!(s.url_and_token(), Ok(("http://127.0.0.1:8765".to_owned(), "abc".to_owned())));
    let p = s.pairing().expect("paired");
    assert_eq!(p.code, "ODc2NTphYmM=");
    s.on_exit();
    assert!(s.require_url().is_err());
}

#[test]
fn tokens_are_64_hex_digits_and_read_back() {
    let t = gen_token().expect("randomness");
    assert_eq!(t.len(), 64);
    assert!(t.chars().all(|c| c.is_ascii_hexdigit() && !c.is_ascii_uppercase()));
    assert_eq!(accept_stored_token(&format!("  {t}\n")), Some(t.clone()));
    assert_eq!(hex_token(&[0x00, 0xff, 0x1a]), "00ff1a");
    assert_eq!(accept_stored_token("xyz"), None);
    assert_eq!(accept_stored_token(&"g".repeat(64)), None);
    assert_eq!(accept_stored_token(&"A".repeat(64)), Some("A".repeat(64)));
}

#[test]
fn ports_read_back() {
    assert_eq!(parse_port("8765"), Some(8765));
    assert_eq!(parse_port("+80"), Some(80));
    assert_eq!(parse_port("65536"), None);
    assert_eq!(parse_port("-1"), None);
    assert_eq!(parse_port(""), None);
    assert_eq!(parse_port("+"), None);
    for s in ["0", "007", "65535", " 1", "12a"] {
        assert_eq!(parse_port(s), s.parse::<u16>().ok());
    }
    assert_eq!(remembered_port(" 9000\n"), Some(9000));
    assert_eq!(remembered_port("0"), None);
    for p in [1u16, 80, 8765, 65535] {
        assert_eq!(remembered_port(&p.to_string()), Some(p));
    }
}

#[test]
fn pairing_file_and_command_line() {
    assert_eq!(bridge_file_body(8765, "ab"), "{\n  \"port\": 8765,\n  \"token\": \"ab\"\n}\n");
    assert_eq!(
        sidecar_args(&Vec::new(), 9001),
        vec!["-u", "-m", "uvicorn", "main:app", "--host", "127.0.0.1", "--port", "9001", "--log-level", "info", "--no-access-log"]
    );
    assert_eq!(not_ready_error(), "Python backend did not become ready within 180 seconds");
    assert_eq!(exited_error("exit code: 1"), "Python backend exited during startup (exit code: 1). See sidecar.log for the traceback.");
}

#[test]
fn stream_lines_become_window_events() {
    let emitted = |s: StreamStep| match s {
        StreamStep::Emit(e) | StreamStep::EmitOrStop(e) | StreamStep::Finish(e) => {
            let c = match e.content {
                EmitContent::Text(t) => format!("text:{t}"),
                EmitContent::Json(t) => format!("json:{t}"),
                EmitContent::Null => "null".to_owned(),
            };
            format!("{}={c}", e.event)
        }
        StreamStep::Skip => "skip".to_owned(),
    };
    assert_eq!(emitted(stream_line_step("")), "skip");
    assert_eq!(emitted(stream_line_step(": keepalive")), "skip");
    assert_eq!(emitted(stream_line_step("data:  [DONE] ")), "chat:done=null");
    assert_eq!(emitted(stream_line_step("data: plain words")), "chat:token=text:plain words");
    assert!(matches!(stream_line_step(r#"data: {"type":"token","content":"x"}"#), StreamStep::EmitOrStop(_)));
    assert_eq!(emitted(stream_line_step(r#"data: {"type":"stage","content":"s"}"#)), "chat:log=text:s");
    assert_eq!(emitted(stream_line_step(r#"data: {"type":"scorecard","content":[1,2]}"#)), "chat:scorecard=json:[1,2]");
    assert_eq!(emitted(stream_line_step(r#"data: {"type":"resume_docx","content":"QQ=="}"#)), "chat:resume_docx=text:QQ==");
    assert!(matches!(stream_line_step(r#"data: {"type":"done"}"#), StreamStep::Finish(_)));
    assert_eq!(emitted(stream_line_step(r#"data: {"type":"error","content":"bad"}"#)), "chat:error=text:bad");
    assert_eq!(emitted(stream_line_step(r#"data: {"type":"mystery"}"#)), "skip");
    assert_eq!(http_error_text("404 Not Found", "nope"), "HTTP 404 Not Found: nope");
    assert_eq!(StreamKind::KnockoutScreen.url("http://h"), "http://h/application/knockout-screen");
}

#[test]
fn unfinished_questions() {
    assert!(looks_unfinished("Tell me about a time when,"));
    assert!(looks_unfinished("What would you do if the  "));
    assert!(looks_unfinished("How do you handle conflict with your"));
    assert!(looks_unfinished("and THE"));
    assert!(!looks_unfinished("What is your greatest strength?"));
    assert!(!looks_unfinished("Tell me about yourself"));
    assert!(!looks_unfinished("   "));
    assert!(looks_unfinished("I'd like to know about..."));
    assert!(!looks_unfinished("Ça va"));
}

#[test]
fn question_segments_are_stitched() {
    let mut q = QuestionListen::new();
    assert!(!q.continuing());
    let (again, err) = q.step(ListenEvent::Transcribed(" Tell me about a time when ".to_owned()), false);
    assert!(again && err.is_none());
    assert!(q.continuing());
    let (again, _) = q.step(ListenEvent::Transcribed("you failed.".to_owned()), false);
    assert!(!again);
    assert_eq!(q.transcript(false), "Tell me about a time when you failed.");
    assert_eq!(q.transcript(true), "");
    let mut q = QuestionListen::new();
    let (again, err) = q.step(ListenEvent::CaptureFailed("device lost".to_owned()), false);
    assert!(!again);
    assert_eq!(err.as_deref(), Some("system listen failed: device lost"));
    let mut q = QuestionListen::new();
    let (again, _) = q.step(ListenEvent::Transcribed("and".to_owned()), true);
    assert!(!again);
    let mut q = QuestionListen::new();
    q.step(ListenEvent::Transcribed("one,".to_owned()), false);
    q.step(ListenEvent::Transcribed("two,".to_owned()), false);
    let (again, _) = q.step(ListenEvent::Transcribed("three,".to_owned()), false);
    assert!(!again);
    assert_eq!(q.segments, 3);
}

#[test]
fn pcm_bytes_split_into_samples() {
    let (s, rest) = pcm16_samples(&vec![0x01, 0x00, 0xff, 0xff, 0x00, 0x80, 0x42]);
    assert_eq!(s, vec![1, -1, -32768]);
    assert_eq!(rest, Some(0x42));
    let (s, rest) = pcm16_samples(&vec![]);
    assert!(s.is_empty() && rest.is_none());
}

#[test]
fn recording_requests_take_defaults() {
    let c = recording_config(
        StartRecordingArgs { system_device: "  ".to_owned(), mic_file: " ".to_owned(), ..Default::default() },
        "C:/Users/u/InterPrep Recordings".to_owned(),
    );
    assert_eq!(c.output_dir, "C:/Users/u/InterPrep Recordings");
    assert_eq!(c.system_device_name, None);
    assert_eq!(c.system_file, "system_audio.wav");
    assert_eq!(c.mic_file, "microphone.wav");
    assert_eq!(c.poll_timeout_ms, 100);
    assert_eq!(opt(" x ".to_owned()), Some(" x ".to_owned()));
    assert_eq!(non_empty("".to_owned(), "f"), "f");
    assert_eq!(check_can_start(true), Err("A recording is already in progress".to_owned()));
    assert!(check_can_start(false).is_ok());
    assert_eq!(application_file("17", "cheatsheet.md"), vec!["InterPrep", "applications", "17", "cheatsheet.md"]);
}

#[test]
fn docx_from_base64() {
    assert_eq!(decode_resume_docx("UEsDBA=="), Ok(vec![0x50, 0x4b, 0x03, 0x04]));
    assert!(decode_resume_docx("***").unwrap_err().starts_with("base64 decode failed: "));
}

#[test]
fn llm_settings() {
    let mut c = Credentials::default();
    assert_eq!(c.llm_config().provider, "gemini");
    c.llm_provider = " openai ".to_owned();
    c.openai_api_key = "sk".to_owned();
    let l = c.llm_config();
    assert_eq!(l.provider, "openai");
    assert_eq!(l.openai_api_key, "sk");
    assert_eq!(legacy_fields().len(), 7);
    assert_eq!(c.entries()[0], ("llm_provider", " openai ".to_owned()));
    assert_eq!(write_result("gemini_api_key", "", WriteOutcome::NoEntry), Ok(()));
    assert_eq!(
        write_result("gemini_api_key", "k", WriteOutcome::Failed("denied".to_owned())),
        Err("write gemini_api_key failed: denied".to_owned())
    );
    assert_eq!(
        write_result("gemini_api_key", "", WriteOutcome::Failed("denied".to_owned())),
        Err("delete gemini_api_key failed: denied".to_owned())
    );
    assert_eq!(open_failed("x"), "cannot open keyring entry for x");
}

#[test]
fn backend_replies() {
    assert_eq!(refused_error("inbox_ack", "500 Internal Server Error"), "inbox_ack failed: HTTP 500 Internal Server Error");
    assert_eq!(reply_error(Some("quota".to_owned())), Err("quota".to_owned()));
    assert_eq!(reply_error(None), Ok(()));
    assert_eq!(tts_audio(None, Some("UklGRg==".to_owned())), Ok(b"RIFF".to_vec()));
    assert_eq!(tts_audio(None, None), Err("no audio in TTS response".to_owned()));
    assert_eq!(tts_audio(Some("busy".to_owned()), Some("UklGRg==".to_owned())), Err("busy".to_owned()));
    assert!(tts_audio(None, Some("!".to_owned())).unwrap_err().starts_with("base64 decode failed: "));
    assert_eq!(stt_text(None, None), Ok(String::new()));
    assert_eq!(stt_text(None, Some("hello".to_owned())), Ok("hello".to_owned()));
    assert_eq!(sample_rate(Some("24000")), 24000);
    assert_eq!(sample_rate(Some("fast")), 16000);
    assert_eq!(sample_rate(None), 16000);
}

#[test]
fn shell_credentials_from_keychain_reads() {
    let c = Credentials::from_lookups(vec![
        Lookup::NoEntry,
        Lookup::Found("g".to_owned()),
        Lookup::Failed,
        Lookup::Found("a".to_owned()),
    ]);
    assert!(c.llm_provider.is_empty());
    assert_eq!(c.gemini_api_key, "g");
    assert!(c.openai_api_key.is_empty());
    assert_eq!(c.anthropic_api_key, "a");
    assert_eq!(c.llm_config().provider, "gemini");
}

#[test]
fn shell_stream_reads_end_the_stream() {
    let name = |s: StreamStep| match s {
        StreamStep::Finish(e) => format!("finish {}", e.event),
        StreamStep::Emit(e) => format!("emit {}", e.event),
        StreamStep::EmitOrStop(e) => format!("emit-or-stop {}", e.event),
        StreamStep::Skip => "skip".to_owned(),
    };
    assert_eq!(name(shell_read_step(StreamRead::Ended)), "finish chat:done");
    assert_eq!(name(shell_read_step(StreamRead::Failed("reset".to_owned()))), "finish chat:error");
    assert_eq!(name(shell_read_step(StreamRead::Line("data: hi".to_owned()))), "emit chat:token");
    assert_eq!(shell_read_on(&shell_read_step(StreamRead::Line(r#"data: {"type":"token","content":"x"}"#.to_owned()))), ReadOn::IfDelivered);
    assert_eq!(shell_read_on(&shell_read_step(StreamRead::Ended)), ReadOn::Never);
    assert_eq!(shell_read_on(&shell_read_step(StreamRead::Line("data: hi".to_owned()))), ReadOn::Always);
}

#[test]
fn keychain_answers_become_save_results() {
    assert_eq!(field_result("gemini_api_key", "k", None), Err("cannot open keyring entry for gemini_api_key".to_owned()));
    assert_eq!(field_result("gemini_api_key", "k", Some(WriteOutcome::Done)), Ok(()));
    assert_eq!(field_result("gemini_api_key", "", Some(WriteOutcome::NoEntry)), Ok(()));
    assert_eq!(
        field_result("openai_api_key", "", Some(WriteOutcome::Failed("locked".to_owned()))),
        Err("delete openai_api_key failed: locked".to_owned())
    );
}
