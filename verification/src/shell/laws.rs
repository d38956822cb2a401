//! Properties of the shell that span its operations: what it writes to disk
//! is what it accepts when reading back, and how the event stream ends.
use vstd::prelude::*;
use crate::shell::bridge::hex_of;
use crate::shell::sidecar::{all_digits, digits_value, parse_u16, stored_token, token_ok};
use crate::shell::stream::{ContentView, StreamStepView, emitted, ev, is_terminal, object_step, read_step_spec, stream_line_step_spec};
use crate::sse::PayloadView;
use crate::text::{decimal, digit_char, is_ws, trim};

verus! {

/// Text without whitespace is its own trim.
pub proof fn lemma_trim_no_ws(s: Seq<char>)
    requires
        forall|i: int| 0 <= i < s.len() ==> !is_ws(#[trigger] s[i]),
    ensures
        trim(s) == s,
{
    crate::text::lemma_trim_start_skip(s, 0);
    assert(s.skip(0) =~= s);
    crate::text::lemma_trim_end_take(s, s.len() as int);
    assert(s.take(s.len() as int) =~= s);
}

/// A token minted from 32 random bytes is accepted when the token file is
/// read back at the next start.
pub proof fn law_minted_token_accepted(b: Seq<u8>)
    requires
        b.len() == 32,
    ensures
        stored_token(hex_of(b)) == Some(hex_of(b)),
{
    crate::shell::bridge::lemma_hex_of(b);
    let h = hex_of(b);
    assert forall|i: int| 0 <= i < h.len() implies !is_ws(#[trigger] h[i]) by {
        assert(crate::text::is_hex_digit(h[i]));
    }
    lemma_trim_no_ws(h);
    assert(token_ok(h));
}

proof fn lemma_decimal(n: nat)
    ensures
        decimal(n).len() > 0,
        all_digits(decimal(n)),
        digits_value(decimal(n)) == n,
        decimal(n)[0] != '+',
        forall|i: int| 0 <= i < decimal(n).len() ==> !is_ws(#[trigger] decimal(n)[i]),
    decreases n,
{
    assert(digit_char(n % 10) as int == 48 + n % 10);
    if n < 10 {
        assert(decimal(n) == seq![digit_char(n)]);
        assert(decimal(n).drop_last() =~= Seq::<char>::empty());
        assert(n % 10 == n);
        assert(decimal(n).last() == digit_char(n));
        assert(digits_value(decimal(n)) == digits_value(decimal(n).drop_last()) * 10 + (decimal(n).last() as int - 48));
        assert(digits_value(decimal(n)) == n);
    } else {
        lemma_decimal(n / 10);
        let p = decimal(n / 10);
        let d = decimal(n);
        assert(d == p.push(digit_char(n % 10)));
        assert(d.drop_last() =~= p);
        assert(d.last() == digit_char(n % 10));
        assert(digits_value(d) == digits_value(p) * 10 + (n % 10));
        assert forall|i: int| 0 <= i < d.len() implies crate::text::is_digit(d[i]) by {
            if i < p.len() {
                assert(d[i] == p[i]);
            }
        }
        assert forall|i: int| 0 <= i < d.len() implies !is_ws(#[trigger] d[i]) by {
            if i < p.len() {
                assert(d[i] == p[i]);
            }
        }
        assert(d[0] == p[0]);
        assert((n / 10) * 10 + n % 10 == n) by (nonlinear_arith);
    }
}

/// The port written to the port file at one start is the one read back at
/// the next: reading the decimal digits of `p` gives `p`.
pub proof fn law_port_round_trip(p: u16)
    ensures
        parse_u16(decimal(p as nat)) == Some(p),
        trim(decimal(p as nat)) == decimal(p as nat),
{
    lemma_decimal(p as nat);
    lemma_trim_no_ws(decimal(p as nat));
}

/// A `done` event, or the OpenAI-style `[DONE]` terminator, ends the
/// stream with `chat:done`.
pub proof fn law_stream_done_finishes(data: Seq<char>)
    requires
        trim(data) == "[DONE]"@ || (crate::sse::sse_payload(data) matches Some(p) && p.kind == Some(
            "done"@,
        ) && trim(data) != "[DONE]"@),
    ensures
        stream_line_step_spec("data: "@ + data) == StreamStepView::Finish(
            ev("chat:done"@, ContentView::Null),
        ),
{
    reveal_strlit("data: ");
    let line = "data: "@ + data;
    assert(line.subrange(0, 6) =~= "data: "@);
    assert(line.skip(6) =~= data);
    reveal_strlit("token");
    reveal_strlit("stage");
    reveal_strlit("scorecard");
    reveal_strlit("resume_docx");
    reveal_strlit("tailored_resume");
    reveal_strlit("done");
    if trim(data) != "[DONE]"@ {
        let p = crate::sse::sse_payload(data)->0;
        assert("done"@.len() == 4);
        assert("token"@.len() == 5);
        assert("done"@ != "token"@);
        assert(p.kind == Some("done"@));
        assert(p.kind != Some("token"@));
        assert(p.kind != Some("stage"@));
        assert(p.kind != Some("scorecard"@));
        assert(p.kind != Some("resume_docx"@));
        assert(p.kind != Some("tailored_resume"@));
    }
}

/// The names of the events a stream emits on the way are not those that
/// end it.
proof fn lemma_event_names()
    ensures
        !is_terminal("chat:token"@),
        !is_terminal("chat:log"@),
        !is_terminal("chat:scorecard"@),
        !is_terminal("chat:resume_docx"@),
        !is_terminal("chat:tailored_resume"@),
        is_terminal("chat:done"@),
        is_terminal("chat:error"@),
{
    reveal_strlit("chat:token");
    reveal_strlit("chat:log");
    reveal_strlit("chat:scorecard");
    reveal_strlit("chat:resume_docx");
    reveal_strlit("chat:tailored_resume");
    reveal_strlit("chat:done");
    reveal_strlit("chat:error");
    assert("chat:token"@[5] != "chat:done"@[5]);
    assert("chat:token"@[5] != "chat:error"@[5]);
}

/// A step emits an ending event exactly when it finishes the stream.
pub proof fn lemma_terminal_iff_finish(r: crate::sse::ReadView)
    ensures
        match read_step_spec(r) {
            StreamStepView::Skip => true,
            StreamStepView::Emit(e) => !is_terminal(e.event),
            StreamStepView::EmitOrStop(e) => !is_terminal(e.event),
            StreamStepView::Finish(e) => is_terminal(e.event),
        },
{
    lemma_event_names();
}

/// A stream read to its end (the last read is a failure or the end of the
/// body) emits exactly one `chat:done` or `chat:error`, and it is the last
/// event.
pub proof fn law_stream_ends_once(reads: Seq<crate::sse::ReadView>)
    requires
        reads.len() > 0,
        !(reads.last() is Line),
    ensures
        emitted(reads).len() > 0,
        is_terminal(emitted(reads).last().event),
        forall|i: int| 0 <= i < emitted(reads).len() - 1 ==> !is_terminal(#[trigger] emitted(reads)[i].event),
    decreases reads.len(),
{
    lemma_terminal_iff_finish(reads[0]);
    let rest = reads.drop_first();
    match read_step_spec(reads[0]) {
        StreamStepView::Finish(e) => {},
        StreamStepView::Skip => {
            assert(reads.len() > 1);
            assert(rest.last() == reads.last());
            law_stream_ends_once(rest);
        },
        StreamStepView::Emit(e) => {
            assert(reads.len() > 1);
            assert(rest.last() == reads.last());
            law_stream_ends_once(rest);
            let es = emitted(reads);
            assert(es == seq![e] + emitted(rest));
            assert forall|i: int| 0 <= i < es.len() - 1 implies !is_terminal(#[trigger] es[i].event) by {
                if i > 0 {
                    assert(es[i] == emitted(rest)[i - 1]);
                }
            }
        },
        StreamStepView::EmitOrStop(e) => {
            assert(reads.len() > 1);
            assert(rest.last() == reads.last());
            law_stream_ends_once(rest);
            let es = emitted(reads);
            assert(es == seq![e] + emitted(rest));
            assert forall|i: int| 0 <= i < es.len() - 1 implies !is_terminal(#[trigger] es[i].event) by {
                if i > 0 {
                    assert(es[i] == emitted(rest)[i - 1]);
                }
            }
        },
    }
}

/// Every event object the backend sends with string content reaches the
/// front end as `chat:<kind>` with that content: tokens (whose emit may
/// stop the stream), stage lines as `chat:log`, `.docx` text and tailored
/// resumes; a scorecard goes on as JSON; `done` and `error` finish the
/// stream.
pub proof fn law_objects_forwarded(p: PayloadView)
    ensures
        (p.kind == Some("token"@) && p.text is Some) ==> object_step(p) == StreamStepView::EmitOrStop(
            ev("chat:token"@, ContentView::Text(p.text->0)),
        ),
        (p.kind == Some("stage"@) && p.text is Some) ==> object_step(p) == StreamStepView::Emit(
            ev("chat:log"@, ContentView::Text(p.text->0)),
        ),
        p.kind == Some("scorecard"@) ==> object_step(p) == StreamStepView::Emit(
            ev("chat:scorecard"@, ContentView::Json(p.content_json)),
        ),
        (p.kind == Some("resume_docx"@) && p.text is Some) ==> object_step(p) == StreamStepView::Emit(
            ev("chat:resume_docx"@, ContentView::Text(p.text->0)),
        ),
        (p.kind == Some("tailored_resume"@) && p.text is Some) ==> object_step(p)
            == StreamStepView::Emit(ev("chat:tailored_resume"@, ContentView::Text(p.text->0))),
        p.kind == Some("done"@) ==> object_step(p) == StreamStepView::Finish(ev("chat:done"@, ContentView::Null)),
        (p.kind == Some("error"@) && p.text is Some) ==> object_step(p) == StreamStepView::Finish(
            ev("chat:error"@, ContentView::Text(p.text->0)),
        ),
{
    reveal_strlit("token");
    reveal_strlit("stage");
    reveal_strlit("scorecard");
    reveal_strlit("resume_docx");
    reveal_strlit("tailored_resume");
    reveal_strlit("done");
    reveal_strlit("error");
    assert("token"@.len() == 5 && "stage"@.len() == 5 && "error"@.len() == 5 && "done"@.len() == 4);
    assert("scorecard"@.len() == 9 && "resume_docx"@.len() == 11 && "tailored_resume"@.len() == 15);
    assert("token"@[0] != "stage"@[0]);
    assert("token"@[0] != "error"@[0]);
    assert("stage"@[0] != "error"@[0]);
}

} // verus!
