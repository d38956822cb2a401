//! Decisions of the live interview voice loop: when a transcribed question
//! looks cut off mid-sentence, how the segments of one question are joined,
//! and how streamed 16-bit PCM bytes split into samples.
use vstd::prelude::*;
use crate::text::{ascii_lowercase, str_eq, trim, trim_end};

verus! {

// ─── Unfinished questions ───────────────────────────────────────────────────

/// What `char::is_alphanumeric` says of a character outside ASCII.
pub uninterp spec fn unicode_alphanumeric(c: char) -> bool;

/// What `str::to_lowercase` makes of a string holding a non-ASCII
/// character.
pub uninterp spec fn unicode_lowercase(s: Seq<char>) -> Seq<char>;

/// `char::is_alphanumeric` on `c`, which is not ASCII. Claims only that the
/// result is [`unicode_alphanumeric`] of `c`.
#[verifier::external_body]
fn non_ascii_alphanumeric(c: char) -> (r: bool)
    requires
        !crate::text::is_ascii_char(c),
    ensures
        r == unicode_alphanumeric(c),
{
    c.is_alphanumeric()
}

/// `str::to_lowercase` on `s`, which holds a non-ASCII character. Claims
/// only that the result is [`unicode_lowercase`] of `s`.
#[verifier::external_body]
fn non_ascii_lowercase(s: &str) -> (r: String)
    ensures
        r@ == unicode_lowercase(s@),
{
    s.to_lowercase()
}

/// `char::is_alphanumeric`: ASCII letters and digits, and the Unicode
/// letters and numbers beyond ASCII.
pub open spec fn alphanumeric(c: char) -> bool {
    if crate::text::is_ascii_char(c) {
        ('0' <= c <= '9') || ('a' <= c <= 'z') || ('A' <= c <= 'Z')
    } else {
        unicode_alphanumeric(c)
    }
}

/// A character that belongs to a word: alphanumeric or an apostrophe.
pub open spec fn word_char(c: char) -> bool {
    alphanumeric(c) || c == '\''
}

pub open spec fn all_ascii(s: Seq<char>) -> bool {
    forall|i: int| 0 <= i < s.len() ==> crate::text::is_ascii_char(s[i])
}

/// `str::to_lowercase`.
pub open spec fn lowercase(s: Seq<char>) -> Seq<char> {
    if all_ascii(s) {
        ascii_lowercase(s)
    } else {
        unicode_lowercase(s)
    }
}

/// `s` without the non-word characters at its end.
pub open spec fn drop_trailing_non_word(s: Seq<char>) -> Seq<char>
    decreases s.len(),
{
    if s.len() > 0 && !word_char(s.last()) {
        drop_trailing_non_word(s.drop_last())
    } else {
        s
    }
}

/// The run of word characters at the end of `s`.
pub open spec fn trailing_word_run(s: Seq<char>) -> Seq<char>
    decreases s.len(),
{
    if s.len() > 0 && word_char(s.last()) {
        trailing_word_run(s.drop_last()).push(s.last())
    } else {
        seq![]
    }
}

/// The last word of `s` (empty when it has none).
pub open spec fn last_word(s: Seq<char>) -> Seq<char> {
    trailing_word_run(drop_trailing_non_word(s))
}

/// Words after which a question cannot have ended.
pub open spec fn clause_opener(w: Seq<char>) -> bool {
    ||| w == "and"@ ||| w == "or"@ ||| w == "but"@ ||| w == "so"@ ||| w == "because"@
    ||| w == "if"@ ||| w == "when"@ ||| w == "while"@ ||| w == "with"@ ||| w == "to"@
    ||| w == "of"@ ||| w == "for"@ ||| w == "about"@ ||| w == "the"@ ||| w == "a"@
    ||| w == "an"@ ||| w == "your"@ ||| w == "how"@ ||| w == "what"@ ||| w == "which"@
    ||| w == "that"@ ||| w == "into"@ ||| w == "on"@ ||| w == "in"@
}

/// A transcript that strongly looks cut off mid-sentence: once trimmed at
/// its end it is not empty and it ends with `,`, `;`, `:` or `-`, or its
/// last word, lowercased, opens a clause.
pub open spec fn unfinished(text: Seq<char>) -> bool {
    let t = trim_end(text);
    if t.len() == 0 {
        false
    } else if t.last() == ',' || t.last() == ';' || t.last() == ':' || t.last() == '-' {
        true
    } else {
        clause_opener(lowercase(last_word(t)))
    }
}

fn is_word_char(c: char) -> (r: bool)
    ensures
        r == word_char(c),
{
    if c == '\'' {
        return true;
    }
    if (c as u32) < 128 {
        ('0' <= c && c <= '9') || ('a' <= c && c <= 'z') || ('A' <= c && c <= 'Z')
    } else {
        non_ascii_alphanumeric(c)
    }
}

/// Computes [`last_word`].
fn last_word_of(s: &Vec<char>) -> (r: Vec<char>)
    ensures
        r@ == last_word(s@),
{
    let mut end: usize = s.len();
    assert(s@.take(end as int) =~= s@);
    while end > 0 && !is_word_char(s[end - 1])
        invariant
            end <= s.len(),
            drop_trailing_non_word(s@) == drop_trailing_non_word(s@.take(end as int)),
        decreases end,
    {
        assert(s@.take(end as int).drop_last() =~= s@.take(end - 1));
        end -= 1;
    }
    assert(drop_trailing_non_word(s@.take(end as int)) == s@.take(end as int));
    let mut start: usize = end;
    while start > 0 && is_word_char(s[start - 1])
        invariant
            start <= end <= s.len(),
            trailing_word_run(s@.take(end as int)) == trailing_word_run(s@.take(start as int))
                + s@.subrange(start as int, end as int),
        decreases start,
    {
        assert(s@.take(start as int).drop_last() =~= s@.take(start - 1));
        assert(s@.subrange(start - 1, end as int) =~= seq![s@[start - 1]] + s@.subrange(
            start as int,
            end as int,
        ));
        start -= 1;
    }
    assert(trailing_word_run(s@.take(start as int)) =~= Seq::<char>::empty());
    let mut r: Vec<char> = Vec::new();
    let mut i: usize = start;
    while i < end
        invariant
            start <= i <= end <= s.len(),
            r@ == s@.subrange(start as int, i as int),
        decreases end - i,
    {
        r.push(s[i]);
        i += 1;
        assert(r@ =~= s@.subrange(start as int, i as int));
    }
    assert(r@ =~= trailing_word_run(s@.take(end as int)));
    r
}

/// Computes [`lowercase`].
fn lowercase_of(w: &Vec<char>) -> (r: String)
    ensures
        r@ == lowercase(w@),
{
    let mut i: usize = 0;
    while i < w.len()
        invariant
            0 <= i <= w.len(),
            forall|k: int| 0 <= k < i ==> crate::text::is_ascii_char(w@[k]),
        decreases w.len() - i,
    {
        if (w[i] as u32) >= 128 {
            assert(!crate::text::is_ascii_char(w@[i as int]));
            let s = crate::text::string_from_chars(w);
            return non_ascii_lowercase(s.as_str());
        }
        i += 1;
    }
    let s = crate::text::string_from_chars(w);
    crate::text::ascii_lowercase_str(s.as_str())
}

/// Computes [`unfinished`]: whether to listen on for the rest of a
/// question.
pub fn looks_unfinished(text: &str) -> (r: bool)
    ensures
        r == unfinished(text@),
{
    let t = crate::text::trimmed_end(text);
    let v = crate::text::chars_of(t.as_str());
    if v.len() == 0 {
        return false;
    }
    let last = v[v.len() - 1];
    if last == ',' || last == ';' || last == ':' || last == '-' {
        return true;
    }
    let w = last_word_of(&v);
    let l = lowercase_of(&w);
    clause_opener_exec(l.as_str())
}

fn clause_opener_exec(w: &str) -> (r: bool)
    ensures
        r == clause_opener(w@),
{
    str_eq(w, "and") || str_eq(w, "or") || str_eq(w, "but") || str_eq(w, "so") || str_eq(w, "because")
        || str_eq(w, "if") || str_eq(w, "when") || str_eq(w, "while") || str_eq(w, "with")
        || str_eq(w, "to") || str_eq(w, "of") || str_eq(w, "for") || str_eq(w, "about")
        || str_eq(w, "the") || str_eq(w, "a") || str_eq(w, "an") || str_eq(w, "your")
        || str_eq(w, "how") || str_eq(w, "what") || str_eq(w, "which") || str_eq(w, "that")
        || str_eq(w, "into") || str_eq(w, "on") || str_eq(w, "in")
}

// ─── Stitching one question ─────────────────────────────────────────────────

/// How one listening segment ended.
pub enum ListenEvent {
    /// The segment was captured and transcribed to this text.
    Transcribed(String),
    /// Transcription failed; the text says why.
    SttFailed(String),
    /// Nothing was heard, or listening was cancelled.
    NothingHeard,
    /// Capture failed; the text says why.
    CaptureFailed(String),
}

/// The transcript so far and how many segments were listened to.
pub struct QuestionListen {
    pub text: String,
    pub segments: usize,
}

/// `text` with the trimmed `segment` appended, a space between when both
/// are non-empty.
pub open spec fn joined(text: Seq<char>, segment: Seq<char>) -> Seq<char> {
    let t = trim(segment);
    if t.len() == 0 {
        text
    } else if text.len() == 0 {
        t
    } else {
        text + " "@ + t
    }
}

impl QuestionListen {
    pub fn new() -> (r: Self)
        ensures
            r.text@ == Seq::<char>::empty(),
            r.segments == 0,
    {
        QuestionListen { text: String::new(), segments: 0 }
    }

    /// Whether the next segment waits the short continuation timeout rather
    /// than the long wait for a question to start.
    pub fn continuing(&self) -> (r: bool)
        ensures
            r == (self.segments > 0),
    {
        self.segments > 0
    }

    /// Takes how a segment ended; `finish_pressed`: the user asked to
    /// transcribe now. Returns whether to listen for another segment, and
    /// an error to report. A transcript is joined on; listening goes on only
    /// when the user did not end it, the text [`unfinished`] and fewer than
    /// three segments were heard.
    pub fn step(&mut self, event: ListenEvent, finish_pressed: bool) -> (r: (bool, Option<String>))
        requires
            old(self).segments < 3,
        ensures
            final(self).segments == old(self).segments + 1,
            match event {
                ListenEvent::Transcribed(t) => {
                    &&& final(self).text@ == joined(old(self).text@, t@)
                    &&& r.0 == (!finish_pressed && unfinished(final(self).text@) && final(self).segments
                        < 3)
                    &&& r.1 is None
                },
                ListenEvent::SttFailed(e) => {
                    &&& final(self).text == old(self).text
                    &&& !r.0
                    &&& crate::desktop::types::opt_view(r.1) == Some(e@)
                },
                ListenEvent::NothingHeard => {
                    &&& final(self).text == old(self).text
                    &&& !r.0
                    &&& r.1 is None
                },
                ListenEvent::CaptureFailed(e) => {
                    &&& final(self).text == old(self).text
                    &&& !r.0
                    &&& crate::desktop::types::opt_view(r.1) == Some("system listen failed: "@ + e@)
                },
            },
    {
        self.segments = self.segments + 1;
        match event {
            ListenEvent::Transcribed(t) => {
                proof {
                    reveal_strlit(" ");
                }
                let tt = crate::text::trimmed(t.as_str());
                if !tt.as_str().is_empty() {
                    if !self.text.as_str().is_empty() {
                        crate::text::push_char(&mut self.text, ' ');
                        crate::text::push_str(&mut self.text, tt.as_str());
                        assert(self.text@ =~= old(self).text@ + " "@ + tt@);
                    } else {
                        crate::text::push_str(&mut self.text, tt.as_str());
                        assert(self.text@ =~= tt@);
                    }
                }
                let again = !finish_pressed && looks_unfinished(self.text.as_str()) && self.segments < 3;
                (again, None)
            },
            ListenEvent::SttFailed(e) => (false, Some(e)),
            ListenEvent::NothingHeard => (false, None),
            ListenEvent::CaptureFailed(e) => {
                let mut m = crate::text::owned("system listen failed: ");
                crate::text::push_str(&mut m, e.as_str());
                (false, Some(m))
            },
        }
    }

    /// The transcript to hand over: empty when the user cancelled.
    pub fn transcript(&self, cancelled: bool) -> (r: String)
        ensures
            r@ == if cancelled {
                Seq::<char>::empty()
            } else {
                self.text@
            },
    {
        if cancelled {
            String::new()
        } else {
            self.text.clone()
        }
    }
}

// ─── Streamed PCM ───────────────────────────────────────────────────────────

/// The little-endian signed 16-bit sample of bytes `lo`, `hi`.
pub open spec fn sample16(lo: u8, hi: u8) -> int {
    let u = lo + 256 * hi;
    if u >= 32768 {
        u - 65536
    } else {
        u
    }
}

/// Splits buffered bytes into whole 16-bit samples and the odd byte left
/// over for the next read.
pub fn pcm16_samples(buf: &Vec<u8>) -> (r: (Vec<i16>, Option<u8>))
    ensures
        r.0@.len() == buf@.len() / 2,
        forall|i: int| 0 <= i < r.0@.len() ==> #[trigger] r.0@[i] == sample16(buf@[2 * i], buf@[2 * i + 1]),
        buf@.len() % 2 == 1 ==> r.1 == Some(buf@[buf@.len() - 1]),
        buf@.len() % 2 == 0 ==> r.1 is None,
{
    let pairs = buf.len() / 2;
    let mut out: Vec<i16> = Vec::new();
    let mut i: usize = 0;
    while i < pairs
        invariant
            pairs == buf@.len() / 2,
            0 <= i <= pairs,
            out@.len() == i,
            forall|k: int| 0 <= k < i ==> #[trigger] out@[k] == sample16(buf@[2 * k], buf@[2 * k + 1]),
        decreases pairs - i,
    {
        assert(2 * i + 1 < buf.len());
        let lo = buf[2 * i];
        let hi = buf[2 * i + 1];
        let u: i32 = lo as i32 + 256 * (hi as i32);
        let s: i32 = if u >= 32768 {
            u - 65536
        } else {
            u
        };
        out.push(s as i16);
        i += 1;
    }
    let rest = if buf.len() % 2 == 1 {
        Some(buf[buf.len() - 1])
    } else {
        None
    };
    (out, rest)
}

} // verus!
