//! The resume library and the rules for stored application files.
use vstd::prelude::*;

verus! {

/// A master resume: its library id, display name and plain text.
#[derive(Clone, Debug)]
pub struct Resume {
    pub id: u64,
    pub name: String,
    pub text: String,
}

pub struct ResumeView {
    pub id: u64,
    pub name: Seq<char>,
    pub text: Seq<char>,
}

impl View for Resume {
    type V = ResumeView;

    open spec fn view(&self) -> ResumeView {
        ResumeView { id: self.id, name: self.name@, text: self.text@ }
    }
}

pub open spec fn resumes_view(v: Seq<Resume>) -> Seq<ResumeView> {
    v.map_values(|r: Resume| r@)
}

/// `items` with every entry whose id is `id` removed, order kept
/// (`Vec::retain(|r| r.id != id)`).
pub open spec fn without_resume(items: Seq<ResumeView>, id: u64) -> Seq<ResumeView>
    decreases items.len(),
{
    if items.len() == 0 {
        items
    } else {
        let rest = without_resume(items.drop_last(), id);
        if items.last().id == id {
            rest
        } else {
            rest.push(items.last())
        }
    }
}

/// The resume library: the entries in insertion order and the next id to
/// hand out.
#[derive(Debug)]
pub struct ResumeStore {
    items: Vec<Resume>,
    next_id: u64,
}

pub struct ResumeStoreView {
    pub items: Seq<ResumeView>,
    pub next_id: u64,
}

impl View for ResumeStore {
    type V = ResumeStoreView;

    closed spec fn view(&self) -> ResumeStoreView {
        ResumeStoreView { items: resumes_view(self.items@), next_id: self.next_id }
    }
}

/// Every stored id is below the next id to hand out, so a new id is fresh.
pub open spec fn ids_below_next(s: ResumeStoreView) -> bool {
    forall|i: int| 0 <= i < s.items.len() ==> #[trigger] s.items[i].id < s.next_id
}

impl ResumeStore {
    /// An empty library whose first id will be 1.
    pub fn empty() -> (r: Self)
        ensures
            r@.items == Seq::<ResumeView>::empty(),
            r@.next_id == 1,
    {
        let r = ResumeStore { items: Vec::new(), next_id: 1 };
        assert(r@.items =~= Seq::<ResumeView>::empty());
        r
    }

    /// A library rebuilt from a saved index; a saved next id of 0 becomes 1.
    pub fn from_saved(items: Vec<Resume>, next_id: u64) -> (r: Self)
        ensures
            r@.items == resumes_view(items@),
            r@.next_id == if next_id == 0 { 1 } else { next_id },
    {
        let n = if next_id > 1 { next_id } else { 1 };
        ResumeStore { items, next_id: n }
    }

    pub fn items(&self) -> (r: &[Resume])
        ensures
            resumes_view(r@) == self@.items,
    {
        self.items.as_slice()
    }

    pub fn is_empty(&self) -> (r: bool)
        ensures
            r == (self@.items.len() == 0),
    {
        self.items.len() == 0
    }

    pub fn len(&self) -> (r: usize)
        ensures
            r == self@.items.len(),
    {
        self.items.len()
    }

    pub fn next_id(&self) -> (r: u64)
        ensures
            r == self@.next_id,
    {
        self.next_id
    }

    /// Inserts a new resume at the end and returns the id it was given.
    pub fn add(&mut self, name: String, text: String) -> (id: u64)
        requires
            old(self)@.next_id < u64::MAX,
        ensures
            id == old(self)@.next_id,
            final(self)@.next_id == old(self)@.next_id + 1,
            final(self)@.items == old(self)@.items.push(ResumeView { id, name: name@, text: text@ }),
    {
        let id = self.next_id;
        self.next_id = self.next_id + 1;
        let ghost before = self.items@;
        let r = Resume { id, name, text };
        self.items.push(r);
        assert(resumes_view(self.items@) =~= resumes_view(before).push(r@));
        id
    }

    /// Removes every resume with id `id`.
    pub fn remove(&mut self, id: u64)
        ensures
            final(self)@.next_id == old(self)@.next_id,
            final(self)@.items == without_resume(old(self)@.items, id),
    {
        let mut old_items: Vec<Resume> = Vec::new();
        std::mem::swap(&mut old_items, &mut self.items);
        let ghost all = resumes_view(old_items@);
        let mut kept: Vec<Resume> = Vec::new();
        let mut i: usize = 0;
        let n = old_items.len();
        assert(all.take(0) =~= Seq::<ResumeView>::empty());
        while i < n
            invariant
                n == old_items.len(),
                0 <= i <= n,
                all == resumes_view(old_items@),
                resumes_view(kept@) == without_resume(all.take(i as int), id),
            decreases n - i,
        {
            let ghost before = kept@;
            let r = old_items[i].clone_resume();
            if r.id != id {
                kept.push(r);
                assert(resumes_view(kept@) =~= resumes_view(before).push(all[i as int]));
            }
            assert(all.take(i + 1).drop_last() =~= all.take(i as int));
            i += 1;
        }
        assert(all.take(n as int) =~= all);
        self.items = kept;
    }
}

impl Resume {
    /// A field-by-field copy.
    pub fn clone_resume(&self) -> (r: Resume)
        ensures
            r@ == self@,
    {
        Resume { id: self.id, name: self.name.clone(), text: self.text.clone() }
    }
}

// ─── Resume text from a .docx ───────────────────────────────────────────────

/// The visible text of one `<w:t` chunk: what lies between the end of the
/// opening tag and the next `</w:t>`.
pub open spec fn chunk_text(chunk: Seq<char>) -> Seq<char> {
    match crate::text::find(chunk, ">"@) {
        Some(g) => {
            let after = chunk.skip(g + 1);
            match crate::text::find(after, "</w:t>"@) {
                Some(c) => after.take(c),
                None => seq![],
            }
        },
        None => seq![],
    }
}

/// The chunks' texts one after another.
pub open spec fn chunks_text(chunks: Seq<Seq<char>>) -> Seq<char>
    decreases chunks.len(),
{
    if chunks.len() == 0 {
        seq![]
    } else {
        chunks_text(chunks.drop_last()) + chunk_text(chunks.last())
    }
}

/// The text of one paragraph: its `<w:t` chunks' texts, joined.
pub open spec fn paragraph_text(para: Seq<char>) -> Seq<char> {
    chunks_text(crate::text::split(para, "<w:t"@))
}

/// Each paragraph's trimmed text on a line of its own; blank paragraphs
/// are left out.
pub open spec fn paragraph_lines(paras: Seq<Seq<char>>) -> Seq<char>
    decreases paras.len(),
{
    if paras.len() == 0 {
        seq![]
    } else {
        let t = crate::text::trim(paragraph_text(paras.last()));
        paragraph_lines(paras.drop_last()) + if t.len() > 0 {
            t.push('\n')
        } else {
            seq![]
        }
    }
}

/// The five predefined XML entities and the tab and newline character
/// references replaced, in that order, each everywhere.
pub open spec fn xml_entities_decoded(s: Seq<char>) -> Seq<char> {
    let r = crate::text::replace(s, "&amp;"@, "&"@);
    let r = crate::text::replace(r, "&lt;"@, "<"@);
    let r = crate::text::replace(r, "&gt;"@, ">"@);
    let r = crate::text::replace(r, "&quot;"@, "\""@);
    let r = crate::text::replace(r, "&apos;"@, "'"@);
    let r = crate::text::replace(r, "&#10;"@, "\n"@);
    crate::text::replace(r, "&#9;"@, "\t"@)
}

/// The plain text of a `word/document.xml`: its paragraphs (split at
/// `</w:p>`) as lines, entities decoded.
pub open spec fn docx_plain_text(xml: Seq<char>) -> Seq<char> {
    xml_entities_decoded(paragraph_lines(crate::text::split(xml, "</w:p>"@)))
}

/// Computes [`xml_entities_decoded`].
pub fn decode_xml_entities(s: &str) -> (r: String)
    ensures
        r@ == xml_entities_decoded(s@),
{
    proof {
        reveal_strlit("&amp;");
        reveal_strlit("&lt;");
        reveal_strlit("&gt;");
        reveal_strlit("&quot;");
        reveal_strlit("&apos;");
        reveal_strlit("&#10;");
        reveal_strlit("&#9;");
    }
    let r = crate::text::replace_str(s, "&amp;", "&");
    let r = crate::text::replace_str(r.as_str(), "&lt;", "<");
    let r = crate::text::replace_str(r.as_str(), "&gt;", ">");
    let r = crate::text::replace_str(r.as_str(), "&quot;", "\"");
    let r = crate::text::replace_str(r.as_str(), "&apos;", "'");
    let r = crate::text::replace_str(r.as_str(), "&#10;", "\n");
    crate::text::replace_str(r.as_str(), "&#9;", "\t")
}

/// Computes [`chunk_text`].
fn chunk_text_of(chunk: &str) -> (r: String)
    ensures
        r@ == chunk_text(chunk@),
{
    proof {
        reveal_strlit(">");
    }
    match crate::text::find_str(chunk, ">") {
        None => String::new(),
        Some(g) => {
            proof {
                crate::text::lemma_find_from(chunk@, ">"@, 0);
                assert(crate::text::matches_at(chunk@, ">"@, g as int));
                assert(">"@.len() == 1);
                assert(g + 1 <= chunk@.len());
            }
            let v = crate::text::chars_of(chunk);
            assert(v@.len() == chunk@.len());
            assert(g < v.len());
            let after = crate::text::string_from_range(&v, g + 1, v.len());
            assert(after@ =~= chunk@.skip(g + 1));
            match crate::text::find_str(after.as_str(), "</w:t>") {
                None => String::new(),
                Some(c) => {
                    proof {
                        crate::text::lemma_find_from(after@, "</w:t>"@, 0);
                    }
                    crate::text::take_chars(after.as_str(), c)
                },
            }
        },
    }
}

/// Computes [`paragraph_text`].
fn paragraph_text_of(para: &str) -> (r: String)
    ensures
        r@ == paragraph_text(para@),
{
    proof {
        reveal_strlit("<w:t");
    }
    let chunks = crate::text::split_str(para, "<w:t");
    let ghost cs = crate::text::split(para@, "<w:t"@);
    let mut line = String::new();
    let mut k: usize = 0;
    assert(cs.take(0) =~= Seq::<Seq<char>>::empty());
    while k < chunks.len()
        invariant
            0 <= k <= chunks.len(),
            chunks@.len() == cs.len(),
            forall|i: int| 0 <= i < chunks@.len() ==> #[trigger] chunks@[i]@ == cs[i],
            line@ == chunks_text(cs.take(k as int)),
        decreases chunks.len() - k,
    {
        let t = chunk_text_of(chunks[k].as_str());
        crate::text::push_str(&mut line, t.as_str());
        assert(cs.take(k + 1).drop_last() =~= cs.take(k as int));
        k += 1;
    }
    assert(cs.take(k as int) =~= cs);
    line
}

/// Computes [`docx_plain_text`]: pulls the visible text out of the XML of a
/// `.docx` body, one line per non-blank paragraph.
pub fn strip_docx_xml(xml: &str) -> (r: String)
    ensures
        r@ == docx_plain_text(xml@),
{
    proof {
        reveal_strlit("</w:p>");
    }
    let paras = crate::text::split_str(xml, "</w:p>");
    let ghost ps = crate::text::split(xml@, "</w:p>"@);
    let mut out = String::new();
    let mut i: usize = 0;
    assert(ps.take(0) =~= Seq::<Seq<char>>::empty());
    while i < paras.len()
        invariant
            0 <= i <= paras.len(),
            paras@.len() == ps.len(),
            forall|j: int| 0 <= j < paras@.len() ==> #[trigger] paras@[j]@ == ps[j],
            out@ == paragraph_lines(ps.take(i as int)),
        decreases paras.len() - i,
    {
        let text = paragraph_text_of(paras[i].as_str());
        let t = crate::text::trimmed(text.as_str());
        assert(ps.take(i + 1).drop_last() =~= ps.take(i as int));
        if !t.as_str().is_empty() {
            crate::text::push_str(&mut out, t.as_str());
            crate::text::push_char(&mut out, '\n');
        }
        assert(out@ =~= paragraph_lines(ps.take(i + 1)));
        i += 1;
    }
    assert(ps.take(i as int) =~= ps);
    decode_xml_entities(out.as_str())
}

// ─── Resume files ───────────────────────────────────────────────────────────

/// How a resume file is read, by its extension.
#[derive(Clone, Copy, Debug, PartialEq, Eq, Structural)]
pub enum ResumeFormat {
    /// `.txt` or `.md`: the file is the text.
    PlainText,
    /// `.docx`: the text of `word/document.xml`.
    Docx,
    /// `.pdf`: the text `pdf-extract` finds.
    Pdf,
    Unsupported,
}

/// The format for extension `ext`, compared without regard to ASCII case.
pub open spec fn format_of_ext(ext: Option<Seq<char>>) -> ResumeFormat {
    match ext {
        None => ResumeFormat::Unsupported,
        Some(e) => {
            let e = crate::text::ascii_lowercase(e);
            if e == "txt"@ || e == "md"@ {
                ResumeFormat::PlainText
            } else if e == "docx"@ {
                ResumeFormat::Docx
            } else if e == "pdf"@ {
                ResumeFormat::Pdf
            } else {
                ResumeFormat::Unsupported
            }
        },
    }
}

pub fn resume_format(ext: Option<&str>) -> (r: ResumeFormat)
    ensures
        r == format_of_ext(
            match ext {
                Some(e) => Some(e@),
                None => None,
            },
        ),
{
    match ext {
        None => ResumeFormat::Unsupported,
        Some(e) => {
            let l = crate::text::ascii_lowercase_str(e);
            if crate::text::str_eq(l.as_str(), "txt") || crate::text::str_eq(l.as_str(), "md") {
                ResumeFormat::PlainText
            } else if crate::text::str_eq(l.as_str(), "docx") {
                ResumeFormat::Docx
            } else if crate::text::str_eq(l.as_str(), "pdf") {
                ResumeFormat::Pdf
            } else {
                ResumeFormat::Unsupported
            }
        },
    }
}

/// The name a resume is listed under: its file stem, or "Resume".
pub open spec fn display_name(stem: Option<Seq<char>>) -> Seq<char> {
    match stem {
        Some(s) => s,
        None => "Resume"@,
    }
}

pub fn resume_display_name(stem: Option<&str>) -> (r: String)
    ensures
        r@ == display_name(
            match stem {
                Some(s) => Some(s@),
                None => None,
            },
        ),
{
    match stem {
        Some(s) => crate::text::owned(s),
        None => crate::text::owned("Resume"),
    }
}

/// What `String::from_utf8` makes of `bytes` (`None`: not UTF-8).
pub uninterp spec fn utf8_text(bytes: Seq<u8>) -> Option<Seq<char>>;

/// The entry named `entry` of the zip archive `bytes`, as text, when the
/// archive opens, holds the entry and it reads as UTF-8.
pub uninterp spec fn zip_entry_text(bytes: Seq<u8>, entry: Seq<char>) -> Option<Seq<char>>;

/// The body of a `.docx` archive: its `word/document.xml` entry.
pub open spec fn docx_body_xml(bytes: Seq<u8>) -> Option<Seq<char>> {
    zip_entry_text(bytes, "word/document.xml"@)
}

/// Decodes `bytes` with `String::from_utf8`; claims only that the result is
/// [`utf8_text`] of `bytes`.
#[verifier::external_body]
fn utf8_decode(bytes: &[u8]) -> (r: Option<String>)
    ensures
        crate::desktop::types::opt_view(r) == utf8_text(bytes@),
{
    String::from_utf8(bytes.to_vec()).ok()
}

/// Opens `bytes` with `zip::ZipArchive::new` over a cursor, finds the entry
/// `entry` with `ZipArchive::by_name` and reads it to a string. Claims only
/// that the result is [`zip_entry_text`] of the arguments.
#[verifier::external_body]
fn read_zip_entry(bytes: &[u8], entry: &str) -> (r: Option<String>)
    ensures
        crate::desktop::types::opt_view(r) == zip_entry_text(bytes@, entry@),
{
    let mut zip = zip::ZipArchive::new(std::io::Cursor::new(bytes)).ok()?;
    let mut file = zip.by_name(entry).ok()?;
    let mut text = String::new();
    std::io::Read::read_to_string(&mut file, &mut text).ok()?;
    Some(text)
}


/// The plain text of a `.docx` file holding `bytes`: its body with the
/// markup stripped ([`docx_plain_text`]), or nothing when the body cannot
/// be read.
pub fn extract_docx_text(bytes: &[u8]) -> (r: Option<String>)
    ensures
        crate::desktop::types::opt_view(r) == match docx_body_xml(bytes@) {
            Some(x) => Some(docx_plain_text(x)),
            None => None,
        },
{
    match read_zip_entry(bytes, "word/document.xml") {
        Some(x) => Some(strip_docx_xml(x.as_str())),
        None => None,
    }
}

/// The text read from a file of format `f` holding `bytes`; for a PDF, the
/// text `pdf_text` that the PDF reader found in it.
pub open spec fn resume_text(f: ResumeFormat, bytes: Seq<u8>, pdf_text: Option<Seq<char>>) -> Option<
    Seq<char>,
> {
    match f {
        ResumeFormat::PlainText => utf8_text(bytes),
        ResumeFormat::Docx => match docx_body_xml(bytes) {
            Some(x) => Some(docx_plain_text(x)),
            None => None,
        },
        ResumeFormat::Pdf => pdf_text,
        ResumeFormat::Unsupported => None,
    }
}

/// A resume named `name` with text `text`: the trimmed text, or nothing
/// when there is no text or it is blank.
pub open spec fn finished_resume(name: Seq<char>, text: Option<Seq<char>>) -> Option<
    (Seq<char>, Seq<char>),
> {
    match text {
        Some(t) => if crate::text::trim(t).len() > 0 {
            Some((name, crate::text::trim(t)))
        } else {
            None
        },
        None => None,
    }
}

pub open spec fn pair_view(p: Option<(String, String)>) -> Option<(Seq<char>, Seq<char>)> {
    match p {
        Some((a, b)) => Some((a@, b@)),
        None => None,
    }
}

/// Computes [`finished_resume`] from the text a reader produced.
pub fn finish_resume(name: String, text: Option<String>) -> (r: Option<(String, String)>)
    ensures
        pair_view(r) == finished_resume(name@, crate::desktop::types::opt_view(text)),
{
    match text {
        None => None,
        Some(t) => {
            let tt = crate::text::trimmed(t.as_str());
            if tt.as_str().is_empty() {
                None
            } else {
                Some((name, tt))
            }
        },
    }
}

/// A resume read from a file named with stem `stem` and extension `ext`
/// whose contents are `bytes`: `(display name, trimmed text)`, or nothing
/// when the format is not supported or no text could be read. PDF text
/// extraction is done by the caller, which hands over in `pdf_text` what it
/// found in `bytes`; it is read only for a PDF.
pub fn read_resume_bytes(stem: Option<&str>, ext: Option<&str>, bytes: &[u8], pdf_text: Option<String>) -> (r: Option<
    (String, String),
>)
    ensures
        pair_view(r) == finished_resume(
            display_name(
                match stem {
                    Some(s) => Some(s@),
                    None => None,
                },
            ),
            resume_text(
                format_of_ext(
                    match ext {
                        Some(e) => Some(e@),
                        None => None,
                    },
                ),
                bytes@,
                crate::desktop::types::opt_view(pdf_text),
            ),
        ),
{
    let name = resume_display_name(stem);
    let text = match resume_format(ext) {
        ResumeFormat::PlainText => utf8_decode(bytes),
        ResumeFormat::Docx => extract_docx_text(bytes),
        ResumeFormat::Pdf => pdf_text,
        ResumeFormat::Unsupported => None,
    };
    finish_resume(name, text)
}

// ─── Where files live ───────────────────────────────────────────────────────

pub open spec fn strings_of(v: Seq<String>) -> Seq<Seq<char>> {
    v.map_values(|x: String| x@)
}

/// The folder of job `job_id`'s generated files, as path segments below the
/// user's data folder: `InterPrep/applications/<job_id>`.
pub open spec fn application_dir_spec(job_id: usize) -> Seq<Seq<char>> {
    seq!["InterPrep"@, "applications"@, crate::text::decimal(job_id as nat)]
}

pub fn application_dir(job_id: usize) -> (r: Vec<String>)
    ensures
        strings_of(r@) == application_dir_spec(job_id),
{
    let mut r: Vec<String> = Vec::new();
    r.push(crate::text::owned("InterPrep"));
    r.push(crate::text::owned("applications"));
    r.push(crate::text::decimal_string(job_id as u64));
    assert(strings_of(r@) =~= application_dir_spec(job_id));
    r
}

/// Where job `job_id`'s company research report is kept, as path segments
/// below the user's data folder.
pub fn company_research_report_path(job_id: usize) -> (r: Vec<String>)
    ensures
        strings_of(r@) == application_dir_spec(job_id).push("company_research.md"@),
{
    let mut r = application_dir(job_id);
    r.push(crate::text::owned("company_research.md"));
    assert(strings_of(r@) =~= application_dir_spec(job_id).push("company_research.md"@));
    r
}

/// Where job `job_id`'s tailored resume is kept, as path segments below the
/// user's data folder.
pub fn resume_docx_path(job_id: usize) -> (r: Vec<String>)
    ensures
        strings_of(r@) == application_dir_spec(job_id).push("resume.docx"@),
{
    let mut r = application_dir(job_id);
    r.push(crate::text::owned("resume.docx"));
    assert(strings_of(r@) =~= application_dir_spec(job_id).push("resume.docx"@));
    r
}

/// Where the resume library's index is kept, as path segments below the
/// user's data folder.
pub fn index_path() -> (r: Vec<String>)
    ensures
        strings_of(r@) == seq!["InterPrep"@, "resumes.json"@],
{
    let mut r: Vec<String> = Vec::new();
    r.push(crate::text::owned("InterPrep"));
    r.push(crate::text::owned("resumes.json"));
    assert(strings_of(r@) =~= seq!["InterPrep"@, "resumes.json"@]);
    r
}

/// A stored report as loaded: a blank file counts as no report.
pub fn nonblank_report(text: String) -> (r: Option<String>)
    ensures
        crate::desktop::types::opt_view(r) == if crate::text::is_blank(text@) {
            None
        } else {
            Some(text@)
        },
{
    if crate::text::is_blank_str(text.as_str()) {
        None
    } else {
        Some(text)
    }
}

} // verus!
