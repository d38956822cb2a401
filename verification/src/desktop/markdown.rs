//! How chat messages are laid out: the line-by-line Markdown subset the
//! chat renders (headings, rules, bullets, numbered items, code fences,
//! collapsed blank runs) and the inline `**bold**` runs of a line. The
//! drawing itself belongs to the UI; this module decides what is drawn.
use vstd::prelude::*;
use crate::text::{find, has_prefix, split, trim, trim_start};

verus! {

// ─── Lines ──────────────────────────────────────────────────────────────────

/// A line without the `\r` of a `\r\n` ending.
pub open spec fn strip_cr(p: Seq<char>) -> Seq<char> {
    if p.len() > 0 && p.last() == '\r' {
        p.drop_last()
    } else {
        p
    }
}

/// `str::lines`: the pieces between `\n`s, each without a `\r` that came
/// before its `\n`; a final line ending adds no empty line.
pub open spec fn lines(s: Seq<char>) -> Seq<Seq<char>> {
    let parts = split(s, "\n"@);
    let body = parts.take(parts.len() - 1).map_values(|p: Seq<char>| strip_cr(p));
    if parts.last().len() == 0 {
        body
    } else {
        body.push(parts.last())
    }
}

pub open spec fn strings_view(v: Seq<String>) -> Seq<Seq<char>> {
    v.map_values(|x: String| x@)
}

/// Computes [`lines`].
pub fn text_lines(s: &str) -> (r: Vec<String>)
    ensures
        strings_view(r@) == lines(s@),
{
    proof {
        reveal_strlit("\n");
    }
    let parts = crate::text::split_str(s, "\n");
    let ghost ps = split(s@, "\n"@);
    assert(ps.len() >= 1);
    let n = parts.len();
    let mut r: Vec<String> = Vec::new();
    let mut i: usize = 0;
    while i + 1 < n
        invariant
            n == parts@.len(),
            n == ps.len(),
            n >= 1,
            0 <= i < n,
            forall|k: int| 0 <= k < parts@.len() ==> #[trigger] parts@[k]@ == ps[k],
            strings_view(r@) == ps.take(i as int).map_values(|p: Seq<char>| strip_cr(p)),
        decreases n - i,
    {
        let p = &parts[i];
        let v = crate::text::chars_of(p.as_str());
        let line = if v.len() > 0 && v[v.len() - 1] == '\r' {
            crate::text::string_from_range(&v, 0, v.len() - 1)
        } else {
            crate::text::string_from_chars(&v)
        };
        assert(line@ =~= strip_cr(ps[i as int]));
        let ghost before = r@;
        r.push(line);
        assert(strings_view(r@) =~= strings_view(before).push(strip_cr(ps[i as int])));
        assert(ps.take(i + 1).map_values(|p: Seq<char>| strip_cr(p)) =~= ps.take(i as int).map_values(
            |p: Seq<char>| strip_cr(p),
        ).push(strip_cr(ps[i as int])));
        i += 1;
    }
    let last = &parts[n - 1];
    if !last.as_str().is_empty() {
        let ghost before = r@;
        r.push(last.clone());
        assert(strings_view(r@) =~= strings_view(before).push(ps.last()));
    }
    r
}

// ─── Block classification ───────────────────────────────────────────────────

/// One block the chat draws for a line.
pub enum MdBlock {
    /// A line inside a code fence, drawn as-is.
    Code(String),
    /// The closing fence of a code block (a small gap).
    FenceClose,
    /// A heading of level 1 to 4 and its text.
    Heading(u8, String),
    /// A horizontal rule.
    Rule,
    /// A bullet item's content.
    Bullet(String),
    /// A numbered item: its number and content.
    Numbered(String, String),
    /// The gap standing for a run of blank lines.
    Gap,
    /// A line of ordinary text (may hold `**bold**` runs).
    Text(String),
}

pub enum BlockView {
    Code(Seq<char>),
    FenceClose,
    Heading(u8, Seq<char>),
    Rule,
    Bullet(Seq<char>),
    Numbered(Seq<char>, Seq<char>),
    Gap,
    Text(Seq<char>),
}

impl View for MdBlock {
    type V = BlockView;

    open spec fn view(&self) -> BlockView {
        match self {
            MdBlock::Code(t) => BlockView::Code(t@),
            MdBlock::FenceClose => BlockView::FenceClose,
            MdBlock::Heading(l, t) => BlockView::Heading(*l, t@),
            MdBlock::Rule => BlockView::Rule,
            MdBlock::Bullet(t) => BlockView::Bullet(t@),
            MdBlock::Numbered(n, t) => BlockView::Numbered(n@, t@),
            MdBlock::Gap => BlockView::Gap,
            MdBlock::Text(t) => BlockView::Text(t@),
        }
    }
}

/// A horizontal rule: `---`, `***`, `___`, or three or more dashes, once
/// trimmed.
pub open spec fn is_hr(line: Seq<char>) -> bool {
    let t = trim(line);
    t == "---"@ || t == "***"@ || t == "___"@ || (t.len() >= 3 && forall|i: int|
        0 <= i < t.len() ==> t[i] == '-')
}

/// A numbered item: digits, then the first `". "` of the line.
pub open spec fn is_numbered_list(line: Seq<char>) -> bool {
    match find(line, ". "@) {
        Some(pos) => pos > 0 && forall|i: int| 0 <= i < pos ==> crate::text::is_digit(line[i]),
        None => false,
    }
}

/// The block for `line` when a code block is open (`in_code`) and the
/// previous line was blank (`last_blank`), and the two flags after it.
pub open spec fn line_block(line: Seq<char>, in_code: bool, last_blank: bool) -> (
    Option<BlockView>,
    bool,
    bool,
) {
    if has_prefix(trim_start(line), "```"@) {
        (
            if in_code {
                Some(BlockView::FenceClose)
            } else {
                None
            },
            !in_code,
            last_blank,
        )
    } else if in_code {
        (Some(BlockView::Code(line)), in_code, last_blank)
    } else if has_prefix(line, "# "@) {
        (Some(BlockView::Heading(1, line.skip(2))), in_code, false)
    } else if has_prefix(line, "## "@) {
        (Some(BlockView::Heading(2, line.skip(3))), in_code, false)
    } else if has_prefix(line, "### "@) {
        (Some(BlockView::Heading(3, line.skip(4))), in_code, false)
    } else if has_prefix(line, "#### "@) {
        (Some(BlockView::Heading(4, line.skip(5))), in_code, false)
    } else if is_hr(line) {
        (Some(BlockView::Rule), in_code, false)
    } else if has_prefix(line, "- "@) || has_prefix(line, "* "@) || has_prefix(line, "• "@) {
        (Some(BlockView::Bullet(line.skip(2))), in_code, false)
    } else if is_numbered_list(line) {
        let pos = find(line, ". "@)->0;
        (Some(BlockView::Numbered(line.take(pos), line.skip(pos + 2))), in_code, false)
    } else if trim(line).len() == 0 {
        (
            if last_blank {
                None
            } else {
                Some(BlockView::Gap)
            },
            in_code,
            true,
        )
    } else {
        (Some(BlockView::Text(line)), in_code, false)
    }
}

/// The blocks for `ls` in order, and the flags after the last line.
pub open spec fn blocks_of(ls: Seq<Seq<char>>) -> (Seq<BlockView>, bool, bool)
    decreases ls.len(),
{
    if ls.len() == 0 {
        (seq![], false, false)
    } else {
        let (bs, ic, lb) = blocks_of(ls.drop_last());
        let (o, ic2, lb2) = line_block(ls.last(), ic, lb);
        (
            match o {
                Some(b) => bs.push(b),
                None => bs,
            },
            ic2,
            lb2,
        )
    }
}

/// The blocks of a whole message.
pub open spec fn markdown_blocks_spec(text: Seq<char>) -> Seq<BlockView> {
    blocks_of(lines(text)).0
}

pub open spec fn blocks_view(v: Seq<MdBlock>) -> Seq<BlockView> {
    v.map_values(|b: MdBlock| b@)
}

/// Computes [`is_hr`].
pub fn is_hr_line(line: &str) -> (r: bool)
    ensures
        r == is_hr(line@),
{
    let t = crate::text::trimmed(line);
    if crate::text::str_eq(t.as_str(), "---") || crate::text::str_eq(t.as_str(), "***")
        || crate::text::str_eq(t.as_str(), "___") {
        return true;
    }
    let v = crate::text::chars_of(t.as_str());
    if v.len() < 3 {
        return false;
    }
    let mut i: usize = 0;
    while i < v.len()
        invariant
            0 <= i <= v.len(),
            v@ == trim(line@),
            v@.len() >= 3,
            !(v@ == "---"@ || v@ == "***"@ || v@ == "___"@),
            forall|k: int| 0 <= k < i ==> v@[k] == '-',
        decreases v.len() - i,
    {
        if v[i] != '-' {
            assert(v@[i as int] != '-');
            return false;
        }
        i += 1;
    }
    true
}

/// Computes [`is_numbered_list`].
pub fn is_numbered_line(line: &str) -> (r: bool)
    ensures
        r == is_numbered_list(line@),
{
    match crate::text::find_str(line, ". ") {
        None => false,
        Some(pos) => {
            if pos == 0 {
                return false;
            }
            let v = crate::text::chars_of(line);
            proof {
                crate::text::lemma_find_from(line@, ". "@, 0);
            }
            let mut i: usize = 0;
            while i < pos
                invariant
                    0 <= i <= pos,
                    pos <= v@.len(),
                    v@ == line@,
                    find(line@, ". "@) == Some(pos as int),
                    forall|k: int| 0 <= k < i ==> crate::text::is_digit(v@[k]),
                decreases pos - i,
            {
                if !('0' <= v[i] && v[i] <= '9') {
                    assert(!crate::text::is_digit(v@[i as int]));
                    return false;
                }
                i += 1;
            }
            true
        },
    }
}

/// Computes [`line_block`].
pub fn block_for_line(line: &str, in_code: bool, last_blank: bool) -> (r: (Option<MdBlock>, bool, bool))
    ensures
        (
            match r.0 {
                Some(b) => Some(b@),
                None => None,
            },
            r.1,
            r.2,
        ) == line_block(line@, in_code, last_blank),
{
    proof {
        reveal_strlit("```");
        reveal_strlit("# ");
        reveal_strlit("## ");
        reveal_strlit("### ");
        reveal_strlit("#### ");
        reveal_strlit("- ");
        reveal_strlit("* ");
        reveal_strlit("• ");
        reveal_strlit(". ");
    }
    let ts = crate::text::trimmed_start(line);
    if crate::text::starts_with(ts.as_str(), "```") {
        let b = if in_code {
            Some(MdBlock::FenceClose)
        } else {
            None
        };
        return (b, !in_code, last_blank);
    }
    if in_code {
        return (Some(MdBlock::Code(crate::text::owned(line))), in_code, last_blank);
    }
    if let Some(h) = crate::text::strip_prefix(line, "# ") {
        return (Some(MdBlock::Heading(1, h)), in_code, false);
    }
    if let Some(h) = crate::text::strip_prefix(line, "## ") {
        return (Some(MdBlock::Heading(2, h)), in_code, false);
    }
    if let Some(h) = crate::text::strip_prefix(line, "### ") {
        return (Some(MdBlock::Heading(3, h)), in_code, false);
    }
    if let Some(h) = crate::text::strip_prefix(line, "#### ") {
        return (Some(MdBlock::Heading(4, h)), in_code, false);
    }
    if is_hr_line(line) {
        return (Some(MdBlock::Rule), in_code, false);
    }
    if let Some(c) = crate::text::strip_prefix(line, "- ") {
        return (Some(MdBlock::Bullet(c)), in_code, false);
    }
    if let Some(c) = crate::text::strip_prefix(line, "* ") {
        return (Some(MdBlock::Bullet(c)), in_code, false);
    }
    if let Some(c) = crate::text::strip_prefix(line, "• ") {
        return (Some(MdBlock::Bullet(c)), in_code, false);
    }
    if is_numbered_line(line) {
        match crate::text::find_str(line, ". ") {
            Some(pos) => {
                proof {
                    crate::text::lemma_find_from(line@, ". "@, 0);
                }
                let v = crate::text::chars_of(line);
                assert(pos + 2 <= v@.len());
                let num = crate::text::string_from_range(&v, 0, pos);
                let content = crate::text::string_from_range(&v, pos + 2, v.len());
                assert(num@ =~= line@.take(pos as int));
                assert(content@ =~= line@.skip(pos + 2));
                return (Some(MdBlock::Numbered(num, content)), in_code, false);
            },
            None => {
                return (None, in_code, false);
            },
        }
    }
    if crate::text::is_blank_str(line) {
        let b = if last_blank {
            None
        } else {
            Some(MdBlock::Gap)
        };
        return (b, in_code, true);
    }
    (Some(MdBlock::Text(crate::text::owned(line))), in_code, false)
}

/// The blocks the chat draws for a message ([`markdown_blocks_spec`]).
pub fn markdown_blocks(text: &str) -> (r: Vec<MdBlock>)
    ensures
        blocks_view(r@) == markdown_blocks_spec(text@),
{
    let ls = text_lines(text);
    let ghost lv = lines(text@);
    let mut r: Vec<MdBlock> = Vec::new();
    let mut in_code = false;
    let mut last_blank = false;
    let mut i: usize = 0;
    assert(lv.take(0) =~= Seq::<Seq<char>>::empty());
    while i < ls.len()
        invariant
            0 <= i <= ls.len(),
            strings_view(ls@) == lv,
            blocks_of(lv.take(i as int)) == (blocks_view(r@), in_code, last_blank),
        decreases ls.len() - i,
    {
        assert(lv.take(i + 1).drop_last() =~= lv.take(i as int));
        assert(ls@[i as int]@ == lv[i as int]);
        let (b, ic, lb) = block_for_line(ls[i].as_str(), in_code, last_blank);
        let ghost before = r@;
        match b {
            Some(x) => {
                r.push(x);
                assert(blocks_view(r@) =~= blocks_view(before).push(x@));
            },
            None => {},
        }
        in_code = ic;
        last_blank = lb;
        i += 1;
    }
    assert(lv.take(i as int) =~= lv);
    r
}

// ─── Inline bold ────────────────────────────────────────────────────────────

/// The non-empty pieces of `parts` (the line split at `**`), each marked
/// bold when it sits at an odd position.
pub open spec fn bold_runs(parts: Seq<Seq<char>>) -> Seq<(Seq<char>, bool)>
    decreases parts.len(),
{
    if parts.len() == 0 {
        seq![]
    } else {
        let rest = bold_runs(parts.drop_last());
        if parts.last().len() == 0 {
            rest
        } else {
            rest.push((parts.last(), (parts.len() - 1) % 2 == 1))
        }
    }
}

/// The runs of a line: the whole line, plain, when it holds no `**`; else
/// [`bold_runs`] of its pieces.
pub open spec fn rich_runs(line: Seq<char>) -> Seq<(Seq<char>, bool)> {
    if find(line, "**"@) is None {
        seq![(line, false)]
    } else {
        bold_runs(split(line, "**"@))
    }
}

pub open spec fn runs_view(v: Seq<(String, bool)>) -> Seq<(Seq<char>, bool)> {
    v.map_values(|p: (String, bool)| (p.0@, p.1))
}

/// Computes [`rich_runs`].
pub fn rich_segments(line: &str) -> (r: Vec<(String, bool)>)
    ensures
        runs_view(r@) == rich_runs(line@),
{
    proof {
        reveal_strlit("**");
    }
    let mut r: Vec<(String, bool)> = Vec::new();
    if crate::text::find_str(line, "**").is_none() {
        r.push((crate::text::owned(line), false));
        assert(runs_view(r@) =~= seq![(line@, false)]);
        return r;
    }
    let parts = crate::text::split_str(line, "**");
    let ghost ps = split(line@, "**"@);
    let mut i: usize = 0;
    assert(ps.take(0) =~= Seq::<Seq<char>>::empty());
    while i < parts.len()
        invariant
            0 <= i <= parts.len(),
            parts@.len() == ps.len(),
            forall|k: int| 0 <= k < parts@.len() ==> #[trigger] parts@[k]@ == ps[k],
            runs_view(r@) == bold_runs(ps.take(i as int)),
        decreases parts.len() - i,
    {
        assert(ps.take(i + 1).drop_last() =~= ps.take(i as int));
        assert(ps.take(i + 1).last() == ps[i as int]);
        if !parts[i].as_str().is_empty() {
            let ghost before = r@;
            r.push((parts[i].clone(), i % 2 == 1));
            assert(runs_view(r@) =~= runs_view(before).push((ps[i as int], i % 2 == 1)));
        }
        i += 1;
    }
    assert(ps.take(i as int) =~= ps);
    r
}

} // verus!
