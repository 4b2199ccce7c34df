//! The blocks that hold no blocks: thematic breaks, ATX headings, code
//! blocks and link definitions.

use vstd::prelude::*;
use crate::ast::{Block, CodeBlock, CodeBlockKind, Heading, HeadingKind, LinkDefinition};
use crate::ast::model::{block_model, BlockModel, CodeBlockKindModel};
use crate::parser::chars::{
    run_end, run_start, skip_run, skip_run_back, slice_chars, string_of, CharClass,
};
use crate::parser::inline::{inlines_of, parse_inlines};
use crate::parser::inline::links::{
    close_bracket, destination_at, find_close_bracket, read_destination, read_title, title_at,
};
use crate::parser::lines::{
    after_blank_lines, blank, blank_from, indent, indent_of, is_blank, join_lines, joined,
    lines_model, rest_is_blank, skip_blank_lines, strip_lines, stripped_lines, Strip,
};

verus! {

/// Whether a recognizer's result stands for what the grammar says.
pub open spec fn same_block(r: Option<(Block, usize)>, m: Option<(BlockModel, int)>) -> bool {
    match r {
        Some((b, n)) => m == Some((block_model(b), n as int)),
        None => m is None,
    }
}

/// How often `c` stands in `l` from `a` to `b`.
pub open spec fn count_in(l: Seq<char>, c: char, a: int, b: int) -> nat
    decreases b - a,
{
    if b <= a || b > l.len() || a < 0 {
        0
    } else {
        count_in(l, c, a, b - 1) + if l[b - 1] == c {
            1nat
        } else {
            0nat
        }
    }
}

/// A thematic break: after at most three spaces, three or more of one of
/// `*`, `-` and `_`, with nothing among and behind them but spaces and tabs.
pub open spec fn is_thematic_break(l: Seq<char>) -> bool {
    let len = l.len() as int;
    let a = indent_of(l);
    a <= 3 && a < len && (l[a] == '*' || l[a] == '-' || l[a] == '_') && run_end(
        l,
        a,
        len,
        CharClass::IsOrBlank(l[a]),
    ) == len && count_in(l, l[a], a, len) >= 3
}

/// Tests for a thematic break.
pub fn thematic_break(l: &Vec<char>) -> (r: bool)
    ensures
        r == is_thematic_break(l@),
{
    let a = indent(l);
    if a > 3 || a >= l.len() {
        return false;
    }
    let c = l[a];
    if c != '*' && c != '-' && c != '_' {
        return false;
    }
    if skip_run(l, a, l.len(), CharClass::IsOrBlank(c)) != l.len() {
        return false;
    }
    let mut k = a;
    let mut count: usize = 0;
    while k < l.len()
        invariant
            a <= k <= l.len(),
            count == count_in(l@, c, a as int, k as int),
            count <= k - a,
        decreases l.len() - k,
    {
        if l[k] == c {
            count += 1;
        }
        k += 1;
    }
    count >= 3
}

/// The level of the ATX heading that the line is, or 0: after at most three
/// spaces, one to six `#`, and then a space, a tab or the end of the line.
pub open spec fn atx_level(l: Seq<char>) -> int {
    let a = indent_of(l);
    let h = run_end(l, a, l.len() as int, CharClass::Is('#'));
    if a <= 3 && 1 <= h - a <= 6 && (h == l.len() || l[h] == ' ' || l[h] == '\t') {
        h - a
    } else {
        0
    }
}

/// From and to where the content of an ATX heading runs: what follows the
/// opening `#`s, without the blanks around it and without a closing run of
/// `#` that a blank, or nothing, precedes.
pub open spec fn atx_content(l: Seq<char>) -> (int, int) {
    let len = l.len() as int;
    let h = run_end(l, indent_of(l), len, CharClass::Is('#'));
    let start = run_end(l, h, len, CharClass::Blank);
    let e1 = run_start(l, start, len, CharClass::Blank);
    let e2 = run_start(l, start, e1, CharClass::Is('#'));
    if e2 < e1 && (e2 == start || l[e2 - 1] == ' ' || l[e2 - 1] == '\t') {
        (start, run_start(l, start, e2, CharClass::Blank))
    } else {
        (start, e1)
    }
}

/// The ATX heading that the line is.
pub open spec fn atx_heading_of(l: Seq<char>, depth: nat) -> Option<BlockModel> {
    let level = atx_level(l);
    if level > 0 {
        let (a, b) = atx_content(l);
        Some(
            BlockModel::Heading {
                kind: HeadingKind::Atx(level as u8),
                content: inlines_of(l.subrange(a, b), depth),
            },
        )
    } else {
        None
    }
}

/// Reads the line as an ATX heading.
pub fn atx_heading(l: &Vec<char>, depth: usize) -> (r: Option<Block>)
    ensures
        match r {
            Some(b) => atx_heading_of(l@, depth as nat) == Some(block_model(b)),
            None => atx_heading_of(l@, depth as nat) is None,
        },
{
    let len = l.len();
    let a = indent(l);
    let h = skip_run(l, a, len, CharClass::Is('#'));
    if a <= 3 && 1 <= h - a && h - a <= 6 && (h == len || l[h] == ' ' || l[h] == '\t') {
        let start = skip_run(l, h, len, CharClass::Blank);
        let e1 = skip_run_back(l, start, len, CharClass::Blank);
        let e2 = skip_run_back(l, start, e1, CharClass::Is('#'));
        let end = if e2 < e1 && (e2 == start || l[e2 - 1] == ' ' || l[e2 - 1] == '\t') {
            skip_run_back(l, start, e2, CharClass::Blank)
        } else {
            e1
        };
        let text = slice_chars(l, start, end);
        let content = parse_inlines(&text, depth);
        let level = (h - a) as u8;
        Some(Block::Heading(Heading { kind: HeadingKind::Atx(level), content }))
    } else {
        None
    }
}

/// Model of an opening code fence.
pub struct FenceModel {
    /// `` ` `` or `~`.
    pub ch: char,
    /// How many of them.
    pub count: int,
    /// How many spaces stand before the fence.
    pub indent: int,
    /// From where the info string runs.
    pub info_from: int,
    /// To where the info string runs.
    pub info_to: int,
}

/// The code fence that the line opens: after at most three spaces, three or
/// more backticks or tildes, then the info string, which is what is left
/// without the blanks around it. After backticks the line holds no further
/// backtick.
pub open spec fn fence_open(l: Seq<char>) -> Option<FenceModel> {
    let len = l.len() as int;
    let a = indent_of(l);
    if a <= 3 && a < len && (l[a] == '`' || l[a] == '~') {
        let e = run_end(l, a, len, CharClass::Is(l[a]));
        let from = run_end(l, e, len, CharClass::Blank);
        if e - a >= 3 && (l[a] == '`' ==> run_end(l, e, len, CharClass::IsNot('`')) == len) {
            Some(
                FenceModel {
                    ch: l[a],
                    count: e - a,
                    indent: a,
                    info_from: from,
                    info_to: run_start(l, from, len, CharClass::Blank),
                },
            )
        } else {
            None
        }
    } else {
        None
    }
}

/// Tests whether the line opens a code fence.
pub fn opens_fence(l: &Vec<char>) -> (r: bool)
    ensures
        r == fence_open(l@) is Some,
{
    let len = l.len();
    let a = indent(l);
    if a > 3 || a >= len {
        return false;
    }
    let ch = l[a];
    if ch != '`' && ch != '~' {
        return false;
    }
    let e = skip_run(l, a, len, CharClass::Is(ch));
    if e - a < 3 {
        return false;
    }
    if ch == '`' {
        skip_run(l, e, len, CharClass::IsNot('`')) == len
    } else {
        true
    }
}

/// Whether the line closes a fence of `count` times `ch`: after at most
/// three spaces, at least as many of `ch`, and blanks at most behind them.
pub open spec fn is_fence_close(l: Seq<char>, ch: char, count: int) -> bool {
    let a = indent_of(l);
    let e = run_end(l, a, l.len() as int, CharClass::Is(ch));
    a <= 3 && e - a >= count && blank_from(l, e)
}

/// The first line from `k` on that closes the fence, or the number of
/// lines.
pub open spec fn fence_close(lines: Seq<Seq<char>>, k: int, ch: char, count: int) -> int
    decreases lines.len() - k,
{
    if k < 0 || k >= lines.len() {
        lines.len() as int
    } else if is_fence_close(lines[k], ch, count) {
        k
    } else {
        fence_close(lines, k + 1, ch, count)
    }
}

/// The info string of a fence, if it is not empty.
pub open spec fn fence_info(l: Seq<char>, f: FenceModel) -> Option<Seq<char>> {
    if f.info_from < f.info_to {
        Some(l.subrange(f.info_from, f.info_to))
    } else {
        None
    }
}

/// The fenced code block that starts at line `i`, and the line after it.
/// The block runs to the closing fence, or to the last line if there is
/// none. Its text is the lines between, each without as many leading spaces
/// as stand before the opening fence.
pub open spec fn fenced_code_at(lines: Seq<Seq<char>>, i: int) -> Option<(BlockModel, int)> {
    match fence_open(lines[i]) {
        Some(f) => {
            let c = fence_close(lines, i + 1, f.ch, f.count);
            let body = stripped_lines(lines, i + 1, c, Strip::Spaces(f.indent as usize));
            Some(
                (
                    BlockModel::CodeBlock {
                        kind: CodeBlockKindModel::Fenced { info: fence_info(lines[i], f) },
                        literal: joined(body, 0, c - (i + 1)),
                    },
                    if c < lines.len() {
                        c + 1
                    } else {
                        lines.len() as int
                    },
                ),
            )
        },
        None => None,
    }
}

fn fence_closes(l: &Vec<char>, ch: char, count: usize) -> (r: bool)
    ensures
        r == is_fence_close(l@, ch, count as int),
{
    let a = indent(l);
    let e = skip_run(l, a, l.len(), CharClass::Is(ch));
    a <= 3 && e - a >= count && rest_is_blank(l, e)
}

fn find_fence_close(lines: &Vec<Vec<char>>, start: usize, ch: char, count: usize) -> (k: usize)
    requires
        start <= lines.len(),
    ensures
        k == fence_close(lines_model(lines@), start as int, ch, count as int),
        start <= k <= lines.len(),
{
    let mut k = start;
    while k < lines.len()
        invariant
            start <= k <= lines.len(),
            fence_close(lines_model(lines@), start as int, ch, count as int) == fence_close(
                lines_model(lines@),
                k as int,
                ch,
                count as int,
            ),
        decreases lines.len() - k,
    {
        if fence_closes(&lines[k], ch, count) {
            return k;
        }
        k += 1;
    }
    k
}

/// Reads the fenced code block that starts at line `i`.
pub fn fenced_code(lines: &Vec<Vec<char>>, i: usize) -> (r: Option<(Block, usize)>)
    requires
        i < lines.len(),
    ensures
        same_block(r, fenced_code_at(lines_model(lines@), i as int)),
        r matches Some((b, n)) ==> i < n <= lines.len(),
{
    let l = &lines[i];
    let len = l.len();
    let a = indent(l);
    if a > 3 || a >= len {
        return None;
    }
    let ch = l[a];
    if ch != '`' && ch != '~' {
        return None;
    }
    let e = skip_run(l, a, len, CharClass::Is(ch));
    if e - a < 3 {
        return None;
    }
    if ch == '`' {
        let t = skip_run(l, e, len, CharClass::IsNot('`'));
        if t != len {
            return None;
        }
    }
    let from = skip_run(l, e, len, CharClass::Blank);
    let to = skip_run_back(l, from, len, CharClass::Blank);
    let info = if from < to {
        Some(string_of(l, from, to))
    } else {
        None
    };
    let c = find_fence_close(lines, i + 1, ch, e - a);
    let body = strip_lines(lines, i + 1, c, Strip::Spaces(a));
    let text = join_lines(&body, 0, body.len());
    let literal = string_of(&text, 0, text.len());
    assert(text@.subrange(0, text.len() as int) =~= text@);
    let next = if c < lines.len() {
        c + 1
    } else {
        lines.len()
    };
    Some((Block::CodeBlock(CodeBlock { kind: CodeBlockKind::Fenced { info }, literal }), next))
}

/// Where the run of continuation lines that starts at `k` ends. A line
/// continues if it is indented by at least `w` spaces; blank lines continue
/// if such a line follows them.
pub open spec fn continued_end(lines: Seq<Seq<char>>, k: int, w: int) -> int
    decreases lines.len() - k,
{
    if k < 0 || k >= lines.len() {
        k
    } else if is_blank(lines[k]) {
        let m = after_blank_lines(lines, k);
        if k < m < lines.len() && indent_of(lines[m]) >= w {
            continued_end(lines, m + 1, w)
        } else {
            k
        }
    } else if indent_of(lines[k]) >= w {
        continued_end(lines, k + 1, w)
    } else {
        k
    }
}

/// Finds where the run of continuation lines that starts at `start` ends.
pub fn find_continued_end(lines: &Vec<Vec<char>>, start: usize, w: usize) -> (k: usize)
    requires
        start <= lines.len(),
    ensures
        k == continued_end(lines_model(lines@), start as int, w as int),
        start <= k <= lines.len(),
{
    let mut k = start;
    while k < lines.len()
        invariant
            start <= k <= lines.len(),
            continued_end(lines_model(lines@), start as int, w as int) == continued_end(
                lines_model(lines@),
                k as int,
                w as int,
            ),
        decreases lines.len() - k,
    {
        if blank(&lines[k]) {
            let m = skip_blank_lines(lines, k);
            if k < m && m < lines.len() && indent(&lines[m]) >= w {
                k = m + 1;
            } else {
                return k;
            }
        } else if indent(&lines[k]) >= w {
            k += 1;
        } else {
            return k;
        }
    }
    k
}

/// The indented code block that starts at line `i`, and the line after it:
/// a line that is not blank and starts with four spaces, and the
/// continuation lines behind it. Its text is those lines without their
/// first four spaces.
pub open spec fn indented_code_at(lines: Seq<Seq<char>>, i: int) -> Option<(BlockModel, int)> {
    if indent_of(lines[i]) >= 4 && !is_blank(lines[i]) {
        let e = continued_end(lines, i + 1, 4);
        Some(
            (
                BlockModel::CodeBlock {
                    kind: CodeBlockKindModel::Indented,
                    literal: joined(stripped_lines(lines, i, e, Strip::Spaces(4)), 0, e - i),
                },
                e,
            ),
        )
    } else {
        None
    }
}

/// Reads the indented code block that starts at line `i`.
pub fn indented_code(lines: &Vec<Vec<char>>, i: usize) -> (r: Option<(Block, usize)>)
    requires
        i < lines.len(),
    ensures
        same_block(r, indented_code_at(lines_model(lines@), i as int)),
        r matches Some((b, n)) ==> i < n <= lines.len(),
{
    if indent(&lines[i]) >= 4 && !blank(&lines[i]) {
        let e = find_continued_end(lines, i + 1, 4);
        let body = strip_lines(lines, i, e, Strip::Spaces(4));
        let text = join_lines(&body, 0, body.len());
        let literal = string_of(&text, 0, text.len());
        assert(text@.subrange(0, text.len() as int) =~= text@);
        Some((Block::CodeBlock(CodeBlock { kind: CodeBlockKind::Indented, literal }), e))
    } else {
        None
    }
}

/// Model of the parts of a link definition on its line.
pub struct DefinitionShape {
    pub label_from: int,
    pub label_to: int,
    pub destination_from: int,
    pub destination_to: int,
    pub title: Option<(int, int)>,
}

/// The link definition that the line is: after at most three spaces, a
/// label between brackets that is not empty and does not start with `^`, a
/// colon, a destination that is not empty, and a title if one follows;
/// blanks may stand between them and at the end of the line.
pub open spec fn definition_shape(l: Seq<char>) -> Option<DefinitionShape> {
    let len = l.len() as int;
    let a = indent_of(l);
    let le = close_bracket(l, a + 1, 0);
    if a <= 3 && a < len && l[a] == '[' && a + 1 < le && le + 1 < len && l[a + 1] != '^' && l[le
        + 1] == ':' {
        let d0 = run_end(l, le + 2, len, CharClass::Blank);
        match destination_at(l, d0) {
            Some((da, db, de)) => {
                let t0 = run_end(l, de, len, CharClass::Blank);
                let plain = if blank_from(l, de) {
                    Some(
                        DefinitionShape {
                            label_from: a + 1,
                            label_to: le,
                            destination_from: da,
                            destination_to: db,
                            title: None,
                        },
                    )
                } else {
                    None
                };
                if da >= db {
                    None
                } else {
                    match title_at(l, t0) {
                        Some((ta, tb, te)) => if de < t0 && blank_from(l, te) {
                            Some(
                                DefinitionShape {
                                    label_from: a + 1,
                                    label_to: le,
                                    destination_from: da,
                                    destination_to: db,
                                    title: Some((ta, tb)),
                                },
                            )
                        } else {
                            plain
                        },
                        None => plain,
                    }
                }
            },
            None => None,
        }
    } else {
        None
    }
}

/// The link definition that the line is, as a block.
pub open spec fn definition_of(l: Seq<char>, depth: nat) -> Option<BlockModel> {
    match definition_shape(l) {
        Some(d) => Some(
            BlockModel::Definition {
                label: inlines_of(l.subrange(d.label_from, d.label_to), depth),
                destination: l.subrange(d.destination_from, d.destination_to),
                title: match d.title {
                    Some((ta, tb)) => Some(l.subrange(ta, tb)),
                    None => None,
                },
            },
        ),
        None => None,
    }
}

/// Reads the line as a link definition.
pub fn definition(l: &Vec<char>, depth: usize) -> (r: Option<Block>)
    ensures
        match r {
            Some(b) => definition_of(l@, depth as nat) == Some(block_model(b)),
            None => definition_of(l@, depth as nat) is None,
        },
{
    let len = l.len();
    let a = indent(l);
    if a > 3 || a >= len || l[a] != '[' {
        return None;
    }
    let le = find_close_bracket(l, a + 1);
    if !(a + 1 < le && len - le >= 2 && l[a + 1] != '^' && l[le + 1] == ':') {
        return None;
    }
    let d0 = skip_run(l, le + 2, len, CharClass::Blank);
    match read_destination(l, d0) {
        None => None,
        Some((da, db, de)) => {
            if da >= db {
                return None;
            }
            let t0 = skip_run(l, de, len, CharClass::Blank);
            let title = read_title(l, t0);
            let with_title = match title {
                Some((ta, tb, te)) => de < t0 && rest_is_blank(l, te),
                None => false,
            };
            if with_title {
                match title {
                    Some((ta, tb, te)) => {
                        let text = slice_chars(l, a + 1, le);
                        let label = parse_inlines(&text, depth);
                        Some(
                            Block::Definition(
                                LinkDefinition {
                                    label,
                                    destination: string_of(l, da, db),
                                    title: Some(string_of(l, ta, tb)),
                                },
                            ),
                        )
                    },
                    None => None,
                }
            } else if rest_is_blank(l, de) {
                let text = slice_chars(l, a + 1, le);
                let label = parse_inlines(&text, depth);
                Some(
                    Block::Definition(
                        LinkDefinition { label, destination: string_of(l, da, db), title: None },
                    ),
                )
            } else {
                None
            }
        },
    }
}

} // verus!
