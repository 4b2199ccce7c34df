//! The block parser: lines to blocks.
//!
//! At each line the recognizers are tried in one fixed order: blank line,
//! indented code, thematic break, ATX heading, fenced code, GitHub alert,
//! block quote, list, table, footnote definition, link definition,
//! container, and last the paragraph, which takes whatever is left. The
//! first that matches takes its lines, and the next block starts behind
//! them.

use vstd::prelude::*;
use crate::ast::{
    Block, Container, FootnoteDefinition, GitHubAlert, Heading, HeadingKind, List, ListItem,
    SetextHeading,
};
use crate::ast::model::{
    block_model, blocks_model, item_model, items_model, BlockModel, ListItemModel,
};
use crate::parser::chars::{
    lemma_run_end, run_end, skip_run, skip_run_back, slice_chars, string_of, CharClass,
};
use crate::parser::inline::{inlines_of, parse_inlines};
use crate::parser::lines::{
    after_blank_lines, blank, blank_from, indent, indent_of, is_blank, join_lines, joined,
    lines_model, rest_is_blank, skip_blank_lines, strip_lines, stripped_lines,
    without_trailing_blanks, Strip,
};
use crate::parser::state::MarkdownParserState;

pub mod container;
pub mod leaf;
pub mod nest;
pub mod table;

use crate::parser::blocks::container::{container_shape, read_container_shape, ContainerOpen};
use crate::parser::blocks::leaf::{
    atx_heading, atx_heading_of, atx_level, continued_end, definition, definition_of, fence_open,
    fenced_code, fenced_code_at, find_continued_end, indented_code, indented_code_at,
    is_thematic_break, thematic_break,
};
use crate::parser::blocks::nest::{
    alert_marker, alert_type_of, find_quote_end, is_quote_line, item_lines, item_task, list_marker,
    quote_end, quote_line, read_alert_marker, read_item_lines, read_list_marker,
};
use crate::parser::blocks::table::{table, table_at};

verus! {

/// The level of the Setext underline that the line is, or 0: after at most
/// three spaces, a run of `=` for level 1 or of `-` for level 2, and blanks
/// at most behind it.
pub open spec fn setext_level(l: Seq<char>) -> int {
    let len = l.len() as int;
    let a = indent_of(l);
    if a <= 3 && a < len && (l[a] == '=' || l[a] == '-') && blank_from(
        l,
        run_end(l, a, len, CharClass::Is(l[a])),
    ) {
        if l[a] == '=' {
            1
        } else {
            2
        }
    } else {
        0
    }
}

fn read_setext_level(l: &Vec<char>) -> (r: u8)
    ensures
        r == setext_level(l@),
{
    let len = l.len();
    let a = indent(l);
    if a <= 3 && a < len && (l[a] == '=' || l[a] == '-') {
        let e = skip_run(l, a, len, CharClass::Is(l[a]));
        if rest_is_blank(l, e) {
            if l[a] == '=' {
                return 1;
            } else {
                return 2;
            }
        }
    }
    0
}

/// Whether the list item that the line starts may break into a paragraph:
/// it is a bullet or has the number 1, and it is not empty.
pub open spec fn interrupting_item(l: Seq<char>) -> bool {
    match list_marker(l) {
        Some(m) => !blank_from(l, m.width - 1) && match m.kind {
            crate::ast::ListKind::Bullet(b) => true,
            crate::ast::ListKind::Ordered(o) => o.start == 1,
        },
        None => false,
    }
}

/// Whether line `j` starts a block that ends the paragraph before it: a
/// thematic break, an ATX heading, a code fence, a block quote, a list
/// item, or a container.
pub open spec fn starts_block(lines: Seq<Seq<char>>, j: int, guarded: bool) -> bool {
    let l = lines[j];
    is_thematic_break(l) || atx_level(l) > 0 || fence_open(l) is Some || is_quote_line(l)
        || interrupting_item(l) || container_shape(lines, j, guarded) is Some
}

/// Where the paragraph that has reached line `k` ends, and the level of
/// the Setext underline that ends it, or 0. A paragraph ends before a blank
/// line and before a line that starts another block; a Setext underline
/// ends it and makes it a heading.
pub open spec fn paragraph_end(lines: Seq<Seq<char>>, k: int, guarded: bool) -> (int, int)
    decreases lines.len() - k,
{
    if k < 0 || k >= lines.len() {
        (k, 0)
    } else if is_blank(lines[k]) {
        (k, 0)
    } else if setext_level(lines[k]) > 0 {
        (k, setext_level(lines[k]))
    } else if starts_block(lines, k, guarded) {
        (k, 0)
    } else {
        paragraph_end(lines, k + 1, guarded)
    }
}

/// The text of the paragraph that runs from line `i` up to line `e`: the
/// lines without their leading blanks, put together, without the blanks at
/// the very end.
pub open spec fn paragraph_text(lines: Seq<Seq<char>>, i: int, e: int) -> Seq<char> {
    without_trailing_blanks(joined(stripped_lines(lines, i, e, Strip::Blanks), 0, e - i))
}

/// The paragraph, or Setext heading, that starts at line `i`, and the line
/// after it. Line `i` belongs to it whatever it holds.
pub open spec fn paragraph_at(lines: Seq<Seq<char>>, i: int, guarded: bool, depth: nat) -> (
    BlockModel,
    int,
) {
    let (e, level) = paragraph_end(lines, i + 1, guarded);
    let content = inlines_of(paragraph_text(lines, i, e), depth);
    if level == 1 {
        (
            BlockModel::Heading { kind: HeadingKind::Setext(SetextHeading::Level1), content },
            e + 1,
        )
    } else if level == 2 {
        (
            BlockModel::Heading { kind: HeadingKind::Setext(SetextHeading::Level2), content },
            e + 1,
        )
    } else {
        (BlockModel::Paragraph(content), e)
    }
}

/// From and to where the label of the footnote definition on the line
/// runs, and where its text begins: after at most three spaces, `[^`, a
/// label that is not empty and holds neither whitespace nor `]`, `]:`, and
/// one space if there is one.
pub open spec fn footnote_shape(l: Seq<char>) -> Option<(int, int, int)> {
    let len = l.len() as int;
    let a = indent_of(l);
    let e = run_end(l, a + 2, len, CharClass::SolidExcept(']'));
    if a <= 3 && a + 1 < len && l[a] == '[' && l[a + 1] == '^' && a + 2 < e && e + 1 < len && l[e]
        == ']' && l[e + 1] == ':' {
        Some(
            (
                a + 2,
                e,
                if e + 2 < len && l[e + 2] == ' ' {
                    e + 3
                } else {
                    e + 2
                },
            ),
        )
    } else {
        None
    }
}

fn read_footnote_shape(l: &Vec<char>) -> (r: Option<(usize, usize, usize)>)
    ensures
        match r {
            Some((a, b, w)) => footnote_shape(l@) == Some((a as int, b as int, w as int)) && a < b
                < w <= l.len(),
            None => footnote_shape(l@) is None,
        },
{
    let len = l.len();
    let a = indent(l);
    if a > 3 || len - a < 2 || l[a] != '[' || l[a + 1] != '^' {
        return None;
    }
    let e = skip_run(l, a + 2, len, CharClass::SolidExcept(']'));
    if a + 2 < e && len - e >= 2 && l[e] == ']' && l[e + 1] == ':' {
        let w = if len - e >= 3 && l[e + 2] == ' ' {
            e + 3
        } else {
            e + 2
        };
        Some((a + 2, e, w))
    } else {
        None
    }
}

/// The lines of the footnote definition that starts at line `i` and ends
/// before line `e`: the first from `w` on, the others without four leading
/// spaces at most.
pub open spec fn footnote_lines(lines: Seq<Seq<char>>, i: int, e: int, w: int) -> Seq<Seq<char>> {
    seq![lines[i].subrange(w, lines[i].len() as int)] + stripped_lines(
        lines,
        i + 1,
        e,
        Strip::Spaces(4),
    )
}

/// Whether the line goes on with the list whose markers have `delimiter`.
pub open spec fn continues_list(l: Seq<char>, delimiter: char) -> bool {
    !is_thematic_break(l) && match list_marker(l) {
        Some(m) => m.delimiter == delimiter,
        None => false,
    }
}

/// The items of the list from the item that starts at line `i` on, and
/// the line after the list. An item holds its first line and the
/// continuation lines behind it, indented to where its content begins. The
/// list goes on while, after blank lines at most, a line follows that
/// starts an item with the same delimiter.
pub open spec fn items_from(
    lines: Seq<Seq<char>>,
    i: int,
    delimiter: char,
    guarded: bool,
    depth: nat,
) -> (Seq<ListItemModel>, int)
    decreases depth, lines.len() - i, 1nat,
{
    if depth > 0 && 0 <= i < lines.len() {
        match list_marker(lines[i]) {
            Some(m) => {
                let e = continued_end(lines, i + 1, m.width);
                let item = ListItemModel {
                    task: item_task(lines[i], m.width),
                    blocks: blocks_from(
                        item_lines(lines, i, e, m.width),
                        0,
                        guarded,
                        (depth - 1) as nat,
                    ),
                };
                let n = after_blank_lines(lines, e);
                if i < n < lines.len() && continues_list(lines[n], delimiter) {
                    let rest = items_from(lines, n, delimiter, guarded, depth);
                    (seq![item] + rest.0, rest.1)
                } else {
                    (seq![item], e)
                }
            },
            None => (Seq::empty(), i),
        }
    } else {
        (Seq::empty(), i)
    }
}

/// The container that starts at line `i`, and the line after it: the
/// opening line, the blocks that the lines up to the closing line hold, and
/// the closing line. The blocks are read as standing inside a container, so
/// that no container starts among them.
pub open spec fn container_at(lines: Seq<Seq<char>>, i: int, guarded: bool, depth: nat) -> Option<
    (BlockModel, int),
>
    decreases depth, lines.len() - i, 1nat,
{
    match container_shape(lines, i, guarded) {
        Some((open, close)) => if depth > 0 {
            Some(
                (
                    BlockModel::Container {
                        kind: open.kind,
                        params: open.params,
                        blocks: blocks_from(
                            stripped_lines(lines, i + 1, close, Strip::Keep),
                            0,
                            true,
                            (depth - 1) as nat,
                        ),
                    },
                    close + 1,
                ),
            )
        } else {
            None
        },
        None => None,
    }
}

/// The block that starts at line `i`, if the line is not blank, and the
/// line after it. `guarded` says that the lines stand inside a container,
/// where no container starts. `depth` is how many more levels of nesting
/// may be entered: at 0, alerts, quotes, lists, footnote definitions and
/// containers are not recognized and their lines are paragraphs.
pub open spec fn block_at(lines: Seq<Seq<char>>, i: int, guarded: bool, depth: nat) -> (
    Option<BlockModel>,
    int,
)
    decreases depth, lines.len() - i, 2nat,
{
    let l = lines[i];
    let below = (depth - 1) as nat;
    if i < 0 || i >= lines.len() || is_blank(l) {
        (None, i + 1)
    } else if let Some((b, n)) = indented_code_at(lines, i) {
        (Some(b), n)
    } else if is_thematic_break(l) {
        (Some(BlockModel::ThematicBreak), i + 1)
    } else if let Some(b) = atx_heading_of(l, depth) {
        (Some(b), i + 1)
    } else if let Some((b, n)) = fenced_code_at(lines, i) {
        (Some(b), n)
    } else if depth > 0 && alert_marker(l) is Some {
        let e = quote_end(lines, i + 1);
        let word = alert_marker(l).unwrap();
        (
            Some(
                BlockModel::GitHubAlert {
                    alert_type: alert_type_of(l.subrange(word.0, word.1)),
                    blocks: blocks_from(
                        stripped_lines(lines, i + 1, e, Strip::Quote),
                        0,
                        guarded,
                        below,
                    ),
                },
            ),
            e,
        )
    } else if depth > 0 && is_quote_line(l) {
        let e = quote_end(lines, i + 1);
        (
            Some(
                BlockModel::BlockQuote(
                    blocks_from(stripped_lines(lines, i, e, Strip::Quote), 0, guarded, below),
                ),
            ),
            e,
        )
    } else if depth > 0 && list_marker(l) is Some {
        let m = list_marker(l).unwrap();
        let items = items_from(lines, i, m.delimiter, guarded, depth);
        (Some(BlockModel::List { kind: m.kind, items: items.0 }), items.1)
    } else if let Some((b, n)) = table_at(lines, i, depth) {
        (Some(b), n)
    } else if depth > 0 && footnote_shape(l) is Some {
        let shape = footnote_shape(l).unwrap();
        let e = continued_end(lines, i + 1, 4);
        (
            Some(
                BlockModel::FootnoteDefinition {
                    label: l.subrange(shape.0, shape.1),
                    blocks: blocks_from(footnote_lines(lines, i, e, shape.2), 0, guarded, below),
                },
            ),
            e,
        )
    } else if let Some(b) = definition_of(l, depth) {
        (Some(b), i + 1)
    } else if let Some((b, n)) = container_at(lines, i, guarded, depth) {
        (Some(b), n)
    } else {
        let p = paragraph_at(lines, i, guarded, depth);
        (Some(p.0), p.1)
    }
}

/// The block that `block_at` found, as a sequence of none or one.
pub open spec fn found(b: Option<BlockModel>) -> Seq<BlockModel> {
    match b {
        Some(x) => seq![x],
        None => Seq::empty(),
    }
}

/// The blocks that the lines from `i` on hold.
pub open spec fn blocks_from(lines: Seq<Seq<char>>, i: int, guarded: bool, depth: nat) -> Seq<
    BlockModel,
>
    decreases depth, lines.len() - i, 3nat,
{
    if i < 0 || i >= lines.len() {
        Seq::empty()
    } else {
        let r = block_at(lines, i, guarded, depth);
        let next = if i < r.1 <= lines.len() {
            r.1
        } else {
            i + 1
        };
        found(r.0) + blocks_from(lines, next, guarded, depth)
    }
}

/// Inside a container no container starts: read as standing inside a
/// container, no line gives a container.
pub proof fn lemma_guard_refuses_container(lines: Seq<Seq<char>>, i: int, depth: nat)
    requires
        0 <= i < lines.len(),
    ensures
        container_at(lines, i, true, depth) is None,
        !(block_at(lines, i, true, depth).0 matches Some(BlockModel::Container { .. })),
{
    let l = lines[i];
    assert(container_shape(lines, i, true) is None);
    if let Some((b, n)) = indented_code_at(lines, i) {
        assert(b is CodeBlock);
    }
    if let Some(b) = atx_heading_of(l, depth) {
        assert(b is Heading);
    }
    if let Some((b, n)) = fenced_code_at(lines, i) {
        assert(b is CodeBlock);
    }
    if let Some((b, n)) = table_at(lines, i, depth) {
        assert(b is Table);
    }
    if let Some(b) = definition_of(l, depth) {
        assert(b is Definition);
    }
    assert(!(paragraph_at(lines, i, true, depth).0 is Container));
}

/// Inside a container no container starts: among the blocks that lines
/// hold when they are read as standing inside a container, none is a
/// container.
pub proof fn lemma_no_container_inside_container(
    lines: Seq<Seq<char>>,
    i: int,
    depth: nat,
    k: int,
)
    requires
        0 <= k < blocks_from(lines, i, true, depth).len(),
    ensures
        !(blocks_from(lines, i, true, depth)[k] is Container),
    decreases lines.len() - i,
{
    if 0 <= i < lines.len() {
        lemma_guard_refuses_container(lines, i, depth);
        let r = block_at(lines, i, true, depth);
        let next = if i < r.1 <= lines.len() {
            r.1
        } else {
            i + 1
        };
        let first = found(r.0);
        if k >= first.len() {
            lemma_no_container_inside_container(lines, next, depth, k - first.len());
        }
    }
}

/// Lists come before inline emphasis: a line that starts with a list
/// marker and is no thematic break starts a list, whatever stands behind
/// the marker, as long as a level of nesting is left.
pub proof fn lemma_list_marker_starts_list(
    lines: Seq<Seq<char>>,
    i: int,
    guarded: bool,
    depth: nat,
)
    requires
        0 <= i < lines.len(),
        depth > 0,
        list_marker(lines[i]) is Some,
        !is_thematic_break(lines[i]),
    ensures
        block_at(lines, i, guarded, depth).0 matches Some(BlockModel::List { kind, items })
            && kind == list_marker(lines[i]).unwrap().kind,
{
    let l = lines[i];
    let len = l.len() as int;
    let a = indent_of(l);
    lemma_run_end(l, 0, len, CharClass::Space);
    lemma_run_end(l, 0, len, CharClass::Blank);
    lemma_run_end(l, a, len, CharClass::Is('#'));
    lemma_run_end(l, a, len, CharClass::Digit);
    assert(!CharClass::Blank.holds(l[a]));
    assert(!is_blank(l)) by {
        let b = run_end(l, 0, len, CharClass::Blank);
        if b == len {
            assert(CharClass::Blank.holds(l[a]));
        }
    }
    assert(atx_level(l) == 0);
    assert(fence_open(l) is None);
    assert(!is_quote_line(l));
    assert(alert_marker(l) is None);
    assert(indented_code_at(lines, i) is None);
    assert(atx_heading_of(l, depth) is None);
    assert(fenced_code_at(lines, i) is None);
}

/// The model of a sequence with one more block is the model with one
/// more.
pub proof fn lemma_blocks_model_push(s: Seq<Block>, x: Block)
    ensures
        blocks_model(s.push(x)) == blocks_model(s).push(block_model(x)),
{
    assert(blocks_model(s.push(x)) =~= blocks_model(s).push(block_model(x)));
}

fn interrupts_as_item(l: &Vec<char>) -> (r: bool)
    ensures
        r == interrupting_item(l@),
{
    match read_list_marker(l) {
        Some(m) => !rest_is_blank(l, m.width - 1) && match m.kind {
            crate::ast::ListKind::Bullet(b) => true,
            crate::ast::ListKind::Ordered(o) => o.start == 1,
        },
        None => false,
    }
}

fn block_starts(lines: &Vec<Vec<char>>, j: usize, guarded: bool) -> (r: bool)
    requires
        j < lines.len(),
    ensures
        r == starts_block(lines_model(lines@), j as int, guarded),
{
    let l = &lines[j];
    if thematic_break(l) {
        return true;
    }
    let a = indent(l);
    let h = skip_run(l, a, l.len(), CharClass::Is('#'));
    if a <= 3 && 1 <= h - a && h - a <= 6 && (h == l.len() || l[h] == ' ' || l[h] == '\t') {
        return true;
    }
    if crate::parser::blocks::leaf::opens_fence(l) || quote_line(l) || interrupts_as_item(l) {
        return true;
    }
    read_container_shape(lines, j, guarded).is_some()
}

fn find_paragraph_end(lines: &Vec<Vec<char>>, start: usize, guarded: bool) -> (r: (usize, u8))
    requires
        start <= lines.len(),
    ensures
        (r.0 as int, r.1 as int) == paragraph_end(lines_model(lines@), start as int, guarded),
        start <= r.0 <= lines.len(),
        r.1 > 0 ==> r.0 < lines.len(),
{
    let mut k = start;
    while k < lines.len()
        invariant
            start <= k <= lines.len(),
            paragraph_end(lines_model(lines@), start as int, guarded) == paragraph_end(
                lines_model(lines@),
                k as int,
                guarded,
            ),
        decreases lines.len() - k,
    {
        if blank(&lines[k]) {
            return (k, 0);
        }
        let level = read_setext_level(&lines[k]);
        if level > 0 {
            return (k, level);
        }
        if block_starts(lines, k, guarded) {
            return (k, 0);
        }
        k += 1;
    }
    (k, 0)
}

/// Reads the paragraph, or Setext heading, that starts at line `i`.
pub fn paragraph(lines: &Vec<Vec<char>>, i: usize, guarded: bool, depth: usize) -> (r: (
    Block,
    usize,
))
    requires
        i < lines.len(),
    ensures
        (block_model(r.0), r.1 as int) == paragraph_at(
            lines_model(lines@),
            i as int,
            guarded,
            depth as nat,
        ),
        i < r.1 <= lines.len(),
{
    let (e, level) = find_paragraph_end(lines, i + 1, guarded);
    let parts = strip_lines(lines, i, e, Strip::Blanks);
    let text = join_lines(&parts, 0, parts.len());
    let end = skip_run_back(&text, 0, text.len(), CharClass::Blank);
    let trimmed = slice_chars(&text, 0, end);
    let content = parse_inlines(&trimmed, depth);
    if level == 1 {
        (
            Block::Heading(Heading { kind: HeadingKind::Setext(SetextHeading::Level1), content }),
            e + 1,
        )
    } else if level == 2 {
        (
            Block::Heading(Heading { kind: HeadingKind::Setext(SetextHeading::Level2), content }),
            e + 1,
        )
    } else {
        (Block::Paragraph(content), e)
    }
}

fn read_footnote_lines(lines: &Vec<Vec<char>>, i: usize, e: usize, w: usize) -> (r: Vec<Vec<char>>)
    requires
        i < e <= lines.len(),
        w <= lines@[i as int].len(),
    ensures
        lines_model(r@) == footnote_lines(lines_model(lines@), i as int, e as int, w as int),
{
    let first = slice_chars(&lines[i], w, lines[i].len());
    let rest = strip_lines(lines, i + 1, e, Strip::Spaces(4));
    let mut out: Vec<Vec<char>> = Vec::new();
    out.push(first);
    let mut k: usize = 0;
    while k < rest.len()
        invariant
            k <= rest.len(),
            out.len() == k + 1,
            out@[0] == first,
            forall|m: int| 0 <= m < k ==> out@[m + 1]@ == rest@[m]@,
        decreases rest.len() - k,
    {
        out.push(slice_chars(&rest[k], 0, rest[k].len()));
        assert(rest@[k as int]@.subrange(0, rest@[k as int]@.len() as int) =~= rest@[k as int]@);
        k += 1;
    }
    assert(lines_model(out@) =~= seq![first@] + lines_model(rest@));
    out
}

fn list_continues(l: &Vec<char>, delimiter: char) -> (r: bool)
    ensures
        r == continues_list(l@, delimiter),
{
    if thematic_break(l) {
        return false;
    }
    match read_list_marker(l) {
        Some(m) => m.delimiter == delimiter,
        None => false,
    }
}

/// Reads the items of the list from the item that starts at line `i` on.
pub fn parse_items(
    lines: &Vec<Vec<char>>,
    i: usize,
    delimiter: char,
    state: &MarkdownParserState,
    depth: usize,
) -> (r: (Vec<ListItem>, usize))
    requires
        i < lines.len(),
        depth > 0,
        list_marker(lines@[i as int]@) is Some,
    ensures
        (items_model(r.0@), r.1 as int) == items_from(
            lines_model(lines@),
            i as int,
            delimiter,
            state.guarded(),
            depth as nat,
        ),
        i < r.1 <= lines.len(),
    decreases depth, lines.len() - i, 1nat,
{
    let ghost lm = lines_model(lines@);
    let ghost whole = items_from(lm, i as int, delimiter, state.guarded(), depth as nat);
    let mut items: Vec<ListItem> = Vec::new();
    let mut at = i;
    assert(items_model(items@) =~= Seq::<ListItemModel>::empty());
    assert(items_model(items@) + whole.0 =~= whole.0);
    loop
        invariant
            i <= at < lines.len(),
            depth > 0,
            lm == lines_model(lines@),
            list_marker(lm[at as int]) is Some,
            whole == items_from(lm, i as int, delimiter, state.guarded(), depth as nat),
            whole.0 == items_model(items@) + items_from(
                lm,
                at as int,
                delimiter,
                state.guarded(),
                depth as nat,
            ).0,
            whole.1 == items_from(lm, at as int, delimiter, state.guarded(), depth as nat).1,
        decreases lines.len() - at,
    {
        let ghost rest = items_from(lm, at as int, delimiter, state.guarded(), depth as nat);
        let ghost before = items@;
        match read_list_marker(&lines[at]) {
            None => {
                return (items, at + 1);
            },
            Some(m) => {
                let e = find_continued_end(lines, at + 1, m.width);
                let (inner, task) = read_item_lines(lines, at, e, m.width);
                let blocks = parse_blocks(&inner, state, depth - 1);
                let item = ListItem { task, blocks };
                items.push(item);
                assert(items_model(items@) =~= items_model(before) + seq![item_model(item)]);
                let n = skip_blank_lines(lines, e);
                if n < lines.len() && list_continues(&lines[n], delimiter) {
                    let ghost next = items_from(
                        lm,
                        n as int,
                        delimiter,
                        state.guarded(),
                        depth as nat,
                    );
                    assert(rest.0 == seq![item_model(item)] + next.0);
                    assert(items_model(items@) + next.0 =~= items_model(before) + rest.0);
                    at = n;
                } else {
                    assert(rest.0 == seq![item_model(item)]);
                    assert(items_model(items@) =~= items_model(before) + rest.0);
                    return (items, e);
                }
            },
        }
    }
}

/// Reads the container that starts at line `i`. Its blocks are read with
/// the state derived for it, which has the kind of the container appended.
pub fn container(lines: &Vec<Vec<char>>, i: usize, state: &MarkdownParserState, depth: usize) -> (r:
    Option<(Block, usize)>)
    requires
        i < lines.len(),
    ensures
        crate::parser::blocks::leaf::same_block(
            r,
            container_at(lines_model(lines@), i as int, state.guarded(), depth as nat),
        ),
        r matches Some((b, n)) ==> i < n <= lines.len(),
    decreases depth, lines.len() - i, 1nat,
{
    match read_container_shape(lines, i, state.in_container()) {
        Some((open, close)) => {
            if depth == 0 {
                return None;
            }
            let ContainerOpen { kind, params } = open;
            let child = state.derive_child(kind.as_str());
            let inner = strip_lines(lines, i + 1, close, Strip::Keep);
            let blocks = parse_blocks(&inner, &child, depth - 1);
            Some((Block::Container(Container { kind, params, blocks }), close + 1))
        },
        None => None,
    }
}

/// Reads the block that starts at line `i`.
pub fn parse_block_at(
    lines: &Vec<Vec<char>>,
    i: usize,
    state: &MarkdownParserState,
    depth: usize,
) -> (r: (Option<Block>, usize))
    requires
        i < lines.len(),
    ensures
        match r.0 {
            Some(b) => block_at(lines_model(lines@), i as int, state.guarded(), depth as nat).0
                == Some(block_model(b)),
            None => block_at(lines_model(lines@), i as int, state.guarded(), depth as nat).0
                is None,
        },
        r.1 == block_at(lines_model(lines@), i as int, state.guarded(), depth as nat).1,
        i < r.1 <= lines.len(),
    decreases depth, lines.len() - i, 2nat,
{
    let l = &lines[i];
    let guarded = state.in_container();
    if blank(l) {
        return (None, i + 1);
    }
    if let Some((b, n)) = indented_code(lines, i) {
        return (Some(b), n);
    }
    if thematic_break(l) {
        return (Some(Block::ThematicBreak), i + 1);
    }
    if let Some(b) = atx_heading(l, depth) {
        return (Some(b), i + 1);
    }
    if let Some((b, n)) = fenced_code(lines, i) {
        return (Some(b), n);
    }
    if depth > 0 {
        if let Some(alert_type) = read_alert_marker(l) {
            let e = find_quote_end(lines, i + 1);
            let inner = strip_lines(lines, i + 1, e, Strip::Quote);
            let blocks = parse_blocks(&inner, state, depth - 1);
            return (Some(Block::GitHubAlert(GitHubAlert { alert_type, blocks })), e);
        }
        if quote_line(l) {
            let e = find_quote_end(lines, i + 1);
            let inner = strip_lines(lines, i, e, Strip::Quote);
            let blocks = parse_blocks(&inner, state, depth - 1);
            return (Some(Block::BlockQuote(blocks)), e);
        }
        if let Some(m) = read_list_marker(l) {
            let (items, e) = parse_items(lines, i, m.delimiter, state, depth);
            return (Some(Block::List(List { kind: m.kind, items })), e);
        }
    }
    if let Some((b, n)) = table(lines, i, depth) {
        return (Some(b), n);
    }
    if depth > 0 {
        if let Some((a, b, w)) = read_footnote_shape(l) {
            let e = find_continued_end(lines, i + 1, 4);
            let inner = read_footnote_lines(lines, i, e, w);
            let blocks = parse_blocks(&inner, state, depth - 1);
            let label = string_of(l, a, b);
            return (
                Some(Block::FootnoteDefinition(FootnoteDefinition { label, blocks })),
                e,
            );
        }
    }
    if let Some(b) = definition(l, depth) {
        return (Some(b), i + 1);
    }
    if let Some((b, n)) = container(lines, i, state, depth) {
        return (Some(b), n);
    }
    let (b, n) = paragraph(lines, i, guarded, depth);
    (Some(b), n)
}

/// Parses lines into blocks. `depth` bounds how deep blocks and inlines
/// may nest.
pub fn parse_blocks(lines: &Vec<Vec<char>>, state: &MarkdownParserState, depth: usize) -> (r: Vec<
    Block,
>)
    ensures
        blocks_model(r@) == blocks_from(lines_model(lines@), 0, state.guarded(), depth as nat),
    decreases depth, lines.len(), 3nat,
{
    let mut out: Vec<Block> = Vec::new();
    let mut i: usize = 0;
    assert(blocks_model(out@) =~= Seq::<BlockModel>::empty());
    while i < lines.len()
        invariant
            i <= lines.len(),
            blocks_from(lines_model(lines@), 0, state.guarded(), depth as nat) == blocks_model(
                out@,
            ) + blocks_from(lines_model(lines@), i as int, state.guarded(), depth as nat),
        decreases lines.len() - i,
    {
        let (found_block, next) = parse_block_at(lines, i, state, depth);
        let ghost before = out@;
        let ghost rest = blocks_from(
            lines_model(lines@),
            next as int,
            state.guarded(),
            depth as nat,
        );
        match found_block {
            Some(b) => {
                out.push(b);
                proof {
                    lemma_blocks_model_push(before, b);
                    assert(blocks_model(out@) + rest =~= blocks_model(before) + (seq![
                        block_model(b),
                    ] + rest));
                }
            },
            None => {
                assert(blocks_model(out@) + rest =~= blocks_model(before) + (Seq::<
                    BlockModel,
                >::empty() + rest));
            },
        }
        i = next;
    }
    assert(blocks_model(out@) + Seq::<BlockModel>::empty() =~= blocks_model(out@));
    out
}

} // verus!
