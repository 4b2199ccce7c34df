//! Blocks in Typst.

use vstd::prelude::*;
use vstd::string::StringExecFns;
use crate::ast::{
    Block, CodeBlockKind, Container, GitHubAlertType, HeadingKind, List, ListItem, ListKind,
    SetextHeading, TaskState,
};
use crate::ast::model::{
    alert_type_model, block_model, blocks_model, code_kind_model, item_model, items_model,
    params_model, BlockModel, CodeBlockKindModel, GitHubAlertTypeModel, ListItemModel,
};
use crate::doc::{
    all_tokens, append, concat, group, hardline, lemma_all_push, line_or_space, nil, text, Doc,
    Token,
};
use crate::typst_printer::index::IndexModel;
use crate::typst_printer::inline::{inlines_to_doc, inlines_tokens, raw_name};
use crate::typst_printer::table::{table_to_doc, table_tokens};
use crate::typst_printer::util::{
    body, call_tokens, decimal, escape_quoted, escape_typst, quoted, text3, typst_escaped, word,
    write_decimal,
};
use crate::typst_printer::State;

verus! {

/// The level of a heading, as a number.
pub open spec fn heading_level(kind: HeadingKind) -> nat {
    match kind {
        HeadingKind::Atx(level) => level as nat,
        HeadingKind::Setext(SetextHeading::Level1) => 1,
        HeadingKind::Setext(SetextHeading::Level2) => 2,
    }
}

/// The language of a code block: its info string, and nothing for a code
/// block without one.
pub open spec fn code_language(kind: CodeBlockKindModel) -> Seq<char> {
    match kind {
        CodeBlockKindModel::Fenced { info: Some(lang) } => lang,
        _ => Seq::empty(),
    }
}

/// The arguments of `#raw` for a code block.
pub open spec fn code_args(kind: CodeBlockKindModel, literal: Seq<char>) -> Seq<Token> {
    word("block: true"@) + (if code_language(kind).len() > 0 {
        word(", lang: \""@ + code_language(kind) + "\""@)
    } else {
        Seq::empty()
    }) + word(", \""@ + quoted(literal) + "\""@)
}

/// The title of an alert.
pub open spec fn alert_title(t: GitHubAlertTypeModel) -> Seq<char> {
    match t {
        GitHubAlertTypeModel::Note => "Note"@,
        GitHubAlertTypeModel::Tip => "Tip"@,
        GitHubAlertTypeModel::Important => "Important"@,
        GitHubAlertTypeModel::Warning => "Warning"@,
        GitHubAlertTypeModel::Caution => "Caution"@,
        GitHubAlertTypeModel::Custom(s) => s,
    }
}

pub open spec fn alert_open() -> Seq<char> {
    "#rect(width: 100%, inset: 8pt, radius: 4pt, fill: luma(240), stroke: none, grid(columns: (auto, 1fr), column-gutter: 8pt, [*"@
}

pub open spec fn caption_key() -> Seq<char> {
    "caption"@
}

pub open spec fn figure_kind() -> Seq<char> {
    "figure"@
}

/// The value of the first parameter named `caption`, from `i` on.
pub open spec fn caption_of(params: Seq<(Seq<char>, Seq<char>)>, i: int) -> Option<Seq<char>>
    decreases params.len() - i,
{
    if i < 0 || i >= params.len() {
        None
    } else if params[i].0 == caption_key() {
        Some(params[i].1)
    } else {
        caption_of(params, i + 1)
    }
}

/// The tokens that a block is written with. Link definitions and footnote
/// definitions are written where they are referred to, and so give
/// nothing here. A container of the kind `figure` becomes a figure, with
/// its `caption` parameter as the caption; of any other container only the
/// blocks are written.
pub open spec fn block_tokens(b: BlockModel, idx: IndexModel, fuel: nat) -> Seq<Token>
    decreases fuel, 3nat, b, 0nat,
{
    match b {
        BlockModel::Paragraph(c) => word("#par["@) + inlines_tokens(c, 0, idx, fuel) + word("]"@),
        BlockModel::Heading { kind, content } => word(
            "#heading(level: "@ + decimal(heading_level(kind)) + ", ["@,
        ) + inlines_tokens(content, 0, idx, fuel) + word("])"@),
        BlockModel::ThematicBreak => word("#thematic-break"@),
        BlockModel::BlockQuote(blocks) => if blocks.len() == 0 {
            word("#quote(block: true)[]"@)
        } else {
            word("#quote(block: true)["@) + blocks_tokens(blocks, idx, fuel) + word("]"@)
        },
        BlockModel::List { kind, items } => if items.len() == 0 {
            Seq::empty()
        } else {
            word(
                match kind {
                    ListKind::Ordered(o) => "#enum(\n  ["@,
                    ListKind::Bullet(k) => "#list(\n  ["@,
                },
            ) + items_tokens(items, 0, idx, fuel) + word("],\n)"@)
        },
        BlockModel::CodeBlock { kind, literal } => call_tokens(
            raw_name(),
            Some(code_args(kind, literal)),
            None,
        ),
        BlockModel::HtmlBlock(h) => call_tokens(raw_name(), None, Some(word(typst_escaped(h)))),
        BlockModel::Definition { .. } => Seq::empty(),
        BlockModel::Table { rows, alignments } => table_tokens(rows, alignments, idx, fuel),
        BlockModel::FootnoteDefinition { .. } => Seq::empty(),
        BlockModel::GitHubAlert { alert_type, blocks } => word(alert_open()) + word(
            alert_title(alert_type),
        ) + word("*], \n["@) + blocks_tokens(blocks, idx, fuel) + word("]))"@),
        BlockModel::Container { kind, params, blocks } => if kind == figure_kind() {
            call_tokens(
                figure_kind(),
                match caption_of(params, 0) {
                    Some(c) => Some(word("caption: ["@ + c + "]"@)),
                    None => None,
                },
                Some(loose_blocks_tokens(blocks, 0, Seq::empty(), idx, fuel)),
            )
        } else {
            blocks_tokens(blocks, idx, fuel)
        },
        BlockModel::Empty => Seq::empty(),
        BlockModel::LatexBlock(l) => word("#mi(block: true, \""@) + word(typst_escaped(l)) + word(
            "\")"@,
        ),
    }
}

/// Two hard line breaks: what stands between two blocks.
pub open spec fn blank_line() -> Seq<Token> {
    seq![Token::Hardline, Token::Hardline]
}

/// The tokens of the blocks from `i` on, with a blank line between every
/// two.
pub open spec fn separated_blocks(blocks: Seq<BlockModel>, i: int, idx: IndexModel, fuel: nat) -> Seq<
    Token,
>
    decreases fuel, 3nat, blocks, blocks.len() - i,
{
    if i < 0 || i >= blocks.len() {
        Seq::empty()
    } else {
        (if i > 0 {
            blank_line()
        } else {
            Seq::empty()
        }) + block_tokens(blocks[i], idx, fuel) + separated_blocks(blocks, i + 1, idx, fuel)
    }
}

/// The tokens of a sequence of blocks: a group of the blocks, with a
/// blank line between every two.
pub open spec fn blocks_tokens(blocks: Seq<BlockModel>, idx: IndexModel, fuel: nat) -> Seq<Token>
    decreases fuel, 3nat, blocks, blocks.len() + 1,
{
    seq![Token::Open] + separated_blocks(blocks, 0, idx, fuel) + seq![Token::Close]
}

/// The tokens of the blocks from `i` on, one after the other, with
/// nothing between them.
pub open spec fn joined_blocks(blocks: Seq<BlockModel>, i: int, idx: IndexModel, fuel: nat) -> Seq<
    Token,
>
    decreases fuel, 3nat, blocks, blocks.len() - i,
{
    if i < 0 || i >= blocks.len() {
        Seq::empty()
    } else {
        block_tokens(blocks[i], idx, fuel) + joined_blocks(blocks, i + 1, idx, fuel)
    }
}

/// The tokens of the body of the footnote definition `def`.
pub open spec fn footnote_tokens(def: BlockModel, idx: IndexModel, fuel: nat) -> Seq<Token>
    decreases fuel, 3nat, def, 1nat,
{
    match def {
        BlockModel::FootnoteDefinition { label, blocks } => joined_blocks(blocks, 0, idx, fuel),
        _ => Seq::empty(),
    }
}

/// The tokens of the blocks from `i` on as they stand in a list item or a
/// figure, with `between` between every two: of a paragraph only the
/// inlines are written.
pub open spec fn loose_blocks_tokens(
    blocks: Seq<BlockModel>,
    i: int,
    between: Seq<Token>,
    idx: IndexModel,
    fuel: nat,
) -> Seq<Token>
    decreases fuel, 3nat, blocks, blocks.len() - i,
{
    if i < 0 || i >= blocks.len() {
        Seq::empty()
    } else {
        (if i > 0 {
            between
        } else {
            Seq::empty()
        }) + (match blocks[i] {
            BlockModel::Paragraph(c) => inlines_tokens(c, 0, idx, fuel),
            other => block_tokens(other, idx, fuel),
        }) + loose_blocks_tokens(blocks, i + 1, between, idx, fuel)
    }
}

/// The tokens of a list item: the checkbox of a task, and the blocks with
/// a line between every two.
pub open spec fn item_tokens(item: ListItemModel, idx: IndexModel, fuel: nat) -> Seq<Token>
    decreases fuel, 3nat, item, 0nat,
{
    (match item.task {
        Some(TaskState::Complete) => word("[#sym.checked] "@),
        Some(TaskState::Incomplete) => word("[#sym.checkbox] "@),
        None => Seq::empty(),
    }) + loose_blocks_tokens(item.blocks, 0, seq![Token::Line], idx, fuel)
}

/// The tokens of the list items from `j` on, each closed and the next
/// opened between every two.
pub open spec fn items_tokens(items: Seq<ListItemModel>, j: int, idx: IndexModel, fuel: nat) -> Seq<
    Token,
>
    decreases fuel, 3nat, items, items.len() - j,
{
    if j < 0 || j >= items.len() {
        Seq::empty()
    } else {
        (if j > 0 {
            word("],\n  ["@)
        } else {
            Seq::empty()
        }) + item_tokens(items[j], idx, fuel) + items_tokens(items, j + 1, idx, fuel)
    }
}

fn wrapped(open: &str, inner: Doc, close: &str) -> (r: Doc)
    ensures
        r.tokens() == word(open@) + inner.tokens() + word(close@),
{
    append(append(text(String::from_str(open)), inner), text(String::from_str(close)))
}

fn code_arguments(kind: &CodeBlockKind, literal: &String) -> (r: Doc)
    ensures
        r.tokens() == code_args(code_kind_model(*kind), literal@),
{
    let first = text(String::from_str("block: true"));
    let last = text3(", \"", escape_quoted(literal.as_str()).as_str(), "\"");
    match kind {
        CodeBlockKind::Fenced { info: Some(lang) } => {
            if lang.as_str().is_empty() {
                assert(first.tokens() + Seq::<Token>::empty() =~= first.tokens());
                append(first, last)
            } else {
                let middle = text3(", lang: \"", lang.as_str(), "\"");
                append(append(first, middle), last)
            }
        },
        _ => {
            assert(first.tokens() + Seq::<Token>::empty() =~= first.tokens());
            append(first, last)
        },
    }
}

fn alert_title_of(t: &GitHubAlertType) -> (r: String)
    ensures
        r@ == alert_title(alert_type_model(*t)),
{
    match t {
        GitHubAlertType::Note => String::from_str("Note"),
        GitHubAlertType::Tip => String::from_str("Tip"),
        GitHubAlertType::Important => String::from_str("Important"),
        GitHubAlertType::Warning => String::from_str("Warning"),
        GitHubAlertType::Caution => String::from_str("Caution"),
        GitHubAlertType::Custom(s) => s.clone(),
    }
}

fn find_caption(params: &Vec<(String, String)>) -> (r: Option<Doc>)
    ensures
        match r {
            Some(d) => caption_of(params_model(params@), 0) matches Some(c) && d.tokens() == word(
                "caption: ["@ + c + "]"@,
            ),
            None => caption_of(params_model(params@), 0) is None,
        },
{
    let mut i: usize = 0;
    while i < params.len()
        invariant
            i <= params.len(),
            caption_of(params_model(params@), 0) == caption_of(params_model(params@), i as int),
        decreases params.len() - i,
    {
        if crate::typst_printer::index::str_equal(params[i].0.as_str(), "caption") {
            return Some(text3("caption: [", params[i].1.as_str(), "]"));
        }
        i += 1;
    }
    None
}

/// The document of a block.
pub fn block_to_doc(block: &Block, state: &State, fuel: usize) -> (r: Doc)
    ensures
        r.tokens() == block_tokens(block_model(*block), state.indices@, fuel as nat),
    decreases fuel, 3nat, block, 0nat,
{
    match block {
        Block::Paragraph(inlines) => wrapped("#par[", inlines_to_doc(inlines, state, fuel), "]"),
        Block::Heading(heading) => {
            let level: usize = match heading.kind {
                HeadingKind::Atx(level) => level as usize,
                HeadingKind::Setext(SetextHeading::Level1) => 1,
                HeadingKind::Setext(SetextHeading::Level2) => 2,
            };
            let head = text3("#heading(level: ", write_decimal(level).as_str(), ", [");
            append(
                append(head, inlines_to_doc(&heading.content, state, fuel)),
                text(String::from_str("])")),
            )
        },
        Block::ThematicBreak => text(String::from_str("#thematic-break")),
        Block::BlockQuote(blocks) => {
            if blocks.len() == 0 {
                text(String::from_str("#quote(block: true)[]"))
            } else {
                wrapped("#quote(block: true)[", blocks_to_doc(blocks, state, fuel), "]")
            }
        },
        Block::List(list) => list_to_doc(list, state, fuel),
        Block::CodeBlock(code_block) => body(
            "raw",
            Some(code_arguments(&code_block.kind, &code_block.literal)),
            None,
        ),
        Block::HtmlBlock(html) => body("raw", None, Some(text(escape_typst(html.as_str())))),
        Block::Definition(_) => nil(),
        Block::Table(table) => table_to_doc(table, state, fuel),
        Block::FootnoteDefinition(_) => nil(),
        Block::GitHubAlert(alert) => {
            let head = append(
                append(
                    text(
                        String::from_str(
                            "#rect(width: 100%, inset: 8pt, radius: 4pt, fill: luma(240), stroke: none, grid(columns: (auto, 1fr), column-gutter: 8pt, [*",
                        ),
                    ),
                    text(alert_title_of(&alert.alert_type)),
                ),
                text(String::from_str("*], \n[")),
            );
            append(
                append(head, blocks_to_doc(&alert.blocks, state, fuel)),
                text(String::from_str("]))")),
            )
        },
        Block::Container(container) => container_to_doc(container, state, fuel),
        Block::Empty => nil(),
        Block::LatexBlock(latex) => wrapped(
            "#mi(block: true, \"",
            text(escape_typst(latex.as_str())),
            "\")",
        ),
    }
}

fn container_to_doc(container: &Container, state: &State, fuel: usize) -> (r: Doc)
    ensures
        r.tokens() == block_tokens(
            block_model(Block::Container(*container)),
            state.indices@,
            fuel as nat,
        ),
    decreases fuel, 3nat, container, 0nat,
{
    if crate::typst_printer::index::str_equal(container.kind.as_str(), "figure") {
        let caption = find_caption(&container.params);
        let content = loose_blocks_to_doc(&container.blocks, false, state, fuel);
        body("figure", caption, Some(content))
    } else {
        blocks_to_doc(&container.blocks, state, fuel)
    }
}

/// The document of a sequence of blocks: a group of the blocks, with a
/// blank line between every two.
pub fn blocks_to_doc(blocks: &Vec<Block>, state: &State, fuel: usize) -> (r: Doc)
    ensures
        r.tokens() == blocks_tokens(blocks_model(blocks@), state.indices@, fuel as nat),
    decreases fuel, 3nat, blocks, 0nat,
{
    let ghost models = blocks_model(blocks@);
    let ghost whole = separated_blocks(models, 0, state.indices@, fuel as nat);
    let mut parts: Vec<Doc> = Vec::new();
    let mut k: usize = 0;
    assert(all_tokens(parts@) + whole =~= whole);
    while k < blocks.len()
        invariant
            k <= blocks.len(),
            models == blocks_model(blocks@),
            whole == separated_blocks(models, 0, state.indices@, fuel as nat),
            all_tokens(parts@) + separated_blocks(models, k as int, state.indices@, fuel as nat) == whole,
        decreases blocks.len() - k,
    {
        let ghost before = parts@;
        let ghost rest = separated_blocks(models, k + 1, state.indices@, fuel as nat);
        assert(models[k as int] == block_model(blocks@[k as int]));
        if k > 0 {
            let gap_doc = append(hardline(), hardline());
            proof {
                lemma_all_push(parts@, gap_doc);
            }
            parts.push(gap_doc);
        }
        let ghost gap = if k > 0 {
            blank_line()
        } else {
            Seq::<Token>::empty()
        };
        assert(all_tokens(parts@) =~= all_tokens(before) + gap);
        let ghost mid = parts@;
        let next = block_to_doc(&blocks[k], state, fuel);
        parts.push(next);
        proof {
            lemma_all_push(mid, next);
            assert(all_tokens(parts@) + rest =~= all_tokens(before) + (gap + next.tokens() + rest));
        }
        k += 1;
    }
    assert(all_tokens(parts@) + Seq::<Token>::empty() =~= all_tokens(parts@));
    group(concat(parts))
}

/// The document of blocks, one after the other, with nothing between
/// them.
pub fn concat_blocks(blocks: &Vec<Block>, state: &State, fuel: usize) -> (r: Doc)
    ensures
        r.tokens() == joined_blocks(blocks_model(blocks@), 0, state.indices@, fuel as nat),
    decreases fuel, 3nat, blocks, 0nat,
{
    let ghost models = blocks_model(blocks@);
    let ghost whole = joined_blocks(models, 0, state.indices@, fuel as nat);
    let mut parts: Vec<Doc> = Vec::new();
    let mut k: usize = 0;
    assert(all_tokens(parts@) + whole =~= whole);
    while k < blocks.len()
        invariant
            k <= blocks.len(),
            models == blocks_model(blocks@),
            whole == joined_blocks(models, 0, state.indices@, fuel as nat),
            all_tokens(parts@) + joined_blocks(models, k as int, state.indices@, fuel as nat)
                == whole,
        decreases blocks.len() - k,
    {
        let ghost before = parts@;
        let ghost rest = joined_blocks(models, k + 1, state.indices@, fuel as nat);
        assert(models[k as int] == block_model(blocks@[k as int]));
        let next = block_to_doc(&blocks[k], state, fuel);
        parts.push(next);
        proof {
            lemma_all_push(before, next);
            assert(all_tokens(parts@) + rest =~= all_tokens(before) + (next.tokens() + rest));
        }
        k += 1;
    }
    assert(all_tokens(parts@) + Seq::<Token>::empty() =~= all_tokens(parts@));
    concat(parts)
}

/// The document of blocks as they stand in a list item, with a line
/// between every two, or in a figure, with nothing between them.
pub fn loose_blocks_to_doc(blocks: &Vec<Block>, lines: bool, state: &State, fuel: usize) -> (r: Doc)
    ensures
        r.tokens() == loose_blocks_tokens(
            blocks_model(blocks@),
            0,
            if lines {
                seq![Token::Line]
            } else {
                Seq::empty()
            },
            state.indices@,
            fuel as nat,
        ),
    decreases fuel, 3nat, blocks, 0nat,
{
    let ghost models = blocks_model(blocks@);
    let ghost between = if lines {
        seq![Token::Line]
    } else {
        Seq::<Token>::empty()
    };
    let ghost whole = loose_blocks_tokens(models, 0, between, state.indices@, fuel as nat);
    let mut parts: Vec<Doc> = Vec::new();
    let mut k: usize = 0;
    assert(all_tokens(parts@) + whole =~= whole);
    while k < blocks.len()
        invariant
            k <= blocks.len(),
            models == blocks_model(blocks@),
            between == if lines {
                seq![Token::Line]
            } else {
                Seq::<Token>::empty()
            },
            whole == loose_blocks_tokens(models, 0, between, state.indices@, fuel as nat),
            all_tokens(parts@) + loose_blocks_tokens(
                models,
                k as int,
                between,
                state.indices@,
                fuel as nat,
            ) == whole,
        decreases blocks.len() - k,
    {
        let ghost before = parts@;
        let ghost rest = loose_blocks_tokens(models, k + 1, between, state.indices@, fuel as nat);
        assert(models[k as int] == block_model(blocks@[k as int]));
        if k > 0 && lines {
            let gap_doc = line_or_space();
            proof {
                lemma_all_push(parts@, gap_doc);
            }
            parts.push(gap_doc);
        }
        let ghost gap = if k > 0 {
            between
        } else {
            Seq::<Token>::empty()
        };
        assert(all_tokens(parts@) =~= all_tokens(before) + gap);
        let ghost mid = parts@;
        let next = match &blocks[k] {
            Block::Paragraph(inlines) => inlines_to_doc(inlines, state, fuel),
            other => block_to_doc(other, state, fuel),
        };
        parts.push(next);
        proof {
            lemma_all_push(mid, next);
            assert(all_tokens(parts@) + rest =~= all_tokens(before) + (gap + next.tokens() + rest));
        }
        k += 1;
    }
    assert(all_tokens(parts@) + Seq::<Token>::empty() =~= all_tokens(parts@));
    concat(parts)
}

fn item_to_doc(item: &ListItem, state: &State, fuel: usize) -> (r: Doc)
    ensures
        r.tokens() == item_tokens(item_model(*item), state.indices@, fuel as nat),
    decreases fuel, 3nat, item, 0nat,
{
    let content = loose_blocks_to_doc(&item.blocks, true, state, fuel);
    match item.task {
        Some(TaskState::Complete) => append(text(String::from_str("[#sym.checked] ")), content),
        Some(TaskState::Incomplete) => append(
            text(String::from_str("[#sym.checkbox] ")),
            content,
        ),
        None => {
            assert(Seq::<Token>::empty() + content.tokens() =~= content.tokens());
            content
        },
    }
}

fn list_to_doc(list: &List, state: &State, fuel: usize) -> (r: Doc)
    ensures
        r.tokens() == block_tokens(block_model(Block::List(*list)), state.indices@, fuel as nat),
    decreases fuel, 3nat, list, 0nat,
{
    if list.items.len() == 0 {
        return nil();
    }
    let ghost models = items_model(list.items@);
    let ghost whole = items_tokens(models, 0, state.indices@, fuel as nat);
    let mut parts: Vec<Doc> = Vec::new();
    let mut k: usize = 0;
    assert(all_tokens(parts@) + whole =~= whole);
    while k < list.items.len()
        invariant
            k <= list.items.len(),
            models == items_model(list.items@),
            whole == items_tokens(models, 0, state.indices@, fuel as nat),
            all_tokens(parts@) + items_tokens(models, k as int, state.indices@, fuel as nat)
                == whole,
        decreases list.items.len() - k,
    {
        let ghost before = parts@;
        let ghost rest = items_tokens(models, k + 1, state.indices@, fuel as nat);
        assert(models[k as int] == item_model(list.items@[k as int]));
        if k > 0 {
            let gap_doc = text(String::from_str("],\n  ["));
            proof {
                lemma_all_push(parts@, gap_doc);
            }
            parts.push(gap_doc);
        }
        let ghost gap = if k > 0 {
            word("],\n  ["@)
        } else {
            Seq::<Token>::empty()
        };
        assert(all_tokens(parts@) =~= all_tokens(before) + gap);
        let ghost mid = parts@;
        let next = item_to_doc(&list.items[k], state, fuel);
        parts.push(next);
        proof {
            lemma_all_push(mid, next);
            assert(all_tokens(parts@) + rest =~= all_tokens(before) + (gap + next.tokens() + rest));
        }
        k += 1;
    }
    assert(all_tokens(parts@) + Seq::<Token>::empty() =~= all_tokens(parts@));
    let prefix = match list.kind {
        ListKind::Ordered(_) => "#enum(\n  [",
        ListKind::Bullet(_) => "#list(\n  [",
    };
    wrapped(prefix, concat(parts), "],\n)")
}

} // verus!
