//! Inlines in Typst.

use vstd::prelude::*;
use vstd::string::StringExecFns;
use crate::ast::{Inline, Link};
use crate::ast::model::{inline_model, inlines_model, BlockModel, InlineModel};
use crate::doc::{
    all_tokens, append, concat, hardline, lemma_all_push, nil, text, Doc, Token,
};
use crate::typst_printer::block::{concat_blocks, footnote_tokens};
use crate::typst_printer::index::IndexModel;
use crate::typst_printer::util::{
    body, call_tokens, escape_quoted, escape_typst, quoted, text3, typst_escaped, word,
};
use crate::typst_printer::State;

verus! {

pub open spec fn link_name() -> Seq<char> {
    "link"@
}

pub open spec fn raw_name() -> Seq<char> {
    "raw"@
}

/// A text between double quotes.
pub open spec fn in_quotes(s: Seq<char>) -> Seq<char> {
    "\""@ + s + "\""@
}

/// The arguments of a link: its destination, and its title if it has
/// one.
pub open spec fn link_args(destination: Seq<char>, title: Option<Seq<char>>) -> Seq<Token> {
    word(in_quotes(typst_escaped(destination))) + match title {
        Some(t) => word(", title: \""@ + typst_escaped(t) + "\""@),
        None => Seq::empty(),
    }
}

/// The tokens that an inline is written with. A reference is written as
/// what it points to if the index knows its label, and else as it stood in
/// the source. `fuel` is how many footnotes may be entered one inside the
/// other; with none left a footnote reference is written as it stood.
pub open spec fn inline_tokens(m: InlineModel, idx: IndexModel, fuel: nat) -> Seq<Token>
    decreases fuel, 0nat, m, 0nat,
{
    match m {
        InlineModel::Text(t) => word("#\""@ + typst_escaped(t) + "\""@),
        InlineModel::LineBreak => seq![Token::Hardline],
        InlineModel::Code(c) => call_tokens(raw_name(), Some(word(in_quotes(quoted(c)))), None),
        InlineModel::Html(h) => call_tokens(raw_name(), None, Some(word(typst_escaped(h)))),
        InlineModel::Link { destination, title, children } => call_tokens(
            link_name(),
            Some(link_args(destination, title)),
            Some(inlines_tokens(children, 0, idx, fuel)),
        ),
        InlineModel::LinkReference { label, text } => if idx.links.contains_key(label) {
            match idx.links[label] {
                BlockModel::Definition { label: found, destination, title } => call_tokens(
                    link_name(),
                    Some(link_args(destination, title)),
                    Some(inlines_tokens(text, 0, idx, fuel)),
                ),
                _ => inlines_tokens(text, 0, idx, fuel),
            }
        } else {
            inlines_tokens(text, 0, idx, fuel)
        },
        InlineModel::Image { destination, title, alt, attr } => word(
            "#box(image(\""@ + typst_escaped(destination) + "\", alt: \""@ + typst_escaped(alt)
                + "\"))"@,
        ),
        InlineModel::Emphasis(c) => word("#emph["@) + inlines_tokens(c, 0, idx, fuel) + word("]"@),
        InlineModel::Strong(c) => word("#strong["@) + inlines_tokens(c, 0, idx, fuel) + word(
            "]"@,
        ),
        InlineModel::Strikethrough(c) => word("#strike["@) + inlines_tokens(c, 0, idx, fuel)
            + word("]"@),
        InlineModel::Autolink(u) => call_tokens(
            link_name(),
            Some(word(in_quotes(typst_escaped(u)))),
            None,
        ),
        InlineModel::FootnoteReference(label) => if fuel > 0 && idx.footnotes.contains_key(label) {
            word("#footnote["@) + footnote_tokens(idx.footnotes[label], idx, (fuel - 1) as nat)
                + word("]"@)
        } else {
            word("[^"@) + word(typst_escaped(label)) + word("]"@)
        },
        InlineModel::Empty => Seq::empty(),
        InlineModel::Latex(l) => word("#mi(block: false, \""@) + word(typst_escaped(l)) + word(
            "\")"@,
        ),
    }
}

/// The tokens of the inlines from `i` on, one after the other.
pub open spec fn inlines_tokens(s: Seq<InlineModel>, i: int, idx: IndexModel, fuel: nat) -> Seq<
    Token,
>
    decreases fuel, 0nat, s, s.len() - i,
{
    if i < 0 || i >= s.len() {
        Seq::empty()
    } else {
        inline_tokens(s[i], idx, fuel) + inlines_tokens(s, i + 1, idx, fuel)
    }
}

fn quoted_text(s: &str) -> (r: Doc)
    ensures
        r.tokens() == word(in_quotes(s@)),
{
    text3("\"", s, "\"")
}

fn link_arguments(destination: &String, title: &Option<String>) -> (r: Doc)
    ensures
        r.tokens() == link_args(
            destination@,
            match *title {
                Some(t) => Some(t@),
                None => None,
            },
        ),
{
    let first = quoted_text(escape_typst(destination.as_str()).as_str());
    match title {
        Some(t) => {
            let second = text3(", title: \"", escape_typst(t.as_str()).as_str(), "\"");
            append(first, second)
        },
        None => {
            assert(first.tokens() + Seq::<Token>::empty() =~= first.tokens());
            first
        },
    }
}

fn wrapped(open: &str, inner: Doc, close: &str) -> (r: Doc)
    ensures
        r.tokens() == word(open@) + inner.tokens() + word(close@),
{
    append(append(text(String::from_str(open)), inner), text(String::from_str(close)))
}

/// The document of an inline.
pub fn inline_to_doc(inline: &Inline, state: &State, fuel: usize) -> (r: Doc)
    ensures
        r.tokens() == inline_tokens(inline_model(*inline), state.indices@, fuel as nat),
    decreases fuel, 0nat, inline, 0nat,
{
    match inline {
        Inline::Text(t) => text3("#\"", escape_typst(t.as_str()).as_str(), "\""),
        Inline::LineBreak => hardline(),
        Inline::Code(code) => body(
            "raw",
            Some(quoted_text(escape_quoted(code.as_str()).as_str())),
            None,
        ),
        Inline::Html(html) => body("raw", None, Some(text(escape_typst(html.as_str())))),
        Inline::Link(link) => {
            let args = link_arguments(&link.destination, &link.title);
            let children = inlines_to_doc(&link.children, state, fuel);
            body("link", Some(args), Some(children))
        },
        Inline::LinkReference(link_ref) => {
            let shown = inlines_to_doc(&link_ref.text, state, fuel);
            match state.get_link_definition(&link_ref.label) {
                Some(definition) => {
                    let args = link_arguments(&definition.destination, &definition.title);
                    body("link", Some(args), Some(shown))
                },
                None => shown,
            }
        },
        Inline::Image(image) => {
            let mut s = String::from_str("#box(image(\"");
            s.append(escape_typst(image.destination.as_str()).as_str());
            s.append("\", alt: \"");
            s.append(escape_typst(image.alt.as_str()).as_str());
            s.append("\"))");
            text(s)
        },
        Inline::Emphasis(content) => wrapped("#emph[", inlines_to_doc(content, state, fuel), "]"),
        Inline::Strong(content) => wrapped("#strong[", inlines_to_doc(content, state, fuel), "]"),
        Inline::Strikethrough(content) => wrapped(
            "#strike[",
            inlines_to_doc(content, state, fuel),
            "]",
        ),
        Inline::Autolink(url) => body(
            "link",
            Some(quoted_text(escape_typst(url.as_str()).as_str())),
            None,
        ),
        Inline::FootnoteReference(label) => {
            if fuel > 0 {
                match state.get_footnote_definition(label.as_str()) {
                    Some(def) => {
                        let inner = concat_blocks(&def.blocks, state, fuel - 1);
                        return wrapped("#footnote[", inner, "]");
                    },
                    None => {},
                }
            }
            wrapped("[^", text(escape_typst(label.as_str())), "]")
        },
        Inline::Empty => nil(),
        Inline::Latex(latex) => wrapped(
            "#mi(block: false, \"",
            text(escape_typst(latex.as_str())),
            "\")",
        ),
    }
}

/// The document of a sequence of inlines: one after the other.
pub fn inlines_to_doc(inlines: &Vec<Inline>, state: &State, fuel: usize) -> (r: Doc)
    ensures
        r.tokens() == inlines_tokens(inlines_model(inlines@), 0, state.indices@, fuel as nat),
    decreases fuel, 0nat, inlines, 0nat,
{
    let ghost models = inlines_model(inlines@);
    let ghost whole = inlines_tokens(models, 0, state.indices@, fuel as nat);
    let mut parts: Vec<Doc> = Vec::new();
    let mut k: usize = 0;
    assert(all_tokens(parts@) + whole =~= whole);
    while k < inlines.len()
        invariant
            k <= inlines.len(),
            models == inlines_model(inlines@),
            whole == inlines_tokens(models, 0, state.indices@, fuel as nat),
            all_tokens(parts@) + inlines_tokens(models, k as int, state.indices@, fuel as nat)
                == whole,
        decreases inlines.len() - k,
    {
        let ghost before = parts@;
        let next = inline_to_doc(&inlines[k], state, fuel);
        assert(models[k as int] == inline_model(inlines@[k as int]));
        parts.push(next);
        proof {
            lemma_all_push(before, next);
            assert(all_tokens(parts@) + inlines_tokens(models, k + 1, state.indices@, fuel as nat)
                =~= all_tokens(before) + (next.tokens() + inlines_tokens(
                models,
                k + 1,
                state.indices@,
                fuel as nat,
            )));
        }
        k += 1;
    }
    assert(all_tokens(parts@) + Seq::<Token>::empty() =~= all_tokens(parts@));
    concat(parts)
}

} // verus!
