//! The inline parser: a span of text to a sequence of inlines.
//!
//! A span is cut into pieces from left to right. At each position the
//! recognizers are tried in one fixed order: backslash escape, code span,
//! raw HTML, autolink, hard line break, image, footnote reference, link,
//! link reference, strikethrough, delimiter run, bare address. What none
//! of them takes is literal text. Emphasis is then resolved over the pieces, and the text
//! that is left is joined into the longest runs.

use vstd::prelude::*;
use crate::ast::{Inline, Link, LinkReference};
use crate::ast::model::{inline_model, inlines_model, InlineModel};
use crate::parser::chars::{
    ascii_punctuation, find_from, find_pattern, is_ascii_punctuation, run_end, skip_run,
    slice_chars, string_of, CharClass,
};

pub mod code;
pub mod emphasis;
pub mod image;
pub mod laws;
pub mod links;
pub mod pieces;

use crate::parser::inline::code::{
    autolink, autolink_at, bare_url, bare_url_at, code_at, code_span, html_at, html_tag,
};
use crate::parser::inline::emphasis::{
    lemma_pieces_model_push, read_run, resolve, resolve_pieces, run_at,
};
use crate::parser::inline::image::{image, image_at};
use crate::parser::inline::links::{
    close_bracket, find_close_bracket, read_tail, tail_at, Tail, TailModel,
};
use crate::parser::inline::pieces::{
    flatten, flatten_pieces, piece_model, pieces_model, Piece, PieceModel,
};

verus! {

/// What the backslash at `i` makes, and where what follows begins: a hard
/// line break before a line feed, the character itself before ASCII
/// punctuation, and else a literal backslash.
pub open spec fn escape_at(s: Seq<char>, i: int) -> (PieceModel, int) {
    if i + 1 < s.len() && s[i + 1] == '\n' {
        (PieceModel::Node(InlineModel::LineBreak), i + 2)
    } else if i + 1 < s.len() && is_ascii_punctuation(s[i + 1]) {
        (PieceModel::Char(s[i + 1]), i + 2)
    } else {
        (PieceModel::Char('\\'), i + 1)
    }
}

/// Where what follows the hard line break at `i` begins: two or more spaces
/// and a line feed make one.
pub open spec fn hard_break_at(s: Seq<char>, i: int) -> Option<int> {
    let e = run_end(s, i, s.len() as int, CharClass::Space);
    if 0 <= i && e - i >= 2 && e < s.len() && s[e] == '\n' {
        Some(e + 1)
    } else {
        None
    }
}

/// The footnote reference `[^label]` that starts at `i`, and where what
/// follows it begins. The label is not empty and holds neither whitespace
/// nor `]`.
pub open spec fn footnote_reference_at(s: Seq<char>, i: int) -> Option<(InlineModel, int)> {
    let len = s.len() as int;
    if 0 <= i && i + 1 < len && s[i] == '[' && s[i + 1] == '^' {
        let e = run_end(s, i + 2, len, CharClass::SolidExcept(']'));
        if i + 2 < e && e < len && s[e] == ']' {
            Some((InlineModel::FootnoteReference(s.subrange(i + 2, e)), e + 1))
        } else {
            None
        }
    } else {
        None
    }
}

/// The link `[text](destination "title")` that starts at `i`: where its
/// text runs from and to, and its tail.
pub open spec fn link_shape_at(s: Seq<char>, i: int) -> Option<(int, int, TailModel)> {
    let len = s.len() as int;
    if 0 <= i < len && s[i] == '[' {
        let te = close_bracket(s, i + 1, 0);
        if te < len {
            match tail_at(s, te + 1) {
                Some(t) => Some((i + 1, te, t)),
                None => None,
            }
        } else {
            None
        }
    } else {
        None
    }
}

/// The link reference that starts at `i`: where its text runs from and to,
/// where its label runs from and to, and where what follows it begins. The
/// text stands between brackets and holds something other than whitespace.
/// A label holds no bracket. In `[text][label]` the label is given; in
/// `[text][]` and in `[text]` the text is the label, and so holds no
/// bracket either.
pub open spec fn reference_shape_at(s: Seq<char>, i: int) -> Option<(int, int, int, int, int)> {
    let len = s.len() as int;
    if 0 <= i < len && s[i] == '[' {
        let te = close_bracket(s, i + 1, 0);
        let flat = run_end(s, i + 1, te, CharClass::IsNot('[')) >= te;
        let le = run_end(s, te + 2, len, CharClass::NeitherOf('[', ']'));
        if te < len && run_end(s, i + 1, te, CharClass::Whitespace) < te {
            if te + 1 < len && s[te + 1] == '[' && te + 2 < le && le < len && s[le] == ']' {
                Some((i + 1, te, te + 2, le, le + 1))
            } else if !flat {
                None
            } else if te + 2 < len && s[te + 1] == '[' && s[te + 2] == ']' {
                Some((i + 1, te, i + 1, te, te + 3))
            } else {
                Some((i + 1, te, i + 1, te, te + 1))
            }
        } else {
            None
        }
    } else {
        None
    }
}

pub open spec fn tildes() -> Seq<char> {
    seq!['~', '~']
}

/// The strikethrough `~~text~~` that starts at `i`: where its text runs
/// from and to. The text is not empty and ends at the next `~~`.
pub open spec fn strike_shape_at(s: Seq<char>, i: int) -> Option<(int, int)> {
    let len = s.len() as int;
    if 0 <= i && i + 1 < len && s[i] == '~' && s[i + 1] == '~' {
        let j = find_from(s, i + 2, len, tildes());
        if i + 2 < j && j < len {
            Some((i + 2, j))
        } else {
            None
        }
    } else {
        None
    }
}

/// The piece that starts at `i`, and where the next one begins. `depth` is
/// how many more levels of nesting may be entered: at 0, links, references
/// and strikethrough are not recognized and their characters are text.
pub open spec fn token_at(s: Seq<char>, i: int, depth: nat) -> (PieceModel, int)
    decreases depth, 0nat, 0nat,
{
    let c = s[i];
    if c == '\\' {
        escape_at(s, i)
    } else if c == '`' {
        code_at(s, i)
    } else if c == '<' {
        match html_at(s, i) {
            Some((n, e)) => (PieceModel::Node(n), e),
            None => match autolink_at(s, i) {
                Some((n, e)) => (PieceModel::Node(n), e),
                None => (PieceModel::Char(c), i + 1),
            },
        }
    } else if c == ' ' {
        match hard_break_at(s, i) {
            Some(e) => (PieceModel::Node(InlineModel::LineBreak), e),
            None => (PieceModel::Char(c), i + 1),
        }
    } else if c == '!' {
        match image_at(s, i) {
            Some((n, e)) => (PieceModel::Node(n), e),
            None => (PieceModel::Char(c), i + 1),
        }
    } else if c == '[' {
        match footnote_reference_at(s, i) {
            Some((n, e)) => (PieceModel::Node(n), e),
            None => if depth == 0 {
                (PieceModel::Char(c), i + 1)
            } else {
                match link_shape_at(s, i) {
                    Some((a, b, t)) => (
                        PieceModel::Node(
                            InlineModel::Link {
                                destination: t.destination,
                                title: t.title,
                                children: inlines_of(s.subrange(a, b), (depth - 1) as nat),
                            },
                        ),
                        t.end,
                    ),
                    None => match reference_shape_at(s, i) {
                        Some((ta, tb, la, lb, e)) => (
                            PieceModel::Node(
                                InlineModel::LinkReference {
                                    label: inlines_of(s.subrange(la, lb), (depth - 1) as nat),
                                    text: inlines_of(s.subrange(ta, tb), (depth - 1) as nat),
                                },
                            ),
                            e,
                        ),
                        None => (PieceModel::Char(c), i + 1),
                    },
                }
            },
        }
    } else if c == '~' {
        if depth == 0 {
            (PieceModel::Char(c), i + 1)
        } else {
            match strike_shape_at(s, i) {
                Some((a, b)) => (
                    PieceModel::Node(
                        InlineModel::Strikethrough(
                            inlines_of(s.subrange(a, b), (depth - 1) as nat),
                        ),
                    ),
                    b + 2,
                ),
                None => (PieceModel::Char(c), i + 1),
            }
        }
    } else if c == '*' || c == '_' {
        run_at(s, i)
    } else if c == 'h' || c == 'w' {
        match bare_url_at(s, i) {
            Some((n, e)) => (PieceModel::Node(n), e),
            None => (PieceModel::Char(c), i + 1),
        }
    } else {
        (PieceModel::Char(c), i + 1)
    }
}

/// The pieces of `s` from `i` on.
pub open spec fn pieces_from(s: Seq<char>, i: int, depth: nat) -> Seq<PieceModel>
    decreases depth, 1nat, s.len() - i,
{
    if i < 0 || i >= s.len() {
        Seq::empty()
    } else {
        let t = token_at(s, i, depth);
        let next = if i < t.1 <= s.len() {
            t.1
        } else {
            i + 1
        };
        seq![t.0] + pieces_from(s, next, depth)
    }
}

/// The inlines that the span `s` holds.
pub open spec fn inlines_of(s: Seq<char>, depth: nat) -> Seq<InlineModel>
    decreases depth, 2nat, 0nat,
{
    flatten(resolve(pieces_from(s, 0, depth)))
}

fn read_escape(s: &Vec<char>, i: usize) -> (r: (Piece, usize))
    requires
        i < s.len(),
    ensures
        (piece_model(r.0), r.1 as int) == escape_at(s@, i as int),
        i < r.1 <= s.len(),
{
    if s.len() - i >= 2 && s[i + 1] == '\n' {
        (Piece::Node(Inline::LineBreak), i + 2)
    } else if s.len() - i >= 2 && ascii_punctuation(s[i + 1]) {
        (Piece::Char(s[i + 1]), i + 2)
    } else {
        (Piece::Char('\\'), i + 1)
    }
}

fn read_hard_break(s: &Vec<char>, i: usize) -> (r: Option<usize>)
    requires
        i < s.len(),
    ensures
        match r {
            Some(e) => hard_break_at(s@, i as int) == Some(e as int) && i < e <= s.len(),
            None => hard_break_at(s@, i as int) is None,
        },
{
    let e = skip_run(s, i, s.len(), CharClass::Space);
    if e - i >= 2 && e < s.len() && s[e] == '\n' {
        Some(e + 1)
    } else {
        None
    }
}

fn read_footnote_reference(s: &Vec<char>, i: usize) -> (r: Option<(Inline, usize)>)
    requires
        i < s.len(),
    ensures
        match r {
            Some((node, e)) => footnote_reference_at(s@, i as int) == Some(
                (inline_model(node), e as int),
            ) && i < e <= s.len(),
            None => footnote_reference_at(s@, i as int) is None,
        },
{
    let len = s.len();
    if len - i < 2 || s[i] != '[' || s[i + 1] != '^' {
        return None;
    }
    let e = skip_run(s, i + 2, len, CharClass::SolidExcept(']'));
    if i + 2 < e && e < len && s[e] == ']' {
        Some((Inline::FootnoteReference(string_of(s, i + 2, e)), e + 1))
    } else {
        None
    }
}

fn read_link_shape(s: &Vec<char>, i: usize) -> (r: Option<(usize, usize, Tail)>)
    requires
        i < s.len(),
    ensures
        match r {
            Some((a, b, t)) => link_shape_at(s@, i as int) == Some((a as int, b as int, t@)) && i
                < a <= b < t.end <= s.len(),
            None => link_shape_at(s@, i as int) is None,
        },
{
    if s[i] != '[' {
        return None;
    }
    let te = find_close_bracket(s, i + 1);
    if te >= s.len() {
        return None;
    }
    match read_tail(s, te + 1) {
        Some(t) => Some((i + 1, te, t)),
        None => None,
    }
}

fn read_reference_shape(s: &Vec<char>, i: usize) -> (r: Option<(usize, usize, usize, usize, usize)>)
    requires
        i < s.len(),
    ensures
        match r {
            Some((ta, tb, la, lb, e)) => reference_shape_at(s@, i as int) == Some(
                (ta as int, tb as int, la as int, lb as int, e as int),
            ) && i < ta <= tb < e <= s.len() && i < la <= lb < e,
            None => reference_shape_at(s@, i as int) is None,
        },
{
    let len = s.len();
    if s[i] != '[' {
        return None;
    }
    let te = find_close_bracket(s, i + 1);
    if te >= len {
        return None;
    }
    let solid = skip_run(s, i + 1, te, CharClass::Whitespace);
    if solid >= te {
        return None;
    }
    if len - te >= 2 && s[te + 1] == '[' {
        let le = skip_run(s, te + 2, len, CharClass::NeitherOf('[', ']'));
        if te + 2 < le && le < len && s[le] == ']' {
            return Some((i + 1, te, te + 2, le, le + 1));
        }
    }
    let flat = skip_run(s, i + 1, te, CharClass::IsNot('[')) >= te;
    if !flat {
        None
    } else if len - te >= 3 && s[te + 1] == '[' && s[te + 2] == ']' {
        Some((i + 1, te, i + 1, te, te + 3))
    } else {
        Some((i + 1, te, i + 1, te, te + 1))
    }
}

fn read_strike_shape(s: &Vec<char>, i: usize) -> (r: Option<(usize, usize)>)
    requires
        i < s.len(),
    ensures
        match r {
            Some((a, b)) => strike_shape_at(s@, i as int) == Some((a as int, b as int)) && i < a
                < b && b + 2 <= s.len(),
            None => strike_shape_at(s@, i as int) is None,
        },
{
    let len = s.len();
    if len - i < 2 || s[i] != '~' || s[i + 1] != '~' {
        return None;
    }
    let pat = vec!['~', '~'];
    assert(pat@ =~= tildes());
    let j = find_pattern(s, i + 2, len, &pat);
    if i + 2 < j && j < len {
        Some((i + 2, j))
    } else {
        None
    }
}

/// Reads the piece that starts at `i`.
pub fn read_token(s: &Vec<char>, i: usize, depth: usize) -> (r: (Piece, usize))
    requires
        i < s.len(),
    ensures
        (piece_model(r.0), r.1 as int) == token_at(s@, i as int, depth as nat),
        i < r.1 <= s.len(),
    decreases depth, 0nat, 0nat,
{
    let c = s[i];
    if c == '\\' {
        read_escape(s, i)
    } else if c == '`' {
        code_span(s, i)
    } else if c == '<' {
        match html_tag(s, i) {
            Some((n, e)) => (Piece::Node(n), e),
            None => match autolink(s, i) {
                Some((n, e)) => (Piece::Node(n), e),
                None => (Piece::Char(c), i + 1),
            },
        }
    } else if c == ' ' {
        match read_hard_break(s, i) {
            Some(e) => (Piece::Node(Inline::LineBreak), e),
            None => (Piece::Char(c), i + 1),
        }
    } else if c == '!' {
        match image(s, i) {
            Some((n, e)) => (Piece::Node(n), e),
            None => (Piece::Char(c), i + 1),
        }
    } else if c == '[' {
        match read_footnote_reference(s, i) {
            Some((n, e)) => (Piece::Node(n), e),
            None => if depth == 0 {
                (Piece::Char(c), i + 1)
            } else {
                match read_link_shape(s, i) {
                    Some((a, b, t)) => {
                        let Tail { destination, title, end } = t;
                        let text = slice_chars(s, a, b);
                        let children = parse_inlines(&text, depth - 1);
                        (Piece::Node(Inline::Link(Link { destination, title, children })), end)
                    },
                    None => match read_reference_shape(s, i) {
                        Some((ta, tb, la, lb, e)) => {
                            let shown = slice_chars(s, ta, tb);
                            let text = parse_inlines(&shown, depth - 1);
                            let label = if la == ta && lb == tb {
                                crate::ast::clone::clone_inlines(&text)
                            } else {
                                let label_text = slice_chars(s, la, lb);
                                parse_inlines(&label_text, depth - 1)
                            };
                            (Piece::Node(Inline::LinkReference(LinkReference { label, text })), e)
                        },
                        None => (Piece::Char(c), i + 1),
                    },
                }
            },
        }
    } else if c == '~' {
        if depth == 0 {
            (Piece::Char(c), i + 1)
        } else {
            match read_strike_shape(s, i) {
                Some((a, b)) => {
                    let text = slice_chars(s, a, b);
                    let children = parse_inlines(&text, depth - 1);
                    (Piece::Node(Inline::Strikethrough(children)), b + 2)
                },
                None => (Piece::Char(c), i + 1),
            }
        }
    } else if c == '*' || c == '_' {
        read_run(s, i)
    } else if c == 'h' || c == 'w' {
        match bare_url(s, i) {
            Some((n, e)) => (Piece::Node(n), e),
            None => (Piece::Char(c), i + 1),
        }
    } else {
        (Piece::Char(c), i + 1)
    }
}

/// Cuts a span into its pieces.
pub fn tokenize(s: &Vec<char>, depth: usize) -> (r: Vec<Piece>)
    ensures
        pieces_model(r@) == pieces_from(s@, 0, depth as nat),
    decreases depth, 1nat, 0nat,
{
    let mut out: Vec<Piece> = Vec::new();
    let mut i: usize = 0;
    assert(pieces_model(out@) =~= Seq::<PieceModel>::empty());
    while i < s.len()
        invariant
            i <= s.len(),
            pieces_from(s@, 0, depth as nat) == pieces_model(out@) + pieces_from(
                s@,
                i as int,
                depth as nat,
            ),
        decreases s.len() - i,
    {
        let (p, next) = read_token(s, i, depth);
        let ghost before = out@;
        out.push(p);
        proof {
            lemma_pieces_model_push(before, p);
            assert(pieces_model(out@) + pieces_from(s@, next as int, depth as nat)
                =~= pieces_model(before) + (seq![piece_model(p)] + pieces_from(
                s@,
                next as int,
                depth as nat,
            )));
        }
        i = next;
    }
    assert(pieces_model(out@) + Seq::<PieceModel>::empty() =~= pieces_model(out@));
    out
}

/// Parses a span into inlines. `depth` bounds how deep links, references
/// and strikethrough may nest; what lies deeper stays text.
pub fn parse_inlines(s: &Vec<char>, depth: usize) -> (r: Vec<Inline>)
    ensures
        inlines_model(r@) == inlines_of(s@, depth as nat),
    decreases depth, 2nat, 0nat,
{
    let pieces = tokenize(s, depth);
    let resolved = resolve_pieces(pieces);
    flatten_pieces(resolved)
}

} // verus!
