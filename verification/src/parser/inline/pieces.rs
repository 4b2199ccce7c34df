//! What a span is cut into before emphasis is resolved: finished nodes,
//! literal characters and delimiter runs.

use vstd::prelude::*;
use crate::ast::Inline;
use crate::ast::model::{inline_model, inlines_model, InlineModel};

verus! {

/// One piece of a span.
pub enum Piece {
    /// An inline that is complete.
    Node(Inline),
    /// One character of literal text.
    Char(char),
    /// A delimiter run: `count` times `ch`, and whether it may open or close
    /// emphasis.
    Run { ch: char, count: usize, can_open: bool, can_close: bool },
}

/// Model of [`Piece`].
pub enum PieceModel {
    Node(InlineModel),
    Char(char),
    Run { ch: char, count: nat, can_open: bool, can_close: bool },
}

pub open spec fn piece_model(p: Piece) -> PieceModel {
    match p {
        Piece::Node(i) => PieceModel::Node(inline_model(i)),
        Piece::Char(c) => PieceModel::Char(c),
        Piece::Run { ch, count, can_open, can_close } => PieceModel::Run {
            ch,
            count: count as nat,
            can_open,
            can_close,
        },
    }
}

/// The models of a sequence of pieces, one for one.
pub open spec fn pieces_model(s: Seq<Piece>) -> Seq<PieceModel> {
    Seq::new(s.len(), |k: int| piece_model(s[k]))
}

impl View for Piece {
    type V = PieceModel;

    open spec fn view(&self) -> PieceModel {
        piece_model(*self)
    }
}

/// `n` times the character `c`.
pub open spec fn repeat(c: char, n: nat) -> Seq<char> {
    Seq::new(n, |k: int| c)
}

/// The text so far as a node, if there is any.
pub open spec fn pending_text(pending: Seq<char>) -> Seq<InlineModel> {
    if pending.len() > 0 {
        seq![InlineModel::Text(pending)]
    } else {
        Seq::empty()
    }
}

/// The inlines that the pieces from `i` on stand for, after the literal
/// characters `pending`: neighbouring characters, and runs left unmatched,
/// join into one `Text`.
pub open spec fn flatten_from(p: Seq<PieceModel>, i: int, pending: Seq<char>) -> Seq<InlineModel>
    decreases p.len() - i,
{
    if i < 0 || i >= p.len() {
        pending_text(pending)
    } else {
        match p[i] {
            PieceModel::Char(c) => flatten_from(p, i + 1, pending.push(c)),
            PieceModel::Run { ch, count, .. } => flatten_from(p, i + 1, pending + repeat(ch, count)),
            PieceModel::Node(n) => pending_text(pending) + seq![n] + flatten_from(
                p,
                i + 1,
                Seq::empty(),
            ),
        }
    }
}

/// The inlines that a sequence of pieces stands for.
pub open spec fn flatten(p: Seq<PieceModel>) -> Seq<InlineModel> {
    flatten_from(p, 0, Seq::empty())
}

/// The model of a sequence with one more inline is the model with one more.
pub proof fn lemma_inlines_model_push(s: Seq<Inline>, x: Inline)
    ensures
        inlines_model(s.push(x)) == inlines_model(s).push(inline_model(x)),
{
    assert(inlines_model(s.push(x)) =~= inlines_model(s).push(inline_model(x)));
}

/// Appends `count` times `ch` to `text`.
pub fn push_repeated(text: &mut String, ch: char, count: usize)
    ensures
        final(text)@ == old(text)@ + repeat(ch, count as nat),
{
    let mut k: usize = 0;
    while k < count
        invariant
            k <= count,
            text@ == old(text)@ + repeat(ch, k as nat),
        decreases count - k,
    {
        text.push(ch);
        assert(old(text)@ + repeat(ch, (k + 1) as nat) =~= (old(text)@ + repeat(ch, k as nat)).push(
            ch,
        ));
        k += 1;
    }
    assert(old(text)@ + repeat(ch, 0) =~= old(text)@) by {
        assert(repeat(ch, 0) =~= Seq::<char>::empty());
    }
}

/// Turns pieces into inlines: characters and unmatched runs become text,
/// joined into the longest runs.
pub fn flatten_pieces(pieces: Vec<Piece>) -> (r: Vec<Inline>)
    ensures
        inlines_model(r@) == flatten(pieces_model(pieces@)),
{
    let ghost pm = pieces_model(pieces@);
    let mut out: Vec<Inline> = Vec::new();
    let mut pending = String::new();
    assert(inlines_model(out@) =~= Seq::<InlineModel>::empty());
    for p in it: pieces.into_iter()
        invariant
            it.seq() == pieces@,
            pm == pieces_model(pieces@),
            flatten(pm) == inlines_model(out@) + flatten_from(pm, it.index(), pending@),
    {
        let ghost i = it.index();
        assert(pm[i] == piece_model(p));
        match p {
            Piece::Char(c) => {
                let ghost text = pending@;
                pending.push(c);
                assert(flatten_from(pm, i, text) == flatten_from(pm, i + 1, text.push(c)));
            },
            Piece::Run { ch, count, can_open, can_close } => {
                let ghost text = pending@;
                push_repeated(&mut pending, ch, count);
                assert(flatten_from(pm, i, text) == flatten_from(
                    pm,
                    i + 1,
                    text + repeat(ch, count as nat),
                ));
            },
            Piece::Node(n) => {
                let ghost before = out@;
                let ghost text = pending@;
                if !pending.as_str().is_empty() {
                    let t = pending;
                    pending = String::new();
                    out.push(Inline::Text(t));
                    proof {
                        lemma_inlines_model_push(before, Inline::Text(t));
                    }
                } else {
                    assert(pending@ =~= Seq::<char>::empty());
                }
                let ghost mid = out@;
                assert(inlines_model(mid) =~= inlines_model(before) + pending_text(text));
                out.push(n);
                proof {
                    lemma_inlines_model_push(mid, n);
                    assert(inlines_model(out@) + flatten_from(pm, i + 1, Seq::empty())
                        =~= inlines_model(before) + (pending_text(text) + seq![inline_model(n)]
                        + flatten_from(pm, i + 1, Seq::empty())));
                }
            },
        }
    }
    let ghost before = out@;
    let ghost text = pending@;
    if !pending.as_str().is_empty() {
        out.push(Inline::Text(pending));
        proof {
            lemma_inlines_model_push(before, Inline::Text(pending));
        }
    }
    assert(inlines_model(out@) =~= inlines_model(before) + pending_text(text));
    out
}

} // verus!
