//! What holds of every span: text comes out in the longest runs.

use vstd::prelude::*;
use crate::ast::model::InlineModel;
use crate::parser::inline::emphasis::{close, nearest_opener, resolve_from, step};
use crate::parser::inline::pieces::{flatten, flatten_from, pending_text, PieceModel};
use crate::parser::inline::{inlines_of, pieces_from, token_at};

verus! {

/// Whether no two neighbours in the sequence are both `Text`, and no
/// `Text` is empty.
pub open spec fn text_is_merged(s: Seq<InlineModel>) -> bool {
    &&& forall|k: int| 0 <= k < s.len() - 1 ==> !(#[trigger] s[k] is Text && s[k + 1] is Text)
    &&& forall|k: int| 0 <= k < s.len() ==> (#[trigger] s[k] matches InlineModel::Text(t) ==> t.len() > 0)
}

/// Whether none of the pieces is a finished `Text` node: literal text is
/// carried as characters and runs.
pub open spec fn text_is_loose(p: Seq<PieceModel>) -> bool {
    forall|k: int| 0 <= k < p.len() ==> !(#[trigger] p[k] matches PieceModel::Node(n) && n is Text)
}

/// Pieces whose text is loose are flattened into merged text.
pub proof fn lemma_flatten_merges(p: Seq<PieceModel>, i: int, pending: Seq<char>)
    requires
        text_is_loose(p),
        0 <= i,
    ensures
        text_is_merged(flatten_from(p, i, pending)),
    decreases p.len() - i,
{
    if i < p.len() {
        match p[i] {
            PieceModel::Char(c) => {
                lemma_flatten_merges(p, i + 1, pending.push(c));
            },
            PieceModel::Run { ch, count, .. } => {
                lemma_flatten_merges(
                    p,
                    i + 1,
                    pending + crate::parser::inline::pieces::repeat(ch, count),
                );
            },
            PieceModel::Node(n) => {
                lemma_flatten_merges(p, i + 1, Seq::empty());
                let head = pending_text(pending);
                let rest = flatten_from(p, i + 1, Seq::empty());
                let all = head + seq![n] + rest;
                assert(!(n is Text));
                assert forall|k: int| 0 <= k < all.len() - 1 implies !(#[trigger] all[k] is Text
                    && all[k + 1] is Text) by {
                    if k >= head.len() + 1 {
                        assert(all[k] == rest[k - head.len() - 1]);
                        assert(all[k + 1] == rest[k + 1 - head.len() - 1]);
                    }
                }
                assert forall|k: int| 0 <= k < all.len() implies (#[trigger] all[k] matches InlineModel::Text(
                    t,
                ) ==> t.len() > 0) by {
                    if k >= head.len() + 1 {
                        assert(all[k] == rest[k - head.len() - 1]);
                    }
                }
            },
        }
    }
}

/// Matching a closing run against a stack of loose text leaves the text
/// loose: what it makes is `Strong` or `Emphasis`.
pub proof fn lemma_close_keeps_loose(stack: Seq<PieceModel>, ch: char, count: nat, can_open: bool)
    requires
        text_is_loose(stack),
    ensures
        text_is_loose(close(stack, ch, count, can_open)),
    decreases count,
{
    if count > 0 {
        let k = nearest_opener(stack, stack.len() as int, ch);
        if 0 <= k < stack.len() {
            let have = crate::parser::inline::emphasis::run_count(stack[k]);
            let n = crate::parser::inline::emphasis::used(have, count);
            let inner = flatten(stack.subrange(k + 1, stack.len() as int));
            let node = if n == 2 {
                InlineModel::Strong(inner)
            } else {
                InlineModel::Emphasis(inner)
            };
            let base = stack.subrange(0, k);
            let kept = if have > n {
                base.push(
                    PieceModel::Run {
                        ch,
                        count: (have - n) as nat,
                        can_open: true,
                        can_close: crate::parser::inline::emphasis::run_can_close(stack[k]),
                    },
                )
            } else {
                base
            };
            let next = kept.push(PieceModel::Node(node));
            assert(text_is_loose(next)) by {
                assert forall|j: int| 0 <= j < next.len() implies !(#[trigger] next[j] matches PieceModel::Node(
                    x,
                ) && x is Text) by {
                    if j < k {
                        assert(next[j] == stack[j]);
                    }
                }
            }
            if n <= count {
                lemma_close_keeps_loose(next, ch, (count - n) as nat, can_open);
            }
        }
    }
}

/// Resolving emphasis over loose text leaves the text loose.
pub proof fn lemma_resolve_keeps_loose(p: Seq<PieceModel>, i: int, stack: Seq<PieceModel>)
    requires
        text_is_loose(p),
        text_is_loose(stack),
        0 <= i,
    ensures
        text_is_loose(resolve_from(p, i, stack)),
    decreases p.len() - i,
{
    if i < p.len() {
        match p[i] {
            PieceModel::Run { ch, count, can_open, can_close } => {
                if can_close {
                    lemma_close_keeps_loose(stack, ch, count, can_open);
                }
            },
            _ => {},
        }
        lemma_resolve_keeps_loose(p, i + 1, step(stack, p[i]));
    }
}

/// No recognizer makes a `Text` node: the text of a span is loose in its
/// pieces.
pub proof fn lemma_pieces_are_loose(s: Seq<char>, i: int, depth: nat)
    requires
        0 <= i,
    ensures
        text_is_loose(pieces_from(s, i, depth)),
    decreases s.len() - i,
{
    if i < s.len() {
        let t = token_at(s, i, depth);
        let next = if i < t.1 <= s.len() {
            t.1
        } else {
            i + 1
        };
        lemma_pieces_are_loose(s, next, depth);
        let rest = pieces_from(s, next, depth);
        let all = seq![t.0] + rest;
        assert(!(t.0 matches PieceModel::Node(n) && n is Text));
        assert forall|k: int| 0 <= k < all.len() implies !(#[trigger] all[k] matches PieceModel::Node(
            n,
        ) && n is Text) by {
            if k >= 1 {
                assert(all[k] == rest[k - 1]);
            }
        }
    }
}

/// Text comes out in the longest runs: among the inlines of a span no two
/// neighbours are both `Text`, and no `Text` is empty.
pub proof fn lemma_text_is_merged(s: Seq<char>, depth: nat)
    ensures
        text_is_merged(inlines_of(s, depth)),
{
    let pieces = pieces_from(s, 0, depth);
    lemma_pieces_are_loose(s, 0, depth);
    lemma_resolve_keeps_loose(pieces, 0, Seq::empty());
    lemma_flatten_merges(resolve_from(pieces, 0, Seq::empty()), 0, Seq::empty());
}

} // verus!
