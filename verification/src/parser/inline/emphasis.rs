//! Delimiter runs of `*` and `_`: what may open and close, and how closers
//! find their openers.

use vstd::prelude::*;
use crate::ast::Inline;
use crate::ast::model::InlineModel;
use crate::parser::chars::{
    ascii_punctuation, is_ascii_punctuation, run_end, skip_run, unicode_alphanumeric,
    unicode_whitespace, CharClass,
};
use crate::parser::inline::pieces::{
    flatten, flatten_pieces, piece_model, pieces_model, Piece, PieceModel,
};

verus! {

/// The character before position `i`, if there is one.
pub open spec fn char_before(s: Seq<char>, i: int) -> Option<char> {
    if 0 < i <= s.len() {
        Some(s[i - 1])
    } else {
        None
    }
}

/// The character at position `j`, if there is one.
pub open spec fn char_at(s: Seq<char>, j: int) -> Option<char> {
    if 0 <= j < s.len() {
        Some(s[j])
    } else {
        None
    }
}

/// Whitespace, or the edge of the span.
pub open spec fn edge_or_whitespace(o: Option<char>) -> bool {
    match o {
        Some(c) => unicode_whitespace(c),
        None => true,
    }
}

pub open spec fn is_punctuation(o: Option<char>) -> bool {
    match o {
        Some(c) => is_ascii_punctuation(c),
        None => false,
    }
}

pub open spec fn is_alphanumeric(o: Option<char>) -> bool {
    match o {
        Some(c) => unicode_alphanumeric(c),
        None => false,
    }
}

/// A run is left-flanking if it is not followed by whitespace and either is
/// not followed by punctuation or is preceded by whitespace or punctuation.
pub open spec fn left_flanking(before: Option<char>, after: Option<char>) -> bool {
    !edge_or_whitespace(after) && (!is_punctuation(after) || edge_or_whitespace(before)
        || is_punctuation(before))
}

/// The mirror image of [`left_flanking`].
pub open spec fn right_flanking(before: Option<char>, after: Option<char>) -> bool {
    !edge_or_whitespace(before) && (!is_punctuation(before) || edge_or_whitespace(after)
        || is_punctuation(after))
}

/// Whether a run of `ch` between `before` and `after` may open emphasis. A
/// run of `_` may not when an alphanumeric precedes it.
pub open spec fn may_open(ch: char, before: Option<char>, after: Option<char>) -> bool {
    left_flanking(before, after) && (ch != '_' || !is_alphanumeric(before))
}

/// Whether a run of `ch` between `before` and `after` may close emphasis. A
/// run of `_` may not when an alphanumeric follows it.
pub open spec fn may_close(ch: char, before: Option<char>, after: Option<char>) -> bool {
    right_flanking(before, after) && (ch != '_' || !is_alphanumeric(after))
}

/// A run of `_` with an alphanumeric on either side neither opens nor closes
/// emphasis, whatever the other neighbour is.
pub proof fn lemma_intraword_underscore(before: char, after: char)
    requires
        unicode_alphanumeric(before),
        unicode_alphanumeric(after),
    ensures
        !may_open('_', Some(before), Some(after)),
        !may_close('_', Some(before), Some(after)),
{
}

/// The delimiter run that starts at `i`, and where it ends.
pub open spec fn run_at(s: Seq<char>, i: int) -> (PieceModel, int)
    recommends
        0 <= i < s.len(),
{
    let j = run_end(s, i, s.len() as int, CharClass::Is(s[i]));
    (
        PieceModel::Run {
            ch: s[i],
            count: (j - i) as nat,
            can_open: may_open(s[i], char_before(s, i), char_at(s, j)),
            can_close: may_close(s[i], char_before(s, i), char_at(s, j)),
        },
        j,
    )
}

fn whitespace_or_edge(s: &Vec<char>, present: bool, k: usize) -> (r: bool)
    requires
        present ==> k < s.len(),
    ensures
        r == edge_or_whitespace(if present { Some(s@[k as int]) } else { None }),
{
    if present {
        s[k].is_whitespace()
    } else {
        true
    }
}

/// Reads the delimiter run that starts at `i`.
pub fn read_run(s: &Vec<char>, i: usize) -> (r: (Piece, usize))
    requires
        i < s.len(),
    ensures
        (piece_model(r.0), r.1 as int) == run_at(s@, i as int),
        i < r.1 <= s.len(),
{
    let ch = s[i];
    let j = skip_run(s, i, s.len(), CharClass::Is(ch));
    let has_before = i > 0;
    let has_after = j < s.len();
    let kb: usize = if has_before { i - 1 } else { 0 };
    let ws_before = whitespace_or_edge(s, has_before, kb);
    let ws_after = whitespace_or_edge(s, has_after, j);
    let p_before = has_before && ascii_punctuation(s[kb]);
    let p_after = has_after && ascii_punctuation(s[j]);
    let a_before = has_before && s[kb].is_alphanumeric();
    let a_after = has_after && s[j].is_alphanumeric();
    let left = !ws_after && (!p_after || ws_before || p_before);
    let right = !ws_before && (!p_before || ws_after || p_after);
    let can_open = left && (ch != '_' || !a_before);
    let can_close = right && (ch != '_' || !a_after);
    assert(j > i) by {
        assert(CharClass::Is(ch).holds(s@[i as int]));
    }
    (Piece::Run { ch, count: j - i, can_open, can_close }, j)
}

/// Whether `p` is a run of `ch` that may open emphasis.
pub open spec fn is_opener(p: PieceModel, ch: char) -> bool {
    match p {
        PieceModel::Run { ch: c, count, can_open, .. } => c == ch && can_open && count > 0,
        _ => false,
    }
}

/// The last position below `n` of the stack that holds an opener for `ch`,
/// or -1.
pub open spec fn nearest_opener(stack: Seq<PieceModel>, n: int, ch: char) -> int
    decreases n,
{
    if n <= 0 || n > stack.len() {
        -1
    } else if is_opener(stack[n - 1], ch) {
        n - 1
    } else {
        nearest_opener(stack, n - 1, ch)
    }
}

/// How many delimiters a match takes from each side: two, which makes
/// `Strong`, when both runs hold at least two and the shorter holds an even
/// number; else one, which makes `Emphasis`.
pub open spec fn used(opener: nat, closer: nat) -> nat {
    let shorter = if opener <= closer {
        opener
    } else {
        closer
    };
    if opener >= 2 && closer >= 2 && shorter % 2 == 0 {
        2
    } else {
        1
    }
}

pub open spec fn run_count(p: PieceModel) -> nat {
    match p {
        PieceModel::Run { count, .. } => count,
        _ => 0,
    }
}

pub open spec fn run_can_close(p: PieceModel) -> bool {
    match p {
        PieceModel::Run { can_close, .. } => can_close,
        _ => false,
    }
}

/// The stack after a closing run of `count` times `ch` has met it. As long
/// as delimiters are left, the run pairs with the nearest opener of its
/// character: what lies between becomes the content of a `Strong` or an
/// `Emphasis`, and the opener keeps what it did not spend. With no opener
/// left, the rest of the run goes onto the stack as it is.
pub open spec fn close(stack: Seq<PieceModel>, ch: char, count: nat, can_open: bool) -> Seq<
    PieceModel,
>
    decreases count,
{
    if count == 0 {
        stack
    } else {
        let k = nearest_opener(stack, stack.len() as int, ch);
        if k < 0 || k >= stack.len() {
            stack.push(PieceModel::Run { ch, count, can_open, can_close: true })
        } else {
            let have = run_count(stack[k]);
            let n = used(have, count);
            let inner = flatten(stack.subrange(k + 1, stack.len() as int));
            let node = if n == 2 {
                InlineModel::Strong(inner)
            } else {
                InlineModel::Emphasis(inner)
            };
            let base = stack.subrange(0, k);
            let kept = if have > n {
                base.push(
                    PieceModel::Run {
                        ch,
                        count: (have - n) as nat,
                        can_open: true,
                        can_close: run_can_close(stack[k]),
                    },
                )
            } else {
                base
            };
            if n <= count {
                close(kept.push(PieceModel::Node(node)), ch, (count - n) as nat, can_open)
            } else {
                kept.push(PieceModel::Node(node))
            }
        }
    }
}

/// The stack after one more piece: a run that may close is matched against
/// the stack, anything else is put on it.
pub open spec fn step(stack: Seq<PieceModel>, p: PieceModel) -> Seq<PieceModel> {
    match p {
        PieceModel::Run { ch, count, can_open, can_close } => if can_close {
            close(stack, ch, count, can_open)
        } else {
            stack.push(p)
        },
        _ => stack.push(p),
    }
}

/// The stack after the pieces from `i` on.
pub open spec fn resolve_from(p: Seq<PieceModel>, i: int, stack: Seq<PieceModel>) -> Seq<
    PieceModel,
>
    decreases p.len() - i,
{
    if i < 0 || i >= p.len() {
        stack
    } else {
        resolve_from(p, i + 1, step(stack, p[i]))
    }
}

/// The pieces with emphasis resolved: every matched pair of runs replaced by
/// its node.
pub open spec fn resolve(p: Seq<PieceModel>) -> Seq<PieceModel> {
    resolve_from(p, 0, Seq::empty())
}

/// Whether the piece is a run that may close emphasis.
pub open spec fn is_closer(p: PieceModel) -> bool {
    match p {
        PieceModel::Run { can_close, .. } => can_close,
        _ => false,
    }
}

/// Runs that may not close stay as they are: with no closer among the
/// pieces from `i` on, resolving puts them on the stack unchanged.
pub proof fn lemma_no_closer_keeps(p: Seq<PieceModel>, i: int, stack: Seq<PieceModel>)
    requires
        0 <= i <= p.len(),
        forall|k: int| i <= k < p.len() ==> !is_closer(#[trigger] p[k]),
    ensures
        resolve_from(p, i, stack) == stack + p.subrange(i, p.len() as int),
    decreases p.len() - i,
{
    if i < p.len() {
        assert(!is_closer(p[i]));
        assert(step(stack, p[i]) == stack.push(p[i]));
        lemma_no_closer_keeps(p, i + 1, stack.push(p[i]));
        assert(stack.push(p[i]) + p.subrange(i + 1, p.len() as int) =~= stack + p.subrange(
            i,
            p.len() as int,
        ));
    } else {
        assert(stack + p.subrange(i, p.len() as int) =~= stack);
    }
}

/// Unmatched delimiters are literal text: where no run may close, no
/// emphasis is made, and the pieces come out as they went in.
pub proof fn lemma_no_closer_no_emphasis(p: Seq<PieceModel>)
    requires
        forall|k: int| 0 <= k < p.len() ==> !is_closer(#[trigger] p[k]),
    ensures
        resolve(p) == p,
{
    lemma_no_closer_keeps(p, 0, Seq::empty());
    assert(Seq::<PieceModel>::empty() + p.subrange(0, p.len() as int) =~= p);
}

/// The model of a sequence with one more piece is the model with one more.
pub proof fn lemma_pieces_model_push(s: Seq<Piece>, x: Piece)
    ensures
        pieces_model(s.push(x)) == pieces_model(s).push(piece_model(x)),
{
    assert(pieces_model(s.push(x)) =~= pieces_model(s).push(piece_model(x)));
}

fn is_opener_piece(p: &Piece, ch: char) -> (r: bool)
    ensures
        r == is_opener(piece_model(*p), ch),
{
    match p {
        Piece::Run { ch: c, count, can_open, can_close } => *c == ch && *can_open && *count > 0,
        _ => false,
    }
}

/// Looks from the top of the stack down for an opener of `ch`.
pub fn find_opener(stack: &Vec<Piece>, ch: char) -> (r: Option<usize>)
    ensures
        match r {
            Some(k) => k < stack.len() && k as int == nearest_opener(
                pieces_model(stack@),
                stack.len() as int,
                ch,
            ) && is_opener(piece_model(stack@[k as int]), ch),
            None => nearest_opener(pieces_model(stack@), stack.len() as int, ch) == -1,
        },
{
    let mut n = stack.len();
    while n > 0
        invariant
            n <= stack.len(),
            nearest_opener(pieces_model(stack@), stack.len() as int, ch) == nearest_opener(
                pieces_model(stack@),
                n as int,
                ch,
            ),
        decreases n,
    {
        if is_opener_piece(&stack[n - 1], ch) {
            return Some(n - 1);
        }
        n -= 1;
    }
    None
}

/// Matches a closing run of `count` times `ch` against the stack.
pub fn close_run(stack: &mut Vec<Piece>, ch: char, count: usize, can_open: bool)
    ensures
        pieces_model(final(stack)@) == close(
            pieces_model(old(stack)@),
            ch,
            count as nat,
            can_open,
        ),
{
    let mut left = count;
    while left > 0
        invariant
            close(pieces_model(old(stack)@), ch, count as nat, can_open) == close(
                pieces_model(stack@),
                ch,
                left as nat,
                can_open,
            ),
        decreases left,
    {
        let ghost sm = pieces_model(stack@);
        let ghost before = stack@;
        match find_opener(stack, ch) {
            None => {
                stack.push(Piece::Run { ch, count: left, can_open, can_close: true });
                proof {
                    lemma_pieces_model_push(
                        before,
                        Piece::Run { ch, count: left, can_open, can_close: true },
                    );
                }
                return ;
            },
            Some(k) => {
                let above = stack.split_off(k + 1);
                assert(pieces_model(above@) =~= sm.subrange(k + 1, sm.len() as int));
                let opener = stack.pop().unwrap();
                assert(piece_model(opener) == sm[k as int]);
                assert(pieces_model(stack@) =~= sm.subrange(0, k as int));
                let inner = flatten_pieces(above);
                match opener {
                    Piece::Run { ch: oc, count: have, can_open: oo, can_close: ocl } => {
                        let shorter = if have <= left {
                            have
                        } else {
                            left
                        };
                        let n: usize = if have >= 2 && left >= 2 && shorter % 2 == 0 {
                            2
                        } else {
                            1
                        };
                        assert(n as nat == used(have as nat, left as nat));
                        let node = if n == 2 {
                            Inline::Strong(inner)
                        } else {
                            Inline::Emphasis(inner)
                        };
                        if have > n {
                            let ghost s0 = stack@;
                            let kept = Piece::Run {
                                ch,
                                count: have - n,
                                can_open: true,
                                can_close: ocl,
                            };
                            stack.push(kept);
                            proof {
                                lemma_pieces_model_push(s0, kept);
                            }
                        }
                        let ghost s1 = stack@;
                        stack.push(Piece::Node(node));
                        proof {
                            lemma_pieces_model_push(s1, Piece::Node(node));
                        }
                        left = left - n;
                    },
                    _ => {
                        assert(false);
                    },
                }
            },
        }
    }
}

/// Resolves emphasis over the pieces of a span.
pub fn resolve_pieces(pieces: Vec<Piece>) -> (r: Vec<Piece>)
    ensures
        pieces_model(r@) == resolve(pieces_model(pieces@)),
{
    let ghost pm = pieces_model(pieces@);
    let mut stack: Vec<Piece> = Vec::new();
    assert(pieces_model(stack@) =~= Seq::<PieceModel>::empty());
    for p in it: pieces.into_iter()
        invariant
            it.seq() == pieces@,
            pm == pieces_model(pieces@),
            resolve(pm) == resolve_from(pm, it.index(), pieces_model(stack@)),
    {
        assert(pm[it.index()] == piece_model(p));
        let ghost s0 = stack@;
        match p {
            Piece::Run { ch, count, can_open, can_close } => {
                if can_close {
                    close_run(&mut stack, ch, count, can_open);
                } else {
                    stack.push(Piece::Run { ch, count, can_open, can_close });
                    proof {
                        lemma_pieces_model_push(s0, p);
                    }
                }
            },
            other => {
                stack.push(other);
                proof {
                    lemma_pieces_model_push(s0, p);
                }
            },
        }
    }
    stack
}

} // verus!
