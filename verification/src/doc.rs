//! Documents: what the printers build before anything is printed. A
//! document is made of text, line breaks, concatenation and groups, and
//! the `pretty` crate lays it out.

use vstd::prelude::*;

verus! {

/// A document.
#[derive(Debug, PartialEq)]
pub enum Doc {
    /// Prints nothing.
    Nil,
    /// Prints its text.
    Text(String),
    /// Prints a line feed.
    Hardline,
    /// Prints a line feed, or a space where the group around it is laid
    /// out on one line.
    Line,
    /// Prints the first and then the second.
    Append(Box<Doc>, Box<Doc>),
    /// Prints what it holds, on one line if that fits.
    Group(Box<Doc>),
}

/// What a document is made of, read from left to right.
pub enum Token {
    Text(Seq<char>),
    Hardline,
    Line,
    /// A group begins.
    Open,
    /// A group ends.
    Close,
}

/// Whether the text holds no line feed.
pub open spec fn one_line(s: Seq<char>) -> bool {
    forall|k: int| 0 <= k < s.len() ==> #[trigger] s[k] != '\n'
}

impl Doc {
    /// What the document is made of, read from left to right.
    /// Concatenation leaves no trace: only the order counts.
    pub open spec fn tokens(self) -> Seq<Token>
        decreases self,
    {
        match self {
            Doc::Nil => Seq::empty(),
            Doc::Text(s) => seq![Token::Text(s@)],
            Doc::Hardline => seq![Token::Hardline],
            Doc::Line => seq![Token::Line],
            Doc::Append(a, b) => a.tokens() + b.tokens(),
            Doc::Group(d) => seq![Token::Open] + d.tokens() + seq![Token::Close],
        }
    }

    /// What the document prints when every line break is taken.
    pub open spec fn text(self) -> Seq<char>
        decreases self,
    {
        match self {
            Doc::Nil => Seq::empty(),
            Doc::Text(s) => s@,
            Doc::Hardline => seq!['\n'],
            Doc::Line => seq!['\n'],
            Doc::Append(a, b) => a.text() + b.text(),
            Doc::Group(d) => d.text(),
        }
    }

    /// Whether the document leaves the layout no choice: it holds no line
    /// that may become a space, and no text of it holds a line feed. A
    /// group makes no difference then: what it holds is printed the same
    /// on one line or on several.
    pub open spec fn well_formed(self) -> bool
        decreases self,
    {
        match self {
            Doc::Nil => true,
            Doc::Text(s) => one_line(s@),
            Doc::Hardline => true,
            Doc::Line => false,
            Doc::Append(a, b) => a.well_formed() && b.well_formed(),
            Doc::Group(d) => d.well_formed(),
        }
    }
}

/// What a token prints when every line break is taken.
pub open spec fn token_text(t: Token) -> Seq<char> {
    match t {
        Token::Text(s) => s,
        Token::Hardline => seq!['\n'],
        Token::Line => seq!['\n'],
        Token::Open => Seq::empty(),
        Token::Close => Seq::empty(),
    }
}

/// What the tokens print, one after the other, when every line break is
/// taken.
pub open spec fn tokens_text(ts: Seq<Token>) -> Seq<char>
    decreases ts.len(),
{
    if ts.len() == 0 {
        Seq::empty()
    } else {
        tokens_text(ts.drop_last()) + token_text(ts.last())
    }
}

/// Whether the token leaves the layout no choice: it is no line that may
/// become a space and no text with a line feed in it.
pub open spec fn token_fixed(t: Token) -> bool {
    match t {
        Token::Text(s) => one_line(s),
        Token::Line => false,
        _ => true,
    }
}

/// Whether each of the tokens leaves the layout no choice.
pub open spec fn tokens_fixed(ts: Seq<Token>) -> bool {
    forall|k: int| 0 <= k < ts.len() ==> token_fixed(#[trigger] ts[k])
}

/// The text of tokens one behind the other is the text of the first and
/// then that of the second.
pub proof fn lemma_tokens_text_add(a: Seq<Token>, b: Seq<Token>)
    ensures
        tokens_text(a + b) == tokens_text(a) + tokens_text(b),
    decreases b.len(),
{
    if b.len() == 0 {
        assert(a + b =~= a);
        assert(tokens_text(a) + tokens_text(b) =~= tokens_text(a));
    } else {
        lemma_tokens_text_add(a, b.drop_last());
        assert((a + b).drop_last() =~= a + b.drop_last());
        assert((a + b).last() == b.last());
        assert(tokens_text(a) + (tokens_text(b.drop_last()) + token_text(b.last())) =~= (
        tokens_text(a) + tokens_text(b.drop_last())) + token_text(b.last()));
    }
}

/// The text of one token.
pub proof fn lemma_token_text_one(t: Token)
    ensures
        tokens_text(seq![t]) == token_text(t),
{
    assert(seq![t].drop_last() =~= Seq::<Token>::empty());
    assert(tokens_text(seq![t].drop_last()) + token_text(t) =~= token_text(t));
}

/// What a document prints and whether it leaves the layout a choice can
/// be read from its tokens.
pub proof fn lemma_read_from_tokens(doc: Doc)
    ensures
        doc.text() == tokens_text(doc.tokens()),
        doc.well_formed() == tokens_fixed(doc.tokens()),
    decreases doc,
{
    match doc {
        Doc::Nil => {},
        Doc::Text(s) => {
            lemma_token_text_one(Token::Text(s@));
            assert(doc.tokens()[0] == Token::Text(s@));
        },
        Doc::Hardline => {
            lemma_token_text_one(Token::Hardline);
        },
        Doc::Line => {
            lemma_token_text_one(Token::Line);
            assert(doc.tokens()[0] == Token::Line);
        },
        Doc::Append(a, b) => {
            lemma_read_from_tokens(*a);
            lemma_read_from_tokens(*b);
            lemma_tokens_text_add(a.tokens(), b.tokens());
            let ta = a.tokens();
            let tb = b.tokens();
            if tokens_fixed(ta + tb) {
                assert forall|k: int| 0 <= k < ta.len() implies token_fixed(#[trigger] ta[k]) by {
                    assert((ta + tb)[k] == ta[k]);
                }
                assert forall|k: int| 0 <= k < tb.len() implies token_fixed(#[trigger] tb[k]) by {
                    assert((ta + tb)[ta.len() + k] == tb[k]);
                }
            }
        },
        Doc::Group(d) => {
            lemma_read_from_tokens(*d);
            let td = d.tokens();
            let open = seq![Token::Open];
            let close = seq![Token::Close];
            lemma_tokens_text_add(open + td, close);
            lemma_tokens_text_add(open, td);
            lemma_token_text_one(Token::Open);
            lemma_token_text_one(Token::Close);
            assert(Seq::<char>::empty() + tokens_text(td) + Seq::<char>::empty() =~= tokens_text(
                td,
            ));
            if tokens_fixed(open + td + close) {
                assert forall|k: int| 0 <= k < td.len() implies token_fixed(#[trigger] td[k]) by {
                    assert((open + td + close)[k + 1] == td[k]);
                }
            }
        },
    }
}

/// The document that prints nothing.
pub fn nil() -> (r: Doc)
    ensures
        r == Doc::Nil,
{
    Doc::Nil
}

/// The document that prints `s`.
pub fn text(s: String) -> (r: Doc)
    ensures
        r == Doc::Text(s),
{
    Doc::Text(s)
}

/// The document that prints a line feed.
pub fn hardline() -> (r: Doc)
    ensures
        r == Doc::Hardline,
{
    Doc::Hardline
}

/// The document that prints a line feed, or a space inside a group that
/// is laid out on one line.
pub fn line_or_space() -> (r: Doc)
    ensures
        r == Doc::Line,
{
    Doc::Line
}

/// The document that prints `first` and then `second`.
pub fn append(first: Doc, second: Doc) -> (r: Doc)
    ensures
        r == Doc::Append(Box::new(first), Box::new(second)),
        r.tokens() == first.tokens() + second.tokens(),
        r.text() == first.text() + second.text(),
        r.well_formed() == (first.well_formed() && second.well_formed()),
{
    Doc::Append(Box::new(first), Box::new(second))
}

/// The document that prints `inner` on one line if that fits.
pub fn group(inner: Doc) -> (r: Doc)
    ensures
        r == Doc::Group(Box::new(inner)),
        r.tokens() == seq![Token::Open] + inner.tokens() + seq![Token::Close],
        r.text() == inner.text(),
        r.well_formed() == inner.well_formed(),
{
    Doc::Group(Box::new(inner))
}

/// What the documents are made of, one after the other.
pub open spec fn all_tokens(docs: Seq<Doc>) -> Seq<Token>
    decreases docs.len(),
{
    if docs.len() == 0 {
        Seq::empty()
    } else {
        all_tokens(docs.drop_last()) + docs.last().tokens()
    }
}

/// What the documents print, one after the other, when every line break
/// is taken.
pub open spec fn all_text(docs: Seq<Doc>) -> Seq<char>
    decreases docs.len(),
{
    if docs.len() == 0 {
        Seq::empty()
    } else {
        all_text(docs.drop_last()) + docs.last().text()
    }
}

/// Whether each of the documents leaves the layout no choice.
pub open spec fn all_well_formed(docs: Seq<Doc>) -> bool {
    forall|k: int| 0 <= k < docs.len() ==> (#[trigger] docs[k]).well_formed()
}

/// The tokens and the text of two sequences of documents, one behind the
/// other, are those of the first and then those of the second.
pub proof fn lemma_all_split(a: Seq<Doc>, b: Seq<Doc>)
    ensures
        all_tokens(a + b) == all_tokens(a) + all_tokens(b),
        all_text(a + b) == all_text(a) + all_text(b),
    decreases b.len(),
{
    if b.len() == 0 {
        assert(a + b =~= a);
        assert(all_tokens(a) + all_tokens(b) =~= all_tokens(a));
        assert(all_text(a) + all_text(b) =~= all_text(a));
    } else {
        lemma_all_split(a, b.drop_last());
        assert((a + b).drop_last() =~= a + b.drop_last());
        assert((a + b).last() == b.last());
        assert(all_tokens(a) + (all_tokens(b.drop_last()) + b.last().tokens()) =~= (all_tokens(a)
            + all_tokens(b.drop_last())) + b.last().tokens());
        assert(all_text(a) + (all_text(b.drop_last()) + b.last().text()) =~= (all_text(a)
            + all_text(b.drop_last())) + b.last().text());
    }
}

/// One more document adds its tokens and its text at the end.
pub proof fn lemma_all_push(docs: Seq<Doc>, last: Doc)
    ensures
        all_tokens(docs.push(last)) == all_tokens(docs) + last.tokens(),
        all_text(docs.push(last)) == all_text(docs) + last.text(),
{
    assert(docs.push(last).drop_last() =~= docs);
}

/// The document that prints the parts one after the other. However many
/// parts there are, the document is only as deep as the logarithm of their
/// number, and as its deepest part.
pub fn concat(parts: Vec<Doc>) -> (r: Doc)
    ensures
        r.tokens() == all_tokens(parts@),
        r.text() == all_text(parts@),
        r.well_formed() == all_well_formed(parts@),
    decreases parts.len(),
{
    let mut parts = parts;
    let ghost whole = parts@;
    if parts.len() == 0 {
        Doc::Nil
    } else if parts.len() == 1 {
        let only = parts.pop().unwrap();
        assert(whole.drop_last() =~= Seq::<Doc>::empty());
        assert(whole.last() == only);
        assert(all_tokens(whole.drop_last()) =~= Seq::<Token>::empty());
        assert(all_text(whole.drop_last()) =~= Seq::<char>::empty());
        assert(all_tokens(whole) =~= only.tokens());
        assert(all_text(whole) =~= only.text());
        assert(all_well_formed(whole) == only.well_formed()) by {
            assert(whole[0] == only);
        }
        only
    } else {
        let mid = parts.len() / 2;
        let right = parts.split_off(mid);
        let ghost a = parts@;
        let ghost b = right@;
        proof {
            assert(whole =~= a + b);
            lemma_all_split(a, b);
            assert(all_well_formed(whole) == (all_well_formed(a) && all_well_formed(b))) by {
                if all_well_formed(a) && all_well_formed(b) {
                    assert forall|k: int| 0 <= k < whole.len() implies (
                    #[trigger] whole[k]).well_formed() by {
                        if k < a.len() {
                            assert(whole[k] == a[k]);
                        } else {
                            assert(whole[k] == b[k - a.len()]);
                        }
                    }
                }
                if all_well_formed(whole) {
                    assert forall|k: int| 0 <= k < a.len() implies (#[trigger] a[k]).well_formed() by {
                        assert(a[k] == whole[k]);
                    }
                    assert forall|k: int| 0 <= k < b.len() implies (#[trigger] b[k]).well_formed() by {
                        assert(b[k] == whole[k + a.len()]);
                    }
                }
            }
        }
        let left_doc = concat(parts);
        let right_doc = concat(right);
        append(left_doc, right_doc)
    }
}

/// A document of the `pretty` crate. Nothing of its inside is known here.
#[verifier::external_type_specification]
#[verifier::external_body]
#[verifier::reject_recursive_types(A)]
pub struct ExRcDoc<'a, A>(pretty::RcDoc<'a, A>);

/// What `pretty` prints, with lines of `width` characters if it can, for
/// the document that is made of these tokens.
pub uninterp spec fn typeset(tokens: Seq<Token>, width: usize) -> Seq<char>;

/// The document of `pretty` that a document stands for, made with
/// `RcDoc::nil`, `text`, `hardline`, `line`, `append` and `group`.
#[verifier::external_body]
fn to_pretty(doc: &Doc) -> pretty::RcDoc<'static, ()> {
    match doc {
        Doc::Nil => pretty::RcDoc::nil(),
        Doc::Text(s) => pretty::RcDoc::text(s.clone()),
        Doc::Hardline => pretty::RcDoc::hardline(),
        Doc::Line => pretty::RcDoc::line(),
        Doc::Append(a, b) => to_pretty(a).append(to_pretty(b)),
        Doc::Group(d) => to_pretty(d).group(),
    }
}

/// `Doc::render` of `pretty`, into a string. What it prints is a matter
/// of the tokens and the width alone. Where the document leaves no
/// choice, for want of a line that may become a space, it prints the
/// texts in their order, with a line feed for each hard line break,
/// whatever the width and whatever is grouped.
#[verifier::external_body]
fn typeset_doc(doc: &Doc, width: usize) -> (r: String)
    ensures
        r@ == typeset(doc.tokens(), width),
        doc.well_formed() ==> r@ == doc.text(),
{
    let mut buffer = Vec::new();
    to_pretty(doc).render(width, &mut buffer).unwrap();
    String::from_utf8(buffer).unwrap()
}

/// Prints a document with lines of `width` characters, where the
/// document leaves a choice. Where its tokens leave none, it prints their
/// text.
pub fn render(doc: &Doc, width: usize) -> (r: String)
    ensures
        r@ == typeset(doc.tokens(), width),
        doc.well_formed() ==> r@ == doc.text(),
        tokens_fixed(doc.tokens()) ==> r@ == tokens_text(doc.tokens()),
{
    proof {
        lemma_read_from_tokens(*doc);
    }
    typeset_doc(doc, width)
}

} // verus!
