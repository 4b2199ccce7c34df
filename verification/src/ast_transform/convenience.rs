//! Ready-made rewritings of a document.
//!
//! ```text
//! let tidy = doc
//!     .transform_text(|text| text.trim().to_string())
//!     .normalize_whitespace()
//!     .remove_empty_text();
//! ```

use vstd::prelude::*;
use crate::ast::{Block, Document};

use crate::ast_transform::edit::{
    document_edited, document_reads, edit_blocks, lemma_mapping_sound, mapping, Edit,
};
use crate::ast_transform::rules::document_made;
use crate::ast_transform::transformer::Transformer;
use crate::parser::chars::unicode_whitespace;

verus! {

/// Rewritings of the strings of a document. Each takes a function from
/// string to string and applies it to the strings of one kind, wherever
/// they stand in the document. The function has to accept those strings.
pub trait Transform: Sized {
    /// Whether `text` is one of the strings that the edit rewrites.
    spec fn reads(&self, edit: Edit, text: Seq<char>) -> bool;

    /// Rewrites the text of every `Text` inline.
    fn transform_text<F: Fn(String) -> String>(self, f: F) -> Self
        requires
            forall|s: String| self.reads(Edit::Text, s@) ==> #[trigger] call_requires(f, (s,)),
    ;

    /// Rewrites the destination of every image.
    fn transform_image_urls<F: Fn(String) -> String>(self, f: F) -> Self
        requires
            forall|s: String| self.reads(Edit::ImageUrl, s@) ==> #[trigger] call_requires(f, (s,)),
    ;

    /// Rewrites the destination of every link.
    fn transform_link_urls<F: Fn(String) -> String>(self, f: F) -> Self
        requires
            forall|s: String| self.reads(Edit::LinkUrl, s@) ==> #[trigger] call_requires(f, (s,)),
    ;

    /// Rewrites the address of every autolink.
    fn transform_autolink_urls<F: Fn(String) -> String>(self, f: F) -> Self
        requires
            forall|s: String| self.reads(Edit::AutolinkUrl, s@) ==> #[trigger] call_requires(f, (s,)),
    ;

    /// Rewrites the text of every code span.
    fn transform_code<F: Fn(String) -> String>(self, f: F) -> Self
        requires
            forall|s: String| self.reads(Edit::Code, s@) ==> #[trigger] call_requires(f, (s,)),
    ;

    /// Rewrites the text of all inline HTML and of every HTML block.
    fn transform_html<F: Fn(String) -> String>(self, f: F) -> Self
        requires
            forall|s: String| self.reads(Edit::Html, s@) ==> #[trigger] call_requires(f, (s,)),
    ;

    /// Applies a transformer.
    fn transform_with<T: Transformer>(self, transformer: T) -> Self;

    /// Applies `transform` if `predicate` says so, and else hands the
    /// document back.
    fn transform_if_doc<P: Fn(&Self) -> bool, F: FnOnce(Self) -> Self>(
        self,
        predicate: P,
        transform: F,
    ) -> Self
        requires
            call_requires(predicate, (&self,)),
            forall|b: bool|
                call_ensures(predicate, (&self,), b) && b ==> call_requires(transform, (self,)),
    ;
}

impl Transform for Document {
    open spec fn reads(&self, edit: Edit, text: Seq<char>) -> bool {
        document_reads(edit, self@, text)
    }

    fn transform_text<F: Fn(String) -> String>(self, f: F) -> (r: Self)
        ensures
            document_edited(Edit::Text, mapping(f), self@, r@),
    {
        let Document { blocks } = self;
        proof {
            lemma_mapping_sound(f);
        }
        Document { blocks: edit_blocks(Edit::Text, &f, Ghost(mapping(f)), blocks) }
    }

    fn transform_image_urls<F: Fn(String) -> String>(self, f: F) -> (r: Self)
        ensures
            document_edited(Edit::ImageUrl, mapping(f), self@, r@),
    {
        let Document { blocks } = self;
        proof {
            lemma_mapping_sound(f);
        }
        Document { blocks: edit_blocks(Edit::ImageUrl, &f, Ghost(mapping(f)), blocks) }
    }

    fn transform_link_urls<F: Fn(String) -> String>(self, f: F) -> (r: Self)
        ensures
            document_edited(Edit::LinkUrl, mapping(f), self@, r@),
    {
        let Document { blocks } = self;
        proof {
            lemma_mapping_sound(f);
        }
        Document { blocks: edit_blocks(Edit::LinkUrl, &f, Ghost(mapping(f)), blocks) }
    }

    fn transform_autolink_urls<F: Fn(String) -> String>(self, f: F) -> (r: Self)
        ensures
            document_edited(Edit::AutolinkUrl, mapping(f), self@, r@),
    {
        let Document { blocks } = self;
        proof {
            lemma_mapping_sound(f);
        }
        Document { blocks: edit_blocks(Edit::AutolinkUrl, &f, Ghost(mapping(f)), blocks) }
    }

    fn transform_code<F: Fn(String) -> String>(self, f: F) -> (r: Self)
        ensures
            document_edited(Edit::Code, mapping(f), self@, r@),
    {
        let Document { blocks } = self;
        proof {
            lemma_mapping_sound(f);
        }
        Document { blocks: edit_blocks(Edit::Code, &f, Ghost(mapping(f)), blocks) }
    }

    fn transform_html<F: Fn(String) -> String>(self, f: F) -> (r: Self)
        ensures
            document_edited(Edit::Html, mapping(f), self@, r@),
    {
        let Document { blocks } = self;
        proof {
            lemma_mapping_sound(f);
        }
        Document { blocks: edit_blocks(Edit::Html, &f, Ghost(mapping(f)), blocks) }
    }

    fn transform_with<T: Transformer>(self, transformer: T) -> (r: Self)
        ensures
            transformer.is_identity() ==> r@ == self@,
            document_made(transformer.rules(), self@, r@),
    {
        let mut transformer = transformer;
        transformer.transform_document(self)
    }

    fn transform_if_doc<P: Fn(&Self) -> bool, F: FnOnce(Self) -> Self>(
        self,
        predicate: P,
        transform: F,
    ) -> (r: Self)
        ensures
            exists|b: bool| #[trigger]
                call_ensures(predicate, (&self,), b) && if b {
                    call_ensures(transform, (self,), r)
                } else {
                    r == self
                },
    {
        if predicate(&self) {
            transform(self)
        } else {
            self
        }
    }
}

/// What is left of `s` when the whitespace at both ends is cut off and
/// every run of whitespace inside becomes one space, read from `i` on:
/// `emitted` says that a character was kept already, `gap` that whitespace
/// was passed since.
pub open spec fn normalized_from(s: Seq<char>, i: int, emitted: bool, gap: bool) -> Seq<char>
    decreases s.len() - i,
{
    if i < 0 || i >= s.len() {
        Seq::empty()
    } else if unicode_whitespace(s[i]) {
        normalized_from(s, i + 1, emitted, true)
    } else {
        (if emitted && gap {
            seq![' ']
        } else {
            Seq::empty()
        }) + seq![s[i]] + normalized_from(s, i + 1, true, false)
    }
}

/// The words of `s` with one space between every two.
pub open spec fn normalized(s: Seq<char>) -> Seq<char> {
    normalized_from(s, 0, false, false)
}

/// The words of a text with one space between every two.
pub fn normalize_text(text: &str) -> (r: String)
    ensures
        r@ == normalized(text@),
{
    let mut out = String::new();
    let mut emitted = false;
    let mut gap = false;
    for c in it: text.chars()
        invariant
            it.seq() == text@,
            normalized(text@) == out@ + normalized_from(text@, it.index(), emitted, gap),
    {
        let ghost i = it.index();
        let ghost before = out@;
        assert(c == text@[i]);
        if c.is_whitespace() {
            gap = true;
        } else {
            if emitted && gap {
                out.push(' ');
            }
            out.push(c);
            assert(out@ + normalized_from(text@, i + 1, true, false) =~= before + ((if emitted
                && gap {
                seq![' ']
            } else {
                Seq::empty()
            }) + seq![c] + normalized_from(text@, i + 1, true, false)));
            emitted = true;
            gap = false;
        }
    }
    assert(out@ + Seq::<char>::empty() =~= out@);
    out
}

/// The relation that holds of a string and its normal form.
pub open spec fn normalizing() -> spec_fn(Seq<char>, Seq<char>) -> bool {
    |a: Seq<char>, b: Seq<char>| b == normalized(a)
}

/// The relation that holds of any two strings.
pub open spec fn any_string() -> spec_fn(Seq<char>, Seq<char>) -> bool {
    |a: Seq<char>, b: Seq<char>| true
}

/// Whether the block is a paragraph that holds nothing.
pub open spec fn is_empty_paragraph(b: Block) -> bool {
    b matches Block::Paragraph(v) && v.len() == 0
}

/// The members of `s` whose mark in `keep` is set, in their order.
pub open spec fn kept<A>(s: Seq<A>, keep: Seq<bool>) -> Seq<A>
    decreases s.len(),
{
    if s.len() == 0 || keep.len() != s.len() {
        Seq::empty()
    } else {
        let rest = kept(s.drop_last(), keep.drop_last());
        if keep.last() {
            rest.push(s.last())
        } else {
            rest
        }
    }
}

/// The marks that keep every block but the empty paragraphs.
pub open spec fn paragraph_marks(blocks: Seq<Block>) -> Seq<bool> {
    Seq::new(blocks.len(), |k: int| !is_empty_paragraph(blocks[k]))
}

/// Whether `keep` holds, for each block, an answer that `predicate` may
/// give for it.
pub open spec fn answers<F: Fn(&Block) -> bool>(
    predicate: F,
    blocks: Seq<Block>,
    keep: Seq<bool>,
) -> bool {
    keep.len() == blocks.len() && forall|k: int|
        0 <= k < blocks.len() ==> call_ensures(predicate, (&blocks[k],), #[trigger] keep[k])
}

/// Rewritings that drop or tidy parts of a document.
pub trait FilterTransform: Sized {
    /// The blocks among which `filter_blocks` chooses.
    spec fn own_blocks(&self) -> Seq<Block>;

    /// Drops the paragraphs that hold nothing, among the blocks of the
    /// document itself.
    fn remove_empty_paragraphs(self) -> Self;

    /// Puts `Empty` in the place of every `Text` that holds nothing but
    /// whitespace.
    fn remove_empty_text(self) -> Self;

    /// Brings every `Text` to its normal form: no whitespace at its ends,
    /// one space between its words.
    fn normalize_whitespace(self) -> Self;

    /// Keeps, among the blocks of the document itself, those for which
    /// `predicate` answers `true`.
    /// `predicate` has to accept each of these blocks.
    fn filter_blocks<F: Fn(&Block) -> bool>(self, predicate: F) -> Self
        requires
            forall|k: int|
                0 <= k < self.own_blocks().len() ==> call_requires(
                    predicate,
                    (&#[trigger] self.own_blocks()[k],),
                ),
    ;
}

impl FilterTransform for Document {
    open spec fn own_blocks(&self) -> Seq<Block> {
        self.blocks@
    }

    fn remove_empty_paragraphs(self) -> (r: Self)
        ensures
            r.blocks@ == kept(self.blocks@, paragraph_marks(self.blocks@)),
    {
        let Document { blocks } = self;
        let ghost before = blocks@;
        let ghost marks = paragraph_marks(before);
        let mut out: Vec<Block> = Vec::new();
        for b in it: blocks.into_iter()
            invariant
                it.seq() == before,
                marks == paragraph_marks(before),
                out@ == kept(before.take(it.index()), marks.take(it.index())),
        {
            let ghost i = it.index();
            assert(b == before[i]);
            let empty = match &b {
                Block::Paragraph(inlines) => inlines.len() == 0,
                _ => false,
            };
            proof {
                assert(before.take(i + 1).drop_last() =~= before.take(i));
                assert(marks.take(i + 1).drop_last() =~= marks.take(i));
                assert(marks.take(i + 1).last() == !is_empty_paragraph(b));
            }
            if !empty {
                out.push(b);
            }
        }
        assert(before.take(before.len() as int) =~= before);
        assert(marks.take(before.len() as int) =~= marks);
        Document { blocks: out }
    }

    fn remove_empty_text(self) -> (r: Self)
        ensures
            document_edited(Edit::BlankText, any_string(), self@, r@),
    {
        let Document { blocks } = self;
        let keep = |s: String| -> (r: String) { s };
        Document { blocks: edit_blocks(Edit::BlankText, &keep, Ghost(any_string()), blocks) }
    }

    fn normalize_whitespace(self) -> (r: Self)
        ensures
            document_edited(Edit::Text, normalizing(), self@, r@),
    {
        let Document { blocks } = self;
        let normalize = |s: String| -> (r: String)
            ensures
                r@ == normalized(s@),
            { normalize_text(s.as_str()) };
        Document { blocks: edit_blocks(Edit::Text, &normalize, Ghost(normalizing()), blocks) }
    }

    fn filter_blocks<F: Fn(&Block) -> bool>(self, predicate: F) -> (r: Self)
        ensures
            exists|keep: Seq<bool>| #[trigger]
                answers(predicate, self.blocks@, keep) && r.blocks@ == kept(self.blocks@, keep),
    {
        let Document { blocks } = self;
        let ghost before = blocks@;
        assert(before == self.own_blocks());
        let ghost mut marks: Seq<bool> = Seq::empty();
        let mut out: Vec<Block> = Vec::new();
        for b in it: blocks.into_iter()
            invariant
                it.seq() == before,
                forall|k: int|
                    0 <= k < before.len() ==> call_requires(predicate, (&#[trigger] before[k],)),
                marks.len() == it.index(),
                forall|k: int|
                    0 <= k < it.index() ==> call_ensures(
                        predicate,
                        (&before[k],),
                        #[trigger] marks[k],
                    ),
                out@ == kept(before.take(it.index()), marks),
        {
            let ghost i = it.index();
            assert(b == before[i]);
            let keep = predicate(&b);
            proof {
                let longer = marks.push(keep);
                assert(before.take(i + 1).drop_last() =~= before.take(i));
                assert(longer.drop_last() =~= marks);
                marks = longer;
            }
            if keep {
                out.push(b);
            }
        }
        assert(before.take(before.len() as int) =~= before);
        assert(answers(predicate, before, marks));
        Document { blocks: out }
    }
}

} // verus!
