//! Structural equality of inlines: two inlines are equal when their models
//! are. Labels of link definitions are compared this way.

use vstd::prelude::*;
use crate::ast::{Image, ImageAttributes, Inline, Link, LinkReference};
use crate::ast::model::{inline_model, inlines_model, opt_attr_model, opt_chars};

verus! {

/// Compares two strings.
pub fn string_equal(a: &String, b: &String) -> (r: bool)
    ensures
        r == (a@ == b@),
{
    *a == *b
}

/// Compares two optional strings.
pub fn opt_string_equal(a: &Option<String>, b: &Option<String>) -> (r: bool)
    ensures
        r == (opt_chars(*a) == opt_chars(*b)),
{
    match (a, b) {
        (Some(x), Some(y)) => string_equal(x, y),
        (None, None) => true,
        _ => false,
    }
}

/// Compares the attributes of two images.
pub fn opt_attr_equal(a: &Option<ImageAttributes>, b: &Option<ImageAttributes>) -> (r: bool)
    ensures
        r == (opt_attr_model(*a) == opt_attr_model(*b)),
{
    match (a, b) {
        (Some(x), Some(y)) => opt_string_equal(&x.width, &y.width) && opt_string_equal(
            &x.height,
            &y.height,
        ),
        (None, None) => true,
        _ => false,
    }
}

/// Compares two inlines with everything below them.
pub fn inline_equal(a: &Inline, b: &Inline) -> (r: bool)
    ensures
        r == (inline_model(*a) == inline_model(*b)),
    decreases a,
{
    match (a, b) {
        (Inline::Text(x), Inline::Text(y)) => string_equal(x, y),
        (Inline::LineBreak, Inline::LineBreak) => true,
        (Inline::Code(x), Inline::Code(y)) => string_equal(x, y),
        (Inline::Latex(x), Inline::Latex(y)) => string_equal(x, y),
        (Inline::Html(x), Inline::Html(y)) => string_equal(x, y),
        (Inline::Link(x), Inline::Link(y)) => string_equal(&x.destination, &y.destination) && opt_string_equal(
            &x.title,
            &y.title,
        ) && inlines_equal(&x.children, &y.children),
        (Inline::LinkReference(x), Inline::LinkReference(y)) => inlines_equal(&x.label, &y.label)
            && inlines_equal(&x.text, &y.text),
        (Inline::Image(x), Inline::Image(y)) => string_equal(&x.destination, &y.destination)
            && opt_string_equal(&x.title, &y.title) && string_equal(&x.alt, &y.alt) && opt_attr_equal(
            &x.attr,
            &y.attr,
        ),
        (Inline::Emphasis(x), Inline::Emphasis(y)) => inlines_equal(x, y),
        (Inline::Strong(x), Inline::Strong(y)) => inlines_equal(x, y),
        (Inline::Strikethrough(x), Inline::Strikethrough(y)) => inlines_equal(x, y),
        (Inline::Autolink(x), Inline::Autolink(y)) => string_equal(x, y),
        (Inline::FootnoteReference(x), Inline::FootnoteReference(y)) => string_equal(x, y),
        (Inline::Empty, Inline::Empty) => true,
        _ => false,
    }
}

/// Compares two sequences of inlines.
pub fn inlines_equal(a: &Vec<Inline>, b: &Vec<Inline>) -> (r: bool)
    ensures
        r == (inlines_model(a@) == inlines_model(b@)),
    decreases a,
{
    if a.len() != b.len() {
        assert(inlines_model(a@).len() != inlines_model(b@).len());
        return false;
    }
    let mut k: usize = 0;
    while k < a.len()
        invariant
            k <= a.len(),
            a.len() == b.len(),
            forall|j: int| 0 <= j < k ==> inline_model(a@[j]) == inline_model(b@[j]),
        decreases a.len() - k,
    {
        if !inline_equal(&a[k], &b[k]) {
            assert(inlines_model(a@)[k as int] != inlines_model(b@)[k as int]);
            return false;
        }
        k += 1;
    }
    assert(inlines_model(a@) =~= inlines_model(b@));
    true
}

} // verus!
