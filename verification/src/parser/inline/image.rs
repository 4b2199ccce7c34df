//! Images: `![alt](destination "title")`, with an attribute block
//! `{width=.. height=..}` behind it if there is one.

use vstd::prelude::*;
use crate::ast::{Image, ImageAttributes, Inline};
use crate::ast::model::{attr_model, inline_model, ImageAttributesModel, InlineModel};
use crate::parser::chars::{range_is, run_end, skip_run, string_of, CharClass};
use crate::parser::inline::links::{read_tail, tail_at, Tail};

verus! {

/// The `key=value` that starts at `q`, after any whitespace: where the key
/// runs from and to, where the value runs from and to, and where what
/// follows begins. The key is made of ASCII letters. The value stands
/// between double quotes, or is a run of alphanumerics, `-` and `_`.
pub open spec fn attribute_at(s: Seq<char>, q: int) -> Option<(int, int, int, int, int)> {
    let len = s.len() as int;
    let ka = run_end(s, q, len, CharClass::MultiSpace);
    let kb = run_end(s, ka, len, CharClass::Alpha);
    let e0 = run_end(s, kb, len, CharClass::MultiSpace);
    if 0 <= q <= len && ka < kb && e0 < len && s[e0] == '=' {
        let v0 = run_end(s, e0 + 1, len, CharClass::MultiSpace);
        let qe = run_end(s, v0 + 1, len, CharClass::IsNot('"'));
        let ue = run_end(s, v0, len, CharClass::Word);
        if v0 < len && s[v0] == '"' && qe < len {
            Some((ka, kb, v0 + 1, qe, qe + 1))
        } else if v0 < ue {
            Some((ka, kb, v0, ue, ue))
        } else {
            None
        }
    } else {
        None
    }
}

pub fn key_value_parser(s: &Vec<char>, q: usize) -> (r: Option<(usize, usize, usize, usize, usize)>)
    requires
        q <= s.len(),
    ensures
        match r {
            Some((ka, kb, va, vb, e)) => attribute_at(s@, q as int) == Some(
                (ka as int, kb as int, va as int, vb as int, e as int),
            ) && q <= ka < kb <= va <= vb <= e <= s.len(),
            None => attribute_at(s@, q as int) is None,
        },
{
    let len = s.len();
    let ka = skip_run(s, q, len, CharClass::MultiSpace);
    let kb = skip_run(s, ka, len, CharClass::Alpha);
    let e0 = skip_run(s, kb, len, CharClass::MultiSpace);
    if ka < kb && e0 < len && s[e0] == '=' {
        let v0 = skip_run(s, e0 + 1, len, CharClass::MultiSpace);
        if v0 < len && s[v0] == '"' {
            let qe = skip_run(s, v0 + 1, len, CharClass::IsNot('"'));
            if qe < len {
                return Some((ka, kb, v0 + 1, qe, qe + 1));
            }
        }
        let ue = skip_run(s, v0, len, CharClass::Word);
        if v0 < ue {
            Some((ka, kb, v0, ue, ue))
        } else {
            None
        }
    } else {
        None
    }
}

pub open spec fn width_key() -> Seq<char> {
    seq!['w', 'i', 'd', 't', 'h']
}

pub open spec fn height_key() -> Seq<char> {
    seq!['h', 'e', 'i', 'g', 'h', 't']
}

/// The attributes after `key=value` is read: `width` and `height` are kept,
/// the last of each winning; any other key is passed over.
pub open spec fn with_attribute(
    a: ImageAttributesModel,
    key: Seq<char>,
    value: Seq<char>,
) -> ImageAttributesModel {
    if key == width_key() {
        ImageAttributesModel { width: Some(value), height: a.height }
    } else if key == height_key() {
        ImageAttributesModel { width: a.width, height: Some(value) }
    } else {
        a
    }
}

/// The attributes read from `p` on, and where the list ends. The pairs are
/// separated by whitespace; the list ends before the separator that no pair
/// follows.
pub open spec fn attributes_from(
    s: Seq<char>,
    p: int,
    first: bool,
    acc: ImageAttributesModel,
) -> (ImageAttributesModel, int)
    decreases s.len() - p,
{
    if p < 0 || p > s.len() {
        (acc, p)
    } else {
        let sep = run_end(s, p, s.len() as int, CharClass::MultiSpace);
        if !first && sep == p {
            (acc, p)
        } else {
            match attribute_at(s, p) {
                Some((ka, kb, va, vb, e)) => if p < e && 0 <= ka <= kb <= s.len() && 0 <= va <= vb
                    <= s.len() {
                    attributes_from(
                        s,
                        e,
                        false,
                        with_attribute(acc, s.subrange(ka, kb), s.subrange(va, vb)),
                    )
                } else {
                    (acc, p)
                },
                None => (acc, p),
            }
        }
    }
}

/// The attribute block that starts at `p`, after any whitespace: `{`, the
/// pairs, `}`, with whitespace allowed inside the braces; and where what
/// follows begins.
pub open spec fn image_attributes_at(s: Seq<char>, p: int) -> Option<(ImageAttributesModel, int)> {
    let len = s.len() as int;
    let a = run_end(s, p, len, CharClass::MultiSpace);
    if 0 <= p <= len && a < len && s[a] == '{' {
        let b = run_end(s, a + 1, len, CharClass::MultiSpace);
        let (attrs, e) = attributes_from(
            s,
            b,
            true,
            ImageAttributesModel { width: None, height: None },
        );
        let c = run_end(s, e, len, CharClass::MultiSpace);
        if c < len && s[c] == '}' {
            Some((attrs, c + 1))
        } else {
            None
        }
    } else {
        None
    }
}

fn read_attributes(s: &Vec<char>, start: usize) -> (r: (ImageAttributes, usize))
    requires
        start <= s.len(),
    ensures
        (attr_model(r.0), r.1 as int) == attributes_from(
            s@,
            start as int,
            true,
            ImageAttributesModel { width: None, height: None },
        ),
        start <= r.1 <= s.len(),
{
    let len = s.len();
    let mut acc = ImageAttributes { width: None, height: None };
    let mut p = start;
    let mut first = true;
    let width = vec!['w', 'i', 'd', 't', 'h'];
    let height = vec!['h', 'e', 'i', 'g', 'h', 't'];
    assert(width@ =~= width_key());
    assert(height@ =~= height_key());
    loop
        invariant
            start <= p <= s.len(),
            len == s.len(),
            width@ == width_key(),
            height@ == height_key(),
            attributes_from(
                s@,
                start as int,
                true,
                ImageAttributesModel { width: None, height: None },
            ) == attributes_from(s@, p as int, first, attr_model(acc)),
        decreases s.len() - p,
    {
        let sep = skip_run(s, p, len, CharClass::MultiSpace);
        if !first && sep == p {
            return (acc, p);
        }
        match key_value_parser(s, p) {
            None => {
                return (acc, p);
            },
            Some((ka, kb, va, vb, e)) => {
                let value = string_of(s, va, vb);
                if range_is(s, ka, kb, &width) {
                    acc.width = Some(value);
                } else if range_is(s, ka, kb, &height) {
                    acc.height = Some(value);
                }
                p = e;
                first = false;
            },
        }
    }
}

/// Reads the attribute block that starts at `p`.
pub fn attributes_parser(s: &Vec<char>, p: usize) -> (r: Option<(ImageAttributes, usize)>)
    requires
        p <= s.len(),
    ensures
        match r {
            Some((attrs, e)) => image_attributes_at(s@, p as int) == Some(
                (attr_model(attrs), e as int),
            ) && p < e <= s.len(),
            None => image_attributes_at(s@, p as int) is None,
        },
{
    let len = s.len();
    let a = skip_run(s, p, len, CharClass::MultiSpace);
    if a < len && s[a] == '{' {
        let b = skip_run(s, a + 1, len, CharClass::MultiSpace);
        let (attrs, e) = read_attributes(s, b);
        let c = skip_run(s, e, len, CharClass::MultiSpace);
        if c < len && s[c] == '}' {
            Some((attrs, c + 1))
        } else {
            None
        }
    } else {
        None
    }
}

/// The image that starts at `i`, and where what follows it begins: `!`, the
/// alternative text between brackets (anything but `]`), the tail, and an
/// attribute block if one follows.
pub open spec fn image_at(s: Seq<char>, i: int) -> Option<(InlineModel, int)> {
    let len = s.len() as int;
    if 0 <= i && i + 1 < len && s[i] == '!' && s[i + 1] == '[' {
        let ae = run_end(s, i + 2, len, CharClass::IsNot(']'));
        if ae < len {
            match tail_at(s, ae + 1) {
                Some(t) => {
                    let attr = image_attributes_at(s, t.end);
                    Some(
                        (
                            InlineModel::Image {
                                destination: t.destination,
                                title: t.title,
                                alt: s.subrange(i + 2, ae),
                                attr: match attr {
                                    Some((a, e)) => Some(a),
                                    None => None,
                                },
                            },
                            match attr {
                                Some((a, e)) => e,
                                None => t.end,
                            },
                        ),
                    )
                },
                None => None,
            }
        } else {
            None
        }
    } else {
        None
    }
}

/// Reads the image that starts at `i`.
pub fn image(s: &Vec<char>, i: usize) -> (r: Option<(Inline, usize)>)
    requires
        i < s.len(),
    ensures
        match r {
            Some((node, e)) => image_at(s@, i as int) == Some((inline_model(node), e as int)) && i
                < e <= s.len(),
            None => image_at(s@, i as int) is None,
        },
{
    let len = s.len();
    if len - i < 2 || s[i] != '!' || s[i + 1] != '[' {
        return None;
    }
    let ae = skip_run(s, i + 2, len, CharClass::IsNot(']'));
    if ae >= len {
        return None;
    }
    match read_tail(s, ae + 1) {
        None => None,
        Some(t) => {
            let Tail { destination, title, end } = t;
            let alt = string_of(s, i + 2, ae);
            match attributes_parser(s, end) {
                Some((attrs, e)) => Some(
                    (Inline::Image(Image { destination, title, alt, attr: Some(attrs) }), e),
                ),
                None => Some((Inline::Image(Image { destination, title, alt, attr: None }), end)),
            }
        },
    }
}

} // verus!
