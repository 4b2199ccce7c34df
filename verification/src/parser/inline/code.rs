//! Code spans, raw HTML and autolinks.

use vstd::prelude::*;
use crate::ast::Inline;
use crate::ast::model::{inline_model, InlineModel};
use crate::parser::chars::{
    find_from, find_pattern, has_at, is_ascii_alpha, is_multispace, run_end, run_start, skip_run,
    skip_run_back, starts_with_at, string_of, unicode_whitespace, CharClass,
};
use crate::parser::inline::pieces::{piece_model, Piece, PieceModel};

verus! {

/// Where the first run of exactly `n` backticks starts, from `j` on; the
/// length of `s` if there is none.
pub open spec fn closing_ticks(s: Seq<char>, j: int, n: int) -> int
    decreases s.len() - j,
{
    if j < 0 || j >= s.len() {
        s.len() as int
    } else if s[j] == '`' {
        let e = run_end(s, j, s.len() as int, CharClass::Is('`'));
        if e - j == n {
            j
        } else if j < e <= s.len() {
            closing_ticks(s, e, n)
        } else {
            s.len() as int
        }
    } else {
        closing_ticks(s, j + 1, n)
    }
}

fn find_closing_ticks(s: &Vec<char>, start: usize, n: usize) -> (j: usize)
    requires
        start <= s.len(),
    ensures
        j == closing_ticks(s@, start as int, n as int),
        start <= j <= s.len(),
        j < s.len() ==> j + n <= s.len(),
{
    let mut j = start;
    while j < s.len()
        invariant
            start <= j <= s.len(),
            closing_ticks(s@, start as int, n as int) == closing_ticks(s@, j as int, n as int),
        decreases s.len() - j,
    {
        if s[j] == '`' {
            let e = skip_run(s, j, s.len(), CharClass::Is('`'));
            assert(e > j) by {
                assert(CharClass::Is('`').holds(s@[j as int]));
            }
            if e - j == n {
                return j;
            }
            j = e;
        } else {
            j += 1;
        }
    }
    j
}

/// What a code span holds, given that its text runs from `a` to `b`: the
/// text, less one space at each end when it has a space at both ends and is
/// not made of spaces alone.
pub open spec fn code_content(s: Seq<char>, a: int, b: int) -> Seq<char> {
    if b - a >= 2 && s[a] == ' ' && s[b - 1] == ' ' && run_end(s, a, b, CharClass::Space) < b {
        s.subrange(a + 1, b - 1)
    } else {
        s.subrange(a, b)
    }
}

/// The piece that the backticks at `i` make, and where what follows begins:
/// a code span up to the next run of as many backticks, or, when no such
/// run follows, the backticks themselves as text.
pub open spec fn code_at(s: Seq<char>, i: int) -> (PieceModel, int) {
    let len = s.len() as int;
    let e = run_end(s, i, len, CharClass::Is('`'));
    let c = closing_ticks(s, e, e - i);
    if c < len {
        (PieceModel::Node(InlineModel::Code(code_content(s, e, c))), c + (e - i))
    } else {
        (PieceModel::Run { ch: '`', count: (e - i) as nat, can_open: false, can_close: false }, e)
    }
}

/// Reads the code span, or the literal backticks, at `i`.
pub fn code_span(s: &Vec<char>, i: usize) -> (r: (Piece, usize))
    requires
        i < s.len(),
        s@[i as int] == '`',
    ensures
        (piece_model(r.0), r.1 as int) == code_at(s@, i as int),
        i < r.1 <= s.len(),
{
    let len = s.len();
    let e = skip_run(s, i, len, CharClass::Is('`'));
    assert(e > i) by {
        assert(CharClass::Is('`').holds(s@[i as int]));
    }
    let n = e - i;
    let c = find_closing_ticks(s, e, n);
    if c < len {
        let spaces = skip_run(s, e, c, CharClass::Space);
        let text = if c - e >= 2 && s[e] == ' ' && s[c - 1] == ' ' && spaces < c {
            string_of(s, e + 1, c - 1)
        } else {
            string_of(s, e, c)
        };
        (Piece::Node(Inline::Code(text)), c + n)
    } else {
        (Piece::Run { ch: '`', count: n, can_open: false, can_close: false }, e)
    }
}

pub open spec fn comment_open() -> Seq<char> {
    seq!['<', '!', '-', '-']
}

pub open spec fn comment_close() -> Seq<char> {
    seq!['-', '-', '>']
}

/// The HTML comment that starts at `i`, and where what follows it begins:
/// from `<!--` to the next `-->`.
pub open spec fn html_comment_at(s: Seq<char>, i: int) -> Option<(InlineModel, int)> {
    let len = s.len() as int;
    let j = find_from(s, i + 4, len, comment_close());
    if 0 <= i && has_at(s, i, comment_open()) && j < len {
        Some((InlineModel::Html(s.subrange(i, j + 3)), j + 3))
    } else {
        None
    }
}

/// The HTML tag that starts at `i`, and where what follows it begins: `<`,
/// a `/` if the tag closes, a name that starts with an ASCII letter, then
/// either `>` at once or, after whitespace or `/`, anything but `<` and `>`
/// up to the `>`.
pub open spec fn html_tag_at(s: Seq<char>, i: int) -> Option<(InlineModel, int)> {
    let len = s.len() as int;
    if 0 <= i && i + 1 < len && s[i] == '<' {
        let k = if s[i + 1] == '/' {
            i + 2
        } else {
            i + 1
        };
        let ne = run_end(s, k, len, CharClass::TagName);
        let e = run_end(s, ne, len, CharClass::NeitherOf('>', '<'));
        if k < len && is_ascii_alpha(s[k]) && e < len && s[e] == '>' && (e == ne || is_multispace(
            s[ne],
        ) || s[ne] == '/') {
            Some((InlineModel::Html(s.subrange(i, e + 1)), e + 1))
        } else {
            None
        }
    } else {
        None
    }
}

/// The raw HTML that starts at `i`, and where what follows it begins: a
/// comment or a tag.
pub open spec fn html_at(s: Seq<char>, i: int) -> Option<(InlineModel, int)> {
    match html_comment_at(s, i) {
        Some(r) => Some(r),
        None => html_tag_at(s, i),
    }
}

fn html_comment(s: &Vec<char>, i: usize) -> (r: Option<(Inline, usize)>)
    requires
        i < s.len(),
    ensures
        match r {
            Some((node, e)) => html_comment_at(s@, i as int) == Some(
                (inline_model(node), e as int),
            ) && i < e <= s.len(),
            None => html_comment_at(s@, i as int) is None,
        },
{
    let len = s.len();
    let open = vec!['<', '!', '-', '-'];
    let close = vec!['-', '-', '>'];
    assert(open@ =~= comment_open());
    assert(close@ =~= comment_close());
    if !starts_with_at(s, i, len, &open) {
        return None;
    }
    let j = find_pattern(s, i + 4, len, &close);
    if j < len {
        Some((Inline::Html(string_of(s, i, j + 3)), j + 3))
    } else {
        None
    }
}

/// Reads the raw HTML that starts at `i`.
pub fn html_tag(s: &Vec<char>, i: usize) -> (r: Option<(Inline, usize)>)
    requires
        i < s.len(),
    ensures
        match r {
            Some((node, e)) => html_at(s@, i as int) == Some((inline_model(node), e as int)) && i
                < e <= s.len(),
            None => html_at(s@, i as int) is None,
        },
{
    if let Some(r) = html_comment(s, i) {
        return Some(r);
    }
    let len = s.len();
    if len - i < 2 || s[i] != '<' {
        return None;
    }
    let k = if s[i + 1] == '/' {
        i + 2
    } else {
        i + 1
    };
    if k >= len {
        return None;
    }
    let c = s[k];
    if !(('a' <= c && c <= 'z') || ('A' <= c && c <= 'Z')) {
        return None;
    }
    let ne = skip_run(s, k, len, CharClass::TagName);
    let e = skip_run(s, ne, len, CharClass::NeitherOf('>', '<'));
    if e < len && s[e] == '>' && (e == ne || s[ne] == ' ' || s[ne] == '\t' || s[ne] == '\r'
        || s[ne] == '\n' || s[ne] == '/') {
        Some((Inline::Html(string_of(s, i, e + 1)), e + 1))
    } else {
        None
    }
}

/// The autolink that starts at `i`, and where what follows it begins: `<`,
/// a scheme of 2 to 32 characters that starts with an ASCII letter, `:`,
/// then anything but whitespace up to the `>`. The node holds what stands
/// between the angle brackets.
pub open spec fn autolink_at(s: Seq<char>, i: int) -> Option<(InlineModel, int)> {
    let len = s.len() as int;
    if 0 <= i && i + 1 < len && s[i] == '<' && is_ascii_alpha(s[i + 1]) {
        let se = run_end(s, i + 1, len, CharClass::Scheme);
        let e = run_end(s, se + 1, len, CharClass::SolidExcept('>'));
        if se < len && s[se] == ':' && 2 <= se - (i + 1) <= 32 && e < len && s[e] == '>' {
            Some((InlineModel::Autolink(s.subrange(i + 1, e)), e + 1))
        } else {
            None
        }
    } else {
        None
    }
}

/// Reads the autolink that starts at `i`.
pub fn autolink(s: &Vec<char>, i: usize) -> (r: Option<(Inline, usize)>)
    requires
        i < s.len(),
    ensures
        match r {
            Some((node, e)) => autolink_at(s@, i as int) == Some((inline_model(node), e as int))
                && i < e <= s.len(),
            None => autolink_at(s@, i as int) is None,
        },
{
    let len = s.len();
    if len - i < 2 || s[i] != '<' {
        return None;
    }
    let c = s[i + 1];
    if !(('a' <= c && c <= 'z') || ('A' <= c && c <= 'Z')) {
        return None;
    }
    let se = skip_run(s, i + 1, len, CharClass::Scheme);
    if se >= len || s[se] != ':' || se - (i + 1) < 2 || se - (i + 1) > 32 {
        return None;
    }
    let e = skip_run(s, se + 1, len, CharClass::SolidExcept('>'));
    if e < len && s[e] == '>' {
        Some((Inline::Autolink(string_of(s, i + 1, e)), e + 1))
    } else {
        None
    }
}

pub open spec fn http_prefix() -> Seq<char> {
    seq!['h', 't', 't', 'p', ':', '/', '/']
}

pub open spec fn https_prefix() -> Seq<char> {
    seq!['h', 't', 't', 'p', 's', ':', '/', '/']
}

pub open spec fn www_prefix() -> Seq<char> {
    seq!['w', 'w', 'w', '.']
}

/// How long the beginning of an address is that stands at `i`: that of
/// `http://`, of `https://` or of `www.`; 0 if none of them stands there.
pub open spec fn url_prefix_len(s: Seq<char>, i: int) -> int {
    if has_at(s, i, http_prefix()) {
        7
    } else if has_at(s, i, https_prefix()) {
        8
    } else if has_at(s, i, www_prefix()) {
        4
    } else {
        0
    }
}

/// Whether an address may begin behind `before`: at the start of the span,
/// behind whitespace, or behind one of `*`, `_`, `~` and `(`.
pub open spec fn url_may_begin(before: Option<char>) -> bool {
    match before {
        Some(c) => unicode_whitespace(c) || c == '*' || c == '_' || c == '~' || c == '(',
        None => true,
    }
}

/// The bare address that starts at `i`, and where what follows it begins.
/// It begins with `http://`, `https://` or `www.`, runs up to whitespace
/// or `<`, and does not take the punctuation at its end along. Behind its
/// beginning it holds at least one character.
pub open spec fn bare_url_at(s: Seq<char>, i: int) -> Option<(InlineModel, int)> {
    let len = s.len() as int;
    let p = url_prefix_len(s, i);
    let e = run_end(s, i + p, len, CharClass::SolidExcept('<'));
    let t = run_start(s, i + p, e, CharClass::UrlTail);
    if 0 <= i < len && p > 0 && i + p < t && url_may_begin(
        if i > 0 {
            Some(s[i - 1])
        } else {
            None
        },
    ) {
        Some((InlineModel::Autolink(s.subrange(i, t)), t))
    } else {
        None
    }
}

fn read_url_prefix(s: &Vec<char>, i: usize) -> (p: usize)
    requires
        i < s.len(),
    ensures
        p == url_prefix_len(s@, i as int),
        i + p <= s.len(),
{
    let http = vec!['h', 't', 't', 'p', ':', '/', '/'];
    let https = vec!['h', 't', 't', 'p', 's', ':', '/', '/'];
    let www = vec!['w', 'w', 'w', '.'];
    assert(http@ =~= http_prefix());
    assert(https@ =~= https_prefix());
    assert(www@ =~= www_prefix());
    if starts_with_at(s, i, s.len(), &http) {
        7
    } else if starts_with_at(s, i, s.len(), &https) {
        8
    } else if starts_with_at(s, i, s.len(), &www) {
        4
    } else {
        0
    }
}

/// Reads the bare address that starts at `i`.
pub fn bare_url(s: &Vec<char>, i: usize) -> (r: Option<(Inline, usize)>)
    requires
        i < s.len(),
    ensures
        match r {
            Some((node, e)) => bare_url_at(s@, i as int) == Some((inline_model(node), e as int))
                && i < e <= s.len(),
            None => bare_url_at(s@, i as int) is None,
        },
{
    let len = s.len();
    let p = read_url_prefix(s, i);
    if p == 0 {
        return None;
    }
    if i > 0 {
        let c = s[i - 1];
        if !(c.is_whitespace() || c == '*' || c == '_' || c == '~' || c == '(') {
            return None;
        }
    }
    let e = skip_run(s, i + p, len, CharClass::SolidExcept('<'));
    let t = skip_run_back(s, i + p, e, CharClass::UrlTail);
    if i + p < t {
        Some((Inline::Autolink(string_of(s, i, t)), t))
    } else {
        None
    }
}

} // verus!
