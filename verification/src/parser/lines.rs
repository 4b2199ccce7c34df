//! Lines: how a text is cut into them, and what the block recognizers ask
//! of a single line.

use vstd::prelude::*;
use crate::parser::chars::{run_end, skip_run, slice_chars, CharClass};

verus! {

/// The lines of a vector of lines, each as its sequence of characters.
pub open spec fn lines_model(v: Seq<Vec<char>>) -> Seq<Seq<char>> {
    Seq::new(v.len(), |k: int| v[k]@)
}

/// The model of a sequence with one more line is the model with one more.
pub proof fn lemma_lines_model_push(v: Seq<Vec<char>>, x: Vec<char>)
    ensures
        lines_model(v.push(x)) == lines_model(v).push(x@),
{
    assert(lines_model(v.push(x)) =~= lines_model(v).push(x@));
}

/// The text of the line that runs from `a` to `b`: a carriage return at its
/// end does not belong to it.
pub open spec fn line_text(s: Seq<char>, a: int, b: int) -> Seq<char> {
    if a < b && s[b - 1] == '\r' {
        s.subrange(a, b - 1)
    } else {
        s.subrange(a, b)
    }
}

/// The lines of `s` from the line that began at `start` and was read up to
/// `i`. A line ends at a line feed or at the end of the text; a text that
/// ends with a line feed has no empty last line.
pub open spec fn lines_from(s: Seq<char>, start: int, i: int) -> Seq<Seq<char>>
    decreases s.len() - i,
{
    if i < 0 || i >= s.len() {
        if 0 <= start < s.len() {
            seq![line_text(s, start, s.len() as int)]
        } else {
            Seq::empty()
        }
    } else if s[i] == '\n' {
        seq![line_text(s, start, i)] + lines_from(s, i + 1, i + 1)
    } else {
        lines_from(s, start, i + 1)
    }
}

/// The lines of a text.
pub open spec fn split_lines(s: Seq<char>) -> Seq<Seq<char>> {
    lines_from(s, 0, 0)
}

fn cut_line(s: &Vec<char>, a: usize, b: usize) -> (r: Vec<char>)
    requires
        a <= b <= s.len(),
    ensures
        r@ == line_text(s@, a as int, b as int),
{
    if a < b && s[b - 1] == '\r' {
        slice_chars(s, a, b - 1)
    } else {
        slice_chars(s, a, b)
    }
}

/// Cuts a text into its lines.
pub fn lines_of(s: &Vec<char>) -> (r: Vec<Vec<char>>)
    ensures
        lines_model(r@) == split_lines(s@),
{
    let mut out: Vec<Vec<char>> = Vec::new();
    let mut start: usize = 0;
    let mut i: usize = 0;
    assert(lines_model(out@) =~= Seq::<Seq<char>>::empty());
    while i < s.len()
        invariant
            start <= i <= s.len(),
            split_lines(s@) == lines_model(out@) + lines_from(s@, start as int, i as int),
        decreases s.len() - i,
    {
        if s[i] == '\n' {
            let line = cut_line(s, start, i);
            let ghost before = out@;
            out.push(line);
            proof {
                lemma_lines_model_push(before, line);
                assert(lines_model(out@) + lines_from(s@, i + 1, i + 1) =~= lines_model(before) + (
                seq![line@] + lines_from(s@, i + 1, i + 1)));
            }
            start = i + 1;
        }
        i += 1;
    }
    if start < s.len() {
        let line = cut_line(s, start, s.len());
        let ghost before = out@;
        out.push(line);
        proof {
            lemma_lines_model_push(before, line);
            assert(lines_model(out@) =~= lines_model(before) + seq![line@]);
        }
    } else {
        assert(lines_model(out@) + Seq::<Seq<char>>::empty() =~= lines_model(out@));
    }
    out
}

/// The lines from `i` to `j` put together, with a line feed between every
/// two.
pub open spec fn joined(lines: Seq<Seq<char>>, i: int, j: int) -> Seq<char>
    decreases j - i,
{
    if j <= i || i < 0 || j > lines.len() {
        Seq::empty()
    } else if j == i + 1 {
        lines[i]
    } else {
        joined(lines, i, j - 1) + seq!['\n'] + lines[j - 1]
    }
}

/// Puts the lines from `i` to `j` together, with a line feed between every
/// two.
pub fn join_lines(lines: &Vec<Vec<char>>, i: usize, j: usize) -> (r: Vec<char>)
    requires
        i <= j <= lines.len(),
    ensures
        r@ == joined(lines_model(lines@), i as int, j as int),
{
    let mut out: Vec<char> = Vec::new();
    let mut k = i;
    while k < j
        invariant
            i <= k <= j <= lines.len(),
            out@ == joined(lines_model(lines@), i as int, k as int),
        decreases j - k,
    {
        if k > i {
            out.push('\n');
        }
        let line = &lines[k];
        let ghost before = out@;
        let mut m: usize = 0;
        while m < line.len()
            invariant
                m <= line.len(),
                out@ == before + line@.subrange(0, m as int),
            decreases line.len() - m,
        {
            out.push(line[m]);
            assert(line@.subrange(0, m + 1) =~= line@.subrange(0, m as int).push(line@[m as int]));
            m += 1;
        }
        assert(line@.subrange(0, line.len() as int) =~= line@);
        assert(out@ =~= joined(lines_model(lines@), i as int, k + 1));
        k += 1;
    }
    out
}

/// How many spaces the line starts with.
pub open spec fn indent_of(l: Seq<char>) -> int {
    run_end(l, 0, l.len() as int, CharClass::Space)
}

/// Counts the spaces that the line starts with.
pub fn indent(l: &Vec<char>) -> (n: usize)
    ensures
        n == indent_of(l@),
        n <= l.len(),
{
    skip_run(l, 0, l.len(), CharClass::Space)
}

/// Whether the line holds nothing but spaces and tabs.
pub open spec fn is_blank(l: Seq<char>) -> bool {
    run_end(l, 0, l.len() as int, CharClass::Blank) == l.len()
}

/// Tests whether the line holds nothing but spaces and tabs.
pub fn blank(l: &Vec<char>) -> (r: bool)
    ensures
        r == is_blank(l@),
{
    skip_run(l, 0, l.len(), CharClass::Blank) == l.len()
}

/// Whether everything from `a` to the end of the line is a space or a tab.
pub open spec fn blank_from(l: Seq<char>, a: int) -> bool {
    run_end(l, a, l.len() as int, CharClass::Blank) >= l.len()
}

/// Tests whether everything from `a` to the end of the line is a space or
/// a tab.
pub fn rest_is_blank(l: &Vec<char>, a: usize) -> (r: bool)
    requires
        a <= l.len(),
    ensures
        r == blank_from(l@, a as int),
{
    skip_run(l, a, l.len(), CharClass::Blank) >= l.len()
}

/// The first line from `k` on that is not blank, or the number of lines.
pub open spec fn after_blank_lines(lines: Seq<Seq<char>>, k: int) -> int
    decreases lines.len() - k,
{
    if 0 <= k < lines.len() && is_blank(lines[k]) {
        after_blank_lines(lines, k + 1)
    } else {
        k
    }
}

/// Passes over the blank lines from `k` on.
pub fn skip_blank_lines(lines: &Vec<Vec<char>>, k: usize) -> (m: usize)
    requires
        k <= lines.len(),
    ensures
        m == after_blank_lines(lines_model(lines@), k as int),
        k <= m <= lines.len(),
        m < lines.len() ==> !is_blank(lines@[m as int]@),
{
    let mut m = k;
    while m < lines.len() && blank(&lines[m])
        invariant
            k <= m <= lines.len(),
            after_blank_lines(lines_model(lines@), k as int) == after_blank_lines(
                lines_model(lines@),
                m as int,
            ),
        decreases lines.len() - m,
    {
        m += 1;
    }
    m
}

/// What is taken off the front of a line.
#[derive(Debug, Clone, Copy, PartialEq, Eq)]
pub enum Strip {
    /// Nothing.
    Keep,
    /// Every leading space and tab.
    Blanks,
    /// Leading spaces, at most this many.
    Spaces(usize),
    /// A block quote marker: the spaces before `>`, the `>`, and one space
    /// after it if there is one.
    Quote,
}

/// How many characters `strip` takes off the front of `l`.
pub open spec fn strip_len(l: Seq<char>, strip: Strip) -> int {
    match strip {
        Strip::Keep => 0,
        Strip::Blanks => run_end(l, 0, l.len() as int, CharClass::Blank),
        Strip::Spaces(n) => if indent_of(l) <= n {
            indent_of(l)
        } else {
            n as int
        },
        Strip::Quote => {
            let a = indent_of(l);
            if a < l.len() && l[a] == '>' {
                if a + 1 < l.len() && l[a + 1] == ' ' {
                    a + 2
                } else {
                    a + 1
                }
            } else {
                0
            }
        },
    }
}

/// The line without what `strip` takes off its front.
pub open spec fn stripped(l: Seq<char>, strip: Strip) -> Seq<char> {
    l.subrange(strip_len(l, strip), l.len() as int)
}

/// The lines from `i` to `j`, each without what `strip` takes off its front.
pub open spec fn stripped_lines(lines: Seq<Seq<char>>, i: int, j: int, strip: Strip) -> Seq<
    Seq<char>,
> {
    Seq::new((j - i) as nat, |k: int| stripped(lines[i + k], strip))
}

/// Takes `strip` off the front of a line.
pub fn strip_line(l: &Vec<char>, strip: Strip) -> (r: Vec<char>)
    ensures
        r@ == stripped(l@, strip),
{
    let len = l.len();
    let n = match strip {
        Strip::Keep => 0,
        Strip::Blanks => skip_run(l, 0, len, CharClass::Blank),
        Strip::Spaces(n) => {
            let a = indent(l);
            if a <= n {
                a
            } else {
                n
            }
        },
        Strip::Quote => {
            let a = indent(l);
            if a < len && l[a] == '>' {
                if len - a >= 2 && l[a + 1] == ' ' {
                    a + 2
                } else {
                    a + 1
                }
            } else {
                0
            }
        },
    };
    slice_chars(l, n, len)
}

/// Takes `strip` off the front of each line from `i` to `j`.
pub fn strip_lines(lines: &Vec<Vec<char>>, i: usize, j: usize, strip: Strip) -> (r: Vec<Vec<char>>)
    requires
        i <= j <= lines.len(),
    ensures
        lines_model(r@) == stripped_lines(lines_model(lines@), i as int, j as int, strip),
{
    let mut out: Vec<Vec<char>> = Vec::new();
    let mut k = i;
    while k < j
        invariant
            i <= k <= j <= lines.len(),
            out.len() == k - i,
            forall|m: int| 0 <= m < k - i ==> out@[m]@ == stripped(lines@[i + m]@, strip),
        decreases j - k,
    {
        out.push(strip_line(&lines[k], strip));
        k += 1;
    }
    assert(lines_model(out@) =~= stripped_lines(lines_model(lines@), i as int, j as int, strip));
    out
}

/// The line without the spaces and tabs at its end.
pub open spec fn without_trailing_blanks(l: Seq<char>) -> Seq<char> {
    l.subrange(0, crate::parser::chars::run_start(l, 0, l.len() as int, CharClass::Blank))
}

} // verus!
