//! What the blocks that hold blocks look like from outside: block quotes,
//! GitHub alerts, list items and footnote definitions.

use vstd::prelude::*;
use crate::ast::{GitHubAlertType, ListBulletKind, ListKind, ListOrderedKindOptions, TaskState};
use crate::ast::model::{alert_type_model, GitHubAlertTypeModel};
use crate::parser::chars::{is_ascii_digit, run_end, skip_run, slice_chars, string_of, CharClass};
use crate::parser::lines::{indent, indent_of, lines_model, strip_lines, stripped_lines, Strip};

verus! {

/// Whether the line belongs to a block quote: after at most three spaces it
/// has a `>`.
pub open spec fn is_quote_line(l: Seq<char>) -> bool {
    let a = indent_of(l);
    a <= 3 && a < l.len() && l[a] == '>'
}

/// Tests whether the line belongs to a block quote.
pub fn quote_line(l: &Vec<char>) -> (r: bool)
    ensures
        r == is_quote_line(l@),
{
    let a = indent(l);
    a <= 3 && a < l.len() && l[a] == '>'
}

/// The first line from `k` on that does not belong to a block quote, or the
/// number of lines.
pub open spec fn quote_end(lines: Seq<Seq<char>>, k: int) -> int
    decreases lines.len() - k,
{
    if 0 <= k < lines.len() && is_quote_line(lines[k]) {
        quote_end(lines, k + 1)
    } else {
        k
    }
}

/// Finds the first line from `start` on that does not belong to a block
/// quote.
pub fn find_quote_end(lines: &Vec<Vec<char>>, start: usize) -> (k: usize)
    requires
        start <= lines.len(),
    ensures
        k == quote_end(lines_model(lines@), start as int),
        start <= k <= lines.len(),
{
    let mut k = start;
    while k < lines.len() && quote_line(&lines[k])
        invariant
            start <= k <= lines.len(),
            quote_end(lines_model(lines@), start as int) == quote_end(
                lines_model(lines@),
                k as int,
            ),
        decreases lines.len() - k,
    {
        k += 1;
    }
    k
}

/// The upper-case form of an ASCII letter; any other character is itself.
pub open spec fn ascii_upper(c: char) -> char {
    if 'a' <= c && c <= 'z' {
        ((c as u8) - 32) as char
    } else {
        c
    }
}

/// Whether `word` is `name` but for the case of its ASCII letters. `name`
/// is in upper case.
pub open spec fn is_word(word: Seq<char>, name: Seq<char>) -> bool {
    word.len() == name.len() && forall|k: int|
        0 <= k < word.len() ==> ascii_upper(#[trigger] word[k]) == name[k]
}

pub open spec fn note_word() -> Seq<char> {
    seq!['N', 'O', 'T', 'E']
}

pub open spec fn tip_word() -> Seq<char> {
    seq!['T', 'I', 'P']
}

pub open spec fn important_word() -> Seq<char> {
    seq!['I', 'M', 'P', 'O', 'R', 'T', 'A', 'N', 'T']
}

pub open spec fn warning_word() -> Seq<char> {
    seq!['W', 'A', 'R', 'N', 'I', 'N', 'G']
}

pub open spec fn caution_word() -> Seq<char> {
    seq!['C', 'A', 'U', 'T', 'I', 'O', 'N']
}

/// The alert type that a word names: one of the five that GitHub knows,
/// whatever the case of its letters, or the word itself.
pub open spec fn alert_type_of(word: Seq<char>) -> GitHubAlertTypeModel {
    if is_word(word, note_word()) {
        GitHubAlertTypeModel::Note
    } else if is_word(word, tip_word()) {
        GitHubAlertTypeModel::Tip
    } else if is_word(word, important_word()) {
        GitHubAlertTypeModel::Important
    } else if is_word(word, warning_word()) {
        GitHubAlertTypeModel::Warning
    } else if is_word(word, caution_word()) {
        GitHubAlertTypeModel::Caution
    } else {
        GitHubAlertTypeModel::Custom(word)
    }
}

fn word_is(l: &Vec<char>, a: usize, b: usize, name: &Vec<char>) -> (r: bool)
    requires
        a <= b <= l.len(),
    ensures
        r == is_word(l@.subrange(a as int, b as int), name@),
{
    if b - a != name.len() {
        return false;
    }
    let ghost word = l@.subrange(a as int, b as int);
    let mut k: usize = 0;
    while k < name.len()
        invariant
            k <= name.len(),
            a <= b <= l.len(),
            b - a == name.len(),
            word == l@.subrange(a as int, b as int),
            forall|m: int| 0 <= m < k ==> ascii_upper(#[trigger] word[m]) == name@[m],
        decreases name.len() - k,
    {
        let c = l[a + k];
        let up = if 'a' <= c && c <= 'z' {
            ((c as u8) - 32) as char
        } else {
            c
        };
        assert(word[k as int] == c);
        if up != name[k] {
            return false;
        }
        k += 1;
    }
    true
}

/// From and to where the word of the alert marker runs, if the line, as it
/// stands in a block quote, is nothing but `[!WORD]`: the word is a run of
/// alphanumerics, `-` and `_`, and blanks may follow the `]`.
pub open spec fn alert_marker(l: Seq<char>) -> Option<(int, int)> {
    let len = l.len() as int;
    let a = crate::parser::lines::strip_len(l, Strip::Quote);
    let b = run_end(l, a, len, CharClass::Blank);
    let e = run_end(l, b + 2, len, CharClass::Word);
    if is_quote_line(l) && b + 1 < len && l[b] == '[' && l[b + 1] == '!' && b + 2 < e && e < len
        && l[e] == ']' && crate::parser::lines::blank_from(l, e + 1) {
        Some((b + 2, e))
    } else {
        None
    }
}

/// Reads the line as the marker of an alert.
pub fn read_alert_marker(l: &Vec<char>) -> (r: Option<GitHubAlertType>)
    ensures
        match r {
            Some(t) => alert_marker(l@) matches Some((a, b)) && alert_type_model(t)
                == alert_type_of(l@.subrange(a, b)),
            None => alert_marker(l@) is None,
        },
{
    let len = l.len();
    if !quote_line(l) {
        return None;
    }
    let i = indent(l);
    let a = if len - i >= 2 && l[i + 1] == ' ' {
        i + 2
    } else {
        i + 1
    };
    let b = skip_run(l, a, len, CharClass::Blank);
    if len - b < 2 || l[b] != '[' || l[b + 1] != '!' {
        return None;
    }
    let e = skip_run(l, b + 2, len, CharClass::Word);
    if !(b + 2 < e && e < len && l[e] == ']' && crate::parser::lines::rest_is_blank(l, e + 1)) {
        return None;
    }
    let note = vec!['N', 'O', 'T', 'E'];
    let tip = vec!['T', 'I', 'P'];
    let important = vec!['I', 'M', 'P', 'O', 'R', 'T', 'A', 'N', 'T'];
    let warning = vec!['W', 'A', 'R', 'N', 'I', 'N', 'G'];
    let caution = vec!['C', 'A', 'U', 'T', 'I', 'O', 'N'];
    assert(note@ =~= note_word());
    assert(tip@ =~= tip_word());
    assert(important@ =~= important_word());
    assert(warning@ =~= warning_word());
    assert(caution@ =~= caution_word());
    if word_is(l, b + 2, e, &note) {
        Some(GitHubAlertType::Note)
    } else if word_is(l, b + 2, e, &tip) {
        Some(GitHubAlertType::Tip)
    } else if word_is(l, b + 2, e, &important) {
        Some(GitHubAlertType::Important)
    } else if word_is(l, b + 2, e, &warning) {
        Some(GitHubAlertType::Warning)
    } else if word_is(l, b + 2, e, &caution) {
        Some(GitHubAlertType::Caution)
    } else {
        Some(GitHubAlertType::Custom(string_of(l, b + 2, e)))
    }
}

/// The number that the digits from `a` to `b` write.
pub open spec fn number_of(l: Seq<char>, a: int, b: int) -> nat
    decreases b - a,
{
    if b <= a || a < 0 || b > l.len() {
        0
    } else {
        number_of(l, a, b - 1) * 10 + ((l[b - 1] as u32 - '0' as u32) as nat)
    }
}

/// One more than the greatest number that `d` digits write, for `d` up to
/// nine.
pub open spec fn digits_bound(d: int) -> int {
    if d <= 0 {
        1
    } else if d == 1 {
        10
    } else if d == 2 {
        100
    } else if d == 3 {
        1000
    } else if d == 4 {
        10000
    } else if d == 5 {
        100000
    } else if d == 6 {
        1000000
    } else if d == 7 {
        10000000
    } else if d == 8 {
        100000000
    } else {
        1000000000
    }
}

/// Reads the number that the digits from `a` to `b` write.
pub fn read_number(l: &Vec<char>, a: usize, b: usize) -> (n: u64)
    requires
        a <= b <= l.len(),
        b - a <= 9,
        forall|k: int| a <= k < b ==> is_ascii_digit(#[trigger] l@[k]),
    ensures
        n == number_of(l@, a as int, b as int),
        n < 1000000000,
{
    let mut n: u64 = 0;
    let mut k = a;
    while k < b
        invariant
            a <= k <= b <= l.len(),
            b - a <= 9,
            forall|m: int| a <= m < b ==> is_ascii_digit(#[trigger] l@[m]),
            n == number_of(l@, a as int, k as int),
            n < digits_bound(k - a),
        decreases b - k,
    {
        assert(is_ascii_digit(l@[k as int]));
        let d = (l[k] as u32 - '0' as u32) as u64;
        n = n * 10 + d;
        k += 1;
    }
    n
}

/// Model of what a list marker says.
pub struct MarkerModel {
    pub kind: ListKind,
    /// The bullet character, or the `.` or `)` behind the number: items
    /// belong to one list while this stays the same.
    pub delimiter: char,
    /// Where the content of the item begins: behind the marker and one
    /// space.
    pub width: int,
}

pub open spec fn bullet_kind(c: char) -> ListBulletKind {
    if c == '-' {
        ListBulletKind::Dash
    } else if c == '*' {
        ListBulletKind::Star
    } else {
        ListBulletKind::Plus
    }
}

/// The list marker that the line starts with, after at most three spaces:
/// one of `-`, `+` and `*`, or one to nine digits and a `.` or `)`; and
/// then a space or the end of the line.
pub open spec fn list_marker(l: Seq<char>) -> Option<MarkerModel> {
    let len = l.len() as int;
    let a = indent_of(l);
    let d = run_end(l, a, len, CharClass::Digit);
    if a <= 3 && a < len {
        if (l[a] == '-' || l[a] == '+' || l[a] == '*') && (a + 1 == len || l[a + 1] == ' ') {
            Some(
                MarkerModel { kind: ListKind::Bullet(bullet_kind(l[a])), delimiter: l[a], width: a + 2 },
            )
        } else if 1 <= d - a <= 9 && d < len && (l[d] == '.' || l[d] == ')') && (d + 1 == len
            || l[d + 1] == ' ') {
            Some(
                MarkerModel {
                    kind: ListKind::Ordered(
                        ListOrderedKindOptions { start: number_of(l, a, d) as u64 },
                    ),
                    delimiter: l[d],
                    width: d + 2,
                },
            )
        } else {
            None
        }
    } else {
        None
    }
}

/// What a list marker says.
pub struct Marker {
    pub kind: ListKind,
    pub delimiter: char,
    pub width: usize,
}

impl View for Marker {
    type V = MarkerModel;

    open spec fn view(&self) -> MarkerModel {
        MarkerModel { kind: self.kind, delimiter: self.delimiter, width: self.width as int }
    }
}

/// Reads the list marker that the line starts with.
pub fn read_list_marker(l: &Vec<char>) -> (r: Option<Marker>)
    ensures
        match r {
            Some(m) => list_marker(l@) == Some(m@) && 2 <= m.width <= l.len() + 1,
            None => list_marker(l@) is None,
        },
{
    let len = l.len();
    let a = indent(l);
    if a > 3 || a >= len {
        return None;
    }
    let c = l[a];
    if (c == '-' || c == '+' || c == '*') && (a + 1 == len || l[a + 1] == ' ') {
        let kind = if c == '-' {
            ListBulletKind::Dash
        } else if c == '*' {
            ListBulletKind::Star
        } else {
            ListBulletKind::Plus
        };
        return Some(Marker { kind: ListKind::Bullet(kind), delimiter: c, width: a + 2 });
    }
    let d = skip_run(l, a, len, CharClass::Digit);
    if 1 <= d - a && d - a <= 9 && d < len && (l[d] == '.' || l[d] == ')') && (d + 1 == len
        || l[d + 1] == ' ') {
        let start = read_number(l, a, d);
        Some(
            Marker {
                kind: ListKind::Ordered(ListOrderedKindOptions { start }),
                delimiter: l[d],
                width: d + 2,
            },
        )
    } else {
        None
    }
}

/// The task marker that the first line of an item starts with, and how
/// many characters it takes: `[ ]`, `[x]` or `[X]`, and then a space or the
/// end of the line.
pub open spec fn task_of(first: Seq<char>) -> Option<(TaskState, int)> {
    if first.len() >= 3 && first[0] == '[' && first[2] == ']' && (first[1] == ' ' || first[1]
        == 'x' || first[1] == 'X') && (first.len() == 3 || first[3] == ' ') {
        Some(
            (
                if first[1] == ' ' {
                    TaskState::Incomplete
                } else {
                    TaskState::Complete
                },
                if first.len() == 3 {
                    3
                } else {
                    4
                },
            ),
        )
    } else {
        None
    }
}

/// The first line of an item: what the line holds from `width` on.
pub open spec fn item_head(l: Seq<char>, width: int) -> Seq<char> {
    if width <= l.len() {
        l.subrange(width, l.len() as int)
    } else {
        Seq::empty()
    }
}

/// The first line of an item without its task marker.
pub open spec fn item_first_line(l: Seq<char>, width: int) -> Seq<char> {
    let head = item_head(l, width);
    match task_of(head) {
        Some((t, n)) => head.subrange(n, head.len() as int),
        None => head,
    }
}

/// The task state that the first line of an item gives it.
pub open spec fn item_task(l: Seq<char>, width: int) -> Option<TaskState> {
    match task_of(item_head(l, width)) {
        Some((t, n)) => Some(t),
        None => None,
    }
}

/// The lines of the item that starts at line `i` and ends before line `e`:
/// its first line without marker and task marker, and the others without
/// `width` leading spaces at most.
pub open spec fn item_lines(lines: Seq<Seq<char>>, i: int, e: int, width: int) -> Seq<Seq<char>> {
    seq![item_first_line(lines[i], width)] + stripped_lines(
        lines,
        i + 1,
        e,
        Strip::Spaces(width as usize),
    )
}

/// Reads the lines and the task state of the item that starts at line `i`
/// and ends before line `e`.
pub fn read_item_lines(lines: &Vec<Vec<char>>, i: usize, e: usize, width: usize) -> (r: (
    Vec<Vec<char>>,
    Option<TaskState>,
))
    requires
        i < e <= lines.len(),
    ensures
        lines_model(r.0@) == item_lines(lines_model(lines@), i as int, e as int, width as int),
        r.1 == item_task(lines@[i as int]@, width as int),
{
    let l = &lines[i];
    let head = if width <= l.len() {
        slice_chars(l, width, l.len())
    } else {
        Vec::new()
    };
    assert(head@ =~= item_head(l@, width as int));
    let n = head.len();
    let (task, first) = if n >= 3 && head[0] == '[' && head[2] == ']' && (head[1] == ' '
        || head[1] == 'x' || head[1] == 'X') && (n == 3 || head[3] == ' ') {
        let t = if head[1] == ' ' {
            TaskState::Incomplete
        } else {
            TaskState::Complete
        };
        let skip: usize = if n == 3 {
            3
        } else {
            4
        };
        (Some(t), slice_chars(&head, skip, n))
    } else {
        (None, head)
    };
    let rest = strip_lines(lines, i + 1, e, Strip::Spaces(width));
    let mut out: Vec<Vec<char>> = Vec::new();
    out.push(first);
    let mut k: usize = 0;
    while k < rest.len()
        invariant
            k <= rest.len(),
            out.len() == k + 1,
            out@[0] == first,
            forall|m: int| 0 <= m < k ==> out@[m + 1]@ == rest@[m]@,
        decreases rest.len() - k,
    {
        out.push(slice_chars(&rest[k], 0, rest[k].len()));
        assert(rest@[k as int]@.subrange(0, rest@[k as int]@.len() as int) =~= rest@[k as int]@);
        k += 1;
    }
    assert(lines_model(out@) =~= seq![first@] + lines_model(rest@));
    (out, task)
}

} // verus!
