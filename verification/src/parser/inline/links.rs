//! The parts that links, images and references share: bracketed text, and
//! the destination and title between parentheses.

use vstd::prelude::*;
use crate::parser::chars::{run_end, skip_run, string_of, unicode_whitespace, CharClass};

verus! {

/// The position of the `]` that closes a bracket opened before `i`, with
/// `open` more brackets opened since; the length of `s` if there is none.
pub open spec fn close_bracket(s: Seq<char>, i: int, open: nat) -> int
    decreases s.len() - i,
{
    if i < 0 || i >= s.len() {
        s.len() as int
    } else if s[i] == ']' {
        if open == 0 {
            i
        } else {
            close_bracket(s, i + 1, (open - 1) as nat)
        }
    } else if s[i] == '[' {
        close_bracket(s, i + 1, open + 1)
    } else {
        close_bracket(s, i + 1, open)
    }
}

/// Finds the `]` that closes the bracket opened just before `i`.
pub fn find_close_bracket(s: &Vec<char>, i: usize) -> (j: usize)
    requires
        i <= s.len(),
    ensures
        j == close_bracket(s@, i as int, 0),
        i <= j <= s.len(),
        j < s.len() ==> s@[j as int] == ']',
{
    let mut j = i;
    let mut open: usize = 0;
    while j < s.len()
        invariant
            i <= j <= s.len(),
            open <= j - i,
            close_bracket(s@, i as int, 0) == close_bracket(s@, j as int, open as nat),
        decreases s.len() - j,
    {
        let c = s[j];
        if c == ']' {
            if open == 0 {
                return j;
            }
            open -= 1;
        } else if c == '[' {
            open += 1;
        }
        j += 1;
    }
    j
}

/// Where a destination written without angle brackets ends: at whitespace,
/// at a `)` that closes no `(` of the destination, or at the end.
pub open spec fn bare_destination_end(s: Seq<char>, i: int, open: nat) -> int
    decreases s.len() - i,
{
    if i < 0 || i >= s.len() {
        i
    } else if unicode_whitespace(s[i]) {
        i
    } else if s[i] == ')' {
        if open == 0 {
            i
        } else {
            bare_destination_end(s, i + 1, (open - 1) as nat)
        }
    } else if s[i] == '(' {
        bare_destination_end(s, i + 1, open + 1)
    } else {
        bare_destination_end(s, i + 1, open)
    }
}

fn skip_bare_destination(s: &Vec<char>, i: usize) -> (j: usize)
    requires
        i <= s.len(),
    ensures
        j == bare_destination_end(s@, i as int, 0),
        i <= j <= s.len(),
{
    let mut j = i;
    let mut open: usize = 0;
    while j < s.len()
        invariant
            i <= j <= s.len(),
            open <= j - i,
            bare_destination_end(s@, i as int, 0) == bare_destination_end(
                s@,
                j as int,
                open as nat,
            ),
        decreases s.len() - j,
    {
        let c = s[j];
        if c.is_whitespace() {
            return j;
        }
        if c == ')' {
            if open == 0 {
                return j;
            }
            open -= 1;
        } else if c == '(' {
            open += 1;
        }
        j += 1;
    }
    j
}

/// The destination that starts at `i`: from and to where its text runs, and
/// where what follows it begins. Between `<` and `>` it may hold anything
/// but `>` and a line feed; bare, it runs as [`bare_destination_end`] says
/// and may be empty.
pub open spec fn destination_at(s: Seq<char>, i: int) -> Option<(int, int, int)> {
    if 0 <= i < s.len() && s[i] == '<' {
        let e = run_end(s, i + 1, s.len() as int, CharClass::NeitherOf('>', '\n'));
        if e < s.len() && s[e] == '>' {
            Some((i + 1, e, e + 1))
        } else {
            None
        }
    } else if 0 <= i <= s.len() {
        let e = bare_destination_end(s, i, 0);
        Some((i, e, e))
    } else {
        None
    }
}

pub fn read_destination(s: &Vec<char>, i: usize) -> (r: Option<(usize, usize, usize)>)
    requires
        i <= s.len(),
    ensures
        match r {
            Some((a, b, e)) => destination_at(s@, i as int) == Some((a as int, b as int, e as int))
                && i <= a <= b <= e <= s.len(),
            None => destination_at(s@, i as int) is None,
        },
{
    if i < s.len() && s[i] == '<' {
        let e = skip_run(s, i + 1, s.len(), CharClass::NeitherOf('>', '\n'));
        if e < s.len() && s[e] == '>' {
            Some((i + 1, e, e + 1))
        } else {
            None
        }
    } else {
        let e = skip_bare_destination(s, i);
        Some((i, e, e))
    }
}

/// The character that closes a title opened by `c`, if `c` opens one.
pub open spec fn title_closer(c: char) -> Option<char> {
    if c == '"' {
        Some('"')
    } else if c == '\'' {
        Some('\'')
    } else if c == '(' {
        Some(')')
    } else {
        None
    }
}

/// The title that starts at `i`: from and to where its text runs, and where
/// what follows it begins. It stands between `"`, between `'` or between
/// parentheses, and holds no closing character.
pub open spec fn title_at(s: Seq<char>, i: int) -> Option<(int, int, int)> {
    if 0 <= i < s.len() {
        match title_closer(s[i]) {
            Some(q) => {
                let e = run_end(s, i + 1, s.len() as int, CharClass::IsNot(q));
                if e < s.len() {
                    Some((i + 1, e, e + 1))
                } else {
                    None
                }
            },
            None => None,
        }
    } else {
        None
    }
}

pub fn read_title(s: &Vec<char>, i: usize) -> (r: Option<(usize, usize, usize)>)
    requires
        i <= s.len(),
    ensures
        match r {
            Some((a, b, e)) => title_at(s@, i as int) == Some((a as int, b as int, e as int))
                && i < a <= b < e <= s.len(),
            None => title_at(s@, i as int) is None,
        },
{
    if i >= s.len() {
        return None;
    }
    let c = s[i];
    let q = if c == '"' {
        '"'
    } else if c == '\'' {
        '\''
    } else if c == '(' {
        ')'
    } else {
        return None;
    };
    let e = skip_run(s, i + 1, s.len(), CharClass::IsNot(q));
    if e < s.len() {
        Some((i + 1, e, e + 1))
    } else {
        None
    }
}

/// Model of what stands between the parentheses of a link or an image.
pub struct TailModel {
    pub destination: Seq<char>,
    pub title: Option<Seq<char>>,
    /// Where what follows the `)` begins.
    pub end: int,
}

/// What stands between the parentheses of a link or an image.
pub struct Tail {
    pub destination: String,
    pub title: Option<String>,
    /// Where what follows the `)` begins.
    pub end: usize,
}

impl View for Tail {
    type V = TailModel;

    open spec fn view(&self) -> TailModel {
        TailModel {
            destination: self.destination@,
            title: match self.title {
                Some(t) => Some(t@),
                None => None,
            },
            end: self.end as int,
        }
    }
}

/// The tail `(destination "title")` that starts at `i`: a `(`, the
/// destination after any whitespace, a title if one follows after any
/// whitespace, and the `)` after any whitespace.
pub open spec fn tail_at(s: Seq<char>, i: int) -> Option<TailModel> {
    if 0 <= i < s.len() && s[i] == '(' {
        let len = s.len() as int;
        let d0 = run_end(s, i + 1, len, CharClass::MultiSpace);
        match destination_at(s, d0) {
            Some((da, db, de)) => {
                let t0 = run_end(s, de, len, CharClass::MultiSpace);
                let title = title_at(s, t0);
                let after = match title {
                    Some((ta, tb, te)) => te,
                    None => de,
                };
                let c = run_end(s, after, len, CharClass::MultiSpace);
                if 0 <= da <= db <= len && c < len && s[c] == ')' {
                    Some(
                        TailModel {
                            destination: s.subrange(da, db),
                            title: match title {
                                Some((ta, tb, te)) => if 0 <= ta <= tb <= len {
                                    Some(s.subrange(ta, tb))
                                } else {
                                    None
                                },
                                None => None,
                            },
                            end: c + 1,
                        },
                    )
                } else {
                    None
                }
            },
            None => None,
        }
    } else {
        None
    }
}

/// Reads the tail `(destination "title")` that starts at `i`.
pub fn read_tail(s: &Vec<char>, i: usize) -> (r: Option<Tail>)
    requires
        i <= s.len(),
    ensures
        match r {
            Some(t) => tail_at(s@, i as int) == Some(t@) && i < t.end <= s.len(),
            None => tail_at(s@, i as int) is None,
        },
{
    if i >= s.len() || s[i] != '(' {
        return None;
    }
    let len = s.len();
    let d0 = skip_run(s, i + 1, len, CharClass::MultiSpace);
    match read_destination(s, d0) {
        None => None,
        Some((da, db, de)) => {
            let t0 = skip_run(s, de, len, CharClass::MultiSpace);
            let title = read_title(s, t0);
            let after = match title {
                Some((ta, tb, te)) => te,
                None => de,
            };
            let c = skip_run(s, after, len, CharClass::MultiSpace);
            if c < len && s[c] == ')' {
                let destination = string_of(s, da, db);
                let title_text = match title {
                    Some((ta, tb, te)) => Some(string_of(s, ta, tb)),
                    None => None,
                };
                Some(Tail { destination, title: title_text, end: c + 1 })
            } else {
                None
            }
        },
    }
}

} // verus!
