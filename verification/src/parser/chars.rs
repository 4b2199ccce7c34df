//! Character classes and the scanning primitives that every recognizer is
//! built from.

use vstd::prelude::*;
use vstd::std_specs::iter::IteratorSpec;

verus! {

/// Whether `c` is alphanumeric in Unicode's sense, as `char::is_alphanumeric`
/// decides it.
pub uninterp spec fn unicode_alphanumeric(c: char) -> bool;

/// Whether `c` has Unicode's `White_Space` property, as `char::is_whitespace`
/// decides it.
pub uninterp spec fn unicode_whitespace(c: char) -> bool;

/// `char::is_alphanumeric` of std: a function of the character alone, which
/// the contract only names.
pub assume_specification[ char::is_alphanumeric ](c: char) -> (r: bool)
    ensures
        r == unicode_alphanumeric(c),
;

/// `char::is_whitespace` of std: a function of the character alone, which
/// the contract only names.
pub assume_specification[ char::is_whitespace ](c: char) -> (r: bool)
    ensures
        r == unicode_whitespace(c),
;

/// `String::push` of std appends one character.
pub assume_specification[ String::push ](s: &mut String, c: char)
    ensures
        final(s)@ == old(s)@.push(c),
;

/// The sets of characters that the grammar speaks of.
#[derive(Debug, Clone, Copy, PartialEq, Eq)]
pub enum CharClass {
    /// The space character.
    Space,
    /// Space or horizontal tab.
    Blank,
    /// Space, tab, carriage return or line feed.
    MultiSpace,
    /// Unicode whitespace.
    Whitespace,
    /// An ASCII letter.
    Alpha,
    /// An ASCII digit.
    Digit,
    /// A Unicode alphanumeric, `-` or `_`: what a bare value is made of.
    Word,
    /// An ASCII letter or digit, or `-`.
    TagName,
    /// This character.
    Is(char),
    /// Any character but this one.
    IsNot(char),
    /// Any character but these two.
    NeitherOf(char, char),
    /// Anything that is neither Unicode whitespace nor this character.
    SolidExcept(char),
    /// Anything but `{`, space, tab, carriage return and line feed.
    KindChar,
    /// An ASCII letter or digit, `+`, `-` or `.`: what a URL scheme is made of.
    Scheme,
    /// This character, a space or a tab.
    IsOrBlank(char),
    /// Punctuation that ends a sentence rather than an address: one of
    /// `?!.,:;*_~"'`.
    UrlTail,
}

pub open spec fn is_ascii_alpha(c: char) -> bool {
    ('a' <= c && c <= 'z') || ('A' <= c && c <= 'Z')
}

pub open spec fn is_ascii_digit(c: char) -> bool {
    '0' <= c && c <= '9'
}

pub open spec fn is_multispace(c: char) -> bool {
    c == ' ' || c == '\t' || c == '\r' || c == '\n'
}

/// ASCII punctuation: `!` to `/`, `:` to `@`, `[` to `` ` ``, `{` to `~`.
pub open spec fn is_ascii_punctuation(c: char) -> bool {
    ('!' <= c && c <= '/') || (':' <= c && c <= '@') || ('[' <= c && c <= '`') || ('{' <= c && c
        <= '~')
}

impl CharClass {
    /// Whether `c` belongs to the class.
    pub open spec fn holds(self, c: char) -> bool {
        match self {
            CharClass::Space => c == ' ',
            CharClass::Blank => c == ' ' || c == '\t',
            CharClass::MultiSpace => is_multispace(c),
            CharClass::Whitespace => unicode_whitespace(c),
            CharClass::Alpha => is_ascii_alpha(c),
            CharClass::Digit => is_ascii_digit(c),
            CharClass::Word => unicode_alphanumeric(c) || c == '-' || c == '_',
            CharClass::TagName => is_ascii_alpha(c) || is_ascii_digit(c) || c == '-',
            CharClass::Is(x) => c == x,
            CharClass::IsNot(x) => c != x,
            CharClass::NeitherOf(x, y) => c != x && c != y,
            CharClass::SolidExcept(x) => !unicode_whitespace(c) && c != x,
            CharClass::KindChar => c != '{' && !is_multispace(c),
            CharClass::Scheme => is_ascii_alpha(c) || is_ascii_digit(c) || c == '+' || c == '-'
                || c == '.',
            CharClass::IsOrBlank(x) => c == x || c == ' ' || c == '\t',
            CharClass::UrlTail => c == '?' || c == '!' || c == '.' || c == ',' || c == ':' || c
                == ';' || c == '*' || c == '_' || c == '~' || c == '"' || c == '\'',
        }
    }

    /// Tests whether `c` belongs to the class.
    pub fn test(self, c: char) -> (r: bool)
        ensures
            r == self.holds(c),
    {
        match self {
            CharClass::Space => c == ' ',
            CharClass::Blank => c == ' ' || c == '\t',
            CharClass::MultiSpace => c == ' ' || c == '\t' || c == '\r' || c == '\n',
            CharClass::Whitespace => c.is_whitespace(),
            CharClass::Alpha => ('a' <= c && c <= 'z') || ('A' <= c && c <= 'Z'),
            CharClass::Digit => '0' <= c && c <= '9',
            CharClass::Word => c.is_alphanumeric() || c == '-' || c == '_',
            CharClass::TagName => ('a' <= c && c <= 'z') || ('A' <= c && c <= 'Z') || ('0' <= c
                && c <= '9') || c == '-',
            CharClass::Is(x) => c == x,
            CharClass::IsNot(x) => c != x,
            CharClass::NeitherOf(x, y) => c != x && c != y,
            CharClass::SolidExcept(x) => !c.is_whitespace() && c != x,
            CharClass::KindChar => c != '{' && c != ' ' && c != '\t' && c != '\r' && c != '\n',
            CharClass::Scheme => ('a' <= c && c <= 'z') || ('A' <= c && c <= 'Z') || ('0' <= c
                && c <= '9') || c == '+' || c == '-' || c == '.',
            CharClass::IsOrBlank(x) => c == x || c == ' ' || c == '\t',
            CharClass::UrlTail => c == '?' || c == '!' || c == '.' || c == ',' || c == ':' || c
                == ';' || c == '*' || c == '_' || c == '~' || c == '"' || c == '\'',
        }
    }
}

/// Tests for ASCII punctuation.
pub fn ascii_punctuation(c: char) -> (r: bool)
    ensures
        r == is_ascii_punctuation(c),
{
    ('!' <= c && c <= '/') || (':' <= c && c <= '@') || ('[' <= c && c <= '`') || ('{' <= c && c
        <= '~')
}

/// Where the run of `class` that starts at `i` ends: the first position from
/// `i` on, below `hi`, whose character is not in the class, or `hi`.
pub open spec fn run_end(s: Seq<char>, i: int, hi: int, class: CharClass) -> int
    decreases hi - i,
{
    if 0 <= i < hi && hi <= s.len() && class.holds(s[i]) {
        run_end(s, i + 1, hi, class)
    } else {
        i
    }
}

/// `run_end` stays between `i` and `hi`, everything before it is in the
/// class, and what stands at it is not.
pub proof fn lemma_run_end(s: Seq<char>, i: int, hi: int, class: CharClass)
    requires
        0 <= i <= hi <= s.len(),
    ensures
        i <= run_end(s, i, hi, class) <= hi,
        forall|k: int| i <= k < run_end(s, i, hi, class) ==> class.holds(#[trigger] s[k]),
        run_end(s, i, hi, class) < hi ==> !class.holds(s[run_end(s, i, hi, class)]),
    decreases hi - i,
{
    if i < hi && class.holds(s[i]) {
        lemma_run_end(s, i + 1, hi, class);
    }
}

/// Skips the run of `class` that starts at `i`, not going beyond `hi`.
pub fn skip_run(s: &Vec<char>, i: usize, hi: usize, class: CharClass) -> (j: usize)
    requires
        i <= hi <= s.len(),
    ensures
        j == run_end(s@, i as int, hi as int, class),
        i <= j <= hi,
        forall|k: int| i <= k < j ==> class.holds(#[trigger] s@[k]),
        j < hi ==> !class.holds(s@[j as int]),
{
    let mut j = i;
    while j < hi && class.test(s[j])
        invariant
            i <= j <= hi <= s.len(),
            run_end(s@, i as int, hi as int, class) == run_end(s@, j as int, hi as int, class),
        decreases hi - j,
    {
        j += 1;
    }
    proof {
        lemma_run_end(s@, i as int, hi as int, class);
    }
    j
}

/// Where the run of `class` that ends just before `j` starts: the least
/// position from `lo` on such that everything from it up to `j` is in the
/// class.
pub open spec fn run_start(s: Seq<char>, lo: int, j: int, class: CharClass) -> int
    decreases j - lo,
{
    if 0 <= lo < j && j <= s.len() && class.holds(s[j - 1]) {
        run_start(s, lo, j - 1, class)
    } else {
        j
    }
}

/// `run_start` stays between `lo` and `j`, everything from it on is in the
/// class, and what stands before it is not.
pub proof fn lemma_run_start(s: Seq<char>, lo: int, j: int, class: CharClass)
    requires
        0 <= lo <= j <= s.len(),
    ensures
        lo <= run_start(s, lo, j, class) <= j,
        forall|k: int| run_start(s, lo, j, class) <= k < j ==> class.holds(#[trigger] s[k]),
        run_start(s, lo, j, class) > lo ==> !class.holds(s[run_start(s, lo, j, class) - 1]),
    decreases j - lo,
{
    if lo < j && class.holds(s[j - 1]) {
        lemma_run_start(s, lo, j - 1, class);
    }
}

/// Walks back from `j` over the run of `class` that ends there, not going
/// below `lo`.
pub fn skip_run_back(s: &Vec<char>, lo: usize, j: usize, class: CharClass) -> (k: usize)
    requires
        lo <= j <= s.len(),
    ensures
        k == run_start(s@, lo as int, j as int, class),
        lo <= k <= j,
        forall|m: int| k <= m < j ==> class.holds(#[trigger] s@[m]),
        k > lo ==> !class.holds(s@[k - 1]),
{
    let mut k = j;
    while k > lo && class.test(s[k - 1])
        invariant
            lo <= k <= j <= s.len(),
            run_start(s@, lo as int, j as int, class) == run_start(s@, lo as int, k as int, class),
        decreases k - lo,
    {
        k -= 1;
    }
    proof {
        lemma_run_start(s@, lo as int, j as int, class);
    }
    k
}

/// Whether `pat` stands in `s` at `i`.
pub open spec fn has_at(s: Seq<char>, i: int, pat: Seq<char>) -> bool {
    0 <= i && i + pat.len() <= s.len() && s.subrange(i, i + pat.len()) == pat
}

/// Tests whether `pat` stands in `s` at `i`, below `hi`.
pub fn starts_with_at(s: &Vec<char>, i: usize, hi: usize, pat: &Vec<char>) -> (r: bool)
    requires
        i <= hi <= s.len(),
    ensures
        r == (i + pat.len() <= hi && has_at(s@, i as int, pat@)),
{
    if pat.len() > hi - i {
        return false;
    }
    let mut k: usize = 0;
    while k < pat.len()
        invariant
            k <= pat.len(),
            i + pat.len() <= hi <= s.len(),
            forall|m: int| 0 <= m < k ==> s@[i + m] == pat@[m],
        decreases pat.len() - k,
    {
        if s[i + k] != pat[k] {
            assert(s@.subrange(i as int, i + pat.len())[k as int] != pat@[k as int]);
            return false;
        }
        k += 1;
    }
    assert(s@.subrange(i as int, i + pat.len()) =~= pat@);
    true
}

/// Tests whether the characters from `a` to `b` are those of `pat`.
pub fn range_is(s: &Vec<char>, a: usize, b: usize, pat: &Vec<char>) -> (r: bool)
    requires
        a <= b <= s.len(),
    ensures
        r == (s@.subrange(a as int, b as int) == pat@),
{
    if b - a != pat.len() {
        assert(s@.subrange(a as int, b as int).len() != pat@.len());
        return false;
    }
    starts_with_at(s, a, b, pat)
}

/// The first position from `i` on, with `pat` wholly below `hi`, at which
/// the non-empty `pat` stands; `hi` if there is none.
pub open spec fn find_from(s: Seq<char>, i: int, hi: int, pat: Seq<char>) -> int
    decreases hi - i,
{
    if 0 <= i && pat.len() > 0 && i + pat.len() <= hi && hi <= s.len() {
        if has_at(s, i, pat) {
            i
        } else {
            find_from(s, i + 1, hi, pat)
        }
    } else {
        hi
    }
}

/// `find_from` gives a position from `i` to `hi`; below `hi` the pattern
/// stands there.
pub proof fn lemma_find_from(s: Seq<char>, i: int, hi: int, pat: Seq<char>)
    requires
        0 <= i <= hi <= s.len(),
    ensures
        i <= find_from(s, i, hi, pat) <= hi,
        find_from(s, i, hi, pat) < hi ==> has_at(s, find_from(s, i, hi, pat), pat) && find_from(
            s,
            i,
            hi,
            pat,
        ) + pat.len() <= hi,
    decreases hi - i,
{
    if pat.len() > 0 && i + pat.len() <= hi && !has_at(s, i, pat) {
        lemma_find_from(s, i + 1, hi, pat);
    }
}

/// Finds the first place from `i` on where `pat` stands wholly below `hi`.
pub fn find_pattern(s: &Vec<char>, i: usize, hi: usize, pat: &Vec<char>) -> (j: usize)
    requires
        i <= hi <= s.len(),
        pat.len() > 0,
    ensures
        j == find_from(s@, i as int, hi as int, pat@),
        i <= j <= hi,
        j < hi ==> has_at(s@, j as int, pat@) && j + pat.len() <= hi,
{
    let mut j = i;
    while pat.len() <= hi - j
        invariant
            i <= j <= hi <= s.len(),
            pat.len() > 0,
            find_from(s@, i as int, hi as int, pat@) == find_from(s@, j as int, hi as int, pat@),
        decreases hi - j,
    {
        if starts_with_at(s, j, hi, pat) {
            proof {
                lemma_find_from(s@, i as int, hi as int, pat@);
            }
            return j;
        }
        j += 1;
    }
    hi
}

/// Copies the characters from `a` to `b`.
pub fn slice_chars(s: &Vec<char>, a: usize, b: usize) -> (r: Vec<char>)
    requires
        a <= b <= s.len(),
    ensures
        r@ == s@.subrange(a as int, b as int),
{
    let mut out: Vec<char> = Vec::new();
    let mut k = a;
    while k < b
        invariant
            a <= k <= b <= s.len(),
            out@ == s@.subrange(a as int, k as int),
        decreases b - k,
    {
        out.push(s[k]);
        assert(s@.subrange(a as int, k + 1) =~= s@.subrange(a as int, k as int).push(s@[k as int]));
        k += 1;
    }
    out
}

/// The string made of the characters from `a` to `b`.
pub fn string_of(s: &Vec<char>, a: usize, b: usize) -> (r: String)
    requires
        a <= b <= s.len(),
    ensures
        r@ == s@.subrange(a as int, b as int),
{
    let mut out = String::new();
    let mut k = a;
    while k < b
        invariant
            a <= k <= b <= s.len(),
            out@ == s@.subrange(a as int, k as int),
        decreases b - k,
    {
        out.push(s[k]);
        assert(s@.subrange(a as int, k + 1) =~= s@.subrange(a as int, k as int).push(s@[k as int]));
        k += 1;
    }
    out
}

/// The characters of a string slice, in order.
pub fn chars_of(text: &str) -> (r: Vec<char>)
    ensures
        r@ == text@,
{
    let mut out: Vec<char> = Vec::new();
    for c in it: text.chars()
        invariant
            it.seq() == text@,
            out@ == it.seq().take(it.index()),
    {
        out.push(c);
        assert(it.seq().take(it.index() + 1) =~= it.seq().take(it.index()).push(c));
    }
    assert(out@ =~= text@);
    out
}

} // verus!
