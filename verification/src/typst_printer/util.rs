//! What the Typst printer writes strings and function calls with.

use vstd::prelude::*;
use vstd::string::StringExecFns;
use crate::doc::{append, text, Doc, Token};

verus! {

/// What a character becomes inside Typst markup and strings: `\`, `"`,
/// `*` and `_` get a backslash before them; tab, line feed and carriage
/// return are written as `\t`, `\n` and `\r`; every other character is
/// itself.
pub open spec fn typst_char(c: char) -> Seq<char> {
    if c == '\\' {
        "\\\\"@
    } else if c == '"' {
        "\\\""@
    } else if c == '*' {
        "\\*"@
    } else if c == '_' {
        "\\_"@
    } else if c == '\t' {
        "\\t"@
    } else if c == '\n' {
        "\\n"@
    } else if c == '\r' {
        "\\r"@
    } else {
        seq![c]
    }
}

/// What a character becomes inside a quoted code string: `\` and `"` get
/// a backslash before them; every other character is itself.
pub open spec fn quoted_char(c: char) -> Seq<char> {
    if c == '\\' {
        "\\\\"@
    } else if c == '"' {
        "\\\""@
    } else {
        seq![c]
    }
}

/// The text with each character replaced as `f` says.
pub open spec fn replaced(s: Seq<char>, f: spec_fn(char) -> Seq<char>) -> Seq<char>
    decreases s.len(),
{
    if s.len() == 0 {
        Seq::empty()
    } else {
        replaced(s.drop_last(), f) + f(s.last())
    }
}

/// A text as it stands inside Typst markup and strings.
pub open spec fn typst_escaped(s: Seq<char>) -> Seq<char> {
    replaced(s, |c: char| typst_char(c))
}

/// A text as it stands inside a quoted code string.
pub open spec fn quoted(s: Seq<char>) -> Seq<char> {
    replaced(s, |c: char| quoted_char(c))
}

fn push_typst_char(out: &mut String, c: char)
    ensures
        final(out)@ == old(out)@ + typst_char(c),
{
    if c == '\\' {
        out.append("\\\\");
    } else if c == '"' {
        out.append("\\\"");
    } else if c == '*' {
        out.append("\\*");
    } else if c == '_' {
        out.append("\\_");
    } else if c == '\t' {
        out.append("\\t");
    } else if c == '\n' {
        out.append("\\n");
    } else if c == '\r' {
        out.append("\\r");
    } else {
        out.push(c);
        assert(old(out)@.push(c) =~= old(out)@ + seq![c]);
    }
}

/// Escapes a text for Typst markup and strings.
pub fn escape_typst(text: &str) -> (r: String)
    ensures
        r@ == typst_escaped(text@),
{
    let mut out = String::new();
    for c in it: text.chars()
        invariant
            it.seq() == text@,
            out@ == typst_escaped(it.seq().take(it.index())),
    {
        let ghost done = it.seq().take(it.index());
        push_typst_char(&mut out, c);
        proof {
            let next = it.seq().take(it.index() + 1);
            assert(next.drop_last() =~= done);
            assert(next.last() == c);
        }
    }
    assert(text@.take(text@.len() as int) =~= text@);
    out
}

/// Escapes a text for a quoted code string.
pub fn escape_quoted(text: &str) -> (r: String)
    ensures
        r@ == quoted(text@),
{
    let mut out = String::new();
    for c in it: text.chars()
        invariant
            it.seq() == text@,
            out@ == quoted(it.seq().take(it.index())),
    {
        let ghost done = it.seq().take(it.index());
        let ghost before = out@;
        if c == '\\' {
            out.append("\\\\");
        } else if c == '"' {
            out.append("\\\"");
        } else {
            out.push(c);
            assert(before.push(c) =~= before + seq![c]);
        }
        proof {
            let next = it.seq().take(it.index() + 1);
            assert(next.drop_last() =~= done);
            assert(next.last() == c);
        }
    }
    assert(text@.take(text@.len() as int) =~= text@);
    out
}

/// The character that writes a digit.
pub open spec fn digit_char(d: nat) -> char {
    if d == 0 {
        '0'
    } else if d == 1 {
        '1'
    } else if d == 2 {
        '2'
    } else if d == 3 {
        '3'
    } else if d == 4 {
        '4'
    } else if d == 5 {
        '5'
    } else if d == 6 {
        '6'
    } else if d == 7 {
        '7'
    } else if d == 8 {
        '8'
    } else {
        '9'
    }
}

/// A number in decimal digits.
pub open spec fn decimal(n: nat) -> Seq<char>
    decreases n,
{
    if n < 10 {
        seq![digit_char(n)]
    } else {
        decimal(n / 10) + seq![digit_char(n % 10)]
    }
}

fn digit(d: usize) -> (c: char)
    requires
        d < 10,
    ensures
        c == digit_char(d as nat),
{
    if d == 0 {
        '0'
    } else if d == 1 {
        '1'
    } else if d == 2 {
        '2'
    } else if d == 3 {
        '3'
    } else if d == 4 {
        '4'
    } else if d == 5 {
        '5'
    } else if d == 6 {
        '6'
    } else if d == 7 {
        '7'
    } else if d == 8 {
        '8'
    } else {
        '9'
    }
}

/// Writes a number in decimal digits.
pub fn write_decimal(n: usize) -> (r: String)
    ensures
        r@ == decimal(n as nat),
    decreases n,
{
    if n < 10 {
        let mut out = String::new();
        out.push(digit(n));
        assert(out@ =~= seq![digit_char(n as nat)]);
        out
    } else {
        let mut out = write_decimal(n / 10);
        out.push(digit(n % 10));
        assert(out@ =~= decimal((n / 10) as nat) + seq![digit_char((n % 10) as nat)]);
        out
    }
}

/// The one token of a text.
pub open spec fn word(s: Seq<char>) -> Seq<Token> {
    seq![Token::Text(s)]
}

/// A Typst function call: `#name`, the arguments between parentheses if
/// there are any, and the content between brackets if there is any.
pub open spec fn call_tokens(
    name: Seq<char>,
    args: Option<Seq<Token>>,
    content: Option<Seq<Token>>,
) -> Seq<Token> {
    word("#"@ + name) + (match args {
        Some(a) => word("("@) + a + word(")"@),
        None => Seq::empty(),
    }) + (match content {
        Some(c) => word("["@) + c + word("]"@),
        None => Seq::empty(),
    })
}

/// The tokens of an optional document.
pub open spec fn opt_tokens(d: Option<Doc>) -> Option<Seq<Token>> {
    match d {
        Some(x) => Some(x.tokens()),
        None => None,
    }
}

/// The document of a Typst function call.
pub fn body(name: &str, args: Option<Doc>, content: Option<Doc>) -> (r: Doc)
    ensures
        r.tokens() == call_tokens(name@, opt_tokens(args), opt_tokens(content)),
{
    let mut head = String::from_str("#");
    head.append(name);
    let mut doc = text(head);
    let ghost start = doc.tokens();
    assert(start =~= word("#"@ + name@));
    match args {
        Some(a) => {
            let ghost inner = a.tokens();
            doc = append(
                append(append(doc, text(String::from_str("("))), a),
                text(String::from_str(")")),
            );
            assert(doc.tokens() =~= start + (word("("@) + inner + word(")"@)));
        },
        None => {
            assert(doc.tokens() =~= start + Seq::<Token>::empty());
        },
    }
    let ghost mid = doc.tokens();
    match content {
        Some(c) => {
            let ghost inner = c.tokens();
            doc = append(
                append(append(doc, text(String::from_str("["))), c),
                text(String::from_str("]")),
            );
            assert(doc.tokens() =~= mid + (word("["@) + inner + word("]"@)));
        },
        None => {
            assert(doc.tokens() =~= mid + Seq::<Token>::empty());
        },
    }
    doc
}

/// The document of a text put together from three parts.
pub fn text3(a: &str, b: &str, c: &str) -> (r: Doc)
    ensures
        r.tokens() == word(a@ + b@ + c@),
{
    let mut s = String::from_str(a);
    s.append(b);
    s.append(c);
    text(s)
}

} // verus!
