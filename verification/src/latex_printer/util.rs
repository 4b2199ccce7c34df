//! Escaping of text for LaTeX, and the documents of environments and
//! commands.

use vstd::prelude::*;
use vstd::string::StringExecFns;
use crate::latex_printer::config::Config;
use crate::doc::{
    all_text, all_well_formed, append, concat, hardline, lemma_all_push, one_line, render, text,
    Doc,
};

verus! {

/// What a character becomes in LaTeX. The ten characters that LaTeX gives
/// a meaning are written so that they print as themselves; every other
/// character is itself.
pub open spec fn escape_char(c: char) -> Seq<char> {
    if c == '\\' {
        "\\textbackslash{}"@
    } else if c == '{' {
        "\\{"@
    } else if c == '}' {
        "\\}"@
    } else if c == '$' {
        "\\$"@
    } else if c == '&' {
        "\\&"@
    } else if c == '%' {
        "\\%"@
    } else if c == '#' {
        "\\#"@
    } else if c == '^' {
        "\\textasciicircum{}"@
    } else if c == '_' {
        "\\_"@
    } else if c == '~' {
        "\\textasciitilde{}"@
    } else {
        seq![c]
    }
}

/// What a text becomes in LaTeX: each character as [`escape_char`] says,
/// in order.
pub open spec fn escaped(s: Seq<char>) -> Seq<char>
    decreases s.len(),
{
    if s.len() == 0 {
        Seq::empty()
    } else {
        escaped(s.drop_last()) + escape_char(s.last())
    }
}

/// Escaping goes through a text piece by piece.
pub proof fn lemma_escaped_concat(a: Seq<char>, b: Seq<char>)
    ensures
        escaped(a + b) == escaped(a) + escaped(b),
    decreases b.len(),
{
    if b.len() == 0 {
        assert(a + b =~= a);
        assert(escaped(a) + escaped(b) =~= escaped(a));
    } else {
        lemma_escaped_concat(a, b.drop_last());
        assert((a + b).drop_last() =~= a + b.drop_last());
        assert((a + b).last() == b.last());
        assert(escaped(a) + (escaped(b.drop_last()) + escape_char(b.last())) =~= (escaped(a)
            + escaped(b.drop_last())) + escape_char(b.last()));
    }
}

fn push_escaped(out: &mut String, c: char)
    ensures
        final(out)@ == old(out)@ + escape_char(c),
{
    if c == '\\' {
        out.append("\\textbackslash{}");
    } else if c == '{' {
        out.append("\\{");
    } else if c == '}' {
        out.append("\\}");
    } else if c == '$' {
        out.append("\\$");
    } else if c == '&' {
        out.append("\\&");
    } else if c == '%' {
        out.append("\\%");
    } else if c == '#' {
        out.append("\\#");
    } else if c == '^' {
        out.append("\\textasciicircum{}");
    } else if c == '_' {
        out.append("\\_");
    } else if c == '~' {
        out.append("\\textasciitilde{}");
    } else {
        out.push(c);
        assert(old(out)@.push(c) =~= old(out)@ + seq![c]);
    }
}

/// Escapes the characters that LaTeX gives a meaning: `\`, `{`, `}`, `$`,
/// `&`, `%`, `#`, `^`, `_` and `~`.
pub fn escape_latex(text: &str) -> (r: String)
    ensures
        r@ == escaped(text@),
{
    let mut out = String::new();
    for c in it: text.chars()
        invariant
            it.seq() == text@,
            out@ == escaped(it.seq().take(it.index())),
    {
        let ghost done = it.seq().take(it.index());
        push_escaped(&mut out, c);
        proof {
            let next = it.seq().take(it.index() + 1);
            assert(next.drop_last() =~= done);
            assert(next.last() == c);
        }
    }
    assert(text@.take(text@.len() as int) =~= text@);
    out
}

/// What an environment prints: `\begin{name}`, the options between square
/// brackets if there are any, the content on lines of its own, and
/// `\end{name}`.
pub open spec fn environment_text(
    name: Seq<char>,
    options: Option<Seq<char>>,
    content: Seq<char>,
) -> Seq<char> {
    "\\begin{"@ + name + "}"@ + (match options {
        Some(o) => "["@ + o + "]"@,
        None => Seq::empty(),
    }) + seq!['\n'] + content + seq!['\n'] + "\\end{"@ + name + "}"@
}

/// The document of a LaTeX environment around `content`. Where neither
/// the name nor the options hold a line feed, it leaves the layout as
/// little choice as `content` does.
pub fn environment(
    name: &str,
    options: Option<&str>,
    content: Doc,
) -> (r: Doc)
    ensures
        r.text() == environment_text(
            name@,
            match options {
                Some(o) => Some(o@),
                None => None,
            },
            content.text(),
        ),
        one_line(name@) && (options matches Some(o) ==> one_line(o@)) ==> r.well_formed()
            == content.well_formed(),
{
    proof {
        reveal_strlit("\\begin{");
        reveal_strlit("\\end{");
        reveal_strlit("}");
        reveal_strlit("[");
        reveal_strlit("]");
    }
    let mut begin = String::from_str("\\begin{");
    begin.append(name);
    begin.append("}");
    match options {
        Some(o) => {
            begin.append("[");
            begin.append(o);
            begin.append("]");
        },
        None => {},
    }
    let mut end = String::from_str("\\end{");
    end.append(name);
    end.append("}");
    let ghost head = begin@;
    let ghost tail = end@;
    let doc = append(
        append(append(append(text(begin), hardline()), content), hardline()),
        text(end),
    );
    assert(doc.text() =~= environment_text(
        name@,
        match options {
            Some(o) => Some(o@),
            None => None,
        },
        content.text(),
    ));
    doc
}

/// The arguments of a command, each between square brackets, from `i`
/// on.
pub open spec fn arguments_text(args: Seq<Seq<char>>, i: int) -> Seq<char>
    decreases args.len() - i,
{
    if i < 0 || i >= args.len() {
        Seq::empty()
    } else {
        "["@ + args[i] + "]"@ + arguments_text(args, i + 1)
    }
}

/// What a command prints: a backslash and the name, the arguments between
/// square brackets, and the content between braces.
pub open spec fn command_text(name: Seq<char>, args: Seq<Seq<char>>, content: Seq<char>) -> Seq<
    char,
> {
    seq!['\\'] + name + arguments_text(args, 0) + "{"@ + content + "}"@
}

/// The arguments as sequences of characters.
pub open spec fn argument_views(args: Seq<&str>) -> Seq<Seq<char>> {
    Seq::new(args.len(), |k: int| args[k]@)
}

/// The document of a LaTeX command around `content`. Where neither the
/// name nor an argument holds a line feed, it leaves the layout as little
/// choice as `content` does.
pub fn command(name: &str, args: &[&str], content: Doc) -> (r: Doc)
    ensures
        r.text() == command_text(name@, argument_views(args@), content.text()),
        one_line(name@) && (forall|k: int| 0 <= k < args.len() ==> one_line(#[trigger] args@[k]@))
            ==> r.well_formed() == content.well_formed(),
{
    proof {
        reveal_strlit("\\");
        reveal_strlit("{");
        reveal_strlit("}");
        reveal_strlit("[");
        reveal_strlit("]");
    }
    let mut head = String::from_str("\\");
    head.append(name);
    assert(head@ =~= seq!['\\'] + name@);
    let first = text(head);
    let ghost views = argument_views(args@);
    let ghost plain = forall|j: int| 0 <= j < args.len() ==> one_line(#[trigger] args@[j]@);
    let mut parts: Vec<Doc> = Vec::new();
    let mut k: usize = 0;
    assert(all_text(parts@) + arguments_text(views, 0) =~= arguments_text(views, 0));
    while k < args.len()
        invariant
            k <= args.len(),
            views == argument_views(args@),
            plain == (forall|j: int| 0 <= j < args.len() ==> one_line(#[trigger] args@[j]@)),
            plain ==> all_well_formed(parts@),
            all_text(parts@) + arguments_text(views, k as int) == arguments_text(views, 0),
        decreases args.len() - k,
    {
        proof {
            reveal_strlit("[");
            reveal_strlit("]");
        }
        let mut arg = String::from_str("[");
        arg.append(args[k]);
        arg.append("]");
        assert(plain ==> one_line(args@[k as int]@));
        let ghost before = parts@;
        let next = text(arg);
        parts.push(next);
        proof {
            lemma_all_push(before, next);
            assert(all_text(parts@) + arguments_text(views, k + 1) =~= all_text(before) + ("["@
                + views[k as int] + "]"@ + arguments_text(views, k + 1)));
        }
        k += 1;
    }
    assert(all_text(parts@) + Seq::<char>::empty() =~= all_text(parts@));
    let doc = append(
        append(append(append(first, concat(parts)), text(String::from_str("{"))), content),
        text(String::from_str("}")),
    );
    assert(doc.text() =~= command_text(name@, views, content.text()));
    doc
}

/// Prints a document at the width of the configuration. A document that
/// leaves the layout no choice prints the same at every width.
pub fn render_doc(doc: &Doc, config: &Config) -> (r: String)
    ensures
        r@ == crate::doc::typeset(doc.tokens(), config.width),
        doc.well_formed() ==> r@ == doc.text(),
{
    render(doc, config.width)
}

} // verus!
