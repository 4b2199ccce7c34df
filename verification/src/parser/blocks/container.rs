//! The container block: `:::kind{key="value" key2=value}`, blocks, `:::`.

use vstd::prelude::*;
use crate::ast::model::params_model;
use crate::parser::chars::{has_at, run_end, skip_run, starts_with_at, string_of, CharClass};
use crate::parser::lines::{indent, indent_of, lines_model};

verus! {

/// What stands where a `key=value` pair is looked for.
pub enum PairModel {
    /// No pair: the list ends here.
    Absent,
    /// A key and `=` with no value behind them: the whole block is refused.
    Broken,
    /// A pair: where its key runs from and to, where its value runs from and
    /// to, and where what follows begins.
    Pair { key_to: int, value_from: int, value_to: int, end: int },
}

/// The pair that starts at `q`. The key is a run of alphanumerics, `-` and
/// `_`. Spaces and tabs may stand around the `=`. The value stands between
/// double quotes, where it is not empty and holds no double quote, or is a
/// run of alphanumerics, `-` and `_`.
pub open spec fn pair_at(s: Seq<char>, q: int) -> PairModel {
    let len = s.len() as int;
    let kb = run_end(s, q, len, CharClass::Word);
    let e0 = run_end(s, kb, len, CharClass::Blank);
    if 0 <= q < kb && e0 < len && s[e0] == '=' {
        let v0 = run_end(s, e0 + 1, len, CharClass::Blank);
        let qe = run_end(s, v0 + 1, len, CharClass::IsNot('"'));
        let ue = run_end(s, v0, len, CharClass::Word);
        if v0 < len && s[v0] == '"' {
            if v0 + 1 < qe && qe < len {
                PairModel::Pair { key_to: kb, value_from: v0 + 1, value_to: qe, end: qe + 1 }
            } else {
                PairModel::Broken
            }
        } else if v0 < ue {
            PairModel::Pair { key_to: kb, value_from: v0, value_to: ue, end: ue }
        } else {
            PairModel::Broken
        }
    } else {
        PairModel::Absent
    }
}

/// What stands where a `key=value` pair is looked for.
pub enum Pair {
    Absent,
    Broken,
    Pair { key_to: usize, value_from: usize, value_to: usize, end: usize },
}

impl View for Pair {
    type V = PairModel;

    open spec fn view(&self) -> PairModel {
        match *self {
            Pair::Absent => PairModel::Absent,
            Pair::Broken => PairModel::Broken,
            Pair::Pair { key_to, value_from, value_to, end } => PairModel::Pair {
                key_to: key_to as int,
                value_from: value_from as int,
                value_to: value_to as int,
                end: end as int,
            },
        }
    }
}

/// Reads the pair that starts at `q`.
pub fn parse_key_value_pair(s: &Vec<char>, q: usize) -> (r: Pair)
    requires
        q <= s.len(),
    ensures
        r@ == pair_at(s@, q as int),
        r matches Pair::Pair { key_to, value_from, value_to, end } ==> q < key_to <= value_from
            <= value_to <= end <= s.len(),
{
    let len = s.len();
    let kb = skip_run(s, q, len, CharClass::Word);
    let e0 = skip_run(s, kb, len, CharClass::Blank);
    if q < kb && e0 < len && s[e0] == '=' {
        let v0 = skip_run(s, e0 + 1, len, CharClass::Blank);
        if v0 < len && s[v0] == '"' {
            let qe = skip_run(s, v0 + 1, len, CharClass::IsNot('"'));
            if v0 + 1 < qe && qe < len {
                Pair::Pair { key_to: kb, value_from: v0 + 1, value_to: qe, end: qe + 1 }
            } else {
                Pair::Broken
            }
        } else {
            let ue = skip_run(s, v0, len, CharClass::Word);
            if v0 < ue {
                Pair::Pair { key_to: kb, value_from: v0, value_to: ue, end: ue }
            } else {
                Pair::Broken
            }
        }
    } else {
        Pair::Absent
    }
}

/// The pairs read from `p` on after the pairs `acc`, and where the list
/// ends; `None` if a pair is broken. Whitespace separates the pairs, and
/// the list ends before the whitespace that no pair follows.
pub open spec fn params_from(
    s: Seq<char>,
    p: int,
    first: bool,
    acc: Seq<(Seq<char>, Seq<char>)>,
) -> Option<(Seq<(Seq<char>, Seq<char>)>, int)>
    decreases s.len() - p,
{
    if p < 0 || p > s.len() {
        Some((acc, p))
    } else {
        let sep = run_end(s, p, s.len() as int, CharClass::MultiSpace);
        if !first && sep == p {
            Some((acc, p))
        } else {
            let q = if first {
                p
            } else {
                sep
            };
            match pair_at(s, q) {
                PairModel::Absent => Some((acc, p)),
                PairModel::Broken => None,
                PairModel::Pair { key_to, value_from, value_to, end } => if p < end && end
                    <= s.len() {
                    params_from(
                        s,
                        end,
                        false,
                        acc.push((s.subrange(q, key_to), s.subrange(value_from, value_to))),
                    )
                } else {
                    Some((acc, p))
                },
            }
        }
    }
}

/// The parameter block that starts with the `{` at `p`, and where what
/// follows it begins: the pairs between braces, with whitespace allowed
/// inside the braces.
pub open spec fn params_at(s: Seq<char>, p: int) -> Option<(Seq<(Seq<char>, Seq<char>)>, int)> {
    let len = s.len() as int;
    if 0 <= p < len && s[p] == '{' {
        let b = run_end(s, p + 1, len, CharClass::MultiSpace);
        match params_from(s, b, true, Seq::empty()) {
            Some((pairs, e)) => {
                let c = run_end(s, e, len, CharClass::MultiSpace);
                if c < len && s[c] == '}' {
                    Some((pairs, c + 1))
                } else {
                    None
                }
            },
            None => None,
        }
    } else {
        None
    }
}

fn close_params(s: &Vec<char>, pairs: Vec<(String, String)>, e: usize) -> (r: Option<
    (Vec<(String, String)>, usize),
>)
    requires
        e <= s.len(),
    ensures
        match r {
            Some((out, end)) => out == pairs && end == run_end(
                s@,
                e as int,
                s.len() as int,
                CharClass::MultiSpace,
            ) + 1 && s@[end - 1] == '}' && e < end <= s.len(),
            None => {
                let c = run_end(s@, e as int, s.len() as int, CharClass::MultiSpace);
                !(c < s.len() && s@[c] == '}')
            },
        },
{
    let c = skip_run(s, e, s.len(), CharClass::MultiSpace);
    if c < s.len() && s[c] == '}' {
        Some((pairs, c + 1))
    } else {
        None
    }
}

/// Reads the parameter block that starts with the `{` at `p`.
pub fn parse_container_params(s: &Vec<char>, p: usize) -> (r: Option<(Vec<(String, String)>, usize)>)
    requires
        p <= s.len(),
    ensures
        match r {
            Some((pairs, e)) => params_at(s@, p as int) == Some((params_model(pairs@), e as int))
                && p < e <= s.len(),
            None => params_at(s@, p as int) is None,
        },
{
    let len = s.len();
    if p >= len || s[p] != '{' {
        return None;
    }
    let b = skip_run(s, p + 1, len, CharClass::MultiSpace);
    let mut acc: Vec<(String, String)> = Vec::new();
    let mut at = b;
    let mut first = true;
    assert(params_model(acc@) =~= Seq::empty());
    loop
        invariant
            b <= at <= s.len(),
            len == s.len(),
            p < b,
            p < len,
            s@[p as int] == '{',
            b == run_end(s@, p + 1, len as int, CharClass::MultiSpace),
            params_from(s@, b as int, true, Seq::empty()) == params_from(
                s@,
                at as int,
                first,
                params_model(acc@),
            ),
        decreases s.len() - at,
    {
        let sep = skip_run(s, at, len, CharClass::MultiSpace);
        if !first && sep == at {
            return close_params(s, acc, at);
        }
        let q = if first {
            at
        } else {
            sep
        };
        match parse_key_value_pair(s, q) {
            Pair::Absent => {
                return close_params(s, acc, at);
            },
            Pair::Broken => {
                return None;
            },
            Pair::Pair { key_to, value_from, value_to, end } => {
                let key = string_of(s, q, key_to);
                let value = string_of(s, value_from, value_to);
                let ghost before = acc@;
                acc.push((key, value));
                assert(params_model(acc@) =~= params_model(before).push((key@, value@)));
                at = end;
                first = false;
            },
        }
    }
}

pub open spec fn colons() -> Seq<char> {
    seq![':', ':', ':']
}

/// Model of the line that opens a container.
pub struct ContainerOpenModel {
    pub kind: Seq<char>,
    pub params: Seq<(Seq<char>, Seq<char>)>,
}

/// The container that the line opens: after at most three spaces, `:::`,
/// the kind, which is not empty and holds neither `{` nor whitespace, and a
/// parameter block if one follows after spaces or tabs. Whatever else the
/// line holds is whitespace.
pub open spec fn container_open(l: Seq<char>) -> Option<ContainerOpenModel> {
    let len = l.len() as int;
    let a = indent_of(l);
    let k0 = a + 3;
    let ke = run_end(l, k0, len, CharClass::KindChar);
    let r0 = run_end(l, ke, len, CharClass::Blank);
    if a <= 3 && has_at(l, a, colons()) && k0 < ke {
        if r0 < len && l[r0] == '{' {
            match params_at(l, r0) {
                Some((params, e)) => if run_end(l, e, len, CharClass::Whitespace) >= len {
                    Some(ContainerOpenModel { kind: l.subrange(k0, ke), params })
                } else {
                    None
                },
                None => None,
            }
        } else if run_end(l, r0, len, CharClass::Whitespace) >= len {
            Some(ContainerOpenModel { kind: l.subrange(k0, ke), params: Seq::empty() })
        } else {
            None
        }
    } else {
        None
    }
}

/// The line that opens a container.
pub struct ContainerOpen {
    pub kind: String,
    pub params: Vec<(String, String)>,
}

impl View for ContainerOpen {
    type V = ContainerOpenModel;

    open spec fn view(&self) -> ContainerOpenModel {
        ContainerOpenModel { kind: self.kind@, params: params_model(self.params@) }
    }
}

/// Reads the line as the opening of a container.
pub fn read_container_open(l: &Vec<char>) -> (r: Option<ContainerOpen>)
    ensures
        match r {
            Some(o) => container_open(l@) == Some(o@),
            None => container_open(l@) is None,
        },
{
    let len = l.len();
    let a = indent(l);
    let pat = vec![':', ':', ':'];
    assert(pat@ =~= colons());
    if a > 3 || !starts_with_at(l, a, len, &pat) {
        return None;
    }
    let k0 = a + 3;
    let ke = skip_run(l, k0, len, CharClass::KindChar);
    if k0 >= ke {
        return None;
    }
    let r0 = skip_run(l, ke, len, CharClass::Blank);
    if r0 < len && l[r0] == '{' {
        match parse_container_params(l, r0) {
            Some((params, e)) => {
                if skip_run(l, e, len, CharClass::Whitespace) >= len {
                    Some(ContainerOpen { kind: string_of(l, k0, ke), params })
                } else {
                    None
                }
            },
            None => None,
        }
    } else if skip_run(l, r0, len, CharClass::Whitespace) >= len {
        let params: Vec<(String, String)> = Vec::new();
        assert(params_model(params@) =~= Seq::empty());
        Some(ContainerOpen { kind: string_of(l, k0, ke), params })
    } else {
        None
    }
}

/// Whether the line closes a container: at most three spaces, and then
/// exactly `:::`.
pub open spec fn is_container_close(l: Seq<char>) -> bool {
    let a = indent_of(l);
    a <= 3 && l.len() == a + 3 && has_at(l, a, colons())
}

/// The first line from `k` on that closes a container, or the number of
/// lines.
pub open spec fn container_close(lines: Seq<Seq<char>>, k: int) -> int
    decreases lines.len() - k,
{
    if k < 0 || k >= lines.len() {
        lines.len() as int
    } else if is_container_close(lines[k]) {
        k
    } else {
        container_close(lines, k + 1)
    }
}

fn closes_container(l: &Vec<char>) -> (r: bool)
    ensures
        r == is_container_close(l@),
{
    let a = indent(l);
    let pat = vec![':', ':', ':'];
    assert(pat@ =~= colons());
    a <= 3 && l.len() - a == 3 && starts_with_at(l, a, l.len(), &pat)
}

/// Finds the first line from `start` on that closes a container.
pub fn find_container_close(lines: &Vec<Vec<char>>, start: usize) -> (k: usize)
    requires
        start <= lines.len(),
    ensures
        k == container_close(lines_model(lines@), start as int),
        start <= k <= lines.len(),
{
    let mut k = start;
    while k < lines.len()
        invariant
            start <= k <= lines.len(),
            container_close(lines_model(lines@), start as int) == container_close(
                lines_model(lines@),
                k as int,
            ),
        decreases lines.len() - k,
    {
        if closes_container(&lines[k]) {
            return k;
        }
        k += 1;
    }
    k
}

/// The container that starts at line `i`: what its first line says, and
/// the line that closes it. Within a container no container starts; and
/// none starts without a closing line.
pub open spec fn container_shape(lines: Seq<Seq<char>>, i: int, guarded: bool) -> Option<
    (ContainerOpenModel, int),
> {
    if guarded {
        None
    } else {
        match container_open(lines[i]) {
            Some(o) => {
                let c = container_close(lines, i + 1);
                if c < lines.len() {
                    Some((o, c))
                } else {
                    None
                }
            },
            None => None,
        }
    }
}

/// Reads the first line of the container that starts at line `i` and finds
/// the line that closes it.
pub fn read_container_shape(lines: &Vec<Vec<char>>, i: usize, guarded: bool) -> (r: Option<
    (ContainerOpen, usize),
>)
    requires
        i < lines.len(),
    ensures
        match r {
            Some((o, c)) => container_shape(lines_model(lines@), i as int, guarded) == Some(
                (o@, c as int),
            ) && i < c < lines.len(),
            None => container_shape(lines_model(lines@), i as int, guarded) is None,
        },
{
    if guarded {
        return None;
    }
    match read_container_open(&lines[i]) {
        Some(o) => {
            let c = find_container_close(lines, i + 1);
            if c < lines.len() {
                Some((o, c))
            } else {
                None
            }
        },
        None => None,
    }
}

} // verus!
