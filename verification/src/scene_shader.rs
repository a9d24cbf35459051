//! Specialisation of the native performance shader before it reaches the
//! driver: a held scene compiles only its own code, and a Tron collection
//! compiles only the two looks it blends. The shader source is checked-in
//! text handed in by the caller; these functions state exactly what text
//! comes out, and on which sources they apply.
use vstd::prelude::*;

use crate::scan::{
    append_all, append_range, back_white_exec, block_end, block_end_checked, find_exec, find_from, has_function,
    lemma_block_scan, lemma_find_from, lemma_white_bounds, parse_u32, parse_u32_exec, replace_all,
    has_function_exec, replace_all_exec, skip_white, skip_white_exec, slice, spec_block_end, spec_function,
    spec_replace_body, trim, trim_end, trim_exec,
};
use crate::text::{decimal_digits, has_prefix, occurs_at, spec_contains};

verus! {

/// The two-dimensional Tron looks, in chapter order.
pub open spec fn two_d_looks() -> Seq<u32> {
    seq![4, 5, 7, 10, 11, 12, 13, 14, 15]
}

/// The three-dimensional Tron looks, in chapter order.
pub open spec fn three_d_looks() -> Seq<u32> {
    seq![0, 1, 2, 3, 6, 8, 9]
}

pub open spec fn spec_variant(index: u32, dimension: u32) -> u32 {
    if dimension == 1 {
        two_d_looks()[(index % 9) as int]
    } else if dimension == 2 {
        three_d_looks()[(index % 7) as int]
    } else {
        index % 16
    }
}

/// The Tron looks with depth.
pub open spec fn is_deep_look(look: u32) -> bool {
    look == 0 || look == 1 || look == 2 || look == 3 || look == 6 || look == 8 || look == 9
}

/// The flat Tron looks: the other nine of the sixteen.
pub open spec fn is_flat_look(look: u32) -> bool {
    look == 4 || look == 5 || look == 7 || (10 <= look && look <= 15)
}

/// A collection restricted to the deep looks shows each of the seven in
/// turn, in ascending order, and then starts over: every chapter is a deep
/// look, each chapter's look is above the previous one's within a round of
/// seven, and chapter `i + 7` repeats chapter `i`. A collection of flat
/// looks does the same with the nine flat looks, and an unrestricted one
/// cycles through all sixteen.
pub proof fn law_collections_cycle_through_their_looks(index: u32)
    ensures
        is_deep_look(spec_variant(index, 2)),
        index < u32::MAX && index % 7 < 6 ==> spec_variant(index, 2) < spec_variant((index + 1) as u32, 2),
        index >= 7 ==> spec_variant(index, 2) == spec_variant((index - 7) as u32, 2),
        is_flat_look(spec_variant(index, 1)),
        index < u32::MAX && index % 9 < 8 ==> spec_variant(index, 1) < spec_variant((index + 1) as u32, 1),
        index >= 9 ==> spec_variant(index, 1) == spec_variant((index - 9) as u32, 1),
        forall|dimension: u32|
            dimension != 1 && dimension != 2 ==> #[trigger] spec_variant(index, dimension) == index
                % 16,
{
    let d = three_d_looks();
    let f = two_d_looks();
    assert(d[0] == 0 && d[1] == 1 && d[2] == 2 && d[3] == 3 && d[4] == 6 && d[5] == 8 && d[6]
        == 9);
    assert(f[0] == 4 && f[1] == 5 && f[2] == 7 && f[3] == 10 && f[4] == 11 && f[5] == 12 && f[6]
        == 13 && f[7] == 14 && f[8] == 15);
    if index < u32::MAX && index % 7 < 6 {
        assert((index + 1) % 7 == index % 7 + 1);
    }
    if index >= 7 {
        assert((index - 7) % 7 == index % 7);
    }
    if index < u32::MAX && index % 9 < 8 {
        assert((index + 1) % 9 == index % 9 + 1);
    }
    if index >= 9 {
        assert((index - 9) % 9 == index % 9);
    }
}

/// The Tron look shown in chapter `index` of a collection restricted to a
/// dimension (1: flat looks, 2: deep looks, otherwise all sixteen).
pub fn variant(index: u32, dimension: u32) -> (r: u32)
    ensures
        r == spec_variant(index, dimension),
        r < 16,
{
    if dimension == 1 {
        let looks: [u32; 9] = [4, 5, 7, 10, 11, 12, 13, 14, 15];
        proof {
            assert(looks@ =~= two_d_looks());
        }
        looks[(index % 9) as usize]
    } else if dimension == 2 {
        let looks: [u32; 7] = [0, 1, 2, 3, 6, 8, 9];
        proof {
            assert(looks@ =~= three_d_looks());
        }
        looks[(index % 7) as usize]
    } else {
        index % 16
    }
}

/// The code of a line: the part before its first `//`.
pub open spec fn line_code(line: Seq<char>) -> Seq<char> {
    let c = find_from(line, "//"@, 0);
    if c >= 0 {
        line.subrange(0, c)
    } else {
        line
    }
}

/// The lines of `s` from `from` on, each cut at its first `//`, joined by
/// newlines: lines end at `\n`, a `\r` before that `\n` is dropped, and a
/// final newline does not start another line.
pub open spec fn strip_comments_from(s: Seq<char>, from: int) -> Seq<char>
    decreases s.len() - from,
{
    if from < 0 || from >= s.len() {
        Seq::empty()
    } else {
        let nl = find_from(s, "\n"@, from);
        if nl < 0 {
            line_code(s.subrange(from, s.len() as int))
        } else {
            proof {
                lemma_find_from(s, "\n"@, from);
            }
            let raw = s.subrange(from, nl);
            let line = if raw.len() > 0 && raw.last() == '\r' {
                raw.drop_last()
            } else {
                raw
            };
            line_code(line) + if nl + 1 < s.len() {
                "\n"@ + strip_comments_from(s, nl + 1)
            } else {
                Seq::empty()
            }
        }
    }
}

/// The source without line comments.
pub open spec fn strip_comments(s: Seq<char>) -> Seq<char> {
    strip_comments_from(s, 0)
}

fn chars(text: &str) -> (r: Vec<char>)
    ensures
        r@ == text@,
{
    crate::text::chars_of(text)
}

fn code_of_line(line: &Vec<char>) -> (r: Vec<char>)
    ensures
        r@ == line_code(line@),
{
    let marker = chars("//");
    proof {
        reveal_strlit("//");
    }
    match find_exec(line, &marker, 0) {
        Some(c) => {
            proof {
                lemma_find_from(line@, marker@, 0);
            }
            slice(line, 0, c)
        },
        None => slice(line, 0, line.len()),
    }
}

/// The source without line comments.
pub fn strip_comments_exec(source: &Vec<char>) -> (r: Vec<char>)
    ensures
        r@ == strip_comments(source@),
{
    let newline = chars("\n");
    proof {
        reveal_strlit("\n");
    }
    let mut out: Vec<char> = Vec::new();
    let mut from: usize = 0;
    while from < source.len()
        invariant
            newline@ == "\n"@,
            newline@ == seq!['\n'],
            from <= source@.len(),
            out@ + strip_comments_from(source@, from as int) == strip_comments(source@),
        decreases source@.len() - from,
    {
        proof {
            lemma_find_from(source@, newline@, from as int);
        }
        match find_exec(source, &newline, from) {
            Some(nl) => {
                let mut line = slice(source, from, nl);
                let n = line.len();
                if n > 0 && line[n - 1] == '\r' {
                    line.pop();
                }
                let code = code_of_line(&line);
                let ghost before = out@;
                append_all(&mut out, &code);
                if nl + 1 < source.len() {
                    out.push('\n');
                    proof {
                        assert(out@ + strip_comments_from(source@, nl + 1) =~= before + (code@ + (
                        "\n"@ + strip_comments_from(source@, nl + 1))));
                    }
                    from = nl + 1;
                } else {
                    proof {
                        assert(out@ =~= before + (code@ + Seq::<char>::empty()));
                    }
                    return out;
                }
            },
            None => {
                let line = slice(source, from, source.len());
                let code = code_of_line(&line);
                append_all(&mut out, &code);
                return out;
            },
        }
    }
    out
}

/// The end of `s[..j]` once trailing `c` characters are removed.
pub open spec fn back_char(s: Seq<char>, j: int, c: char) -> int
    decreases j,
{
    if j <= 0 || j > s.len() {
        0
    } else if s[j - 1] == c {
        back_char(s, j - 1, c)
    } else {
        j
    }
}

/// The number of a clause `look == N` (a trailing `u` suffix allowed).
pub open spec fn clause_value(clause: Seq<char>) -> Option<u32> {
    if has_prefix(clause, "look == "@) {
        let rest = clause.subrange("look == "@.len() as int, clause.len() as int);
        parse_u32(rest.subrange(0, back_char(rest, rest.len() as int, 'u')))
    } else {
        None
    }
}

/// Whether a condition `look == A || look == B ...` names `look`, reading
/// clauses from `from` until one matches; `None` where a clause is not of
/// that form.
pub open spec fn any_clause(cond: Seq<char>, look: u32, from: int) -> Option<bool>
    decreases cond.len() + 1 - from,
{
    if from < 0 || from > cond.len() {
        None
    } else {
        let sep = find_from(cond, " || "@, from);
        let clause = if sep < 0 {
            cond.subrange(from, cond.len() as int)
        } else {
            cond.subrange(from, sep)
        };
        match clause_value(clause) {
            None => None,
            Some(v) => if v == look {
                Some(true)
            } else if sep < 0 {
                Some(false)
            } else {
                proof {
                    lemma_find_from(cond, " || "@, from);
                    reveal_strlit(" || ");
                }
                any_clause(cond, look, sep + " || "@.len())
            },
        }
    }
}

fn back_char_exec(s: &Vec<char>, c: char) -> (r: usize)
    ensures
        r == back_char(s@, s@.len() as int, c),
        r <= s@.len(),
{
    let mut k = s.len();
    while k > 0 && s[k - 1] == c
        invariant
            k <= s@.len(),
            back_char(s@, s@.len() as int, c) == back_char(s@, k as int, c),
        decreases k,
    {
        k = k - 1;
    }
    k
}

fn clause_value_exec(clause: &Vec<char>) -> (r: Option<u32>)
    ensures
        r == clause_value(clause@),
{
    let prefix = chars("look == ");
    proof {
        reveal_strlit("look == ");
    }
    if !crate::text::starts_with(clause, "look == ") {
        return None;
    }
    let rest = slice(clause, prefix.len(), clause.len());
    let end = back_char_exec(&rest, 'u');
    let digits = slice(&rest, 0, end);
    parse_u32_exec(&digits)
}

/// Whether the condition names `look`; `None` where it is malformed.
pub fn any_clause_exec(cond: &Vec<char>, look: u32) -> (r: Option<bool>)
    ensures
        r == any_clause(cond@, look, 0),
{
    let sep_text = chars(" || ");
    proof {
        reveal_strlit(" || ");
    }
    let mut from: usize = 0;
    loop
        invariant
            sep_text@ == " || "@,
            sep_text@.len() == 4,
            from <= cond@.len(),
            any_clause(cond@, look, from as int) == any_clause(cond@, look, 0),
        decreases cond@.len() + 1 - from,
    {
        proof {
            lemma_find_from(cond@, sep_text@, from as int);
        }
        let found = find_exec(cond, &sep_text, from);
        let clause = match found {
            Some(sep) => slice(cond, from, sep),
            None => slice(cond, from, cond.len()),
        };
        match clause_value_exec(&clause) {
            None => {
                return None;
            },
            Some(v) => {
                if v == look {
                    return Some(true);
                }
                match found {
                    None => {
                        return Some(false);
                    },
                    Some(sep) => {
                        let total = cond.len();
                        assert(sep + 4 <= total);
                        from = sep + 4;
                    },
                }
            },
        }
    }
}

/// The `if look == ...` chain at `cursor`: where it ends and which block it
/// selects for `look` (the first matching branch, else the `else` block),
/// or `None` where the chain is malformed.
pub open spec fn chain(s: Seq<char>, cursor: int, look: u32, sel: Option<(int, int)>) -> Option<
    (int, Option<(int, int)>),
>
    decreases s.len() - cursor,
{
    if cursor < 0 || cursor > s.len() {
        None
    } else {
        let opening = find_from(s, "{"@, cursor);
        if opening < 0 || opening < cursor + 3 {
            None
        } else {
            match any_clause(trim(s.subrange(cursor + 3, opening)), look, 0) {
                None => None,
                Some(m) => {
                    let end = spec_block_end(s, opening);
                    if end < 0 {
                        None
                    } else {
                        let chosen = if m && sel is None {
                            Some((opening, end))
                        } else {
                            sel
                        };
                        let tail = s.subrange(end, s.len() as int);
                        let ws = skip_white(tail, 0);
                        let rest = tail.subrange(ws, tail.len() as int);
                        if has_prefix(rest, "else if look == "@) {
                            proof {
                                lemma_block_scan(s, opening, 0);
                                lemma_find_from(s, "{"@, cursor);
                                lemma_white_bounds(tail, 0, 0);
                                reveal_strlit("else if look == ");
                            }
                            chain(s, end + ws + 5, look, chosen)
                        } else if has_prefix(rest, "else {"@) {
                            let opening2 = end + ws + 5;
                            let end2 = spec_block_end(s, opening2);
                            if end2 < 0 {
                                None
                            } else {
                                Some(
                                    (
                                        end2,
                                        if chosen is None {
                                            Some((opening2, end2))
                                        } else {
                                            chosen
                                        },
                                    ),
                                )
                            }
                        } else {
                            Some((end, chosen))
                        }
                    }
                },
            }
        }
    }
}

/// A chain ends after where it starts, and its selected block lies after
/// the chain's first condition.
pub proof fn lemma_chain(s: Seq<char>, cursor: int, look: u32, sel: Option<(int, int)>, base: int)
    requires
        0 <= base <= cursor,
        sel matches Some(r) ==> base + 3 <= r.0 < r.1 <= s.len(),
    ensures
        chain(s, cursor, look, sel) matches Some(c) ==> cursor < c.0 <= s.len() && (c.1 matches Some(
            r,
        ) ==> base + 3 <= r.0 < r.1 <= s.len()),
    decreases s.len() - cursor,
{
    if 0 <= cursor <= s.len() {
        let opening = find_from(s, "{"@, cursor);
        lemma_find_from(s, "{"@, cursor);
        if opening >= 0 && opening >= cursor + 3 {
            let end = spec_block_end(s, opening);
            lemma_block_scan(s, opening, 0);
            if end >= 0 {
                let tail = s.subrange(end, s.len() as int);
                let ws = skip_white(tail, 0);
                lemma_white_bounds(tail, 0, 0);
                let rest = tail.subrange(ws, tail.len() as int);
                reveal_strlit("else if look == ");
                reveal_strlit("else {");
                match any_clause(trim(s.subrange(cursor + 3, opening)), look, 0) {
                    None => {},
                    Some(m) => {
                        let chosen = if m && sel is None {
                            Some((opening, end))
                        } else {
                            sel
                        };
                        if has_prefix(rest, "else if look == "@) {
                            lemma_chain(s, end + ws + 5, look, chosen, base);
                        } else if has_prefix(rest, "else {"@) {
                            lemma_block_scan(s, end + ws + 5, 0);
                        }
                    },
                }
            }
        }
    }
}

/// The source with every `if look == ...` chain replaced by the block it
/// selects for `look`, recursively; `None` where a chain is malformed.
pub open spec fn select_branches(s: Seq<char>, look: u32) -> Option<Seq<char>>
    decreases s.len(),
{
    let start = find_from(s, "if look == "@, 0);
    if start < 0 {
        Some(s)
    } else {
        match chain(s, start, look, None) {
            None => None,
            Some(c) => {
                proof {
                    lemma_find_from(s, "if look == "@, 0);
                    lemma_chain(s, start, look, None, start);
                }
                let selected = match c.1 {
                    Some(r) => s.subrange(r.0, r.1),
                    None => Seq::empty(),
                };
                match select_branches(selected, look) {
                    None => None,
                    Some(x) => match select_branches(s.subrange(c.0, s.len() as int), look) {
                        None => None,
                        Some(y) => Some(s.subrange(0, start) + x + y),
                    },
                }
            },
        }
    }
}

pub open spec fn range_view(r: Option<(usize, usize)>) -> Option<(int, int)> {
    match r {
        Some(p) => Some((p.0 as int, p.1 as int)),
        None => None,
    }
}

fn run_chain(source: &Vec<char>, start: usize, look: u32) -> (r: Option<(usize, Option<(usize, usize)>)>)
    requires
        start <= source@.len(),
    ensures
        r is None <==> chain(source@, start as int, look, None) is None,
        r matches Some(c) ==> chain(source@, start as int, look, None) == Some(
            (c.0 as int, range_view(c.1)),
        ),
{
    let brace = chars("{");
    let else_if = chars("else if look == ");
    let else_open = chars("else {");
    proof {
        reveal_strlit("{");
        reveal_strlit("else if look == ");
        reveal_strlit("else {");
    }
    let mut cursor = start;
    let mut sel: Option<(usize, usize)> = None;
    loop
        invariant
            brace@ == "{"@,
            brace@.len() == 1,
            chain(source@, cursor as int, look, range_view(sel)) == chain(
                source@,
                start as int,
                look,
                None,
            ),
            cursor <= source@.len(),
        decreases source@.len() - cursor,
    {
        proof {
            lemma_find_from(source@, brace@, cursor as int);
        }
        let opening = match find_exec(source, &brace, cursor) {
            Some(i) => i,
            None => {
                return None;
            },
        };
        if opening < cursor || opening - cursor < 3 {
            return None;
        }
        let raw = slice(source, cursor + 3, opening);
        let cond = trim_exec(&raw);
        let m = match any_clause_exec(&cond, look) {
            Some(b) => b,
            None => {
                return None;
            },
        };
        proof {
            lemma_block_scan(source@, opening as int, 0);
        }
        let end = match block_end_checked(source, opening) {
            Some(e) => e,
            None => {
                return None;
            },
        };
        if m && sel.is_none() {
            sel = Some((opening, end));
        }
        let tail = slice(source, end, source.len());
        let ws = skip_white_exec(&tail, 0);
        let rest = slice(&tail, ws, tail.len());
        if crate::text::starts_with(&rest, "else if look == ") {
            let total = source.len();
            proof {
                reveal_strlit("else if look == ");
            }
            assert(end + ws + 5 <= total);
            cursor = end + ws + 5;
        } else if crate::text::starts_with(&rest, "else {") {
            let total = source.len();
            proof {
                reveal_strlit("else {");
            }
            assert(end + ws + 5 <= total);
            let opening2 = end + ws + 5;
            let end2 = match block_end_checked(source, opening2) {
                Some(e) => e,
                None => {
                    return None;
                },
            };
            if sel.is_none() {
                sel = Some((opening2, end2));
            }
            return Some((end2, sel));
        } else {
            return Some((end, sel));
        }
    }
}

/// Keeps, in every `if look == ...` chain, only the block for `look`;
/// `None` where a chain is malformed.
pub fn select_look_branches(source: &Vec<char>, look: u32) -> (r: Option<Vec<char>>)
    ensures
        r is None <==> select_branches(source@, look) is None,
        r matches Some(v) ==> select_branches(source@, look) == Some(v@),
    decreases source@.len(),
{
    let marker = chars("if look == ");
    proof {
        reveal_strlit("if look == ");
        lemma_find_from(source@, marker@, 0);
    }
    let start = match find_exec(source, &marker, 0) {
        Some(i) => i,
        None => {
            return Some(slice(source, 0, source.len()));
        },
    };
    proof {
        lemma_chain(source@, start as int, look, None, start as int);
    }
    let (end, sel) = match run_chain(source, start, look) {
        Some(c) => c,
        None => {
            return None;
        },
    };
    let selected = match sel {
        Some((a, b)) => slice(source, a, b),
        None => Vec::new(),
    };
    let after = slice(source, end, source.len());
    let inner = match select_look_branches(&selected, look) {
        Some(x) => x,
        None => {
            return None;
        },
    };
    let tail = match select_look_branches(&after, look) {
        Some(y) => y,
        None => {
            return None;
        },
    };
    let mut out = slice(source, 0, start);
    append_all(&mut out, &inner);
    append_all(&mut out, &tail);
    Some(out)
}

/// The look's source renamed to `name`, with its `look` parameter removed.
pub open spec fn renamed_look(look_src: Seq<char>, name: Seq<char>) -> Seq<char> {
    replace_all(
        replace_all(look_src, "fn tron_look("@, "\nfn "@ + name + "("@),
        "look: u32, "@,
        Seq::empty(),
    )
}

/// The look specialised to one look number, if its chains are well formed.
pub open spec fn spec_specialize_look(look_src: Seq<char>, look: u32, name: Seq<char>) -> Option<
    Seq<char>,
> {
    select_branches(renamed_look(look_src, name), look)
}

/// Whether a look specialises cleanly: its chains are well formed and no
/// `look ==` test survives.
pub open spec fn specialize_ok(look_src: Seq<char>, look: u32, name: Seq<char>) -> bool {
    spec_specialize_look(look_src, look, name) matches Some(r) && !spec_contains(r, "look =="@)
}

/// The Tron look function specialised to `look` under the name `name`;
/// `None` where its chains are malformed or a `look ==` test survives.
pub fn specialize_look(source: &Vec<char>, look: u32, name: &Vec<char>) -> (r: Option<Vec<char>>)
    ensures
        r is Some <==> specialize_ok(source@, look, name@),
        r matches Some(v) ==> spec_specialize_look(source@, look, name@) == Some(v@),
{
    let old_header = chars("fn tron_look(");
    let mut new_header = chars("\nfn ");
    append_all(&mut new_header, name);
    new_header.push('(');
    let parameter = chars("look: u32, ");
    let nothing: Vec<char> = Vec::new();
    proof {
        reveal_strlit("fn tron_look(");
        reveal_strlit("look: u32, ");
        reveal_strlit("(");
        assert(new_header@ =~= "\nfn "@ + name@ + "("@);
        assert(nothing@ =~= Seq::<char>::empty());
    }
    let renamed = replace_all_exec(source, &old_header, &new_header);
    let stripped = replace_all_exec(&renamed, &parameter, &nothing);
    let test = chars("look ==");
    match select_look_branches(&stripped, look) {
        Some(v) => {
            if crate::text::contains_chars(&v, &test) {
                None
            } else {
                Some(v)
            }
        },
        None => None,
    }
}

/// `suffix` ends `text`.
pub open spec fn has_suffix(text: Seq<char>, suffix: Seq<char>) -> bool {
    suffix.len() <= text.len() && text.subrange(text.len() - suffix.len(), text.len() as int)
        == suffix
}

/// The positions of every `fn ` in `s` from `from` on, left to right and
/// without overlap.
pub open spec fn fn_positions(s: Seq<char>, from: int) -> Seq<int>
    decreases s.len() + 1 - from,
{
    if from < 0 {
        Seq::empty()
    } else {
        let p = find_from(s, "fn "@, from);
        if p < 0 {
            Seq::empty()
        } else {
            proof {
                lemma_find_from(s, "fn "@, from);
                reveal_strlit("fn ");
            }
            seq![p] + fn_positions(s, p + 3)
        }
    }
}

/// The function declared at `p`: its name, where its text starts (an
/// `@vertex` or `@fragment` attribute before it included) and where it
/// ends; `None` where it has no parameter list or no closed body.
pub open spec fn function_at(s: Seq<char>, p: int) -> Option<(Seq<char>, int, int)> {
    let name_end = find_from(s, "("@, p);
    let opening = find_from(s, "{"@, p);
    if name_end < 0 || opening < 0 || name_end < p + 3 {
        None
    } else {
        let end = spec_block_end(s, opening);
        if end < 0 {
            None
        } else {
            let before = trim_end(s.subrange(0, p));
            let start = if has_suffix(before, "@vertex"@) {
                before.len() - 7
            } else if has_suffix(before, "@fragment"@) {
                before.len() - 9
            } else {
                p
            };
            Some((s.subrange(p + 3, name_end), start, end))
        }
    }
}

/// Every `fn ` in the source declares a function with a closed body.
pub open spec fn functions_ok(s: Seq<char>) -> bool {
    forall|i: int|
        0 <= i < fn_positions(s, 0).len() ==> (#[trigger] function_at(s, fn_positions(s, 0)[i]))
            is Some
}

/// The functions of the source, in order.
pub open spec fn function_list(s: Seq<char>) -> Seq<(Seq<char>, int, int)> {
    fn_positions(s, 0).map_values(|p: int| function_at(s, p)->0)
}

/// The function `f` calls the function named `callee`: `callee(` occurs in
/// `f`'s text.
pub open spec fn calls(s: Seq<char>, f: (Seq<char>, int, int), callee: Seq<char>) -> bool {
    spec_contains(s.subrange(f.1, f.2), callee + "("@)
}

/// The entry points a shader keeps.
pub open spec fn entry_points() -> Set<Seq<char>> {
    set!["vs_main"@, "fs_main"@]
}

/// A set of names holding the entry points and every function called by a
/// function it names.
pub open spec fn call_closed(s: Seq<char>, used: Set<Seq<char>>) -> bool {
    &&& entry_points().subset_of(used)
    &&& forall|i: int, j: int|
        0 <= i < function_list(s).len() && 0 <= j < function_list(s).len() && used.contains(
            #[trigger] function_list(s)[i].0,
        ) && calls(s, function_list(s)[i], #[trigger] function_list(s)[j].0) ==> used.contains(
            function_list(s)[j].0,
        )
}

/// The names reachable from the entry points: those in every call-closed set.
pub open spec fn reachable_names(s: Seq<char>) -> Set<Seq<char>> {
    Set::new(|name: Seq<char>| forall|used: Set<Seq<char>>| call_closed(s, used) ==> used.contains(name))
}

/// The source after removing, from the last function back to the first,
/// each function whose name is not reachable; `None` where a removal range
/// does not fit the text left.
pub open spec fn remove_unreachable(s: Seq<char>, original: Seq<char>, k: int) -> Option<Seq<char>>
    decreases k,
{
    if k <= 0 {
        Some(s)
    } else {
        let f = function_list(original)[k - 1];
        if reachable_names(original).contains(f.0) {
            remove_unreachable(s, original, k - 1)
        } else if 0 <= f.1 <= f.2 <= s.len() {
            remove_unreachable(s.subrange(0, f.1) + s.subrange(f.2, s.len() as int), original, k - 1)
        } else {
            None
        }
    }
}

/// The source reduced to the functions reachable from the entry points.
pub open spec fn spec_retain_reachable(s: Seq<char>) -> Option<Seq<char>> {
    remove_unreachable(s, s, function_list(s).len() as int)
}

/// A function found in the source: name, start and end.
pub struct FoundFunction {
    pub name: Vec<char>,
    pub start: usize,
    pub end: usize,
}

pub open spec fn found_view(f: FoundFunction) -> (Seq<char>, int, int) {
    (f.name@, f.start as int, f.end as int)
}

fn same_chars(a: &Vec<char>, b: &Vec<char>) -> (r: bool)
    ensures
        r == (a@ == b@),
{
    if a.len() != b.len() {
        return false;
    }
    let mut i: usize = 0;
    while i < a.len()
        invariant
            a@.len() == b@.len(),
            i <= a@.len(),
            forall|k: int| 0 <= k < i ==> a@[k] == b@[k],
        decreases a@.len() - i,
    {
        if a[i] != b[i] {
            return false;
        }
        i = i + 1;
    }
    assert(a@ =~= b@);
    true
}

fn ends_with(text: &Vec<char>, len: usize, suffix: &str) -> (r: bool)
    requires
        len <= text@.len(),
    ensures
        r == has_suffix(text@.subrange(0, len as int), suffix@),
{
    let tail = chars(suffix);
    if tail.len() > len {
        return false;
    }
    let from = len - tail.len();
    let part = slice(text, from, len);
    let r = same_chars(&part, &tail);
    proof {
        assert(text@.subrange(0, len as int).subrange(from as int, len as int) =~= part@);
    }
    r
}

fn function_at_exec(s: &Vec<char>, p: usize) -> (r: Option<FoundFunction>)
    requires
        p <= s@.len(),
    ensures
        r is None <==> function_at(s@, p as int) is None,
        r matches Some(f) ==> found_view(f) == function_at(s@, p as int)->0 && f.start <= f.end
            <= s@.len(),
{
    let paren = chars("(");
    let brace = chars("{");
    proof {
        reveal_strlit("(");
        reveal_strlit("{");
        reveal_strlit("@vertex");
        reveal_strlit("@fragment");
        lemma_find_from(s@, paren@, p as int);
        lemma_find_from(s@, brace@, p as int);
    }
    let name_end = match find_exec(s, &paren, p) {
        Some(i) => i,
        None => {
            return None;
        },
    };
    let opening = match find_exec(s, &brace, p) {
        Some(i) => i,
        None => {
            return None;
        },
    };
    if name_end < p || name_end - p < 3 {
        return None;
    }
    let end = match block_end_checked(s, opening) {
        Some(e) => e,
        None => {
            return None;
        },
    };
    let prefix = slice(s, 0, p);
    let kept = back_white_exec(&prefix, p);
    proof {
        lemma_white_bounds(prefix@, 0, p as int);
        assert(trim_end(s@.subrange(0, p as int)) == prefix@.subrange(0, kept as int));
    }
    let start = if ends_with(&prefix, kept, "@vertex") {
        kept - 7
    } else if ends_with(&prefix, kept, "@fragment") {
        kept - 9
    } else {
        p
    };
    let name = slice(s, p + 3, name_end);
    Some(FoundFunction { name, start, end })
}

/// The functions declared in the source, in order.
pub fn collect_functions(s: &Vec<char>) -> (r: Option<Vec<FoundFunction>>)
    ensures
        r is Some <==> functions_ok(s@),
        r matches Some(fns) ==> {
            &&& fns@.len() == function_list(s@).len()
            &&& forall|i: int| 0 <= i < fns@.len() ==> found_view(#[trigger] fns@[i]) == function_list(s@)[i]
            &&& forall|i: int| 0 <= i < fns@.len() ==> (#[trigger] fns@[i]).start <= fns@[i].end <= s@.len()
        },
{
    let marker = chars("fn ");
    proof {
        reveal_strlit("fn ");
    }
    let mut out: Vec<FoundFunction> = Vec::new();
    let mut from: usize = 0;
    let ghost mut done: Seq<int> = Seq::empty();
    loop
        invariant
            marker@ == "fn "@,
            marker@.len() == 3,
            forall|i: int| 0 <= i < done.len() ==> (#[trigger] function_at(s@, done[i])) is Some,
            from <= s@.len(),
            fn_positions(s@, 0) == done + fn_positions(s@, from as int),
            out@.len() == done.len(),
            forall|i: int| 0 <= i < out@.len() ==> found_view(#[trigger] out@[i]) == function_at(s@, done[i])->0,
            forall|i: int| 0 <= i < out@.len() ==> (#[trigger] out@[i]).start <= out@[i].end <= s@.len(),
        decreases s@.len() + 1 - from,
    {
        proof {
            lemma_find_from(s@, marker@, from as int);
        }
        match find_exec(s, &marker, from) {
            None => {
                proof {
                    assert(fn_positions(s@, from as int) =~= Seq::<int>::empty());
                    assert(done =~= fn_positions(s@, 0));
                    assert forall|i: int| 0 <= i < out@.len() implies found_view(#[trigger] out@[i])
                        == function_list(s@)[i] by {
                    }
                    assert(functions_ok(s@));
                }
                return Some(out);
            },
            Some(p) => {
                proof {
                    assert(fn_positions(s@, from as int) =~= seq![p as int] + fn_positions(s@, p + 3));
                    assert(fn_positions(s@, 0)[done.len() as int] == p as int);
                }
                let f = match function_at_exec(s, p) {
                    Some(f) => f,
                    None => {
                        proof {
                            assert(!(function_at(s@, fn_positions(s@, 0)[done.len() as int]) is Some));
                        }
                        return None;
                    },
                };
                out.push(f);
                proof {
                    assert(fn_positions(s@, 0) =~= done.push(p as int) + fn_positions(s@, p + 3));
                    done = done.push(p as int);
                }
                let total = s.len();
                assert(p + 3 <= total);
                from = p + 3;
            },
        }
    }
}

/// The number of unmarked entries.
pub open spec fn count_unmarked(marks: Seq<bool>) -> nat
    decreases marks.len(),
{
    if marks.len() == 0 {
        0
    } else {
        count_unmarked(marks.drop_last()) + if marks.last() {
            0nat
        } else {
            1nat
        }
    }
}

proof fn lemma_count_unmarked(old_marks: Seq<bool>, new_marks: Seq<bool>, flipped: int)
    requires
        old_marks.len() == new_marks.len(),
        forall|k: int| 0 <= k < old_marks.len() && old_marks[k] ==> new_marks[k],
    ensures
        count_unmarked(new_marks) <= count_unmarked(old_marks),
        0 <= flipped < old_marks.len() && !old_marks[flipped] && new_marks[flipped]
            ==> count_unmarked(new_marks) < count_unmarked(old_marks),
    decreases old_marks.len(),
{
    if old_marks.len() > 0 {
        lemma_count_unmarked(old_marks.drop_last(), new_marks.drop_last(), flipped);
    }
}

/// Names marked through call edges from marked functions are reachable,
/// and a call-closed marking marks every reachable function.
proof fn lemma_marks_complete(s: Seq<char>, marks: Seq<bool>)
    requires
        marks.len() == function_list(s).len(),
        forall|k: int|
            0 <= k < marks.len() && entry_points().contains(#[trigger] function_list(s)[k].0)
                ==> marks[k],
        forall|a: int, b: int|
            0 <= a < marks.len() && 0 <= b < marks.len() && #[trigger] function_list(s)[a].0
                == #[trigger] function_list(s)[b].0 ==> marks[a] == marks[b],
        forall|i: int, j: int|
            0 <= i < marks.len() && 0 <= j < marks.len() && marks[i] && calls(
                s,
                #[trigger] function_list(s)[i],
                #[trigger] function_list(s)[j].0,
            ) ==> marks[j],
    ensures
        forall|k: int|
            0 <= k < marks.len() && reachable_names(s).contains(#[trigger] function_list(s)[k].0)
                ==> marks[k],
{
    let fl = function_list(s);
    let m = Set::new(
        |n: Seq<char>|
            entry_points().contains(n) || exists|k: int|
                0 <= k < fl.len() && marks[k] && #[trigger] fl[k].0 == n,
    );
    assert forall|i: int, j: int|
        0 <= i < fl.len() && 0 <= j < fl.len() && m.contains(#[trigger] fl[i].0) && calls(
            s,
            fl[i],
            #[trigger] fl[j].0,
        ) implies m.contains(fl[j].0) by {
        if entry_points().contains(fl[i].0) {
            assert(marks[i]);
        } else {
            let k = choose|k: int| 0 <= k < fl.len() && marks[k] && #[trigger] fl[k].0 == fl[i].0;
            assert(marks[k] == marks[i]);
        }
        assert(marks[j]);
    }
    assert(entry_points().subset_of(m));
    assert(call_closed(s, m));
    assert forall|k: int|
        0 <= k < marks.len() && reachable_names(s).contains(#[trigger] function_list(s)[k].0)
            implies marks[k] by {
        assert(m.contains(fl[k].0));
        if !entry_points().contains(fl[k].0) {
            let k2 = choose|k2: int| 0 <= k2 < fl.len() && marks[k2] && #[trigger] fl[k2].0 == fl[k].0;
            assert(marks[k2] == marks[k]);
        }
    }
}

fn mark_name(marks: &mut Vec<bool>, fns: &Vec<FoundFunction>, name: &Vec<char>)
    requires
        old(marks)@.len() == fns@.len(),
    ensures
        final(marks)@.len() == old(marks)@.len(),
        forall|k: int|
            0 <= k < fns@.len() ==> #[trigger] final(marks)@[k] == (old(marks)@[k] || fns@[k].name@
                == name@),
{
    let mut k: usize = 0;
    while k < fns.len()
        invariant
            marks@.len() == fns@.len(),
            k <= fns@.len(),
            forall|q: int| 0 <= q < k ==> #[trigger] marks@[q] == (old(marks)@[q] || fns@[q].name@ == name@),
            forall|q: int| k <= q < fns@.len() ==> #[trigger] marks@[q] == old(marks)@[q],
        decreases fns@.len() - k,
    {
        if same_chars(&fns[k].name, name) {
            marks.set(k, true);
        }
        k = k + 1;
    }
}

/// Marks the functions whose names are reachable from the entry points.
fn reachable_marks(s: &Vec<char>, fns: &Vec<FoundFunction>) -> (marks: Vec<bool>)
    requires
        fns@.len() == function_list(s@).len(),
        forall|i: int| 0 <= i < fns@.len() ==> found_view(#[trigger] fns@[i]) == function_list(s@)[i],
        forall|i: int| 0 <= i < fns@.len() ==> (#[trigger] fns@[i]).start <= fns@[i].end <= s@.len(),
    ensures
        marks@.len() == fns@.len(),
        forall|k: int|
            0 <= k < fns@.len() ==> #[trigger] marks@[k] == reachable_names(s@).contains(
                function_list(s@)[k].0,
            ),
{
    let ghost fl = function_list(s@);
    let n = fns.len();
    let vs = chars("vs_main");
    let fs = chars("fs_main");
    let mut marks: Vec<bool> = Vec::new();
    let mut k: usize = 0;
    while k < n
        invariant
            n == fns@.len(),
            fl == function_list(s@),
            fns@.len() == fl.len(),
            forall|i: int| 0 <= i < fns@.len() ==> found_view(#[trigger] fns@[i]) == fl[i],
            vs@ == "vs_main"@,
            fs@ == "fs_main"@,
            k <= n,
            marks@.len() == k,
            forall|q: int| 0 <= q < k ==> #[trigger] marks@[q] == entry_points().contains(fl[q].0),
        decreases n - k,
    {
        let root = same_chars(&fns[k].name, &vs) || same_chars(&fns[k].name, &fs);
        proof {
            assert(fns@[k as int].name@ == fl[k as int].0);
        }
        marks.push(root);
        k = k + 1;
    }
    proof {
        assert forall|q: int| 0 <= q < n && marks@[q] implies reachable_names(s@).contains(
            #[trigger] fl[q].0,
        ) by {
            assert forall|v: Set<Seq<char>>| call_closed(s@, v) implies v.contains(fl[q].0) by {
                assert(entry_points().contains(fl[q].0));
            }
        }
    }
    loop
        invariant
            n == fns@.len(),
            fl == function_list(s@),
            fns@.len() == fl.len(),
            forall|i: int| 0 <= i < fns@.len() ==> found_view(#[trigger] fns@[i]) == fl[i],
            forall|i: int| 0 <= i < fns@.len() ==> (#[trigger] fns@[i]).start <= fns@[i].end <= s@.len(),
            marks@.len() == n,
            forall|q: int| 0 <= q < n && marks@[q] ==> reachable_names(s@).contains(#[trigger] fl[q].0),
            forall|q: int| 0 <= q < n && entry_points().contains(#[trigger] fl[q].0) ==> marks@[q],
            forall|a: int, b: int|
                0 <= a < n && 0 <= b < n && #[trigger] fl[a].0 == #[trigger] fl[b].0 ==> marks@[a]
                    == marks@[b],
        decreases count_unmarked(marks@),
    {
        let ghost before = marks@;
        let mut changed = false;
        let mut i: usize = 0;
        while i < n
            invariant
                n == fns@.len(),
                fl == function_list(s@),
                fns@.len() == fl.len(),
                forall|x: int| 0 <= x < fns@.len() ==> found_view(#[trigger] fns@[x]) == fl[x],
                forall|x: int| 0 <= x < fns@.len() ==> (#[trigger] fns@[x]).start <= fns@[x].end <= s@.len(),
                marks@.len() == n,
                before.len() == n,
                i <= n,
                forall|q: int| 0 <= q < n && marks@[q] ==> reachable_names(s@).contains(#[trigger] fl[q].0),
                forall|q: int| 0 <= q < n && entry_points().contains(#[trigger] fl[q].0) ==> marks@[q],
                forall|a: int, b: int|
                    0 <= a < n && 0 <= b < n && #[trigger] fl[a].0 == #[trigger] fl[b].0 ==> marks@[a]
                        == marks@[b],
                forall|q: int| 0 <= q < n && before[q] ==> marks@[q],
                !changed ==> marks@ == before,
                changed ==> count_unmarked(marks@) < count_unmarked(before),
                !changed ==> forall|x: int, y: int|
                    0 <= x < i && 0 <= y < n && marks@[x] && calls(s@, #[trigger] fl[x], #[trigger] fl[y].0)
                        ==> marks@[y],
            decreases n - i,
        {
            if marks[i] {
                let body = slice(s, fns[i].start, fns[i].end);
                let mut j: usize = 0;
                while j < n
                    invariant
                        n == fns@.len(),
                        fl == function_list(s@),
                        fns@.len() == fl.len(),
                        forall|x: int| 0 <= x < fns@.len() ==> found_view(#[trigger] fns@[x]) == fl[x],
                        marks@.len() == n,
                        before.len() == n,
                        i < n,
                        j <= n,
                        marks@[i as int],
                        body@ == s@.subrange(fl[i as int].1, fl[i as int].2),
                        forall|q: int| 0 <= q < n && marks@[q] ==> reachable_names(s@).contains(#[trigger] fl[q].0),
                        forall|q: int| 0 <= q < n && entry_points().contains(#[trigger] fl[q].0) ==> marks@[q],
                        forall|a: int, b: int|
                            0 <= a < n && 0 <= b < n && #[trigger] fl[a].0 == #[trigger] fl[b].0
                                ==> marks@[a] == marks@[b],
                        forall|q: int| 0 <= q < n && before[q] ==> marks@[q],
                        !changed ==> marks@ == before,
                        changed ==> count_unmarked(marks@) < count_unmarked(before),
                        !changed ==> forall|x: int, y: int|
                            0 <= x < i && 0 <= y < n && marks@[x] && calls(s@, #[trigger] fl[x], #[trigger] fl[y].0)
                                ==> marks@[y],
                        !changed ==> forall|y: int|
                            0 <= y < j && calls(s@, fl[i as int], #[trigger] fl[y].0) ==> marks@[y],
                    decreases n - j,
                {
                    if !marks[j] {
                        let mut callee = slice(&fns[j].name, 0, fns[j].name.len());
                        callee.push('(');
                        proof {
                            reveal_strlit("(");
                            assert(callee@ =~= fl[j as int].0 + "("@);
                        }
                        if crate::text::contains_chars(&body, &callee) {
                            let ghost prior = marks@;
                            let name = slice(&fns[j].name, 0, fns[j].name.len());
                            proof {
                                assert(name@ =~= fns@[j as int].name@);
                            }
                            mark_name(&mut marks, fns, &name);
                            proof {
                                assert(fns@[j as int].name@ == fl[j as int].0);
                                assert(marks@[j as int]);
                                assert(!prior[j as int]);
                                assert forall|q: int| 0 <= q < n && marks@[q] implies reachable_names(
                                    s@,
                                ).contains(#[trigger] fl[q].0) by {
                                    if !prior[q] {
                                        assert(fns@[q].name@ == fl[q].0);
                                        assert(fl[q].0 == fl[j as int].0);
                                        assert forall|v: Set<Seq<char>>| call_closed(s@, v) implies v.contains(
                                            fl[q].0,
                                        ) by {
                                            assert(reachable_names(s@).contains(fl[i as int].0));
                                            assert(v.contains(fl[i as int].0));
                                            assert(calls(s@, fl[i as int], fl[j as int].0));
                                        }
                                    }
                                }
                                assert forall|a: int, b: int|
                                    0 <= a < n && 0 <= b < n && #[trigger] fl[a].0 == #[trigger] fl[b].0
                                        implies marks@[a] == marks@[b] by {
                                    assert(fns@[a].name@ == fl[a].0);
                                    assert(fns@[b].name@ == fl[b].0);
                                    assert(prior[a] == prior[b]);
                                }
                                lemma_count_unmarked(prior, marks@, j as int);
                                lemma_count_unmarked(before, prior, j as int);
                            }
                            changed = true;
                        }
                    }
                    j = j + 1;
                }
            }
            i = i + 1;
        }
        if !changed {
            proof {
                lemma_marks_complete(s@, marks@);
            }
            return marks;
        }
    }
}

/// Removes every function not reachable from `vs_main` or `fs_main`,
/// together with its entry-point attribute; `None` where a function has no
/// parameter list or no closed body, or the functions overlap.
pub fn retain_reachable(source: Vec<char>) -> (r: Option<Vec<char>>)
    ensures
        r is Some <==> functions_ok(source@) && spec_retain_reachable(source@) is Some,
        r matches Some(v) ==> spec_retain_reachable(source@) == Some(v@),
{
    let fns = match collect_functions(&source) {
        Some(fns) => fns,
        None => {
            return None;
        },
    };
    let marks = reachable_marks(&source, &fns);
    let mut out = slice(&source, 0, source.len());
    proof {
        assert(out@ =~= source@);
    }
    let mut k = fns.len();
    while k > 0
        invariant
            k <= fns@.len(),
            fns@.len() == function_list(source@).len(),
            forall|i: int| 0 <= i < fns@.len() ==> found_view(#[trigger] fns@[i]) == function_list(source@)[i],
            forall|i: int| 0 <= i < fns@.len() ==> (#[trigger] fns@[i]).start <= fns@[i].end,
            marks@.len() == fns@.len(),
            forall|q: int|
                0 <= q < fns@.len() ==> #[trigger] marks@[q] == reachable_names(source@).contains(
                    function_list(source@)[q].0,
                ),
            remove_unreachable(out@, source@, k as int) == spec_retain_reachable(source@),
            functions_ok(source@),
        decreases k,
    {
        let f = &fns[k - 1];
        proof {
            assert(found_view(fns@[k - 1]) == function_list(source@)[k - 1]);
        }
        if !marks[k - 1] {
            if f.end > out.len() {
                return None;
            }
            let mut next = slice(&out, 0, f.start);
            append_range(&mut next, &out, f.end, out.len());
            out = next;
        }
        k = k - 1;
    }
    Some(out)
}

/// Which specialisation of the shader a scene needs: a held scene (a
/// library scene, or one Tron look at 33 + look), or a Tron collection
/// blending from one look into the next.
#[derive(Clone, Copy, Debug, PartialEq, Eq, Hash, Structural)]
pub enum SceneKey {
    Held(u32),
    Collection(u32, u32),
}

/// The key for scene `id`: the Tron collection (scene 32) holds the look of
/// its chapter, or blends into the next chapter's look near the end of a
/// chapter; other scenes are held, capped at 52.
pub open spec fn spec_for_scene(id: u32, chapter: u32, dimension: u32, blending: bool) -> SceneKey {
    if id != 32 {
        SceneKey::Held(if id < 52 {
            id
        } else {
            52
        })
    } else if !blending {
        SceneKey::Held((33 + spec_variant(chapter, dimension)) as u32)
    } else {
        SceneKey::Collection(
            spec_variant(chapter, dimension),
            spec_variant((chapter + 1) as u32, dimension),
        )
    }
}

/// The key the collection will need next: the blend while a chapter holds,
/// the next chapter's look while blending.
pub open spec fn spec_upcoming(chapter: u32, dimension: u32, blending: bool) -> SceneKey {
    if !blending {
        SceneKey::Collection(
            spec_variant(chapter, dimension),
            spec_variant((chapter + 1) as u32, dimension),
        )
    } else {
        SceneKey::Held((33 + spec_variant((chapter + 1) as u32, dimension)) as u32)
    }
}

/// The keys a Tron collection walks through: a holding chapter shows its
/// look alone (one of the sixteen look scenes after the collection's id),
/// a blending chapter blends its look into the next chapter's, and the key
/// prepared in advance is always the one the collection shows next: the
/// blend while a chapter holds, the next chapter's look while blending.
/// Any other scene is held as itself, the last scene standing for any
/// larger id.
pub proof fn law_collections_prepare_the_next_key(id: u32, chapter: u32, dimension: u32, blending: bool)
    requires
        chapter < u32::MAX,
    ensures
        id != 32 && id <= 52 ==> spec_for_scene(id, chapter, dimension, blending) == SceneKey::Held(
            id,
        ),
        id > 52 ==> spec_for_scene(id, chapter, dimension, blending) == SceneKey::Held(52),
        spec_for_scene(32, chapter, dimension, false) matches SceneKey::Held(look) && 33 <= look
            && look < 49 && look == 33 + spec_variant(chapter, dimension),
        spec_for_scene(32, chapter, dimension, true) == SceneKey::Collection(
            spec_variant(chapter, dimension),
            spec_variant((chapter + 1) as u32, dimension),
        ),
        spec_upcoming(chapter, dimension, false) == spec_for_scene(32, chapter, dimension, true),
        spec_upcoming(chapter, dimension, true) == spec_for_scene(
            32,
            (chapter + 1) as u32,
            dimension,
            false,
        ),
{
    law_collections_cycle_through_their_looks(chapter);
    assert(spec_variant(chapter, dimension) < 16) by {
        if dimension == 1 {
            assert(is_flat_look(spec_variant(chapter, 1)));
        } else if dimension == 2 {
            assert(is_deep_look(spec_variant(chapter, 2)));
        }
    }
}

/// The number the shader dispatches on for a key.
pub open spec fn key_id(key: SceneKey) -> u32 {
    match key {
        SceneKey::Held(id) => id,
        SceneKey::Collection(..) => 32,
    }
}

/// The dispatch line replaced by the key's constant.
pub open spec fn primary_line() -> Seq<char> {
    "let primary_id = u32(round(params.style_a.x));"@
}

pub open spec fn primary_constant(id: u32) -> Seq<char> {
    "let primary_id = "@ + decimal_digits(id as nat) + "u;"@
}

pub open spec fn zero_colour() -> Seq<char> {
    "return vec3<f32>(0.0);"@
}

pub open spec fn selected_scene() -> Seq<char> {
    "return tron_selected(uv, params.spatial.x);"@
}

pub open spec fn blended_scene() -> Seq<char> {
    "let blend = smoothstep(0.8, 1.0, fract(params.spatial.x / 8.0));
                 let outgoing = tron_outgoing(uv, params.spatial.x);
                 if blend <= 0.0 { return outgoing; }
                 return mix(outgoing, tron_incoming(uv, params.spatial.x), blend);"@
}

/// The body `visual_family` keeps: the dispatch case of a library scene
/// (up to its first closing brace), or black for other scenes.
pub open spec fn family_body(s: Seq<char>, id: u32) -> Option<Seq<char>> {
    if id < 26 {
        if !has_function(s, "visual_family"@) {
            None
        } else {
            let dispatch = spec_function(s, "visual_family"@);
            let case = "case "@ + decimal_digits(id as nat) + "u: { "@;
            let c = find_from(dispatch, case, 0);
            if c < 0 {
                None
            } else {
                let after = dispatch.subrange(c + case.len(), dispatch.len() as int);
                let b = find_from(after, "}"@, 0);
                if b < 0 {
                    None
                } else {
                    Some(after.subrange(0, b))
                }
            }
        }
    } else {
        Some(zero_colour())
    }
}

/// The specialised looks appended for a key, and the body of `tron_scene`.
pub open spec fn looks_for(key: SceneKey, s: Seq<char>, look: Seq<char>) -> Option<(Seq<char>, Seq<char>)> {
    match key {
        SceneKey::Held(id) => if 33 <= id <= 48 {
            if specialize_ok(look, (id - 33) as u32, "tron_selected"@) {
                Some(
                    (
                        s + spec_specialize_look(look, (id - 33) as u32, "tron_selected"@)->0,
                        selected_scene(),
                    ),
                )
            } else {
                None
            }
        } else {
            Some((s, zero_colour()))
        },
        SceneKey::Collection(from, to) => if specialize_ok(look, from, "tron_outgoing"@)
            && specialize_ok(look, to, "tron_incoming"@) {
            Some(
                (
                    s + spec_specialize_look(look, from, "tron_outgoing"@)->0 + spec_specialize_look(
                        look,
                        to,
                        "tron_incoming"@,
                    )->0,
                    blended_scene(),
                ),
            )
        } else {
            None
        },
    }
}

/// The shader specialised for a key: comments dropped, the dispatch fixed
/// to the key's number, the library dispatch cut to the held scene, the
/// needed Tron looks specialised and appended, the scene body fixed, and
/// every unreachable function removed; `None` where the source lacks a part
/// this needs.
pub open spec fn spec_scene_source(key: SceneKey, shader: Seq<char>) -> Option<Seq<char>> {
    let s0 = strip_comments(shader);
    let id = key_id(key);
    let s1 = replace_all(s0, primary_line(), primary_constant(id));
    match family_body(s1, id) {
        None => None,
        Some(family) => if !has_function(s1, "visual_family"@) {
            None
        } else {
            let s2 = spec_replace_body(s1, "visual_family"@, family);
            if !has_function(s2, "tron_look"@) {
                None
            } else {
                match looks_for(key, s2, spec_function(s2, "tron_look"@)) {
                    None => None,
                    Some(parts) => if !has_function(parts.0, "tron_scene"@) {
                        None
                    } else {
                        let s4 = spec_replace_body(parts.0, "tron_scene"@, parts.1);
                        if functions_ok(s4) {
                            spec_retain_reachable(s4)
                        } else {
                            None
                        }
                    },
                }
            }
        },
    }
}

impl SceneKey {
    /// The key for scene `id` (rounded by the caller), given the collection's
    /// chapter, its dimension, and whether the chapter is blending out.
    pub fn for_scene(id: u32, chapter: u32, dimension: u32, blending: bool) -> (r: SceneKey)
        requires
            id == 32 && blending ==> chapter < u32::MAX,
        ensures
            r == spec_for_scene(id, chapter, dimension, blending),
    {
        if id != 32 {
            return SceneKey::Held(if id < 52 {
                id
            } else {
                52
            });
        }
        if !blending {
            SceneKey::Held(33 + variant(chapter, dimension))
        } else {
            SceneKey::Collection(variant(chapter, dimension), variant(chapter + 1, dimension))
        }
    }

    /// The key the collection needs next.
    pub fn upcoming(chapter: u32, dimension: u32, blending: bool) -> (r: SceneKey)
        requires
            chapter < u32::MAX,
        ensures
            r == spec_upcoming(chapter, dimension, blending),
    {
        if !blending {
            SceneKey::Collection(variant(chapter, dimension), variant(chapter + 1, dimension))
        } else {
            SceneKey::Held(33 + variant(chapter + 1, dimension))
        }
    }

    /// The shader source specialised for this key; `None` where the source
    /// lacks a part this needs or a part is malformed.
    pub fn source(self, shader: &str) -> (r: Option<String>)
        ensures
            r is None <==> spec_scene_source(self, shader@) is None,
            r matches Some(t) ==> spec_scene_source(self, shader@) == Some(t@),
    {
        let text = chars(shader);
        let s0 = strip_comments_exec(&text);
        let id = match self {
            SceneKey::Held(id) => id,
            SceneKey::Collection(..) => 32,
        };
        let line = chars("let primary_id = u32(round(params.style_a.x));");
        let mut constant_text = crate::text::owned("let primary_id = ");
        crate::text::push_decimal(&mut constant_text, id as u64);
        crate::text::push_str(&mut constant_text, "u;");
        let constant = chars(constant_text.as_str());
        proof {
            reveal_strlit("let primary_id = u32(round(params.style_a.x));");
        }
        let s1 = replace_all_exec(&s0, &line, &constant);
        let visual_family = chars("visual_family");
        let has_family = has_function_exec(&s1, &visual_family);
        if !has_family {
            return None;
        }
        let family = if id < 26 {
            let dispatch = crate::scan::function(&s1, &visual_family);
            let mut case_text = crate::text::owned("case ");
            crate::text::push_decimal(&mut case_text, id as u64);
            crate::text::push_str(&mut case_text, "u: { ");
            let case = chars(case_text.as_str());
            proof {
                lemma_find_from(dispatch@, case@, 0);
            }
            let c = match find_exec(&dispatch, &case, 0) {
                Some(c) => c,
                None => {
                    return None;
                },
            };
            let total = dispatch.len();
            assert(c + case@.len() <= total);
            let after = slice(&dispatch, c + case.len(), dispatch.len());
            let close = chars("}");
            proof {
                reveal_strlit("}");
                lemma_find_from(after@, close@, 0);
            }
            let b = match find_exec(&after, &close, 0) {
                Some(b) => b,
                None => {
                    return None;
                },
            };
            slice(&after, 0, b)
        } else {
            chars("return vec3<f32>(0.0);")
        };
        let mut s2 = s1;
        crate::scan::replace_body(&mut s2, &visual_family, &family);
        let tron_look = chars("tron_look");
        if !has_function_exec(&s2, &tron_look) {
            return None;
        }
        let look = crate::scan::function(&s2, &tron_look);
        let mut s3 = s2;
        let scene = match self {
            SceneKey::Held(held) => {
                if 33 <= held && held <= 48 {
                    let name = chars("tron_selected");
                    let selected = match specialize_look(&look, held - 33, &name) {
                        Some(v) => v,
                        None => {
                            return None;
                        },
                    };
                    append_all(&mut s3, &selected);
                    chars("return tron_selected(uv, params.spatial.x);")
                } else {
                    chars("return vec3<f32>(0.0);")
                }
            },
            SceneKey::Collection(from, to) => {
                let outgoing_name = chars("tron_outgoing");
                let incoming_name = chars("tron_incoming");
                let outgoing = match specialize_look(&look, from, &outgoing_name) {
                    Some(v) => v,
                    None => {
                        return None;
                    },
                };
                let incoming = match specialize_look(&look, to, &incoming_name) {
                    Some(v) => v,
                    None => {
                        return None;
                    },
                };
                append_all(&mut s3, &outgoing);
                append_all(&mut s3, &incoming);
                chars(
                    "let blend = smoothstep(0.8, 1.0, fract(params.spatial.x / 8.0));
                 let outgoing = tron_outgoing(uv, params.spatial.x);
                 if blend <= 0.0 { return outgoing; }
                 return mix(outgoing, tron_incoming(uv, params.spatial.x), blend);",
                )
            },
        };
        let tron_scene = chars("tron_scene");
        if !has_function_exec(&s3, &tron_scene) {
            return None;
        }
        let mut s4 = s3;
        crate::scan::replace_body(&mut s4, &tron_scene, &scene);
        match retain_reachable(s4) {
            Some(kept) => Some(crate::text::string_from_chars(&kept, 0)),
            None => None,
        }
    }
}

} // verus!
