//! Character-level text scanning: searching, replacing every occurrence,
//! trimming white space, parsing numbers, matching braces, and locating or
//! rewriting a function body.
use vstd::prelude::*;

use crate::text::{occurs_at, occurs_at_exec};

verus! {

/// The first index at or after `from` where `pat` occurs in `s`, or -1.
pub open spec fn find_from(s: Seq<char>, pat: Seq<char>, from: int) -> int
    decreases s.len() + 1 - from,
{
    if from < 0 || from + pat.len() > s.len() {
        -1
    } else if occurs_at(s, pat, from) {
        from
    } else {
        find_from(s, pat, from + 1)
    }
}

pub proof fn lemma_find_from(s: Seq<char>, pat: Seq<char>, from: int)
    requires
        0 <= from,
    ensures
        find_from(s, pat, from) == -1 || (from <= find_from(s, pat, from) && find_from(s, pat, from)
            + pat.len() <= s.len() && occurs_at(s, pat, find_from(s, pat, from))),
        find_from(s, pat, from) == -1 ==> forall|k: int| from <= k ==> !occurs_at(s, pat, k),
        find_from(s, pat, from) >= 0 ==> forall|k: int|
            from <= k < find_from(s, pat, from) ==> !occurs_at(s, pat, k),
    decreases s.len() + 1 - from,
{
    if from + pat.len() <= s.len() && !occurs_at(s, pat, from) {
        lemma_find_from(s, pat, from + 1);
    }
}

/// The first index at or after `from` where `pat` occurs, if any.
pub fn find_exec(s: &Vec<char>, pat: &Vec<char>, from: usize) -> (r: Option<usize>)
    requires
        pat@.len() > 0,
    ensures
        match r {
            Some(i) => find_from(s@, pat@, from as int) == i as int,
            None => find_from(s@, pat@, from as int) == -1,
        },
{
    let mut i = from;
    loop
        invariant
            from <= i,
            pat@.len() > 0,
            find_from(s@, pat@, from as int) == find_from(s@, pat@, i as int),
        decreases s@.len() + 1 - i,
    {
        if i > s.len() || s.len() - i < pat.len() {
            return None;
        }
        if occurs_at_exec(s, pat, i) {
            return Some(i);
        }
        i = i + 1;
    }
}

/// `s` with every occurrence of `pat` at or after `from`, scanning left to
/// right without overlap, replaced by `rep`; only the part from `from` on.
pub open spec fn replace_from(s: Seq<char>, pat: Seq<char>, rep: Seq<char>, from: int) -> Seq<
    char,
>
    decreases s.len() - from,
{
    if from < 0 || from > s.len() || pat.len() == 0 {
        Seq::empty()
    } else {
        let i = find_from(s, pat, from);
        if i < 0 {
            s.subrange(from, s.len() as int)
        } else {
            proof {
                lemma_find_from(s, pat, from);
            }
            s.subrange(from, i) + rep + replace_from(s, pat, rep, i + pat.len())
        }
    }
}

/// `s` with every occurrence of `pat` replaced by `rep`.
pub open spec fn replace_all(s: Seq<char>, pat: Seq<char>, rep: Seq<char>) -> Seq<char> {
    replace_from(s, pat, rep, 0)
}

pub fn append_range(out: &mut Vec<char>, s: &Vec<char>, from: usize, to: usize)
    requires
        from <= to <= s@.len(),
    ensures
        final(out)@ == old(out)@ + s@.subrange(from as int, to as int),
{
    let mut i = from;
    while i < to
        invariant
            from <= i <= to,
            to <= s@.len(),
            out@ == old(out)@ + s@.subrange(from as int, i as int),
        decreases to - i,
    {
        out.push(s[i]);
        assert(s@.subrange(from as int, i + 1) =~= s@.subrange(from as int, i as int).push(
            s@[i as int],
        ));
        i = i + 1;
    }
}

pub fn append_all(out: &mut Vec<char>, s: &Vec<char>)
    ensures
        final(out)@ == old(out)@ + s@,
{
    append_range(out, s, 0, s.len());
    assert(s@.subrange(0, s@.len() as int) =~= s@);
}

/// `s` with every occurrence of the non-empty `pat` replaced by `rep`.
pub fn replace_all_exec(s: &Vec<char>, pat: &Vec<char>, rep: &Vec<char>) -> (r: Vec<char>)
    requires
        pat@.len() > 0,
    ensures
        r@ == replace_all(s@, pat@, rep@),
{
    let mut out: Vec<char> = Vec::new();
    let mut cursor: usize = 0;
    loop
        invariant
            pat@.len() > 0,
            cursor <= s@.len(),
            out@ + replace_from(s@, pat@, rep@, cursor as int) == replace_all(s@, pat@, rep@),
        decreases s@.len() - cursor,
    {
        proof {
            lemma_find_from(s@, pat@, cursor as int);
        }
        match find_exec(s, pat, cursor) {
            Some(i) => {
                let total = s.len();
                assert(i + pat@.len() <= total);
                let ghost before = out@;
                append_range(&mut out, s, cursor, i);
                append_all(&mut out, rep);
                proof {
                    assert(before + replace_from(s@, pat@, rep@, cursor as int) == before + (
                    s@.subrange(cursor as int, i as int) + rep@ + replace_from(
                        s@,
                        pat@,
                        rep@,
                        i + pat@.len(),
                    )));
                    assert(out@ + replace_from(s@, pat@, rep@, i + pat@.len()) =~= before + (
                    s@.subrange(cursor as int, i as int) + rep@ + replace_from(
                        s@,
                        pat@,
                        rep@,
                        i + pat@.len(),
                    )));
                }
                cursor = i + pat.len();
            },
            None => {
                let ghost before = out@;
                append_range(&mut out, s, cursor, s.len());
                return out;
            },
        }
    }
}

/// White space as `char::is_whitespace` defines it (Unicode White_Space).
pub open spec fn is_white(c: char) -> bool {
    ||| c == ' '
    ||| ('\t' <= c && c <= '\r')
    ||| c == '\u{85}'
    ||| c == '\u{a0}'
    ||| c == '\u{1680}'
    ||| ('\u{2000}' <= c && c <= '\u{200a}')
    ||| c == '\u{2028}'
    ||| c == '\u{2029}'
    ||| c == '\u{202f}'
    ||| c == '\u{205f}'
    ||| c == '\u{3000}'
}

pub fn is_white_exec(c: char) -> (r: bool)
    ensures
        r == is_white(c),
{
    c == ' ' || ('\t' <= c && c <= '\r') || c == '\u{85}' || c == '\u{a0}' || c == '\u{1680}' || (
    '\u{2000}' <= c && c <= '\u{200a}') || c == '\u{2028}' || c == '\u{2029}' || c == '\u{202f}'
        || c == '\u{205f}' || c == '\u{3000}'
}

/// The first index at or after `i` that is not white space (or the end).
pub open spec fn skip_white(s: Seq<char>, i: int) -> int
    decreases s.len() - i,
{
    if i < 0 || i >= s.len() {
        i
    } else if is_white(s[i]) {
        skip_white(s, i + 1)
    } else {
        i
    }
}

/// The end of `s[..j]` once trailing white space is removed.
pub open spec fn back_white(s: Seq<char>, j: int) -> int
    decreases j,
{
    if j <= 0 || j > s.len() {
        if j > s.len() {
            s.len() as int
        } else {
            0
        }
    } else if is_white(s[j - 1]) {
        back_white(s, j - 1)
    } else {
        j
    }
}

pub proof fn lemma_white_bounds(s: Seq<char>, i: int, j: int)
    requires
        0 <= i <= s.len(),
        0 <= j <= s.len(),
    ensures
        i <= skip_white(s, i) <= s.len(),
        0 <= back_white(s, j) <= j,
    decreases s.len() - i + j,
{
    if i < s.len() && is_white(s[i]) {
        lemma_white_bounds(s, i + 1, j);
    }
    if j > 0 && is_white(s[j - 1]) {
        lemma_white_bounds(s, i, j - 1);
    }
}

pub open spec fn trim_start(s: Seq<char>) -> Seq<char> {
    s.subrange(skip_white(s, 0), s.len() as int)
}

pub open spec fn trim_end(s: Seq<char>) -> Seq<char> {
    s.subrange(0, back_white(s, s.len() as int))
}

pub open spec fn trim(s: Seq<char>) -> Seq<char> {
    trim_end(trim_start(s))
}

pub fn skip_white_exec(s: &Vec<char>, i: usize) -> (r: usize)
    requires
        i <= s@.len(),
    ensures
        r == skip_white(s@, i as int),
        i <= r <= s@.len(),
{
    let mut k = i;
    while k < s.len() && is_white_exec(s[k])
        invariant
            i <= k <= s@.len(),
            skip_white(s@, i as int) == skip_white(s@, k as int),
        decreases s@.len() - k,
    {
        k = k + 1;
    }
    k
}

pub fn back_white_exec(s: &Vec<char>, j: usize) -> (r: usize)
    requires
        j <= s@.len(),
    ensures
        r == back_white(s@, j as int),
        r <= j,
{
    let mut k = j;
    while k > 0 && is_white_exec(s[k - 1])
        invariant
            k <= j <= s@.len(),
            back_white(s@, j as int) == back_white(s@, k as int),
        decreases k,
    {
        k = k - 1;
    }
    k
}

/// A copy of `s[from..to]`.
pub fn slice(s: &Vec<char>, from: usize, to: usize) -> (r: Vec<char>)
    requires
        from <= to <= s@.len(),
    ensures
        r@ == s@.subrange(from as int, to as int),
{
    let mut out: Vec<char> = Vec::new();
    append_range(&mut out, s, from, to);
    out
}

/// `s` without leading and trailing white space.
pub fn trim_exec(s: &Vec<char>) -> (r: Vec<char>)
    ensures
        r@ == trim(s@),
{
    let start = skip_white_exec(s, 0);
    let front = slice(s, start, s.len());
    let end = back_white_exec(&front, front.len());
    slice(&front, 0, end)
}

/// Brace depth change of one character.
pub open spec fn brace_delta(c: char) -> int {
    if c == '{' {
        1
    } else if c == '}' {
        -1
    } else {
        0
    }
}

/// Scanning from `pos` at brace depth `depth`, the index just past the
/// character that brings the depth to zero, or -1 if none does.
pub open spec fn block_scan(s: Seq<char>, pos: int, depth: int) -> int
    decreases s.len() - pos,
{
    if pos < 0 || pos >= s.len() {
        -1
    } else if depth + brace_delta(s[pos]) == 0 {
        pos + 1
    } else {
        block_scan(s, pos + 1, depth + brace_delta(s[pos]))
    }
}

/// The end of the block opened at `opening`: just past the first point
/// where the braces counted from `opening` balance, or -1 if they never do.
pub open spec fn spec_block_end(s: Seq<char>, opening: int) -> int {
    block_scan(s, opening, 0)
}

pub proof fn lemma_block_scan(s: Seq<char>, pos: int, depth: int)
    requires
        0 <= pos,
    ensures
        block_scan(s, pos, depth) == -1 || (pos < block_scan(s, pos, depth) <= s.len()),
    decreases s.len() - pos,
{
    if pos < s.len() && depth + brace_delta(s[pos]) != 0 {
        lemma_block_scan(s, pos + 1, depth + brace_delta(s[pos]));
    }
}

/// The end of the block opened at `opening`; the block must close.
pub fn block_end(source: &Vec<char>, opening: usize) -> (r: usize)
    requires
        spec_block_end(source@, opening as int) >= 0,
    ensures
        r as int == spec_block_end(source@, opening as int),
        opening < r <= source@.len(),
{
    proof {
        lemma_block_scan(source@, opening as int, 0);
    }
    let mut depth: i128 = 0;
    let mut pos = opening;
    loop
        invariant
            opening <= pos,
            block_scan(source@, pos as int, depth as int) == spec_block_end(source@, opening as int),
            spec_block_end(source@, opening as int) >= 0,
            -(pos as int) + (opening as int) <= depth <= pos - opening,
            pos <= source@.len(),
        decreases source@.len() - pos,
    {
        if pos >= source.len() {
            assert(false);
            return 0;
        }
        let c = source[pos];
        let next: i128 = if c == '{' {
            depth + 1
        } else if c == '}' {
            depth - 1
        } else {
            depth
        };
        if next == 0 {
            return pos + 1;
        }
        depth = next;
        pos = pos + 1;
    }
}

/// The end of the block opened at `opening`, or `None` where its braces
/// never balance.
pub fn block_end_checked(source: &Vec<char>, opening: usize) -> (r: Option<usize>)
    ensures
        r is None <==> spec_block_end(source@, opening as int) < 0,
        r matches Some(e) ==> e as int == spec_block_end(source@, opening as int) && opening < e
            <= source@.len(),
{
    proof {
        lemma_block_scan(source@, opening as int, 0);
    }
    let mut depth: i128 = 0;
    let mut pos = opening;
    loop
        invariant
            opening <= pos,
            block_scan(source@, pos as int, depth as int) == spec_block_end(source@, opening as int),
            -(pos as int) + (opening as int) <= depth <= pos - opening,
        decreases source@.len() - pos,
    {
        if pos >= source.len() {
            return None;
        }
        let c = source[pos];
        let next: i128 = if c == '{' {
            depth + 1
        } else if c == '}' {
            depth - 1
        } else {
            depth
        };
        if next == 0 {
            return Some(pos + 1);
        }
        depth = next;
        pos = pos + 1;
    }
}

/// Where the function `name` starts, where its body opens, and where it
/// ends: the first `fn name(`, the first brace after it, and the end of
/// that block (-1 for any that is missing).
pub open spec fn function_span(s: Seq<char>, name: Seq<char>) -> (int, int, int) {
    let start = find_from(s, "fn "@ + name + "("@, 0);
    let opening = if start < 0 {
        -1
    } else {
        find_from(s, "{"@, start)
    };
    let end = if opening < 0 {
        -1
    } else {
        spec_block_end(s, opening)
    };
    (start, opening, end)
}

/// Whether the function `name` can be found and its body closes.
pub open spec fn has_function(s: Seq<char>, name: Seq<char>) -> bool {
    function_span(s, name).0 >= 0 && function_span(s, name).1 >= 0 && function_span(s, name).2
        >= 0
}

/// The text of the function `name`, from `fn` to its closing brace.
pub open spec fn spec_function(s: Seq<char>, name: Seq<char>) -> Seq<char> {
    s.subrange(function_span(s, name).0, function_span(s, name).2)
}

/// `s` with the body of the function `name` replaced by `body`.
pub open spec fn spec_replace_body(s: Seq<char>, name: Seq<char>, body: Seq<char>) -> Seq<char> {
    s.subrange(0, function_span(s, name).1 + 1) + body + s.subrange(
        function_span(s, name).2 - 1,
        s.len() as int,
    )
}

fn function_header(name: &Vec<char>) -> (r: Vec<char>)
    ensures
        r@ == "fn "@ + name@ + "("@,
{
    let mut header: Vec<char> = Vec::new();
    header.push('f');
    header.push('n');
    header.push(' ');
    append_all(&mut header, name);
    header.push('(');
    proof {
        reveal_strlit("fn ");
        reveal_strlit("(");
        assert(header@ =~= "fn "@ + name@ + "("@);
    }
    header
}

/// Locates the function `name`.
pub fn locate_function(source: &Vec<char>, name: &Vec<char>) -> (r: (usize, usize, usize))
    requires
        has_function(source@, name@),
    ensures
        r.0 as int == function_span(source@, name@).0,
        r.1 as int == function_span(source@, name@).1,
        r.2 as int == function_span(source@, name@).2,
        r.0 <= r.1 < r.2 <= source@.len(),
{
    let header = function_header(name);
    let brace: Vec<char> = vec!['{'];
    proof {
        reveal_strlit("{");
        reveal_strlit("fn ");
        assert(brace@ =~= "{"@);
        lemma_find_from(source@, header@, 0);
    }
    let start = match find_exec(source, &header, 0) {
        Some(i) => i,
        None => {
            assert(false);
            0
        },
    };
    proof {
        lemma_find_from(source@, brace@, start as int);
    }
    let opening = match find_exec(source, &brace, start) {
        Some(i) => i,
        None => {
            assert(false);
            0
        },
    };
    let end = block_end(source, opening);
    (start, opening, end)
}

/// Locates the function `name`, or `None` where it is missing or its body
/// never closes.
pub fn locate_function_checked(source: &Vec<char>, name: &Vec<char>) -> (r: Option<(usize, usize, usize)>)
    ensures
        r is Some <==> has_function(source@, name@),
        r matches Some(t) ==> t.0 as int == function_span(source@, name@).0 && t.1 as int
            == function_span(source@, name@).1 && t.2 as int == function_span(source@, name@).2
            && t.0 <= t.1 < t.2 <= source@.len(),
{
    let header = function_header(name);
    let brace: Vec<char> = vec!['{'];
    proof {
        reveal_strlit("{");
        reveal_strlit("fn ");
        assert(brace@ =~= "{"@);
        lemma_find_from(source@, header@, 0);
    }
    let start = match find_exec(source, &header, 0) {
        Some(i) => i,
        None => {
            return None;
        },
    };
    proof {
        lemma_find_from(source@, brace@, start as int);
    }
    let opening = match find_exec(source, &brace, start) {
        Some(i) => i,
        None => {
            return None;
        },
    };
    match block_end_checked(source, opening) {
        Some(end) => Some((start, opening, end)),
        None => None,
    }
}

/// Whether the function `name` can be found and its body closes.
pub fn has_function_exec(source: &Vec<char>, name: &Vec<char>) -> (r: bool)
    ensures
        r == has_function(source@, name@),
{
    locate_function_checked(source, name).is_some()
}

/// The text of the function `name`.
pub fn function(source: &Vec<char>, name: &Vec<char>) -> (r: Vec<char>)
    requires
        has_function(source@, name@),
    ensures
        r@ == spec_function(source@, name@),
{
    let (start, _opening, end) = locate_function(source, name);
    slice(source, start, end)
}

/// Replaces the body of the function `name` with `body`.
pub fn replace_body(source: &mut Vec<char>, name: &Vec<char>, body: &Vec<char>)
    requires
        has_function(old(source)@, name@),
    ensures
        final(source)@ == spec_replace_body(old(source)@, name@, body@),
{
    let (_start, opening, end) = locate_function(source, name);
    let mut out: Vec<char> = Vec::new();
    append_range(&mut out, source, 0, opening + 1);
    append_all(&mut out, body);
    append_range(&mut out, source, end - 1, source.len());
    *source = out;
}

/// The value of a decimal digit string.
pub open spec fn digits_value(d: Seq<char>) -> int
    decreases d.len(),
{
    if d.len() == 0 {
        0
    } else {
        digits_value(d.drop_last()) * 10 + (d.last() as int - '0' as int)
    }
}

pub open spec fn all_digits(d: Seq<char>) -> bool {
    forall|i: int| 0 <= i < d.len() ==> '0' <= #[trigger] d[i] <= '9'
}

/// `u32::from_str`: an optional `+`, then at least one decimal digit, with
/// a value that fits.
pub open spec fn parse_u32(t: Seq<char>) -> Option<u32> {
    let body = if t.len() > 0 && t[0] == '+' {
        t.drop_first()
    } else {
        t
    };
    if body.len() > 0 && all_digits(body) && digits_value(body) <= u32::MAX {
        Some(digits_value(body) as u32)
    } else {
        None
    }
}

proof fn lemma_digits_value_nonnegative(d: Seq<char>)
    requires
        all_digits(d),
    ensures
        digits_value(d) >= 0,
    decreases d.len(),
{
    if d.len() > 0 {
        lemma_digits_value_nonnegative(d.drop_last());
    }
}

proof fn lemma_digits_value_grows(d: Seq<char>)
    requires
        all_digits(d),
        d.len() > 0,
    ensures
        digits_value(d) >= digits_value(d.drop_last()),
        digits_value(d.drop_last()) <= digits_value(d) / 10,
{
    lemma_digits_value_nonnegative(d.drop_last());
}

/// Parses a `u32` as `str::parse` does.
pub fn parse_u32_exec(t: &Vec<char>) -> (r: Option<u32>)
    ensures
        r == parse_u32(t@),
{
    let start: usize = if t.len() > 0 && t[0] == '+' {
        1
    } else {
        0
    };
    let body = slice(t, start, t.len());
    proof {
        if t@.len() > 0 && t@[0] == '+' {
            assert(body@ =~= t@.drop_first());
        } else {
            assert(body@ =~= t@);
        }
    }
    if body.len() == 0 {
        return None;
    }
    let mut value: u64 = 0;
    let mut i: usize = 0;
    while i < body.len()
        invariant
            body@ == (if t@.len() > 0 && t@[0] == '+' {
                t@.drop_first()
            } else {
                t@
            }),
            body@.len() > 0,
            i <= body@.len(),
            all_digits(body@.take(i as int)),
            value == digits_value(body@.take(i as int)),
            value <= u32::MAX,
        decreases body@.len() - i,
    {
        let c = body[i];
        proof {
            assert(body@.take(i as int + 1).drop_last() =~= body@.take(i as int));
        }
        if !('0' <= c && c <= '9') {
            proof {
                assert(!all_digits(body@)) by {
                    assert(!('0' <= body@[i as int] <= '9'));
                }
            }
            return None;
        }
        let digit: u64 = (c as u32 - '0' as u32) as u64;
        let next: u64 = value * 10 + digit;
        if next > 0xffff_ffff {
            proof {
                assert(all_digits(body@.take(i as int + 1)));
                lemma_prefix_value_bounds(body@, i as int + 1);
            }
            return None;
        }
        value = next;
        i = i + 1;
    }
    proof {
        assert(body@.take(i as int) =~= body@);
    }
    Some(value as u32)
}

/// A digit string's value is at least that of any prefix.
proof fn lemma_prefix_value_bounds(d: Seq<char>, k: int)
    requires
        0 <= k <= d.len(),
        all_digits(d.take(k)),
    ensures
        all_digits(d) ==> digits_value(d) >= digits_value(d.take(k)),
    decreases d.len() - k,
{
    if k < d.len() && all_digits(d) {
        assert(all_digits(d.take(k + 1)));
        lemma_prefix_value_bounds(d, k + 1);
        assert(d.take(k + 1).drop_last() =~= d.take(k));
        lemma_digits_value_grows(d.take(k + 1));
        lemma_digits_value_nonnegative(d.take(k));
    }
    if k == d.len() {
        assert(d.take(k) =~= d);
    }
}

} // verus!
