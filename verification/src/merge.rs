//! Idempotent edits of existing C# sources: `using` directives and insertions
//! into method and class bodies.
use crate::mapping::Mapping;
use crate::pattern::{regex_compiles, regex_find, regex_first_match};
use crate::text::{
    chars_of, contains, copy_str, find_from, find_from_exec, join, join_exec, lemma_contains_prefix,
    lemma_contains_trans, lemma_join_contains, lemma_trim_in_trim_end, lines, lines_exec, lower, occurs_at,
    opt_int, push_str, starts_with, starts_with_exec, str_contains, string_of_range, to_lower,
    str_eq, trim, trim_end, trim_end_exec, trim_exec, trim_start, trim_start_exec, views,
};
use vstd::prelude::*;

pub mod application;
pub mod ef_core;
pub mod permissions;
pub mod toolbars;
pub mod web;

verus! {

/* ------------------------------ using directives ------------------------------ */

pub open spec fn is_using_line(l: Seq<char>) -> bool {
    starts_with(trim_start(l), "using "@)
}

/// Index of the last line that starts a `using` directive.
pub open spec fn last_using(ls: Seq<Seq<char>>) -> Option<int>
    decreases ls.len(),
{
    if ls.len() == 0 {
        None
    } else if is_using_line(ls.last()) {
        Some(ls.len() - 1)
    } else {
        last_using(ls.drop_last())
    }
}

/// `src` with the directive `u` added after the last `using` line (or at the
/// top), unless `src` already contains it.
pub open spec fn ensure_using_spec(src: Seq<char>, u: Seq<char>) -> Seq<char> {
    if contains(src, trim(u)) {
        src
    } else {
        let ins = trim_end(u) + "\n"@;
        match last_using(lines(src)) {
            Some(k) => join(lines(src).insert(k + 1, ins), "\n"@),
            None => ins + src,
        }
    }
}

pub proof fn lemma_last_using_range(ls: Seq<Seq<char>>)
    ensures
        last_using(ls) matches Some(k) ==> 0 <= k < ls.len(),
    decreases ls.len(),
{
    if ls.len() > 0 && !is_using_line(ls.last()) {
        lemma_last_using_range(ls.drop_last());
    }
}

/// After `ensure_using`, the source contains the directive.
pub proof fn lemma_ensure_using_contains(src: Seq<char>, u: Seq<char>)
    ensures
        contains(ensure_using_spec(src, u), trim(u)),
{
    if !contains(src, trim(u)) {
        let ins = trim_end(u) + "\n"@;
        lemma_trim_in_trim_end(u);
        lemma_contains_prefix(trim_end(u), "\n"@);
        lemma_contains_trans(ins, trim_end(u), trim(u));
        lemma_last_using_range(lines(src));
        match last_using(lines(src)) {
            Some(k) => {
                let parts = lines(src).insert(k + 1, ins);
                assert(parts[k + 1] == ins);
                lemma_join_contains(parts, "\n"@, k + 1);
                lemma_contains_trans(join(parts, "\n"@), ins, trim(u));
            },
            None => {
                lemma_contains_prefix(ins, src);
                lemma_contains_trans(ins + src, ins, trim(u));
            },
        }
    }
}

/// Law: adding a `using` directive twice gives the same source as adding it
/// once.
pub proof fn lemma_ensure_using_idempotent(src: Seq<char>, u: Seq<char>)
    ensures
        ensure_using_spec(ensure_using_spec(src, u), u) == ensure_using_spec(src, u),
{
    lemma_ensure_using_contains(src, u);
}

/// Adding a `using` directive keeps every text without line breaks that the
/// source held.
pub proof fn lemma_ensure_using_keeps(src: Seq<char>, u: Seq<char>, m: Seq<char>)
    requires
        contains(src, m),
        crate::text::single_line(m),
    ensures
        contains(ensure_using_spec(src, u), m),
{
    if m.len() == 0 {
        crate::text::lemma_contains_empty(ensure_using_spec(src, u), m);
    } else if !contains(src, trim(u)) {
        let ins = trim_end(u) + "\n"@;
        lemma_last_using_range(lines(src));
        match last_using(lines(src)) {
            Some(k) => {
                crate::text::lemma_lines_keep(src, m);
                let i = choose|i: int| 0 <= i < lines(src).len() && contains(#[trigger] lines(src)[i], m);
                let parts = lines(src).insert(k + 1, ins);
                let idx = if i <= k { i } else { i + 1 };
                assert(parts[idx] == lines(src)[i]);
                lemma_join_contains(parts, "\n"@, idx);
                lemma_contains_trans(join(parts, "\n"@), parts[idx], m);
            },
            None => {
                crate::text::lemma_contains_within(ins, src, Seq::empty(), m);
                assert(ins + src + Seq::<char>::empty() =~= ins + src);
            },
        }
    }
}

/// Two directives: the second added keeps the first, so both are there.
pub proof fn lemma_ensure_using_pair(src: Seq<char>, u1: Seq<char>, u2: Seq<char>)
    requires
        crate::text::single_line(u1),
    ensures
        contains(ensure_using_spec(ensure_using_spec(src, u1), u2), trim(u1)),
        contains(ensure_using_spec(ensure_using_spec(src, u1), u2), trim(u2)),
{
    lemma_ensure_using_contains(src, u1);
    crate::text::lemma_trim_single_line(u1);
    lemma_ensure_using_keeps(ensure_using_spec(src, u1), u2, trim(u1));
    lemma_ensure_using_contains(ensure_using_spec(src, u1), u2);
}

/// Adds the directive `using_stmt` after the last `using` line of `src`, or
/// at the top when there is none, unless `src` already contains it.
pub fn ensure_using(src: &str, using_stmt: &str) -> (r: String)
    ensures
        r@ == ensure_using_spec(src@, using_stmt@),
{
    let t = trim_exec(using_stmt);
    if str_contains(src, t.as_str()) {
        return copy_str(src);
    }
    let mut ls = lines_exec(src);
    let kw = chars_of("using ");
    let mut last: Option<usize> = None;
    let mut i: usize = 0;
    while i < ls.len()
        invariant
            i <= ls.len(),
            views(ls@) == lines(src@),
            kw@ == "using "@,
            opt_int(last) == last_using(views(ls@).take(i as int)),
            last matches Some(k) ==> k < i,
        decreases ls.len() - i,
    {
        let ts = trim_start_exec(ls[i].as_str());
        let tc = chars_of(ts.as_str());
        let is_using = starts_with_exec(&tc, &kw);
        proof {
            let v = views(ls@);
            assert(v.take(i + 1).drop_last() =~= v.take(i as int));
            assert(v.take(i + 1).last() == ls@[i as int]@);
        }
        if is_using {
            last = Some(i);
        }
        i = i + 1;
    }
    proof {
        assert(views(ls@).take(ls.len() as int) =~= views(ls@));
    }
    let mut ins = trim_end_exec(using_stmt);
    push_str(&mut ins, "\n");
    match last {
        Some(k) => {
            let ghost before = views(ls@);
            let ghost insv = ins@;
            ls.insert(k + 1, ins);
            proof {
                assert(views(ls@) =~= before.insert(k + 1, insv));
            }
            join_exec(&ls, "\n")
        },
        None => {
            push_str(&mut ins, src);
            ins
        },
    }
}

/* ------------------------------ brace-delimited blocks ------------------------------ */

/// Position of the `}` that closes the block whose nesting depth is `depth`
/// before position `i`.
pub open spec fn close_from(s: Seq<char>, i: int, depth: int) -> Option<int>
    decreases s.len() - i,
{
    if i < 0 || i >= s.len() {
        None
    } else if s[i] == '{' {
        close_from(s, i + 1, depth + 1)
    } else if s[i] == '}' {
        if depth - 1 == 0 {
            Some(i)
        } else {
            close_from(s, i + 1, depth - 1)
        }
    } else {
        close_from(s, i + 1, depth)
    }
}

/// Opening and closing brace of the first block that starts at or after
/// `from`.
pub open spec fn block_after(s: Seq<char>, from: int) -> Option<(int, int)> {
    match find_from(s, seq!['{'], from) {
        None => None,
        Some(o) => match close_from(s, o, 0) {
            None => None,
            Some(c) => Some((o, c)),
        },
    }
}

/// Where the brace search begins for a declaration match ending at `e`: on
/// its last character.
pub open spec fn search_start(e: int) -> int {
    if e > 0 {
        e - 1
    } else {
        0
    }
}

pub open spec fn insert_at(s: Seq<char>, p: int, ins: Seq<char>) -> Seq<char> {
    s.take(p) + ins + s.skip(p)
}

/// `src` with `ins` placed before the brace that closes the body following
/// the declaration match `m`.
pub open spec fn insert_before_close_spec(src: Seq<char>, m: Option<(int, int)>, ins: Seq<char>) -> Seq<char> {
    match m {
        None => src,
        Some(p) => match block_after(src, search_start(p.1)) {
            None => src,
            Some(b) => insert_at(src, b.1, ins),
        },
    }
}

/// `src` with `ins` placed inside the class body following the declaration
/// match `m`: before its closing brace, or right after its opening brace.
pub open spec fn insert_inside_class_spec(
    src: Seq<char>,
    m: Option<(int, int)>,
    ins: Seq<char>,
    before_final: bool,
) -> Seq<char> {
    match m {
        None => src,
        Some(p) => match block_after(src, search_start(p.1)) {
            None => src,
            Some(b) => if before_final {
                insert_at(src, b.1, ins)
            } else {
                insert_at(src, b.0 + 1, ins)
            },
        },
    }
}

pub open spec fn invalid_pattern_msg(pattern: Seq<char>) -> Seq<char> {
    "invalid regular expression: "@ + pattern
}

fn matching_close(s: &[char], open: usize) -> (r: Option<usize>)
    requires
        open < s.len(),
        s@[open as int] == '{',
    ensures
        opt_int(r) == close_from(s@, open as int, 0),
{
    let mut depth: usize = 0;
    let mut i: usize = open;
    while i < s.len()
        invariant
            open <= i <= s.len(),
            s@[open as int] == '{',
            close_from(s@, open as int, 0) == close_from(s@, i as int, depth as int),
            i == open ==> depth == 0,
            i > open ==> depth >= 1,
            depth <= i - open,
        decreases s.len() - i,
    {
        let c = s[i];
        if c == '{' {
            depth = depth + 1;
        } else if c == '}' {
            if depth == 1 {
                return Some(i);
            }
            depth = depth - 1;
        }
        i = i + 1;
    }
    None
}

pub(crate) fn block_after_exec(s: &[char], from: usize) -> (r: Option<(usize, usize)>)
    ensures
        match (r, block_after(s@, from as int)) {
            (Some(a), Some(b)) => a.0 == b.0 && a.1 == b.1 && a.0 < a.1 < s@.len(),
            (None, None) => true,
            _ => false,
        },
{
    let brace = vec!['{'];
    assert(brace@ == seq!['{']);
    match find_from_exec(s, &brace, from) {
        None => None,
        Some(o) => {
            proof {
                crate::text::lemma_find_from_sound(s@, brace@, from as int);
                assert(s@.subrange(o as int, o + 1)[0] == '{');
            }
            match matching_close(s, o) {
                None => None,
                Some(c) => {
                    proof {
                        lemma_close_after(s@, o as int, 0);
                    }
                    Some((o, c))
                },
            }
        },
    }
}

proof fn lemma_close_after(s: Seq<char>, i: int, depth: int)
    ensures
        close_from(s, i, depth) matches Some(c) ==> i <= c < s.len() && (c == i ==> depth == 1),
    decreases s.len() - i,
{
    if i < 0 || i >= s.len() {
    } else if s[i] == '{' {
        lemma_close_after(s, i + 1, depth + 1);
    } else if s[i] == '}' {
        if depth - 1 != 0 {
            lemma_close_after(s, i + 1, depth - 1);
        }
    } else {
        lemma_close_after(s, i + 1, depth);
    }
}

pub(crate) fn insert_at_exec(cs: &[char], p: usize, ins: &str) -> (r: String)
    requires
        p <= cs.len(),
    ensures
        r@ == insert_at(cs@, p as int, ins@),
{
    let mut out = string_of_range(cs, 0, p);
    push_str(&mut out, ins);
    let tail = string_of_range(cs, p, cs.len());
    push_str(&mut out, tail.as_str());
    proof {
        assert(cs@.take(p as int) =~= cs@.subrange(0, p as int));
        assert(cs@.skip(p as int) =~= cs@.subrange(p as int, cs@.len() as int));
    }
    out
}

pub(crate) fn invalid_pattern(pattern: &str) -> (r: String)
    ensures
        r@ == invalid_pattern_msg(pattern@),
{
    let mut r = copy_str("invalid regular expression: ");
    push_str(&mut r, pattern);
    r
}

/// Inserts `insertion` before the brace that closes the body of the first
/// method whose declaration matches `pattern`; `src` unchanged when there is
/// no such method or its body does not close.
pub fn insert_before_last_close_brace_of_method(src: &str, pattern: &str, insertion: &str) -> (r:
    Result<String, String>)
    ensures
        r is Ok <==> regex_compiles(pattern@),
        r matches Ok(s) ==> s@ == insert_before_close_spec(
            src@,
            regex_first_match(pattern@, src@),
            insertion@,
        ),
        r matches Err(e) ==> e@ == invalid_pattern_msg(pattern@),
{
    let found = match regex_find(pattern, src) {
        Ok(m) => m,
        Err(_) => {
            return Err(invalid_pattern(pattern));
        },
    };
    match found {
        None => Ok(copy_str(src)),
        Some((_, e)) => {
            let cs = chars_of(src);
            let from = if e > 0 {
                e - 1
            } else {
                0
            };
            match block_after_exec(&cs, from) {
                None => Ok(copy_str(src)),
                Some((_, c)) => Ok(insert_at_exec(&cs, c, insertion)),
            }
        },
    }
}

/// Inserts `insertion` into the body of the first class whose declaration
/// matches `pattern`: before its closing brace when `before_final`, else
/// right after its opening brace.
pub fn insert_inside_class(src: &str, pattern: &str, insertion: &str, before_final: bool) -> (r:
    Result<String, String>)
    ensures
        r is Ok <==> regex_compiles(pattern@),
        r matches Ok(s) ==> s@ == insert_inside_class_spec(
            src@,
            regex_first_match(pattern@, src@),
            insertion@,
            before_final,
        ),
        r matches Err(e) ==> e@ == invalid_pattern_msg(pattern@),
{
    let found = match regex_find(pattern, src) {
        Ok(m) => m,
        Err(_) => {
            return Err(invalid_pattern(pattern));
        },
    };
    match found {
        None => Ok(copy_str(src)),
        Some((_, e)) => {
            let cs = chars_of(src);
            let from = if e > 0 {
                e - 1
            } else {
                0
            };
            match block_after_exec(&cs, from) {
                None => Ok(copy_str(src)),
                Some((o, c)) => {
                    if before_final {
                        Ok(insert_at_exec(&cs, c, insertion))
                    } else {
                        Ok(insert_at_exec(&cs, o + 1, insertion))
                    }
                },
            }
        },
    }
}

/* ------------------------------ insertion laws ------------------------------ */

pub proof fn lemma_insert_at_contains(s: Seq<char>, p: int, ins: Seq<char>)
    requires
        0 <= p <= s.len(),
    ensures
        contains(insert_at(s, p, ins), ins),
{
    crate::text::lemma_contains_self(ins);
    crate::text::lemma_contains_within(s.take(p), ins, s.skip(p), ins);
}

pub proof fn lemma_block_after_range(s: Seq<char>, from: int)
    ensures
        block_after(s, from) matches Some(b) ==> 0 <= b.0 < b.1 < s.len(),
{
    if from >= 0 {
        crate::text::lemma_find_from_sound(s, seq!['{'], from);
    } else {
        assert(find_from(s, seq!['{'], from) is None);
    }
    match find_from(s, seq!['{'], from) {
        Some(o) => {
            lemma_close_after(s, o, 0);
            assert(s.subrange(o, o + 1)[0] == s[o]);
            if close_from(s, o, 0) == Some(o) {
                assert(s[o] == '{');
            }
        },
        None => {},
    }
}

/// A method-body insertion either leaves the source alone or adds the
/// inserted text.
pub proof fn lemma_insert_before_close_effect(src: Seq<char>, m: Option<(int, int)>, ins: Seq<char>)
    ensures
        insert_before_close_spec(src, m, ins) == src || contains(
            insert_before_close_spec(src, m, ins),
            ins,
        ),
{
    if let Some(p) = m {
        lemma_block_after_range(src, search_start(p.1));
        if let Some(b) = block_after(src, search_start(p.1)) {
            lemma_insert_at_contains(src, b.1, ins);
        }
    }
}

/// A class-body insertion either leaves the source alone or adds the
/// inserted text.
pub proof fn lemma_insert_inside_class_effect(
    src: Seq<char>,
    m: Option<(int, int)>,
    ins: Seq<char>,
    before_final: bool,
)
    ensures
        insert_inside_class_spec(src, m, ins, before_final) == src || contains(
            insert_inside_class_spec(src, m, ins, before_final),
            ins,
        ),
{
    if let Some(p) = m {
        lemma_block_after_range(src, search_start(p.1));
        if let Some(b) = block_after(src, search_start(p.1)) {
            if before_final {
                lemma_insert_at_contains(src, b.1, ins);
            } else {
                lemma_insert_at_contains(src, b.0 + 1, ins);
            }
        }
    }
}

/* ------------------------------ what insertions keep ------------------------------ */

/// `m` holds no brace.
pub open spec fn brace_free(m: Seq<char>) -> bool {
    forall|i: int| 0 <= i < m.len() ==> #[trigger] m[i] != '{' && m[i] != '}'
}

/// No occurrence of `m` in `s` straddles position `p`.
pub open spec fn cut_ok(s: Seq<char>, p: int, m: Seq<char>) -> bool {
    forall|o: int| #[trigger] occurs_at(s, m, o) ==> o + m.len() <= p || o >= p
}

/// What lies inside a brace-free text is brace-free.
pub proof fn lemma_brace_free_within(h: Seq<char>, m: Seq<char>)
    requires
        contains(h, m),
        brace_free(h),
    ensures
        brace_free(m),
{
    let o = choose|o: int| occurs_at(h, m, o);
    assert forall|i: int| 0 <= i < m.len() implies #[trigger] m[i] != '{' && m[i] != '}' by {
        assert(m[i] == h.subrange(o, o + m.len())[i]);
        assert(h[o + i] != '{' && h[o + i] != '}');
    }
}

/// A brace-free text cannot straddle a position that holds `}` or follows
/// `{`.
pub proof fn lemma_cut_at_brace(s: Seq<char>, p: int, m: Seq<char>)
    requires
        brace_free(m),
        (0 <= p < s.len() && s[p] == '}') || (0 < p <= s.len() && s[p - 1] == '{'),
    ensures
        cut_ok(s, p, m),
{
    assert forall|o: int| #[trigger] occurs_at(s, m, o) implies o + m.len() <= p || o >= p by {
        if o < p && p < o + m.len() {
            if 0 <= p < s.len() && s[p] == '}' {
                assert(m[p - o] == s.subrange(o, o + m.len())[p - o]);
            } else {
                assert(m[p - 1 - o] == s.subrange(o, o + m.len())[p - 1 - o]);
            }
        }
    }
}

/// A text without line breaks cannot straddle the start of a line.
pub proof fn lemma_cut_at_line_start(s: Seq<char>, p: int, m: Seq<char>)
    requires
        crate::text::single_line(m),
        p == 0 || (0 < p <= s.len() && s[p - 1] == '\n'),
    ensures
        cut_ok(s, p, m),
{
    assert forall|o: int| #[trigger] occurs_at(s, m, o) implies o + m.len() <= p || o >= p by {
        if o < p && p < o + m.len() {
            assert(m[p - 1 - o] == s.subrange(o, o + m.len())[p - 1 - o]);
        }
    }
}

/// An insertion where no occurrence of `m` is cut keeps `m`.
pub proof fn lemma_insert_at_keeps(s: Seq<char>, p: int, ins: Seq<char>, m: Seq<char>)
    requires
        0 <= p <= s.len(),
        contains(s, m),
        cut_ok(s, p, m),
    ensures
        contains(insert_at(s, p, ins), m),
{
    let o = choose|o: int| occurs_at(s, m, o);
    let t = insert_at(s, p, ins);
    if o + m.len() <= p {
        assert(t.subrange(o, o + m.len()) =~= s.subrange(o, o + m.len()));
        assert(occurs_at(t, m, o));
    } else {
        assert(t.subrange(o + ins.len(), o + ins.len() + m.len()) =~= s.subrange(o, o + m.len()));
        assert(occurs_at(t, m, o + ins.len()));
    }
}

proof fn lemma_close_from_brace(s: Seq<char>, i: int, depth: int)
    ensures
        close_from(s, i, depth) matches Some(c) ==> 0 <= c < s.len() && s[c] == '}',
    decreases s.len() - i,
{
    if i < 0 || i >= s.len() {
    } else if s[i] == '{' {
        lemma_close_from_brace(s, i + 1, depth + 1);
    } else if s[i] == '}' {
        if depth - 1 != 0 {
            lemma_close_from_brace(s, i + 1, depth - 1);
        }
    } else {
        lemma_close_from_brace(s, i + 1, depth);
    }
}

/// The block found after `from` starts with `{` and ends with `}`.
pub proof fn lemma_block_after_braces(s: Seq<char>, from: int)
    ensures
        block_after(s, from) matches Some(b) ==> 0 <= b.0 < b.1 < s.len() && s[b.0] == '{' && s[b.1]
            == '}',
{
    lemma_block_after_range(s, from);
    if from >= 0 {
        crate::text::lemma_find_from_sound(s, seq!['{'], from);
    }
    match find_from(s, seq!['{'], from) {
        Some(o) => {
            if from < 0 {
                assert(find_from(s, seq!['{'], from) is None);
            }
            assert(s.subrange(o, o + 1)[0] == s[o]);
            lemma_close_from_brace(s, o, 0);
        },
        None => {},
    }
}

/// A method-body insertion keeps every brace-free text.
pub proof fn lemma_insert_before_close_keeps(src: Seq<char>, mm: Option<(int, int)>, ins: Seq<char>, m: Seq<char>)
    requires
        contains(src, m),
        brace_free(m),
    ensures
        contains(insert_before_close_spec(src, mm, ins), m),
{
    if let Some(p) = mm {
        lemma_block_after_braces(src, search_start(p.1));
        if let Some(b) = block_after(src, search_start(p.1)) {
            lemma_cut_at_brace(src, b.1, m);
            lemma_insert_at_keeps(src, b.1, ins, m);
        }
    }
}

/// A class-body insertion keeps every brace-free text.
pub proof fn lemma_insert_inside_class_keeps(
    src: Seq<char>,
    mm: Option<(int, int)>,
    ins: Seq<char>,
    before_final: bool,
    m: Seq<char>,
)
    requires
        contains(src, m),
        brace_free(m),
    ensures
        contains(insert_inside_class_spec(src, mm, ins, before_final), m),
{
    if let Some(p) = mm {
        lemma_block_after_braces(src, search_start(p.1));
        if let Some(b) = block_after(src, search_start(p.1)) {
            if before_final {
                lemma_cut_at_brace(src, b.1, m);
                lemma_insert_at_keeps(src, b.1, ins, m);
            } else {
                lemma_cut_at_brace(src, b.0 + 1, m);
                lemma_insert_at_keeps(src, b.0 + 1, ins, m);
            }
        }
    }
}

/* ------------------------------ merge context ------------------------------ */

/// The names that every merge step needs, read from the generation mapping.
pub struct MergeContext {
    pub domain: String,
    pub short: String,
    pub entity: String,
    pub entity_plural: String,
    pub entity_lower: String,
    pub namespace: String,
    pub web_namespace: String,
    pub is_mvc: bool,
    pub is_razor: bool,
}

pub open spec fn missing_key_msg(key: Seq<char>) -> Seq<char> {
    "merge mapping is missing required key '"@ + key + "'"@
}

/// A key is usable when it is present with a value that is not blank.
pub open spec fn has_value(m: Mapping, key: Seq<char>) -> bool {
    m.get_spec(key) matches Some(v) && trim(v).len() > 0
}

pub open spec fn ui_target_of(m: Mapping) -> Seq<char> {
    match m.get_spec("ui_target"@) {
        Some(v) => lower(v),
        None => Seq::empty(),
    }
}

/// The first required key that has no usable value, in the order in which
/// the context reads them.
pub open spec fn first_missing_key(m: Mapping) -> Option<Seq<char>> {
    if ui_target_of(m) == "razor"@ && !has_value(m, "web_namespace"@) {
        Some("web_namespace"@)
    } else if !has_value(m, "domain_name"@) {
        Some("domain_name"@)
    } else if !has_value(m, "domain_short"@) {
        Some("domain_short"@)
    } else if !has_value(m, "entity_name"@) {
        Some("entity_name"@)
    } else if !has_value(m, "entity_plural"@) {
        Some("entity_plural"@)
    } else if !has_value(m, "entity_name_lower"@) {
        Some("entity_name_lower"@)
    } else if !has_value(m, "namespace"@) {
        Some("namespace"@)
    } else {
        None
    }
}

pub open spec fn value_of(m: Mapping, key: Seq<char>) -> Seq<char> {
    match m.get_spec(key) {
        Some(v) => v,
        None => Seq::empty(),
    }
}

fn required(m: &Mapping, key: &str) -> (r: Result<String, String>)
    ensures
        match r {
            Ok(v) => has_value(*m, key@) && v@ == value_of(*m, key@),
            Err(e) => !has_value(*m, key@) && e@ == missing_key_msg(key@),
        },
{
    match m.get(key) {
        Some(v) => {
            let t = trim_exec(v.as_str());
            if t.as_str().is_empty() {
                let mut e = copy_str("merge mapping is missing required key '");
                push_str(&mut e, key);
                push_str(&mut e, "'");
                Err(e)
            } else {
                Ok(copy_str(v.as_str()))
            }
        },
        None => {
            let mut e = copy_str("merge mapping is missing required key '");
            push_str(&mut e, key);
            push_str(&mut e, "'");
            Err(e)
        },
    }
}

impl MergeContext {
    /// Reads the merge context from the mapping; fails on the first required
    /// key without a value (`web_namespace` is required for Razor only).
    pub fn from_mapping(mapping: &Mapping) -> (r: Result<MergeContext, String>)
        ensures
            match r {
                Ok(c) => {
                    &&& first_missing_key(*mapping) is None
                    &&& c.domain@ == value_of(*mapping, "domain_name"@)
                    &&& c.short@ == value_of(*mapping, "domain_short"@)
                    &&& c.entity@ == value_of(*mapping, "entity_name"@)
                    &&& c.entity_plural@ == value_of(*mapping, "entity_plural"@)
                    &&& c.entity_lower@ == value_of(*mapping, "entity_name_lower"@)
                    &&& c.namespace@ == value_of(*mapping, "namespace"@)
                    &&& c.web_namespace@ == value_of(*mapping, "web_namespace"@)
                    &&& c.is_mvc == (ui_target_of(*mapping) == "vue"@ || ui_target_of(*mapping)
                        == "razor"@)
                    &&& c.is_razor == (ui_target_of(*mapping) == "razor"@)
                },
                Err(e) => first_missing_key(*mapping) matches Some(k) && e@ == missing_key_msg(k),
            },
    {
        let ui = match mapping.get("ui_target") {
            Some(v) => to_lower(v.as_str()),
            None => String::new(),
        };
        assert(ui@ == ui_target_of(*mapping));
        let is_razor = str_eq(ui.as_str(), "razor");
        let is_mvc = str_eq(ui.as_str(), "vue") || is_razor;
        let web_namespace = if is_razor {
            required(mapping, "web_namespace")?
        } else {
            match mapping.get("web_namespace") {
                Some(v) => copy_str(v.as_str()),
                None => String::new(),
            }
        };
        let domain = required(mapping, "domain_name")?;
        let short = required(mapping, "domain_short")?;
        let entity = required(mapping, "entity_name")?;
        let entity_plural = required(mapping, "entity_plural")?;
        let entity_lower = required(mapping, "entity_name_lower")?;
        let namespace = required(mapping, "namespace")?;
        Ok(
            MergeContext {
                domain,
                short,
                entity,
                entity_plural,
                entity_lower,
                namespace,
                web_namespace,
                is_mvc,
                is_razor,
            },
        )
    }
}

/// How a guarded merge step ended.
#[derive(Debug, Clone, Copy, PartialEq, Eq, Structural)]
pub enum StepOutcome {
    /// The snippet was inserted.
    Inserted,
    /// The snippet was already present; nothing changed.
    Present,
    /// The insertion point was not found; nothing changed.
    NotFound,
}

/* ------------------------------ guarded steps ------------------------------ */

/// A class-body insertion that is skipped when `marker` is already present.
pub open spec fn guarded_class_insert(
    src: Seq<char>,
    marker: Seq<char>,
    pattern: Seq<char>,
    ins: Seq<char>,
    before_final: bool,
) -> Seq<char> {
    if contains(src, marker) {
        src
    } else {
        insert_inside_class_spec(src, regex_first_match(pattern, src), ins, before_final)
    }
}

/// A method-body insertion that is skipped when `marker` is already present.
pub open spec fn guarded_method_insert(
    src: Seq<char>,
    marker: Seq<char>,
    pattern: Seq<char>,
    ins: Seq<char>,
) -> Seq<char> {
    if contains(src, marker) {
        src
    } else {
        insert_before_close_spec(src, regex_first_match(pattern, src), ins)
    }
}

/// Law: a guarded class insertion whose snippet carries its marker is
/// idempotent.
pub proof fn lemma_guarded_class_insert_idempotent(
    src: Seq<char>,
    marker: Seq<char>,
    pattern: Seq<char>,
    ins: Seq<char>,
    before_final: bool,
)
    requires
        contains(ins, marker),
    ensures
        guarded_class_insert(
            guarded_class_insert(src, marker, pattern, ins, before_final),
            marker,
            pattern,
            ins,
            before_final,
        ) == guarded_class_insert(src, marker, pattern, ins, before_final),
{
    if !contains(src, marker) {
        let t = insert_inside_class_spec(src, regex_first_match(pattern, src), ins, before_final);
        lemma_insert_inside_class_effect(src, regex_first_match(pattern, src), ins, before_final);
        if t != src {
            lemma_contains_trans(t, ins, marker);
        }
    }
}

/// Law: a guarded method insertion whose snippet carries its marker is
/// idempotent.
pub proof fn lemma_guarded_method_insert_idempotent(
    src: Seq<char>,
    marker: Seq<char>,
    pattern: Seq<char>,
    ins: Seq<char>,
)
    requires
        contains(ins, marker),
    ensures
        guarded_method_insert(guarded_method_insert(src, marker, pattern, ins), marker, pattern, ins)
            == guarded_method_insert(src, marker, pattern, ins),
{
    if !contains(src, marker) {
        let t = insert_before_close_spec(src, regex_first_match(pattern, src), ins);
        lemma_insert_before_close_effect(src, regex_first_match(pattern, src), ins);
        if t != src {
            lemma_contains_trans(t, ins, marker);
        }
    }
}

pub open spec fn step_ok(src: Seq<char>, result: Seq<char>, marker: Seq<char>, o: StepOutcome) -> bool {
    o == if contains(src, marker) {
        StepOutcome::Present
    } else if result == src {
        StepOutcome::NotFound
    } else {
        StepOutcome::Inserted
    }
}

/// The guarded class insertion, with how it ended.
pub fn guarded_class_step(src: &str, marker: &str, pattern: &str, ins: &str, before_final: bool) -> (r:
    Result<(String, StepOutcome), String>)
    ensures
        r is Err <==> (!contains(src@, marker@) && !regex_compiles(pattern@)),
        r matches Err(e) ==> e@ == invalid_pattern_msg(pattern@),
        r matches Ok(p) ==> p.0@ == guarded_class_insert(src@, marker@, pattern@, ins@, before_final)
            && step_ok(src@, p.0@, marker@, p.1),
{
    if str_contains(src, marker) {
        return Ok((copy_str(src), StepOutcome::Present));
    }
    let t = insert_inside_class(src, pattern, ins, before_final)?;
    if str_eq(t.as_str(), src) {
        Ok((t, StepOutcome::NotFound))
    } else {
        Ok((t, StepOutcome::Inserted))
    }
}

/// The guarded method insertion, with how it ended.
pub fn guarded_method_step(src: &str, marker: &str, pattern: &str, ins: &str) -> (r: Result<
    (String, StepOutcome),
    String,
>)
    ensures
        r is Err <==> (!contains(src@, marker@) && !regex_compiles(pattern@)),
        r matches Err(e) ==> e@ == invalid_pattern_msg(pattern@),
        r matches Ok(p) ==> p.0@ == guarded_method_insert(src@, marker@, pattern@, ins@) && step_ok(
            src@,
            p.0@,
            marker@,
            p.1,
        ),
{
    if str_contains(src, marker) {
        return Ok((copy_str(src), StepOutcome::Present));
    }
    let t = insert_before_last_close_brace_of_method(src, pattern, ins)?;
    if str_eq(t.as_str(), src) {
        Ok((t, StepOutcome::NotFound))
    } else {
        Ok((t, StepOutcome::Inserted))
    }
}

/// `a + b + c` contains `b`.
pub proof fn lemma_contains_mid(a: Seq<char>, b: Seq<char>, c: Seq<char>)
    ensures
        contains(a + b + c, b),
{
    crate::text::lemma_contains_self(b);
    crate::text::lemma_contains_within(a, b, c, b);
}

} // verus!
