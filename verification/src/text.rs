//! Character-sequence primitives shared by every generator and merge step.
//!
//! Text is modelled as `Seq<char>`: the view of a `String` or `&str`.
//! Positions are character positions, not byte offsets.
use vstd::prelude::*;
use vstd::std_specs::iter::IteratorSpec;
use vstd::string::StringExecFns;

verus! {

broadcast use vstd::string::group_string_axioms;

/* ------------------------------ SPECIFICATIONS ------------------------------ */

/// Unicode `White_Space`, the property that `char::is_whitespace` tests.
pub open spec fn is_ws(c: char) -> bool {
    ||| c == ' '
    ||| ('\t' <= c && c <= '\r')
    ||| c == '\u{85}'
    ||| c == '\u{a0}'
    ||| c == '\u{1680}'
    ||| ('\u{2000}' <= c && c <= '\u{200a}')
    ||| c == '\u{2028}'
    ||| c == '\u{2029}'
    ||| c == '\u{202f}'
    ||| c == '\u{205f}'
    ||| c == '\u{3000}'
}

pub open spec fn is_ascii_alpha(c: char) -> bool {
    ('A' <= c && c <= 'Z') || ('a' <= c && c <= 'z')
}

pub open spec fn is_ascii_digit(c: char) -> bool {
    '0' <= c && c <= '9'
}

pub open spec fn is_ascii_hex(c: char) -> bool {
    is_ascii_digit(c) || ('a' <= c && c <= 'f') || ('A' <= c && c <= 'F')
}

pub open spec fn lower_char(c: char) -> char {
    if 'A' <= c && c <= 'Z' {
        ((c as u32) + 32) as char
    } else {
        c
    }
}

pub open spec fn upper_char(c: char) -> char {
    if 'a' <= c && c <= 'z' {
        ((c as u32) - 32) as char
    } else {
        c
    }
}

/// `str::to_ascii_lowercase`.
pub open spec fn lower(s: Seq<char>) -> Seq<char> {
    s.map_values(|c: char| lower_char(c))
}

/// `n` occurs in `h` starting at position `i`.
pub open spec fn occurs_at(h: Seq<char>, n: Seq<char>, i: int) -> bool {
    0 <= i && i + n.len() <= h.len() && h.subrange(i, i + n.len()) == n
}

/// `str::contains` with a string pattern.
pub open spec fn contains(h: Seq<char>, n: Seq<char>) -> bool {
    exists|i: int| occurs_at(h, n, i)
}

/// First occurrence of `n` in `h` at or after `k`.
pub open spec fn find_from(h: Seq<char>, n: Seq<char>, k: int) -> Option<int>
    decreases h.len() + 1 - k,
{
    if k < 0 || k + n.len() > h.len() {
        None
    } else if occurs_at(h, n, k) {
        Some(k)
    } else {
        find_from(h, n, k + 1)
    }
}

/// `str::find` with a string pattern.
pub open spec fn find(h: Seq<char>, n: Seq<char>) -> Option<int> {
    find_from(h, n, 0)
}

/// Last occurrence of `n` in `h` that starts at or before `k`.
pub open spec fn rfind_from(h: Seq<char>, n: Seq<char>, k: int) -> Option<int>
    decreases k + 1,
{
    if k < 0 {
        None
    } else if occurs_at(h, n, k) {
        Some(k)
    } else {
        rfind_from(h, n, k - 1)
    }
}

/// `str::rfind` with a string pattern.
pub open spec fn rfind(h: Seq<char>, n: Seq<char>) -> Option<int> {
    rfind_from(h, n, h.len() - n.len())
}

pub open spec fn starts_with(s: Seq<char>, p: Seq<char>) -> bool {
    p.len() <= s.len() && s.take(p.len() as int) == p
}

pub open spec fn ends_with(s: Seq<char>, p: Seq<char>) -> bool {
    p.len() <= s.len() && s.skip(s.len() - p.len()) == p
}

/// `str::trim_start`.
pub open spec fn trim_start(s: Seq<char>) -> Seq<char>
    decreases s.len(),
{
    if s.len() > 0 && is_ws(s[0]) {
        trim_start(s.drop_first())
    } else {
        s
    }
}

/// `str::trim_end`.
pub open spec fn trim_end(s: Seq<char>) -> Seq<char>
    decreases s.len(),
{
    if s.len() > 0 && is_ws(s.last()) {
        trim_end(s.drop_last())
    } else {
        s
    }
}

/// `str::trim`: leading and trailing white space removed.
pub open spec fn trim(s: Seq<char>) -> Seq<char> {
    trim_start(trim_end(s))
}

/// `str::split` on one character, with the pieces accumulated left to right.
pub open spec fn split_acc(s: Seq<char>, c: char, i: int, cur: Seq<char>) -> Seq<Seq<char>>
    decreases s.len() - i,
{
    if i >= s.len() || i < 0 {
        seq![cur]
    } else if s[i] == c {
        seq![cur] + split_acc(s, c, i + 1, Seq::empty())
    } else {
        split_acc(s, c, i + 1, cur.push(s[i]))
    }
}

/// `str::split` on one character.
pub open spec fn split(s: Seq<char>, c: char) -> Seq<Seq<char>> {
    split_acc(s, c, 0, Seq::empty())
}

/// `parts.join(sep)`.
pub open spec fn join(parts: Seq<Seq<char>>, sep: Seq<char>) -> Seq<char>
    decreases parts.len(),
{
    if parts.len() == 0 {
        Seq::empty()
    } else if parts.len() == 1 {
        parts[0]
    } else {
        join(parts.drop_last(), sep) + sep + parts.last()
    }
}

/// Concatenation of all parts.
pub open spec fn concat(parts: Seq<Seq<char>>) -> Seq<char>
    decreases parts.len(),
{
    if parts.len() == 0 {
        Seq::empty()
    } else {
        concat(parts.drop_last()) + parts.last()
    }
}

pub open spec fn strip_cr(line: Seq<char>) -> Seq<char> {
    if line.len() > 0 && line.last() == '\r' {
        line.drop_last()
    } else {
        line
    }
}

/// `str::lines`: split on `'\n'`, no empty last line after a final newline,
/// one trailing `'\r'` removed from each line.
pub open spec fn lines(s: Seq<char>) -> Seq<Seq<char>> {
    if s.len() == 0 {
        Seq::empty()
    } else {
        let parts = split(s, '\n');
        let kept = if s.last() == '\n' {
            parts.drop_last()
        } else {
            parts
        };
        kept.map_values(|l: Seq<char>| strip_cr(l))
    }
}

/// Decimal digits of a natural number.
pub open spec fn digits(n: nat) -> Seq<char>
    decreases n,
{
    if n < 10 {
        seq![(('0' as u32) + n) as char]
    } else {
        digits(n / 10) + seq![(('0' as u32) + (n % 10)) as char]
    }
}

/// `i64`'s `Display` output.
pub open spec fn decimal(n: int) -> Seq<char> {
    if n < 0 {
        seq!['-'] + digits((-n) as nat)
    } else {
        digits(n as nat)
    }
}

/// `str::replace` with a non-empty pattern: every occurrence, scanning
/// left to right without overlap, is replaced by `to`.
pub open spec fn replace_all(s: Seq<char>, from: Seq<char>, to: Seq<char>) -> Seq<char>
    decreases s.len(),
{
    if s.len() == 0 || from.len() == 0 {
        s
    } else if starts_with(s, from) {
        to + replace_all(s.skip(from.len() as int), from, to)
    } else {
        seq![s[0]] + replace_all(s.drop_first(), from, to)
    }
}

/* ------------------------------ LEMMAS ------------------------------ */

pub proof fn lemma_find_from_sound(h: Seq<char>, n: Seq<char>, k: int)
    requires
        0 <= k,
    ensures
        match find_from(h, n, k) {
            Some(i) => occurs_at(h, n, i) && k <= i && forall|j: int|
                k <= j < i ==> !occurs_at(h, n, j),
            None => forall|j: int| k <= j ==> !occurs_at(h, n, j),
        },
    decreases h.len() + 1 - k,
{
    if k + n.len() > h.len() {
    } else if occurs_at(h, n, k) {
    } else {
        lemma_find_from_sound(h, n, k + 1);
    }
}

pub proof fn lemma_find_contains(h: Seq<char>, n: Seq<char>)
    ensures
        find(h, n) is Some <==> contains(h, n),
        find(h, n) matches Some(i) ==> occurs_at(h, n, i),
{
    lemma_find_from_sound(h, n, 0);
}

pub proof fn lemma_rfind_from_sound(h: Seq<char>, n: Seq<char>, k: int)
    ensures
        match rfind_from(h, n, k) {
            Some(i) => occurs_at(h, n, i) && i <= k && forall|j: int|
                i < j <= k ==> !occurs_at(h, n, j),
            None => forall|j: int| j <= k ==> !occurs_at(h, n, j),
        },
    decreases k + 1,
{
    if k < 0 {
    } else if occurs_at(h, n, k) {
    } else {
        lemma_rfind_from_sound(h, n, k - 1);
    }
}

/// An occurrence inside a part is an occurrence inside the whole.
pub proof fn lemma_contains_within(a: Seq<char>, b: Seq<char>, c: Seq<char>, n: Seq<char>)
    requires
        contains(b, n),
    ensures
        contains(a + b + c, n),
{
    let i = choose|i: int| occurs_at(b, n, i);
    assert((a + b + c).subrange(a.len() + i, a.len() + i + n.len()) =~= b.subrange(i, i + n.len()));
    assert(occurs_at(a + b + c, n, a.len() + i));
}

/// Every sequence contains itself.
pub proof fn lemma_contains_self(n: Seq<char>)
    ensures
        contains(n, n),
{
    assert(n.subrange(0, n.len() as int) =~= n);
    assert(occurs_at(n, n, 0));
}

pub proof fn lemma_contains_trans(h: Seq<char>, m: Seq<char>, n: Seq<char>)
    requires
        contains(h, m),
        contains(m, n),
    ensures
        contains(h, n),
{
    let i = choose|i: int| occurs_at(h, m, i);
    let j = choose|j: int| occurs_at(m, n, j);
    assert(h.subrange(i + j, i + j + n.len()) =~= m.subrange(j, j + n.len()));
    assert(occurs_at(h, n, i + j));
}

pub proof fn lemma_trim_start_skip(s: Seq<char>, k: int)
    requires
        0 <= k <= s.len(),
        forall|j: int| 0 <= j < k ==> is_ws(#[trigger] s[j]),
        k == s.len() || !is_ws(s[k]),
    ensures
        trim_start(s) == s.skip(k),
    decreases k,
{
    if k == 0 {
        assert(s.skip(0) =~= s);
    } else {
        let t = s.drop_first();
        assert forall|j: int| 0 <= j < k - 1 implies is_ws(#[trigger] t[j]) by {
            assert(t[j] == s[j + 1]);
        }
        lemma_trim_start_skip(t, k - 1);
        assert(t.skip(k - 1) =~= s.skip(k));
    }
}

pub proof fn lemma_trim_end_take(s: Seq<char>, m: int)
    requires
        0 <= m <= s.len(),
        forall|j: int| m <= j < s.len() ==> is_ws(#[trigger] s[j]),
        m == 0 || !is_ws(s[m - 1]),
    ensures
        trim_end(s) == s.take(m),
    decreases s.len() - m,
{
    if m == s.len() {
        assert(s.take(m) =~= s);
    } else {
        let t = s.drop_last();
        assert forall|j: int| m <= j < t.len() implies is_ws(#[trigger] t[j]) by {
            assert(t[j] == s[j]);
        }
        lemma_trim_end_take(t, m);
        assert(t.take(m) =~= s.take(m));
    }
}

pub proof fn lemma_trim_start_suffix(x: Seq<char>)
    ensures
        exists|k: int| 0 <= k <= x.len() && trim_start(x) == #[trigger] x.skip(k),
    decreases x.len(),
{
    if x.len() > 0 && is_ws(x[0]) {
        lemma_trim_start_suffix(x.drop_first());
        let k = choose|k: int|
            0 <= k <= x.drop_first().len() && trim_start(x.drop_first()) == #[trigger] x.drop_first().skip(k);
        assert(x.drop_first().skip(k) =~= x.skip(k + 1));
    } else {
        assert(x.skip(0) =~= x);
    }
}

pub proof fn lemma_split_acc_nonempty(s: Seq<char>, c: char, i: int, cur: Seq<char>)
    ensures
        split_acc(s, c, i, cur).len() >= 1,
    decreases s.len() - i,
{
    if i >= s.len() || i < 0 {
    } else if s[i] == c {
        lemma_split_acc_nonempty(s, c, i + 1, Seq::empty());
    } else {
        lemma_split_acc_nonempty(s, c, i + 1, cur.push(s[i]));
    }
}

/// A suffix is contained in its sequence.
pub proof fn lemma_contains_skip(x: Seq<char>, k: int)
    requires
        0 <= k <= x.len(),
    ensures
        contains(x, x.skip(k)),
{
    assert(x.subrange(k, k + x.skip(k).len()) =~= x.skip(k));
    assert(occurs_at(x, x.skip(k), k));
}

/// A prefix is contained in its sequence.
pub proof fn lemma_contains_prefix(a: Seq<char>, b: Seq<char>)
    ensures
        contains(a + b, a),
{
    assert((a + b).subrange(0, a.len() as int) =~= a);
    assert(occurs_at(a + b, a, 0));
}

/// `trim(u)` lies inside `trim_end(u)`.
pub proof fn lemma_trim_in_trim_end(u: Seq<char>)
    ensures
        contains(trim_end(u), trim(u)),
{
    lemma_trim_start_suffix(trim_end(u));
    let k = choose|k: int|
        0 <= k <= trim_end(u).len() && trim_start(trim_end(u)) == #[trigger] trim_end(u).skip(k);
    lemma_contains_skip(trim_end(u), k);
}

/// `s` has no line break (`'\n'` or `'\r'`).
pub open spec fn single_line(s: Seq<char>) -> bool {
    forall|i: int| 0 <= i < s.len() ==> #[trigger] s[i] != '\n' && s[i] != '\r'
}

/// What lies inside a text without line breaks has none either.
pub proof fn lemma_single_line_within(h: Seq<char>, m: Seq<char>)
    requires
        contains(h, m),
        single_line(h),
    ensures
        single_line(m),
{
    let o = choose|o: int| occurs_at(h, m, o);
    assert forall|i: int| 0 <= i < m.len() implies #[trigger] m[i] != '\n' && m[i] != '\r' by {
        assert(m[i] == h.subrange(o, o + m.len())[i]);
        assert(h[o + i] != '\n' && h[o + i] != '\r');
    }
}

/// `trim_end(s)` is a prefix of `s`.
pub proof fn lemma_trim_end_prefix(s: Seq<char>)
    ensures
        contains(s, trim_end(s)),
    decreases s.len(),
{
    if s.len() > 0 && is_ws(s.last()) {
        lemma_trim_end_prefix(s.drop_last());
        lemma_contains_prefix(s.drop_last(), seq![s.last()]);
        assert(s.drop_last() + seq![s.last()] =~= s);
        lemma_contains_trans(s, s.drop_last(), trim_end(s));
    } else {
        lemma_contains_self(s);
    }
}

/// Trimming a text without line breaks leaves one without line breaks.
pub proof fn lemma_trim_single_line(u: Seq<char>)
    requires
        single_line(u),
    ensures
        single_line(trim(u)),
{
    lemma_trim_end_prefix(u);
    lemma_trim_in_trim_end(u);
    lemma_contains_trans(u, trim_end(u), trim(u));
    lemma_single_line_within(u, trim(u));
}

/// Every sequence contains the empty one.
pub proof fn lemma_contains_empty(h: Seq<char>, m: Seq<char>)
    requires
        m.len() == 0,
    ensures
        contains(h, m),
{
    assert(h.subrange(0, 0) =~= m);
    assert(occurs_at(h, m, 0));
}

/// An occurrence of `m`, which holds no `c`, that starts in or after the
/// current piece lies inside one piece of the split; the last piece only
/// when `s` does not end with `c`.
proof fn lemma_split_acc_keeps(s: Seq<char>, c: char, i: int, j: int, cur: Seq<char>, m: Seq<char>, q: int)
    requires
        0 <= j <= i <= s.len(),
        cur == s.subrange(j, i),
        forall|k: int| j <= k < i ==> #[trigger] s[k] != c,
        occurs_at(s, m, q),
        j <= q,
        m.len() > 0,
        forall|k: int| 0 <= k < m.len() ==> #[trigger] m[k] != c,
    ensures
        exists|k: int|
            0 <= k < split_acc(s, c, i, cur).len() && contains(#[trigger] split_acc(s, c, i, cur)[k], m)
                && (k == split_acc(s, c, i, cur).len() - 1 ==> s.last() != c),
    decreases s.len() - i,
{
    let r = split_acc(s, c, i, cur);
    if i >= s.len() {
        assert(cur.subrange(q - j, q - j + m.len()) =~= s.subrange(q, q + m.len()));
        assert(occurs_at(cur, m, q - j));
        assert(r[0] == cur);
        assert(s.last() == s[s.len() - 1]);
        assert(contains(r[0], m) && (0 == r.len() - 1 ==> s.last() != c));
    } else if s[i] == c {
        let tail = split_acc(s, c, i + 1, Seq::empty());
        lemma_split_acc_nonempty(s, c, i + 1, Seq::empty());
        assert(r == seq![cur] + tail);
        if q + m.len() <= i {
            assert(cur.subrange(q - j, q - j + m.len()) =~= s.subrange(q, q + m.len()));
            assert(occurs_at(cur, m, q - j));
            assert(r[0] == cur);
            assert(contains(r[0], m) && (0 == r.len() - 1 ==> s.last() != c));
        } else {
            if q <= i {
                assert(m[i - q] == s.subrange(q, q + m.len())[i - q]);
                assert(m[i - q] == s[i]);
            }
            assert(Seq::<char>::empty() =~= s.subrange(i + 1, i + 1));
            lemma_split_acc_keeps(s, c, i + 1, i + 1, Seq::empty(), m, q);
            let k = choose|k: int|
                0 <= k < tail.len() && contains(#[trigger] tail[k], m) && (k == tail.len() - 1
                    ==> s.last() != c);
            assert(r[k + 1] == tail[k]);
            assert(contains(r[k + 1], m) && (k + 1 == r.len() - 1 ==> s.last() != c));
        }
    } else {
        assert(cur.push(s[i]) =~= s.subrange(j, i + 1));
        lemma_split_acc_keeps(s, c, i + 1, j, cur.push(s[i]), m, q);
    }
}

/// An occurrence of a text without line breaks lies inside one line.
pub proof fn lemma_lines_keep(s: Seq<char>, m: Seq<char>)
    requires
        contains(s, m),
        m.len() > 0,
        single_line(m),
    ensures
        exists|k: int| 0 <= k < lines(s).len() && contains(#[trigger] lines(s)[k], m),
{
    let q = choose|q: int| occurs_at(s, m, q);
    assert forall|k: int| 0 <= k < m.len() implies #[trigger] m[k] != '\n' by {}
    assert(Seq::<char>::empty() =~= s.subrange(0, 0));
    lemma_split_acc_keeps(s, '\n', 0, 0, Seq::empty(), m, q);
    let parts = split(s, '\n');
    let k = choose|k: int|
        0 <= k < parts.len() && contains(#[trigger] parts[k], m) && (k == parts.len() - 1
            ==> s.last() != '\n');
    let kept = if s.last() == '\n' {
        parts.drop_last()
    } else {
        parts
    };
    assert(kept[k] == parts[k]);
    let p = parts[k];
    let o = choose|o: int| occurs_at(p, m, o);
    if p.len() > 0 && p.last() == '\r' {
        if o + m.len() == p.len() {
            assert(m[m.len() - 1] == p.subrange(o, o + m.len())[m.len() - 1]);
            assert(false);
        }
        assert(p.drop_last().subrange(o, o + m.len()) =~= p.subrange(o, o + m.len()));
        assert(occurs_at(p.drop_last(), m, o));
    }
    assert(lines(s)[k] == strip_cr(p));
    assert(contains(lines(s)[k], m));
}

/// Each part of a join lies inside the join.
pub proof fn lemma_join_contains(parts: Seq<Seq<char>>, sep: Seq<char>, i: int)
    requires
        0 <= i < parts.len(),
    ensures
        contains(join(parts, sep), parts[i]),
    decreases parts.len(),
{
    if parts.len() == 1 {
        lemma_contains_self(parts[0]);
    } else if i == parts.len() - 1 {
        lemma_contains_self(parts[i]);
        lemma_contains_within(join(parts.drop_last(), sep) + sep, parts.last(), Seq::empty(), parts[i]);
        assert(join(parts.drop_last(), sep) + sep + parts.last() + Seq::<char>::empty() =~= join(parts, sep));
    } else {
        lemma_join_contains(parts.drop_last(), sep, i);
        assert(parts.drop_last()[i] == parts[i]);
        lemma_contains_within(Seq::empty(), join(parts.drop_last(), sep), sep + parts.last(), parts[i]);
        assert(Seq::<char>::empty() + join(parts.drop_last(), sep) + (sep + parts.last()) =~= join(parts, sep));
    }
}

/* ------------------------------ EXECUTABLE ------------------------------ */

pub open spec fn opt_int(o: Option<usize>) -> Option<int> {
    match o {
        Some(i) => Some(i as int),
        None => None,
    }
}

/// `String::push`.
#[verifier::external_body]
pub fn push_char(s: &mut String, c: char)
    ensures
        final(s)@ == old(s)@.push(c),
{
    s.push(c);
}

/// The lower-case mapping that `char::to_lowercase` yields for `c`, as
/// given by the Unicode tables of the standard library.
pub uninterp spec fn char_lowercase(c: char) -> Seq<char>;

/// `char::to_lowercase`, collected into a string. The standard library
/// documents the result as the one or more characters of `c`'s lower-case
/// mapping, and `c` itself where it has none; so an ASCII character maps as
/// `to_ascii_lowercase` maps it. What a non-ASCII character maps to is left
/// to the name.
#[verifier::external_body]
pub fn lowercase_of_char(c: char) -> (r: String)
    ensures
        r@ == char_lowercase(c),
        (c as u32) < 128 ==> r@ == seq![lower_char(c)],
{
    c.to_lowercase().collect::<String>()
}

/// Appends `t` to `s`.
pub fn push_str(s: &mut String, t: &str)
    ensures
        final(s)@ == old(s)@ + t@,
{
    s.append(t);
}

/// The characters of `s`, in order.
pub fn chars_of(s: &str) -> (r: Vec<char>)
    ensures
        r@ == s@,
{
    let mut out: Vec<char> = Vec::new();
    for c in iter: s.chars()
        invariant
            out@ == iter.seq().take(iter.index() as int),
    {
        out.push(c);
    }
    assert(out@ =~= s@);
    out
}

/// The string made of `cs`.
pub fn string_of(cs: &[char]) -> (r: String)
    ensures
        r@ == cs@,
{
    let mut out = String::new();
    let mut i: usize = 0;
    while i < cs.len()
        invariant
            i <= cs.len(),
            out@ == cs@.take(i as int),
        decreases cs.len() - i,
    {
        push_char(&mut out, cs[i]);
        i = i + 1;
        assert(out@ =~= cs@.take(i as int));
    }
    assert(cs@.take(cs.len() as int) =~= cs@);
    out
}

/// The string made of `cs[from..to]`.
pub fn string_of_range(cs: &[char], from: usize, to: usize) -> (r: String)
    requires
        from <= to <= cs.len(),
    ensures
        r@ == cs@.subrange(from as int, to as int),
{
    let mut out = String::new();
    let mut i: usize = from;
    while i < to
        invariant
            from <= i <= to <= cs.len(),
            out@ == cs@.subrange(from as int, i as int),
        decreases to - i,
    {
        push_char(&mut out, cs[i]);
        i = i + 1;
        assert(out@ =~= cs@.subrange(from as int, i as int));
    }
    out
}

pub fn is_ws_char(c: char) -> (r: bool)
    ensures
        r == is_ws(c),
{
    c == ' ' || ('\t' <= c && c <= '\r') || c == '\u{85}' || c == '\u{a0}' || c == '\u{1680}'
        || ('\u{2000}' <= c && c <= '\u{200a}') || c == '\u{2028}' || c == '\u{2029}' || c
        == '\u{202f}' || c == '\u{205f}' || c == '\u{3000}'
}

pub fn lower_char_exec(c: char) -> (r: char)
    ensures
        r == lower_char(c),
{
    if 'A' <= c && c <= 'Z' {
        ((c as u8) + 32) as char
    } else {
        c
    }
}

pub fn upper_char_exec(c: char) -> (r: char)
    ensures
        r == upper_char(c),
{
    if 'a' <= c && c <= 'z' {
        ((c as u8) - 32) as char
    } else {
        c
    }
}

/// `str::to_ascii_lowercase`.
pub fn to_lower(s: &str) -> (r: String)
    ensures
        r@ == lower(s@),
{
    let cs = chars_of(s);
    let mut out = String::new();
    let mut i: usize = 0;
    while i < cs.len()
        invariant
            i <= cs.len(),
            cs@ == s@,
            out@ == lower(s@).take(i as int),
        decreases cs.len() - i,
    {
        push_char(&mut out, lower_char_exec(cs[i]));
        i = i + 1;
        assert(out@ =~= lower(s@).take(i as int));
    }
    assert(lower(s@).take(cs.len() as int) =~= lower(s@));
    out
}

/// `str::eq_ignore_ascii_case`.
pub fn eq_ignore_case(a: &str, b: &str) -> (r: bool)
    ensures
        r == (lower(a@) == lower(b@)),
{
    let x = chars_of(a);
    let y = chars_of(b);
    if x.len() != y.len() {
        assert(lower(a@).len() != lower(b@).len());
        return false;
    }
    let mut i: usize = 0;
    while i < x.len()
        invariant
            i <= x.len() == y.len(),
            x@ == a@,
            y@ == b@,
            forall|j: int| 0 <= j < i ==> lower_char(#[trigger] x@[j]) == lower_char(y@[j]),
        decreases x.len() - i,
    {
        if lower_char_exec(x[i]) != lower_char_exec(y[i]) {
            assert(lower(a@)[i as int] != lower(b@)[i as int]);
            return false;
        }
        i = i + 1;
    }
    assert(lower(a@) =~= lower(b@));
    true
}

/// Whether `n` occurs in `h` at `i`.
pub fn occurs_at_exec(h: &[char], n: &[char], i: usize) -> (r: bool)
    ensures
        r == occurs_at(h@, n@, i as int),
{
    if i > h.len() || n.len() > h.len() - i {
        return false;
    }
    let mut j: usize = 0;
    while j < n.len()
        invariant
            i + n.len() <= h.len(),
            j <= n.len(),
            forall|k: int| 0 <= k < j ==> h@[i + k] == n@[k],
        decreases n.len() - j,
    {
        if h[i + j] != n[j] {
            assert(h@.subrange(i as int, i + n.len())[j as int] != n@[j as int]);
            return false;
        }
        j = j + 1;
    }
    assert(h@.subrange(i as int, i + n.len()) =~= n@);
    true
}

/// First occurrence of `n` in `h` at or after `from`.
pub fn find_from_exec(h: &[char], n: &[char], from: usize) -> (r: Option<usize>)
    ensures
        opt_int(r) == find_from(h@, n@, from as int),
{
    let mut i = from;
    while i <= h.len() && n.len() <= h.len() - i
        invariant
            from <= i,
            find_from(h@, n@, from as int) == find_from(h@, n@, i as int),
        decreases h.len() + 1 - i,
    {
        if occurs_at_exec(h, n, i) {
            return Some(i);
        }
        if i == h.len() {
            assert(h@.subrange(i as int, i as int) =~= n@);
            return None;
        }
        i = i + 1;
    }
    None
}

/// `str::find`.
pub fn find_exec(h: &[char], n: &[char]) -> (r: Option<usize>)
    ensures
        opt_int(r) == find(h@, n@),
{
    find_from_exec(h, n, 0)
}

/// Last occurrence of `n` in `h` that starts at or before `k`.
pub fn rfind_from_exec(h: &[char], n: &[char], k: usize) -> (r: Option<usize>)
    ensures
        opt_int(r) == rfind_from(h@, n@, k as int),
{
    let mut i = k;
    loop
        invariant
            i <= k,
            rfind_from(h@, n@, k as int) == rfind_from(h@, n@, i as int),
        decreases i,
    {
        if occurs_at_exec(h, n, i) {
            return Some(i);
        }
        if i == 0 {
            assert(rfind_from(h@, n@, -1) is None);
            return None;
        }
        i = i - 1;
    }
}

/// `str::rfind`.
pub fn rfind_exec(h: &[char], n: &[char]) -> (r: Option<usize>)
    ensures
        opt_int(r) == rfind(h@, n@),
{
    if n.len() > h.len() {
        return None;
    }
    rfind_from_exec(h, n, h.len() - n.len())
}

/// `str::contains` with a string pattern.
pub fn contains_exec(h: &[char], n: &[char]) -> (r: bool)
    ensures
        r == contains(h@, n@),
{
    proof {
        lemma_find_contains(h@, n@);
    }
    find_exec(h, n).is_some()
}

/// `str::contains` on strings.
pub fn str_contains(h: &str, n: &str) -> (r: bool)
    ensures
        r == contains(h@, n@),
{
    let hc = chars_of(h);
    let nc = chars_of(n);
    contains_exec(&hc, &nc)
}

/// `str::starts_with`.
pub fn starts_with_exec(s: &[char], p: &[char]) -> (r: bool)
    ensures
        r == starts_with(s@, p@),
{
    let b = occurs_at_exec(s, p, 0);
    proof {
        if b {
            assert(s@.take(p@.len() as int) =~= s@.subrange(0, p@.len() as int));
        }
        if starts_with(s@, p@) {
            assert(s@.take(p@.len() as int) =~= s@.subrange(0, p@.len() as int));
        }
    }
    b
}

/// `str::ends_with`.
pub fn ends_with_exec(s: &[char], p: &[char]) -> (r: bool)
    ensures
        r == ends_with(s@, p@),
{
    if p.len() > s.len() {
        return false;
    }
    let b = occurs_at_exec(s, p, s.len() - p.len());
    proof {
        assert(s@.skip(s@.len() - p@.len()) =~= s@.subrange(
            s@.len() - p@.len(),
            s@.len() - p@.len() + p@.len(),
        ));
    }
    b
}

/// Number of leading white-space characters.
pub fn trim_start_index(s: &[char]) -> (k: usize)
    ensures
        k <= s.len(),
        trim_start(s@) == s@.skip(k as int),
{
    let mut k: usize = 0;
    while k < s.len() && is_ws_char(s[k])
        invariant
            k <= s.len(),
            forall|j: int| 0 <= j < k ==> is_ws(#[trigger] s@[j]),
        decreases s.len() - k,
    {
        k = k + 1;
    }
    proof {
        lemma_trim_start_skip(s@, k as int);
    }
    k
}

/// Length left after trailing white space is removed.
pub fn trim_end_index(s: &[char]) -> (m: usize)
    ensures
        m <= s.len(),
        trim_end(s@) == s@.take(m as int),
{
    let mut m: usize = s.len();
    while m > 0 && is_ws_char(s[m - 1])
        invariant
            m <= s.len(),
            forall|j: int| m <= j < s.len() ==> is_ws(#[trigger] s@[j]),
        decreases m,
    {
        m = m - 1;
    }
    proof {
        lemma_trim_end_take(s@, m as int);
    }
    m
}

/// `str::trim`.
pub fn trim_exec(s: &str) -> (r: String)
    ensures
        r@ == trim(s@),
{
    let cs = chars_of(s);
    let m = trim_end_index(&cs);
    let head = string_of_range(&cs, 0, m);
    let hc = chars_of(head.as_str());
    let k = trim_start_index(&hc);
    proof {
        assert(cs@.take(m as int) =~= cs@.subrange(0, m as int));
        assert(hc@.skip(k as int) =~= hc@.subrange(k as int, hc@.len() as int));
    }
    string_of_range(&hc, k, hc.len())
}

/// `str::trim_end`.
pub fn trim_end_exec(s: &str) -> (r: String)
    ensures
        r@ == trim_end(s@),
{
    let cs = chars_of(s);
    let m = trim_end_index(&cs);
    proof {
        assert(cs@.take(m as int) =~= cs@.subrange(0, m as int));
    }
    string_of_range(&cs, 0, m)
}

/// `str::trim_start`.
pub fn trim_start_exec(s: &str) -> (r: String)
    ensures
        r@ == trim_start(s@),
{
    let cs = chars_of(s);
    let k = trim_start_index(&cs);
    proof {
        assert(cs@.skip(k as int) =~= cs@.subrange(k as int, cs@.len() as int));
    }
    string_of_range(&cs, k, cs.len())
}

/// `str == str`.
pub fn str_eq(a: &str, b: &str) -> (r: bool)
    ensures
        r == (a@ == b@),
{
    let x = chars_of(a);
    let y = chars_of(b);
    if x.len() != y.len() {
        return false;
    }
    let mut i: usize = 0;
    while i < x.len()
        invariant
            i <= x.len() == y.len(),
            x@ == a@,
            y@ == b@,
            forall|j: int| 0 <= j < i ==> x@[j] == y@[j],
        decreases x.len() - i,
    {
        if x[i] != y[i] {
            return false;
        }
        i = i + 1;
    }
    assert(x@ =~= y@);
    true
}

/// A copy of `s`.
pub fn copy_str(s: &str) -> (r: String)
    ensures
        r@ == s@,
{
    let mut out = String::new();
    push_str(&mut out, s);
    assert(out@ =~= s@);
    out
}

pub open spec fn views(v: Seq<String>) -> Seq<Seq<char>> {
    v.map_values(|s: String| s@)
}

/// `parts.join(sep)`.
pub fn join_exec(parts: &Vec<String>, sep: &str) -> (r: String)
    ensures
        r@ == join(views(parts@), sep@),
{
    let mut out = String::new();
    let mut i: usize = 0;
    while i < parts.len()
        invariant
            i <= parts.len(),
            out@ == join(views(parts@).take(i as int), sep@),
        decreases parts.len() - i,
    {
        proof {
            assert(views(parts@).take(i + 1).drop_last() =~= views(parts@).take(i as int));
        }
        if i > 0 {
            push_str(&mut out, sep);
        }
        push_str(&mut out, parts[i].as_str());
        i = i + 1;
        proof {
            if i == 1 {
                assert(out@ =~= join(views(parts@).take(i as int), sep@));
            }
        }
    }
    assert(views(parts@).take(parts.len() as int) =~= views(parts@));
    out
}

/// `str::split` on one character.
pub fn split_exec(s: &str, c: char) -> (r: Vec<String>)
    ensures
        views(r@) == split(s@, c),
{
    let cs = chars_of(s);
    let mut pieces: Vec<String> = Vec::new();
    let mut cur = String::new();
    let mut i: usize = 0;
    while i < cs.len()
        invariant
            i <= cs.len(),
            cs@ == s@,
            views(pieces@) + split_acc(s@, c, i as int, cur@) == split(s@, c),
        decreases cs.len() - i,
    {
        if cs[i] == c {
            let done = cur;
            proof {
                assert(views(pieces@.push(done)) =~= views(pieces@).push(done@));
                assert(views(pieces@).push(done@) + split_acc(s@, c, i + 1, Seq::empty())
                    =~= views(pieces@) + split_acc(s@, c, i as int, done@));
            }
            pieces.push(done);
            cur = String::new();
        } else {
            push_char(&mut cur, cs[i]);
        }
        i = i + 1;
    }
    let ghost before = views(pieces@);
    pieces.push(cur);
    proof {
        assert(views(pieces@) =~= before + split_acc(s@, c, i as int, cur@));
    }
    pieces
}

/// Digits of `n`, most significant first, appended to `out`.
fn push_digits(out: &mut String, n: u64)
    ensures
        final(out)@ == old(out)@ + digits(n as nat),
    decreases n,
{
    if n >= 10 {
        push_digits(out, n / 10);
    }
    let d = n % 10;
    let ch = if d == 0 {
        '0'
    } else if d == 1 {
        '1'
    } else if d == 2 {
        '2'
    } else if d == 3 {
        '3'
    } else if d == 4 {
        '4'
    } else if d == 5 {
        '5'
    } else if d == 6 {
        '6'
    } else if d == 7 {
        '7'
    } else if d == 8 {
        '8'
    } else {
        '9'
    };
    assert(ch == (('0' as u32) + d) as char);
    push_char(out, ch);
}

/// `i64`'s `Display` output.
pub fn decimal_exec(n: i64) -> (r: String)
    ensures
        r@ == decimal(n as int),
{
    let mut out = String::new();
    if n < 0 {
        push_char(&mut out, '-');
        let m: u64 = (0i128 - (n as i128)) as u64;
        push_digits(&mut out, m);
    } else {
        push_digits(&mut out, n as u64);
    }
    out
}

/// Removes one trailing carriage return.
pub fn strip_cr_exec(s: &str) -> (r: String)
    ensures
        r@ == strip_cr(s@),
{
    let cs = chars_of(s);
    if cs.len() > 0 && cs[cs.len() - 1] == '\r' {
        assert(cs@.subrange(0, cs.len() - 1) =~= s@.drop_last());
        string_of_range(&cs, 0, cs.len() - 1)
    } else {
        copy_str(s)
    }
}

/// `str::lines`.
pub fn lines_exec(s: &str) -> (r: Vec<String>)
    ensures
        views(r@) == lines(s@),
{
    let cs = chars_of(s);
    if cs.len() == 0 {
        let v: Vec<String> = Vec::new();
        assert(views(v@) =~= lines(s@));
        return v;
    }
    let mut parts = split_exec(s, '\n');
    let ghost all = views(parts@);
    proof {
        lemma_split_acc_nonempty(s@, '\n', 0, Seq::empty());
    }
    if cs[cs.len() - 1] == '\n' {
        if parts.len() > 0 {
            parts.pop();
        }
    }
    let ghost kept = if s@.last() == '\n' {
        all.drop_last()
    } else {
        all
    };
    proof {
        if s@.last() == '\n' {
            if all.len() > 0 {
                assert(views(parts@) =~= all.drop_last());
            }
        }
        assert(views(parts@) =~= kept);
    }
    let mut out: Vec<String> = Vec::new();
    let mut i: usize = 0;
    while i < parts.len()
        invariant
            i <= parts.len(),
            views(parts@) == kept,
            views(out@) == kept.take(i as int).map_values(|l: Seq<char>| strip_cr(l)),
        decreases parts.len() - i,
    {
        let line = strip_cr_exec(parts[i].as_str());
        assert(kept[i as int] == parts@[i as int]@);
        let ghost prev = views(out@);
        out.push(line);
        assert(views(out@) =~= prev.push(strip_cr(kept[i as int])));
        assert(kept.take(i + 1).map_values(|l: Seq<char>| strip_cr(l)) =~= kept.take(
            i as int,
        ).map_values(|l: Seq<char>| strip_cr(l)).push(strip_cr(kept[i as int])));
        i = i + 1;
    }
    assert(kept.take(parts.len() as int) =~= kept);
    assert(views(out@) =~= lines(s@));
    out
}

/// `str::replace` with a non-empty pattern.
pub fn replace_exec(s: &str, from: &str, to: &str) -> (r: String)
    requires
        from@.len() > 0,
    ensures
        r@ == replace_all(s@, from@, to@),
{
    let cs = chars_of(s);
    let fc = chars_of(from);
    let mut out = String::new();
    let mut i: usize = 0;
    assert(s@.skip(0) =~= s@);
    while i < cs.len()
        invariant
            i <= cs.len(),
            cs@ == s@,
            fc@ == from@,
            from@.len() > 0,
            out@ + replace_all(s@.skip(i as int), from@, to@) == replace_all(s@, from@, to@),
        decreases cs.len() - i,
    {
        let ghost rest = s@.skip(i as int);
        if occurs_at_exec(&cs, &fc, i) {
            assert(rest.take(from@.len() as int) =~= s@.subrange(i as int, i + from@.len()));
            assert(rest.skip(from@.len() as int) =~= s@.skip(i + from@.len()));
            let ghost before = out@;
            push_str(&mut out, to);
            assert(out@ + replace_all(s@.skip(i + from@.len()), from@, to@) =~= before + (to@
                + replace_all(rest.skip(from@.len() as int), from@, to@)));
            i = i + fc.len();
        } else {
            proof {
                if starts_with(rest, from@) {
                    assert(rest.take(from@.len() as int) =~= s@.subrange(i as int, i + from@.len()));
                }
            }
            assert(rest.drop_first() =~= s@.skip(i + 1));
            let ghost before = out@;
            push_char(&mut out, cs[i]);
            assert(out@ + replace_all(s@.skip(i + 1), from@, to@) =~= before + (seq![rest[0]]
                + replace_all(rest.drop_first(), from@, to@)));
            i = i + 1;
        }
    }
    assert(s@.skip(i as int) =~= Seq::<char>::empty());
    assert(out@ + Seq::<char>::empty() =~= out@);
    out
}

} // verus!
