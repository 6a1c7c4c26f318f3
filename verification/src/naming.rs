//! Naming rules: qualified names, namespaces and identifier casing.
use crate::text::{
    chars_of, copy_str, ends_with, ends_with_exec, lemma_rfind_from_sound, lower_char, occurs_at, lower_char_exec,
    push_char, push_str, rfind, rfind_exec, split, split_exec, starts_with, starts_with_exec, str_eq,
    string_of_range, upper_char, upper_char_exec, views,
};
use vstd::prelude::*;

verus! {

pub open spec fn dot() -> Seq<char> {
    seq!['.']
}

/// Text after the last `.`, or the whole name when it has none.
pub open spec fn last_segment_spec(q: Seq<char>) -> Seq<char> {
    match rfind(q, dot()) {
        Some(i) => q.skip(i + 1),
        None => q,
    }
}

/// Text before the last `.`, or empty when the name has none.
pub open spec fn ns_of_spec(q: Seq<char>) -> Seq<char> {
    match rfind(q, dot()) {
        Some(i) => q.take(i),
        None => Seq::empty(),
    }
}

/// Path segments of `namespace` below `domain`.
pub open spec fn ns_relative_spec(domain: Seq<char>, namespace: Seq<char>) -> Seq<Seq<char>> {
    if namespace == domain {
        Seq::empty()
    } else if starts_with(namespace, domain + dot()) {
        split(namespace.skip(domain.len() + 1int), '.')
    } else {
        split(namespace, '.')
    }
}

/// A navigation reference `Type#Display` split at its last `#`.
pub open spec fn split_nav_spec(nav: Seq<char>) -> (Seq<char>, Option<Seq<char>>) {
    match rfind(nav, seq!['#']) {
        Some(i) => (nav.take(i), Some(nav.skip(i + 1))),
        None => (nav, None),
    }
}

pub open spec fn lower_camel(s: Seq<char>) -> Seq<char> {
    if s.len() == 0 {
        s
    } else {
        seq![lower_char(s[0])] + s.skip(1)
    }
}

pub open spec fn upper_camel(s: Seq<char>) -> Seq<char> {
    if s.len() == 0 {
        s
    } else {
        seq![upper_char(s[0])] + s.skip(1)
    }
}

pub open spec fn kebab_piece(i: int, c: char) -> Seq<char> {
    if 'A' <= c && c <= 'Z' && i > 0 {
        seq!['-', lower_char(c)]
    } else {
        seq![lower_char(c)]
    }
}

/// Lower-case words joined by `-`, a word starting at each inner capital.
pub open spec fn kebab(s: Seq<char>) -> Seq<char>
    decreases s.len(),
{
    if s.len() == 0 {
        Seq::empty()
    } else {
        kebab(s.drop_last()) + kebab_piece(s.len() - 1, s.last())
    }
}

pub open spec fn is_vowel(c: char) -> bool {
    c == 'a' || c == 'e' || c == 'i' || c == 'o' || c == 'u' || c == 'A' || c == 'E' || c == 'I'
        || c == 'O' || c == 'U'
}

pub open spec fn sibilant_end(s: Seq<char>) -> bool {
    ||| ends_with(s, seq!['s'])
    ||| ends_with(s, seq!['x'])
    ||| ends_with(s, seq!['z'])
    ||| ends_with(s, seq!['c', 'h'])
    ||| ends_with(s, seq!['s', 'h'])
}

/// English plural of a class name.
pub open spec fn plural(s: Seq<char>) -> Seq<char> {
    if s.len() >= 2 && s.last() == 'y' && !is_vowel(s[s.len() - 2]) {
        s.drop_last() + seq!['i', 'e', 's']
    } else if sibilant_end(s) {
        s + seq!['e', 's']
    } else {
        s + seq!['s']
    }
}

/// `qname.rsplit('.').next()`.
pub fn last_segment(qname: &str) -> (r: String)
    ensures
        r@ == last_segment_spec(qname@),
{
    let cs = chars_of(qname);
    let d = vec!['.'];
    assert(d@ == dot());
    assert(d@.len() == 1);
    match rfind_exec(&cs, &d) {
        Some(i) => {
            proof {
                lemma_rfind_from_sound(cs@, d@, cs@.len() - d@.len());
                assert(occurs_at(cs@, d@, i as int));
                assert(cs@.skip(i + 1) =~= cs@.subrange(i + 1, cs@.len() as int));
            }
            assert(i < cs.len());
            string_of_range(&cs, i + 1, cs.len())
        },
        None => copy_str(qname),
    }
}

/// The namespace part of a qualified name.
pub fn ns_of(qname: &str) -> (r: String)
    ensures
        r@ == ns_of_spec(qname@),
{
    let cs = chars_of(qname);
    let d = vec!['.'];
    assert(d@ == dot());
    assert(d@.len() == 1);
    match rfind_exec(&cs, &d) {
        Some(i) => {
            proof {
                lemma_rfind_from_sound(cs@, d@, cs@.len() - d@.len());
                assert(occurs_at(cs@, d@, i as int));
                assert(cs@.take(i as int) =~= cs@.subrange(0, i as int));
            }
            string_of_range(&cs, 0, i)
        },
        None => String::new(),
    }
}

/// Directory segments under which a namespace's files live, relative to the
/// domain's project.
pub fn ns_relative_path(domain: &str, namespace: &str) -> (r: Vec<String>)
    ensures
        views(r@) == ns_relative_spec(domain@, namespace@),
{
    if str_eq(namespace, domain) {
        let v: Vec<String> = Vec::new();
        assert(views(v@) =~= Seq::<Seq<char>>::empty());
        return v;
    }
    let mut prefix = copy_str(domain);
    push_str(&mut prefix, ".");
    proof {
        reveal_strlit(".");
    }
    assert(prefix@ == domain@ + dot());
    let ns = chars_of(namespace);
    let pc = chars_of(prefix.as_str());
    if starts_with_exec(&ns, &pc) {
        let rest = string_of_range(&ns, pc.len(), ns.len());
        assert(rest@ == namespace@.skip(domain@.len() + 1int));
        split_exec(rest.as_str(), '.')
    } else {
        split_exec(namespace, '.')
    }
}

/// `(base, display)` of a `Type#Display` navigation reference.
pub fn split_nav(nav: &str) -> (r: (String, Option<String>))
    ensures
        r.0@ == split_nav_spec(nav@).0,
        match (r.1, split_nav_spec(nav@).1) {
            (Some(a), Some(b)) => a@ == b,
            (None, None) => true,
            _ => false,
        },
{
    let cs = chars_of(nav);
    let h = vec!['#'];
    assert(h@ == seq!['#']);
    assert(h@.len() == 1);
    match rfind_exec(&cs, &h) {
        Some(i) => {
            proof {
                lemma_rfind_from_sound(cs@, h@, cs@.len() - h@.len());
                assert(occurs_at(cs@, h@, i as int));
                assert(cs@.take(i as int) =~= cs@.subrange(0, i as int));
                assert(cs@.skip(i + 1) =~= cs@.subrange(i + 1, cs@.len() as int));
            }
            assert(i < cs.len());
            (string_of_range(&cs, 0, i), Some(string_of_range(&cs, i + 1, cs.len())))
        },
        None => (copy_str(nav), None),
    }
}

/// First character lower-cased: `AuthorId` becomes `authorId`.
pub fn to_lower_camel(s: &str) -> (r: String)
    ensures
        r@ == lower_camel(s@),
{
    let cs = chars_of(s);
    if cs.len() == 0 {
        return String::new();
    }
    let mut out = String::new();
    push_char(&mut out, lower_char_exec(cs[0]));
    let rest = string_of_range(&cs, 1, cs.len());
    push_str(&mut out, rest.as_str());
    assert(out@ =~= lower_camel(s@));
    out
}

/// First character upper-cased.
pub fn to_upper_camel(s: &str) -> (r: String)
    ensures
        r@ == upper_camel(s@),
{
    let cs = chars_of(s);
    if cs.len() == 0 {
        return String::new();
    }
    let mut out = String::new();
    push_char(&mut out, upper_char_exec(cs[0]));
    let rest = string_of_range(&cs, 1, cs.len());
    push_str(&mut out, rest.as_str());
    assert(out@ =~= upper_camel(s@));
    out
}

/// `BookStore` becomes `book-store`.
pub fn to_kebab(s: &str) -> (r: String)
    ensures
        r@ == kebab(s@),
{
    let cs = chars_of(s);
    let mut out = String::new();
    let mut i: usize = 0;
    while i < cs.len()
        invariant
            i <= cs.len(),
            cs@ == s@,
            out@ == kebab(s@.take(i as int)),
        decreases cs.len() - i,
    {
        let c = cs[i];
        if 'A' <= c && c <= 'Z' && i > 0 {
            push_char(&mut out, '-');
        }
        push_char(&mut out, lower_char_exec(c));
        proof {
            assert(s@.take(i + 1).drop_last() =~= s@.take(i as int));
        }
        i = i + 1;
        assert(out@ =~= kebab(s@.take(i as int)));
    }
    assert(s@.take(cs.len() as int) =~= s@);
    out
}

/// English plural: `Category` becomes `Categories`, `Box` becomes `Boxes`,
/// `Book` becomes `Books`.
pub fn pluralize(s: &str) -> (r: String)
    ensures
        r@ == plural(s@),
{
    let cs = chars_of(s);
    let n = cs.len();
    if n >= 2 && cs[n - 1] == 'y' {
        let p = cs[n - 2];
        let vowel = p == 'a' || p == 'e' || p == 'i' || p == 'o' || p == 'u' || p == 'A' || p
            == 'E' || p == 'I' || p == 'O' || p == 'U';
        if !vowel {
            let mut out = string_of_range(&cs, 0, n - 1);
            push_char(&mut out, 'i');
            push_char(&mut out, 'e');
            push_char(&mut out, 's');
            assert(cs@.subrange(0, n - 1) =~= s@.drop_last());
            assert(out@ =~= plural(s@));
            return out;
        }
    }
    let s1 = vec!['s'];
    let x1 = vec!['x'];
    let z1 = vec!['z'];
    let ch = vec!['c', 'h'];
    let sh = vec!['s', 'h'];
    let sib = ends_with_exec(&cs, &s1) || ends_with_exec(&cs, &x1) || ends_with_exec(&cs, &z1)
        || ends_with_exec(&cs, &ch) || ends_with_exec(&cs, &sh);
    assert(s1@ == seq!['s'] && x1@ == seq!['x'] && z1@ == seq!['z']);
    assert(ch@ == seq!['c', 'h'] && sh@ == seq!['s', 'h']);
    let mut out = copy_str(s);
    if sib {
        push_char(&mut out, 'e');
        push_char(&mut out, 's');
        assert(out@ =~= s@ + seq!['e', 's']);
    } else {
        push_char(&mut out, 's');
        assert(out@ =~= s@ + seq!['s']);
    }
    out
}

} // verus!
