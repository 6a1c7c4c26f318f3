//! The root namespace of an ABP solution, inferred from the names of the
//! project directories under `src`.
use crate::text::{
    chars_of, copy_str, ends_with, ends_with_exec, rfind, rfind_exec, str_eq, string_of_range, views,
};
use vstd::prelude::*;

verus! {

/// The layer projects of an ABP solution, in the order they are tried.
pub open spec fn layers() -> Seq<Seq<char>> {
    Seq::empty()
        .push("Application"@)
        .push("Application.Contracts"@)
        .push("Domain"@)
        .push("Domain.Shared"@)
        .push("EntityFrameworkCore"@)
}

/// The text before the last `.` of `n`.
pub open spec fn rsplit_prefix(n: Seq<char>) -> Option<Seq<char>> {
    match rfind(n, seq!['.']) {
        Some(i) => Some(n.take(i)),
        None => None,
    }
}

/// A directory named after a layer (but not the bare layer name) counts for
/// the text before its last `.`.
pub open spec fn layer_prefix(n: Seq<char>) -> Option<Seq<char>> {
    if (exists|k: int| 0 <= k < layers().len() && n != layers()[k] && ends_with(n, #[trigger] layers()[k])) {
        rsplit_prefix(n)
    } else {
        None
    }
}

/// How many directories count for `d`.
pub open spec fn score(ns: Seq<Seq<char>>, d: Seq<char>) -> int
    decreases ns.len(),
{
    if ns.len() == 0 {
        0
    } else {
        score(ns.drop_last(), d) + if layer_prefix(ns.last()) == Some(d) {
            1int
        } else {
            0int
        }
    }
}

/// Bytes of the UTF-8 encoding of `c`.
pub open spec fn utf8_width(c: char) -> int {
    if (c as u32) < 0x80 {
        1
    } else if (c as u32) < 0x800 {
        2
    } else if (c as u32) < 0x10000 {
        3
    } else {
        4
    }
}

/// `str::len`: the length of the UTF-8 encoding.
pub open spec fn utf8_len(s: Seq<char>) -> int
    decreases s.len(),
{
    if s.len() == 0 {
        0
    } else {
        utf8_len(s.drop_last()) + utf8_width(s.last())
    }
}

/// `d` wins over `e`: it scores more, or as much with a shorter name.
pub open spec fn beats_or_ties(ns: Seq<Seq<char>>, d: Seq<char>, e: Seq<char>) -> bool {
    score(ns, e) < score(ns, d) || (score(ns, e) == score(ns, d) && utf8_len(e) >= utf8_len(d))
}

/// The first directory whose name has a non-empty text before its last `.`.
pub open spec fn fallback_domain(ns: Seq<Seq<char>>) -> Option<Seq<char>>
    decreases ns.len(),
{
    if ns.len() == 0 {
        None
    } else {
        match rsplit_prefix(ns[0]) {
            Some(p) if p.len() > 0 => Some(p),
            _ => fallback_domain(ns.drop_first()),
        }
    }
}

fn rsplit_prefix_exec(n: &str) -> (r: Option<String>)
    ensures
        match r {
            Some(p) => rsplit_prefix(n@) == Some(p@),
            None => rsplit_prefix(n@) is None,
        },
{
    let cs = chars_of(n);
    let dot = vec!['.'];
    assert(dot@ == seq!['.']);
    match rfind_exec(&cs, &dot) {
        Some(i) => {
            proof {
                crate::text::lemma_rfind_from_sound(cs@, dot@, cs@.len() - 1);
            }
            let p = string_of_range(&cs, 0, i);
            assert(p@ =~= n@.take(i as int));
            Some(p)
        },
        None => None,
    }
}

fn layer_prefix_exec(n: &str) -> (r: Option<String>)
    ensures
        match r {
            Some(p) => layer_prefix(n@) == Some(p@),
            None => layer_prefix(n@) is None,
        },
{
    let ls: Vec<&str> = vec!["Application", "Application.Contracts", "Domain", "Domain.Shared", "EntityFrameworkCore"];
    assert(ls@.map_values(|s: &str| s@) =~= layers());
    let cs = chars_of(n);
    let mut k: usize = 0;
    while k < ls.len()
        invariant
            k <= ls@.len(),
            ls@.map_values(|s: &str| s@) == layers(),
            cs@ == n@,
            forall|j: int| 0 <= j < k ==> !(n@ != layers()[j] && ends_with(n@, #[trigger] layers()[j])),
        decreases ls.len() - k,
    {
        let lc = chars_of(ls[k]);
        assert(layers()[k as int] == ls@[k as int]@);
        if !str_eq(n, ls[k]) && ends_with_exec(&cs, &lc) {
            return rsplit_prefix_exec(n);
        }
        k = k + 1;
    }
    None
}

fn utf8_len_exec(s: &str) -> (r: u128)
    ensures
        r == utf8_len(s@),
{
    let cs = chars_of(s);
    let mut total: u128 = 0;
    let mut i: usize = 0;
    while i < cs.len()
        invariant
            i <= cs@.len(),
            cs@ == s@,
            total == utf8_len(cs@.take(i as int)),
            total <= 4 * i,
        decreases cs.len() - i,
    {
        let c = cs[i];
        let w: u128 = if (c as u32) < 0x80 {
            1
        } else if (c as u32) < 0x800 {
            2
        } else if (c as u32) < 0x10000 {
            3
        } else {
            4
        };
        assert(cs@.take(i + 1).drop_last() =~= cs@.take(i as int));
        total = total + w;
        i = i + 1;
    }
    assert(cs@.take(cs@.len() as int) =~= cs@);
    total
}

fn count_for(names: &Vec<String>, d: &str) -> (r: usize)
    ensures
        r == score(views(names@), d@),
{
    let ghost ns = views(names@);
    let mut c: usize = 0;
    let mut i: usize = 0;
    assert(ns.take(0) =~= Seq::<Seq<char>>::empty());
    while i < names.len()
        invariant
            i <= names@.len(),
            ns == views(names@),
            c == score(ns.take(i as int), d@),
            c <= i,
        decreases names.len() - i,
    {
        proof {
            assert(ns.take(i + 1).drop_last() =~= ns.take(i as int));
            assert(ns.take(i + 1).last() == ns[i as int]);
        }
        match layer_prefix_exec(names[i].as_str()) {
            Some(p) => {
                if str_eq(p.as_str(), d) {
                    c = c + 1;
                }
            },
            None => {},
        }
        i = i + 1;
    }
    assert(ns.take(names@.len() as int) =~= ns);
    c
}

proof fn lemma_score_positive(ns: Seq<Seq<char>>, j: int, d: Seq<char>)
    requires
        0 <= j < ns.len(),
        layer_prefix(ns[j]) == Some(d),
    ensures
        score(ns, d) >= 1,
    decreases ns.len(),
{
    if j < ns.len() - 1 {
        lemma_score_positive(ns.drop_last(), j, d);
        lemma_score_nonneg(ns, d);
    }
    lemma_score_nonneg(ns.drop_last(), d);
}

proof fn lemma_score_nonneg(ns: Seq<Seq<char>>, d: Seq<char>)
    ensures
        score(ns, d) >= 0,
    decreases ns.len(),
{
    if ns.len() > 0 {
        lemma_score_nonneg(ns.drop_last(), d);
    }
}

/// The root namespace of a solution whose `src` holds the directories
/// `names`: the prefix that the most layer projects share, the shorter
/// (in UTF-8 bytes) on a tie; without layer projects, the text before the
/// last `.` of the first directory name that has one.
pub fn infer_domain(names: &Vec<String>) -> (r: Option<String>)
    ensures
        ({
            let ns = views(names@);
            &&& (exists|j: int| 0 <= j < ns.len() && (#[trigger] layer_prefix(ns[j])) is Some) ==> (r matches Some(
                d,
            ) && score(ns, d@) > 0 && forall|j: int|
                0 <= j < ns.len() ==> (#[trigger] layer_prefix(ns[j]) matches Some(e) ==> beats_or_ties(ns, d@, e)))
            &&& !(exists|j: int| 0 <= j < ns.len() && (#[trigger] layer_prefix(ns[j])) is Some) ==> match r {
                Some(d) => fallback_domain(ns) == Some(d@),
                None => fallback_domain(ns) is None,
            }
        }),
{
    let ghost ns = views(names@);
    let mut best: Option<(String, usize, u128)> = None;
    let mut i: usize = 0;
    while i < names.len()
        invariant
            i <= names@.len(),
            ns == views(names@),
            best is None <==> forall|j: int| 0 <= j < i ==> (#[trigger] layer_prefix(ns[j])) is None,
            best matches Some(b) ==> {
                &&& b.1 == score(ns, b.0@)
                &&& b.1 > 0
                &&& b.2 == utf8_len(b.0@)
                &&& forall|j: int|
                    0 <= j < i ==> (#[trigger] layer_prefix(ns[j]) matches Some(e) ==> beats_or_ties(ns, b.0@, e))
            },
        decreases names.len() - i,
    {
        match layer_prefix_exec(names[i].as_str()) {
            Some(p) => {
                let c = count_for(names, p.as_str());
                let l = utf8_len_exec(p.as_str());
                proof {
                    lemma_score_positive(ns, i as int, p@);
                }
                let better = match &best {
                    None => true,
                    Some(b) => c > b.1 || (c == b.1 && l < b.2),
                };
                if better {
                    best = Some((p, c, l));
                }
            },
            None => {},
        }
        i = i + 1;
    }
    match best {
        Some(b) => Some(b.0),
        None => {
            let mut k: usize = 0;
            assert(ns.skip(0) =~= ns);
            while k < names.len()
                invariant
                    k <= names@.len(),
                    ns == views(names@),
                    forall|j: int| 0 <= j < names@.len() ==> (#[trigger] layer_prefix(ns[j])) is None,
                    fallback_domain(ns) == fallback_domain(ns.skip(k as int)),
                decreases names.len() - k,
            {
                proof {
                    assert(ns.skip(k as int)[0] == ns[k as int]);
                    assert(ns.skip(k as int).drop_first() =~= ns.skip(k + 1));
                }
                match rsplit_prefix_exec(names[k].as_str()) {
                    Some(p) => {
                        let pc = chars_of(p.as_str());
                        if pc.len() > 0 {
                            return Some(p);
                        }
                    },
                    None => {},
                }
                k = k + 1;
            }
            assert(ns.skip(names@.len() as int) =~= Seq::<Seq<char>>::empty());
            None
        },
    }
}

} // verus!
