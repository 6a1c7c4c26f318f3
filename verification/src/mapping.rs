//! Placeholder values for templates, keyed by placeholder name.
use vstd::prelude::*;

verus! {

/// Value of the first entry with key `k`.
pub open spec fn lookup(es: Seq<(Seq<char>, Seq<char>)>, k: Seq<char>) -> Option<Seq<char>>
    decreases es.len(),
{
    if es.len() == 0 {
        None
    } else if es[0].0 == k {
        Some(es[0].1)
    } else {
        lookup(es.drop_first(), k)
    }
}

pub open spec fn entry_views(v: Seq<(String, String)>) -> Seq<(Seq<char>, Seq<char>)> {
    v.map_values(|e: (String, String)| (e.0@, e.1@))
}

/// The value of the last pair with key `k`.
pub open spec fn last_value(ps: Seq<(Seq<char>, Seq<char>)>, k: Seq<char>) -> Option<Seq<char>>
    decreases ps.len(),
{
    if ps.len() == 0 {
        None
    } else if ps.last().0 == k {
        Some(ps.last().1)
    } else {
        last_value(ps.drop_last(), k)
    }
}

/// A map from placeholder names to values; a key is stored once.
#[derive(Debug, Clone)]
pub struct Mapping {
    entries: Vec<(String, String)>,
}

impl View for Mapping {
    type V = Seq<(Seq<char>, Seq<char>)>;

    closed spec fn view(&self) -> Seq<(Seq<char>, Seq<char>)> {
        entry_views(self.entries@)
    }
}

proof fn lemma_lookup_update(es: Seq<(Seq<char>, Seq<char>)>, i: int, k: Seq<char>, v: Seq<char>, q: Seq<char>)
    requires
        0 <= i < es.len(),
        es[i].0 == k,
        forall|j: int| 0 <= j < i ==> es[j].0 != k,
    ensures
        lookup(es.update(i, (k, v)), q) == if q == k {
            Some(v)
        } else {
            lookup(es, q)
        },
    decreases i,
{
    let u = es.update(i, (k, v));
    if i > 0 {
        assert(u.drop_first() =~= es.drop_first().update(i - 1, (k, v)));
        lemma_lookup_update(es.drop_first(), i - 1, k, v, q);
        assert(u[0] == es[0]);
    } else {
        assert(u.drop_first() =~= es.drop_first());
        assert(u[0] == (k, v));
    }
}

proof fn lemma_lookup_push(es: Seq<(Seq<char>, Seq<char>)>, k: Seq<char>, v: Seq<char>, q: Seq<char>)
    requires
        forall|j: int| 0 <= j < es.len() ==> es[j].0 != k,
    ensures
        lookup(es.push((k, v)), q) == if q == k {
            Some(v)
        } else {
            lookup(es, q)
        },
    decreases es.len(),
{
    let p = es.push((k, v));
    if es.len() > 0 {
        assert(p.drop_first() =~= es.drop_first().push((k, v)));
        assert forall|j: int| 0 <= j < es.drop_first().len() implies es.drop_first()[j].0 != k by {
            assert(es.drop_first()[j] == es[j + 1]);
        }
        lemma_lookup_push(es.drop_first(), k, v, q);
        assert(p[0] == es[0]);
    } else {
        assert(p.drop_first() =~= Seq::<(Seq<char>, Seq<char>)>::empty());
        assert(p[0] == (k, v));
        assert(lookup(p.drop_first(), q) is None);
        assert(lookup(es, q) is None);
        assert(p.len() == 1);
    }
}

proof fn lemma_lookup_at(es: Seq<(Seq<char>, Seq<char>)>, i: int, k: Seq<char>)
    requires
        0 <= i < es.len(),
        es[i].0 == k,
        forall|j: int| 0 <= j < i ==> es[j].0 != k,
    ensures
        lookup(es, k) == Some(es[i].1),
    decreases i,
{
    if i > 0 {
        lemma_lookup_at(es.drop_first(), i - 1, k);
    }
}

proof fn lemma_lookup_none(es: Seq<(Seq<char>, Seq<char>)>, k: Seq<char>)
    requires
        forall|j: int| 0 <= j < es.len() ==> es[j].0 != k,
    ensures
        lookup(es, k) is None,
    decreases es.len(),
{
    if es.len() > 0 {
        lemma_lookup_none(es.drop_first(), k);
    }
}

impl Mapping {
    pub closed spec fn get_spec(&self, k: Seq<char>) -> Option<Seq<char>> {
        lookup(self@, k)
    }

    /// An empty mapping.
    pub fn new() -> (r: Self)
        ensures
            forall|k: Seq<char>| r.get_spec(k) is None,
    {
        Mapping { entries: Vec::new() }
    }

    fn position(&self, k: &str) -> (r: Option<usize>)
        ensures
            match r {
                Some(i) => i < self.entries@.len() && self.entries@[i as int].0@ == k@ && forall|j: int|
                    0 <= j < i ==> self.entries@[j].0@ != k@,
                None => forall|j: int| 0 <= j < self.entries@.len() ==> self.entries@[j].0@ != k@,
            },
    {
        let mut i: usize = 0;
        while i < self.entries.len()
            invariant
                i <= self.entries@.len(),
                forall|j: int| 0 <= j < i ==> self.entries@[j].0@ != k@,
            decreases self.entries.len() - i,
        {
            if crate::text::str_eq(self.entries[i].0.as_str(), k) {
                return Some(i);
            }
            i = i + 1;
        }
        None
    }

    /// The value stored under `k`.
    pub fn get(&self, k: &str) -> (r: Option<&String>)
        ensures
            match r {
                Some(v) => self.get_spec(k@) == Some(v@),
                None => self.get_spec(k@) is None,
            },
    {
        match self.position(k) {
            Some(i) => {
                proof {
                    lemma_lookup_at(self@, i as int, k@);
                }
                Some(&self.entries[i].1)
            },
            None => {
                proof {
                    lemma_lookup_none(self@, k@);
                }
                None
            },
        }
    }

    /// Stores `v` under `k`, replacing an earlier value; other keys keep
    /// their values.
    pub fn insert(&mut self, k: String, v: String)
        ensures
            forall|q: Seq<char>|
                #![trigger final(self).get_spec(q)]
                final(self).get_spec(q) == if q == k@ {
                    Some(v@)
                } else {
                    old(self).get_spec(q)
                },
    {
        let ghost kv = k@;
        let ghost vv = v@;
        match self.position(k.as_str()) {
            Some(i) => {
                let ghost before = self@;
                self.entries.set(i, (k, v));
                proof {
                    assert(self@ =~= before.update(i as int, (kv, vv)));
                    assert forall|q: Seq<char>| #[trigger]
                        lookup(self@, q) == if q == kv {
                            Some(vv)
                        } else {
                            lookup(before, q)
                        } by {
                        lemma_lookup_update(before, i as int, kv, vv, q);
                    }
                }
            },
            None => {
                let ghost before = self@;
                self.entries.push((k, v));
                proof {
                    assert(self@ =~= before.push((kv, vv)));
                    assert forall|q: Seq<char>| #[trigger]
                        lookup(self@, q) == if q == kv {
                            Some(vv)
                        } else {
                            lookup(before, q)
                        } by {
                        lemma_lookup_push(before, kv, vv, q);
                    }
                }
            },
        }
    }

    /// The mapping that inserting `pairs` in order into an empty mapping
    /// gives: each key maps to the value of its last pair.
    pub fn from_pairs(pairs: &Vec<(String, String)>) -> (r: Self)
        ensures
            forall|q: Seq<char>| #[trigger] r.get_spec(q) == last_value(entry_views(pairs@), q),
    {
        let ghost ps = entry_views(pairs@);
        let mut m = Mapping::new();
        let mut i: usize = 0;
        assert(ps.take(0) =~= Seq::<(Seq<char>, Seq<char>)>::empty());
        while i < pairs.len()
            invariant
                i <= pairs@.len(),
                ps == entry_views(pairs@),
                forall|q: Seq<char>| #[trigger] m.get_spec(q) == last_value(ps.take(i as int), q),
            decreases pairs.len() - i,
        {
            let k = crate::text::copy_str(pairs[i].0.as_str());
            let v = crate::text::copy_str(pairs[i].1.as_str());
            proof {
                assert(ps[i as int] == (pairs@[i as int].0@, pairs@[i as int].1@));
                assert(ps.take(i + 1).drop_last() =~= ps.take(i as int));
                assert(ps.take(i + 1).last() == ps[i as int]);
            }
            m.insert(k, v);
            i = i + 1;
        }
        assert(ps.take(pairs@.len() as int) =~= ps);
        m
    }

    /// Number of stored keys.
    pub fn len(&self) -> usize {
        self.entries.len()
    }

    /// The entries in insertion order.
    pub fn entries(&self) -> (r: &Vec<(String, String)>)
        ensures
            entry_views(r@) == self@,
    {
        &self.entries
    }
}

} // verus!
