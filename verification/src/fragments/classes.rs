//! What generation reads from the source of other entity classes: the
//! first string property, used as a display name, and the type of a
//! property.
use crate::models::{Field, FieldV, fields_view};
use crate::naming::{
    last_segment, last_segment_spec, ns_of, ns_of_spec, ns_relative_path, ns_relative_spec, split_nav,
    split_nav_spec,
};
use crate::pattern::{escape_spec, regex_compiles, regex_escape, regex_group1_all, regex_group1_spec};
use crate::text::{copy_str, eq_ignore_case, lower, push_str, str_eq, views};
use vstd::prelude::*;

verus! {

broadcast use vstd::string::group_string_axioms;

/// Sources of entity classes, by qualified class name.
pub struct ClassSources {
    pub entries: Vec<(String, String)>,
}

impl View for ClassSources {
    type V = Seq<(Seq<char>, Seq<char>)>;

    open spec fn view(&self) -> Seq<(Seq<char>, Seq<char>)> {
        self.entries@.map_values(|e: (String, String)| (e.0@, e.1@))
    }
}

/// The source of class `q`; empty when it was not found.
pub open spec fn class_text(srcs: Seq<(Seq<char>, Seq<char>)>, q: Seq<char>) -> Seq<char>
    decreases srcs.len(),
{
    if srcs.len() == 0 {
        Seq::empty()
    } else if srcs[0].0 == q {
        srcs[0].1
    } else {
        class_text(srcs.drop_first(), q)
    }
}

impl ClassSources {
    pub fn text_of(&self, q: &str) -> (r: String)
        ensures
            r@ == class_text(self@, q@),
    {
        let mut i: usize = 0;
        assert(self@.skip(0) =~= self@);
        while i < self.entries.len()
            invariant
                i <= self.entries@.len(),
                class_text(self@, q@) == class_text(self@.skip(i as int), q@),
            decreases self.entries.len() - i,
        {
            let ghost rest = self@.skip(i as int);
            assert(rest[0] == self@[i as int]);
            if str_eq(self.entries[i].0.as_str(), q) {
                return copy_str(self.entries[i].1.as_str());
            }
            assert(rest.drop_first() =~= self@.skip(i + 1));
            i = i + 1;
        }
        String::new()
    }
}

pub open spec fn string_prop_pattern() -> Seq<char> {
    "(?m)^\\s*(?:public|protected|internal)?(?:\\s+\\w+)*\\s+string\\??\\s+([A-Za-z_]\\w*)\\s*\\{\\s*get\\s*;\\s*(?:set|init)\\s*;\\s*\\}"@
}

/// The first name that is neither empty nor `id` in any case, else `Id`.
pub open spec fn first_prop(caps: Seq<Seq<char>>) -> Seq<char>
    decreases caps.len(),
{
    if caps.len() == 0 {
        "Id"@
    } else if lower(caps[0]) == lower("id"@) || caps[0].len() == 0 {
        first_prop(caps.drop_first())
    } else {
        caps[0]
    }
}

/// The first `string` property declared in a class source, other than
/// `Id`; `Id` when there is none.
pub open spec fn first_string_prop(text: Seq<char>) -> Seq<char> {
    if regex_compiles(string_prop_pattern()) {
        first_prop(regex_group1_spec(string_prop_pattern(), text))
    } else {
        "Id"@
    }
}

pub fn first_string_prop_exec(text: &str) -> (r: String)
    ensures
        r@ == first_string_prop(text@),
{
    match regex_group1_all("(?m)^\\s*(?:public|protected|internal)?(?:\\s+\\w+)*\\s+string\\??\\s+([A-Za-z_]\\w*)\\s*\\{\\s*get\\s*;\\s*(?:set|init)\\s*;\\s*\\}", text) {
        Ok(caps) => {
            let mut i: usize = 0;
            assert(views(caps@).skip(0) =~= views(caps@));
            while i < caps.len()
                invariant
                    i <= caps.len(),
                    first_prop(views(caps@)) == first_prop(views(caps@).skip(i as int)),
                    views(caps@) == regex_group1_spec(string_prop_pattern(), text@),
                    regex_compiles(string_prop_pattern()),
                decreases caps.len() - i,
            {
                let ghost rest = views(caps@).skip(i as int);
                assert(rest[0] == caps@[i as int]@);
                assert(rest.drop_first() =~= views(caps@).skip(i + 1));
                let c = caps[i].as_str();
                if !(eq_ignore_case(c, "id") || c.is_empty()) {
                    return copy_str(c);
                }
                i = i + 1;
            }
            assert(views(caps@).skip(i as int) =~= Seq::<Seq<char>>::empty());
            copy_str("Id")
        },
        Err(_) => copy_str("Id"),
    }
}

/// The pattern of a declaration of property `prop`, whose first group is
/// the declared type.
pub open spec fn prop_type_pattern(prop: Seq<char>) -> Seq<char> {
    "(?m)^\\s*(?:public|protected|internal|private)?(?:\\s+\\w+)*\\s+([A-Za-z_][\\w\\<>\\?]*)\\s+"@ + escape_spec(prop) + "\\s*\\{\\s*get\\s*;\\s*(?:set|init)\\s*;\\s*\\}"@
}

/// Whether the first declaration of `prop` in a class source has type
/// `string` or `string?`, in any case.
pub open spec fn prop_is_string(text: Seq<char>, prop: Seq<char>) -> bool {
    let pat = prop_type_pattern(prop);
    &&& regex_compiles(pat)
    &&& regex_group1_spec(pat, text).len() > 0
    &&& lower(strip_questions(regex_group1_spec(pat, text)[0])) == lower("string"@)
}

/// `s` without its trailing question marks.
pub open spec fn strip_questions(s: Seq<char>) -> Seq<char>
    decreases s.len(),
{
    if s.len() > 0 && s.last() == '?' {
        strip_questions(s.drop_last())
    } else {
        s
    }
}

fn strip_questions_exec(s: &str) -> (r: String)
    ensures
        r@ == strip_questions(s@),
{
    let cs = crate::text::chars_of(s);
    let mut end: usize = cs.len();
    assert(cs@.take(end as int) =~= s@);
    while end > 0 && cs[end - 1] == '?'
        invariant
            end <= cs.len(),
            cs@ == s@,
            strip_questions(s@) == strip_questions(cs@.take(end as int)),
        decreases end,
    {
        assert(cs@.take(end as int).drop_last() =~= cs@.take(end - 1));
        end = end - 1;
    }
    crate::text::string_of_range(&cs, 0, end)
}

pub fn prop_is_string_exec(text: &str, prop: &str) -> (r: bool)
    ensures
        r == prop_is_string(text@, prop@),
{
    let mut pat = copy_str("(?m)^\\s*(?:public|protected|internal|private)?(?:\\s+\\w+)*\\s+([A-Za-z_][\\w\\<>\\?]*)\\s+");
    let esc = regex_escape(prop);
    push_str(&mut pat, esc.as_str());
    push_str(&mut pat, "\\s*\\{\\s*get\\s*;\\s*(?:set|init)\\s*;\\s*\\}");
    match regex_group1_all(pat.as_str(), text) {
        Ok(caps) => {
            if caps.len() == 0 {
                return false;
            }
            assert(views(caps@)[0] == caps@[0]@);
            let t = strip_questions_exec(caps[0].as_str());
            eq_ignore_case(t.as_str(), "string")
        },
        Err(_) => false,
    }
}

/// The qualified class names whose sources generation reads: the entity
/// itself, then for each navigation field its target and its raw reference.
pub open spec fn class_lookups_spec(ns: Seq<char>, e: Seq<char>, fs: Seq<FieldV>) -> Seq<Seq<char>>
    decreases fs.len(),
{
    if fs.len() == 0 {
        seq![ns + "."@ + e]
    } else {
        let rest = class_lookups_spec(ns, e, fs.drop_last());
        match fs.last().navigation {
            Some(n) => rest.push(split_nav_spec(n).0).push(n),
            None => rest,
        }
    }
}

/// The classes of entity `entity` in `namespace` with `fields` whose
/// sources generation reads.
pub fn class_lookups(namespace: &str, entity: &str, fields: &[Field]) -> (r: Vec<String>)
    ensures
        views(r@) == class_lookups_spec(namespace@, entity@, fields_view(fields@)),
{
    let ghost fs = fields_view(fields@);
    let mut first = copy_str(namespace);
    push_str(&mut first, ".");
    push_str(&mut first, entity);
    let mut out: Vec<String> = Vec::new();
    out.push(first);
    assert(fs.take(0) =~= Seq::<FieldV>::empty());
    assert(views(out@) =~= class_lookups_spec(namespace@, entity@, fs.take(0)));
    let mut i: usize = 0;
    while i < fields.len()
        invariant
            i <= fields@.len(),
            fs == fields_view(fields@),
            views(out@) == class_lookups_spec(namespace@, entity@, fs.take(i as int)),
        decreases fields.len() - i,
    {
        proof {
            assert(fs.take(i + 1).drop_last() =~= fs.take(i as int));
            assert(fs.take(i + 1).last() == fs[i as int]);
        }
        match &fields[i].navigation {
            Some(n) => {
                let (base, _) = split_nav(n.as_str());
                let ghost before = views(out@);
                out.push(base);
                out.push(copy_str(n.as_str()));
                assert(views(out@) =~= before.push(split_nav_spec(n@).0).push(n@));
            },
            None => {},
        }
        i = i + 1;
    }
    assert(fs.take(fields@.len() as int) =~= fs);
    out
}

/// Path segments, below the `src` directory, of the source of class
/// `qualified`: the domain project, the namespace's folders, the file.
pub open spec fn class_source_path_spec(domain: Seq<char>, qualified: Seq<char>) -> Seq<Seq<char>> {
    seq![domain + ".Domain"@] + ns_relative_spec(domain, ns_of_spec(qualified)) + seq![
        last_segment_spec(qualified) + ".cs"@,
    ]
}

pub fn class_source_path(domain: &str, qualified: &str) -> (r: Vec<String>)
    ensures
        views(r@) == class_source_path_spec(domain@, qualified@),
{
    let mut project = copy_str(domain);
    push_str(&mut project, ".Domain");
    let ns = ns_of(qualified);
    let rel = ns_relative_path(domain, ns.as_str());
    let mut file = last_segment(qualified);
    push_str(&mut file, ".cs");
    let mut out: Vec<String> = Vec::new();
    let ghost pv = project@;
    out.push(project);
    let ghost head = views(out@);
    assert(head =~= seq![pv]);
    let mut i: usize = 0;
    while i < rel.len()
        invariant
            i <= rel@.len(),
            views(out@) == head + views(rel@).take(i as int),
        decreases rel.len() - i,
    {
        let ghost before = views(out@);
        let c = copy_str(rel[i].as_str());
        out.push(c);
        assert(views(out@) =~= before.push(rel@[i as int]@));
        assert(views(rel@).take(i + 1) =~= views(rel@).take(i as int).push(rel@[i as int]@));
        assert(views(out@) =~= head + views(rel@).take(i + 1));
        i = i + 1;
    }
    assert(views(rel@).take(rel@.len() as int) =~= views(rel@));
    let ghost before = views(out@);
    assert(before == seq![pv] + ns_relative_spec(domain@, ns_of_spec(qualified@)));
    let ghost fv = file@;
    out.push(file);
    assert(views(out@) =~= before.push(fv));
    assert(views(out@) =~= class_source_path_spec(domain@, qualified@));
    out
}

} // verus!
