//! Object mappings of the Application layer: the AutoMapper profile, or the
//! Mapperly mapper file where the profile is missing.
use crate::merge::{ensure_using, ensure_using_spec, insert_at, insert_before_close_spec,
    insert_before_last_close_brace_of_method, invalid_pattern_msg, lemma_ensure_using_contains,
    lemma_ensure_using_keeps, MergeContext};
use crate::merge::web::using_of;
use crate::pattern::{
    capture_views, escape_spec, regex_captures, regex_captures_spec, regex_compiles, regex_escape,
    regex_find, regex_first_match,
};
use crate::text::{
    chars_of, contains, copy_str, ends_with, find, find_exec, lines, lines_exec, opt_int, push_str,
    replace_all, replace_exec, str_contains, str_eq, string_of_range, trim, trim_exec, views,
    lemma_contains_prefix, lemma_contains_trans, lemma_contains_within, lemma_trim_single_line,
    occurs_at, single_line,
};
use vstd::prelude::*;

verus! {

/* ------------------------------ usings ------------------------------ */

/// The profile with `using System;` before its first `using`, or at the
/// top; unchanged when it is there.
pub open spec fn with_system_using(src: Seq<char>) -> Seq<char> {
    if contains(src, "using System;"@) {
        src
    } else {
        match find(src, "using "@) {
            Some(p) => insert_at(src, p, "using System;\n"@),
            None => "using System;\n"@ + src,
        }
    }
}

/// `src` with each non-blank line of `ls` ensured as a `using` directive.
pub open spec fn ensure_nav_usings(src: Seq<char>, ls: Seq<Seq<char>>) -> Seq<char>
    decreases ls.len(),
{
    if ls.len() == 0 {
        src
    } else {
        let s = ensure_nav_usings(src, ls.drop_last());
        if trim(ls.last()).len() == 0 {
            s
        } else {
            ensure_using_spec(s, ls.last())
        }
    }
}

pub open spec fn shared_using(domain: Seq<char>) -> Seq<char> {
    "using "@ + domain + ".Shared;"@
}

/// The profile's usings: the entity namespace, the domain's shared
/// namespace and the navigation usings.
pub open spec fn profile_usings(src: Seq<char>, ns: Seq<char>, domain: Seq<char>, nav_usings: Seq<char>) -> Seq<char> {
    ensure_nav_usings(
        ensure_using_spec(ensure_using_spec(src, using_of(ns)), shared_using(domain)),
        lines(nav_usings),
    )
}

fn shared_using_exec(domain: &str) -> (r: String)
    ensures
        r@ == shared_using(domain@),
{
    let mut r = copy_str("using ");
    push_str(&mut r, domain);
    push_str(&mut r, ".Shared;");
    r
}

fn using_exec(ns: &str) -> (r: String)
    ensures
        r@ == using_of(ns@),
{
    let mut r = copy_str("using ");
    push_str(&mut r, ns);
    push_str(&mut r, ";");
    r
}

fn with_system_using_exec(src: &str) -> (r: String)
    ensures
        r@ == with_system_using(src@),
{
    if str_contains(src, "using System;") {
        return copy_str(src);
    }
    let cs = chars_of(src);
    let pat = chars_of("using ");
    match find_exec(&cs, &pat) {
        Some(p) => {
            proof {
                crate::text::lemma_find_from_sound(cs@, pat@, 0);
            }
            let mut out = string_of_range(&cs, 0, p);
            push_str(&mut out, "using System;\n");
            let tail = string_of_range(&cs, p, cs.len());
            push_str(&mut out, tail.as_str());
            assert(cs@.subrange(0, p as int) =~= cs@.take(p as int));
            assert(cs@.subrange(p as int, cs@.len() as int) =~= cs@.skip(p as int));
            out
        },
        None => {
            let mut out = copy_str("using System;\n");
            push_str(&mut out, src);
            out
        },
    }
}

fn ensure_nav_usings_exec(src: String, nav_usings: &str) -> (r: String)
    ensures
        r@ == ensure_nav_usings(src@, lines(nav_usings@)),
{
    let ls = lines_exec(nav_usings);
    let ghost lv = views(ls@);
    let mut s = src;
    let ghost s0 = s@;
    let mut i: usize = 0;
    assert(lv.take(0) =~= Seq::<Seq<char>>::empty());
    while i < ls.len()
        invariant
            i <= ls@.len(),
            lv == views(ls@),
            s@ == ensure_nav_usings(s0, lv.take(i as int)),
        decreases ls.len() - i,
    {
        proof {
            assert(lv.take(i + 1).drop_last() =~= lv.take(i as int));
        }
        let t = trim_exec(ls[i].as_str());
        if !t.as_str().is_empty() {
            s = ensure_using(s.as_str(), ls[i].as_str());
        }
        proof {
            assert(t@.len() == trim(lv[i as int]).len());
        }
        i = i + 1;
    }
    assert(lv.take(ls@.len() as int) =~= lv);
    s
}

/* ------------------------------ AutoMapper profile ------------------------------ */

/// A `CreateMap<Entity, Entity{suffix}>(` presence pattern.
pub open spec fn dto_pattern(x: Seq<char>, suffix: Seq<char>) -> Seq<char> {
    "CreateMap\\s*<\\s*"@ + x + "\\s*,\\s*"@ + x + "\\s*"@ + suffix + "\\s*>\\s*\\("@
}

pub open spec fn dto_line(e: Seq<char>, suffix: Seq<char>) -> Seq<char> {
    "CreateMap<"@ + e + ", "@ + e + suffix + ">();"@
}

pub open spec fn lookup_pattern(x: Seq<char>) -> Seq<char> {
    "CreateMap\\s*<\\s*"@ + x + "\\s*,\\s*LookupDto\\s*<\\s*Guid\\s*>\\s*>\\s*\\("@
}

pub open spec fn lookup_line(e: Seq<char>) -> Seq<char> {
    "CreateMap<"@ + e + ", LookupDto<Guid>>()    .ForMember(dest => dest.DisplayName, opt => opt.MapFrom(src => src.Name));"@
}

pub open spec fn with_nav_pattern(x: Seq<char>) -> Seq<char> {
    "CreateMap\\s*<\\s*"@ + x + "WithNavigationProperties\\s*,\\s*"@ + x + "WithNavigationPropertiesDto\\s*>\\s*\\("@
}

pub open spec fn with_nav_line(e: Seq<char>) -> Seq<char> {
    "CreateMap<"@ + e + "WithNavigationProperties, "@ + e + "WithNavigationPropertiesDto>();"@
}

/// The maps every entity needs, each with the pattern that finds it.
pub open spec fn entity_maps(e: Seq<char>) -> Seq<(Seq<char>, Seq<char>)> {
    let x = escape_spec(e);
    Seq::empty()
        .push((lookup_pattern(x), lookup_line(e)))
        .push((dto_pattern(x, "Dto"@), dto_line(e, "Dto"@)))
        .push((dto_pattern(x, "ExcelDto"@), dto_line(e, "ExcelDto"@)))
        .push((with_nav_pattern(x), with_nav_line(e)))
        .push((dto_pattern(x, "CreateDto"@), dto_line(e, "CreateDto"@)))
        .push((dto_pattern(x, "UpdateDto"@), dto_line(e, "UpdateDto"@)))
}

/// A pattern that finds `line` with any run of white space where it has a
/// space.
pub open spec fn presence_pattern(line: Seq<char>) -> Seq<char> {
    replace_all(escape_spec(line), "\\ "@, "\\s+"@)
}

/// The navigation maps: each non-blank line, trimmed, with its pattern.
pub open spec fn nav_maps(ls: Seq<Seq<char>>) -> Seq<(Seq<char>, Seq<char>)>
    decreases ls.len(),
{
    if ls.len() == 0 {
        Seq::empty()
    } else {
        let rest = nav_maps(ls.drop_last());
        let l = trim(ls.last());
        if l.len() == 0 {
            rest
        } else {
            rest.push((presence_pattern(l), l))
        }
    }
}

/// Every map the profile should hold, with its presence pattern.
pub open spec fn desired_maps(e: Seq<char>, nav_profile_maps: Seq<char>) -> Seq<(Seq<char>, Seq<char>)> {
    entity_maps(e) + nav_maps(lines(nav_profile_maps))
}

pub open spec fn profile_ctor_pattern(short: Seq<char>) -> Seq<char> {
    "public\\s+"@ + escape_spec(short) + "\\s*ApplicationAutoMapperProfile\\s*\\(\\s*\\)\\s*"@
}

pub open spec fn with_semicolon(line: Seq<char>) -> Seq<char> {
    if ends_with(line, ";"@) {
        line
    } else {
        line + ";"@
    }
}

/// The text of a map line before its first `(`.
pub open spec fn line_head(line: Seq<char>) -> Seq<char> {
    match find(line, "("@) {
        Some(i) => line.take(i),
        None => line,
    }
}

/// The profile after each missing map of `d` is added at the end of the
/// constructor, with one entry per added map: its head, or none when the
/// constructor was not found.
pub open spec fn profile_steps(s: Seq<char>, ctor: Seq<char>, d: Seq<(Seq<char>, Seq<char>)>) -> (
    Seq<char>,
    Seq<Option<Seq<char>>>,
)
    decreases d.len(),
{
    if d.len() == 0 {
        (s, Seq::empty())
    } else {
        let prev = profile_steps(s, ctor, d.drop_last());
        let cur = prev.0;
        let p = d.last();
        if regex_first_match(p.0, cur) is Some {
            prev
        } else {
            let next = insert_before_close_spec(
                cur,
                regex_first_match(ctor, cur),
                "\n        "@ + with_semicolon(p.1),
            );
            if next != cur {
                (next, prev.1.push(Some(line_head(p.1))))
            } else {
                (cur, prev.1.push(None))
            }
        }
    }
}

/// The first pattern at or after `i` that does not compile.
pub open spec fn first_bad_from(ps: Seq<Seq<char>>, i: int) -> Option<Seq<char>>
    decreases ps.len() - i,
{
    if i < 0 || i >= ps.len() {
        None
    } else if !regex_compiles(ps[i]) {
        Some(ps[i])
    } else {
        first_bad_from(ps, i + 1)
    }
}

/// Every pattern of the profile merge, in the order in which they are
/// compiled.
pub open spec fn profile_patterns(e: Seq<char>, short: Seq<char>, nav_profile_maps: Seq<char>) -> Seq<Seq<char>> {
    desired_maps(e, nav_profile_maps).map_values(|p: (Seq<char>, Seq<char>)| p.0).push(
        profile_ctor_pattern(short),
    )
}

pub open spec fn step_views(v: Seq<Option<String>>) -> Seq<Option<Seq<char>>> {
    v.map_values(|o: Option<String>| crate::models::opt_view(o))
}

/// The merged profile and what the merge did.
pub struct ProfileMerge {
    pub text: String,
    pub system_using_added: bool,
    pub usings_added: bool,
    /// One entry per map that was missing: its head when it was added, none
    /// when the constructor was not found.
    pub steps: Vec<Option<String>>,
}

fn dto_pattern_exec(x: &str, suffix: &str) -> (r: String)
    ensures
        r@ == dto_pattern(x@, suffix@),
{
    let mut r = copy_str("CreateMap\\s*<\\s*");
    push_str(&mut r, x);
    push_str(&mut r, "\\s*,\\s*");
    push_str(&mut r, x);
    push_str(&mut r, "\\s*");
    push_str(&mut r, suffix);
    push_str(&mut r, "\\s*>\\s*\\(");
    r
}

fn dto_line_exec(e: &str, suffix: &str) -> (r: String)
    ensures
        r@ == dto_line(e@, suffix@),
{
    let mut r = copy_str("CreateMap<");
    push_str(&mut r, e);
    push_str(&mut r, ", ");
    push_str(&mut r, e);
    push_str(&mut r, suffix);
    push_str(&mut r, ">();");
    r
}

fn push_entry(v: &mut Vec<(String, String)>, p: String, l: String)
    ensures
        capture_views(final(v)@) == capture_views(old(v)@).push((p@, l@)),
{
    let ghost before = v@;
    let ghost pv = p@;
    let ghost lv = l@;
    v.push((p, l));
    assert(capture_views(v@) =~= capture_views(before).push((pv, lv)));
}

fn entity_maps_exec(e: &str) -> (r: Vec<(String, String)>)
    ensures
        capture_views(r@) == entity_maps(e@),
{
    let x = regex_escape(e);
    let xs = x.as_str();
    let mut v: Vec<(String, String)> = Vec::new();
    assert(capture_views(v@) =~= Seq::<(Seq<char>, Seq<char>)>::empty());
    let mut lp = copy_str("CreateMap\\s*<\\s*");
    push_str(&mut lp, xs);
    push_str(&mut lp, "\\s*,\\s*LookupDto\\s*<\\s*Guid\\s*>\\s*>\\s*\\(");
    let mut ll = copy_str("CreateMap<");
    push_str(&mut ll, e);
    push_str(
        &mut ll,
        ", LookupDto<Guid>>()    .ForMember(dest => dest.DisplayName, opt => opt.MapFrom(src => src.Name));",
    );
    push_entry(&mut v, lp, ll);
    push_entry(&mut v, dto_pattern_exec(xs, "Dto"), dto_line_exec(e, "Dto"));
    push_entry(&mut v, dto_pattern_exec(xs, "ExcelDto"), dto_line_exec(e, "ExcelDto"));
    let mut wp = copy_str("CreateMap\\s*<\\s*");
    push_str(&mut wp, xs);
    push_str(&mut wp, "WithNavigationProperties\\s*,\\s*");
    push_str(&mut wp, xs);
    push_str(&mut wp, "WithNavigationPropertiesDto\\s*>\\s*\\(");
    let mut wl = copy_str("CreateMap<");
    push_str(&mut wl, e);
    push_str(&mut wl, "WithNavigationProperties, ");
    push_str(&mut wl, e);
    push_str(&mut wl, "WithNavigationPropertiesDto>();");
    push_entry(&mut v, wp, wl);
    push_entry(&mut v, dto_pattern_exec(xs, "CreateDto"), dto_line_exec(e, "CreateDto"));
    push_entry(&mut v, dto_pattern_exec(xs, "UpdateDto"), dto_line_exec(e, "UpdateDto"));
    v
}

/// Every map the profile of `entity` should hold, with its presence
/// pattern: the entity's own maps, then one per non-blank line of
/// `nav_profile_maps`.
pub fn desired_maps_exec(entity: &str, nav_profile_maps: &str) -> (r: Vec<(String, String)>)
    ensures
        capture_views(r@) == desired_maps(entity@, nav_profile_maps@),
{
    let mut v = entity_maps_exec(entity);
    let ghost base = capture_views(v@);
    let ls = lines_exec(nav_profile_maps);
    let ghost lv = views(ls@);
    let mut i: usize = 0;
    assert(lv.take(0) =~= Seq::<Seq<char>>::empty());
    assert(base + nav_maps(lv.take(0)) =~= base);
    while i < ls.len()
        invariant
            i <= ls@.len(),
            lv == views(ls@),
            capture_views(v@) == base + nav_maps(lv.take(i as int)),
        decreases ls.len() - i,
    {
        proof {
            assert(lv.take(i + 1).drop_last() =~= lv.take(i as int));
        }
        let l = trim_exec(ls[i].as_str());
        if !l.as_str().is_empty() {
            let esc = regex_escape(l.as_str());
            proof {
                reveal_strlit("\\ ");
            }
            let p = replace_exec(esc.as_str(), "\\ ", "\\s+");
            let ghost before = capture_views(v@);
            push_entry(&mut v, p, l);
            assert(capture_views(v@) =~= base + nav_maps(lv.take(i + 1)));
        } else {
            assert(capture_views(v@) =~= base + nav_maps(lv.take(i + 1)));
        }
        i = i + 1;
    }
    assert(lv.take(ls@.len() as int) =~= lv);
    v
}

fn line_head_exec(line: &str) -> (r: String)
    ensures
        r@ == line_head(line@),
{
    let cs = chars_of(line);
    let open = chars_of("(");
    match find_exec(&cs, &open) {
        Some(i) => {
            proof {
                crate::text::lemma_find_from_sound(cs@, open@, 0);
            }
            let r = string_of_range(&cs, 0, i);
            assert(r@ =~= cs@.take(i as int));
            r
        },
        None => copy_str(line),
    }
}

fn with_semicolon_exec(line: &str) -> (r: String)
    ensures
        r@ == with_semicolon(line@),
{
    let cs = chars_of(line);
    let semi = chars_of(";");
    if crate::text::ends_with_exec(&cs, &semi) {
        copy_str(line)
    } else {
        let mut r = copy_str(line);
        push_str(&mut r, ";");
        r
    }
}

fn profile_ctor_exec(short: &str) -> (r: String)
    ensures
        r@ == profile_ctor_pattern(short@),
{
    let esc = regex_escape(short);
    let mut r = copy_str("public\\s+");
    push_str(&mut r, esc.as_str());
    push_str(&mut r, "\\s*ApplicationAutoMapperProfile\\s*\\(\\s*\\)\\s*");
    r
}

/// Adds `using System;`, the namespace usings and every missing map to the
/// Application AutoMapper profile; each map goes at the end of the profile
/// constructor. Fails, changing nothing, when one of the patterns does not
/// compile.
#[verifier::rlimit(60)]
pub fn merge_application_profile(
    src: &str,
    context: &MergeContext,
    nav_profile_maps: &str,
    nav_usings: &str,
) -> (r: Result<ProfileMerge, String>)
    ensures
        ({
            let ps = profile_patterns(context.entity@, context.short@, nav_profile_maps@);
            &&& r is Err <==> first_bad_from(ps, 0) is Some
            &&& r matches Err(e) ==> (first_bad_from(ps, 0) matches Some(p) && e@ == invalid_pattern_msg(p))
        }),
        r matches Ok(m) ==> ({
            let s0 = with_system_using(src@);
            let s1 = profile_usings(s0, context.namespace@, context.domain@, nav_usings@);
            let st = profile_steps(
                s1,
                profile_ctor_pattern(context.short@),
                desired_maps(context.entity@, nav_profile_maps@),
            );
            &&& m.system_using_added == !contains(src@, "using System;"@)
            &&& m.usings_added == (s1 != s0)
            &&& m.text@ == st.0
            &&& step_views(m.steps@) == st.1
        }),
{
    let d = desired_maps_exec(context.entity.as_str(), nav_profile_maps);
    let ctor = profile_ctor_exec(context.short.as_str());
    let ghost dv = capture_views(d@);
    let ghost ps = profile_patterns(context.entity@, context.short@, nav_profile_maps@);
    assert(ps.len() == d@.len() + 1);
    let mut i: usize = 0;
    while i < d.len()
        invariant
            i <= d@.len(),
            dv == capture_views(d@),
            ps == dv.map_values(|p: (Seq<char>, Seq<char>)| p.0).push(ctor@),
            ps == profile_patterns(context.entity@, context.short@, nav_profile_maps@),
            first_bad_from(ps, 0) == first_bad_from(ps, i as int),
            forall|j: int| 0 <= j < i ==> regex_compiles(#[trigger] dv[j].0),
        decreases d.len() - i,
    {
        assert(ps[i as int] == d@[i as int].0@);
        if regex_find(d[i].0.as_str(), "").is_err() {
            assert(!regex_compiles(ps[i as int]));
            assert(first_bad_from(ps, i as int) == Some(ps[i as int]));
            return Err(crate::merge::invalid_pattern(d[i].0.as_str()));
        }
        i = i + 1;
    }
    assert(ps[d@.len() as int] == ctor@);
    if regex_find(ctor.as_str(), "").is_err() {
        return Err(crate::merge::invalid_pattern(ctor.as_str()));
    }
    assert(first_bad_from(ps, d@.len() + 1int) is None);
    let s0 = with_system_using_exec(src);
    let system_using_added = !str_contains(src, "using System;");
    let e1 = using_exec(context.namespace.as_str());
    let e2 = shared_using_exec(context.domain.as_str());
    let a = ensure_using(s0.as_str(), e1.as_str());
    let b = ensure_using(a.as_str(), e2.as_str());
    let s1 = ensure_nav_usings_exec(b, nav_usings);
    let usings_added = !str_eq(s1.as_str(), s0.as_str());
    let mut cur = s1;
    let ghost start = cur@;
    let mut steps: Vec<Option<String>> = Vec::new();
    let mut k: usize = 0;
    assert(dv.take(0) =~= Seq::<(Seq<char>, Seq<char>)>::empty());
    assert(step_views(steps@) =~= Seq::<Option<Seq<char>>>::empty());
    while k < d.len()
        invariant
            k <= d@.len(),
            dv == capture_views(d@),
            forall|j: int| 0 <= j < d@.len() ==> regex_compiles(#[trigger] dv[j].0),
            regex_compiles(ctor@),
            (cur@, step_views(steps@)) == profile_steps(start, ctor@, dv.take(k as int)),
        decreases d.len() - k,
    {
        proof {
            assert(dv.take(k + 1).drop_last() =~= dv.take(k as int));
            assert(dv.take(k + 1).last() == dv[k as int]);
            assert(regex_compiles(dv[k as int].0));
        }
        let found = regex_find(d[k].0.as_str(), cur.as_str());
        let present = match found {
            Ok(Some(_)) => true,
            _ => false,
        };
        if !present {
            let sc = with_semicolon_exec(d[k].1.as_str());
            let mut ins = copy_str("\n        ");
            push_str(&mut ins, sc.as_str());
            let next = match insert_before_last_close_brace_of_method(cur.as_str(), ctor.as_str(), ins.as_str()) {
                Ok(n) => n,
                Err(_) => copy_str(cur.as_str()),
            };
            let ghost before = steps@;
            if !str_eq(next.as_str(), cur.as_str()) {
                let h = line_head_exec(d[k].1.as_str());
                steps.push(Some(h));
                cur = next;
            } else {
                steps.push(None);
            }
            assert(step_views(steps@) =~= step_views(before).push(step_views(steps@).last()));
        }
        k = k + 1;
    }
    assert(dv.take(d@.len() as int) =~= dv);
    Ok(ProfileMerge { text: cur, system_using_added, usings_added, steps })
}

/// The profile text that `merge_application_profile` produces.
pub open spec fn application_profile_text(
    src: Seq<char>,
    context: MergeContext,
    nav_profile_maps: Seq<char>,
    nav_usings: Seq<char>,
) -> Seq<char> {
    profile_steps(
        profile_usings(with_system_using(src), context.namespace@, context.domain@, nav_usings),
        profile_ctor_pattern(context.short@),
        desired_maps(context.entity@, nav_profile_maps),
    ).0
}

/// Every non-blank line of `ls`, trimmed, occurs in `t`.
pub open spec fn nav_usings_present(t: Seq<char>, ls: Seq<Seq<char>>) -> bool {
    forall|i: int| 0 <= i < ls.len() ==> trim(#[trigger] ls[i]).len() == 0 || contains(t, trim(ls[i]))
}

/// The profile holds every using directive of the merge, and every map of
/// `d` is found by its presence pattern.
pub open spec fn profile_complete(
    t: Seq<char>,
    context: MergeContext,
    nav_profile_maps: Seq<char>,
    nav_usings: Seq<char>,
) -> bool {
    let d = desired_maps(context.entity@, nav_profile_maps);
    &&& contains(t, "using System;"@)
    &&& contains(t, trim(using_of(context.namespace@)))
    &&& contains(t, trim(shared_using(context.domain@)))
    &&& nav_usings_present(t, lines(nav_usings))
    &&& forall|i: int| 0 <= i < d.len() ==> regex_first_match(#[trigger] d[i].0, t) is Some
}

proof fn lemma_nav_usings_fixed(t: Seq<char>, ls: Seq<Seq<char>>)
    requires
        nav_usings_present(t, ls),
    ensures
        ensure_nav_usings(t, ls) == t,
    decreases ls.len(),
{
    if ls.len() > 0 {
        assert forall|i: int| 0 <= i < ls.drop_last().len() implies trim(
            #[trigger] ls.drop_last()[i],
        ).len() == 0 || contains(t, trim(ls.drop_last()[i])) by {
            assert(ls.drop_last()[i] == ls[i]);
        }
        lemma_nav_usings_fixed(t, ls.drop_last());
        assert(trim(ls[ls.len() - 1]).len() == 0 || contains(t, trim(ls[ls.len() - 1])));
    }
}

proof fn lemma_profile_steps_fixed(s: Seq<char>, ctor: Seq<char>, d: Seq<(Seq<char>, Seq<char>)>)
    requires
        forall|i: int| 0 <= i < d.len() ==> regex_first_match(#[trigger] d[i].0, s) is Some,
    ensures
        profile_steps(s, ctor, d) == (s, Seq::<Option<Seq<char>>>::empty()),
    decreases d.len(),
{
    if d.len() > 0 {
        assert forall|i: int| 0 <= i < d.drop_last().len() implies regex_first_match(
            #[trigger] d.drop_last()[i].0,
            s,
        ) is Some by {
            assert(d.drop_last()[i] == d[i]);
        }
        lemma_profile_steps_fixed(s, ctor, d.drop_last());
        assert(regex_first_match(d[d.len() - 1].0, s) is Some);
    }
}

/// Law: a profile that already holds the merge's using directives and in
/// which every map is found is left unchanged by the merge, and no map step
/// is reported. In particular a second merge changes nothing wherever the
/// first left the profile complete.
pub proof fn lemma_application_profile_complete_unchanged(
    t: Seq<char>,
    context: MergeContext,
    nav_profile_maps: Seq<char>,
    nav_usings: Seq<char>,
)
    requires
        profile_complete(t, context, nav_profile_maps, nav_usings),
    ensures
        application_profile_text(t, context, nav_profile_maps, nav_usings) == t,
        profile_steps(
            profile_usings(with_system_using(t), context.namespace@, context.domain@, nav_usings),
            profile_ctor_pattern(context.short@),
            desired_maps(context.entity@, nav_profile_maps),
        ).1.len() == 0,
{
    assert(with_system_using(t) == t);
    assert(ensure_using_spec(t, using_of(context.namespace@)) == t);
    assert(ensure_using_spec(t, shared_using(context.domain@)) == t);
    lemma_nav_usings_fixed(t, lines(nav_usings));
    assert(profile_usings(t, context.namespace@, context.domain@, nav_usings) == t);
    lemma_profile_steps_fixed(
        t,
        profile_ctor_pattern(context.short@),
        desired_maps(context.entity@, nav_profile_maps),
    );
}

/* ------------------------------ Mapperly mapper file ------------------------------ */

/// The usings of the Mapperly mapper file.
pub open spec fn mapper_usings(src: Seq<char>, ns: Seq<char>, domain: Seq<char>, nav_usings: Seq<char>) -> Seq<char> {
    let s = ensure_using_spec(src, using_of(ns));
    let s = ensure_using_spec(s, shared_using(domain));
    let s = ensure_using_spec(s, "using Riok.Mapperly.Abstractions;"@);
    let s = ensure_using_spec(s, "using Volo.Abp.Mapperly;"@);
    let s = ensure_using_spec(s, "using System;"@);
    ensure_nav_usings(s, lines(nav_usings))
}

/// The Mapperly lookup mapper of entity `e`, displayed by `display`.
pub open spec fn lookup_mapper_block(e: Seq<char>, display: Seq<char>) -> Seq<char> {
    "\n    [Mapper]\n    public partial class "@ + e + "ToLookupDtoMapper : MapperBase<"@ + e + ", LookupDto<Guid>>\n    {\n    [MapProperty(nameof("@ + e + "."@ + display + "), nameof(LookupDto<Guid>.DisplayName))]\n    public override partial LookupDto<Guid> Map("@ + e + " source);\n    [MapProperty(nameof("@ + e + "."@ + display + "), nameof(LookupDto<Guid>.DisplayName))]\n    public override partial void Map("@ + e + " source, LookupDto<Guid> destination);\n    }\n    "@
}

/// The Mapperly mappers of entity `e`, followed by `lookup`.
pub open spec fn entity_mapper_block(e: Seq<char>, lookup: Seq<char>) -> Seq<char> {
    "\n    [Mapper]\n    public partial class "@ + e + "To"@ + e + "DtoMapper : MapperBase<"@ + e + ", "@ + e + "Dto>\n    {\n    public override partial "@ + e + "Dto Map("@ + e + " source);\n    public override partial void Map("@ + e + " source, "@ + e + "Dto destination);\n    }\n    \n    [Mapper]\n    public partial class "@ + e + "To"@ + e + "ExcelDtoMapper : MapperBase<"@ + e + ", "@ + e + "ExcelDto>\n    {\n    public override partial "@ + e + "ExcelDto Map("@ + e + " source);\n    public override partial void Map("@ + e + " source, "@ + e + "ExcelDto destination);\n    }\n    \n    [Mapper]\n    public partial class "@ + e + "WithNavigationPropertiesTo"@ + e + "WithNavigationPropertiesDtoMapper : MapperBase<"@ + e + "WithNavigationProperties, "@ + e + "WithNavigationPropertiesDto>\n    {\n    public override partial "@ + e + "WithNavigationPropertiesDto Map("@ + e + "WithNavigationProperties source);\n    public override partial void Map("@ + e + "WithNavigationProperties source, "@ + e + "WithNavigationPropertiesDto destination);\n    }\n    \n    "@ + lookup
}

fn lookup_mapper_block_exec(e: &str, display: &str) -> (r: String)
    ensures
        r@ == lookup_mapper_block(e@, display@),
{
    let mut r = copy_str("\n    [Mapper]\n    public partial class ");
    push_str(&mut r, e);
    push_str(&mut r, "ToLookupDtoMapper : MapperBase<");
    push_str(&mut r, e);
    push_str(&mut r, ", LookupDto<Guid>>\n    {\n    [MapProperty(nameof(");
    push_str(&mut r, e);
    push_str(&mut r, ".");
    push_str(&mut r, display);
    push_str(&mut r, "), nameof(LookupDto<Guid>.DisplayName))]\n    public override partial LookupDto<Guid> Map(");
    push_str(&mut r, e);
    push_str(&mut r, " source);\n    [MapProperty(nameof(");
    push_str(&mut r, e);
    push_str(&mut r, ".");
    push_str(&mut r, display);
    push_str(&mut r, "), nameof(LookupDto<Guid>.DisplayName))]\n    public override partial void Map(");
    push_str(&mut r, e);
    push_str(&mut r, " source, LookupDto<Guid> destination);\n    }\n    ");
    r
}

fn entity_mapper_block_exec(e: &str, lookup: &str) -> (r: String)
    ensures
        r@ == entity_mapper_block(e@, lookup@),
{
    let mut r = copy_str("\n    [Mapper]\n    public partial class ");
    push_str(&mut r, e);
    push_str(&mut r, "To");
    push_str(&mut r, e);
    push_str(&mut r, "DtoMapper : MapperBase<");
    push_str(&mut r, e);
    push_str(&mut r, ", ");
    push_str(&mut r, e);
    push_str(&mut r, "Dto>\n    {\n    public override partial ");
    push_str(&mut r, e);
    push_str(&mut r, "Dto Map(");
    push_str(&mut r, e);
    push_str(&mut r, " source);\n    public override partial void Map(");
    push_str(&mut r, e);
    push_str(&mut r, " source, ");
    push_str(&mut r, e);
    push_str(&mut r, "Dto destination);\n    }\n    \n    [Mapper]\n    public partial class ");
    push_str(&mut r, e);
    push_str(&mut r, "To");
    push_str(&mut r, e);
    push_str(&mut r, "ExcelDtoMapper : MapperBase<");
    push_str(&mut r, e);
    push_str(&mut r, ", ");
    push_str(&mut r, e);
    push_str(&mut r, "ExcelDto>\n    {\n    public override partial ");
    push_str(&mut r, e);
    push_str(&mut r, "ExcelDto Map(");
    push_str(&mut r, e);
    push_str(&mut r, " source);\n    public override partial void Map(");
    push_str(&mut r, e);
    push_str(&mut r, " source, ");
    push_str(&mut r, e);
    push_str(&mut r, "ExcelDto destination);\n    }\n    \n    [Mapper]\n    public partial class ");
    push_str(&mut r, e);
    push_str(&mut r, "WithNavigationPropertiesTo");
    push_str(&mut r, e);
    push_str(&mut r, "WithNavigationPropertiesDtoMapper : MapperBase<");
    push_str(&mut r, e);
    push_str(&mut r, "WithNavigationProperties, ");
    push_str(&mut r, e);
    push_str(&mut r, "WithNavigationPropertiesDto>\n    {\n    public override partial ");
    push_str(&mut r, e);
    push_str(&mut r, "WithNavigationPropertiesDto Map(");
    push_str(&mut r, e);
    push_str(&mut r, "WithNavigationProperties source);\n    public override partial void Map(");
    push_str(&mut r, e);
    push_str(&mut r, "WithNavigationProperties source, ");
    push_str(&mut r, e);
    push_str(&mut r, "WithNavigationPropertiesDto destination);\n    }\n    \n    ");
    push_str(&mut r, lookup);
    r
}

pub open spec fn nav_block_pattern() -> Seq<char> {
    "(?s)// <auto-nav-lookup-([A-Za-z_][A-Za-z0-9_]*)>.*?// </auto-nav-lookup-[A-Za-z_][A-Za-z0-9_]*>"@
}

pub open spec fn lookup_marker(m: Seq<char>) -> Seq<char> {
    "<auto-nav-lookup-"@ + m + ">"@
}

pub open spec fn lookup_class(m: Seq<char>) -> Seq<char> {
    "class "@ + m + "ToLookupDtoMapper"@
}

/// The mapper file after each marked navigation block of `caps` (whole
/// block, marker) that it lacks is appended, with the markers appended.
pub open spec fn nav_block_fold(s: Seq<char>, caps: Seq<(Seq<char>, Seq<char>)>) -> (Seq<char>, Seq<Seq<char>>)
    decreases caps.len(),
{
    if caps.len() == 0 {
        (s, Seq::empty())
    } else {
        let prev = nav_block_fold(s, caps.drop_last());
        let c = caps.last();
        if c.1.len() > 0 && c.0.len() > 0 && !contains(prev.0, lookup_marker(c.1)) && !contains(
            prev.0,
            lookup_class(c.1),
        ) {
            (prev.0 + "\n"@ + trim(c.0) + "\n"@, prev.1.push(c.1))
        } else {
            prev
        }
    }
}

pub open spec fn display_or_name(display: Option<Seq<char>>) -> Seq<char> {
    match display {
        Some(d) => d,
        None => "Name"@,
    }
}

/// The mapper file with its usings and the entity's Mapperly classes.
pub open spec fn mapper_classes_text(
    src: Seq<char>,
    e: Seq<char>,
    ns: Seq<char>,
    domain: Seq<char>,
    nav_usings: Seq<char>,
    display: Option<Seq<char>>,
) -> Seq<char> {
    let s = mapper_usings(src, ns, domain, nav_usings);
    if contains(s, "class "@ + e + "To"@ + e + "DtoMapper"@) {
        s
    } else {
        let lookup = if contains(s, lookup_class(e)) {
            Seq::empty()
        } else {
            lookup_mapper_block(e, display_or_name(display))
        };
        s + entity_mapper_block(e, lookup)
    }
}

/// Appending keeps what the text held.
proof fn lemma_keeps_appended(s: Seq<char>, more: Seq<char>, m: Seq<char>)
    requires
        contains(s, m),
    ensures
        contains(s + more, m),
{
    lemma_contains_prefix(s, more);
    lemma_contains_trans(s + more, s, m);
}

/// A navigation lookup mapper of `c` (whole block, marker) that the file
/// must hold is there: its marker or its class occurs.
pub open spec fn nav_block_covered(t: Seq<char>, c: (Seq<char>, Seq<char>)) -> bool {
    c.1.len() > 0 && c.0.len() > 0 ==> contains(t, lookup_marker(c.1)) || contains(t, lookup_class(c.1))
}

/// Each captured block of `caps` holds its own marker.
pub open spec fn blocks_carry_markers(caps: Seq<(Seq<char>, Seq<char>)>) -> bool {
    forall|j: int| 0 <= j < caps.len() ==> (#[trigger] caps[j]).1.len() > 0 && caps[j].0.len() > 0
        ==> contains(trim(caps[j].0), lookup_marker(caps[j].1))
}

proof fn lemma_fold_keeps(s: Seq<char>, caps: Seq<(Seq<char>, Seq<char>)>, m: Seq<char>)
    requires
        contains(s, m),
    ensures
        contains(nav_block_fold(s, caps).0, m),
    decreases caps.len(),
{
    if caps.len() > 0 {
        lemma_fold_keeps(s, caps.drop_last(), m);
        let prev = nav_block_fold(s, caps.drop_last()).0;
        let c = caps.last();
        lemma_keeps_appended(prev, "\n"@ + trim(c.0) + "\n"@, m);
        assert(prev + "\n"@ + trim(c.0) + "\n"@ =~= prev + ("\n"@ + trim(c.0) + "\n"@));
    }
}

proof fn lemma_fold_covers(s: Seq<char>, caps: Seq<(Seq<char>, Seq<char>)>)
    requires
        blocks_carry_markers(caps),
    ensures
        forall|j: int| 0 <= j < caps.len() ==> nav_block_covered(nav_block_fold(s, caps).0, #[trigger] caps[j]),
    decreases caps.len(),
{
    if caps.len() > 0 {
        let d = caps.drop_last();
        assert forall|j: int| 0 <= j < d.len() implies (#[trigger] d[j]).1.len() > 0 && d[j].0.len() > 0
            ==> contains(trim(d[j].0), lookup_marker(d[j].1)) by {
            assert(d[j] == caps[j]);
        }
        lemma_fold_covers(s, d);
        let prev = nav_block_fold(s, d).0;
        let c = caps.last();
        let t = nav_block_fold(s, caps).0;
        let more = "\n"@ + trim(c.0) + "\n"@;
        let appended = c.1.len() > 0 && c.0.len() > 0 && !contains(prev, lookup_marker(c.1)) && !contains(
            prev,
            lookup_class(c.1),
        );
        assert(t == if appended { prev + "\n"@ + trim(c.0) + "\n"@ } else { prev });
        assert(prev + "\n"@ + trim(c.0) + "\n"@ =~= prev + more);
        assert forall|j: int| 0 <= j < caps.len() implies nav_block_covered(t, #[trigger] caps[j]) by {
            if j < d.len() {
                assert(d[j] == caps[j]);
                assert(nav_block_covered(prev, d[j]));
                if appended {
                    if caps[j].1.len() > 0 && caps[j].0.len() > 0 {
                        if contains(prev, lookup_marker(caps[j].1)) {
                            lemma_keeps_appended(prev, more, lookup_marker(caps[j].1));
                        } else {
                            lemma_keeps_appended(prev, more, lookup_class(caps[j].1));
                        }
                    }
                }
            } else {
                assert(caps[j] == c);
                if appended {
                    assert(contains(trim(c.0), lookup_marker(c.1)));
                    lemma_contains_within(prev + "\n"@, trim(c.0), "\n"@, lookup_marker(c.1));
                    assert(prev + "\n"@ + trim(c.0) + "\n"@ == t);
                }
            }
        }
    }
}

proof fn lemma_fold_fixed(t: Seq<char>, caps: Seq<(Seq<char>, Seq<char>)>)
    requires
        forall|j: int| 0 <= j < caps.len() ==> nav_block_covered(t, #[trigger] caps[j]),
    ensures
        nav_block_fold(t, caps) == (t, Seq::<Seq<char>>::empty()),
    decreases caps.len(),
{
    if caps.len() > 0 {
        let d = caps.drop_last();
        assert forall|j: int| 0 <= j < d.len() implies nav_block_covered(t, #[trigger] d[j]) by {
            assert(d[j] == caps[j]);
        }
        lemma_fold_fixed(t, d);
        assert(nav_block_covered(t, caps[caps.len() - 1]));
    }
}

proof fn lemma_nav_usings_keep(s: Seq<char>, ls: Seq<Seq<char>>, m: Seq<char>)
    requires
        contains(s, m),
        single_line(m),
    ensures
        contains(ensure_nav_usings(s, ls), m),
    decreases ls.len(),
{
    if ls.len() > 0 {
        lemma_nav_usings_keep(s, ls.drop_last(), m);
        lemma_ensure_using_keeps(ensure_nav_usings(s, ls.drop_last()), ls.last(), m);
    }
}

proof fn lemma_nav_usings_cover(s: Seq<char>, ls: Seq<Seq<char>>)
    requires
        forall|i: int| 0 <= i < ls.len() ==> single_line(#[trigger] ls[i]),
    ensures
        nav_usings_present(ensure_nav_usings(s, ls), ls),
    decreases ls.len(),
{
    if ls.len() > 0 {
        let d = ls.drop_last();
        assert forall|i: int| 0 <= i < d.len() implies single_line(#[trigger] d[i]) by {
            assert(d[i] == ls[i]);
        }
        lemma_nav_usings_cover(s, d);
        let prev = ensure_nav_usings(s, d);
        let t = ensure_nav_usings(s, ls);
        let l = ls.last();
        lemma_ensure_using_contains(prev, l);
        assert forall|i: int| 0 <= i < ls.len() implies trim(#[trigger] ls[i]).len() == 0 || contains(
            t,
            trim(ls[i]),
        ) by {
            if i < d.len() {
                assert(d[i] == ls[i]);
                if trim(ls[i]).len() > 0 {
                    assert(contains(prev, trim(d[i])));
                    lemma_trim_single_line(ls[i]);
                    lemma_ensure_using_keeps(prev, l, trim(ls[i]));
                }
            }
        }
    }
}

/// The entity's mapper block holds the entity-to-DTO mapper class.
#[verifier::rlimit(100)]
proof fn lemma_entity_block_has_class(e: Seq<char>, lookup: Seq<char>)
    ensures
        contains(entity_mapper_block(e, lookup), "class "@ + e + "To"@ + e + "DtoMapper"@),
{
    reveal_strlit("\n    [Mapper]\n    public partial class ");
    reveal_strlit("class ");
    reveal_strlit("To");
    reveal_strlit("DtoMapper");
    reveal_strlit("DtoMapper : MapperBase<");
    let block = entity_mapper_block(e, lookup);
    let mark = "class "@ + e + "To"@ + e + "DtoMapper"@;
    let hl = "\n    [Mapper]\n    public partial class "@.len() - 6;
    assert(block.subrange(hl, hl + mark.len()) =~= mark);
    assert(occurs_at(block, mark, hl));
}

/// Law: merging the Mapperly mapper file a second time, on the result of
/// the first merge and with the same navigation blocks, changes nothing,
/// for namespaces and navigation usings without line breaks and blocks that
/// carry their own markers.
pub proof fn lemma_application_mappers_idempotent(
    src: Seq<char>,
    e: Seq<char>,
    ns: Seq<char>,
    domain: Seq<char>,
    nav_usings: Seq<char>,
    display: Option<Seq<char>>,
    caps: Seq<(Seq<char>, Seq<char>)>,
)
    requires
        single_line(ns),
        single_line(domain),
        forall|i: int| 0 <= i < lines(nav_usings).len() ==> single_line(#[trigger] lines(nav_usings)[i]),
        blocks_carry_markers(caps),
    ensures
        ({
            let once = nav_block_fold(mapper_classes_text(src, e, ns, domain, nav_usings, display), caps).0;
            nav_block_fold(mapper_classes_text(once, e, ns, domain, nav_usings, display), caps).0 == once
        }),
{
    reveal_strlit("using Riok.Mapperly.Abstractions;");
    reveal_strlit("using Volo.Abp.Mapperly;");
    reveal_strlit("using System;");
    reveal_strlit("using ");
    reveal_strlit(".Shared;");
    let u1 = using_of(ns);
    let u2 = shared_using(domain);
    let u3 = "using Riok.Mapperly.Abstractions;"@;
    let u4 = "using Volo.Abp.Mapperly;"@;
    let u5 = "using System;"@;
    crate::merge::web::lemma_using_single_line(ns);
    assert forall|i: int| 0 <= i < u2.len() implies #[trigger] u2[i] != '\n' && u2[i] != '\r' by {
        if 6 <= i < 6 + domain.len() {
            assert(u2[i] == domain[i - 6]);
        }
    }
    assert(single_line(u3));
    assert(single_line(u4));
    assert(single_line(u5));
    lemma_trim_single_line(u1);
    lemma_trim_single_line(u2);
    lemma_trim_single_line(u3);
    lemma_trim_single_line(u4);
    lemma_trim_single_line(u5);
    let ls = lines(nav_usings);
    let s1 = ensure_using_spec(src, u1);
    let s2 = ensure_using_spec(s1, u2);
    let s3 = ensure_using_spec(s2, u3);
    let s4 = ensure_using_spec(s3, u4);
    let s5 = ensure_using_spec(s4, u5);
    let u = ensure_nav_usings(s5, ls);
    assert(u == mapper_usings(src, ns, domain, nav_usings));
    lemma_ensure_using_contains(src, u1);
    lemma_ensure_using_contains(s1, u2);
    lemma_ensure_using_contains(s2, u3);
    lemma_ensure_using_contains(s3, u4);
    lemma_ensure_using_contains(s4, u5);
    lemma_ensure_using_keeps(s1, u2, trim(u1));
    lemma_ensure_using_keeps(s2, u3, trim(u1));
    lemma_ensure_using_keeps(s2, u3, trim(u2));
    lemma_ensure_using_keeps(s3, u4, trim(u1));
    lemma_ensure_using_keeps(s3, u4, trim(u2));
    lemma_ensure_using_keeps(s3, u4, trim(u3));
    lemma_ensure_using_keeps(s4, u5, trim(u1));
    lemma_ensure_using_keeps(s4, u5, trim(u2));
    lemma_ensure_using_keeps(s4, u5, trim(u3));
    lemma_ensure_using_keeps(s4, u5, trim(u4));
    lemma_nav_usings_keep(s5, ls, trim(u1));
    lemma_nav_usings_keep(s5, ls, trim(u2));
    lemma_nav_usings_keep(s5, ls, trim(u3));
    lemma_nav_usings_keep(s5, ls, trim(u4));
    lemma_nav_usings_keep(s5, ls, trim(u5));
    lemma_nav_usings_cover(s5, ls);
    let mark = "class "@ + e + "To"@ + e + "DtoMapper"@;
    let c = mapper_classes_text(src, e, ns, domain, nav_usings, display);
    let once = nav_block_fold(c, caps).0;
    // what the usings left stays through the classes and the blocks
    assert forall|m: Seq<char>| contains(u, m) implies #[trigger] contains(once, m) by {
        if c != u {
            let lookup = if contains(u, lookup_class(e)) {
                Seq::empty()
            } else {
                lookup_mapper_block(e, display_or_name(display))
            };
            lemma_keeps_appended(u, entity_mapper_block(e, lookup), m);
        }
        lemma_fold_keeps(c, caps, m);
    }
    assert(contains(once, trim(u1)));
    assert(contains(once, trim(u2)));
    assert(contains(once, trim(u3)));
    assert(contains(once, trim(u4)));
    assert(contains(once, trim(u5)));
    assert forall|i: int| 0 <= i < ls.len() implies trim(#[trigger] ls[i]).len() == 0 || contains(
        once,
        trim(ls[i]),
    ) by {
        if trim(ls[i]).len() > 0 {
            assert(contains(u, trim(ls[i])));
        }
    }
    lemma_nav_usings_fixed(once, ls);
    assert(mapper_usings(once, ns, domain, nav_usings) == once);
    if contains(u, mark) {
        assert(contains(once, mark));
    } else {
        let lookup = if contains(u, lookup_class(e)) {
            Seq::empty()
        } else {
            lookup_mapper_block(e, display_or_name(display))
        };
        lemma_entity_block_has_class(e, lookup);
        lemma_contains_within(u, entity_mapper_block(e, lookup), Seq::empty(), mark);
        assert(u + entity_mapper_block(e, lookup) + Seq::<char>::empty() =~= c);
        lemma_fold_keeps(c, caps, mark);
    }
    assert(mapper_classes_text(once, e, ns, domain, nav_usings, display) == once);
    lemma_fold_covers(c, caps);
    lemma_fold_fixed(once, caps);
}

/// The merged mapper file and what the merge did.
pub struct MapperMerge {
    pub text: String,
    pub changed: bool,
    pub classes_added: bool,
    /// The navigation lookup mappers that were appended, by marker.
    pub lookups_added: Vec<String>,
}

/// Adds the usings, the entity's Mapperly classes and the marked navigation
/// lookup mappers of `nav_blocks` that are missing to the Application
/// mapper file. Fails only when the block pattern does not compile.
pub fn merge_application_mappers(
    src: &str,
    context: &MergeContext,
    nav_usings: &str,
    display: Option<&str>,
    nav_blocks: Option<&str>,
) -> (r: Result<MapperMerge, String>)
    ensures
        r is Err <==> (nav_blocks is Some && !regex_compiles(nav_block_pattern())),
        r matches Err(e) ==> e@ == invalid_pattern_msg(nav_block_pattern()),
        r matches Ok(m) ==> ({
            let e = context.entity@;
            let u = mapper_usings(src@, context.namespace@, context.domain@, nav_usings@);
            let dv = match display {
                Some(d) => Some(d@),
                None => None,
            };
            let s = mapper_classes_text(src@, e, context.namespace@, context.domain@, nav_usings@, dv);
            let caps = match nav_blocks {
                Some(b) => regex_captures_spec(nav_block_pattern(), b@),
                None => Seq::empty(),
            };
            let f = nav_block_fold(s, caps);
            &&& m.classes_added == !contains(u, "class "@ + e + "To"@ + e + "DtoMapper"@)
            &&& m.text@ == f.0
            &&& views(m.lookups_added@) == f.1
            &&& m.changed == (u != src@ || m.classes_added || f.1.len() > 0)
        }),
{
    let e = context.entity.as_str();
    let u1 = using_exec(context.namespace.as_str());
    let u2 = shared_using_exec(context.domain.as_str());
    let s = ensure_using(src, u1.as_str());
    let s = ensure_using(s.as_str(), u2.as_str());
    let s = ensure_using(s.as_str(), "using Riok.Mapperly.Abstractions;");
    let s = ensure_using(s.as_str(), "using Volo.Abp.Mapperly;");
    let s = ensure_using(s.as_str(), "using System;");
    let s = ensure_nav_usings_exec(s, nav_usings);
    let usings_changed = !str_eq(s.as_str(), src);
    let mut mark = copy_str("class ");
    push_str(&mut mark, e);
    push_str(&mut mark, "To");
    push_str(&mut mark, e);
    push_str(&mut mark, "DtoMapper");
    let mut lk = copy_str("class ");
    push_str(&mut lk, e);
    push_str(&mut lk, "ToLookupDtoMapper");
    let mut text = s;
    let classes_added = !str_contains(text.as_str(), mark.as_str());
    if classes_added {
        let lookup = if str_contains(text.as_str(), lk.as_str()) {
            String::new()
        } else {
            let d = match display {
                Some(d) => d,
                None => "Name",
            };
            lookup_mapper_block_exec(e, d)
        };
        let block = entity_mapper_block_exec(e, lookup.as_str());
        push_str(&mut text, block.as_str());
    }
    let mut added: Vec<String> = Vec::new();
    let blocks = match nav_blocks {
        Some(b) => b,
        None => {
            assert(views(added@) =~= Seq::<Seq<char>>::empty());
            return Ok(
                MapperMerge { changed: usings_changed || classes_added, text, classes_added, lookups_added: added },
            );
        },
    };
    let caps = match regex_captures(
        "(?s)// <auto-nav-lookup-([A-Za-z_][A-Za-z0-9_]*)>.*?// </auto-nav-lookup-[A-Za-z_][A-Za-z0-9_]*>",
        blocks,
    ) {
        Ok(c) => c,
        Err(_) => {
            return Err(
                crate::merge::invalid_pattern(
                    "(?s)// <auto-nav-lookup-([A-Za-z_][A-Za-z0-9_]*)>.*?// </auto-nav-lookup-[A-Za-z_][A-Za-z0-9_]*>",
                ),
            );
        },
    };
    let ghost cv = capture_views(caps@);
    let ghost start = text@;
    let mut i: usize = 0;
    assert(cv.take(0) =~= Seq::<(Seq<char>, Seq<char>)>::empty());
    assert(views(added@) =~= Seq::<Seq<char>>::empty());
    while i < caps.len()
        invariant
            i <= caps@.len(),
            cv == capture_views(caps@),
            (text@, views(added@)) == nav_block_fold(start, cv.take(i as int)),
        decreases caps.len() - i,
    {
        proof {
            assert(cv.take(i + 1).drop_last() =~= cv.take(i as int));
            assert(cv.take(i + 1).last() == cv[i as int]);
        }
        let block = caps[i].0.as_str();
        let marker = caps[i].1.as_str();
        let mut mm = copy_str("<auto-nav-lookup-");
        push_str(&mut mm, marker);
        push_str(&mut mm, ">");
        let mut mc = copy_str("class ");
        push_str(&mut mc, marker);
        push_str(&mut mc, "ToLookupDtoMapper");
        if !marker.is_empty() && !block.is_empty() && !str_contains(text.as_str(), mm.as_str())
            && !str_contains(text.as_str(), mc.as_str()) {
            push_str(&mut text, "\n");
            let t = trim_exec(block);
            push_str(&mut text, t.as_str());
            push_str(&mut text, "\n");
            let ghost before = added@;
            added.push(copy_str(marker));
            assert(views(added@) =~= views(before).push(marker@));
        }
        i = i + 1;
    }
    assert(cv.take(caps@.len() as int) =~= cv);
    let changed = usings_changed || classes_added || added.len() > 0;
    Ok(MapperMerge { text, changed, classes_added, lookups_added: added })
}

} // verus!
