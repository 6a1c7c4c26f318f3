//! The navigation lookups of an entity's application service: one lookup
//! per navigation target, with its repository, its mapping to lookup items
//! and its Excel column.
use crate::csharp::{nav_parts, nav_parts_spec};
use crate::fragments::backend::is_stringy;
use crate::fragments::classes::{ClassSources, class_text, first_string_prop, first_string_prop_exec, prop_is_string, prop_is_string_exec};
use crate::models::{Field, FieldV, fields_view};
use crate::naming::{last_segment, last_segment_spec, lower_camel, ns_of, ns_of_spec, plural, pluralize, to_lower_camel};
use crate::sort::{lex_order, sort_lex};
use crate::text::{copy_str, eq_ignore_case, join, join_exec, push_str, str_eq, trim, trim_exec, views};
use vstd::prelude::*;

verus! {

broadcast use vstd::string::group_string_axioms;

pub open spec fn excel_text_pair_spec(name: Seq<char>, entity: Seq<char>) -> Seq<char> {
    "{ \""@ + name + "\", item."@ + entity + "."@ + name + " },\n"@
}

fn excel_text_pair(name: &str, entity: &str) -> (r: String)
    ensures
        r@ == excel_text_pair_spec(name@, entity@),
{
    let mut r = String::new();
    push_str(&mut r, "{ \"");
    push_str(&mut r, name);
    push_str(&mut r, "\", item.");
    push_str(&mut r, entity);
    push_str(&mut r, ".");
    push_str(&mut r, name);
    push_str(&mut r, " },\n");
    r
}

pub open spec fn excel_nav_pair_spec(ns: Seq<char>, val: Seq<char>) -> Seq<char> {
    "{ \""@ + ns + "\", "@ + val + " },\n"@
}

fn excel_nav_pair(ns: &str, val: &str) -> (r: String)
    ensures
        r@ == excel_nav_pair_spec(ns@, val@),
{
    let mut r = String::new();
    push_str(&mut r, "{ \"");
    push_str(&mut r, ns);
    push_str(&mut r, "\", ");
    push_str(&mut r, val);
    push_str(&mut r, " },\n");
    r
}

pub open spec fn nav_value_text_spec(ns: Seq<char>, prop: Seq<char>) -> Seq<char> {
    "item."@ + ns + "?."@ + prop
}

fn nav_value_text(ns: &str, prop: &str) -> (r: String)
    ensures
        r@ == nav_value_text_spec(ns@, prop@),
{
    let mut r = String::new();
    push_str(&mut r, "item.");
    push_str(&mut r, ns);
    push_str(&mut r, "?.");
    push_str(&mut r, prop);
    r
}

pub open spec fn nav_value_other_spec(ns: Seq<char>, prop: Seq<char>) -> Seq<char> {
    "item."@ + ns + "?."@ + prop + ".ToString()"@
}

fn nav_value_other(ns: &str, prop: &str) -> (r: String)
    ensures
        r@ == nav_value_other_spec(ns@, prop@),
{
    let mut r = String::new();
    push_str(&mut r, "item.");
    push_str(&mut r, ns);
    push_str(&mut r, "?.");
    push_str(&mut r, prop);
    push_str(&mut r, ".ToString()");
    r
}

pub open spec fn repo_field_spec(ns: Seq<char>, var: Seq<char>) -> Seq<char> {
    "protected IRepository<"@ + ns + ", Guid> _"@ + var + "Repository;\n"@
}

fn repo_field(ns: &str, var: &str) -> (r: String)
    ensures
        r@ == repo_field_spec(ns@, var@),
{
    let mut r = String::new();
    push_str(&mut r, "protected IRepository<");
    push_str(&mut r, ns);
    push_str(&mut r, ", Guid> _");
    push_str(&mut r, var);
    push_str(&mut r, "Repository;\n");
    r
}

pub open spec fn ctor_param_spec(ns: Seq<char>, var: Seq<char>) -> Seq<char> {
    ",\n            IRepository<"@ + ns + ", Guid> "@ + var + "Repository"@
}

fn ctor_param(ns: &str, var: &str) -> (r: String)
    ensures
        r@ == ctor_param_spec(ns@, var@),
{
    let mut r = String::new();
    push_str(&mut r, ",\n            IRepository<");
    push_str(&mut r, ns);
    push_str(&mut r, ", Guid> ");
    push_str(&mut r, var);
    push_str(&mut r, "Repository");
    r
}

pub open spec fn ctor_assign_spec(var: Seq<char>) -> Seq<char> {
    "_"@ + var + "Repository = "@ + var + "Repository;\n"@
}

fn ctor_assign(var: &str) -> (r: String)
    ensures
        r@ == ctor_assign_spec(var@),
{
    let mut r = String::new();
    push_str(&mut r, "_");
    push_str(&mut r, var);
    push_str(&mut r, "Repository = ");
    push_str(&mut r, var);
    push_str(&mut r, "Repository;\n");
    r
}

pub open spec fn profile_map_spec(ns: Seq<char>, prop: Seq<char>) -> Seq<char> {
    "\n        CreateMap<"@ + ns + ", LookupDto<Guid>>().ForMember(dest => dest.DisplayName, opt => opt.MapFrom(src => src."@ + prop + " ?? src.Name));\n"@
}

fn profile_map(ns: &str, prop: &str) -> (r: String)
    ensures
        r@ == profile_map_spec(ns@, prop@),
{
    let mut r = String::new();
    push_str(&mut r, "\n        CreateMap<");
    push_str(&mut r, ns);
    push_str(&mut r, ", LookupDto<Guid>>().ForMember(dest => dest.DisplayName, opt => opt.MapFrom(src => src.");
    push_str(&mut r, prop);
    push_str(&mut r, " ?? src.Name));\n");
    r
}

pub open spec fn filter_text_clause_spec(prop: Seq<char>) -> Seq<char> {
    "x."@ + prop + " != null && x."@ + prop + ".Contains(input.Filter)"@
}

fn filter_text_clause(prop: &str) -> (r: String)
    ensures
        r@ == filter_text_clause_spec(prop@),
{
    let mut r = String::new();
    push_str(&mut r, "x.");
    push_str(&mut r, prop);
    push_str(&mut r, " != null && x.");
    push_str(&mut r, prop);
    push_str(&mut r, ".Contains(input.Filter)");
    r
}

pub open spec fn filter_other_clause_spec(prop: Seq<char>) -> Seq<char> {
    "x."@ + prop + ".ToString().Contains(input.Filter)"@
}

fn filter_other_clause(prop: &str) -> (r: String)
    ensures
        r@ == filter_other_clause_spec(prop@),
{
    let mut r = String::new();
    push_str(&mut r, "x.");
    push_str(&mut r, prop);
    push_str(&mut r, ".ToString().Contains(input.Filter)");
    r
}

pub open spec fn lookup_method_spec(ns: Seq<char>, var: Seq<char>, filter: Seq<char>, prop: Seq<char>) -> Seq<char> {
    "public virtual async Task<PagedResultDto<LookupDto<Guid>>> Get"@ + ns + "LookupAsync(LookupRequestDto input)\n{\n    var query = await _"@ + var + "Repository.GetQueryableAsync();\n\n    if (!string.IsNullOrWhiteSpace(input.Filter))\n    {\n        query = query.Where(x => "@ + filter + ");\n    }\n\n    query = query.OrderBy(x => x."@ + prop + ");\n\n    var lookupData = await query.PageBy(input.SkipCount, input.MaxResultCount).ToDynamicListAsync<"@ + ns + ">();\n    var totalCount = query.Count();\n\n    return new PagedResultDto<LookupDto<Guid>>\n    {\n        TotalCount = totalCount,\n        Items = ObjectMapper.Map<List<"@ + ns + ">, List<LookupDto<Guid>>>(lookupData)\n    };\n}\n\n"@
}

fn lookup_method(ns: &str, var: &str, filter: &str, prop: &str) -> (r: String)
    ensures
        r@ == lookup_method_spec(ns@, var@, filter@, prop@),
{
    let mut r = String::new();
    push_str(&mut r, "public virtual async Task<PagedResultDto<LookupDto<Guid>>> Get");
    push_str(&mut r, ns);
    push_str(&mut r, "LookupAsync(LookupRequestDto input)\n{\n    var query = await _");
    push_str(&mut r, var);
    push_str(&mut r, "Repository.GetQueryableAsync();\n\n    if (!string.IsNullOrWhiteSpace(input.Filter))\n    {\n        query = query.Where(x => ");
    push_str(&mut r, filter);
    push_str(&mut r, ");\n    }\n\n    query = query.OrderBy(x => x.");
    push_str(&mut r, prop);
    push_str(&mut r, ");\n\n    var lookupData = await query.PageBy(input.SkipCount, input.MaxResultCount).ToDynamicListAsync<");
    push_str(&mut r, ns);
    push_str(&mut r, ">();\n    var totalCount = query.Count();\n\n    return new PagedResultDto<LookupDto<Guid>>\n    {\n        TotalCount = totalCount,\n        Items = ObjectMapper.Map<List<");
    push_str(&mut r, ns);
    push_str(&mut r, ">, List<LookupDto<Guid>>>(lookupData)\n    };\n}\n\n");
    r
}

pub open spec fn interface_method_spec(ns: Seq<char>) -> Seq<char> {
    "Task<PagedResultDto<LookupDto<Guid>>> Get"@ + ns + "LookupAsync(LookupRequestDto input);\n"@
}

fn interface_method(ns: &str) -> (r: String)
    ensures
        r@ == interface_method_spec(ns@),
{
    let mut r = String::new();
    push_str(&mut r, "Task<PagedResultDto<LookupDto<Guid>>> Get");
    push_str(&mut r, ns);
    push_str(&mut r, "LookupAsync(LookupRequestDto input);\n");
    r
}

pub open spec fn mapperly_block_spec(ns: Seq<char>, prop: Seq<char>) -> Seq<char> {
    "\n// <auto-nav-lookup-"@ + ns + ">\n[Mapper]\npublic partial class "@ + ns + "ToLookupDtoMapper : MapperBase<"@ + ns + ", LookupDto<Guid>>\n{\n    [MapProperty(nameof("@ + ns + "."@ + prop + "), nameof(LookupDto<Guid>.DisplayName))]\n    public override partial LookupDto<Guid> Map("@ + ns + " source);\n    [MapProperty(nameof("@ + ns + "."@ + prop + "), nameof(LookupDto<Guid>.DisplayName))]\n    public override partial void Map("@ + ns + " source, LookupDto<Guid> destination);\n}\n// </auto-nav-lookup-"@ + ns + ">\n"@
}

fn mapperly_block(ns: &str, prop: &str) -> (r: String)
    ensures
        r@ == mapperly_block_spec(ns@, prop@),
{
    let mut r = String::new();
    push_str(&mut r, "\n// <auto-nav-lookup-");
    push_str(&mut r, ns);
    push_str(&mut r, ">\n[Mapper]\npublic partial class ");
    push_str(&mut r, ns);
    push_str(&mut r, "ToLookupDtoMapper : MapperBase<");
    push_str(&mut r, ns);
    push_str(&mut r, ", LookupDto<Guid>>\n{\n    [MapProperty(nameof(");
    push_str(&mut r, ns);
    push_str(&mut r, ".");
    push_str(&mut r, prop);
    push_str(&mut r, "), nameof(LookupDto<Guid>.DisplayName))]\n    public override partial LookupDto<Guid> Map(");
    push_str(&mut r, ns);
    push_str(&mut r, " source);\n    [MapProperty(nameof(");
    push_str(&mut r, ns);
    push_str(&mut r, ".");
    push_str(&mut r, prop);
    push_str(&mut r, "), nameof(LookupDto<Guid>.DisplayName))]\n    public override partial void Map(");
    push_str(&mut r, ns);
    push_str(&mut r, " source, LookupDto<Guid> destination);\n}\n// </auto-nav-lookup-");
    push_str(&mut r, ns);
    push_str(&mut r, ">\n");
    r
}

pub open spec fn excel_id_pair_spec(entity: Seq<char>) -> Seq<char> {
    "{ \"Id\", item."@ + entity + ".Id.ToString() },\n"@
}

fn excel_id_pair(entity: &str) -> (r: String)
    ensures
        r@ == excel_id_pair_spec(entity@),
{
    let mut r = String::new();
    push_str(&mut r, "{ \"Id\", item.");
    push_str(&mut r, entity);
    push_str(&mut r, ".Id.ToString() },\n");
    r
}

/* ------------------------------ SPECIFICATION ------------------------------ */

/// A `Guid` field with a navigation target gets a lookup.
pub open spec fn is_lookup(f: FieldV) -> bool {
    f.ftype == "Guid"@ && nav_parts_spec(f) is Some
}

/// The qualified class of the navigation target.
pub open spec fn lookup_class(f: FieldV) -> Seq<char> {
    nav_parts_spec(f)->Some_0.0
}

pub open spec fn lookup_ns(f: FieldV) -> Seq<char> {
    last_segment_spec(lookup_class(f))
}

/// The property shown for the target: the field's display property, else
/// the first string property of the target's class.
pub open spec fn lookup_display(srcs: Seq<(Seq<char>, Seq<char>)>, f: FieldV) -> Seq<char> {
    match nav_parts_spec(f)->Some_0.1 {
        Some(d) => d,
        None => first_string_prop(class_text(srcs, lookup_class(f))),
    }
}

pub open spec fn display_is_text(srcs: Seq<(Seq<char>, Seq<char>)>, f: FieldV) -> bool {
    prop_is_string(class_text(srcs, lookup_class(f)), lookup_display(srcs, f))
}

pub open spec fn target_keys(t: Seq<(Seq<char>, Seq<char>)>) -> Seq<Seq<char>> {
    t.map_values(|p: (Seq<char>, Seq<char>)| p.0)
}

/// The navigation targets, each with the display property of its first
/// field, in order of first use.
pub open spec fn lookup_targets(srcs: Seq<(Seq<char>, Seq<char>)>, fs: Seq<FieldV>) -> Seq<
    (Seq<char>, Seq<char>),
>
    decreases fs.len(),
{
    if fs.len() == 0 {
        Seq::empty()
    } else {
        let prev = lookup_targets(srcs, fs.drop_last());
        let f = fs.last();
        if is_lookup(f) && !target_keys(prev).contains(lookup_ns(f)) {
            prev.push((lookup_ns(f), lookup_display(srcs, f)))
        } else {
            prev
        }
    }
}

/// Whether the last field of `fs` is the first to use its target.
pub open spec fn first_lookup(srcs: Seq<(Seq<char>, Seq<char>)>, fs: Seq<FieldV>) -> bool {
    is_lookup(fs.last()) && !target_keys(lookup_targets(srcs, fs.drop_last())).contains(
        lookup_ns(fs.last()),
    )
}

pub enum LookupPart {
    ExcelPairs,
    RepoFields,
    CtorParams,
    CtorAssignments,
    ProfileMaps,
    Methods,
    InterfaceMethods,
}

pub open spec fn lookup_part(
    entity: Seq<char>,
    srcs: Seq<(Seq<char>, Seq<char>)>,
    f: FieldV,
    first: bool,
    p: LookupPart,
) -> Seq<char> {
    let ns = lookup_ns(f);
    let var = lower_camel(ns);
    let prop = lookup_display(srcs, f);
    let text = display_is_text(srcs, f);
    match p {
        LookupPart::ExcelPairs => (if is_stringy(f) {
            excel_text_pair_spec(f.name, entity)
        } else {
            Seq::empty()
        }) + if first {
            excel_nav_pair_spec(
                ns,
                if text {
                    nav_value_text_spec(ns, prop)
                } else {
                    nav_value_other_spec(ns, prop)
                },
            )
        } else {
            Seq::empty()
        },
        LookupPart::RepoFields => if first {
            repo_field_spec(ns, var)
        } else {
            Seq::empty()
        },
        LookupPart::CtorParams => if first {
            ctor_param_spec(ns, var)
        } else {
            Seq::empty()
        },
        LookupPart::CtorAssignments => if first {
            ctor_assign_spec(var)
        } else {
            Seq::empty()
        },
        LookupPart::ProfileMaps => if first {
            profile_map_spec(ns, prop)
        } else {
            Seq::empty()
        },
        LookupPart::Methods => if first {
            lookup_method_spec(
                ns,
                var,
                if text {
                    filter_text_clause_spec(prop)
                } else {
                    filter_other_clause_spec(prop)
                },
                prop,
            )
        } else {
            Seq::empty()
        },
        LookupPart::InterfaceMethods => if first {
            interface_method_spec(ns)
        } else {
            Seq::empty()
        },
    }
}

/// The contributions of all fields to a part, in field order.
#[verifier::opaque]
pub open spec fn lookup_gather(
    entity: Seq<char>,
    srcs: Seq<(Seq<char>, Seq<char>)>,
    fs: Seq<FieldV>,
    p: LookupPart,
) -> Seq<char>
    decreases fs.len(),
{
    if fs.len() == 0 {
        Seq::empty()
    } else {
        lookup_gather(entity, srcs, fs.drop_last(), p) + lookup_part(
            entity,
            srcs,
            fs.last(),
            first_lookup(srcs, fs),
            p,
        )
    }
}

/// The `using` directive for a navigation target's namespace; a target
/// without one is looked for in the domain's plural namespace.
pub open spec fn using_for(domain: Seq<char>, f: FieldV) -> Seq<char> {
    let ns = ns_of_spec(lookup_class(f));
    if ns.len() != 0 {
        "using "@ + ns + ";"@
    } else {
        "using "@ + domain + "."@ + plural(lookup_ns(f)) + ";"@
    }
}

pub open spec fn push_new(v: Seq<Seq<char>>, x: Seq<char>) -> Seq<Seq<char>> {
    if v.contains(x) {
        v
    } else {
        v.push(x)
    }
}

/// The `using` directives of the targets, each once, in order of first use.
#[verifier::opaque]
pub open spec fn lookup_usings(domain: Seq<char>, fs: Seq<FieldV>) -> Seq<Seq<char>>
    decreases fs.len(),
{
    if fs.len() == 0 {
        Seq::empty()
    } else if is_lookup(fs.last()) {
        push_new(lookup_usings(domain, fs.drop_last()), using_for(domain, fs.last()))
    } else {
        lookup_usings(domain, fs.drop_last())
    }
}

pub open spec fn mapperly_blocks(t: Seq<(Seq<char>, Seq<char>)>) -> Seq<Seq<char>> {
    t.map_values(|p: (Seq<char>, Seq<char>)| mapperly_block_spec(p.0, p.1))
}

/* ------------------------------ COMPUTATION ------------------------------ */

fn lookup_class_of(f: &Field) -> (r: String)
    requires
        is_lookup(f@),
    ensures
        r@ == lookup_class(f@),
{
    match nav_parts(f) {
        Some((q, _)) => q,
        None => String::new(),
    }
}

fn display_of(srcs: &ClassSources, f: &Field) -> (r: String)
    requires
        is_lookup(f@),
    ensures
        r@ == lookup_display(srcs@, f@),
{
    match nav_parts(f) {
        Some((q, d)) => match d {
            Some(d) => d,
            None => {
                let text = srcs.text_of(q.as_str());
                first_string_prop_exec(text.as_str())
            },
        },
        None => String::new(),
    }
}

fn has_key(t: &Vec<(String, String)>, k: &str) -> (r: bool)
    ensures
        r == target_keys(t@.map_values(|p: (String, String)| (p.0@, p.1@))).contains(k@),
{
    let ghost tv = t@.map_values(|p: (String, String)| (p.0@, p.1@));
    let mut i: usize = 0;
    while i < t.len()
        invariant
            i <= t.len(),
            tv == t@.map_values(|p: (String, String)| (p.0@, p.1@)),
            forall|j: int| 0 <= j < i ==> target_keys(tv)[j] != k@,
        decreases t.len() - i,
    {
        assert(target_keys(tv)[i as int] == t@[i as int].0@);
        if str_eq(t[i].0.as_str(), k) {
            return true;
        }
        i = i + 1;
    }
    false
}

fn contains_text(v: &Vec<String>, s: &str) -> (r: bool)
    ensures
        r == views(v@).contains(s@),
{
    let mut i: usize = 0;
    while i < v.len()
        invariant
            i <= v.len(),
            forall|j: int| 0 <= j < i ==> views(v@)[j] != s@,
        decreases v.len() - i,
    {
        if str_eq(v[i].as_str(), s) {
            assert(views(v@)[i as int] == s@);
            return true;
        }
        i = i + 1;
    }
    false
}

/// The contributions of the fields seen so far.
struct LookupAcc {
    excel: String,
    repo_fields: String,
    ctor_params: String,
    ctor_assignments: String,
    profile_maps: String,
    methods: String,
    interface: String,
    targets: Vec<(String, String)>,
    usings: Vec<String>,
}

spec fn lookup_acc_holds(
    a: LookupAcc,
    e: Seq<char>,
    d: Seq<char>,
    srcs: Seq<(Seq<char>, Seq<char>)>,
    fs: Seq<FieldV>,
) -> bool {
    &&& a.excel@ == lookup_gather(e, srcs, fs, LookupPart::ExcelPairs)
    &&& a.repo_fields@ == lookup_gather(e, srcs, fs, LookupPart::RepoFields)
    &&& a.ctor_params@ == lookup_gather(e, srcs, fs, LookupPart::CtorParams)
    &&& a.ctor_assignments@ == lookup_gather(e, srcs, fs, LookupPart::CtorAssignments)
    &&& a.profile_maps@ == lookup_gather(e, srcs, fs, LookupPart::ProfileMaps)
    &&& a.methods@ == lookup_gather(e, srcs, fs, LookupPart::Methods)
    &&& a.interface@ == lookup_gather(e, srcs, fs, LookupPart::InterfaceMethods)
    &&& a.targets@.map_values(|p: (String, String)| (p.0@, p.1@)) == lookup_targets(srcs, fs)
    &&& views(a.usings@) == lookup_usings(d, fs)
}

fn add_lookup_field(
    a: &mut LookupAcc,
    entity: &str,
    domain: &str,
    srcs: &ClassSources,
    f: &Field,
    Ghost(fs): Ghost<Seq<FieldV>>,
)
    requires
        lookup_acc_holds(*old(a), entity@, domain@, srcs@, fs.drop_last()),
        fs.len() > 0,
        fs.last() == f@,
    ensures
        lookup_acc_holds(*final(a), entity@, domain@, srcs@, fs),
{
    reveal(lookup_gather);
    reveal(lookup_usings);
    let ghost e = entity@;
    let ghost sv = srcs@;
    let ghost prev = fs.drop_last();
    let ghost first = first_lookup(sv, fs);
    let lookup = str_eq(f.ftype.as_str(), "Guid") && nav_parts(f).is_some();
    let mut pair_text = if is_stringy_exec(f) {
        excel_text_pair(f.name.as_str(), entity)
    } else {
        String::new()
    };
    if !lookup {
        assert(!first);
        push_str(&mut a.excel, pair_text.as_str());
        assert(lookup_part(e, sv, f@, first, LookupPart::ExcelPairs) =~= pair_text@);
        assert(a.targets@.map_values(|p: (String, String)| (p.0@, p.1@)) =~= lookup_targets(sv, fs));
        assert(views(a.usings@) =~= lookup_usings(domain@, fs));
        return;
    }
    let q = lookup_class_of(f);
    let ns = last_segment(q.as_str());
    let is_first = !has_key(&a.targets, ns.as_str());
    assert(is_first == first);
    if is_first {
        let var = to_lower_camel(ns.as_str());
        let prop = display_of(srcs, f);
        let text = srcs.text_of(q.as_str());
        let is_text = prop_is_string_exec(text.as_str(), prop.as_str());
        let value = if is_text {
            nav_value_text(ns.as_str(), prop.as_str())
        } else {
            nav_value_other(ns.as_str(), prop.as_str())
        };
        push_str(&mut pair_text, excel_nav_pair(ns.as_str(), value.as_str()).as_str());
        push_str(&mut a.repo_fields, repo_field(ns.as_str(), var.as_str()).as_str());
        push_str(&mut a.ctor_params, ctor_param(ns.as_str(), var.as_str()).as_str());
        push_str(&mut a.ctor_assignments, ctor_assign(var.as_str()).as_str());
        push_str(&mut a.profile_maps, profile_map(ns.as_str(), prop.as_str()).as_str());
        let clause = if is_text {
            filter_text_clause(prop.as_str())
        } else {
            filter_other_clause(prop.as_str())
        };
        push_str(
            &mut a.methods,
            lookup_method(ns.as_str(), var.as_str(), clause.as_str(), prop.as_str()).as_str(),
        );
        push_str(&mut a.interface, interface_method(ns.as_str()).as_str());
        let ghost before = a.targets@.map_values(|p: (String, String)| (p.0@, p.1@));
        let pair = (copy_str(ns.as_str()), prop);
        let ghost pv = (pair.0@, pair.1@);
        a.targets.push(pair);
        assert(a.targets@.map_values(|p: (String, String)| (p.0@, p.1@)) =~= before.push(pv));
    } else {
        assert(a.targets@.map_values(|p: (String, String)| (p.0@, p.1@)) =~= lookup_targets(sv, fs));
    }
    assert(lookup_part(e, sv, f@, first, LookupPart::ExcelPairs) =~= pair_text@);
    push_str(&mut a.excel, pair_text.as_str());
    let explicit = ns_of(q.as_str());
    let u = if !explicit.as_str().is_empty() {
        let mut u = copy_str("using ");
        push_str(&mut u, explicit.as_str());
        push_str(&mut u, ";");
        u
    } else {
        let mut u = copy_str("using ");
        push_str(&mut u, domain);
        push_str(&mut u, ".");
        push_str(&mut u, pluralize(ns.as_str()).as_str());
        push_str(&mut u, ";");
        u
    };
    assert(u@ == using_for(domain@, f@));
    if !contains_text(&a.usings, u.as_str()) {
        let ghost before = views(a.usings@);
        a.usings.push(u);
        assert(views(a.usings@) =~= before.push(using_for(domain@, f@)));
    }
}

fn is_stringy_exec(f: &Field) -> (r: bool)
    ensures
        r == is_stringy(f@),
{
    str_eq(f.ftype.as_str(), "string") || eq_ignore_case(f.ftype.as_str(), "textarea")
}

/// The lookup fragments of an entity.
pub struct LookupFragments {
    pub nav_repo_fields: String,
    pub nav_repo_ctor_params: String,
    pub nav_repo_ctor_assignments: String,
    pub entity_lookup_display_prop: String,
    pub nav_lookup_methods: String,
    pub nav_lookup_interface_methods: String,
    pub nav_lookup_profile_maps: String,
    pub nav_lookup_mapperly_blocks: String,
    pub excel_export_pairs: String,
    pub nav_usings: String,
}

pub open spec fn lookups_hold(r: LookupFragments, domain: Seq<char>, namespace: Seq<char>, entity: Seq<char>, fields: Seq<FieldV>, srcs: Seq<(Seq<char>, Seq<char>)>) -> bool {
    let e = entity;
    let fs = fields;
    let s = srcs;
    let excel = lookup_gather(e, s, fs, LookupPart::ExcelPairs);
    &&& r.nav_repo_fields@ == trim(lookup_gather(e, s, fs, LookupPart::RepoFields))
    &&& r.nav_repo_ctor_params@ == lookup_gather(e, s, fs, LookupPart::CtorParams)
    &&& r.nav_repo_ctor_assignments@ == trim(lookup_gather(e, s, fs, LookupPart::CtorAssignments))
    &&& r.entity_lookup_display_prop@ == first_string_prop(
        class_text(s, namespace + "."@ + e),
    )
    &&& r.nav_lookup_methods@ == trim(lookup_gather(e, s, fs, LookupPart::Methods))
    &&& r.nav_lookup_interface_methods@ == trim(
        lookup_gather(e, s, fs, LookupPart::InterfaceMethods),
    )
    &&& r.nav_lookup_profile_maps@ == trim(lookup_gather(e, s, fs, LookupPart::ProfileMaps))
    &&& r.nav_lookup_mapperly_blocks@ == trim(
        join(mapperly_blocks(lookup_targets(s, fs)).sort_by(lex_order()), "\n"@),
    )
    &&& r.excel_export_pairs@ == trim(
        if excel.len() == 0 {
            excel_id_pair_spec(e)
        } else {
            excel
        },
    )
    &&& r.nav_usings@ == join(lookup_usings(domain, fs).sort_by(lex_order()), "\n"@)
}

/// The lookup fragments of `entity` in `namespace` of `domain`, reading
/// display properties from `srcs`: one lookup per navigation target, the
/// Mapperly mappers sorted, the `using` directives sorted and each once.
pub fn lookup_fragments(
    domain: &str,
    namespace: &str,
    entity: &str,
    fields: &[Field],
    srcs: &ClassSources,
) -> (r: LookupFragments)
    ensures
        lookups_hold(r, domain@, namespace@, entity@, fields_view(fields@), srcs@),
{
    let ghost fs = fields_view(fields@);
    let mut a = LookupAcc {
        excel: String::new(),
        repo_fields: String::new(),
        ctor_params: String::new(),
        ctor_assignments: String::new(),
        profile_maps: String::new(),
        methods: String::new(),
        interface: String::new(),
        targets: Vec::new(),
        usings: Vec::new(),
    };
    proof {
        reveal(lookup_gather);
        reveal(lookup_usings);
    }
    assert(fs.take(0) =~= Seq::<FieldV>::empty());
    assert(a.targets@.map_values(|p: (String, String)| (p.0@, p.1@)) =~= Seq::<
        (Seq<char>, Seq<char>),
    >::empty());
    assert(views(a.usings@) =~= Seq::<Seq<char>>::empty());
    let mut i: usize = 0;
    while i < fields.len()
        invariant
            i <= fields.len(),
            fs == fields_view(fields@),
            lookup_acc_holds(a, entity@, domain@, srcs@, fs.take(i as int)),
        decreases fields.len() - i,
    {
        let ghost next = fs.take(i + 1);
        assert(next.drop_last() =~= fs.take(i as int));
        add_lookup_field(&mut a, entity, domain, srcs, &fields[i], Ghost(next));
        i = i + 1;
    }
    assert(fs.take(fields.len() as int) =~= fs);
    let mut blocks: Vec<String> = Vec::new();
    let mut k: usize = 0;
    let ghost tv = a.targets@.map_values(|p: (String, String)| (p.0@, p.1@));
    while k < a.targets.len()
        invariant
            k <= a.targets.len(),
            tv == a.targets@.map_values(|p: (String, String)| (p.0@, p.1@)),
            views(blocks@) == mapperly_blocks(tv).take(k as int),
        decreases a.targets.len() - k,
    {
        let b = mapperly_block(a.targets[k].0.as_str(), a.targets[k].1.as_str());
        let ghost before = views(blocks@);
        blocks.push(b);
        assert(views(blocks@) =~= before.push(mapperly_blocks(tv)[k as int]));
        assert(mapperly_blocks(tv).take(k + 1) =~= mapperly_blocks(tv).take(k as int).push(
            mapperly_blocks(tv)[k as int],
        ));
        k = k + 1;
    }
    assert(mapperly_blocks(tv).take(a.targets.len() as int) =~= mapperly_blocks(tv));
    let sorted_blocks = sort_lex(blocks);
    let mapperly = trim_exec(join_exec(&sorted_blocks, "\n").as_str());
    let mut own = copy_str(namespace);
    push_str(&mut own, ".");
    push_str(&mut own, entity);
    let own_text = srcs.text_of(own.as_str());
    let display = first_string_prop_exec(own_text.as_str());
    let excel = if a.excel.as_str().is_empty() {
        trim_exec(excel_id_pair(entity).as_str())
    } else {
        trim_exec(a.excel.as_str())
    };
    let usings = sort_lex(a.usings);
    LookupFragments {
        nav_repo_fields: trim_exec(a.repo_fields.as_str()),
        nav_repo_ctor_params: a.ctor_params,
        nav_repo_ctor_assignments: trim_exec(a.ctor_assignments.as_str()),
        entity_lookup_display_prop: display,
        nav_lookup_methods: trim_exec(a.methods.as_str()),
        nav_lookup_interface_methods: trim_exec(a.interface.as_str()),
        nav_lookup_profile_maps: trim_exec(a.profile_maps.as_str()),
        nav_lookup_mapperly_blocks: mapperly,
        excel_export_pairs: excel,
        nav_usings: join_exec(&usings, "\n"),
    }
}

} // verus!
