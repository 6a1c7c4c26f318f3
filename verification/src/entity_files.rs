//! Which template becomes which source file of a generated entity, and how a
//! template's placeholders are filled in.
use crate::fragments::compile::add_pair;
use crate::mapping::{entry_views, lookup, Mapping};
use crate::naming::{plural, pluralize};
use crate::templates::{direct_templates, embedded_walk, EmbeddedFiles};
use crate::text::{chars_of, copy_str, opt_int, push_str, replace_all, rfind, rfind_exec, str_eq, string_of_range, views};
use crate::theme::replace_each;
use vstd::prelude::*;

verus! {

/* ------------------------------ rendering ------------------------------ */

/// The placeholder of a mapping key: the key between double braces.
pub open spec fn placeholder(k: Seq<char>) -> Seq<char> {
    "{{"@ + k + "}}"@
}

/// What a template becomes: for each entry of the mapping, in order, every
/// occurrence of `{{key}}` is replaced by the entry's value.
pub open spec fn render_spec(text: Seq<char>, m: Seq<(Seq<char>, Seq<char>)>) -> Seq<char> {
    replace_each(text, m.map_values(|e: (Seq<char>, Seq<char>)| (placeholder(e.0), e.1)))
}

/// The template `text` with every `{{key}}` of `mapping` replaced by its
/// value, key by key in the mapping's order.
pub fn render_template(text: &str, mapping: &Mapping) -> (r: String)
    ensures
        r@ == render_spec(text@, mapping@),
{
    let es = mapping.entries();
    let ghost ps = mapping@.map_values(|e: (Seq<char>, Seq<char>)| (placeholder(e.0), e.1));
    let mut out = copy_str(text);
    let mut i: usize = 0;
    proof {
        reveal_strlit("{{");
        reveal_strlit("}}");
        assert(ps.take(0) =~= Seq::<(Seq<char>, Seq<char>)>::empty());
    }
    while i < es.len()
        invariant
            i <= es.len(),
            entry_views(es@) == mapping@,
            ps == mapping@.map_values(|e: (Seq<char>, Seq<char>)| (placeholder(e.0), e.1)),
            out@ == replace_each(text@, ps.take(i as int)),
        decreases es.len() - i,
    {
        let mut ph = copy_str("{{");
        push_str(&mut ph, es[i].0.as_str());
        push_str(&mut ph, "}}");
        proof {
            reveal_strlit("{{");
            reveal_strlit("}}");
            assert(entry_views(es@)[i as int] == (es@[i as int].0@, es@[i as int].1@));
            assert(ps[i as int] == (ph@, es@[i as int].1@));
            assert(ps.take(i + 1).drop_last() =~= ps.take(i as int));
        }
        out = crate::text::replace_exec(out.as_str(), ph.as_str(), es[i].1.as_str());
        i = i + 1;
    }
    assert(ps.take(es.len() as int) =~= ps);
    out
}

/* ------------------------------ path parts ------------------------------ */

/// The last component of a `/`-separated path.
pub open spec fn file_name_of(p: Seq<char>) -> Seq<char> {
    match rfind(p, "/"@) {
        Some(i) => p.skip(i + 1),
        None => p,
    }
}

/// The directory part of a path (empty where it has none).
pub open spec fn dir_of(p: Seq<char>) -> Seq<char> {
    match rfind(p, "/"@) {
        Some(i) => p.take(i),
        None => Seq::empty(),
    }
}

/// A file name without its last extension; a name whose only dot leads is
/// kept whole.
pub open spec fn stem_of(name: Seq<char>) -> Seq<char> {
    match rfind(name, "."@) {
        Some(i) => if i == 0 {
            name
        } else {
            name.take(i)
        },
        None => name,
    }
}

fn slash_split(p: &str) -> (r: (String, String))
    ensures
        r.0@ == dir_of(p@),
        r.1@ == file_name_of(p@),
{
    let cs = chars_of(p);
    let sl = chars_of("/");
    proof {
        reveal_strlit("/");
    }
    match rfind_exec(&cs, &sl) {
        Some(i) => {
            proof {
                crate::text::lemma_rfind_from_sound(p@, sl@, p@.len() - sl@.len());
            }
            let d = string_of_range(&cs, 0, i);
            let f = string_of_range(&cs, i + 1, cs.len());
            assert(d@ =~= p@.take(i as int));
            assert(f@ =~= p@.skip(i + 1));
            (d, f)
        },
        None => (String::new(), copy_str(p)),
    }
}

fn stem_exec(name: &str) -> (r: String)
    ensures
        r@ == stem_of(name@),
{
    let cs = chars_of(name);
    let dot = chars_of(".");
    proof {
        reveal_strlit(".");
    }
    match rfind_exec(&cs, &dot) {
        Some(i) => {
            proof {
                crate::text::lemma_rfind_from_sound(name@, dot@, name@.len() - dot@.len());
            }
            if i == 0 {
                copy_str(name)
            } else {
                let s = string_of_range(&cs, 0, i);
                assert(s@ =~= name@.take(i as int));
                s
            }
        },
        None => copy_str(name),
    }
}

fn lookup_exec(es: &Vec<(String, String)>, k: &str) -> (r: Option<String>)
    ensures
        crate::models::opt_view(r) == lookup(entry_views(es@), k@),
{
    let ghost ev = entry_views(es@);
    let mut i: usize = 0;
    assert(ev.skip(0) =~= ev);
    while i < es.len()
        invariant
            i <= es.len(),
            ev == entry_views(es@),
            lookup(ev, k@) == lookup(ev.skip(i as int), k@),
        decreases es.len() - i,
    {
        assert(ev.skip(i as int)[0] == (es@[i as int].0@, es@[i as int].1@));
        if str_eq(es[i].0.as_str(), k) {
            return Some(copy_str(es[i].1.as_str()));
        }
        assert(ev.skip(i as int).drop_first() =~= ev.skip(i + 1));
        i = i + 1;
    }
    None
}

/* ------------------------------ the plan ------------------------------ */

/// One file to write: the template it comes from, its path below the
/// solution's source root as components, and whether an existing file is
/// kept rather than overwritten.
#[derive(Debug, Clone)]
pub struct PlannedFile {
    pub template: String,
    pub path: Vec<String>,
    pub skip_if_exists: bool,
}

pub open spec fn planned_view(f: PlannedFile) -> (Seq<char>, Seq<Seq<char>>, bool) {
    (f.template@, views(f.path@), f.skip_if_exists)
}

pub open spec fn planned_views(v: Seq<PlannedFile>) -> Seq<(Seq<char>, Seq<Seq<char>>, bool)> {
    v.map_values(|f: PlannedFile| planned_view(f))
}

/// The output name of a layer template: its stem's rename, or the stem with
/// `.cs`.
pub open spec fn out_name(rel: Seq<char>, ren: Seq<(Seq<char>, Seq<char>)>) -> Seq<char> {
    match lookup(ren, stem_of(file_name_of(rel))) {
        Some(n) => n,
        None => stem_of(file_name_of(rel)) + ".cs"@,
    }
}

/// Where a template of layer `layer` goes: the layer's project, the
/// namespace-relative folder where there is one, `Shared` for a template in
/// a `Shared` folder, and the output name.
pub open spec fn layer_path(domain: Seq<char>, layer: Seq<char>, ns_rel: Seq<char>, rel: Seq<char>, ren: Seq<(Seq<char>, Seq<char>)>) -> Seq<Seq<char>> {
    seq![domain + "."@ + layer] + (if ns_rel.len() > 0 {
        seq![ns_rel]
    } else {
        Seq::empty()
    }) + (if file_name_of(dir_of(rel)) == "Shared"@ {
        seq!["Shared"@]
    } else {
        Seq::empty()
    }) + seq![out_name(rel, ren)]
}

pub open spec fn layer_files(files: Seq<(Seq<char>, Seq<u8>)>, domain: Seq<char>, layer: Seq<char>, ns_rel: Seq<char>, ren: Seq<(Seq<char>, Seq<char>)>) -> Seq<(Seq<char>, Seq<Seq<char>>, bool)> {
    direct_templates(files, layer).map_values(|rel: Seq<char>| (rel, layer_path(domain, layer, ns_rel, rel, ren), false))
}

/// The shared contract files: `{stem}.cs` in the contracts project's
/// `Shared` folder, each kept where it exists.
pub open spec fn shared_contract_files(files: Seq<(Seq<char>, Seq<u8>)>, domain: Seq<char>) -> Seq<(Seq<char>, Seq<Seq<char>>, bool)> {
    direct_templates(files, "Application.Contracts/Shared"@).map_values(|rel: Seq<char>| (
        rel,
        seq![domain + ".Application.Contracts"@, "Shared"@, stem_of(file_name_of(rel)) + ".cs"@],
        true,
    ))
}

pub open spec fn domain_renames(e: Seq<char>) -> Seq<(Seq<char>, Seq<char>)> {
    Seq::empty()
        .push(("Entity"@, e + ".cs"@))
        .push(("IRepository"@, "I"@ + e + "Repository.cs"@))
        .push(("WithNavigationProperties"@, e + "WithNavigationProperties.cs"@))
        .push(("Manager"@, e + "Manager.cs"@))
}

pub open spec fn shared_renames(e: Seq<char>) -> Seq<(Seq<char>, Seq<char>)> {
    Seq::empty().push(("Consts"@, e + "Consts.cs"@))
}

pub open spec fn ef_core_renames(e: Seq<char>) -> Seq<(Seq<char>, Seq<char>)> {
    Seq::empty()
        .push(("EfCoreRepository"@, "EfCore"@ + e + "Repository.cs"@))
        .push(("EfCoreModelCreatingExtension"@, "EfCore"@ + e + "ModelCreatingExtension.cs"@))
}

pub open spec fn application_renames(n: Seq<char>, p: Seq<char>) -> Seq<(Seq<char>, Seq<char>)> {
    Seq::empty()
        .push(("AppService"@, p + "AppService.cs"@))
        .push(("AppServiceInterface"@, "I"@ + p + "AppService.cs"@))
        .push(("Dto"@, n + "Dto.cs"@))
        .push(("CreateDto"@, n + "CreateDto.cs"@))
        .push(("UpdateDto"@, n + "UpdateDto.cs"@))
        .push(("ExcelDto"@, n + "ExcelDto.cs"@))
        .push(("FilterDto"@, n + "FilterDto.cs"@))
        .push(("LookupDto"@, n + "LookupDto.cs"@))
        .push(("WithNavigationPropertiesDto"@, n + "WithNavigationPropertiesDto.cs"@))
        .push(("Profile"@, n + "AutoMapperProfile.cs"@))
        .push(("ExcelExporter"@, n + "ExcelExporter.cs"@))
        .push(("DownloadTokenCacheItem"@, n + "DownloadTokenCacheItem.cs"@))
}

pub open spec fn contracts_renames(n: Seq<char>, p: Seq<char>) -> Seq<(Seq<char>, Seq<char>)> {
    Seq::empty()
        .push(("Permissions"@, p + "Permissions.cs"@))
        .push(("Localization"@, p + "Localization.cs"@))
        .push(("Menus"@, p + "Menus.cs"@))
        .push(("Dto"@, n + "Dto.cs"@))
        .push(("CreateDto"@, n + "CreateDto.cs"@))
        .push(("UpdateDto"@, n + "UpdateDto.cs"@))
        .push(("WithNavigationPropertiesDto"@, n + "WithNavigationPropertiesDto.cs"@))
        .push(("ExcelDto"@, n + "ExcelDto.cs"@))
        .push(("ExcelDownloadDto"@, n + "ExcelDownloadDto.cs"@))
        .push(("GetInput"@, "Get"@ + n + "Input.cs"@))
        .push(("IAppService"@, "I"@ + n + "AppService.cs"@))
        .push(("LookupDto"@, n + "LookupDto.cs"@))
        .push(("DownloadTokenResultDto"@, n + "DownloadTokenResultDto.cs"@))
        .push(("LookupRequestDto"@, "LookupRequestDto.cs"@))
}

pub open spec fn or_else(o: Option<Seq<char>>, d: Seq<char>) -> Seq<char> {
    match o {
        Some(v) => v,
        None => d,
    }
}

/// The backend files of a generated entity, layer by layer: Domain,
/// Domain.Shared, the shared contracts, EntityFrameworkCore, Application and
/// Application.Contracts. Names use the mapping's `entity` (else `entity`)
/// and `entity_plural` (else its plural); the namespace-relative folder is
/// the mapping's `ns_rel_path`.
pub open spec fn entity_file_plan_spec(files: Seq<(Seq<char>, Seq<u8>)>, domain: Seq<char>, entity: Seq<char>, m: Mapping) -> Seq<(Seq<char>, Seq<Seq<char>>, bool)> {
    let n = or_else(m.get_spec("entity"@), entity);
    let p = or_else(m.get_spec("entity_plural"@), plural(n));
    let ns = or_else(m.get_spec("ns_rel_path"@), Seq::empty());
    layer_files(files, domain, "Domain"@, ns, domain_renames(entity))
        + layer_files(files, domain, "Domain.Shared"@, ns, shared_renames(entity))
        + shared_contract_files(files, domain)
        + layer_files(files, domain, "EntityFrameworkCore"@, ns, ef_core_renames(entity))
        + layer_files(files, domain, "Application"@, ns, application_renames(n, p))
        + layer_files(files, domain, "Application.Contracts"@, ns, contracts_renames(n, p))
}

fn joined(a: &str, b: &str, c: &str) -> (r: String)
    ensures
        r@ == a@ + b@ + c@,
{
    let mut s = copy_str(a);
    push_str(&mut s, b);
    push_str(&mut s, c);
    s
}

fn plan_layer(out: &mut Vec<PlannedFile>, templates: &EmbeddedFiles, domain: &str, layer: &str, ns_rel: &str, ren: &Vec<(String, String)>)
    ensures
        planned_views(final(out)@) == planned_views(old(out)@) + layer_files(templates@, domain@, layer@, ns_rel@, entry_views(ren@)),
{
    let rels = embedded_walk(templates, layer);
    let ghost start = planned_views(out@);
    let ghost rv = views(rels@);
    let ghost target = layer_files(templates@, domain@, layer@, ns_rel@, entry_views(ren@));
    let mut i: usize = 0;
    assert(target.take(0) =~= Seq::<(Seq<char>, Seq<Seq<char>>, bool)>::empty());
    while i < rels.len()
        invariant
            i <= rels.len(),
            rv == views(rels@),
            rv == direct_templates(templates@, layer@),
            target == layer_files(templates@, domain@, layer@, ns_rel@, entry_views(ren@)),
            planned_views(out@) == start + target.take(i as int),
        decreases rels.len() - i,
    {
        let rel = rels[i].as_str();
        let (dir, file) = slash_split(rel);
        let (_, parent) = slash_split(dir.as_str());
        let stem = stem_exec(file.as_str());
        let name = match lookup_exec(ren, stem.as_str()) {
            Some(n) => n,
            None => joined(stem.as_str(), ".cs", ""),
        };
        let mut path: Vec<String> = Vec::new();
        path.push(joined(domain, ".", layer));
        if !ns_rel.is_empty() {
            path.push(copy_str(ns_rel));
        }
        if str_eq(parent.as_str(), "Shared") {
            path.push(copy_str("Shared"));
        }
        path.push(name);
        proof {
            reveal_strlit("");
            assert(""@ =~= Seq::<char>::empty());
            assert(rv[i as int] == rel@);
            assert(target[i as int] == (rel@, layer_path(domain@, layer@, ns_rel@, rel@, entry_views(ren@)), false));
            assert(views(path@) =~= layer_path(domain@, layer@, ns_rel@, rel@, entry_views(ren@)));
        }
        let ghost before = planned_views(out@);
        out.push(PlannedFile { template: copy_str(rel), path, skip_if_exists: false });
        assert(planned_views(out@) =~= before.push(target[i as int]));
        assert(target.take(i + 1) =~= target.take(i as int).push(target[i as int]));
        i = i + 1;
    }
    assert(target.take(rels.len() as int) =~= target);
}

fn plan_shared_contracts(out: &mut Vec<PlannedFile>, templates: &EmbeddedFiles, domain: &str)
    ensures
        planned_views(final(out)@) == planned_views(old(out)@) + shared_contract_files(templates@, domain@),
{
    let rels = embedded_walk(templates, "Application.Contracts/Shared");
    let ghost start = planned_views(out@);
    let ghost rv = views(rels@);
    let ghost target = shared_contract_files(templates@, domain@);
    let mut i: usize = 0;
    assert(target.take(0) =~= Seq::<(Seq<char>, Seq<Seq<char>>, bool)>::empty());
    while i < rels.len()
        invariant
            i <= rels.len(),
            rv == views(rels@),
            rv == direct_templates(templates@, "Application.Contracts/Shared"@),
            target == shared_contract_files(templates@, domain@),
            planned_views(out@) == start + target.take(i as int),
        decreases rels.len() - i,
    {
        let rel = rels[i].as_str();
        let (_, file) = slash_split(rel);
        let stem = stem_exec(file.as_str());
        let mut path: Vec<String> = Vec::new();
        path.push(joined(domain, ".Application.Contracts", ""));
        path.push(copy_str("Shared"));
        path.push(joined(stem.as_str(), ".cs", ""));
        proof {
            reveal_strlit("");
            assert(""@ =~= Seq::<char>::empty());
            assert(rv[i as int] == rel@);
            assert(views(path@) =~= seq![domain@ + ".Application.Contracts"@, "Shared"@, stem_of(file_name_of(rel@)) + ".cs"@]);
        }
        let ghost before = planned_views(out@);
        out.push(PlannedFile { template: copy_str(rel), path, skip_if_exists: true });
        assert(planned_views(out@) =~= before.push(target[i as int]));
        assert(target.take(i + 1) =~= target.take(i as int).push(target[i as int]));
        i = i + 1;
    }
    assert(target.take(rels.len() as int) =~= target);
}

fn value_or(m: &Mapping, k: &str, d: &str) -> (r: String)
    ensures
        r@ == or_else(m.get_spec(k@), d@),
{
    match m.get(k) {
        Some(v) => copy_str(v.as_str()),
        None => copy_str(d),
    }
}

/// The backend files of the entity `entity` of the solution `domain`, as the
/// templates of `templates` lay them out.
pub fn entity_file_plan(templates: &EmbeddedFiles, domain: &str, entity: &str, mapping: &Mapping) -> (r: Vec<PlannedFile>)
    ensures
        planned_views(r@) == entity_file_plan_spec(templates@, domain@, entity@, *mapping),
{
    let n = value_or(mapping, "entity", entity);
    let p = match mapping.get("entity_plural") {
        Some(v) => copy_str(v.as_str()),
        None => pluralize(n.as_str()),
    };
    proof {
        reveal_strlit("");
    }
    let ns = value_or(mapping, "ns_rel_path", "");
    assert(""@ =~= Seq::<char>::empty());
    let e = entity;
    let n = n.as_str();
    let p = p.as_str();
    let mut out: Vec<PlannedFile> = Vec::new();
    assert(planned_views(out@) =~= Seq::<(Seq<char>, Seq<Seq<char>>, bool)>::empty());

    let mut ren: Vec<(String, String)> = Vec::new();
    assert(entry_views(ren@) =~= Seq::<(Seq<char>, Seq<char>)>::empty());
    add_pair(&mut ren, "Entity", joined(e, ".cs", "").as_str());
    add_pair(&mut ren, "IRepository", joined("I", e, "Repository.cs").as_str());
    add_pair(&mut ren, "WithNavigationProperties", joined(e, "WithNavigationProperties.cs", "").as_str());
    add_pair(&mut ren, "Manager", joined(e, "Manager.cs", "").as_str());
    assert(entry_views(ren@) =~= domain_renames(e@));
    plan_layer(&mut out, templates, domain, "Domain", ns.as_str(), &ren);

    let mut ren: Vec<(String, String)> = Vec::new();
    assert(entry_views(ren@) =~= Seq::<(Seq<char>, Seq<char>)>::empty());
    add_pair(&mut ren, "Consts", joined(e, "Consts.cs", "").as_str());
    assert(entry_views(ren@) =~= shared_renames(e@));
    plan_layer(&mut out, templates, domain, "Domain.Shared", ns.as_str(), &ren);

    plan_shared_contracts(&mut out, templates, domain);

    let mut ren: Vec<(String, String)> = Vec::new();
    assert(entry_views(ren@) =~= Seq::<(Seq<char>, Seq<char>)>::empty());
    add_pair(&mut ren, "EfCoreRepository", joined("EfCore", e, "Repository.cs").as_str());
    add_pair(&mut ren, "EfCoreModelCreatingExtension", joined("EfCore", e, "ModelCreatingExtension.cs").as_str());
    assert(entry_views(ren@) =~= ef_core_renames(e@));
    plan_layer(&mut out, templates, domain, "EntityFrameworkCore", ns.as_str(), &ren);

    let mut ren: Vec<(String, String)> = Vec::new();
    assert(entry_views(ren@) =~= Seq::<(Seq<char>, Seq<char>)>::empty());
    add_pair(&mut ren, "AppService", joined(p, "AppService.cs", "").as_str());
    add_pair(&mut ren, "AppServiceInterface", joined("I", p, "AppService.cs").as_str());
    add_pair(&mut ren, "Dto", joined(n, "Dto.cs", "").as_str());
    add_pair(&mut ren, "CreateDto", joined(n, "CreateDto.cs", "").as_str());
    add_pair(&mut ren, "UpdateDto", joined(n, "UpdateDto.cs", "").as_str());
    add_pair(&mut ren, "ExcelDto", joined(n, "ExcelDto.cs", "").as_str());
    add_pair(&mut ren, "FilterDto", joined(n, "FilterDto.cs", "").as_str());
    add_pair(&mut ren, "LookupDto", joined(n, "LookupDto.cs", "").as_str());
    add_pair(&mut ren, "WithNavigationPropertiesDto", joined(n, "WithNavigationPropertiesDto.cs", "").as_str());
    add_pair(&mut ren, "Profile", joined(n, "AutoMapperProfile.cs", "").as_str());
    add_pair(&mut ren, "ExcelExporter", joined(n, "ExcelExporter.cs", "").as_str());
    add_pair(&mut ren, "DownloadTokenCacheItem", joined(n, "DownloadTokenCacheItem.cs", "").as_str());
    assert(entry_views(ren@) =~= application_renames(n@, p@));
    plan_layer(&mut out, templates, domain, "Application", ns.as_str(), &ren);

    let mut ren: Vec<(String, String)> = Vec::new();
    assert(entry_views(ren@) =~= Seq::<(Seq<char>, Seq<char>)>::empty());
    add_pair(&mut ren, "Permissions", joined(p, "Permissions.cs", "").as_str());
    add_pair(&mut ren, "Localization", joined(p, "Localization.cs", "").as_str());
    add_pair(&mut ren, "Menus", joined(p, "Menus.cs", "").as_str());
    add_pair(&mut ren, "Dto", joined(n, "Dto.cs", "").as_str());
    add_pair(&mut ren, "CreateDto", joined(n, "CreateDto.cs", "").as_str());
    add_pair(&mut ren, "UpdateDto", joined(n, "UpdateDto.cs", "").as_str());
    add_pair(&mut ren, "WithNavigationPropertiesDto", joined(n, "WithNavigationPropertiesDto.cs", "").as_str());
    add_pair(&mut ren, "ExcelDto", joined(n, "ExcelDto.cs", "").as_str());
    add_pair(&mut ren, "ExcelDownloadDto", joined(n, "ExcelDownloadDto.cs", "").as_str());
    add_pair(&mut ren, "GetInput", joined("Get", n, "Input.cs").as_str());
    add_pair(&mut ren, "IAppService", joined("I", n, "AppService.cs").as_str());
    add_pair(&mut ren, "LookupDto", joined(n, "LookupDto.cs", "").as_str());
    add_pair(&mut ren, "DownloadTokenResultDto", joined(n, "DownloadTokenResultDto.cs", "").as_str());
    add_pair(&mut ren, "LookupRequestDto", "LookupRequestDto.cs");
    assert(entry_views(ren@) =~= contracts_renames(n@, p@));
    plan_layer(&mut out, templates, domain, "Application.Contracts", ns.as_str(), &ren);
    out
}

} // verus!
