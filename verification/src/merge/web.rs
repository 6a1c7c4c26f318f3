//! Menu registration, Web object mappings and their cleanup for MVC hosts.
use crate::merge::{
    MergeContext, StepOutcome, block_after, close_from, ensure_using, ensure_using_spec,
    guarded_class_insert, guarded_class_step, insert_at, insert_before_close_spec,
    insert_before_last_close_brace_of_method, insert_inside_class, insert_inside_class_spec,
    invalid_pattern_msg, lemma_contains_mid, lemma_ensure_using_contains, lemma_ensure_using_keeps,
    lemma_guarded_class_insert_idempotent, step_ok, brace_free, lemma_brace_free_within,
    lemma_insert_before_close_effect, lemma_insert_before_close_keeps, lemma_insert_inside_class_effect,
    lemma_insert_inside_class_keeps,
};
use crate::pattern::{
    escape_spec, regex_compiles, regex_escape, regex_find, regex_first_match, regex_replace_all,
    regex_replace_all_spec,
};
use crate::text::{
    chars_of, contains, copy_str, find, find_exec, find_from, find_from_exec, lemma_contains_prefix,
    lemma_contains_trans, lemma_contains_within, lemma_trim_single_line, opt_int, push_str,
    occurs_at, single_line, str_contains, str_eq, string_of_range, trim,
};
use vstd::prelude::*;

verus! {

/* ------------------------------ menu constant ------------------------------ */

pub open spec fn menu_const_marker(ep: Seq<char>) -> Seq<char> {
    "public const string "@ + ep + " = "@
}

pub open spec fn menu_const_line(ep: Seq<char>) -> Seq<char> {
    "\n    "@ + menu_const_marker(ep) + "Prefix + \"."@ + ep + "\";\n"@
}

pub open spec fn menus_pattern(short: Seq<char>) -> Seq<char> {
    "public\\s+class\\s+"@ + escape_spec(short) + "\\s*Menus\\s*"@
}

/// The `…Menus` class with the entity's menu constant.
pub open spec fn menus_text(src: Seq<char>, short: Seq<char>, ep: Seq<char>) -> Seq<char> {
    guarded_class_insert(src, menu_const_marker(ep), menus_pattern(short), menu_const_line(ep), true)
}

/// Law: adding the menu constant twice gives the text of adding it once.
pub proof fn lemma_menus_idempotent(src: Seq<char>, short: Seq<char>, ep: Seq<char>)
    ensures
        menus_text(menus_text(src, short, ep), short, ep) == menus_text(src, short, ep),
{
    let rest = "Prefix + \"."@ + ep + "\";\n"@;
    assert(menu_const_line(ep) =~= "\n    "@ + menu_const_marker(ep) + rest);
    lemma_contains_mid("\n    "@, menu_const_marker(ep), rest);
    lemma_guarded_class_insert_idempotent(
        src,
        menu_const_marker(ep),
        menus_pattern(short),
        menu_const_line(ep),
        true,
    );
}

/// Adds the entity's constant to the `…Menus` class unless it is present.
pub fn merge_menu_constant(src: &str, context: &MergeContext) -> (r: Result<
    (String, StepOutcome),
    String,
>)
    ensures
        r is Err <==> (!contains(src@, menu_const_marker(context.entity_plural@)) && !regex_compiles(
            menus_pattern(context.short@),
        )),
        r matches Err(e) ==> e@ == invalid_pattern_msg(menus_pattern(context.short@)),
        r matches Ok(p) ==> p.0@ == menus_text(src@, context.short@, context.entity_plural@)
            && step_ok(src@, p.0@, menu_const_marker(context.entity_plural@), p.1),
{
    let ep = context.entity_plural.as_str();
    let mut marker = copy_str("public const string ");
    push_str(&mut marker, ep);
    push_str(&mut marker, " = ");
    let mut line = copy_str("\n    ");
    push_str(&mut line, marker.as_str());
    push_str(&mut line, "Prefix + \".");
    push_str(&mut line, ep);
    push_str(&mut line, "\";\n");
    let mut pattern = copy_str("public\\s+class\\s+");
    let esc = regex_escape(context.short.as_str());
    push_str(&mut pattern, esc.as_str());
    push_str(&mut pattern, "\\s*Menus\\s*");
    guarded_class_step(src, marker.as_str(), pattern.as_str(), line.as_str(), true)
}

/* ------------------------------ menu contributor ------------------------------ */

pub open spec fn menu_marker(short: Seq<char>, ep: Seq<char>) -> Seq<char> {
    short + "Menus."@ + ep
}

/// The menu item of an entity.
pub open spec fn menu_item(short: Seq<char>, ep: Seq<char>) -> Seq<char> {
    "\n        context.Menu.AddItem(\n            new ApplicationMenuItem(\n                "@
        + menu_marker(short, ep) + ",\n                l[\"Menu:"@ + ep + "\"],\n                url: \"/"@
        + ep + "\",\n                icon: \"fa fa-file-alt\",\n                requiredPermissionName: "@
        + short + "Permissions."@ + ep + ".Default)\n        );\n    "@
}

pub open spec fn permissions_using(domain: Seq<char>) -> Seq<char> {
    "using "@ + domain + ".Permissions;"@
}

pub open spec fn configure_main_menu_pattern() -> Seq<char> {
    "private\\s+static\\s+Task\\s+ConfigureMainMenuAsync\\s*\\(\\s*MenuConfigurationContext\\s+context\\s*\\)\\s*"@
}

pub open spec fn completed_task() -> Seq<char> {
    "return Task.CompletedTask;"@
}

/// How the menu item was placed.
#[derive(Debug, Clone, Copy, PartialEq, Eq, Structural)]
pub enum MenuOutcome {
    /// Placed before `return Task.CompletedTask;`.
    BeforeReturn,
    /// Placed at the end of `ConfigureMainMenuAsync`.
    AtMethodEnd,
    /// `ConfigureMainMenuAsync` was not found; nothing inserted.
    NotFound,
    /// The item was already present.
    Present,
}

/// The menu contributor with the permissions `using` directive and the
/// entity's menu item.
pub open spec fn contributor_text(src: Seq<char>, domain: Seq<char>, short: Seq<char>, ep: Seq<char>) -> Seq<char> {
    let s1 = ensure_using_spec(src, permissions_using(domain));
    if contains(s1, menu_marker(short, ep)) {
        s1
    } else {
        match find(s1, completed_task()) {
            Some(pos) => insert_at(s1, pos, menu_item(short, ep)),
            None => insert_before_close_spec(
                s1,
                regex_first_match(configure_main_menu_pattern(), s1),
                menu_item(short, ep),
            ),
        }
    }
}

/// Law: the menu item of an entity is shown to whoever holds the entity's
/// `Default` (view) permission.
pub proof fn lemma_menu_item_requires_view(short: Seq<char>, ep: Seq<char>)
    ensures
        contains(
            menu_item(short, ep),
            "requiredPermissionName: "@ + short + "Permissions."@ + ep + ".Default)"@,
        ),
{
    let l1 = "\",\n                icon: \"fa fa-file-alt\",\n                requiredPermissionName: "@;
    let l2 = ".Default)\n        );\n    "@;
    let head = "requiredPermissionName: "@;
    let dft = ".Default)"@;
    reveal_strlit("\",\n                icon: \"fa fa-file-alt\",\n                requiredPermissionName: ");
    reveal_strlit(".Default)\n        );\n    ");
    reveal_strlit("requiredPermissionName: ");
    reveal_strlit(".Default)");
    let p = l1.take(l1.len() - 24);
    assert(l1 =~= p + head);
    assert(l2 =~= dft + l2.skip(9));
    let x = "\n        context.Menu.AddItem(\n            new ApplicationMenuItem(\n                "@
        + menu_marker(short, ep) + ",\n                l[\"Menu:"@ + ep + "\"],\n                url: \"/"@
        + ep;
    let needle = head + short + "Permissions."@ + ep + dft;
    assert(menu_item(short, ep) =~= (x + p) + needle + l2.skip(9));
    lemma_contains_mid(x + p, needle, l2.skip(9));
}

/// Law: when the merge adds the menu item, the contributor it leaves shows
/// the entity's menu to holders of its `Default` (view) permission.
pub proof fn lemma_contributor_requires_view(src: Seq<char>, domain: Seq<char>, short: Seq<char>, ep: Seq<char>)
    ensures
        ({
            let s1 = ensure_using_spec(src, permissions_using(domain));
            let t = contributor_text(src, domain, short, ep);
            (!contains(s1, menu_marker(short, ep)) && t != s1) ==> contains(
                t,
                "requiredPermissionName: "@ + short + "Permissions."@ + ep + ".Default)"@,
            )
        }),
{
    let s1 = ensure_using_spec(src, permissions_using(domain));
    let t = contributor_text(src, domain, short, ep);
    let item = menu_item(short, ep);
    lemma_menu_item_requires_view(short, ep);
    if !contains(s1, menu_marker(short, ep)) && t != s1 {
        match find(s1, completed_task()) {
            Some(pos) => {
                crate::text::lemma_find_contains(s1, completed_task());
                crate::merge::lemma_insert_at_contains(s1, pos, item);
            },
            None => {
                lemma_insert_before_close_effect(
                    s1,
                    regex_first_match(configure_main_menu_pattern(), s1),
                    item,
                );
            },
        }
        lemma_contains_trans(
            t,
            item,
            "requiredPermissionName: "@ + short + "Permissions."@ + ep + ".Default)"@,
        );
    }
}

fn menu_item_exec(short: &str, ep: &str) -> (r: String)
    ensures
        r@ == menu_item(short@, ep@),
{
    let mut r = copy_str("\n        context.Menu.AddItem(\n            new ApplicationMenuItem(\n                ");
    push_str(&mut r, short);
    push_str(&mut r, "Menus.");
    push_str(&mut r, ep);
    push_str(&mut r, ",\n                l[\"Menu:");
    push_str(&mut r, ep);
    push_str(&mut r, "\"],\n                url: \"/");
    push_str(&mut r, ep);
    push_str(&mut r, "\",\n                icon: \"fa fa-file-alt\",\n                requiredPermissionName: ");
    push_str(&mut r, short);
    push_str(&mut r, "Permissions.");
    push_str(&mut r, ep);
    push_str(&mut r, ".Default)\n        );\n    ");
    r
}

/// Adds the permissions `using` directive and the entity's menu item to the
/// menu contributor.
pub fn merge_menu_contributor(src: &str, context: &MergeContext) -> (r: Result<
    (String, MenuOutcome),
    String,
>)
    ensures
        ({
            let s1 = ensure_using_spec(src@, permissions_using(context.domain@));
            let failing = !contains(s1, menu_marker(context.short@, context.entity_plural@))
                && find(s1, completed_task()) is None && !regex_compiles(
                configure_main_menu_pattern(),
            );
            &&& r is Err <==> failing
            &&& r matches Err(e) ==> e@ == invalid_pattern_msg(configure_main_menu_pattern())
            &&& r matches Ok(p) ==> {
                &&& p.0@ == contributor_text(
                    src@,
                    context.domain@,
                    context.short@,
                    context.entity_plural@,
                )
                &&& p.1 == if contains(s1, menu_marker(context.short@, context.entity_plural@)) {
                    MenuOutcome::Present
                } else if find(s1, completed_task()) is Some {
                    MenuOutcome::BeforeReturn
                } else if p.0@ == s1 {
                    MenuOutcome::NotFound
                } else {
                    MenuOutcome::AtMethodEnd
                }
            }
        }),
{
    let mut using = copy_str("using ");
    push_str(&mut using, context.domain.as_str());
    push_str(&mut using, ".Permissions;");
    let s1 = ensure_using(src, using.as_str());
    let short = context.short.as_str();
    let ep = context.entity_plural.as_str();
    let mut marker = copy_str(short);
    push_str(&mut marker, "Menus.");
    push_str(&mut marker, ep);
    if str_contains(s1.as_str(), marker.as_str()) {
        return Ok((s1, MenuOutcome::Present));
    }
    let item = menu_item_exec(short, ep);
    let cs = chars_of(s1.as_str());
    let needle = chars_of("return Task.CompletedTask;");
    match find_exec(&cs, &needle) {
        Some(pos) => {
            proof {
                crate::text::lemma_find_from_sound(cs@, needle@, 0);
            }
            assert(pos <= cs.len());
            let mut out = string_of_range(&cs, 0, pos);
            push_str(&mut out, item.as_str());
            let tail = string_of_range(&cs, pos, cs.len());
            push_str(&mut out, tail.as_str());
            proof {
                assert(cs@.take(pos as int) =~= cs@.subrange(0, pos as int));
                assert(cs@.skip(pos as int) =~= cs@.subrange(pos as int, cs@.len() as int));
            }
            Ok((out, MenuOutcome::BeforeReturn))
        },
        None => {
            let pattern = copy_str(
                "private\\s+static\\s+Task\\s+ConfigureMainMenuAsync\\s*\\(\\s*MenuConfigurationContext\\s+context\\s*\\)\\s*",
            );
            let t = insert_before_last_close_brace_of_method(
                s1.as_str(),
                pattern.as_str(),
                item.as_str(),
            )?;
            if str_eq(t.as_str(), s1.as_str()) {
                Ok((t, MenuOutcome::NotFound))
            } else {
                Ok((t, MenuOutcome::AtMethodEnd))
            }
        },
    }
}

/* ------------------------------ Razor web mappings ------------------------------ */

pub open spec fn update_map(e: Seq<char>) -> Seq<char> {
    "CreateMap<"@ + e + "Dto, "@ + e + "UpdateViewModel>"@
}

pub open spec fn detail_map(e: Seq<char>) -> Seq<char> {
    "CreateMap<"@ + e + "Dto, "@ + e + "DetailViewModel>"@
}

/// The AutoMapper maps of the Razor view models.
pub open spec fn view_model_maps(e: Seq<char>) -> Seq<char> {
    "\n        "@ + update_map(e) + "();\n        "@ + detail_map(e) + "();\n"@
}

pub open spec fn web_profile_ctor_pattern(short: Seq<char>) -> Seq<char> {
    "public\\s+"@ + escape_spec(short) + "\\s*WebAutoMapperProfile\\s*\\(\\s*\\)\\s*"@
}

pub open spec fn web_profile_class_pattern(short: Seq<char>) -> Seq<char> {
    "class\\s+"@ + escape_spec(short) + "\\s*WebAutoMapperProfile\\s*:\\s*Profile"@
}

pub open spec fn using_of(ns: Seq<char>) -> Seq<char> {
    "using "@ + ns + ";"@
}

/// The profile after the namespace `using` directives are ensured.
pub open spec fn web_profile_usings(src: Seq<char>, ns: Seq<char>, wns: Seq<char>) -> Seq<char> {
    ensure_using_spec(ensure_using_spec(src, using_of(ns)), using_of(wns))
}

/// Where the view-model maps went.
#[derive(Debug, Clone, Copy, PartialEq, Eq, Structural)]
pub enum ProfileOutcome {
    /// One of the maps was already present.
    Present,
    /// Added to the profile constructor.
    InConstructor,
    /// Added at the end of the profile class.
    AtClassEnd,
    /// Appended to the file.
    Appended,
}

/// The Web AutoMapper profile with its usings and the view-model maps;
/// `c` is (entity, domain short name, entity namespace, Web pages namespace).
pub open spec fn web_profile_text(src: Seq<char>, c: (Seq<char>, Seq<char>, Seq<char>, Seq<char>)) -> Seq<char> {
    let s2 = web_profile_usings(src, c.2, c.3);
    let maps = view_model_maps(c.0);
    if contains(s2, update_map(c.0)) || contains(s2, detail_map(c.0)) {
        s2
    } else {
        let a = insert_before_close_spec(
            s2,
            regex_first_match(web_profile_ctor_pattern(c.1), s2),
            maps,
        );
        if a != s2 {
            a
        } else {
            let b = insert_inside_class_spec(
                s2,
                regex_first_match(web_profile_class_pattern(c.1), s2),
                maps,
                true,
            );
            if b != s2 {
                b
            } else {
                s2 + maps
            }
        }
    }
}

pub open spec fn profile_names(c: MergeContext) -> (Seq<char>, Seq<char>, Seq<char>, Seq<char>) {
    (c.entity@, c.short@, c.namespace@, c.web_namespace@)
}

fn using_exec(ns: &str) -> (r: String)
    ensures
        r@ == using_of(ns@),
{
    let mut r = copy_str("using ");
    push_str(&mut r, ns);
    push_str(&mut r, ";");
    r
}

fn view_model_maps_exec(e: &str) -> (r: String)
    ensures
        r@ == view_model_maps(e@),
{
    let mut r = copy_str("\n        ");
    push_str(&mut r, "CreateMap<");
    push_str(&mut r, e);
    push_str(&mut r, "Dto, ");
    push_str(&mut r, e);
    push_str(&mut r, "UpdateViewModel>");
    push_str(&mut r, "();\n        ");
    push_str(&mut r, "CreateMap<");
    push_str(&mut r, e);
    push_str(&mut r, "Dto, ");
    push_str(&mut r, e);
    push_str(&mut r, "DetailViewModel>");
    push_str(&mut r, "();\n");
    r
}

/// Adds the namespace usings and the view-model maps to the Web AutoMapper
/// profile of a Razor host.
pub fn merge_web_profile(src: &str, context: &MergeContext) -> (r: Result<
    (String, ProfileOutcome),
    String,
>)
    ensures
        ({
            let c = profile_names(*context);
            let s2 = web_profile_usings(src@, c.2, c.3);
            let present = contains(s2, update_map(c.0)) || contains(s2, detail_map(c.0));
            let a = insert_before_close_spec(
                s2,
                regex_first_match(web_profile_ctor_pattern(c.1), s2),
                view_model_maps(c.0),
            );
            let b = insert_inside_class_spec(
                s2,
                regex_first_match(web_profile_class_pattern(c.1), s2),
                view_model_maps(c.0),
                true,
            );
            let e1 = !present && !regex_compiles(web_profile_ctor_pattern(c.1));
            let e2 = !present && !e1 && a == s2 && !regex_compiles(web_profile_class_pattern(c.1));
            &&& r is Err <==> e1 || e2
            &&& r matches Err(e) ==> if e1 {
                e@ == invalid_pattern_msg(web_profile_ctor_pattern(c.1))
            } else {
                e@ == invalid_pattern_msg(web_profile_class_pattern(c.1))
            }
            &&& r matches Ok(p) ==> {
                &&& p.0@ == web_profile_text(src@, c)
                &&& p.1 == if present {
                    ProfileOutcome::Present
                } else if a != s2 {
                    ProfileOutcome::InConstructor
                } else if b != s2 {
                    ProfileOutcome::AtClassEnd
                } else {
                    ProfileOutcome::Appended
                }
            }
        }),
{
    let e = context.entity.as_str();
    let u1 = using_exec(context.namespace.as_str());
    let u2 = using_exec(context.web_namespace.as_str());
    let s1 = ensure_using(src, u1.as_str());
    let s2 = ensure_using(s1.as_str(), u2.as_str());
    let mut um = copy_str("CreateMap<");
    push_str(&mut um, e);
    push_str(&mut um, "Dto, ");
    push_str(&mut um, e);
    push_str(&mut um, "UpdateViewModel>");
    let mut dm = copy_str("CreateMap<");
    push_str(&mut dm, e);
    push_str(&mut dm, "Dto, ");
    push_str(&mut dm, e);
    push_str(&mut dm, "DetailViewModel>");
    if str_contains(s2.as_str(), um.as_str()) || str_contains(s2.as_str(), dm.as_str()) {
        return Ok((s2, ProfileOutcome::Present));
    }
    let maps = view_model_maps_exec(e);
    let esc = regex_escape(context.short.as_str());
    let mut ctor = copy_str("public\\s+");
    push_str(&mut ctor, esc.as_str());
    push_str(&mut ctor, "\\s*WebAutoMapperProfile\\s*\\(\\s*\\)\\s*");
    let a = insert_before_last_close_brace_of_method(s2.as_str(), ctor.as_str(), maps.as_str())?;
    if !str_eq(a.as_str(), s2.as_str()) {
        return Ok((a, ProfileOutcome::InConstructor));
    }
    let mut class = copy_str("class\\s+");
    push_str(&mut class, esc.as_str());
    push_str(&mut class, "\\s*WebAutoMapperProfile\\s*:\\s*Profile");
    let b = insert_inside_class(s2.as_str(), class.as_str(), maps.as_str(), true)?;
    if !str_eq(b.as_str(), s2.as_str()) {
        return Ok((b, ProfileOutcome::AtClassEnd));
    }
    let mut out = s2;
    push_str(&mut out, maps.as_str());
    Ok((out, ProfileOutcome::Appended))
}

/// Mapperly classes between an entity DTO and its Razor view models.
pub open spec fn web_mapper_block_spec(e: Seq<char>) -> Seq<char> {
    "\n    [Mapper]\n    public partial class "@ + e + "DtoTo"@ + e + "UpdateViewModelMapper : MapperBase<"@ + e + "Dto, "@ + e + "UpdateViewModel>\n    {\n    public override partial "@ + e + "UpdateViewModel Map("@ + e + "Dto source);\n    public override partial void Map("@ + e + "Dto source, "@ + e + "UpdateViewModel destination);\n    }\n    \n    [Mapper]\n    public partial class "@ + e + "UpdateViewModelTo"@ + e + "UpdateDtoMapper : MapperBase<"@ + e + "UpdateViewModel, "@ + e + "UpdateDto>\n    {\n    public override partial "@ + e + "UpdateDto Map("@ + e + "UpdateViewModel source);\n    public override partial void Map("@ + e + "UpdateViewModel source, "@ + e + "UpdateDto destination);\n    }\n    \n    [Mapper]\n    public partial class "@ + e + "CreateViewModelTo"@ + e + "CreateDtoMapper : MapperBase<"@ + e + "CreateViewModel, "@ + e + "CreateDto>\n    {\n    public override partial "@ + e + "CreateDto Map("@ + e + "CreateViewModel source);\n    public override partial void Map("@ + e + "CreateViewModel source, "@ + e + "CreateDto destination);\n    }\n    \n    [Mapper]\n    public partial class "@ + e + "DtoTo"@ + e + "DetailViewModelMapper : MapperBase<"@ + e + "Dto, "@ + e + "DetailViewModel>\n    {\n    public override partial "@ + e + "DetailViewModel Map("@ + e + "Dto source);\n    public override partial void Map("@ + e + "Dto source, "@ + e + "DetailViewModel destination);\n    }\n    "@
}

fn web_mapper_block(e: &str) -> (r: String)
    ensures
        r@ == web_mapper_block_spec(e@),
{
    let mut r = String::new();
    push_str(&mut r, "\n    [Mapper]\n    public partial class ");
    push_str(&mut r, e);
    push_str(&mut r, "DtoTo");
    push_str(&mut r, e);
    push_str(&mut r, "UpdateViewModelMapper : MapperBase<");
    push_str(&mut r, e);
    push_str(&mut r, "Dto, ");
    push_str(&mut r, e);
    push_str(&mut r, "UpdateViewModel>\n    {\n    public override partial ");
    push_str(&mut r, e);
    push_str(&mut r, "UpdateViewModel Map(");
    push_str(&mut r, e);
    push_str(&mut r, "Dto source);\n    public override partial void Map(");
    push_str(&mut r, e);
    push_str(&mut r, "Dto source, ");
    push_str(&mut r, e);
    push_str(&mut r, "UpdateViewModel destination);\n    }\n    \n    [Mapper]\n    public partial class ");
    push_str(&mut r, e);
    push_str(&mut r, "UpdateViewModelTo");
    push_str(&mut r, e);
    push_str(&mut r, "UpdateDtoMapper : MapperBase<");
    push_str(&mut r, e);
    push_str(&mut r, "UpdateViewModel, ");
    push_str(&mut r, e);
    push_str(&mut r, "UpdateDto>\n    {\n    public override partial ");
    push_str(&mut r, e);
    push_str(&mut r, "UpdateDto Map(");
    push_str(&mut r, e);
    push_str(&mut r, "UpdateViewModel source);\n    public override partial void Map(");
    push_str(&mut r, e);
    push_str(&mut r, "UpdateViewModel source, ");
    push_str(&mut r, e);
    push_str(&mut r, "UpdateDto destination);\n    }\n    \n    [Mapper]\n    public partial class ");
    push_str(&mut r, e);
    push_str(&mut r, "CreateViewModelTo");
    push_str(&mut r, e);
    push_str(&mut r, "CreateDtoMapper : MapperBase<");
    push_str(&mut r, e);
    push_str(&mut r, "CreateViewModel, ");
    push_str(&mut r, e);
    push_str(&mut r, "CreateDto>\n    {\n    public override partial ");
    push_str(&mut r, e);
    push_str(&mut r, "CreateDto Map(");
    push_str(&mut r, e);
    push_str(&mut r, "CreateViewModel source);\n    public override partial void Map(");
    push_str(&mut r, e);
    push_str(&mut r, "CreateViewModel source, ");
    push_str(&mut r, e);
    push_str(&mut r, "CreateDto destination);\n    }\n    \n    [Mapper]\n    public partial class ");
    push_str(&mut r, e);
    push_str(&mut r, "DtoTo");
    push_str(&mut r, e);
    push_str(&mut r, "DetailViewModelMapper : MapperBase<");
    push_str(&mut r, e);
    push_str(&mut r, "Dto, ");
    push_str(&mut r, e);
    push_str(&mut r, "DetailViewModel>\n    {\n    public override partial ");
    push_str(&mut r, e);
    push_str(&mut r, "DetailViewModel Map(");
    push_str(&mut r, e);
    push_str(&mut r, "Dto source);\n    public override partial void Map(");
    push_str(&mut r, e);
    push_str(&mut r, "Dto source, ");
    push_str(&mut r, e);
    push_str(&mut r, "DetailViewModel destination);\n    }\n    ");
    r
}

pub open spec fn mapper_class_marks(e: Seq<char>) -> Seq<Seq<char>> {
    seq![
        "class "@ + e + "UpdateViewModelTo"@ + e + "UpdateDtoMapper"@,
        "class "@ + e + "DtoTo"@ + e + "UpdateViewModelMapper"@,
        "class "@ + e + "CreateViewModelTo"@ + e + "CreateDtoMapper"@,
        "class "@ + e + "DtoTo"@ + e + "DetailViewModelMapper"@,
    ]
}

/// The Web Mapperly file after its usings are ensured.
pub open spec fn web_mappers_usings(src: Seq<char>, ns: Seq<char>, wns: Seq<char>) -> Seq<char> {
    ensure_using_spec(
        ensure_using_spec(
            ensure_using_spec(ensure_using_spec(src, using_of(ns)), using_of(wns)),
            "using Volo.Abp.Mapperly;"@,
        ),
        "using Riok.Mapperly.Abstractions;"@,
    )
}

pub open spec fn has_any_mapper(s: Seq<char>, e: Seq<char>) -> bool {
    exists|i: int| 0 <= i < 4 && contains(s, #[trigger] mapper_class_marks(e)[i])
}

/// The Web Mapperly file with its usings and the view-model mapper classes.
pub open spec fn web_mappers_text(src: Seq<char>, e: Seq<char>, ns: Seq<char>, wns: Seq<char>) -> Seq<char> {
    let s = web_mappers_usings(src, ns, wns);
    if has_any_mapper(s, e) {
        s
    } else {
        s + web_mapper_block_spec(e)
    }
}

/// A `using` directive of a namespace without line breaks has none.
pub proof fn lemma_using_single_line(ns: Seq<char>)
    requires
        single_line(ns),
    ensures
        single_line(using_of(ns)),
{
    reveal_strlit("using ");
    reveal_strlit(";");
    let u = using_of(ns);
    assert forall|i: int| 0 <= i < u.len() implies #[trigger] u[i] != '\n' && u[i] != '\r' by {
        if 6 <= i < 6 + ns.len() {
            assert(u[i] == ns[i - 6]);
        }
    }
}

/// `text` keeps what `src` held, where `text` is `src` or `src` with more
/// appended.
proof fn lemma_keeps_through_append(src: Seq<char>, more: Seq<char>, m: Seq<char>)
    requires
        contains(src, m),
    ensures
        contains(src + more, m),
{
    lemma_contains_prefix(src, more);
    lemma_contains_trans(src + more, src, m);
}

/// The view-model mapper block holds the class that maps the DTO to the
/// update view model.
#[verifier::rlimit(100)]
proof fn lemma_web_block_has_mark(e: Seq<char>)
    ensures
        contains(web_mapper_block_spec(e), mapper_class_marks(e)[1]),
{
    reveal_strlit("\n    [Mapper]\n    public partial class ");
    reveal_strlit("class ");
    reveal_strlit("DtoTo");
    reveal_strlit("UpdateViewModelMapper");
    reveal_strlit("UpdateViewModelMapper : MapperBase<");
    let block = web_mapper_block_spec(e);
    let mark = mapper_class_marks(e)[1];
    let a = "\n    [Mapper]\n    public partial class "@;
    let hl = a.len() - 6;
    assert(mark == "class "@ + e + "DtoTo"@ + e + "UpdateViewModelMapper"@);
    assert(block.subrange(hl, hl + mark.len()) =~= mark);
    assert(occurs_at(block, mark, hl));
}

/// Law: merging the view-model mappers into the Web Mapperly file a second
/// time, on the result of the first merge, changes nothing (for namespaces
/// without line breaks).
pub proof fn lemma_web_mappers_idempotent(src: Seq<char>, e: Seq<char>, ns: Seq<char>, wns: Seq<char>)
    requires
        single_line(ns),
        single_line(wns),
    ensures
        web_mappers_text(web_mappers_text(src, e, ns, wns), e, ns, wns) == web_mappers_text(
            src,
            e,
            ns,
            wns,
        ),
{
    reveal_strlit("using Volo.Abp.Mapperly;");
    reveal_strlit("using Riok.Mapperly.Abstractions;");
    let u1 = using_of(ns);
    let u2 = using_of(wns);
    let u3 = "using Volo.Abp.Mapperly;"@;
    let u4 = "using Riok.Mapperly.Abstractions;"@;
    lemma_using_single_line(ns);
    lemma_using_single_line(wns);
    assert(single_line(u3));
    lemma_trim_single_line(u1);
    lemma_trim_single_line(u2);
    lemma_trim_single_line(u3);
    let s1 = ensure_using_spec(src, u1);
    let s2 = ensure_using_spec(s1, u2);
    let s3 = ensure_using_spec(s2, u3);
    let s4 = ensure_using_spec(s3, u4);
    lemma_ensure_using_contains(src, u1);
    lemma_ensure_using_keeps(s1, u2, trim(u1));
    lemma_ensure_using_keeps(s2, u3, trim(u1));
    lemma_ensure_using_keeps(s3, u4, trim(u1));
    lemma_ensure_using_contains(s1, u2);
    lemma_ensure_using_keeps(s2, u3, trim(u2));
    lemma_ensure_using_keeps(s3, u4, trim(u2));
    lemma_ensure_using_contains(s2, u3);
    lemma_ensure_using_keeps(s3, u4, trim(u3));
    lemma_ensure_using_contains(s3, u4);
    let t = web_mappers_text(src, e, ns, wns);
    if !has_any_mapper(s4, e) {
        let block = web_mapper_block_spec(e);
        let mark = mapper_class_marks(e)[1];
        lemma_web_block_has_mark(e);

        lemma_keeps_through_append(s4, block, trim(u1));
        lemma_keeps_through_append(s4, block, trim(u2));
        lemma_keeps_through_append(s4, block, trim(u3));
        lemma_keeps_through_append(s4, block, trim(u4));
        lemma_contains_prefix(s4, block);
        lemma_contains_within(s4, block, Seq::empty(), mark);
        assert(s4 + block + Seq::<char>::empty() =~= s4 + block);
        assert(contains(t, mapper_class_marks(e)[1]));
    }
    assert(web_mappers_usings(t, ns, wns) == t);
}

/// The trimmed `using` directive of a namespace without braces or line
/// breaks has neither.
pub proof fn lemma_using_trim_safe(ns: Seq<char>)
    requires
        single_line(ns),
        brace_free(ns),
    ensures
        single_line(trim(using_of(ns))),
        brace_free(trim(using_of(ns))),
{
    reveal_strlit("using ");
    reveal_strlit(";");
    let u = using_of(ns);
    lemma_using_single_line(ns);
    lemma_trim_single_line(u);
    assert forall|i: int| 0 <= i < u.len() implies #[trigger] u[i] != '{' && u[i] != '}' by {
        if 6 <= i < 6 + ns.len() {
            assert(u[i] == ns[i - 6]);
        }
    }
    crate::text::lemma_trim_end_prefix(u);
    crate::text::lemma_trim_in_trim_end(u);
    lemma_contains_trans(u, crate::text::trim_end(u), trim(u));
    lemma_brace_free_within(u, trim(u));
}

/// Law: merging the view-model maps into the Web AutoMapper profile a
/// second time, on the result of the first merge, changes nothing (for
/// namespaces without braces or line breaks).
pub proof fn lemma_web_profile_idempotent(src: Seq<char>, c: (Seq<char>, Seq<char>, Seq<char>, Seq<char>))
    requires
        single_line(c.2),
        single_line(c.3),
        brace_free(c.2),
        brace_free(c.3),
    ensures
        web_profile_text(web_profile_text(src, c), c) == web_profile_text(src, c),
{
    let u1 = using_of(c.2);
    let u2 = using_of(c.3);
    lemma_using_trim_safe(c.2);
    lemma_using_trim_safe(c.3);
    lemma_using_single_line(c.2);
    let s1 = ensure_using_spec(src, u1);
    let s2 = web_profile_usings(src, c.2, c.3);
    lemma_ensure_using_contains(src, u1);
    lemma_ensure_using_keeps(s1, u2, trim(u1));
    lemma_ensure_using_contains(s1, u2);
    let maps = view_model_maps(c.0);
    let t = web_profile_text(src, c);
    let um = update_map(c.0);
    assert(maps =~= "\n        "@ + um + ("();\n        "@ + detail_map(c.0) + "();\n"@));
    lemma_contains_mid("\n        "@, um, "();\n        "@ + detail_map(c.0) + "();\n"@);
    if !(contains(s2, um) || contains(s2, detail_map(c.0))) {
        let mm = regex_first_match(web_profile_ctor_pattern(c.1), s2);
        let a = insert_before_close_spec(s2, mm, maps);
        lemma_insert_before_close_keeps(s2, mm, maps, trim(u1));
        lemma_insert_before_close_keeps(s2, mm, maps, trim(u2));
        lemma_insert_before_close_effect(s2, mm, maps);
        if a != s2 {
            lemma_contains_trans(a, maps, um);
        } else {
            let mc = regex_first_match(web_profile_class_pattern(c.1), s2);
            let b = insert_inside_class_spec(s2, mc, maps, true);
            lemma_insert_inside_class_keeps(s2, mc, maps, true, trim(u1));
            lemma_insert_inside_class_keeps(s2, mc, maps, true, trim(u2));
            lemma_insert_inside_class_effect(s2, mc, maps, true);
            if b != s2 {
                lemma_contains_trans(b, maps, um);
            } else {
                lemma_keeps_through_append(s2, maps, trim(u1));
                lemma_keeps_through_append(s2, maps, trim(u2));
                lemma_contains_within(s2, maps, Seq::empty(), um);
                assert(s2 + maps + Seq::<char>::empty() =~= s2 + maps);
            }
        }
    }
    assert(contains(t, trim(u1)));
    assert(contains(t, trim(u2)));
    assert(ensure_using_spec(t, u1) == t);
    assert(web_profile_usings(t, c.2, c.3) == t);
    assert(contains(t, um) || contains(t, detail_map(c.0)));
}

/// Adds the usings and the view-model mapper classes to the Web Mapperly
/// file of a Razor host; reports whether the file changed and whether the
/// classes were appended.
pub fn merge_web_mappers(src: &str, context: &MergeContext) -> (r: (String, bool, bool))
    ensures
        r.0@ == web_mappers_text(
            src@,
            context.entity@,
            context.namespace@,
            context.web_namespace@,
        ),
        r.2 == !has_any_mapper(
            web_mappers_usings(src@, context.namespace@, context.web_namespace@),
            context.entity@,
        ),
        r.1 == (r.0@ != src@ || r.2),
{
    let e = context.entity.as_str();
    let u1 = using_exec(context.namespace.as_str());
    let u2 = using_exec(context.web_namespace.as_str());
    let s1 = ensure_using(src, u1.as_str());
    let s2 = ensure_using(s1.as_str(), u2.as_str());
    let s3 = ensure_using(s2.as_str(), "using Volo.Abp.Mapperly;");
    let s = ensure_using(s3.as_str(), "using Riok.Mapperly.Abstractions;");
    let marks = mapper_class_marks_exec(e);
    let ghost gm = mapper_class_marks(e@);
    let mut already = false;
    let mut i: usize = 0;
    while i < 4
        invariant
            i <= 4,
            marks.len() == 4,
            forall|k: int| 0 <= k < 4 ==> #[trigger] marks@[k]@ == gm[k],
            already == exists|k: int| 0 <= k < i && contains(s@, #[trigger] gm[k]),
        decreases 4 - i,
    {
        if str_contains(s.as_str(), marks[i].as_str()) {
            already = true;
        }
        i = i + 1;
    }
    if already {
        let changed = !str_eq(s.as_str(), src);
        (s, changed, false)
    } else {
        let mut out = s;
        let block = web_mapper_block(e);
        push_str(&mut out, block.as_str());
        (out, true, true)
    }
}

fn mapper_class_marks_exec(e: &str) -> (r: Vec<String>)
    ensures
        r@.len() == 4,
        forall|k: int| 0 <= k < 4 ==> #[trigger] r@[k]@ == mapper_class_marks(e@)[k],
{
    let mut a = copy_str("class ");
    push_str(&mut a, e);
    push_str(&mut a, "UpdateViewModelTo");
    push_str(&mut a, e);
    push_str(&mut a, "UpdateDtoMapper");
    let mut b = copy_str("class ");
    push_str(&mut b, e);
    push_str(&mut b, "DtoTo");
    push_str(&mut b, e);
    push_str(&mut b, "UpdateViewModelMapper");
    let mut c = copy_str("class ");
    push_str(&mut c, e);
    push_str(&mut c, "CreateViewModelTo");
    push_str(&mut c, e);
    push_str(&mut c, "CreateDtoMapper");
    let mut d = copy_str("class ");
    push_str(&mut d, e);
    push_str(&mut d, "DtoTo");
    push_str(&mut d, e);
    push_str(&mut d, "DetailViewModelMapper");
    let mut v: Vec<String> = Vec::new();
    v.push(a);
    v.push(b);
    v.push(c);
    v.push(d);
    v
}

/* ------------------------------ Razor view-model cleanup ------------------------------ */

pub open spec fn is_ascii_ws(c: char) -> bool {
    c == ' ' || c == '\t' || c == '\n' || c == '\x0C' || c == '\r'
}

/// The first position at or after `i` that is not ASCII white space.
pub open spec fn skip_ascii_ws(s: Seq<char>, i: int) -> int
    decreases s.len() - i,
{
    if 0 <= i < s.len() && is_ascii_ws(s[i]) {
        skip_ascii_ws(s, i + 1)
    } else {
        i
    }
}

/// A `[Mapper]` attribute line followed by the declaration of `class_name`.
pub open spec fn mapper_decl_pattern(class_name: Seq<char>) -> Seq<char> {
    "(?m)^[ \\t]*\\[Mapper(?:\\([^\\r\\n]*\\))?\\][ \\t]*\\r?\\n[ \\t]*public[ \\t]+partial[ \\t]+class[ \\t]+"@
        + escape_spec(class_name) + "\\b"@
}

/// `s` without the Mapperly class `class_name` (its attribute, body and the
/// white space after it); none when the class is not found whole.
pub open spec fn remove_class_spec(s: Seq<char>, class_name: Seq<char>) -> Option<Seq<char>> {
    match regex_first_match(mapper_decl_pattern(class_name), s) {
        None => None,
        Some(m) => match block_after(s, m.1) {
            None => None,
            Some(b) => Some(s.take(m.0) + s.skip(skip_ascii_ws(s, b.1 + 1))),
        },
    }
}

/// Removes the Mapperly class `class_name` from `source`; the flag says
/// whether it was there.
pub fn remove_mapperly_class(source: &str, class_name: &str) -> (r: Result<(String, bool), String>)
    ensures
        r is Err <==> !regex_compiles(mapper_decl_pattern(class_name@)),
        r matches Err(e) ==> e@ == invalid_pattern_msg(mapper_decl_pattern(class_name@)),
        r matches Ok(p) ==> match remove_class_spec(source@, class_name@) {
            Some(t) => p.0@ == t && p.1,
            None => p.0@ == source@ && !p.1,
        },
{
    let esc = regex_escape(class_name);
    let mut pattern = copy_str(
        "(?m)^[ \\t]*\\[Mapper(?:\\([^\\r\\n]*\\))?\\][ \\t]*\\r?\\n[ \\t]*public[ \\t]+partial[ \\t]+class[ \\t]+",
    );
    push_str(&mut pattern, esc.as_str());
    push_str(&mut pattern, "\\b");
    let found = match regex_find(pattern.as_str(), source) {
        Ok(f) => f,
        Err(_) => return Err(crate::merge::invalid_pattern(pattern.as_str())),
    };
    let (start, end) = match found {
        Some(m) => m,
        None => return Ok((copy_str(source), false)),
    };
    let cs = chars_of(source);
    let total = cs.len();
    let close = match crate::merge::block_after_exec(&cs, end) {
        Some(b) => b.1,
        None => return Ok((copy_str(source), false)),
    };
    let mut k = close + 1;
    while k < cs.len() && (cs[k] == ' ' || cs[k] == '\t' || cs[k] == '\n' || cs[k] == '\x0C' || cs[k] == '\r')
        invariant
            close + 1 <= k <= cs@.len(),
            skip_ascii_ws(cs@, close + 1) == skip_ascii_ws(cs@, k as int),
        decreases cs.len() - k,
    {
        k = k + 1;
    }
    let mut out = string_of_range(&cs, 0, start);
    let tail = string_of_range(&cs, k, cs.len());
    push_str(&mut out, tail.as_str());
    assert(cs@.subrange(0, start as int) =~= cs@.take(start as int));
    assert(cs@.subrange(k as int, cs@.len() as int) =~= cs@.skip(k as int));
    Ok((out, true))
}

/// The AutoMapper lines of the Razor view models of `e`.
pub open spec fn view_model_line_pattern(e: Seq<char>) -> Seq<char> {
    "(?m)^[ \\t]*CreateMap<"@ + escape_spec(e) + "Dto,[ \\t]*"@ + escape_spec(e)
        + "(?:Update|Detail)ViewModel>\\(\\);[ \\t]*\\r?\\n?"@
}

/// The Mapperly classes of the Razor view models of `e`.
pub open spec fn view_model_mappers(e: Seq<char>) -> Seq<Seq<char>> {
    Seq::empty()
        .push(e + "DtoTo"@ + e + "UpdateViewModelMapper"@)
        .push(e + "UpdateViewModelTo"@ + e + "UpdateDtoMapper"@)
        .push(e + "CreateViewModelTo"@ + e + "CreateDtoMapper"@)
        .push(e + "DtoTo"@ + e + "DetailViewModelMapper"@)
}

/// `s` without each class of `names`, with the number removed; the error
/// of the first pattern that does not compile.
pub open spec fn removal_fold(s: Seq<char>, names: Seq<Seq<char>>) -> Result<(Seq<char>, int), Seq<char>>
    decreases names.len(),
{
    if names.len() == 0 {
        Ok((s, 0))
    } else {
        match removal_fold(s, names.drop_last()) {
            Err(e) => Err(e),
            Ok(p) => if !regex_compiles(mapper_decl_pattern(names.last())) {
                Err(invalid_pattern_msg(mapper_decl_pattern(names.last())))
            } else {
                match remove_class_spec(p.0, names.last()) {
                    Some(t) => Ok((t, p.1 + 1)),
                    None => Ok(p),
                }
            },
        }
    }
}

/// The Web mappings without the Razor view-model maps and mappers of `e`,
/// with the number of pieces removed (the map lines count as one).
pub open spec fn cleanup_spec(s: Seq<char>, e: Seq<char>) -> Result<(Seq<char>, int), Seq<char>> {
    if !regex_compiles(view_model_line_pattern(e)) {
        Err(invalid_pattern_msg(view_model_line_pattern(e)))
    } else {
        let c0 = regex_replace_all_spec(view_model_line_pattern(e), s, Seq::empty());
        match removal_fold(c0, view_model_mappers(e)) {
            Err(m) => Err(m),
            Ok(p) => Ok((p.0, p.1 + if c0 != s { 1int } else { 0int })),
        }
    }
}

proof fn lemma_removal_error_stays(s: Seq<char>, names: Seq<Seq<char>>, i: int)
    requires
        0 <= i <= names.len(),
        removal_fold(s, names.take(i)) is Err,
    ensures
        removal_fold(s, names) == removal_fold(s, names.take(i)),
    decreases names.len() - i,
{
    if i < names.len() {
        assert(names.take(i + 1).drop_last() =~= names.take(i));
        lemma_removal_error_stays(s, names, i + 1);
    } else {
        assert(names.take(i) =~= names);
    }
}

/// Removes the Razor view-model maps and Mapperly classes of `entity` from
/// a Web mapping file, counting what was removed.
pub fn cleanup_razor_viewmodel_mappings(source: &str, entity: &str) -> (r: Result<(String, usize), String>)
    ensures
        match (r, cleanup_spec(source@, entity@)) {
            (Ok(a), Ok(b)) => a.0@ == b.0 && a.1 == b.1,
            (Err(a), Err(b)) => a@ == b,
            _ => false,
        },
{
    let esc = regex_escape(entity);
    let mut lp = copy_str("(?m)^[ \\t]*CreateMap<");
    push_str(&mut lp, esc.as_str());
    push_str(&mut lp, "Dto,[ \\t]*");
    push_str(&mut lp, esc.as_str());
    push_str(&mut lp, "(?:Update|Detail)ViewModel>\\(\\);[ \\t]*\\r?\\n?");
    let c0 = match regex_replace_all(lp.as_str(), source, "") {
        Ok(c) => c,
        Err(_) => return Err(crate::merge::invalid_pattern(lp.as_str())),
    };
    proof {
        reveal_strlit("");
        assert(""@ =~= Seq::<char>::empty());
    }
    let mut removed: usize = if str_eq(c0.as_str(), source) { 0 } else { 1 };
    let ghost base = c0@;
    let mut names: Vec<String> = Vec::new();
    let mut n1 = copy_str(entity);
    push_str(&mut n1, "DtoTo");
    push_str(&mut n1, entity);
    push_str(&mut n1, "UpdateViewModelMapper");
    names.push(n1);
    let mut n2 = copy_str(entity);
    push_str(&mut n2, "UpdateViewModelTo");
    push_str(&mut n2, entity);
    push_str(&mut n2, "UpdateDtoMapper");
    names.push(n2);
    let mut n3 = copy_str(entity);
    push_str(&mut n3, "CreateViewModelTo");
    push_str(&mut n3, entity);
    push_str(&mut n3, "CreateDtoMapper");
    names.push(n3);
    let mut n4 = copy_str(entity);
    push_str(&mut n4, "DtoTo");
    push_str(&mut n4, entity);
    push_str(&mut n4, "DetailViewModelMapper");
    names.push(n4);
    let ghost nv = crate::text::views(names@);
    assert(nv =~= view_model_mappers(entity@));
    let mut cleaned = c0;
    let mut i: usize = 0;
    let ghost extra: int = removed as int;
    assert(nv.take(0) =~= Seq::<Seq<char>>::empty());
    while i < names.len()
        invariant
            i <= names@.len(),
            names@.len() == 4,
            nv == crate::text::views(names@),
            nv == view_model_mappers(entity@),
            base == regex_replace_all_spec(view_model_line_pattern(entity@), source@, Seq::empty()),
            regex_compiles(view_model_line_pattern(entity@)),
            extra == if base != source@ { 1int } else { 0int },
            removed == extra + removal_fold(base, nv.take(i as int))->Ok_0.1,
            removal_fold(base, nv.take(i as int)) is Ok,
            cleaned@ == removal_fold(base, nv.take(i as int))->Ok_0.0,
            0 <= extra <= 1,
            removal_fold(base, nv.take(i as int))->Ok_0.1 <= i,
        decreases names.len() - i,
    {
        proof {
            assert(nv.take(i + 1).drop_last() =~= nv.take(i as int));
            assert(nv.take(i + 1).last() == nv[i as int]);
        }
        let (next, did) = match remove_mapperly_class(cleaned.as_str(), names[i].as_str()) {
            Ok(p) => p,
            Err(e) => {
                proof {
                    lemma_removal_error_stays(base, nv, i + 1);
                }
                return Err(e);
            },
        };
        cleaned = next;
        if did {
            removed = removed + 1;
        }
        i = i + 1;
    }
    assert(nv.take(4) =~= nv);
    Ok((cleaned, removed))
}

/// Law: a menu contributor that already holds the permissions `using`
/// directive and the entity's menu item is left unchanged by the merge.
pub proof fn lemma_contributor_registered_unchanged(src: Seq<char>, domain: Seq<char>, short: Seq<char>, ep: Seq<char>)
    requires
        contains(src, crate::text::trim(permissions_using(domain))),
        contains(src, menu_marker(short, ep)),
    ensures
        contributor_text(src, domain, short, ep) == src,
{
}

} // verus!
