//! Domain, repository, EF Core and application-service fragments of an
//! entity, built from its fields.
use crate::csharp::{attr_required_and_length, attr_spec, dto_type_for_field, dto_type_spec, nav_parts, nav_parts_spec};
use crate::models::{Field, FieldV, fields_view, nullable_filter_type_spec};
use crate::naming::{last_segment, last_segment_spec, lower_camel, plural, pluralize, to_lower_camel};
use crate::pattern::{regex_compiles, regex_replace_all, regex_replace_all_spec};
use crate::text::{
    chars_of, copy_str, decimal, decimal_exec, ends_with, ends_with_exec, eq_ignore_case, join,
    join_exec, lower, push_str, split, split_exec, str_eq, string_of_range, trim, trim_exec, views,
};
use vstd::prelude::*;

verus! {

broadcast use vstd::string::group_string_axioms;

/* ------------------------------ FRAGMENTS ------------------------------ */

pub open spec fn decl_line_spec(ty: Seq<char>, name: Seq<char>) -> Seq<char> {
    "public virtual "@ + ty + " "@ + name + " { get; set; }\n"@
}

fn decl_line(ty: &str, name: &str) -> (r: String)
    ensures
        r@ == decl_line_spec(ty@, name@),
{
    let mut r = String::new();
    push_str(&mut r, "public virtual ");
    push_str(&mut r, ty);
    push_str(&mut r, " ");
    push_str(&mut r, name);
    push_str(&mut r, " { get; set; }\n");
    r
}

pub open spec fn param_pair_spec(ty: Seq<char>, nl: Seq<char>) -> Seq<char> {
    ty + " "@ + nl + ", "@
}

fn param_pair(ty: &str, nl: &str) -> (r: String)
    ensures
        r@ == param_pair_spec(ty@, nl@),
{
    let mut r = String::new();
    push_str(&mut r, ty);
    push_str(&mut r, " ");
    push_str(&mut r, nl);
    push_str(&mut r, ", ");
    r
}

pub open spec fn not_blank_check_spec(nl: Seq<char>) -> Seq<char> {
    "Check.NotNullOrWhiteSpace("@ + nl + ", nameof("@ + nl + "));\n"@
}

fn not_blank_check(nl: &str) -> (r: String)
    ensures
        r@ == not_blank_check_spec(nl@),
{
    let mut r = String::new();
    push_str(&mut r, "Check.NotNullOrWhiteSpace(");
    push_str(&mut r, nl);
    push_str(&mut r, ", nameof(");
    push_str(&mut r, nl);
    push_str(&mut r, "));\n");
    r
}

pub open spec fn not_null_check_spec(nl: Seq<char>) -> Seq<char> {
    "Check.NotNull("@ + nl + ", nameof("@ + nl + "));\n"@
}

fn not_null_check(nl: &str) -> (r: String)
    ensures
        r@ == not_null_check_spec(nl@),
{
    let mut r = String::new();
    push_str(&mut r, "Check.NotNull(");
    push_str(&mut r, nl);
    push_str(&mut r, ", nameof(");
    push_str(&mut r, nl);
    push_str(&mut r, "));\n");
    r
}

pub open spec fn length_check_spec(nl: Seq<char>, entity: Seq<char>, name: Seq<char>) -> Seq<char> {
    "Check.Length("@ + nl + ", nameof("@ + nl + "), "@ + entity + "Consts."@ + name + "MaxLength);\n"@
}

fn length_check(nl: &str, entity: &str, name: &str) -> (r: String)
    ensures
        r@ == length_check_spec(nl@, entity@, name@),
{
    let mut r = String::new();
    push_str(&mut r, "Check.Length(");
    push_str(&mut r, nl);
    push_str(&mut r, ", nameof(");
    push_str(&mut r, nl);
    push_str(&mut r, "), ");
    push_str(&mut r, entity);
    push_str(&mut r, "Consts.");
    push_str(&mut r, name);
    push_str(&mut r, "MaxLength);\n");
    r
}

pub open spec fn const_line_spec(name: Seq<char>, max: Seq<char>) -> Seq<char> {
    "public const int "@ + name + "MaxLength = "@ + max + ";\n"@
}

fn const_line(name: &str, max: &str) -> (r: String)
    ensures
        r@ == const_line_spec(name@, max@),
{
    let mut r = String::new();
    push_str(&mut r, "public const int ");
    push_str(&mut r, name);
    push_str(&mut r, "MaxLength = ");
    push_str(&mut r, max);
    push_str(&mut r, ";\n");
    r
}

pub open spec fn assign_line_spec(name: Seq<char>, nl: Seq<char>) -> Seq<char> {
    name + " = "@ + nl + ";\n"@
}

fn assign_line(name: &str, nl: &str) -> (r: String)
    ensures
        r@ == assign_line_spec(name@, nl@),
{
    let mut r = String::new();
    push_str(&mut r, name);
    push_str(&mut r, " = ");
    push_str(&mut r, nl);
    push_str(&mut r, ";\n");
    r
}

pub open spec fn manager_assign_spec(el: Seq<char>, name: Seq<char>, nl: Seq<char>) -> Seq<char> {
    el + "."@ + name + " = "@ + nl + ";\n"@
}

fn manager_assign(el: &str, name: &str, nl: &str) -> (r: String)
    ensures
        r@ == manager_assign_spec(el@, name@, nl@),
{
    let mut r = String::new();
    push_str(&mut r, el);
    push_str(&mut r, ".");
    push_str(&mut r, name);
    push_str(&mut r, " = ");
    push_str(&mut r, nl);
    push_str(&mut r, ";\n");
    r
}

pub open spec fn filter_item_spec(ty: Seq<char>, nl: Seq<char>) -> Seq<char> {
    ty + "? "@ + nl + " = null"@
}

fn filter_item(ty: &str, nl: &str) -> (r: String)
    ensures
        r@ == filter_item_spec(ty@, nl@),
{
    let mut r = String::new();
    push_str(&mut r, ty);
    push_str(&mut r, "? ");
    push_str(&mut r, nl);
    push_str(&mut r, " = null");
    r
}

pub open spec fn nav_decl_spec(ns: Seq<char>) -> Seq<char> {
    "public "@ + ns + "? "@ + ns + " { get; set; } = null!;\n"@
}

fn nav_decl(ns: &str) -> (r: String)
    ensures
        r@ == nav_decl_spec(ns@),
{
    let mut r = String::new();
    push_str(&mut r, "public ");
    push_str(&mut r, ns);
    push_str(&mut r, "? ");
    push_str(&mut r, ns);
    push_str(&mut r, " { get; set; } = null!;\n");
    r
}

pub open spec fn nav_join_spec(var: Seq<char>, ns: Seq<char>, el: Seq<char>, name: Seq<char>, plural: Seq<char>) -> Seq<char> {
    "join "@ + var + " in dbContext.Set<"@ + ns + ">() on "@ + el + "."@ + name + " equals "@ + var + ".Id into "@ + plural + "\nfrom "@ + var + " in "@ + plural + ".DefaultIfEmpty()\n"@
}

fn nav_join(var: &str, ns: &str, el: &str, name: &str, plural: &str) -> (r: String)
    ensures
        r@ == nav_join_spec(var@, ns@, el@, name@, plural@),
{
    let mut r = String::new();
    push_str(&mut r, "join ");
    push_str(&mut r, var);
    push_str(&mut r, " in dbContext.Set<");
    push_str(&mut r, ns);
    push_str(&mut r, ">() on ");
    push_str(&mut r, el);
    push_str(&mut r, ".");
    push_str(&mut r, name);
    push_str(&mut r, " equals ");
    push_str(&mut r, var);
    push_str(&mut r, ".Id into ");
    push_str(&mut r, plural);
    push_str(&mut r, "\nfrom ");
    push_str(&mut r, var);
    push_str(&mut r, " in ");
    push_str(&mut r, plural);
    push_str(&mut r, ".DefaultIfEmpty()\n");
    r
}

pub open spec fn nav_select_list_spec(ns: Seq<char>, var: Seq<char>) -> Seq<char> {
    ns + " = "@ + var + ",\n"@
}

fn nav_select_list(ns: &str, var: &str) -> (r: String)
    ensures
        r@ == nav_select_list_spec(ns@, var@),
{
    let mut r = String::new();
    push_str(&mut r, ns);
    push_str(&mut r, " = ");
    push_str(&mut r, var);
    push_str(&mut r, ",\n");
    r
}

pub open spec fn nav_select_single_spec(ns: Seq<char>, var: Seq<char>, name: Seq<char>) -> Seq<char> {
    ns + " = dbContext.Set<"@ + ns + ">().FirstOrDefault("@ + var + " => "@ + var + ".Id == x."@ + name + "),\n"@
}

fn nav_select_single(ns: &str, var: &str, name: &str) -> (r: String)
    ensures
        r@ == nav_select_single_spec(ns@, var@, name@),
{
    let mut r = String::new();
    push_str(&mut r, ns);
    push_str(&mut r, " = dbContext.Set<");
    push_str(&mut r, ns);
    push_str(&mut r, ">().FirstOrDefault(");
    push_str(&mut r, var);
    push_str(&mut r, " => ");
    push_str(&mut r, var);
    push_str(&mut r, ".Id == x.");
    push_str(&mut r, name);
    push_str(&mut r, "),\n");
    r
}

pub open spec fn fk_config_spec(ns: Seq<char>, req: Seq<char>, name: Seq<char>, del: Seq<char>) -> Seq<char> {
    "b.HasOne<"@ + ns + ">().WithMany()"@ + req + ".HasForeignKey(x => x."@ + name + ").OnDelete("@ + del + ");\n"@
}

fn fk_config(ns: &str, req: &str, name: &str, del: &str) -> (r: String)
    ensures
        r@ == fk_config_spec(ns@, req@, name@, del@),
{
    let mut r = String::new();
    push_str(&mut r, "b.HasOne<");
    push_str(&mut r, ns);
    push_str(&mut r, ">().WithMany()");
    push_str(&mut r, req);
    push_str(&mut r, ".HasForeignKey(x => x.");
    push_str(&mut r, name);
    push_str(&mut r, ").OnDelete(");
    push_str(&mut r, del);
    push_str(&mut r, ");\n");
    r
}

pub open spec fn like_nav_spec(p: Seq<char>, entity: Seq<char>, f: Seq<char>) -> Seq<char> {
    ".WhereIf(!string.IsNullOrWhiteSpace("@ + p + "), x => EF.Functions.Like(x."@ + entity + "."@ + f + ".Trim(), $\"%{"@ + p + ".Trim()}%\"))\n"@
}

fn like_nav(p: &str, entity: &str, f: &str) -> (r: String)
    ensures
        r@ == like_nav_spec(p@, entity@, f@),
{
    let mut r = String::new();
    push_str(&mut r, ".WhereIf(!string.IsNullOrWhiteSpace(");
    push_str(&mut r, p);
    push_str(&mut r, "), x => EF.Functions.Like(x.");
    push_str(&mut r, entity);
    push_str(&mut r, ".");
    push_str(&mut r, f);
    push_str(&mut r, ".Trim(), $\"%{");
    push_str(&mut r, p);
    push_str(&mut r, ".Trim()}%\"))\n");
    r
}

pub open spec fn like_entity_spec(p: Seq<char>, f: Seq<char>) -> Seq<char> {
    ".WhereIf(!string.IsNullOrWhiteSpace("@ + p + "), x => EF.Functions.Like(x."@ + f + ".Trim(), $\"%{"@ + p + ".Trim()}%\"))\n"@
}

fn like_entity(p: &str, f: &str) -> (r: String)
    ensures
        r@ == like_entity_spec(p@, f@),
{
    let mut r = String::new();
    push_str(&mut r, ".WhereIf(!string.IsNullOrWhiteSpace(");
    push_str(&mut r, p);
    push_str(&mut r, "), x => EF.Functions.Like(x.");
    push_str(&mut r, f);
    push_str(&mut r, ".Trim(), $\"%{");
    push_str(&mut r, p);
    push_str(&mut r, ".Trim()}%\"))\n");
    r
}

pub open spec fn value_nav_spec(p: Seq<char>, entity: Seq<char>, f: Seq<char>) -> Seq<char> {
    ".WhereIf("@ + p + ".HasValue, x => x."@ + entity + "."@ + f + " == "@ + p + ".Value)\n"@
}

fn value_nav(p: &str, entity: &str, f: &str) -> (r: String)
    ensures
        r@ == value_nav_spec(p@, entity@, f@),
{
    let mut r = String::new();
    push_str(&mut r, ".WhereIf(");
    push_str(&mut r, p);
    push_str(&mut r, ".HasValue, x => x.");
    push_str(&mut r, entity);
    push_str(&mut r, ".");
    push_str(&mut r, f);
    push_str(&mut r, " == ");
    push_str(&mut r, p);
    push_str(&mut r, ".Value)\n");
    r
}

pub open spec fn value_entity_spec(p: Seq<char>, f: Seq<char>) -> Seq<char> {
    ".WhereIf("@ + p + ".HasValue, x => x."@ + f + " == "@ + p + ".Value)\n"@
}

fn value_entity(p: &str, f: &str) -> (r: String)
    ensures
        r@ == value_entity_spec(p@, f@),
{
    let mut r = String::new();
    push_str(&mut r, ".WhereIf(");
    push_str(&mut r, p);
    push_str(&mut r, ".HasValue, x => x.");
    push_str(&mut r, f);
    push_str(&mut r, " == ");
    push_str(&mut r, p);
    push_str(&mut r, ".Value)\n");
    r
}

pub open spec fn guid_nav_spec(p: Seq<char>, nav: Seq<char>) -> Seq<char> {
    ".WhereIf("@ + p + " != null && "@ + p + " != Guid.Empty, x => x."@ + nav + " != null && x."@ + nav + ".Id == "@ + p + ")\n"@
}

fn guid_nav(p: &str, nav: &str) -> (r: String)
    ensures
        r@ == guid_nav_spec(p@, nav@),
{
    let mut r = String::new();
    push_str(&mut r, ".WhereIf(");
    push_str(&mut r, p);
    push_str(&mut r, " != null && ");
    push_str(&mut r, p);
    push_str(&mut r, " != Guid.Empty, x => x.");
    push_str(&mut r, nav);
    push_str(&mut r, " != null && x.");
    push_str(&mut r, nav);
    push_str(&mut r, ".Id == ");
    push_str(&mut r, p);
    push_str(&mut r, ")\n");
    r
}

pub open spec fn guid_entity_spec(p: Seq<char>, f: Seq<char>) -> Seq<char> {
    ".WhereIf("@ + p + " != null && "@ + p + " != Guid.Empty, x => x."@ + f + " == "@ + p + ")\n"@
}

fn guid_entity(p: &str, f: &str) -> (r: String)
    ensures
        r@ == guid_entity_spec(p@, f@),
{
    let mut r = String::new();
    push_str(&mut r, ".WhereIf(");
    push_str(&mut r, p);
    push_str(&mut r, " != null && ");
    push_str(&mut r, p);
    push_str(&mut r, " != Guid.Empty, x => x.");
    push_str(&mut r, f);
    push_str(&mut r, " == ");
    push_str(&mut r, p);
    push_str(&mut r, ")\n");
    r
}

pub open spec fn text_nav_init_spec(entity: Seq<char>, f: Seq<char>) -> Seq<char> {
    ".WhereIf(!string.IsNullOrWhiteSpace(filterText), x => EF.Functions.Like(x."@ + entity + "."@ + f + ".Trim(), $\"%{filterText.Trim()}%\"))\n"@
}

fn text_nav_init(entity: &str, f: &str) -> (r: String)
    ensures
        r@ == text_nav_init_spec(entity@, f@),
{
    let mut r = String::new();
    push_str(&mut r, ".WhereIf(!string.IsNullOrWhiteSpace(filterText), x => EF.Functions.Like(x.");
    push_str(&mut r, entity);
    push_str(&mut r, ".");
    push_str(&mut r, f);
    push_str(&mut r, ".Trim(), $\"%{filterText.Trim()}%\"))\n");
    r
}

pub open spec fn text_entity_init_spec(f: Seq<char>) -> Seq<char> {
    ".WhereIf(!string.IsNullOrWhiteSpace(filterText), x => EF.Functions.Like(x."@ + f + ".Trim(), $\"%{filterText.Trim()}%\"))\n"@
}

fn text_entity_init(f: &str) -> (r: String)
    ensures
        r@ == text_entity_init_spec(f@),
{
    let mut r = String::new();
    push_str(&mut r, ".WhereIf(!string.IsNullOrWhiteSpace(filterText), x => EF.Functions.Like(x.");
    push_str(&mut r, f);
    push_str(&mut r, ".Trim(), $\"%{filterText.Trim()}%\"))\n");
    r
}

pub open spec fn dto_line_spec(ty: Seq<char>, name: Seq<char>) -> Seq<char> {
    "public "@ + ty + " "@ + name + " { get; set; }\n"@
}

fn dto_line(ty: &str, name: &str) -> (r: String)
    ensures
        r@ == dto_line_spec(ty@, name@),
{
    let mut r = String::new();
    push_str(&mut r, "public ");
    push_str(&mut r, ty);
    push_str(&mut r, " ");
    push_str(&mut r, name);
    push_str(&mut r, " { get; set; }\n");
    r
}

pub open spec fn with_nav_dto_spec(ns: Seq<char>) -> Seq<char> {
    "public "@ + ns + "Dto? "@ + ns + " { get; set; } = null!;\n"@
}

fn with_nav_dto(ns: &str) -> (r: String)
    ensures
        r@ == with_nav_dto_spec(ns@),
{
    let mut r = String::new();
    push_str(&mut r, "public ");
    push_str(&mut r, ns);
    push_str(&mut r, "Dto? ");
    push_str(&mut r, ns);
    push_str(&mut r, " { get; set; } = null!;\n");
    r
}

pub open spec fn guid_check_spec(n: Seq<char>, label: Seq<char>) -> Seq<char> {
    "if (input."@ + n + " == default)\n    throw new UserFriendlyException(L[\"The {0} field is required.\", L[\""@ + label + "\"]].Value);\n\n"@
}

fn guid_check(n: &str, label: &str) -> (r: String)
    ensures
        r@ == guid_check_spec(n@, label@),
{
    let mut r = String::new();
    push_str(&mut r, "if (input.");
    push_str(&mut r, n);
    push_str(&mut r, " == default)\n    throw new UserFriendlyException(L[\"The {0} field is required.\", L[\"");
    push_str(&mut r, label);
    push_str(&mut r, "\"]].Value);\n\n");
    r
}

pub open spec fn input_arg_spec(name: Seq<char>) -> Seq<char> {
    "input."@ + name
}

fn input_arg(name: &str) -> (r: String)
    ensures
        r@ == input_arg_spec(name@),
{
    let mut r = String::new();
    push_str(&mut r, "input.");
    push_str(&mut r, name);
    r
}
pub open spec fn prop_config_head_spec(name: Seq<char>, entity: Seq<char>) -> Seq<char> {
    "b.Property(x => x."@ + name + ").HasColumnName(nameof("@ + entity + "."@ + name + "))"@
}

fn prop_config_head(name: &str, entity: &str) -> (r: String)
    ensures
        r@ == prop_config_head_spec(name@, entity@),
{
    let mut r = String::new();
    push_str(&mut r, "b.Property(x => x.");
    push_str(&mut r, name);
    push_str(&mut r, ").HasColumnName(nameof(");
    push_str(&mut r, entity);
    push_str(&mut r, ".");
    push_str(&mut r, name);
    push_str(&mut r, "))");
    r
}

pub open spec fn max_len_call_spec(entity: Seq<char>, name: Seq<char>) -> Seq<char> {
    ".HasMaxLength("@ + entity + "Consts."@ + name + "MaxLength)"@
}

fn max_len_call(entity: &str, name: &str) -> (r: String)
    ensures
        r@ == max_len_call_spec(entity@, name@),
{
    let mut r = String::new();
    push_str(&mut r, ".HasMaxLength(");
    push_str(&mut r, entity);
    push_str(&mut r, "Consts.");
    push_str(&mut r, name);
    push_str(&mut r, "MaxLength)");
    r
}

pub open spec fn len_config_spec(name: Seq<char>, entity: Seq<char>) -> Seq<char> {
    "b.Property(x => x."@ + name + ").HasMaxLength("@ + entity + "Consts."@ + name + "MaxLength);\n"@
}

fn len_config(name: &str, entity: &str) -> (r: String)
    ensures
        r@ == len_config_spec(name@, entity@),
{
    let mut r = String::new();
    push_str(&mut r, "b.Property(x => x.");
    push_str(&mut r, name);
    push_str(&mut r, ").HasMaxLength(");
    push_str(&mut r, entity);
    push_str(&mut r, "Consts.");
    push_str(&mut r, name);
    push_str(&mut r, "MaxLength);\n");
    r
}

/* ------------------------------ FIELD FACTS ------------------------------ */

pub open spec fn name_lower(f: FieldV) -> Seq<char> {
    lower_camel(f.name)
}

/// The property type in the domain entity.
pub open spec fn domain_type(f: FieldV) -> Seq<char> {
    if lower(f.ftype) == lower("textarea"@) {
        "string"@
    } else if f.ftype == "enum"@ {
        match f.navigation {
            Some(nav) => last_segment_spec(nav),
            None => "Enum"@,
        }
    } else {
        f.ftype
    }
}

/// The domain type, nullable unless the field is required.
pub open spec fn domain_type_opt(f: FieldV) -> Seq<char> {
    if f.required {
        domain_type(f)
    } else {
        domain_type(f) + "?"@
    }
}

pub open spec fn is_stringy(f: FieldV) -> bool {
    f.ftype == "string"@ || lower(f.ftype) == lower("textarea"@)
}

/// The length limit of a `string` domain property.
pub open spec fn string_limit(f: FieldV) -> Option<int> {
    if domain_type(f) == "string"@ {
        f.max_length
    } else {
        None
    }
}

/// The navigation target of a foreign key, without its display suffix.
pub open spec fn nav_target(f: FieldV) -> Option<Seq<char>> {
    match nav_parts_spec(f) {
        Some(p) => Some(p.0),
        None => None,
    }
}

pub open spec fn is_guid_nav(f: FieldV) -> bool {
    f.ftype == "Guid"@ && f.navigation is Some
}

pub open spec fn raw_nav_short(f: FieldV) -> Seq<char> {
    match f.navigation {
        Some(n) => last_segment_spec(n),
        None => Seq::empty(),
    }
}

/// The parts of the backend fragments that each field contributes to.
pub enum BackendPart {
    FieldDecls,
    CtorParams,
    FieldAssignments,
    Consts,
    ManagerChecks,
    ManagerAssignments,
    NavDecls,
    NavJoins,
    NavSelectsList,
    NavSelectsSingle,
    FkConfigs,
    NavFilters,
    EntityFilters,
    CreateDtoProps,
    DtoProps,
    WithNavDtoProps,
    GetInputProps,
    RequiredGuidChecks,
    PropertyConfigs,
    LengthConfigs,
}

pub open spec fn field_assignments(entity: Seq<char>, f: FieldV) -> Seq<char> {
    let nl = name_lower(f);
    (if f.required {
        if domain_type(f) == "string"@ {
            not_blank_check_spec(nl)
        } else {
            not_null_check_spec(nl)
        }
    } else {
        Seq::empty()
    }) + (if string_limit(f) is Some {
        length_check_spec(nl, entity, f.name)
    } else {
        Seq::empty()
    }) + assign_line_spec(f.name, nl)
}

pub open spec fn manager_checks(entity: Seq<char>, f: FieldV) -> Seq<char> {
    let nl = name_lower(f);
    if !f.required {
        Seq::empty()
    } else if domain_type(f) == "string"@ {
        not_blank_check_spec(nl) + if f.max_length is Some {
            length_check_spec(nl, entity, f.name)
        } else {
            Seq::empty()
        }
    } else {
        not_null_check_spec(nl)
    }
}

/// A navigation part of a `Guid` foreign key, built from the target's class
/// name, its variable name and the field.
pub open spec fn guid_nav_part(f: FieldV, entity: Seq<char>, p: BackendPart) -> Seq<char> {
    let ns = last_segment_spec(nav_target(f)->Some_0);
    let var = lower_camel(ns);
    match p {
        BackendPart::NavDecls => nav_decl_spec(ns),
        BackendPart::NavJoins => nav_join_spec(var, ns, lower_camel(entity), f.name, plural(var)),
        BackendPart::NavSelectsList => nav_select_list_spec(ns, var),
        BackendPart::NavSelectsSingle => nav_select_single_spec(ns, var, f.name),
        BackendPart::FkConfigs => fk_config_spec(
            ns,
            if f.required {
                ".IsRequired()"@
            } else {
                Seq::empty()
            },
            f.name,
            if f.required {
                "DeleteBehavior.Cascade"@
            } else {
                "DeleteBehavior.SetNull"@
            },
        ),
        _ => Seq::empty(),
    }
}

pub open spec fn filter_part(entity: Seq<char>, f: FieldV, nav_side: bool) -> Seq<char> {
    let p = name_lower(f);
    let t = f.ftype;
    if !f.filterable {
        Seq::empty()
    } else if f.navigation is None {
        if t == "string"@ || t == "textarea"@ || t == "Textarea"@ {
            if nav_side {
                like_nav_spec(p, entity, f.name)
            } else {
                like_entity_spec(p, f.name)
            }
        } else if t == "int"@ || t == "long"@ || t == "bool"@ || t == "DateTime"@ || t == "Guid"@
            || t == "decimal"@ {
            if nav_side {
                value_nav_spec(p, entity, f.name)
            } else {
                value_entity_spec(p, f.name)
            }
        } else {
            Seq::empty()
        }
    } else if t == "Guid"@ {
        if nav_side {
            guid_nav_spec(p, raw_nav_short(f))
        } else {
            guid_entity_spec(p, f.name)
        }
    } else {
        Seq::empty()
    }
}

pub open spec fn backend_part(entity: Seq<char>, f: FieldV, p: BackendPart) -> Seq<char> {
    match p {
        BackendPart::FieldDecls => decl_line_spec(domain_type_opt(f), f.name),
        BackendPart::CtorParams => param_pair_spec(domain_type_opt(f), name_lower(f)),
        BackendPart::FieldAssignments => field_assignments(entity, f),
        BackendPart::Consts => match string_limit(f) {
            Some(m) => const_line_spec(f.name, decimal(m)),
            None => Seq::empty(),
        },
        BackendPart::ManagerChecks => manager_checks(entity, f),
        BackendPart::ManagerAssignments => manager_assign_spec(lower_camel(entity), f.name, name_lower(f)),
        BackendPart::NavDecls | BackendPart::NavJoins | BackendPart::NavSelectsList
        | BackendPart::NavSelectsSingle | BackendPart::FkConfigs => if f.ftype == "Guid"@
            && nav_target(f) is Some {
            guid_nav_part(f, entity, p)
        } else {
            Seq::empty()
        },
        BackendPart::NavFilters => filter_part(entity, f, true),
        BackendPart::EntityFilters => filter_part(entity, f, false),
        BackendPart::CreateDtoProps => attr_spec(f, entity) + dto_line_spec(dto_type_spec(f), f.name),
        BackendPart::DtoProps => dto_line_spec(dto_type_spec(f), f.name),
        BackendPart::WithNavDtoProps => if is_guid_nav(f) {
            with_nav_dto_spec(raw_nav_short(f))
        } else {
            Seq::empty()
        },
        BackendPart::GetInputProps => if f.filterable {
            dto_line_spec(nullable_filter_type_spec(f), f.name)
        } else {
            Seq::empty()
        },
        BackendPart::PropertyConfigs => prop_config_head_spec(f.name, entity) + (if is_stringy(f)
            && f.required {
            ".IsRequired()"@
        } else {
            Seq::empty()
        }) + (if is_stringy(f) && f.max_length is Some {
            max_len_call_spec(entity, f.name)
        } else {
            Seq::empty()
        }) + ";\n"@,
        BackendPart::LengthConfigs => if is_stringy(f) && f.max_length is Some {
            len_config_spec(f.name, entity)
        } else {
            Seq::empty()
        },
        BackendPart::RequiredGuidChecks => if f.ftype == "Guid"@ && f.required {
            guid_check_spec(
                f.name,
                match f.navigation {
                    Some(n) => last_segment_spec(n),
                    None => f.name,
                },
            )
        } else {
            Seq::empty()
        },
    }
}

/// The contributions of all fields to a part, in field order.
#[verifier::opaque]
pub open spec fn backend_gather(entity: Seq<char>, fs: Seq<FieldV>, p: BackendPart) -> Seq<char>
    decreases fs.len(),
{
    if fs.len() == 0 {
        Seq::empty()
    } else {
        backend_gather(entity, fs.drop_last(), p) + backend_part(entity, fs.last(), p)
    }
}

/// The filter parameters of the filterable fields.
#[verifier::opaque]
pub open spec fn filter_items(fs: Seq<FieldV>) -> Seq<Seq<char>>
    decreases fs.len(),
{
    if fs.len() == 0 {
        Seq::empty()
    } else {
        let f = fs.last();
        filter_items(fs.drop_last()) + if f.filterable {
            seq![
                filter_item_spec(
                    if f.ftype == "Guid"@ && nav_target(f) is Some {
                        "Guid"@
                    } else {
                        domain_type(f)
                    },
                    name_lower(f),
                ),
            ]
        } else {
            Seq::empty()
        }
    }
}

/// The names of the filterable fields' parameters.
#[verifier::opaque]
pub open spec fn filter_names(fs: Seq<FieldV>) -> Seq<Seq<char>>
    decreases fs.len(),
{
    if fs.len() == 0 {
        Seq::empty()
    } else {
        filter_names(fs.drop_last()) + if fs.last().filterable {
            seq![name_lower(fs.last())]
        } else {
            Seq::empty()
        }
    }
}

/// `input.<Name>` for the fields that `filtered_only` selects.
#[verifier::opaque]
pub open spec fn input_args(fs: Seq<FieldV>, filtered_only: bool) -> Seq<Seq<char>>
    decreases fs.len(),
{
    if fs.len() == 0 {
        Seq::empty()
    } else {
        input_args(fs.drop_last(), filtered_only) + if !filtered_only || fs.last().filterable {
            seq![input_arg_spec(fs.last().name)]
        } else {
            Seq::empty()
        }
    }
}

/// The name of the first field, from the front, that `visible` and the text
/// types select.
pub open spec fn first_text_field(fs: Seq<FieldV>, visible: bool) -> Option<Seq<char>>
    decreases fs.len(),
{
    if fs.len() == 0 {
        None
    } else if is_stringy(fs[0]) && (!visible || fs[0].show_in_ui) {
        Some(fs[0].name)
    } else {
        first_text_field(fs.drop_first(), visible)
    }
}

/// The field searched by the free-text filter: the first visible text
/// field, else the first text field.
pub open spec fn search_field(fs: Seq<FieldV>) -> Option<Seq<char>> {
    match first_text_field(fs, true) {
        Some(n) => Some(n),
        None => first_text_field(fs, false),
    }
}

pub open spec fn filter_text_init(entity: Seq<char>, fs: Seq<FieldV>, nav_side: bool) -> Seq<char> {
    match search_field(fs) {
        Some(n) => if nav_side {
            text_nav_init_spec(entity, n)
        } else {
            text_entity_init_spec(n)
        },
        None => ".WhereIf(!string.IsNullOrWhiteSpace(filterText), x => true)\n"@,
    }
}

/// `s` without every trailing repetition of `p`.
pub open spec fn strip_suffix_all(s: Seq<char>, p: Seq<char>) -> Seq<char>
    decreases s.len(),
{
    if p.len() > 0 && ends_with(s, p) {
        strip_suffix_all(s.take(s.len() - p.len()), p)
    } else {
        s
    }
}

pub open spec fn type_word_pattern() -> Seq<char> {
    "\\s*\\b[\\w\\?]+\\s+"@
}

/// The parameter names of a parameter list: the list with every type word
/// removed, split at commas, trimmed, empty pieces dropped.
pub open spec fn param_names_of(params: Seq<char>) -> Seq<char> {
    let stripped = if regex_compiles(type_word_pattern()) {
        regex_replace_all_spec(type_word_pattern(), params, Seq::empty())
    } else {
        params
    };
    join(
        split(stripped, ',').map_values(|s: Seq<char>| trim(s)).filter(|s: Seq<char>| s.len() > 0),
        ", "@,
    )
}

pub open spec fn with_commas(items: Seq<Seq<char>>) -> Seq<char>
    decreases items.len(),
{
    if items.len() == 0 {
        Seq::empty()
    } else {
        with_commas(items.drop_last()) + items.last() + ",\n"@
    }
}

pub open spec fn base_filter() -> Seq<char> {
    "string? filterText = null"@
}

/* ------------------------------ FIELD FACTS, COMPUTED ------------------------------ */

fn nl_of(f: &Field) -> (r: String)
    ensures
        r@ == name_lower(f@),
{
    to_lower_camel(f.name.as_str())
}

fn domain_type_of(f: &Field) -> (r: String)
    ensures
        r@ == domain_type(f@),
{
    if eq_ignore_case(f.ftype.as_str(), "textarea") {
        copy_str("string")
    } else if str_eq(f.ftype.as_str(), "enum") {
        match &f.navigation {
            Some(nav) => last_segment(nav.as_str()),
            None => copy_str("Enum"),
        }
    } else {
        copy_str(f.ftype.as_str())
    }
}

fn domain_type_opt_of(f: &Field) -> (r: String)
    ensures
        r@ == domain_type_opt(f@),
{
    let mut t = domain_type_of(f);
    if !f.required {
        push_str(&mut t, "?");
    }
    t
}

fn stringy(f: &Field) -> (r: bool)
    ensures
        r == is_stringy(f@),
{
    str_eq(f.ftype.as_str(), "string") || eq_ignore_case(f.ftype.as_str(), "textarea")
}

fn string_limit_of(f: &Field) -> (r: Option<i32>)
    ensures
        match r {
            Some(m) => string_limit(f@) == Some(m as int),
            None => string_limit(f@) is None,
        },
{
    let t = domain_type_of(f);
    if str_eq(t.as_str(), "string") {
        f.max_length
    } else {
        None
    }
}

fn nav_target_of(f: &Field) -> (r: Option<String>)
    ensures
        match r {
            Some(t) => nav_target(f@) == Some(t@),
            None => nav_target(f@) is None,
        },
{
    match nav_parts(f) {
        Some((t, _)) => Some(t),
        None => None,
    }
}

fn raw_nav_short_of(f: &Field) -> (r: String)
    ensures
        r@ == raw_nav_short(f@),
{
    match &f.navigation {
        Some(n) => last_segment(n.as_str()),
        None => String::new(),
    }
}

/* ------------------------------ PARTS, COMPUTED ------------------------------ */

fn assignments_exec(entity: &str, f: &Field) -> (r: String)
    ensures
        r@ == backend_part(entity@, f@, BackendPart::FieldAssignments),
{
    let nl = nl_of(f);
    let t = domain_type_of(f);
    let mut r = String::new();
    if f.required {
        if str_eq(t.as_str(), "string") {
            push_str(&mut r, not_blank_check(nl.as_str()).as_str());
        } else {
            push_str(&mut r, not_null_check(nl.as_str()).as_str());
        }
    }
    if string_limit_of(f).is_some() {
        push_str(&mut r, length_check(nl.as_str(), entity, f.name.as_str()).as_str());
    }
    push_str(&mut r, assign_line(f.name.as_str(), nl.as_str()).as_str());
    r
}

fn consts_exec(f: &Field) -> (r: String)
    ensures
        r@ == backend_part(seq![], f@, BackendPart::Consts),
{
    match string_limit_of(f) {
        Some(m) => {
            let d = decimal_exec(m as i64);
            const_line(f.name.as_str(), d.as_str())
        },
        None => String::new(),
    }
}

fn manager_checks_exec(entity: &str, f: &Field) -> (r: String)
    ensures
        r@ == backend_part(entity@, f@, BackendPart::ManagerChecks),
{
    let nl = nl_of(f);
    let t = domain_type_of(f);
    if !f.required {
        String::new()
    } else if str_eq(t.as_str(), "string") {
        let mut r = not_blank_check(nl.as_str());
        if f.max_length.is_some() {
            push_str(&mut r, length_check(nl.as_str(), entity, f.name.as_str()).as_str());
        }
        r
    } else {
        not_null_check(nl.as_str())
    }
}

/// The navigation parts of a field, in the order of `BackendPart`.
fn nav_parts_exec(entity: &str, f: &Field) -> (r: (String, String, String, String, String))
    ensures
        r.0@ == backend_part(entity@, f@, BackendPart::NavDecls),
        r.1@ == backend_part(entity@, f@, BackendPart::NavJoins),
        r.2@ == backend_part(entity@, f@, BackendPart::NavSelectsList),
        r.3@ == backend_part(entity@, f@, BackendPart::NavSelectsSingle),
        r.4@ == backend_part(entity@, f@, BackendPart::FkConfigs),
{
    match nav_target_of(f) {
        Some(q) => if str_eq(f.ftype.as_str(), "Guid") {
            let ns = last_segment(q.as_str());
            let var = to_lower_camel(ns.as_str());
            let el = to_lower_camel(entity);
            let pl = pluralize(var.as_str());
            let req = if f.required {
                ".IsRequired()"
            } else {
                ""
            };
            let del = if f.required {
                "DeleteBehavior.Cascade"
            } else {
                "DeleteBehavior.SetNull"
            };
            proof {
                reveal_strlit("");
            }
            (
                nav_decl(ns.as_str()),
                nav_join(var.as_str(), ns.as_str(), el.as_str(), f.name.as_str(), pl.as_str()),
                nav_select_list(ns.as_str(), var.as_str()),
                nav_select_single(ns.as_str(), var.as_str(), f.name.as_str()),
                fk_config(ns.as_str(), req, f.name.as_str(), del),
            )
        } else {
            (String::new(), String::new(), String::new(), String::new(), String::new())
        },
        None => (String::new(), String::new(), String::new(), String::new(), String::new()),
    }
}

fn filter_exec(entity: &str, f: &Field, nav_side: bool) -> (r: String)
    ensures
        r@ == filter_part(entity@, f@, nav_side),
{
    let p = nl_of(f);
    let t = f.ftype.as_str();
    if !f.filterable {
        String::new()
    } else if f.navigation.is_none() {
        if str_eq(t, "string") || str_eq(t, "textarea") || str_eq(t, "Textarea") {
            if nav_side {
                like_nav(p.as_str(), entity, f.name.as_str())
            } else {
                like_entity(p.as_str(), f.name.as_str())
            }
        } else if str_eq(t, "int") || str_eq(t, "long") || str_eq(t, "bool") || str_eq(t, "DateTime")
            || str_eq(t, "Guid") || str_eq(t, "decimal") {
            if nav_side {
                value_nav(p.as_str(), entity, f.name.as_str())
            } else {
                value_entity(p.as_str(), f.name.as_str())
            }
        } else {
            String::new()
        }
    } else if str_eq(t, "Guid") {
        if nav_side {
            let ns = raw_nav_short_of(f);
            guid_nav(p.as_str(), ns.as_str())
        } else {
            guid_entity(p.as_str(), f.name.as_str())
        }
    } else {
        String::new()
    }
}

fn dto_exec(f: &Field) -> (r: String)
    ensures
        r@ == backend_part(seq![], f@, BackendPart::DtoProps),
{
    let t = dto_type_for_field(f);
    dto_line(t.as_str(), f.name.as_str())
}

fn with_nav_dto_exec(f: &Field) -> (r: String)
    ensures
        r@ == backend_part(seq![], f@, BackendPart::WithNavDtoProps),
{
    if str_eq(f.ftype.as_str(), "Guid") && f.navigation.is_some() {
        let ns = raw_nav_short_of(f);
        with_nav_dto(ns.as_str())
    } else {
        String::new()
    }
}

fn get_input_exec(f: &Field) -> (r: String)
    ensures
        r@ == backend_part(seq![], f@, BackendPart::GetInputProps),
{
    if f.filterable {
        let t = f.nullable_filter_type();
        dto_line(t.as_str(), f.name.as_str())
    } else {
        String::new()
    }
}

fn guid_check_exec(f: &Field) -> (r: String)
    ensures
        r@ == backend_part(seq![], f@, BackendPart::RequiredGuidChecks),
{
    if str_eq(f.ftype.as_str(), "Guid") && f.required {
        let label = match &f.navigation {
            Some(n) => last_segment(n.as_str()),
            None => copy_str(f.name.as_str()),
        };
        guid_check(f.name.as_str(), label.as_str())
    } else {
        String::new()
    }
}

fn property_config_exec(entity: &str, f: &Field) -> (r: String)
    ensures
        r@ == backend_part(entity@, f@, BackendPart::PropertyConfigs),
{
    let mut r = prop_config_head(f.name.as_str(), entity);
    let s = stringy(f);
    if s && f.required {
        push_str(&mut r, ".IsRequired()");
    }
    if s && f.max_length.is_some() {
        push_str(&mut r, max_len_call(entity, f.name.as_str()).as_str());
    }
    push_str(&mut r, ";\n");
    proof {
        reveal_strlit("");
    }
    r
}

fn length_config_exec(entity: &str, f: &Field) -> (r: String)
    ensures
        r@ == backend_part(entity@, f@, BackendPart::LengthConfigs),
{
    if stringy(f) && f.max_length.is_some() {
        len_config(f.name.as_str(), entity)
    } else {
        String::new()
    }
}

fn push_view(v: &mut Vec<String>, x: String)
    ensures
        views(final(v)@) == views(old(v)@).push(x@),
{
    let ghost before = views(v@);
    v.push(x);
    assert(views(v@) =~= before.push(x@));
}

/// The contributions of the fields seen so far.
struct BackendAcc {
    decls: String,
    ctor: String,
    assignments: String,
    consts: String,
    checks: String,
    manager_assignments: String,
    nav_decls: String,
    nav_joins: String,
    nav_list: String,
    nav_single: String,
    fk: String,
    nav_filters: String,
    entity_filters: String,
    create_dto: String,
    dto: String,
    with_nav_dto: String,
    get_input: String,
    guid_checks: String,
    prop_configs: String,
    len_configs: String,
    filter_items: Vec<String>,
    filter_names: Vec<String>,
    filter_args: Vec<String>,
    all_args: Vec<String>,
}

spec fn backend_acc_holds(a: BackendAcc, e: Seq<char>, fs: Seq<FieldV>) -> bool {
    &&& a.decls@ == backend_gather(e, fs, BackendPart::FieldDecls)
    &&& a.ctor@ == backend_gather(e, fs, BackendPart::CtorParams)
    &&& a.assignments@ == backend_gather(e, fs, BackendPart::FieldAssignments)
    &&& a.consts@ == backend_gather(e, fs, BackendPart::Consts)
    &&& a.checks@ == backend_gather(e, fs, BackendPart::ManagerChecks)
    &&& a.manager_assignments@ == backend_gather(e, fs, BackendPart::ManagerAssignments)
    &&& a.nav_decls@ == backend_gather(e, fs, BackendPart::NavDecls)
    &&& a.nav_joins@ == backend_gather(e, fs, BackendPart::NavJoins)
    &&& a.nav_list@ == backend_gather(e, fs, BackendPart::NavSelectsList)
    &&& a.nav_single@ == backend_gather(e, fs, BackendPart::NavSelectsSingle)
    &&& a.fk@ == backend_gather(e, fs, BackendPart::FkConfigs)
    &&& a.nav_filters@ == backend_gather(e, fs, BackendPart::NavFilters)
    &&& a.entity_filters@ == backend_gather(e, fs, BackendPart::EntityFilters)
    &&& a.create_dto@ == backend_gather(e, fs, BackendPart::CreateDtoProps)
    &&& a.dto@ == backend_gather(e, fs, BackendPart::DtoProps)
    &&& a.with_nav_dto@ == backend_gather(e, fs, BackendPart::WithNavDtoProps)
    &&& a.get_input@ == backend_gather(e, fs, BackendPart::GetInputProps)
    &&& a.guid_checks@ == backend_gather(e, fs, BackendPart::RequiredGuidChecks)
    &&& a.prop_configs@ == backend_gather(e, fs, BackendPart::PropertyConfigs)
    &&& a.len_configs@ == backend_gather(e, fs, BackendPart::LengthConfigs)
    &&& views(a.filter_items@) == filter_items(fs)
    &&& views(a.filter_names@) == filter_names(fs)
    &&& views(a.filter_args@) == input_args(fs, true)
    &&& views(a.all_args@) == input_args(fs, false)
}

fn add_backend_field(a: &mut BackendAcc, entity: &str, f: &Field, Ghost(fs): Ghost<Seq<FieldV>>)
    requires
        backend_acc_holds(*old(a), entity@, fs.drop_last()),
        fs.len() > 0,
        fs.last() == f@,
    ensures
        backend_acc_holds(*final(a), entity@, fs),
{
    reveal(backend_gather);
    reveal(filter_items);
    reveal(filter_names);
    reveal(input_args);
    let nl = nl_of(f);
    let ty = domain_type_opt_of(f);
    push_str(&mut a.decls, decl_line(ty.as_str(), f.name.as_str()).as_str());
    push_str(&mut a.ctor, param_pair(ty.as_str(), nl.as_str()).as_str());
    push_str(&mut a.assignments, assignments_exec(entity, f).as_str());
    push_str(&mut a.consts, consts_exec(f).as_str());
    push_str(&mut a.checks, manager_checks_exec(entity, f).as_str());
    let el = to_lower_camel(entity);
    push_str(&mut a.manager_assignments, manager_assign(el.as_str(), f.name.as_str(), nl.as_str()).as_str());
    let (d, j, l, s, k) = nav_parts_exec(entity, f);
    push_str(&mut a.nav_decls, d.as_str());
    push_str(&mut a.nav_joins, j.as_str());
    push_str(&mut a.nav_list, l.as_str());
    push_str(&mut a.nav_single, s.as_str());
    push_str(&mut a.fk, k.as_str());
    push_str(&mut a.nav_filters, filter_exec(entity, f, true).as_str());
    push_str(&mut a.entity_filters, filter_exec(entity, f, false).as_str());
    let dto = dto_exec(f);
    let mut create = attr_required_and_length(f, entity);
    push_str(&mut create, dto.as_str());
    push_str(&mut a.create_dto, create.as_str());
    push_str(&mut a.dto, dto.as_str());
    push_str(&mut a.with_nav_dto, with_nav_dto_exec(f).as_str());
    push_str(&mut a.get_input, get_input_exec(f).as_str());
    push_str(&mut a.guid_checks, guid_check_exec(f).as_str());
    push_str(&mut a.prop_configs, property_config_exec(entity, f).as_str());
    push_str(&mut a.len_configs, length_config_exec(entity, f).as_str());
    let arg = input_arg(f.name.as_str());
    push_view(&mut a.all_args, copy_str(arg.as_str()));
    if f.filterable {
        let t = if str_eq(f.ftype.as_str(), "Guid") && nav_target_of(f).is_some() {
            copy_str("Guid")
        } else {
            domain_type_of(f)
        };
        push_view(&mut a.filter_items, filter_item(t.as_str(), nl.as_str()));
        push_view(&mut a.filter_names, copy_str(nl.as_str()));
        push_view(&mut a.filter_args, arg);
        assert(filter_items(fs) =~= filter_items(fs.drop_last()).push(filter_item_spec(
            if f@.ftype == "Guid"@ && nav_target(f@) is Some {
                "Guid"@
            } else {
                domain_type(f@)
            },
            name_lower(f@),
        )));
        assert(filter_names(fs) =~= filter_names(fs.drop_last()).push(name_lower(f@)));
        assert(input_args(fs, true) =~= input_args(fs.drop_last(), true).push(input_arg_spec(f@.name)));
    } else {
        assert(filter_items(fs) =~= filter_items(fs.drop_last()));
        assert(filter_names(fs) =~= filter_names(fs.drop_last()));
        assert(input_args(fs, true) =~= input_args(fs.drop_last(), true));
    }
    assert(input_args(fs, false) =~= input_args(fs.drop_last(), false).push(input_arg_spec(f@.name)));
}

fn strip_suffix_all_exec(s: &str, p: &str) -> (r: String)
    ensures
        r@ == strip_suffix_all(s@, p@),
{
    let cs = chars_of(s);
    let pc = chars_of(p);
    let mut end: usize = cs.len();
    assert(cs@.take(end as int) =~= s@);
    if pc.len() == 0 {
        return copy_str(s);
    }
    loop
        invariant
            end <= cs.len(),
            cs@ == s@,
            pc@ == p@,
            p@.len() > 0,
            strip_suffix_all(s@, p@) == strip_suffix_all(cs@.take(end as int), p@),
        decreases end,
    {
        let cur = string_of_range(&cs, 0, end);
        let cc = chars_of(cur.as_str());
        if !ends_with_exec(&cc, &pc) {
            return cur;
        }
        assert(cs@.take(end as int).take(end - pc.len()) =~= cs@.take(end - pc.len()));
        end = end - pc.len();
    }
}

pub fn search_field_exec(fields: &[Field]) -> (r: Option<String>)
    ensures
        match r {
            Some(n) => search_field(fields_view(fields@)) == Some(n@),
            None => search_field(fields_view(fields@)) is None,
        },
{
    let ghost fs = fields_view(fields@);
    let mut visible: Option<String> = None;
    let mut any: Option<String> = None;
    let mut i: usize = 0;
    assert(fs.skip(0) =~= fs);
    while i < fields.len()
        invariant
            i <= fields.len(),
            fs == fields_view(fields@),
            visible is None ==> first_text_field(fs, true) == first_text_field(fs.skip(i as int), true),
            visible matches Some(n) ==> first_text_field(fs, true) == Some(n@),
            any is None ==> first_text_field(fs, false) == first_text_field(fs.skip(i as int), false),
            any matches Some(n) ==> first_text_field(fs, false) == Some(n@),
        decreases fields.len() - i,
    {
        let f = &fields[i];
        let ghost rest = fs.skip(i as int);
        assert(rest[0] == f@);
        assert(rest.drop_first() =~= fs.skip(i + 1));
        if stringy(f) {
            if any.is_none() {
                any = Some(copy_str(f.name.as_str()));
            }
            if f.show_in_ui && visible.is_none() {
                visible = Some(copy_str(f.name.as_str()));
            }
        }
        i = i + 1;
    }
    assert(fs.skip(i as int) =~= Seq::<FieldV>::empty());
    match visible {
        Some(n) => Some(n),
        None => any,
    }
}

fn filter_text_init_exec(entity: &str, fields: &[Field], nav_side: bool) -> (r: String)
    ensures
        r@ == filter_text_init(entity@, fields_view(fields@), nav_side),
{
    match search_field_exec(fields) {
        Some(n) => if nav_side {
            text_nav_init(entity, n.as_str())
        } else {
            text_entity_init(n.as_str())
        },
        None => copy_str(".WhereIf(!string.IsNullOrWhiteSpace(filterText), x => true)\n"),
    }
}

fn param_names_exec(params: &str) -> (r: String)
    ensures
        r@ == param_names_of(params@),
{
    proof {
        reveal_strlit("");
    }
    assert(""@ =~= Seq::<char>::empty());
    let stripped = match regex_replace_all("\\s*\\b[\\w\\?]+\\s+", params, "") {
        Ok(s) => s,
        Err(_) => copy_str(params),
    };
    assert(stripped@ == if regex_compiles(type_word_pattern()) {
        regex_replace_all_spec(type_word_pattern(), params@, Seq::empty())
    } else {
        params@
    });
    let pieces = split_exec(stripped.as_str(), ',');
    let ghost trimmed = views(pieces@).map_values(|s: Seq<char>| trim(s));
    let ghost pred = |s: Seq<char>| s.len() > 0;
    let mut kept: Vec<String> = Vec::new();
    let mut i: usize = 0;
    proof {
        reveal(Seq::filter);
        assert(trimmed.take(0).filter(pred) =~= Seq::<Seq<char>>::empty());
    }
    while i < pieces.len()
        invariant
            i <= pieces.len(),
            trimmed == views(pieces@).map_values(|s: Seq<char>| trim(s)),
            pred == (|s: Seq<char>| s.len() > 0),
            views(kept@) == trimmed.take(i as int).filter(pred),
        decreases pieces.len() - i,
    {
        let t = trim_exec(pieces[i].as_str());
        assert(trimmed[i as int] == t@);
        assert(trimmed.take(i + 1).drop_last() =~= trimmed.take(i as int));
        assert(trimmed.take(i + 1).last() == t@);
        reveal(Seq::filter);
        let ghost before = views(kept@);
        if !t.as_str().is_empty() {
            push_view(&mut kept, t);
        }
        i = i + 1;
    }
    assert(trimmed.take(pieces.len() as int) =~= trimmed);
    assert(trimmed =~= split(stripped@, ',').map_values(|s: Seq<char>| trim(s)));
    assert(views(kept@) == split(stripped@, ',').map_values(|s: Seq<char>| trim(s)).filter(
        |s: Seq<char>| s.len() > 0,
    ));
    join_exec(&kept, ", ")
}

fn with_commas_exec(items: &Vec<String>) -> (r: String)
    ensures
        r@ == with_commas(views(items@)),
{
    let mut out = String::new();
    let mut i: usize = 0;
    while i < items.len()
        invariant
            i <= items.len(),
            out@ == with_commas(views(items@).take(i as int)),
        decreases items.len() - i,
    {
        assert(views(items@).take(i + 1).drop_last() =~= views(items@).take(i as int));
        push_str(&mut out, items[i].as_str());
        push_str(&mut out, ",\n");
        i = i + 1;
    }
    assert(views(items@).take(items.len() as int) =~= views(items@));
    out
}

fn prepend(head: &str, items: &Vec<String>) -> (r: Vec<String>)
    ensures
        views(r@) == seq![head@] + views(items@),
{
    let mut out: Vec<String> = Vec::new();
    push_view(&mut out, copy_str(head));
    let mut i: usize = 0;
    while i < items.len()
        invariant
            i <= items.len(),
            views(out@) == seq![head@] + views(items@).take(i as int),
        decreases items.len() - i,
    {
        push_view(&mut out, copy_str(items[i].as_str()));
        i = i + 1;
        assert(views(out@) =~= seq![head@] + views(items@).take(i as int));
    }
    assert(views(items@).take(items.len() as int) =~= views(items@));
    out
}

/// The backend fragments of an entity.
pub struct BackendFragments {
    pub fields: String,
    pub constructor_params: String,
    pub fields_assignments: String,
    pub manager_params: String,
    pub manager_param_names: String,
    pub manager_checks: String,
    pub manager_assignments: String,
    pub repository_filters: String,
    pub filter_method_params: String,
    pub filter_param_names: String,
    pub navigation_properties: String,
    pub navigation_joins: String,
    pub navigation_selects_list: String,
    pub navigation_selects_single: String,
    pub consts: String,
    pub repository_nav_filters: String,
    pub repository_entity_filters: String,
    pub create_dto_props: String,
    pub update_dto_props: String,
    pub dto_props: String,
    pub with_nav_dto_entity_prop: String,
    pub with_nav_dto_props: String,
    pub get_input_props: String,
    pub excel_download_props: String,
    pub excel_dto_props: String,
    pub input_filter_call_args: String,
    pub appservice_create_args: String,
    pub appservice_update_args: String,
    pub required_guid_checks: String,
    pub with_nav_entity_prop: String,
    pub navigation_fk_configs: String,
    pub efcore_property_configs: String,
    pub efcore_len_configs: String,
}

pub open spec fn concurrency_prop() -> Seq<char> {
    "public string ConcurrencyStamp { get; set; } = null!;\n"@
}

pub open spec fn filter_text_prop() -> Seq<char> {
    "public string? FilterText { get; set; }\n\n"@
}

pub open spec fn download_token_prop() -> Seq<char> {
    "public string DownloadToken { get; set; } = null!;\n\n"@
}

pub open spec fn call_args(fs: Seq<FieldV>) -> Seq<char> {
    if input_args(fs, true).len() == 0 {
        "input.FilterText"@
    } else {
        "input.FilterText, "@ + join(input_args(fs, true), ", "@)
    }
}

pub open spec fn ctor_params_text(e: Seq<char>, fs: Seq<FieldV>) -> Seq<char> {
    let cp = strip_suffix_all(backend_gather(e, fs, BackendPart::CtorParams), ", "@);
    if cp.len() == 0 {
        Seq::empty()
    } else {
        ", "@ + cp
    }
}

pub open spec fn backend_holds(r: BackendFragments, entity: Seq<char>, fields: Seq<FieldV>) -> bool {
    let e = entity;
    let fs = fields;
    let params = strip_suffix_all(backend_gather(e, fs, BackendPart::CtorParams), ", "@);
    &&& r.fields@ == trim(backend_gather(e, fs, BackendPart::FieldDecls))
    &&& r.constructor_params@ == ctor_params_text(e, fs)
    &&& r.fields_assignments@ == trim(backend_gather(e, fs, BackendPart::FieldAssignments))
    &&& r.manager_params@ == params
    &&& r.manager_param_names@ == param_names_of(params)
    &&& r.manager_checks@ == trim(backend_gather(e, fs, BackendPart::ManagerChecks))
    &&& r.manager_assignments@ == trim(backend_gather(e, fs, BackendPart::ManagerAssignments))
    &&& r.repository_filters@ == trim(with_commas(seq![base_filter()] + filter_items(fs)))
    &&& r.filter_method_params@ == join(seq![base_filter()] + filter_items(fs), ", "@)
    &&& r.filter_param_names@ == join(seq!["filterText"@] + filter_names(fs), ", "@)
    &&& r.navigation_properties@ == trim(backend_gather(e, fs, BackendPart::NavDecls))
    &&& r.navigation_joins@ == trim(backend_gather(e, fs, BackendPart::NavJoins))
    &&& r.navigation_selects_list@ == trim(backend_gather(e, fs, BackendPart::NavSelectsList))
    &&& r.navigation_selects_single@ == trim(backend_gather(e, fs, BackendPart::NavSelectsSingle))
    &&& r.consts@ == trim(backend_gather(e, fs, BackendPart::Consts))
    &&& r.repository_nav_filters@ == trim(filter_text_init(e, fs, true) + backend_gather(e, fs, BackendPart::NavFilters))
    &&& r.repository_entity_filters@ == trim(
        filter_text_init(e, fs, false) + backend_gather(e, fs, BackendPart::EntityFilters),
    )
    &&& r.create_dto_props@ == trim(backend_gather(e, fs, BackendPart::CreateDtoProps))
    &&& r.update_dto_props@ == trim(backend_gather(e, fs, BackendPart::CreateDtoProps) + concurrency_prop())
    &&& r.dto_props@ == trim(backend_gather(e, fs, BackendPart::DtoProps) + concurrency_prop())
    &&& r.with_nav_dto_entity_prop@ == trim("public "@ + e + "Dto "@ + e + " { get; set; } = null!;\n"@)
    &&& r.with_nav_dto_props@ == trim(backend_gather(e, fs, BackendPart::WithNavDtoProps))
    &&& r.get_input_props@ == trim(filter_text_prop() + backend_gather(e, fs, BackendPart::GetInputProps))
    &&& r.excel_download_props@ == trim(
        download_token_prop() + filter_text_prop() + backend_gather(e, fs, BackendPart::GetInputProps),
    )
    &&& r.excel_dto_props@ == trim(backend_gather(e, fs, BackendPart::DtoProps))
    &&& r.input_filter_call_args@ == call_args(fs)
    &&& r.appservice_create_args@ == join(input_args(fs, false), ", "@)
    &&& r.appservice_update_args@ == join(input_args(fs, false), ", "@) + ", input.ConcurrencyStamp"@
    &&& r.required_guid_checks@ == trim(backend_gather(e, fs, BackendPart::RequiredGuidChecks))
    &&& r.with_nav_entity_prop@ == trim("public "@ + e + " "@ + e + " { get; set; } = null!;\n"@)
    &&& r.navigation_fk_configs@ == trim(backend_gather(e, fs, BackendPart::FkConfigs))
    &&& r.efcore_property_configs@ == trim(backend_gather(e, fs, BackendPart::PropertyConfigs))
    &&& r.efcore_len_configs@ == trim(backend_gather(e, fs, BackendPart::LengthConfigs))
}

/// The backend fragments of `entity` with `fields`: each part is the
/// fields' contributions in order, trimmed; parameter lists start with the
/// free-text filter.
#[verifier::rlimit(100)]
pub fn backend_fragments(entity: &str, fields: &[Field]) -> (r: BackendFragments)
    ensures
        backend_holds(r, entity@, fields_view(fields@)),
{
    let ghost fs = fields_view(fields@);
    let mut a = BackendAcc {
        decls: String::new(),
        ctor: String::new(),
        assignments: String::new(),
        consts: String::new(),
        checks: String::new(),
        manager_assignments: String::new(),
        nav_decls: String::new(),
        nav_joins: String::new(),
        nav_list: String::new(),
        nav_single: String::new(),
        fk: String::new(),
        nav_filters: String::new(),
        entity_filters: String::new(),
        create_dto: String::new(),
        dto: String::new(),
        with_nav_dto: String::new(),
        get_input: String::new(),
        guid_checks: String::new(),
        prop_configs: String::new(),
        len_configs: String::new(),
        filter_items: Vec::new(),
        filter_names: Vec::new(),
        filter_args: Vec::new(),
        all_args: Vec::new(),
    };
    assert(fs.take(0) =~= Seq::<FieldV>::empty());
    reveal(backend_gather);
    reveal(filter_items);
    reveal(filter_names);
    reveal(input_args);
    assert(views(a.filter_items@) =~= Seq::<Seq<char>>::empty());
    assert(views(a.filter_names@) =~= Seq::<Seq<char>>::empty());
    assert(views(a.filter_args@) =~= Seq::<Seq<char>>::empty());
    assert(views(a.all_args@) =~= Seq::<Seq<char>>::empty());
    let mut i: usize = 0;
    while i < fields.len()
        invariant
            i <= fields.len(),
            fs == fields_view(fields@),
            backend_acc_holds(a, entity@, fs.take(i as int)),
        decreases fields.len() - i,
    {
        let ghost next = fs.take(i + 1);
        assert(next.drop_last() =~= fs.take(i as int));
        add_backend_field(&mut a, entity, &fields[i], Ghost(next));
        i = i + 1;
    }
    assert(fs.take(fields.len() as int) =~= fs);
    let params = strip_suffix_all_exec(a.ctor.as_str(), ", ");
    let constructor_params = if params.as_str().is_empty() {
        String::new()
    } else {
        let mut c = copy_str(", ");
        push_str(&mut c, params.as_str());
        c
    };
    let names = param_names_exec(params.as_str());
    let items = prepend("string? filterText = null", &a.filter_items);
    let name_list = prepend("filterText", &a.filter_names);
    let mut nav_filters = filter_text_init_exec(entity, fields, true);
    push_str(&mut nav_filters, a.nav_filters.as_str());
    let mut entity_filters = filter_text_init_exec(entity, fields, false);
    push_str(&mut entity_filters, a.entity_filters.as_str());
    let mut update = copy_str(a.create_dto.as_str());
    push_str(&mut update, "public string ConcurrencyStamp { get; set; } = null!;\n");
    let mut dto = copy_str(a.dto.as_str());
    push_str(&mut dto, "public string ConcurrencyStamp { get; set; } = null!;\n");
    let mut with_nav_entity_dto = copy_str("public ");
    push_str(&mut with_nav_entity_dto, entity);
    push_str(&mut with_nav_entity_dto, "Dto ");
    push_str(&mut with_nav_entity_dto, entity);
    push_str(&mut with_nav_entity_dto, " { get; set; } = null!;\n");
    let mut get_input = copy_str("public string? FilterText { get; set; }\n\n");
    push_str(&mut get_input, a.get_input.as_str());
    let mut excel_download = copy_str("public string DownloadToken { get; set; } = null!;\n\n");
    push_str(&mut excel_download, "public string? FilterText { get; set; }\n\n");
    push_str(&mut excel_download, a.get_input.as_str());
    let call = if a.filter_args.len() > 0 {
        let mut c = copy_str("input.FilterText, ");
        push_str(&mut c, join_exec(&a.filter_args, ", ").as_str());
        c
    } else {
        copy_str("input.FilterText")
    };
    let create_args = join_exec(&a.all_args, ", ");
    let mut update_args = copy_str(create_args.as_str());
    push_str(&mut update_args, ", input.ConcurrencyStamp");
    let mut with_nav_entity = copy_str("public ");
    push_str(&mut with_nav_entity, entity);
    push_str(&mut with_nav_entity, " ");
    push_str(&mut with_nav_entity, entity);
    push_str(&mut with_nav_entity, " { get; set; } = null!;\n");
    let fields_v = trim_exec(a.decls.as_str());
    let constructor_params_v = constructor_params;
    let fields_assignments_v = trim_exec(a.assignments.as_str());
    let manager_params_v = params;
    let manager_param_names_v = names;
    let manager_checks_v = trim_exec(a.checks.as_str());
    let manager_assignments_v = trim_exec(a.manager_assignments.as_str());
    let repository_filters_v = trim_exec(with_commas_exec(&items).as_str());
    let filter_method_params_v = join_exec(&items, ", ");
    let filter_param_names_v = join_exec(&name_list, ", ");
    let navigation_properties_v = trim_exec(a.nav_decls.as_str());
    let navigation_joins_v = trim_exec(a.nav_joins.as_str());
    let navigation_selects_list_v = trim_exec(a.nav_list.as_str());
    let navigation_selects_single_v = trim_exec(a.nav_single.as_str());
    let consts_v = trim_exec(a.consts.as_str());
    let repository_nav_filters_v = trim_exec(nav_filters.as_str());
    let repository_entity_filters_v = trim_exec(entity_filters.as_str());
    let create_dto_props_v = trim_exec(a.create_dto.as_str());
    let update_dto_props_v = trim_exec(update.as_str());
    let dto_props_v = trim_exec(dto.as_str());
    let with_nav_dto_entity_prop_v = trim_exec(with_nav_entity_dto.as_str());
    let with_nav_dto_props_v = trim_exec(a.with_nav_dto.as_str());
    let get_input_props_v = trim_exec(get_input.as_str());
    let excel_download_props_v = trim_exec(excel_download.as_str());
    let excel_dto_props_v = trim_exec(a.dto.as_str());
    let input_filter_call_args_v = call;
    let appservice_create_args_v = create_args;
    let appservice_update_args_v = update_args;
    let required_guid_checks_v = trim_exec(a.guid_checks.as_str());
    let with_nav_entity_prop_v = trim_exec(with_nav_entity.as_str());
    let navigation_fk_configs_v = trim_exec(a.fk.as_str());
    let efcore_property_configs_v = trim_exec(a.prop_configs.as_str());
    let efcore_len_configs_v = trim_exec(a.len_configs.as_str());
    BackendFragments {
        fields: fields_v,
        constructor_params: constructor_params_v,
        fields_assignments: fields_assignments_v,
        manager_params: manager_params_v,
        manager_param_names: manager_param_names_v,
        manager_checks: manager_checks_v,
        manager_assignments: manager_assignments_v,
        repository_filters: repository_filters_v,
        filter_method_params: filter_method_params_v,
        filter_param_names: filter_param_names_v,
        navigation_properties: navigation_properties_v,
        navigation_joins: navigation_joins_v,
        navigation_selects_list: navigation_selects_list_v,
        navigation_selects_single: navigation_selects_single_v,
        consts: consts_v,
        repository_nav_filters: repository_nav_filters_v,
        repository_entity_filters: repository_entity_filters_v,
        create_dto_props: create_dto_props_v,
        update_dto_props: update_dto_props_v,
        dto_props: dto_props_v,
        with_nav_dto_entity_prop: with_nav_dto_entity_prop_v,
        with_nav_dto_props: with_nav_dto_props_v,
        get_input_props: get_input_props_v,
        excel_download_props: excel_download_props_v,
        excel_dto_props: excel_dto_props_v,
        input_filter_call_args: input_filter_call_args_v,
        appservice_create_args: appservice_create_args_v,
        appservice_update_args: appservice_update_args_v,
        required_guid_checks: required_guid_checks_v,
        with_nav_entity_prop: with_nav_entity_prop_v,
        navigation_fk_configs: navigation_fk_configs_v,
        efcore_property_configs: efcore_property_configs_v,
        efcore_len_configs: efcore_len_configs_v,
    }
}

} // verus!
