//! Types and attributes of generated C# and TypeScript members.
use crate::models::{Field, FieldV, opt_view};
use crate::naming::{last_segment, last_segment_spec, split_nav, split_nav_spec};
use crate::text::{copy_str, eq_ignore_case, lower, push_str, str_eq};
use vstd::prelude::*;

verus! {

pub open spec fn is_value_type(t: Seq<char>) -> bool {
    ||| t == "int"@
    ||| t == "long"@
    ||| t == "bool"@
    ||| t == "Guid"@
    ||| t == "DateTime"@
    ||| t == "decimal"@
    ||| t == "DateOnly"@
    ||| t == "TimeOnly"@
}

/// C# type of a property of UI type `t`, nullable when not required.
pub open spec fn csharp_type_spec(t: Seq<char>, required: bool) -> Seq<char> {
    if is_value_type(t) {
        if required {
            t
        } else {
            t + "?"@
        }
    } else if t == "textarea"@ || t == "string"@ {
        if required {
            "string"@
        } else {
            "string?"@
        }
    } else {
        t
    }
}

/// Domain-layer type of a field.
pub open spec fn backend_type_spec(f: FieldV) -> Seq<char> {
    if lower(f.ftype) == lower("textarea"@) {
        "string"@
    } else if f.ftype == "enum"@ {
        match f.navigation {
            Some(nav) => last_segment_spec(split_nav_spec(nav).0),
            None => "Enum"@,
        }
    } else {
        f.ftype
    }
}

/// DTO type of a field.
pub open spec fn dto_type_spec(f: FieldV) -> Seq<char> {
    if f.ftype == "enum"@ {
        if f.required {
            backend_type_spec(f)
        } else {
            backend_type_spec(f) + "?"@
        }
    } else {
        csharp_type_spec(backend_type_spec(f), f.required)
    }
}

/// Navigation target and display property of a field.
pub open spec fn nav_parts_spec(f: FieldV) -> Option<(Seq<char>, Option<Seq<char>>)> {
    match f.navigation {
        None => None,
        Some(nav) => Some(
            (
                split_nav_spec(nav).0,
                match f.navigation_display {
                    Some(d) => Some(d),
                    None => match split_nav_spec(nav).1 {
                        Some(s) => if s.len() > 0 {
                            Some(s)
                        } else {
                            None
                        },
                        None => None,
                    },
                },
            ),
        ),
    }
}

pub open spec fn is_text_type(t: Seq<char>) -> bool {
    t == "string"@ || t == "textarea"@
}

pub open spec fn string_length_attr(f: FieldV, entity: Seq<char>) -> Seq<char> {
    "[StringLength("@ + entity + "Consts."@ + f.name + "MaxLength)]\n"@
}

/// Validation attributes of a DTO property.
pub open spec fn attr_spec(f: FieldV, entity: Seq<char>) -> Seq<char> {
    if is_text_type(f.ftype) && f.required {
        "[Required]\n"@ + if f.max_length is Some {
            string_length_attr(f, entity)
        } else {
            Seq::empty()
        }
    } else if is_text_type(f.ftype) && f.max_length is Some {
        string_length_attr(f, entity)
    } else {
        Seq::empty()
    }
}

/// TypeScript type of a field.
pub open spec fn angular_type_spec(t: Seq<char>) -> Seq<char> {
    if t == "bool"@ {
        "boolean"@
    } else if t == "int"@ || t == "long"@ || t == "decimal"@ || t == "enum"@ {
        "number"@
    } else {
        "string"@
    }
}

/// Law: the numeric C# types `int`, `long`, `decimal` and `enum` are
/// `number` in TypeScript, `bool` alone is `boolean`, and every other type
/// is `string`.
pub proof fn lemma_angular_type_of(t: Seq<char>)
    ensures
        (t == "int"@ || t == "long"@ || t == "decimal"@ || t == "enum"@) ==> angular_type_spec(t)
            == "number"@,
        angular_type_spec(t) == "boolean"@ <==> t == "bool"@,
        !(t == "int"@ || t == "long"@ || t == "decimal"@ || t == "enum"@ || t == "bool"@)
            ==> angular_type_spec(t) == "string"@,
{
    reveal_strlit("int");
    reveal_strlit("long");
    reveal_strlit("decimal");
    reveal_strlit("enum");
    reveal_strlit("bool");
    reveal_strlit("boolean");
    reveal_strlit("number");
    reveal_strlit("string");
    assert("number"@.len() == 6 && "string"@.len() == 6 && "boolean"@.len() == 7);
    assert("number"@ != "boolean"@ && "string"@ != "boolean"@);
    assert("long"@[0] != "bool"@[0] && "enum"@[0] != "bool"@[0]);
    assert("int"@ != "bool"@ && "long"@ != "bool"@ && "decimal"@ != "bool"@ && "enum"@ != "bool"@);
    if !(t == "int"@ || t == "long"@ || t == "decimal"@ || t == "enum"@ || t == "bool"@) {
        assert(angular_type_spec(t) == "string"@);
    }
}

pub fn is_value_type_exec(t: &str) -> (r: bool)
    ensures
        r == is_value_type(t@),
{
    str_eq(t, "int") || str_eq(t, "long") || str_eq(t, "bool") || str_eq(t, "Guid") || str_eq(
        t,
        "DateTime",
    ) || str_eq(t, "decimal") || str_eq(t, "DateOnly") || str_eq(t, "TimeOnly")
}

/// C# type of a property of UI type `t`.
pub fn csharp_type(t: &str, required: bool) -> (r: String)
    ensures
        r@ == csharp_type_spec(t@, required),
{
    if is_value_type_exec(t) {
        let mut r = copy_str(t);
        if !required {
            push_str(&mut r, "?");
        }
        r
    } else if str_eq(t, "textarea") || str_eq(t, "string") {
        if required {
            copy_str("string")
        } else {
            copy_str("string?")
        }
    } else {
        copy_str(t)
    }
}

/// Domain-layer type of a field.
pub fn backend_type_for_field(f: &Field) -> (r: String)
    ensures
        r@ == backend_type_spec(f@),
{
    if eq_ignore_case(f.ftype.as_str(), "textarea") {
        copy_str("string")
    } else if str_eq(f.ftype.as_str(), "enum") {
        match &f.navigation {
            Some(nav) => {
                let (base, _) = split_nav(nav.as_str());
                last_segment(base.as_str())
            },
            None => copy_str("Enum"),
        }
    } else {
        copy_str(f.ftype.as_str())
    }
}

/// DTO type of a field.
pub fn dto_type_for_field(f: &Field) -> (r: String)
    ensures
        r@ == dto_type_spec(f@),
{
    let backend = backend_type_for_field(f);
    if str_eq(f.ftype.as_str(), "enum") {
        let mut r = backend;
        if !f.required {
            push_str(&mut r, "?");
        }
        r
    } else {
        csharp_type(backend.as_str(), f.required)
    }
}

pub open spec fn nav_pair_view(o: Option<(String, Option<String>)>) -> Option<
    (Seq<char>, Option<Seq<char>>),
> {
    match o {
        None => None,
        Some(p) => Some((p.0@, opt_view(p.1))),
    }
}

/// Navigation target and display property of a field.
pub fn nav_parts(f: &Field) -> (r: Option<(String, Option<String>)>)
    ensures
        nav_pair_view(r) == nav_parts_spec(f@),
{
    match &f.navigation {
        None => None,
        Some(nav) => {
            let (base, disp) = split_nav(nav.as_str());
            let display = match &f.navigation_display {
                Some(d) => Some(copy_str(d.as_str())),
                None => match disp {
                    Some(s) => {
                        if s.as_str().is_empty() {
                            None
                        } else {
                            Some(s)
                        }
                    },
                    None => None,
                },
            };
            Some((base, display))
        },
    }
}

/// Validation attributes of a DTO property.
pub fn attr_required_and_length(f: &Field, entity: &str) -> (r: String)
    ensures
        r@ == attr_spec(f@, entity@),
{
    let is_text = str_eq(f.ftype.as_str(), "string") || str_eq(f.ftype.as_str(), "textarea");
    let mut r = String::new();
    if is_text && f.required {
        push_str(&mut r, "[Required]\n");
    }
    if is_text && f.max_length.is_some() {
        push_str(&mut r, "[StringLength(");
        push_str(&mut r, entity);
        push_str(&mut r, "Consts.");
        push_str(&mut r, f.name.as_str());
        push_str(&mut r, "MaxLength)]\n");
    }
    proof {
        assert(r@ =~= attr_spec(f@, entity@));
    }
    r
}

/// TypeScript type of a field.
pub fn angular_type(f: &Field) -> (r: &'static str)
    ensures
        r@ == angular_type_spec(f@.ftype),
{
    let t = f.ftype.as_str();
    if str_eq(t, "bool") {
        "boolean"
    } else if str_eq(t, "int") || str_eq(t, "long") || str_eq(t, "decimal") || str_eq(t, "enum") {
        "number"
    } else {
        "string"
    }
}

} // verus!
