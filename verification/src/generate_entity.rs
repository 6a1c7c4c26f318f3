//! Checking a generation request and classifying the messages that
//! generation reports.
use crate::models::{Field, MobileUi, UiTarget, fields_view};
use crate::text::{
    chars_of, copy_str, is_ascii_alpha, is_ascii_digit, lower, push_str, split, split_exec,
    starts_with, starts_with_exec, str_eq, to_lower, trim, trim_exec, trim_start, trim_start_exec,
    views,
};
use vstd::prelude::*;

verus! {

broadcast use vstd::string::group_string_axioms;

/// Switches of one generation run.
#[derive(Debug, Clone)]
pub struct GenerationOptions {
    pub no_merge: bool,
    pub run_migration: bool,
    pub dry_run: bool,
}

impl Default for GenerationOptions {
    fn default() -> (r: Self)
        ensures
            !r.no_merge && !r.run_migration && !r.dry_run,
    {
        GenerationOptions { no_merge: false, run_migration: false, dry_run: false }
    }
}

/// What to generate, and where.
#[derive(Debug, Clone)]
pub struct GenerateEntityRequest {
    pub project_root: String,
    pub domain: String,
    pub namespace: String,
    pub entity: String,
    pub fields: Vec<Field>,
    pub ui_target: UiTarget,
    pub mobile_ui: MobileUi,
    pub options: GenerationOptions,
}

/// The kind of a reported generation step.
#[derive(Debug, Clone, Copy, PartialEq, Eq, Structural)]
pub enum GenerationEventKind {
    Created,
    Modified,
    Skipped,
    Warning,
    Info,
}

/// One reported generation step.
#[derive(Debug, Clone)]
pub struct GenerationEvent {
    pub kind: GenerationEventKind,
    pub message: String,
}

/// The kind of a message, read from its first word, ignoring ASCII case and
/// leading whitespace.
pub open spec fn classify(message: Seq<char>) -> GenerationEventKind {
    let n = lower(trim_start(message));
    if starts_with(n, "created"@) {
        GenerationEventKind::Created
    } else if starts_with(n, "merged"@) || starts_with(n, "updated"@) || starts_with(n, "patched"@)
        || starts_with(n, "localized"@) || starts_with(n, "l10n+"@) {
        GenerationEventKind::Modified
    } else if starts_with(n, "skip"@) || starts_with(n, "l10n="@) {
        GenerationEventKind::Skipped
    } else if starts_with(n, "warn"@) {
        GenerationEventKind::Warning
    } else {
        GenerationEventKind::Info
    }
}

fn begins(n: &Vec<char>, p: &str) -> (r: bool)
    ensures
        r == starts_with(n@, p@),
{
    let pc = chars_of(p);
    starts_with_exec(n, &pc)
}

impl GenerationEvent {
    /// The event for a reported message.
    pub fn from_message(message: &str) -> (r: Self)
        ensures
            r.kind == classify(message@),
            r.message@ == message@,
    {
        let t = trim_start_exec(message);
        let l = to_lower(t.as_str());
        let n = chars_of(l.as_str());
        let kind = if begins(&n, "created") {
            GenerationEventKind::Created
        } else if begins(&n, "merged") || begins(&n, "updated") || begins(&n, "patched") || begins(
            &n,
            "localized",
        ) || begins(&n, "l10n+") {
            GenerationEventKind::Modified
        } else if begins(&n, "skip") || begins(&n, "l10n=") {
            GenerationEventKind::Skipped
        } else if begins(&n, "warn") {
            GenerationEventKind::Warning
        } else {
            GenerationEventKind::Info
        };
        GenerationEvent { kind, message: copy_str(message) }
    }
}

pub open spec fn is_ident_start(c: char) -> bool {
    c == '_' || is_ascii_alpha(c)
}

pub open spec fn is_ident_char(c: char) -> bool {
    c == '_' || is_ascii_alpha(c) || is_ascii_digit(c)
}

/// A C# identifier in ASCII: a letter or `_`, then letters, digits or `_`.
pub open spec fn is_valid_identifier_spec(s: Seq<char>) -> bool {
    &&& s.len() > 0
    &&& is_ident_start(s[0])
    &&& forall|i: int| 1 <= i < s.len() ==> is_ident_char(#[trigger] s[i])
}

/// Law: an identifier is exactly a non-empty text that starts with an ASCII
/// letter or `_` and goes on with ASCII letters, ASCII digits or `_`; so a
/// name such as `Line1` or `AddressLine2` is accepted and `1Line` is not.
pub proof fn lemma_identifier_characters(s: Seq<char>)
    ensures
        is_valid_identifier_spec(s) <==> (s.len() > 0 && (s[0] == '_' || ('A' <= s[0] && s[0] <= 'Z') || (
        'a' <= s[0] && s[0] <= 'z')) && forall|i: int|
            1 <= i < s.len() ==> (#[trigger] s[i] == '_' || ('A' <= s[i] && s[i] <= 'Z') || ('a' <= s[i]
                && s[i] <= 'z') || ('0' <= s[i] && s[i] <= '9'))),
{
}

/// Non-empty, and every dot-separated part is an identifier.
pub open spec fn is_valid_qualified_name_spec(s: Seq<char>) -> bool {
    &&& s.len() > 0
    &&& forall|i: int|
        0 <= i < split(s, '.').len() ==> is_valid_identifier_spec(#[trigger] split(s, '.')[i])
}

pub fn is_valid_identifier(value: &str) -> (r: bool)
    ensures
        r == is_valid_identifier_spec(value@),
{
    let cs = chars_of(value);
    if cs.len() == 0 {
        return false;
    }
    let c0 = cs[0];
    if !(c0 == '_' || ('A' <= c0 && c0 <= 'Z') || ('a' <= c0 && c0 <= 'z')) {
        return false;
    }
    let mut i: usize = 1;
    while i < cs.len()
        invariant
            1 <= i <= cs.len(),
            cs@ == value@,
            forall|j: int| 1 <= j < i ==> is_ident_char(#[trigger] value@[j]),
        decreases cs.len() - i,
    {
        let c = cs[i];
        if !(c == '_' || ('A' <= c && c <= 'Z') || ('a' <= c && c <= 'z') || ('0' <= c && c
            <= '9')) {
            assert(!is_ident_char(value@[i as int]));
            return false;
        }
        i = i + 1;
    }
    true
}

pub fn is_valid_qualified_name(value: &str) -> (r: bool)
    ensures
        r == is_valid_qualified_name_spec(value@),
{
    let cs = chars_of(value);
    if cs.len() == 0 {
        return false;
    }
    let parts = split_exec(value, '.');
    let mut i: usize = 0;
    while i < parts.len()
        invariant
            i <= parts.len(),
            views(parts@) == split(value@, '.'),
            forall|j: int| 0 <= j < i ==> is_valid_identifier_spec(#[trigger] split(value@, '.')[j]),
        decreases parts.len() - i,
    {
        assert(split(value@, '.')[i as int] == parts@[i as int]@);
        if !is_valid_identifier(parts[i].as_str()) {
            return false;
        }
        i = i + 1;
    }
    true
}

/// Property names that ABP entities already have, or that generated code
/// uses itself, in lowercase.
pub open spec fn is_reserved(lowered: Seq<char>) -> bool {
    ||| lowered == "id"@
    ||| lowered == "concurrencystamp"@
    ||| lowered == "extraproperties"@
    ||| lowered == "creationtime"@
    ||| lowered == "creatorid"@
    ||| lowered == "lastmodificationtime"@
    ||| lowered == "lastmodifierid"@
    ||| lowered == "isdeleted"@
    ||| lowered == "deleterid"@
    ||| lowered == "deletiontime"@
    ||| lowered == "filtertext"@
}

fn is_reserved_exec(lowered: &str) -> (r: bool)
    ensures
        r == is_reserved(lowered@),
{
    str_eq(lowered, "id") || str_eq(lowered, "concurrencystamp") || str_eq(
        lowered,
        "extraproperties",
    ) || str_eq(lowered, "creationtime") || str_eq(lowered, "creatorid") || str_eq(
        lowered,
        "lastmodificationtime",
    ) || str_eq(lowered, "lastmodifierid") || str_eq(lowered, "isdeleted") || str_eq(
        lowered,
        "deleterid",
    ) || str_eq(lowered, "deletiontime") || str_eq(lowered, "filtertext")
}

/// The problem with the field named `names[i]`, given the fields before it.
pub open spec fn field_problem(names: Seq<Seq<char>>, i: int) -> Option<Seq<char>> {
    let n = names[i];
    if !is_valid_identifier_spec(n) {
        Some("field must have a valid identifier: "@ + n)
    } else if is_reserved(lower(n)) {
        Some("field name is reserved by ABP or Banna: "@ + n)
    } else if exists|j: int| 0 <= j < i && lower(#[trigger] names[j]) == lower(n) {
        Some("field names must be unique: "@ + n)
    } else {
        None
    }
}

/// The problem with the first field, from `i` on, that has one.
pub open spec fn fields_problem(names: Seq<Seq<char>>, i: int) -> Option<Seq<char>>
    decreases names.len() - i,
{
    if i >= names.len() || i < 0 {
        None
    } else {
        match field_problem(names, i) {
            Some(m) => Some(m),
            None => fields_problem(names, i + 1),
        }
    }
}

pub open spec fn field_names(fields: Seq<Field>) -> Seq<Seq<char>> {
    fields.map_values(|f: Field| f.name@)
}

/// The first problem with a request, in the order the checks are made, or
/// `None` for a valid request. `has_src_dir` tells whether the project root
/// holds a `src` directory.
pub open spec fn request_problem(
    root: Seq<char>,
    has_src_dir: bool,
    domain: Seq<char>,
    namespace: Seq<char>,
    entity: Seq<char>,
    names: Seq<Seq<char>>,
) -> Option<Seq<char>> {
    if !has_src_dir {
        Some("project root must contain a src directory: "@ + root)
    } else if trim(domain).len() == 0 {
        Some("domain cannot be empty"@)
    } else if !is_valid_qualified_name_spec(domain) {
        Some("domain must be a dot-separated identifier: "@ + domain)
    } else if trim(namespace).len() == 0 {
        Some("namespace cannot be empty"@)
    } else if !is_valid_qualified_name_spec(namespace) {
        Some("namespace must be a dot-separated identifier: "@ + namespace)
    } else if trim(entity).len() == 0 {
        Some("entity cannot be empty"@)
    } else if !is_valid_identifier_spec(entity) {
        Some("entity must be a valid identifier: "@ + entity)
    } else if names.len() == 0 {
        Some("at least one field is required"@)
    } else {
        fields_problem(names, 0)
    }
}

fn msg(head: &str, tail: &str) -> (r: String)
    ensures
        r@ == head@ + tail@,
{
    let mut m = copy_str(head);
    push_str(&mut m, tail);
    m
}

fn check_fields(fields: &Vec<Field>) -> (r: Result<(), String>)
    ensures
        match fields_problem(field_names(fields@), 0) {
            Some(m) => r matches Err(e) && e@ == m,
            None => r is Ok,
        },
{
    let ghost names = field_names(fields@);
    let mut seen: Vec<String> = Vec::new();
    let mut i: usize = 0;
    while i < fields.len()
        invariant
            i <= fields.len(),
            names == field_names(fields@),
            fields_problem(names, 0) == fields_problem(names, i as int),
            views(seen@) == names.take(i as int).map_values(|n: Seq<char>| lower(n)),
            seen@.len() == i,
        decreases fields.len() - i,
    {
        let name = fields[i].name.as_str();
        assert(names[i as int] == name@);
        if !is_valid_identifier(name) {
            return Err(msg("field must have a valid identifier: ", name));
        }
        let normalized = to_lower(name);
        if is_reserved_exec(normalized.as_str()) {
            return Err(msg("field name is reserved by ABP or Banna: ", name));
        }
        let mut k: usize = 0;
        while k < seen.len()
            invariant
                k <= seen.len() == i,
                i < fields.len(),
                names == field_names(fields@),
                views(seen@) == names.take(i as int).map_values(|n: Seq<char>| lower(n)),
                normalized@ == lower(names[i as int]),
                name@ == names[i as int],
                fields_problem(names, 0) == fields_problem(names, i as int),
                is_valid_identifier_spec(names[i as int]),
                !is_reserved(lower(names[i as int])),
                forall|j: int| 0 <= j < k ==> lower(#[trigger] names[j]) != lower(names[i as int]),
            decreases seen.len() - k,
        {
            assert(views(seen@)[k as int] == seen@[k as int]@);
            if str_eq(seen[k].as_str(), normalized.as_str()) {
                assert(lower(names[k as int]) == lower(names[i as int]));
                return Err(msg("field names must be unique: ", name));
            }
            k = k + 1;
        }
        assert(field_problem(names, i as int) is None);
        let ghost before = views(seen@);
        seen.push(normalized);
        proof {
            assert(views(seen@) =~= before.push(lower(names[i as int])));
            assert(names.take(i + 1).map_values(|n: Seq<char>| lower(n)) =~= names.take(
                i as int,
            ).map_values(|n: Seq<char>| lower(n)).push(lower(names[i as int])));
        }
        i = i + 1;
    }
    Ok(())
}

fn blank(s: &str) -> (r: bool)
    ensures
        r == (trim(s@).len() == 0),
{
    trim_exec(s).as_str().is_empty()
}

/// Checks a request before anything is generated. `has_src_dir` tells
/// whether the project root holds a `src` directory.
pub fn validate(request: &GenerateEntityRequest, has_src_dir: bool) -> (r: Result<(), String>)
    ensures
        match request_problem(
            request.project_root@,
            has_src_dir,
            request.domain@,
            request.namespace@,
            request.entity@,
            field_names(request.fields@),
        ) {
            Some(m) => r matches Err(e) && e@ == m,
            None => r is Ok,
        },
{
    if !has_src_dir {
        return Err(msg("project root must contain a src directory: ", request.project_root.as_str()));
    }
    if blank(request.domain.as_str()) {
        return Err(copy_str("domain cannot be empty"));
    }
    if !is_valid_qualified_name(request.domain.as_str()) {
        return Err(msg("domain must be a dot-separated identifier: ", request.domain.as_str()));
    }
    if blank(request.namespace.as_str()) {
        return Err(copy_str("namespace cannot be empty"));
    }
    if !is_valid_qualified_name(request.namespace.as_str()) {
        return Err(msg("namespace must be a dot-separated identifier: ", request.namespace.as_str()));
    }
    if blank(request.entity.as_str()) {
        return Err(copy_str("entity cannot be empty"));
    }
    if !is_valid_identifier(request.entity.as_str()) {
        return Err(msg("entity must be a valid identifier: ", request.entity.as_str()));
    }
    if request.fields.len() == 0 {
        return Err(copy_str("at least one field is required"));
    }
    check_fields(&request.fields)
}

} // verus!
