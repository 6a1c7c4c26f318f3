//! Permission constants and their registration.
use crate::merge::{
    MergeContext, StepOutcome, guarded_class_insert, guarded_class_step, guarded_method_insert,
    guarded_method_step, invalid_pattern_msg, lemma_contains_mid,
    lemma_guarded_class_insert_idempotent, lemma_guarded_method_insert_idempotent, step_ok,
};
use crate::pattern::{escape_spec, regex_compiles, regex_escape};
use crate::text::{contains, copy_str, lemma_contains_trans, lemma_contains_within, occurs_at, push_str};
use vstd::prelude::*;

verus! {

pub open spec fn permissions_marker(ep: Seq<char>) -> Seq<char> {
    "class "@ + ep
}

/// The nested permission class of an entity.
pub open spec fn permissions_class(ep: Seq<char>) -> Seq<char> {
    "\n    public static "@ + permissions_marker(ep)
        + "\n    {\n        public const string Default = GroupName + \"."@ + ep
        + "\";\n         public const string Detail = Default + \".Detail\";\n       public const string Edit = Default + \".Edit\";\n        public const string Create = Default + \".Create\";\n        public const string Delete = Default + \".Delete\";\n    }\n"@
}

pub open spec fn permissions_pattern(short: Seq<char>) -> Seq<char> {
    "public\\s+static\\s+class\\s+"@ + escape_spec(short) + "Permissions"@
}

/// The `…Permissions` class with the entity's nested permission class.
pub open spec fn permissions_text(src: Seq<char>, short: Seq<char>, ep: Seq<char>) -> Seq<char> {
    guarded_class_insert(
        src,
        permissions_marker(ep),
        permissions_pattern(short),
        permissions_class(ep),
        true,
    )
}

pub open spec fn provider_marker(el: Seq<char>) -> Seq<char> {
    "var "@ + el + "Permission"@
}

/// The permission definitions of an entity inside `Define`.
pub open spec fn provider_lines(el: Seq<char>, ep: Seq<char>, short: Seq<char>) -> Seq<char> {
    "\n        "@ + provider_marker(el) + " = myGroup.AddPermission("@ + short + "Permissions."@ + ep
        + ".Default, L(\"Permission:"@ + ep + "\"));\n        "@ + el + "Permission.AddChild("@
        + short + "Permissions."@ + ep + ".Create, L(\"Permission:Create\"));\n         "@ + el
        + "Permission.AddChild("@ + short + "Permissions."@ + ep
        + ".Detail, L(\"Permission:Detail\"));\n       "@ + el + "Permission.AddChild("@ + short
        + "Permissions."@ + ep + ".Edit, L(\"Permission:Edit\"));\n        "@ + el
        + "Permission.AddChild("@ + short + "Permissions."@ + ep
        + ".Delete, L(\"Permission:Delete\"));\n"@
}

pub open spec fn define_pattern() -> Seq<char> {
    "public\\s+override\\s+void\\s+Define\\s*\\(\\s*IPermissionDefinitionContext\\s+context\\s*\\)\\s*"@
}

/// The permission definition provider with the entity's definitions.
pub open spec fn provider_text(src: Seq<char>, el: Seq<char>, ep: Seq<char>, short: Seq<char>) -> Seq<
    char,
> {
    guarded_method_insert(src, provider_marker(el), define_pattern(), provider_lines(el, ep, short))
}

/// Law: merging the permission class twice gives the text of merging once.
pub proof fn lemma_permissions_idempotent(src: Seq<char>, short: Seq<char>, ep: Seq<char>)
    ensures
        permissions_text(permissions_text(src, short, ep), short, ep) == permissions_text(
            src,
            short,
            ep,
        ),
{
    let rest = "\n    {\n        public const string Default = GroupName + \"."@ + ep
        + "\";\n         public const string Detail = Default + \".Detail\";\n       public const string Edit = Default + \".Edit\";\n        public const string Create = Default + \".Create\";\n        public const string Delete = Default + \".Delete\";\n    }\n"@;
    assert(permissions_class(ep) =~= "\n    public static "@ + permissions_marker(ep) + rest);
    lemma_contains_mid("\n    public static "@, permissions_marker(ep), rest);
    lemma_guarded_class_insert_idempotent(
        src,
        permissions_marker(ep),
        permissions_pattern(short),
        permissions_class(ep),
        true,
    );
}

/// Law: merging the permission definitions twice gives the text of merging
/// once.
pub proof fn lemma_provider_idempotent(src: Seq<char>, el: Seq<char>, ep: Seq<char>, short: Seq<char>)
    ensures
        provider_text(provider_text(src, el, ep, short), el, ep, short) == provider_text(
            src,
            el,
            ep,
            short,
        ),
{
    let lines = provider_lines(el, ep, short);
    let head = "\n        "@;
    let rest = lines.skip((head.len() + provider_marker(el).len()) as int);
    assert(lines =~= head + provider_marker(el) + rest);
    lemma_contains_mid(head, provider_marker(el), rest);
    lemma_guarded_method_insert_idempotent(src, provider_marker(el), define_pattern(), lines);
}

/// Law: the nested permission class of an entity declares every permission
/// that the permission definitions refer to: `Default` (the group name, a
/// dot and the plural) and `Detail`, `Edit`, `Create` and `Delete`, each
/// `Default` followed by a dot and its own name.
pub proof fn lemma_permissions_class_declares(ep: Seq<char>)
    ensures
        contains(
            permissions_class(ep),
            "public const string Default = GroupName + \"."@ + ep + "\";"@,
        ),
        contains(permissions_class(ep), "public const string Detail = Default + \".Detail\";"@),
        contains(permissions_class(ep), "public const string Edit = Default + \".Edit\";"@),
        contains(permissions_class(ep), "public const string Create = Default + \".Create\";"@),
        contains(permissions_class(ep), "public const string Delete = Default + \".Delete\";"@),
{
    let l = "\";\n         public const string Detail = Default + \".Detail\";\n       public const string Edit = Default + \".Edit\";\n        public const string Create = Default + \".Create\";\n        public const string Delete = Default + \".Delete\";\n    }\n"@;
    let m = "\n    {\n        public const string Default = GroupName + \"."@;
    let m0 = "\n    {\n        "@;
    let head = "public const string Default = GroupName + \"."@;
    let close = "\";"@;
    let detail = "public const string Detail = Default + \".Detail\";"@;
    let edit = "public const string Edit = Default + \".Edit\";"@;
    let create = "public const string Create = Default + \".Create\";"@;
    let delete = "public const string Delete = Default + \".Delete\";"@;
    reveal_strlit("\";\n         public const string Detail = Default + \".Detail\";\n       public const string Edit = Default + \".Edit\";\n        public const string Create = Default + \".Create\";\n        public const string Delete = Default + \".Delete\";\n    }\n");
    reveal_strlit("\n    {\n        public const string Default = GroupName + \".");
    reveal_strlit("\n    {\n        ");
    reveal_strlit("public const string Default = GroupName + \".");
    reveal_strlit("\";");
    reveal_strlit("public const string Detail = Default + \".Detail\";");
    reveal_strlit("public const string Edit = Default + \".Edit\";");
    reveal_strlit("public const string Create = Default + \".Create\";");
    reveal_strlit("public const string Delete = Default + \".Delete\";");
    let pre = "\n    public static "@ + permissions_marker(ep) + m + ep;
    assert(permissions_class(ep) =~= pre + l);
    assert(l.subrange(12int, 61int) =~= detail);
    assert(l.subrange(69int, 114int) =~= edit);
    assert(l.subrange(123int, 172int) =~= create);
    assert(l.subrange(181int, 230int) =~= delete);
    assert(occurs_at(l, detail, 12));
    assert(occurs_at(l, edit, 69));
    assert(occurs_at(l, create, 123));
    assert(occurs_at(l, delete, 181));
    assert(pre + l + Seq::<char>::empty() =~= pre + l);
    lemma_contains_within(pre, l, Seq::empty(), detail);
    lemma_contains_within(pre, l, Seq::empty(), edit);
    lemma_contains_within(pre, l, Seq::empty(), create);
    lemma_contains_within(pre, l, Seq::empty(), delete);
    assert(m =~= m0 + head);
    assert(l =~= close + l.skip(2));
    let a = "\n    public static "@ + permissions_marker(ep) + m0;
    let d = head + ep + close;
    assert(permissions_class(ep) =~= a + d + l.skip(2));
    lemma_contains_mid(a, d, l.skip(2));
}

/// Law: when the permissions merge changes the `…Permissions` class, the
/// class it leaves declares the entity's `Default`, `Detail`, `Edit`,
/// `Create` and `Delete` permissions.
pub proof fn lemma_permissions_merge_declares(src: Seq<char>, short: Seq<char>, ep: Seq<char>)
    ensures
        ({
            let t = permissions_text(src, short, ep);
            t != src ==> {
                &&& contains(t, "public const string Default = GroupName + \"."@ + ep + "\";"@)
                &&& contains(t, "public const string Detail = Default + \".Detail\";"@)
                &&& contains(t, "public const string Edit = Default + \".Edit\";"@)
                &&& contains(t, "public const string Create = Default + \".Create\";"@)
                &&& contains(t, "public const string Delete = Default + \".Delete\";"@)
            }
        }),
{
    let t = permissions_text(src, short, ep);
    if t != src {
        let mm = crate::pattern::regex_first_match(permissions_pattern(short), src);
        crate::merge::lemma_insert_inside_class_effect(src, mm, permissions_class(ep), true);
        lemma_permissions_class_declares(ep);
        let c = permissions_class(ep);
        lemma_contains_trans(t, c, "public const string Default = GroupName + \"."@ + ep + "\";"@);
        lemma_contains_trans(t, c, "public const string Detail = Default + \".Detail\";"@);
        lemma_contains_trans(t, c, "public const string Edit = Default + \".Edit\";"@);
        lemma_contains_trans(t, c, "public const string Create = Default + \".Create\";"@);
        lemma_contains_trans(t, c, "public const string Delete = Default + \".Delete\";"@);
    }
}

fn permissions_class_exec(ep: &str) -> (r: String)
    ensures
        r@ == permissions_class(ep@),
{
    let mut r = copy_str("\n    public static ");
    push_str(&mut r, "class ");
    push_str(&mut r, ep);
    push_str(&mut r, "\n    {\n        public const string Default = GroupName + \".");
    push_str(&mut r, ep);
    push_str(
        &mut r,
        "\";\n         public const string Detail = Default + \".Detail\";\n       public const string Edit = Default + \".Edit\";\n        public const string Create = Default + \".Create\";\n        public const string Delete = Default + \".Delete\";\n    }\n",
    );
    r
}

fn provider_lines_exec(el: &str, ep: &str, short: &str) -> (r: String)
    ensures
        r@ == provider_lines(el@, ep@, short@),
{
    let mut r = copy_str("\n        ");
    push_str(&mut r, "var ");
    push_str(&mut r, el);
    push_str(&mut r, "Permission");
    push_str(&mut r, " = myGroup.AddPermission(");
    push_str(&mut r, short);
    push_str(&mut r, "Permissions.");
    push_str(&mut r, ep);
    push_str(&mut r, ".Default, L(\"Permission:");
    push_str(&mut r, ep);
    push_str(&mut r, "\"));\n        ");
    push_str(&mut r, el);
    push_str(&mut r, "Permission.AddChild(");
    push_str(&mut r, short);
    push_str(&mut r, "Permissions.");
    push_str(&mut r, ep);
    push_str(&mut r, ".Create, L(\"Permission:Create\"));\n         ");
    push_str(&mut r, el);
    push_str(&mut r, "Permission.AddChild(");
    push_str(&mut r, short);
    push_str(&mut r, "Permissions.");
    push_str(&mut r, ep);
    push_str(&mut r, ".Detail, L(\"Permission:Detail\"));\n       ");
    push_str(&mut r, el);
    push_str(&mut r, "Permission.AddChild(");
    push_str(&mut r, short);
    push_str(&mut r, "Permissions.");
    push_str(&mut r, ep);
    push_str(&mut r, ".Edit, L(\"Permission:Edit\"));\n        ");
    push_str(&mut r, el);
    push_str(&mut r, "Permission.AddChild(");
    push_str(&mut r, short);
    push_str(&mut r, "Permissions.");
    push_str(&mut r, ep);
    push_str(&mut r, ".Delete, L(\"Permission:Delete\"));\n");
    r
}

/// Adds the entity's nested class to the `…Permissions` class unless a class
/// of that name is present.
pub fn merge_permissions_class(src: &str, context: &MergeContext) -> (r: Result<
    (String, StepOutcome),
    String,
>)
    ensures
        r is Err <==> (!contains(src@, permissions_marker(context.entity_plural@)) && !regex_compiles(
            permissions_pattern(context.short@),
        )),
        r matches Err(e) ==> e@ == invalid_pattern_msg(permissions_pattern(context.short@)),
        r matches Ok(p) ==> p.0@ == permissions_text(src@, context.short@, context.entity_plural@)
            && step_ok(src@, p.0@, permissions_marker(context.entity_plural@), p.1),
{
    let mut marker = copy_str("class ");
    push_str(&mut marker, context.entity_plural.as_str());
    let mut pattern = copy_str("public\\s+static\\s+class\\s+");
    let esc = regex_escape(context.short.as_str());
    push_str(&mut pattern, esc.as_str());
    push_str(&mut pattern, "Permissions");
    let nested = permissions_class_exec(context.entity_plural.as_str());
    guarded_class_step(src, marker.as_str(), pattern.as_str(), nested.as_str(), true)
}

/// Adds the entity's permission definitions to `Define` unless they are
/// present.
pub fn merge_permission_provider(src: &str, context: &MergeContext) -> (r: Result<
    (String, StepOutcome),
    String,
>)
    ensures
        r is Err <==> (!contains(src@, provider_marker(context.entity_lower@)) && !regex_compiles(
            define_pattern(),
        )),
        r matches Err(e) ==> e@ == invalid_pattern_msg(define_pattern()),
        r matches Ok(p) ==> p.0@ == provider_text(
            src@,
            context.entity_lower@,
            context.entity_plural@,
            context.short@,
        ) && step_ok(src@, p.0@, provider_marker(context.entity_lower@), p.1),
{
    let mut marker = copy_str("var ");
    push_str(&mut marker, context.entity_lower.as_str());
    push_str(&mut marker, "Permission");
    let pattern = copy_str(
        "public\\s+override\\s+void\\s+Define\\s*\\(\\s*IPermissionDefinitionContext\\s+context\\s*\\)\\s*",
    );
    let lines = provider_lines_exec(
        context.entity_lower.as_str(),
        context.entity_plural.as_str(),
        context.short.as_str(),
    );
    guarded_method_step(src, marker.as_str(), pattern.as_str(), lines.as_str())
}

} // verus!
