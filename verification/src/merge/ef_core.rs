//! Registration of an entity in the EF Core `DbContext`.
use crate::merge::{
    MergeContext, StepOutcome, ensure_using, ensure_using_spec, guarded_class_insert,
    guarded_class_step, guarded_method_insert, guarded_method_step, invalid_pattern_msg, step_ok,
};
use crate::merge::permissions::{
    lemma_permissions_idempotent, lemma_provider_idempotent, permissions_text, provider_text,
};
use crate::merge::{
    brace_free, lemma_ensure_using_contains, lemma_insert_before_close_keeps,
    lemma_insert_inside_class_keeps,
};
use crate::pattern::{escape_spec, regex_compiles, regex_escape, regex_first_match};
use crate::text::single_line;
use crate::text::{contains, copy_str, push_str};
use vstd::prelude::*;

verus! {

pub open spec fn entity_using(namespace: Seq<char>) -> Seq<char> {
    "using "@ + namespace + ";"@
}

pub open spec fn dbset_line(e: Seq<char>, ep: Seq<char>) -> Seq<char> {
    "public DbSet<"@ + e + "> "@ + ep + " { get; set; } = null!;"@
}

pub open spec fn dbset_insertion(e: Seq<char>, ep: Seq<char>) -> Seq<char> {
    "\n    "@ + dbset_line(e, ep) + "\n"@
}

pub open spec fn dbcontext_pattern(short: Seq<char>) -> Seq<char> {
    "class\\s+"@ + escape_spec(short) + "\\s*DbContext\\s*:"@
}

pub open spec fn configure_call(e: Seq<char>) -> Seq<char> {
    "builder.Configure"@ + e + "();"@
}

pub open spec fn configure_insertion(e: Seq<char>) -> Seq<char> {
    "\n        "@ + configure_call(e) + "\n"@
}

pub open spec fn on_model_creating_pattern() -> Seq<char> {
    "protected\\s+override\\s+void\\s+OnModelCreating\\s*\\(\\s*ModelBuilder\\s+builder\\s*\\)\\s*"@
}

/// The source after the `using` directive of the entity namespace is ensured.
pub open spec fn dbcontext_after_using(src: Seq<char>, ns: Seq<char>) -> Seq<char> {
    ensure_using_spec(src, entity_using(ns))
}

/// The source after the `DbSet` property is ensured.
pub open spec fn dbcontext_after_dbset(src: Seq<char>, c: (Seq<char>, Seq<char>, Seq<char>, Seq<char>)) -> Seq<char> {
    guarded_class_insert(
        dbcontext_after_using(src, c.3),
        dbset_line(c.0, c.1),
        dbcontext_pattern(c.2),
        dbset_insertion(c.0, c.1),
        false,
    )
}

/// The `DbContext` source with the entity's using directive, `DbSet`
/// property and `OnModelCreating` configuration call; `c` is (entity,
/// plural, domain short name, namespace).
pub open spec fn dbcontext_text(src: Seq<char>, c: (Seq<char>, Seq<char>, Seq<char>, Seq<char>)) -> Seq<char> {
    guarded_method_insert(
        dbcontext_after_dbset(src, c),
        configure_call(c.0),
        on_model_creating_pattern(),
        configure_insertion(c.0),
    )
}

pub open spec fn context_names(c: MergeContext) -> (Seq<char>, Seq<char>, Seq<char>, Seq<char>) {
    (c.entity@, c.entity_plural@, c.short@, c.namespace@)
}

/// Merges the entity into the `DbContext` source; reports how the `DbSet`
/// and the configuration call steps ended.
pub fn merge_db_context(src: &str, context: &MergeContext) -> (r: Result<
    (String, StepOutcome, StepOutcome),
    String,
>)
    ensures
        ({
            let c = context_names(*context);
            let s1 = dbcontext_after_using(src@, c.3);
            let s2 = dbcontext_after_dbset(src@, c);
            let e1 = !contains(s1, dbset_line(c.0, c.1)) && !regex_compiles(dbcontext_pattern(c.2));
            let e2 = !contains(s2, configure_call(c.0)) && !regex_compiles(
                on_model_creating_pattern(),
            );
            &&& r is Err <==> (e1 || e2)
            &&& r matches Err(e) ==> if e1 {
                e@ == invalid_pattern_msg(dbcontext_pattern(c.2))
            } else {
                e@ == invalid_pattern_msg(on_model_creating_pattern())
            }
            &&& r matches Ok(p) ==> ((single_line(c.3) && brace_free(c.3)) ==> contains(
                p.0@,
                crate::text::trim("using "@ + c.3 + ";"@),
            ))
            &&& r matches Ok(p) ==> {
                &&& p.0@ == dbcontext_text(src@, c)
                &&& step_ok(s1, s2, dbset_line(c.0, c.1), p.1)
                &&& step_ok(s2, p.0@, configure_call(c.0), p.2)
            }
        }),
{
    let mut using = copy_str("using ");
    push_str(&mut using, context.namespace.as_str());
    push_str(&mut using, ";");
    let s1 = ensure_using(src, using.as_str());

    let e = context.entity.as_str();
    let mut line = copy_str("public DbSet<");
    push_str(&mut line, e);
    push_str(&mut line, "> ");
    push_str(&mut line, context.entity_plural.as_str());
    push_str(&mut line, " { get; set; } = null!;");
    let mut ins = copy_str("\n    ");
    push_str(&mut ins, line.as_str());
    push_str(&mut ins, "\n");
    let mut pattern = copy_str("class\\s+");
    let esc = regex_escape(context.short.as_str());
    push_str(&mut pattern, esc.as_str());
    push_str(&mut pattern, "\\s*DbContext\\s*:");
    let (s2, o1) = guarded_class_step(s1.as_str(), line.as_str(), pattern.as_str(), ins.as_str(), false)?;

    let mut call = copy_str("builder.Configure");
    push_str(&mut call, e);
    push_str(&mut call, "();");
    let mut call_ins = copy_str("\n        ");
    push_str(&mut call_ins, call.as_str());
    push_str(&mut call_ins, "\n");
    let omc = copy_str(
        "protected\\s+override\\s+void\\s+OnModelCreating\\s*\\(\\s*ModelBuilder\\s+builder\\s*\\)\\s*",
    );
    let (s3, o2) = guarded_method_step(s2.as_str(), call.as_str(), omc.as_str(), call_ins.as_str())?;
    proof {
        let c = context_names(*context);
        if single_line(c.3) && brace_free(c.3) {
            lemma_db_context_has_using(src@, c);
        }
    }
    Ok((s3, o1, o2))
}

/// Law: a `DbContext` that already holds the entity's `using` directive,
/// `DbSet` property and configuration call is left unchanged by the merge.
pub proof fn lemma_db_context_registered_unchanged(src: Seq<char>, c: (Seq<char>, Seq<char>, Seq<char>, Seq<char>))
    requires
        contains(src, crate::text::trim(entity_using(c.3))),
        contains(src, dbset_line(c.0, c.1)),
        contains(src, configure_call(c.0)),
    ensures
        dbcontext_text(src, c) == src,
{
}

/// Law: after the merge the `DbContext` holds the directive
/// `using <entity namespace>;`, so the `DbSet` of the entity resolves (for a
/// namespace without braces or line breaks, as every C# namespace is).
pub proof fn lemma_db_context_has_using(src: Seq<char>, c: (Seq<char>, Seq<char>, Seq<char>, Seq<char>))
    requires
        single_line(c.3),
        brace_free(c.3),
    ensures
        contains(dbcontext_text(src, c), crate::text::trim("using "@ + c.3 + ";"@)),
{
    let u = entity_using(c.3);
    assert(u == crate::merge::web::using_of(c.3));
    crate::merge::web::lemma_using_trim_safe(c.3);
    let m = crate::text::trim(u);
    let s1 = dbcontext_after_using(src, c.3);
    let s2 = dbcontext_after_dbset(src, c);
    lemma_ensure_using_contains(src, u);
    if !contains(s1, dbset_line(c.0, c.1)) {
        lemma_insert_inside_class_keeps(
            s1,
            regex_first_match(dbcontext_pattern(c.2), s1),
            dbset_insertion(c.0, c.1),
            false,
            m,
        );
    }
    if !contains(s2, configure_call(c.0)) {
        lemma_insert_before_close_keeps(
            s2,
            regex_first_match(on_model_creating_pattern(), s2),
            configure_insertion(c.0),
            m,
        );
    }
}

/// Law: merging an entity into the core files a second time, on the results
/// of the first merge, changes nothing: the `…Permissions` class and the
/// permission definition provider in every case, and the `DbContext`
/// whenever the first merge left it holding the entity's `DbSet` property
/// and configuration call (its `using` directive always stays, for a
/// namespace without braces or line breaks).
pub proof fn lemma_core_merges_idempotent(
    permissions_src: Seq<char>,
    provider_src: Seq<char>,
    db_src: Seq<char>,
    context: MergeContext,
)
    ensures
        ({
            let once = permissions_text(permissions_src, context.short@, context.entity_plural@);
            permissions_text(once, context.short@, context.entity_plural@) == once
        }),
        ({
            let once = provider_text(
                provider_src,
                context.entity_lower@,
                context.entity_plural@,
                context.short@,
            );
            provider_text(once, context.entity_lower@, context.entity_plural@, context.short@)
                == once
        }),
        ({
            let c = context_names(context);
            let once = dbcontext_text(db_src, c);
            (single_line(c.3) && brace_free(c.3) && contains(once, dbset_line(c.0, c.1)) && contains(
                once,
                configure_call(c.0),
            )) ==> dbcontext_text(once, c) == once
        }),
{
    lemma_permissions_idempotent(permissions_src, context.short@, context.entity_plural@);
    lemma_provider_idempotent(
        provider_src,
        context.entity_lower@,
        context.entity_plural@,
        context.short@,
    );
    let c = context_names(context);
    let once = dbcontext_text(db_src, c);
    if single_line(c.3) && brace_free(c.3) && contains(once, dbset_line(c.0, c.1)) && contains(
        once,
        configure_call(c.0),
    ) {
        lemma_db_context_has_using(db_src, c);
        lemma_db_context_registered_unchanged(once, c);
    }
}

} // verus!
