//! Registration of the theme toolbar in the Web module of an MVC host.
use crate::merge::{
    block_after, block_after_exec, brace_free, cut_ok, insert_at, insert_at_exec,
    lemma_block_after_braces, lemma_cut_at_brace, lemma_cut_at_line_start, lemma_insert_at_keeps,
};
use crate::pattern::{escape_spec, regex_compiles, regex_escape, regex_find, regex_first_match};
use crate::text::{
    chars_of, contains, copy_str, find, find_exec, find_from, find_from_exec, is_ws, is_ws_char,
    lemma_find_from_sound, opt_int, push_str, rfind, rfind_exec, str_contains, str_eq,
    string_of_range, lemma_find_contains, lemma_rfind_from_sound, lemma_contains_prefix,
    lemma_contains_trans, single_line, occurs_at, rfind_from,
};
use vstd::prelude::*;

verus! {

pub open spec fn toolbar_using() -> Seq<char> {
    "using Volo.Abp.AspNetCore.Mvc.UI.Theme.Shared.Toolbars;"@
}

pub open spec fn domain_toolbar_using(domain: Seq<char>) -> Seq<char> {
    "using "@ + domain + ".Web.Toolbars;"@
}

/// `s` with `line` on a line of its own before the `namespace` line, or at
/// the top; unchanged when `s` holds it.
pub open spec fn add_using_line(s: Seq<char>, line: Seq<char>) -> Seq<char> {
    if contains(s, line) {
        s
    } else {
        match find(s, "\nnamespace"@) {
            Some(p) => insert_at(s, p + 1, line + "\n"@),
            None => insert_at(s, 0, line + "\n"@),
        }
    }
}

pub open spec fn services_pattern() -> Seq<char> {
    "(?m)^\\s*(?:public\\s+|protected\\s+|private\\s+|internal\\s+)?(?:override\\s+)?void\\s+"@
        + escape_spec("ConfigureServices"@) + "\\s*\\("@
}

pub open spec fn module_class_pattern() -> Seq<char> {
    "class\\s+\\w*WebModule"@
}

/// Start of the line that holds position `p`.
pub open spec fn line_start(s: Seq<char>, p: int) -> int {
    match rfind(s.take(p), "\n"@) {
        Some(i) => i + 1,
        None => 0,
    }
}

/// Start of the line that holds position `p`, or `p` itself when no line
/// break precedes it.
pub open spec fn line_start_or(s: Seq<char>, p: int) -> int {
    match rfind(s.take(p), "\n"@) {
        Some(i) => i + 1,
        None => p,
    }
}

/// The white space that starts at position `i`.
pub open spec fn ws_run(s: Seq<char>, i: int) -> Seq<char>
    decreases s.len() - i,
{
    if 0 <= i < s.len() && is_ws(s[i]) {
        seq![s[i]] + ws_run(s, i + 1)
    } else {
        Seq::empty()
    }
}

/// The braces of the block after the first match of `pattern`, with the
/// white space that starts the match's line.
pub open spec fn block_with_indent(s: Seq<char>, pattern: Seq<char>) -> Option<(int, int, Seq<char>)> {
    if !regex_compiles(pattern) {
        None
    } else {
        match regex_first_match(pattern, s) {
            None => None,
            Some(m) => match block_after(s, m.1) {
                None => None,
                Some(b) => Some((b.0, b.1, ws_run(s, line_start(s, m.0)))),
            },
        }
    }
}

/// `s` with `ConfigureToolbars();` in the method block `b`: after the line
/// that calls `ConfigureBundles`, or on the line before the closing brace.
pub open spec fn add_toolbar_call(s: Seq<char>, b: (int, int, Seq<char>)) -> Seq<char> {
    let body_start = b.0 + 1;
    let body = s.subrange(body_start, b.1);
    if contains(body, "ConfigureToolbars();"@) {
        s
    } else {
        let ins = b.2 + "    "@ + "ConfigureToolbars();\n"@;
        let pos = match find(body, "ConfigureBundles"@) {
            Some(idx) => match find_from(s, "\n"@, body_start + idx) {
                Some(n) => n + 1,
                None => b.1,
            },
            None => line_start_or(s, b.1),
        };
        insert_at(s, pos, ins)
    }
}

/// The `ConfigureToolbars` method, its lines indented by `ind`.
pub open spec fn toolbar_method(ind: Seq<char>) -> Seq<char> {
    "\n"@ + ind + "private void ConfigureToolbars()\n"@ + ind + "{\n"@ + ind
        + "    Configure<AbpToolbarOptions>(options =>\n"@ + ind + "    {\n"@ + ind
        + "        options.Contributors.Add(new ChangeThemeToolbarContributor());\n"@ + ind + "    });\n"@
        + ind + "}\n"@
}

pub open spec fn usings_step(src: Seq<char>, domain: Seq<char>) -> Seq<char> {
    add_using_line(add_using_line(src, toolbar_using()), domain_toolbar_using(domain))
}

pub open spec fn services_step(s: Seq<char>) -> Seq<char> {
    match block_with_indent(s, services_pattern()) {
        Some(b) => add_toolbar_call(s, b),
        None => s,
    }
}

pub open spec fn method_step(s: Seq<char>) -> Seq<char> {
    if contains(s, "void ConfigureToolbars("@) {
        s
    } else {
        match block_with_indent(s, module_class_pattern()) {
            Some(b) => insert_at(s, line_start_or(s, b.1), toolbar_method(b.2 + "    "@)),
            None => s,
        }
    }
}

/// The Web module with the toolbar usings, the `ConfigureToolbars();` call
/// in `ConfigureServices` and the `ConfigureToolbars` method.
pub open spec fn toolbars_text(src: Seq<char>, domain: Seq<char>) -> Seq<char> {
    method_step(services_step(usings_step(src, domain)))
}

/// The start of the line of a closing brace cuts no brace-free text without
/// line breaks.
proof fn lemma_line_start_or_cut(s: Seq<char>, p: int, m: Seq<char>)
    requires
        0 <= p < s.len(),
        s[p] == '}',
        single_line(m),
        brace_free(m),
    ensures
        0 <= line_start_or(s, p) <= p,
        cut_ok(s, line_start_or(s, p), m),
{
    let h = s.take(p);
    reveal_strlit("\n");
    lemma_rfind_from_sound(h, "\n"@, h.len() - "\n"@.len());
    match rfind(h, "\n"@) {
        Some(i) => {
            assert(h.subrange(i, i + 1) == "\n"@);
            assert(h.subrange(i, i + 1)[0] == h[i]);
            assert(s[i] == '\n');
            lemma_cut_at_line_start(s, i + 1, m);
        },
        None => {
            lemma_cut_at_brace(s, p, m);
        },
    }
}

/// Adding a using line keeps every text without line breaks.
proof fn lemma_add_using_line_keeps(s: Seq<char>, line: Seq<char>, m: Seq<char>)
    requires
        contains(s, m),
        single_line(m),
    ensures
        contains(add_using_line(s, line), m),
{
    if !contains(s, line) {
        lemma_find_contains(s, "\nnamespace"@);
        match find(s, "\nnamespace"@) {
            Some(p) => {
                reveal_strlit("\nnamespace");
                assert(s.subrange(p, p + 10) == "\nnamespace"@);
                assert(s.subrange(p, p + 10)[0] == s[p]);
                lemma_cut_at_line_start(s, p + 1, m);
                lemma_insert_at_keeps(s, p + 1, line + "\n"@, m);
            },
            None => {
                lemma_cut_at_line_start(s, 0, m);
                lemma_insert_at_keeps(s, 0, line + "\n"@, m);
            },
        }
    }
}

/// After adding a using line, the text holds it.
proof fn lemma_add_using_line_has(s: Seq<char>, line: Seq<char>)
    ensures
        contains(add_using_line(s, line), line),
{
    if !contains(s, line) {
        let p = match find(s, "\nnamespace"@) {
            Some(p) => p + 1,
            None => 0,
        };
        lemma_find_contains(s, "\nnamespace"@);
        reveal_strlit("\nnamespace");
        crate::merge::lemma_insert_at_contains(s, p, line + "\n"@);
        lemma_contains_prefix(line, "\n"@);
        lemma_contains_trans(add_using_line(s, line), line + "\n"@, line);
    }
}

/// The call insertion into `ConfigureServices` keeps every brace-free text
/// without line breaks.
proof fn lemma_services_step_keeps(s: Seq<char>, m: Seq<char>)
    requires
        contains(s, m),
        single_line(m),
        brace_free(m),
    ensures
        contains(services_step(s), m),
{
    if let Some(b) = block_with_indent(s, services_pattern()) {
        let mm = regex_first_match(services_pattern(), s).unwrap();
        lemma_block_after_braces(s, mm.1);
        let body_start = b.0 + 1;
        let body = s.subrange(body_start, b.1);
        if !contains(body, "ConfigureToolbars();"@) {
            let ins = b.2 + "    "@ + "ConfigureToolbars();\n"@;
            lemma_find_contains(body, "ConfigureBundles"@);
            match find(body, "ConfigureBundles"@) {
                Some(idx) => {
                    lemma_find_from_sound(s, "\n"@, body_start + idx);
                    match find_from(s, "\n"@, body_start + idx) {
                        Some(n) => {
                            reveal_strlit("\n");
                            assert(s.subrange(n, n + 1) == "\n"@);
                            assert(s.subrange(n, n + 1)[0] == s[n]);
                            lemma_cut_at_line_start(s, n + 1, m);
                            lemma_insert_at_keeps(s, n + 1, ins, m);
                        },
                        None => {
                            lemma_cut_at_brace(s, b.1, m);
                            lemma_insert_at_keeps(s, b.1, ins, m);
                        },
                    }
                },
                None => {
                    lemma_line_start_or_cut(s, b.1, m);
                    lemma_insert_at_keeps(s, line_start_or(s, b.1), ins, m);
                },
            }
        }
    }
}

/// The method insertion keeps every brace-free text without line breaks.
proof fn lemma_method_step_keeps(s: Seq<char>, m: Seq<char>)
    requires
        contains(s, m),
        single_line(m),
        brace_free(m),
    ensures
        contains(method_step(s), m),
{
    if !contains(s, "void ConfigureToolbars("@) {
        if let Some(b) = block_with_indent(s, module_class_pattern()) {
            let mm = regex_first_match(module_class_pattern(), s).unwrap();
            lemma_block_after_braces(s, mm.1);
            lemma_line_start_or_cut(s, b.1, m);
            lemma_insert_at_keeps(s, line_start_or(s, b.1), toolbar_method(b.2 + "    "@), m);
        }
    }
}

/// Law: the toolbar usings stay through the whole patch, so a second patch
/// adds none; and where the first patch left `ConfigureServices` calling
/// `ConfigureToolbars()` (the services step finds nothing more to do) and
/// the method present, a second patch changes nothing.
pub proof fn lemma_toolbars_second_patch(src: Seq<char>, domain: Seq<char>)
    requires
        single_line(domain),
        brace_free(domain),
    ensures
        ({
            let t = toolbars_text(src, domain);
            &&& usings_step(t, domain) == t
            &&& (services_step(t) == t && contains(t, "void ConfigureToolbars("@)) ==> toolbars_text(t, domain)
                == t
        }),
{
    reveal_strlit("using Volo.Abp.AspNetCore.Mvc.UI.Theme.Shared.Toolbars;");
    reveal_strlit("using ");
    reveal_strlit(".Web.Toolbars;");
    let l1 = toolbar_using();
    let l2 = domain_toolbar_using(domain);
    assert(single_line(l1) && brace_free(l1));
    assert forall|i: int| 0 <= i < l2.len() implies #[trigger] l2[i] != '\n' && l2[i] != '\r' && l2[i]
        != '{' && l2[i] != '}' by {
        if 6 <= i < 6 + domain.len() {
            assert(l2[i] == domain[i - 6]);
        }
    }
    let a = add_using_line(src, l1);
    let u = add_using_line(a, l2);
    lemma_add_using_line_has(src, l1);
    lemma_add_using_line_keeps(a, l2, l1);
    lemma_add_using_line_has(a, l2);
    let v = services_step(u);
    lemma_services_step_keeps(u, l1);
    lemma_services_step_keeps(u, l2);
    let t = method_step(v);
    lemma_method_step_keeps(v, l1);
    lemma_method_step_keeps(v, l2);
    assert(add_using_line(t, l1) == t);
    assert(usings_step(t, domain) == t);
}

/// The patched Web module and what could not be patched.
pub struct ToolbarPatch {
    pub text: String,
    pub changed: bool,
    /// `ConfigureServices` was not found, so no call was added.
    pub services_missing: bool,
    /// The method was missing and the module class was not found.
    pub class_missing: bool,
}

fn add_using_line_exec(s: String, line: &str) -> (r: String)
    ensures
        r@ == add_using_line(s@, line@),
{
    if str_contains(s.as_str(), line) {
        return s;
    }
    let cs = chars_of(s.as_str());
    let total = cs.len();
    let pat = chars_of("\nnamespace");
    let mut ins = copy_str(line);
    push_str(&mut ins, "\n");
    match find_exec(&cs, &pat) {
        Some(p) => {
            proof {
                lemma_find_from_sound(cs@, pat@, 0);
                reveal_strlit("\nnamespace");
                assert(pat@.len() == 10);
                assert(p + 10 <= total);
            }
            insert_at_exec(&cs, p + 1, ins.as_str())
        },
        None => insert_at_exec(&cs, 0, ins.as_str()),
    }
}

pub(crate) fn line_start_exec(cs: &[char], p: usize, or_p: bool) -> (r: usize)
    requires
        p <= cs.len(),
    ensures
        r == if or_p {
            line_start_or(cs@, p as int)
        } else {
            line_start(cs@, p as int)
        },
        r <= p,
{
    let prefix = string_of_range(cs, 0, p);
    let pc = chars_of(prefix.as_str());
    let nl = chars_of("\n");
    assert(pc@ =~= cs@.take(p as int));
    match rfind_exec(&pc, &nl) {
        Some(i) => {
            proof {
                crate::text::lemma_rfind_from_sound(pc@, nl@, pc@.len() - nl@.len());
                reveal_strlit("\n");
                assert(nl@.len() == 1);
            }
            i + 1
        },
        None => if or_p {
            p
        } else {
            0
        },
    }
}

pub(crate) fn ws_run_exec(cs: &[char], i: usize) -> (r: String)
    ensures
        r@ == ws_run(cs@, i as int),
{
    let mut k = i;
    while k < cs.len() && is_ws_char(cs[k])
        invariant
            i <= k,
            forall|j: int| i <= j < k ==> j < cs@.len() && is_ws(cs@[j]),
        decreases cs.len() - k,
    {
        k = k + 1;
    }
    let end = if k <= cs.len() { k } else { cs.len() };
    let r = if i <= end { string_of_range(cs, i, end) } else { String::new() };
    proof {
        lemma_ws_run(cs@, i as int, end as int);
    }
    r
}

proof fn lemma_ws_run(s: Seq<char>, i: int, end: int)
    requires
        0 <= i,
        end <= s.len(),
        forall|j: int| i <= j < end ==> is_ws(s[j]),
        end < s.len() ==> !is_ws(s[end]) || end < i,
        i <= end || i >= s.len() || !is_ws(s[i]),
    ensures
        ws_run(s, i) == if i <= end {
            s.subrange(i, end)
        } else {
            Seq::empty()
        },
    decreases end - i,
{
    if i < end {
        lemma_ws_run(s, i + 1, end);
        assert(s.subrange(i, end) =~= seq![s[i]] + s.subrange(i + 1, end));
    } else if i == end {
        assert(s.subrange(i, end) =~= Seq::<char>::empty());
    }
}

fn block_with_indent_exec(s: &str, pattern: &str) -> (r: Option<(usize, usize, String)>)
    ensures
        match (r, block_with_indent(s@, pattern@)) {
            (Some(a), Some(b)) => a.0 == b.0 && a.1 == b.1 && a.2@ == b.2 && a.0 < a.1 < s@.len(),
            (None, None) => true,
            _ => false,
        },
{
    let m = match regex_find(pattern, s) {
        Ok(Some(m)) => m,
        _ => return None,
    };
    let cs = chars_of(s);
    match block_after_exec(&cs, m.1) {
        None => None,
        Some((o, c)) => {
            let ls = line_start_exec(&cs, m.0, false);
            let ind = ws_run_exec(&cs, ls);
            Some((o, c, ind))
        },
    }
}

fn add_toolbar_call_exec(s: String, o: usize, c: usize, ind: &str) -> (r: String)
    requires
        o < c < s@.len(),
    ensures
        r@ == add_toolbar_call(s@, (o as int, c as int, ind@)),
{
    let cs = chars_of(s.as_str());
    let body = string_of_range(&cs, o + 1, c);
    if str_contains(body.as_str(), "ConfigureToolbars();") {
        return s;
    }
    let mut ins = copy_str(ind);
    push_str(&mut ins, "    ");
    push_str(&mut ins, "ConfigureToolbars();\n");
    let bc = chars_of(body.as_str());
    let cb = chars_of("ConfigureBundles");
    let pos = match find_exec(&bc, &cb) {
        Some(idx) => {
            proof {
                lemma_find_from_sound(bc@, cb@, 0);
            }
            let nl = chars_of("\n");
            match find_from_exec(&cs, &nl, o + 1 + idx) {
                Some(n) => {
                    proof {
                        lemma_find_from_sound(cs@, nl@, o + 1 + idx);
                        reveal_strlit("\n");
                        assert(nl@.len() == 1);
                    }
                    assert(n + 1 <= cs.len());
                    n + 1
                },
                None => c,
            }
        },
        None => line_start_exec(&cs, c, true),
    };
    insert_at_exec(&cs, pos, ins.as_str())
}

fn toolbar_method_exec(ind: &str) -> (r: String)
    ensures
        r@ == toolbar_method(ind@),
{
    let mut r = copy_str("\n");
    push_str(&mut r, ind);
    push_str(&mut r, "private void ConfigureToolbars()\n");
    push_str(&mut r, ind);
    push_str(&mut r, "{\n");
    push_str(&mut r, ind);
    push_str(&mut r, "    Configure<AbpToolbarOptions>(options =>\n");
    push_str(&mut r, ind);
    push_str(&mut r, "    {\n");
    push_str(&mut r, ind);
    push_str(&mut r, "        options.Contributors.Add(new ChangeThemeToolbarContributor());\n");
    push_str(&mut r, ind);
    push_str(&mut r, "    });\n");
    push_str(&mut r, ind);
    push_str(&mut r, "}\n");
    r
}

/// Registers the theme toolbar in the Web module text `src` of `domain`.
pub fn patch_web_module_toolbars(src: &str, domain: &str) -> (r: ToolbarPatch)
    ensures
        r.text@ == toolbars_text(src@, domain@),
        r.changed == (r.text@ != src@),
        r.services_missing == (block_with_indent(usings_step(src@, domain@), services_pattern()) is None),
        r.class_missing == ({
            let s2 = services_step(usings_step(src@, domain@));
            !contains(s2, "void ConfigureToolbars("@) && block_with_indent(s2, module_class_pattern()) is None
        }),
{
    let mut du = copy_str("using ");
    push_str(&mut du, domain);
    push_str(&mut du, ".Web.Toolbars;");
    let s = add_using_line_exec(copy_str(src), "using Volo.Abp.AspNetCore.Mvc.UI.Theme.Shared.Toolbars;");
    let s1 = add_using_line_exec(s, du.as_str());
    let esc = regex_escape("ConfigureServices");
    let mut sp = copy_str(
        "(?m)^\\s*(?:public\\s+|protected\\s+|private\\s+|internal\\s+)?(?:override\\s+)?void\\s+",
    );
    push_str(&mut sp, esc.as_str());
    push_str(&mut sp, "\\s*\\(");
    let svc = block_with_indent_exec(s1.as_str(), sp.as_str());
    let services_missing = svc.is_none();
    let s2 = match svc {
        Some((o, c, ind)) => add_toolbar_call_exec(s1, o, c, ind.as_str()),
        None => s1,
    };
    let mut class_missing = false;
    let s3 = if str_contains(s2.as_str(), "void ConfigureToolbars(") {
        s2
    } else {
        match block_with_indent_exec(s2.as_str(), "class\\s+\\w*WebModule") {
            Some((_, c, ind)) => {
                let cs = chars_of(s2.as_str());
                let pos = line_start_exec(&cs, c, true);
                let mut mi = copy_str(ind.as_str());
                push_str(&mut mi, "    ");
                let snippet = toolbar_method_exec(mi.as_str());
                insert_at_exec(&cs, pos, snippet.as_str())
            },
            None => {
                class_missing = true;
                s2
            },
        }
    };
    let changed = !str_eq(s3.as_str(), src);
    ToolbarPatch { text: s3, changed, services_missing, class_missing }
}

} // verus!
