//! Registration of a generated entity in a React Native app: the drawer
//! navigator, the drawer menu and the template placeholders.
use crate::mapping::Mapping;
use crate::merge::{insert_at, insert_at_exec};
use crate::naming::{plural, pluralize};
use crate::text::{
    chars_of, contains, copy_str, find, find_exec, lemma_find_from_sound, push_str, replace_all,
    replace_exec, str_contains, string_of_range,
};
use crate::theme::replace_each;
use vstd::prelude::*;

verus! {

/// The entity name, its plural and the domain's short name that the drawer
/// entries use, read from the placeholders with their fallbacks.
pub open spec fn drawer_names_spec(m: Mapping) -> (Seq<char>, Seq<char>, Seq<char>) {
    let e = match m.get_spec("entity_name"@) {
        Some(v) => v,
        None => match m.get_spec("entity"@) {
            Some(v) => v,
            None => Seq::empty(),
        },
    };
    let p = match m.get_spec("entity_plural"@) {
        Some(v) => v,
        None => match m.get_spec("entity_plural_kebab"@) {
            Some(v) => v,
            None => plural(e),
        },
    };
    let d = match m.get_spec("domain_short"@) {
        Some(v) => v,
        None => "App"@,
    };
    (e, p, d)
}

fn get_or(m: &Mapping, k: &str) -> (r: Option<String>)
    ensures
        match r {
            Some(v) => m.get_spec(k@) == Some(v@),
            None => m.get_spec(k@) is None,
        },
{
    match m.get(k) {
        Some(v) => Some(copy_str(v.as_str())),
        None => None,
    }
}

/// The names that the drawer entries use.
pub fn drawer_names(m: &Mapping) -> (r: (String, String, String))
    ensures
        (r.0@, r.1@, r.2@) == drawer_names_spec(*m),
{
    let e = match get_or(m, "entity_name") {
        Some(v) => v,
        None => match get_or(m, "entity") {
            Some(v) => v,
            None => String::new(),
        },
    };
    let p = match get_or(m, "entity_plural") {
        Some(v) => v,
        None => match get_or(m, "entity_plural_kebab") {
            Some(v) => v,
            None => pluralize(e.as_str()),
        },
    };
    let d = match get_or(m, "domain_short") {
        Some(v) => v,
        None => copy_str("App"),
    };
    (e, p, d)
}

pub open spec fn single_brace_options() -> Seq<char> {
    "options={ header: () => null }"@
}

pub open spec fn double_brace_options() -> Seq<char> {
    "options={{ header: () => null }}"@
}

pub open spec fn navigator_import(e: Seq<char>, p: Seq<char>) -> Seq<char> {
    "import "@ + e + "StackNavigator from './"@ + p + "Navigator';"@
}

pub open spec fn drawer_screen(e: Seq<char>, p: Seq<char>) -> Seq<char> {
    "      <Drawer.Screen\n        name=\""@ + p + "Stack\"\n        component={"@ + e
        + "StackNavigator}\n        options={{ header: () => null }}\n      />\n"@
}

pub open spec fn screen_name_attr(p: Seq<char>) -> Seq<char> {
    "name=\""@ + p + "Stack\""@
}

/// The navigator with the stack's import before the header import (or the
/// drawer declaration, or at the top) unless it is there.
pub open spec fn with_navigator_import(t: Seq<char>, e: Seq<char>, p: Seq<char>) -> Seq<char> {
    if contains(t, navigator_import(e, p)) {
        t
    } else {
        let pos = match find(t, "import HeaderBackground"@) {
            Some(i) => i,
            None => match find(t, "const Drawer"@) {
                Some(j) => j,
                None => 0,
            },
        };
        insert_at(t, pos, navigator_import(e, p) + "\n"@)
    }
}

/// The navigator with the stack's screen before the tenants screen (or the
/// first screen, or at the end); when the screen is there, its options
/// written with single braces are corrected.
pub open spec fn with_drawer_screen(t: Seq<char>, e: Seq<char>, p: Seq<char>) -> Seq<char> {
    if !contains(t, screen_name_attr(p)) {
        match find(t, "      <Drawer.Screen\n        name=\"TenantsStack\""@) {
            Some(pos) => insert_at(t, pos, drawer_screen(e, p)),
            None => match find(t, "      <Drawer.Screen"@) {
                Some(pos) => insert_at(t, pos, drawer_screen(e, p)),
                None => t + drawer_screen(e, p),
            },
        }
    } else {
        match find(t, screen_name_attr(p)) {
            Some(start) => match find(t.skip(start), "/>"@) {
                Some(end) => {
                    let block = t.skip(start).take(end + 1);
                    if contains(block, single_brace_options()) {
                        replace_all(
                            t,
                            block,
                            replace_all(block, single_brace_options(), double_brace_options()),
                        )
                    } else {
                        t
                    }
                },
                None => t,
            },
            None => t,
        }
    }
}

/// The drawer navigator with the entity's stack registered.
pub open spec fn drawer_navigator_spec(t: Seq<char>, e: Seq<char>, p: Seq<char>) -> Seq<char> {
    replace_all(
        with_drawer_screen(with_navigator_import(t, e, p), e, p),
        single_brace_options(),
        double_brace_options(),
    )
}

fn find_str(t: &str, pat: &str) -> (r: Option<usize>)
    ensures
        match r {
            Some(p) => find(t@, pat@) == Some(p as int) && p + pat@.len() <= t@.len(),
            None => find(t@, pat@) is None,
        },
{
    let tc = chars_of(t);
    let total = tc.len();
    let pc = chars_of(pat);
    let r = find_exec(&tc, &pc);
    proof {
        lemma_find_from_sound(tc@, pc@, 0);
    }
    match r {
        Some(p) => {
            assert(p + pc@.len() <= total);
            Some(p)
        },
        None => None,
    }
}

fn insert_str_at(t: &str, p: usize, ins: &str) -> (r: String)
    requires
        p <= t@.len(),
    ensures
        r@ == insert_at(t@, p as int, ins@),
{
    let tc = chars_of(t);
    insert_at_exec(&tc, p, ins)
}

/// Registers the stack navigator of entity `e` (plural `p`) in the drawer
/// navigator text.
pub fn drawer_navigator_text(text: &str, e: &str, p: &str) -> (r: String)
    ensures
        r@ == drawer_navigator_spec(text@, e@, p@),
{
    let mut imp = copy_str("import ");
    push_str(&mut imp, e);
    push_str(&mut imp, "StackNavigator from './");
    push_str(&mut imp, p);
    push_str(&mut imp, "Navigator';");
    let t1 = if str_contains(text, imp.as_str()) {
        copy_str(text)
    } else {
        let pos = match find_str(text, "import HeaderBackground") {
            Some(i) => i,
            None => match find_str(text, "const Drawer") {
                Some(j) => j,
                None => 0,
            },
        };
        let mut line = copy_str(imp.as_str());
        push_str(&mut line, "\n");
        insert_str_at(text, pos, line.as_str())
    };
    let mut attr = copy_str("name=\"");
    push_str(&mut attr, p);
    push_str(&mut attr, "Stack\"");
    let t2 = if !str_contains(t1.as_str(), attr.as_str()) {
        let mut screen = copy_str("      <Drawer.Screen\n        name=\"");
        push_str(&mut screen, p);
        push_str(&mut screen, "Stack\"\n        component={");
        push_str(&mut screen, e);
        push_str(&mut screen, "StackNavigator}\n        options={{ header: () => null }}\n      />\n");
        match find_str(t1.as_str(), "      <Drawer.Screen\n        name=\"TenantsStack\"") {
            Some(pos) => insert_str_at(t1.as_str(), pos, screen.as_str()),
            None => match find_str(t1.as_str(), "      <Drawer.Screen") {
                Some(pos) => insert_str_at(t1.as_str(), pos, screen.as_str()),
                None => {
                    let mut out = t1;
                    push_str(&mut out, screen.as_str());
                    out
                },
            },
        }
    } else {
        match find_str(t1.as_str(), attr.as_str()) {
            Some(start) => {
                let cs = chars_of(t1.as_str());
                let slice = string_of_range(&cs, start, cs.len());
                assert(slice@ =~= t1@.skip(start as int));
                let sc = chars_of(slice.as_str());
                let slice_len = sc.len();
                proof {
                    reveal_strlit("/>");
                }
                match find_str(slice.as_str(), "/>") {
                    Some(end) => {
                        assert(end + 1 <= slice_len);
                        let block = string_of_range(&sc, 0, end + 1);
                        assert(block@ =~= slice@.take(end + 1));
                        if str_contains(block.as_str(), "options={ header: () => null }") {
                            proof {
                                reveal_strlit("options={ header: () => null }");
                            }
                            assert(block@.len() > 0);
                            let fixed = replace_exec(
                                block.as_str(),
                                "options={ header: () => null }",
                                "options={{ header: () => null }}",
                            );
                            replace_exec(t1.as_str(), block.as_str(), fixed.as_str())
                        } else {
                            t1
                        }
                    },
                    None => t1,
                }
            },
            None => t1,
        }
    };
    proof {
        reveal_strlit("options={ header: () => null }");
    }
    replace_exec(t2.as_str(), "options={ header: () => null }", "options={{ header: () => null }}")
}

pub open spec fn drawer_menu_entry(p: Seq<char>, d: Seq<char>) -> Seq<char> {
    "  "@ + p + "Stack: { label: '"@ + d + "::Menu:"@ + p + "', iconName: 'list', requiredPolicy: '"@ + d + "."@ + p
        + "' },\n"@
}

/// The drawer menu with the entity's entry before the users entry (or at
/// the start of the screens object, or in a new one) unless it is there.
pub open spec fn drawer_content_spec(t: Seq<char>, p: Seq<char>, d: Seq<char>) -> Seq<char> {
    if contains(t, p + "Stack"@) {
        t
    } else {
        match find(t, "  UsersStack"@) {
            Some(pos) => insert_at(t, pos, drawer_menu_entry(p, d)),
            None => match find(t, "const screens = {\n"@) {
                Some(pos) => insert_at(t, pos + "const screens = {\n"@.len(), drawer_menu_entry(p, d)),
                None => t + "\nconst screens = {\n"@ + drawer_menu_entry(p, d) + "};\n"@,
            },
        }
    }
}

/// Adds the entity's drawer menu entry to the drawer content text.
pub fn drawer_content_text(text: &str, p: &str, d: &str) -> (r: String)
    ensures
        r@ == drawer_content_spec(text@, p@, d@),
{
    let mut stack = copy_str(p);
    push_str(&mut stack, "Stack");
    if str_contains(text, stack.as_str()) {
        return copy_str(text);
    }
    let mut entry = copy_str("  ");
    push_str(&mut entry, p);
    push_str(&mut entry, "Stack: { label: '");
    push_str(&mut entry, d);
    push_str(&mut entry, "::Menu:");
    push_str(&mut entry, p);
    push_str(&mut entry, "', iconName: 'list', requiredPolicy: '");
    push_str(&mut entry, d);
    push_str(&mut entry, ".");
    push_str(&mut entry, p);
    push_str(&mut entry, "' },\n");
    match find_str(text, "  UsersStack") {
        Some(pos) => insert_str_at(text, pos, entry.as_str()),
        None => match find_str(text, "const screens = {\n") {
            Some(pos) => {
                let marker = chars_of("const screens = {\n");
                let tc = chars_of(text);
                let total = tc.len();
                assert(pos + marker@.len() <= total);
                insert_str_at(text, pos + marker.len(), entry.as_str())
            },
            None => {
                let mut out = copy_str(text);
                push_str(&mut out, "\nconst screens = {\n");
                push_str(&mut out, entry.as_str());
                push_str(&mut out, "};\n");
                out
            },
        },
    }
}

/// The React Native template's placeholders replaced by the project's names.
pub open spec fn placeholder_replacements(domain_short: Seq<char>, company: Seq<char>) -> Seq<(Seq<char>, Seq<char>)> {
    Seq::empty().push(("MyProjectName"@, domain_short)).push(("MyCompanyName"@, company))
}

/// A file's text (or name) with the template placeholders replaced.
pub fn react_native_placeholder_text(text: &str, domain_short: &str, company: &str) -> (r: String)
    ensures
        r@ == replace_each(text@, placeholder_replacements(domain_short@, company@)),
{
    proof {
        reveal_strlit("MyProjectName");
        reveal_strlit("MyCompanyName");
        reveal_with_fuel(replace_each, 3);
    }
    let a = replace_exec(text, "MyProjectName", domain_short);
    let b = replace_exec(a.as_str(), "MyCompanyName", company);
    proof {
        let rs = placeholder_replacements(domain_short@, company@);
        assert(rs.drop_last().drop_last() =~= Seq::<(Seq<char>, Seq<char>)>::empty());
    }
    b
}

/// Law: adding the entity's drawer menu entry twice gives what adding it
/// once gives.
pub proof fn lemma_drawer_content_idempotent(t: Seq<char>, p: Seq<char>, d: Seq<char>)
    ensures
        drawer_content_spec(drawer_content_spec(t, p, d), p, d) == drawer_content_spec(t, p, d),
{
    let marker = p + "Stack"@;
    let entry = drawer_menu_entry(p, d);
    if !contains(t, marker) {
        let rest = ": { label: '"@ + d + "::Menu:"@ + p + "', iconName: 'list', requiredPolicy: '"@ + d + "."@ + p
            + "' },\n"@;
        reveal_strlit("Stack: { label: '");
        reveal_strlit("Stack");
        reveal_strlit(": { label: '");
        assert("Stack: { label: '"@ =~= "Stack"@ + ": { label: '"@);
        assert(entry =~= "  "@ + marker + rest);
        crate::merge::lemma_contains_mid("  "@, marker, rest);
        let r = drawer_content_spec(t, p, d);
        match find(t, "  UsersStack"@) {
            Some(pos) => {
                crate::text::lemma_find_from_sound(t, "  UsersStack"@, 0);
                crate::text::lemma_contains_within(t.take(pos), entry, t.skip(pos), marker);
            },
            None => match find(t, "const screens = {\n"@) {
                Some(pos) => {
                    crate::text::lemma_find_from_sound(t, "const screens = {\n"@, 0);
                    let q = pos + "const screens = {\n"@.len();
                    crate::text::lemma_contains_within(t.take(q), entry, t.skip(q), marker);
                },
                None => {
                    crate::text::lemma_contains_within(t + "\nconst screens = {\n"@, entry, "};\n"@, marker);
                },
            },
        }
    }
}

} // verus!
