//! The Angular feature and proxy files, and the React Native screens, that
//! a generated entity gets; and the cleanup of the Angular proxy alias that
//! older generations wrote into `tsconfig.json`.
use crate::fragments::compile::add_pair;
use crate::mapping::{entry_views, Mapping};
use crate::naming::{plural, pluralize};
use crate::pattern::{escape_spec, regex_compiles, regex_escape, regex_replace_first, regex_replace_first_spec};
use crate::text::{copy_str, push_str, str_eq};
use vstd::prelude::*;

verus! {

fn cat3(a: &str, b: &str, c: &str) -> (r: String)
    ensures
        r@ == a@ + b@ + c@,
{
    let mut s = copy_str(a);
    push_str(&mut s, b);
    push_str(&mut s, c);
    s
}

fn cat5(a: &str, b: &str, c: &str, d: &str, e: &str) -> (r: String)
    ensures
        r@ == a@ + b@ + c@ + d@ + e@,
{
    let mut s = cat3(a, b, c);
    push_str(&mut s, d);
    push_str(&mut s, e);
    s
}

/// The Angular files of a feature whose kebab name is `k` and whose plural
/// kebab name is `pk`: template and path below the app directory.
pub open spec fn angular_feature_spec(k: Seq<char>, pk: Seq<char>) -> Seq<(Seq<char>, Seq<char>)> {
    Seq::empty()
        .push(("Web/Angular/component.html.tpl"@, k + "/"@ + k + ".component.html"@))
        .push(("Web/Angular/component.ts.tpl"@, k + "/"@ + k + ".component.ts"@))
        .push(("Web/Angular/component.scss.tpl"@, k + "/"@ + k + ".component.scss"@))
        .push(("Web/Angular/component.spec.ts.tpl"@, k + "/"@ + k + ".component.spec.ts"@))
        .push(("Web/Angular/routes.ts.tpl"@, k + "/"@ + k + ".routes.ts"@))
        .push(("Web/Angular/proxy.models.ts.tpl"@, "proxy/"@ + pk + "/models.ts"@))
        .push(("Web/Angular/proxy.service.ts.tpl"@, "proxy/"@ + pk + "/"@ + pk + ".service.ts"@))
        .push(("Web/Angular/proxy.index.ts.tpl"@, "proxy/"@ + pk + "/index.ts"@))
}

/// The feature component, its routes and the proxy of the entity, each as
/// (template, path below the Angular app directory).
pub fn angular_feature_plan(kebab: &str, plural_kebab: &str) -> (r: Vec<(String, String)>)
    ensures
        entry_views(r@) == angular_feature_spec(kebab@, plural_kebab@),
{
    let k = kebab;
    let pk = plural_kebab;
    let mut v: Vec<(String, String)> = Vec::new();
    assert(entry_views(v@) =~= Seq::<(Seq<char>, Seq<char>)>::empty());
    let out = cat5(k, "/", k, ".component.html", "");
    add_pair(&mut v, "Web/Angular/component.html.tpl", out.as_str());
    let out = cat5(k, "/", k, ".component.ts", "");
    add_pair(&mut v, "Web/Angular/component.ts.tpl", out.as_str());
    let out = cat5(k, "/", k, ".component.scss", "");
    add_pair(&mut v, "Web/Angular/component.scss.tpl", out.as_str());
    let out = cat5(k, "/", k, ".component.spec.ts", "");
    add_pair(&mut v, "Web/Angular/component.spec.ts.tpl", out.as_str());
    let out = cat5(k, "/", k, ".routes.ts", "");
    add_pair(&mut v, "Web/Angular/routes.ts.tpl", out.as_str());
    let out = cat3("proxy/", pk, "/models.ts");
    add_pair(&mut v, "Web/Angular/proxy.models.ts.tpl", out.as_str());
    let out = cat5("proxy/", pk, "/", pk, ".service.ts");
    add_pair(&mut v, "Web/Angular/proxy.service.ts.tpl", out.as_str());
    let out = cat3("proxy/", pk, "/index.ts");
    add_pair(&mut v, "Web/Angular/proxy.index.ts.tpl", out.as_str());
    proof {
        reveal_strlit("");
        assert(""@ =~= Seq::<char>::empty());
    }
    assert(entry_views(v@) =~= angular_feature_spec(k@, pk@));
    v
}

/// The `tsconfig.json` path alias `@proxy/<pk>` that older generations
/// wrote, as a whole line.
pub open spec fn proxy_alias_pattern(pk: Seq<char>) -> Seq<char> {
    "(?m)^\\s*\"@proxy/"@ + escape_spec(pk) + "\"\\s*:\\s*\\[\\s*\"src/app/proxy/"@ + escape_spec(pk)
        + "/index\\.ts\"\\s*\\],?\\s*\\r?\\n"@
}

/// `tsconfig` with its first `@proxy/<plural_kebab>` alias line removed,
/// and whether that changed it; an error where the alias pattern does not
/// compile.
pub fn remove_legacy_proxy_alias(tsconfig: &str, plural_kebab: &str) -> (r: Result<(String, bool), String>)
    ensures
        r is Ok <==> regex_compiles(proxy_alias_pattern(plural_kebab@)),
        r matches Ok(p) ==> p.0@ == regex_replace_first_spec(proxy_alias_pattern(plural_kebab@), tsconfig@, ""@)
            && p.1 == (p.0@ != tsconfig@),
        r matches Err(e) ==> e@ == crate::merge::invalid_pattern_msg(proxy_alias_pattern(plural_kebab@)),
{
    let e = regex_escape(plural_kebab);
    let mut pattern = cat3("(?m)^\\s*\"@proxy/", e.as_str(), "\"\\s*:\\s*\\[\\s*\"src/app/proxy/");
    push_str(&mut pattern, e.as_str());
    push_str(&mut pattern, "/index\\.ts\"\\s*\\],?\\s*\\r?\\n");
    match regex_replace_first(pattern.as_str(), tsconfig, "") {
        Ok(cleaned) => {
            let changed = !str_eq(cleaned.as_str(), tsconfig);
            Ok((cleaned, changed))
        },
        Err(_) => {
            let mut m = copy_str("invalid regular expression: ");
            push_str(&mut m, pattern.as_str());
            Err(m)
        },
    }
}

/// The React Native files of entity `e` with plural `p`: template and path
/// below the app's `src` folder.
pub open spec fn react_native_screens_spec(e: Seq<char>, p: Seq<char>) -> Seq<(Seq<char>, Seq<char>)> {
    Seq::empty()
        .push(("Mobile/ReactNative/api/Api.ts.tpl"@, "api/"@ + e + "API.ts"@))
        .push(("Mobile/ReactNative/navigators/Navigator.tsx.tpl"@, "navigators/"@ + p + "Navigator.tsx"@))
        .push(("Mobile/ReactNative/screens/ContainerScreen.tsx.tpl"@, "screens/"@ + p + "/"@ + p + "MainScreen.tsx"@))
        .push(("Mobile/ReactNative/screens/ListScreen.tsx.tpl"@, "screens/"@ + p + "/"@ + p + "Screen.tsx"@))
        .push((
            "Mobile/ReactNative/screens/CreateUpdate/CreateUpdateScreen.tsx.tpl"@,
            "screens/"@ + p + "/CreateUpdate"@ + e + "/CreateUpdate"@ + e + "Screen.tsx"@,
        ))
        .push((
            "Mobile/ReactNative/screens/CreateUpdate/CreateUpdateForm.tsx.tpl"@,
            "screens/"@ + p + "/CreateUpdate"@ + e + "/CreateUpdate"@ + e + "Form.tsx"@,
        ))
}

/// The plural that the React Native screens use: the mapping's
/// `entity_plural`, else the pluralised entity name.
pub open spec fn screens_plural(entity: Seq<char>, m: Mapping) -> Seq<char> {
    match m.get_spec("entity_plural"@) {
        Some(v) => v,
        None => plural(entity),
    }
}

/// The API, navigator and screens of entity `entity`, each as (template,
/// path below the React Native app's `src` folder).
pub fn react_native_screen_plan(entity: &str, mapping: &Mapping) -> (r: Vec<(String, String)>)
    ensures
        entry_views(r@) == react_native_screens_spec(entity@, screens_plural(entity@, *mapping)),
{
    let pl = match mapping.get("entity_plural") {
        Some(v) => copy_str(v.as_str()),
        None => pluralize(entity),
    };
    let e = entity;
    let p = pl.as_str();
    let mut v: Vec<(String, String)> = Vec::new();
    assert(entry_views(v@) =~= Seq::<(Seq<char>, Seq<char>)>::empty());
    let out = cat3("api/", e, "API.ts");
    add_pair(&mut v, "Mobile/ReactNative/api/Api.ts.tpl", out.as_str());
    let out = cat3("navigators/", p, "Navigator.tsx");
    add_pair(&mut v, "Mobile/ReactNative/navigators/Navigator.tsx.tpl", out.as_str());
    let out = cat5("screens/", p, "/", p, "MainScreen.tsx");
    add_pair(&mut v, "Mobile/ReactNative/screens/ContainerScreen.tsx.tpl", out.as_str());
    let out = cat5("screens/", p, "/", p, "Screen.tsx");
    add_pair(&mut v, "Mobile/ReactNative/screens/ListScreen.tsx.tpl", out.as_str());
    let mut out = cat5("screens/", p, "/CreateUpdate", e, "/CreateUpdate");
    push_str(&mut out, e);
    push_str(&mut out, "Screen.tsx");
    add_pair(&mut v, "Mobile/ReactNative/screens/CreateUpdate/CreateUpdateScreen.tsx.tpl", out.as_str());
    let mut out = cat5("screens/", p, "/CreateUpdate", e, "/CreateUpdate");
    push_str(&mut out, e);
    push_str(&mut out, "Form.tsx");
    add_pair(&mut v, "Mobile/ReactNative/screens/CreateUpdate/CreateUpdateForm.tsx.tpl", out.as_str());
    assert(entry_views(v@) =~= react_native_screens_spec(e@, p@));
    v
}

} // verus!
