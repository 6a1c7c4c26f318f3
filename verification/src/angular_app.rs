//! Edits of an Angular application's own files: inserting into the array
//! that follows a declaration, such as the routes or the providers.
use crate::models::opt_view;
use crate::pattern::{regex_compiles, regex_find, regex_first_match};
use crate::text::{
    chars_of, contains, copy_str, decimal, decimal_exec, find, find_exec, find_from, find_from_exec,
    lemma_find_from_sound, lines, lines_exec, push_str, str_contains, string_of_range, trim, trim_exec,
    views,
};
use vstd::prelude::*;

verus! {

/// Position of the `]` that closes the bracket scanned at `depth` from
/// position `i` on: `[` opens one level, `]` closes one.
pub open spec fn closing_bracket(s: Seq<char>, i: int, depth: int) -> Option<int>
    decreases s.len() - i,
{
    if i < 0 || i >= s.len() {
        None
    } else if s[i] == '[' {
        closing_bracket(s, i + 1, depth + 1)
    } else if s[i] == ']' {
        if depth - 1 == 0 {
            Some(i)
        } else {
            closing_bracket(s, i + 1, depth - 1)
        }
    } else {
        closing_bracket(s, i + 1, depth)
    }
}

/// `s` with `snippet` put just before the `]` that closes the first array
/// opened at or after `end`; none when there is no such array.
pub open spec fn insert_into_array_spec(s: Seq<char>, end: int, snippet: Seq<char>) -> Option<Seq<char>> {
    match find_from(s, seq!['['], end) {
        None => None,
        Some(open) => match closing_bracket(s, open, 0) {
            None => None,
            Some(close) => Some(s.take(close) + snippet + s.skip(close)),
        },
    }
}

/// Inserts `snippet` at the end of the first array that opens at or after
/// position `end` of `source`.
pub fn insert_into_array_after(source: &str, end: usize, snippet: &str) -> (r: Option<String>)
    requires
        end <= source@.len(),
    ensures
        opt_view(r) == insert_into_array_spec(source@, end as int, snippet@),
{
    let cs = chars_of(source);
    let br = chars_of("[");
    proof {
        reveal_strlit("[");
        assert(br@ =~= seq!['[']);
    }
    let open = match find_from_exec(&cs, &br, end) {
        Some(o) => o,
        None => return None,
    };
    proof {
        lemma_find_from_sound(cs@, br@, end as int);
        assert(cs@.subrange(open as int, open + 1)[0] == cs@[open as int]);
    }
    let mut i = open;
    let mut depth: usize = 0;
    while i < cs.len()
        invariant
            open <= i <= cs@.len(),
            cs@ == source@,
            cs@[open as int] == '[',
            find_from(cs@, seq!['['], end as int) == Some(open as int),
            i == open ==> depth == 0,
            i > open ==> depth >= 1,
            depth <= i - open,
            closing_bracket(cs@, open as int, 0) == closing_bracket(cs@, i as int, depth as int),
        decreases cs.len() - i,
    {
        if cs[i] == '[' {
            depth = depth + 1;
        } else if cs[i] == ']' {
            if depth == 1 {
                let mut out = string_of_range(&cs, 0, i);
                push_str(&mut out, snippet);
                let tail = string_of_range(&cs, i, cs.len());
                push_str(&mut out, tail.as_str());
                assert(cs@.subrange(0, i as int) =~= cs@.take(i as int));
                assert(cs@.subrange(i as int, cs@.len() as int) =~= cs@.skip(i as int));
                assert(closing_bracket(cs@, i as int, 1) == Some(i as int));
                return Some(out);
            }
            depth = depth - 1;
        }
        i = i + 1;
    }
    None
}

/// `snippet` inserted at the end of the array that follows the first match
/// of the declaration `pattern` in `source`; none when the pattern does not
/// compile or match, or no array follows it.
pub fn insert_into_array(source: &str, pattern: &str, snippet: &str) -> (r: Option<String>)
    ensures
        !regex_compiles(pattern@) ==> r is None,
        regex_compiles(pattern@) ==> match regex_first_match(pattern@, source@) {
            None => r is None,
            Some(m) => opt_view(r) == insert_into_array_spec(source@, m.1, snippet@),
        },
{
    match regex_find(pattern, source) {
        Ok(Some(m)) => insert_into_array_after(source, m.1, snippet),
        _ => None,
    }
}

/// What a route patch did.
pub enum RoutePatch {
    /// The route was already there; nothing changed.
    Present,
    /// The route was added; the new text.
    Patched(String),
    /// The routes array was not found; nothing changed.
    NotFound,
}

pub open spec fn route_patch_view(p: RoutePatch) -> Option<Option<Seq<char>>> {
    match p {
        RoutePatch::Present => None,
        RoutePatch::Patched(t) => Some(Some(t@)),
        RoutePatch::NotFound => Some(None),
    }
}

pub open spec fn app_routes_pattern() -> Seq<char> {
    "export\\s+const\\s+(?:APP_ROUTES|appRoutes)\\s*(?::[^=]+)?=\\s*"@
}

/// The lazily loaded route of a feature.
pub open spec fn app_route_snippet(plural_kebab: Seq<char>, kebab: Seq<char>, lower: Seq<char>) -> Seq<char> {
    "  { path: '"@ + plural_kebab + "', loadChildren: () => import('./"@ + kebab + "/"@ + kebab
        + ".routes').then(m => m."@ + lower + "Routes) },\n"@
}

/// The result of inserting `snippet` into the array after the first match
/// of `pattern`: none when there is no such array.
pub open spec fn array_insert_result(s: Seq<char>, pattern: Seq<char>, snippet: Seq<char>) -> Option<Seq<char>> {
    if !regex_compiles(pattern) {
        None
    } else {
        match regex_first_match(pattern, s) {
            None => None,
            Some(m) => insert_into_array_spec(s, m.1, snippet),
        }
    }
}

/// `app.routes.ts` with the feature's route, unless a route for the path or
/// an import of the feature is already there.
pub open spec fn app_routes_spec(text: Seq<char>, plural_kebab: Seq<char>, kebab: Seq<char>, lower: Seq<char>) -> Option<
    Option<Seq<char>>,
> {
    if contains(text, "path: '"@ + plural_kebab + "'"@) || contains(text, "import('./"@ + kebab + "/"@ + kebab) {
        None
    } else {
        Some(array_insert_result(text, app_routes_pattern(), app_route_snippet(plural_kebab, kebab, lower)))
    }
}

/// Adds the lazily loaded route of a feature to `app.routes.ts`.
pub fn patch_app_routes(text: &str, plural_kebab: &str, kebab: &str, lower: &str) -> (r: RoutePatch)
    ensures
        route_patch_view(r) == app_routes_spec(text@, plural_kebab@, kebab@, lower@),
{
    let mut path = copy_str("path: '");
    push_str(&mut path, plural_kebab);
    push_str(&mut path, "'");
    let mut import = copy_str("import('./");
    push_str(&mut import, kebab);
    push_str(&mut import, "/");
    push_str(&mut import, kebab);
    if str_contains(text, path.as_str()) || str_contains(text, import.as_str()) {
        return RoutePatch::Present;
    }
    let mut snippet = copy_str("  { path: '");
    push_str(&mut snippet, plural_kebab);
    push_str(&mut snippet, "', loadChildren: () => import('./");
    push_str(&mut snippet, kebab);
    push_str(&mut snippet, "/");
    push_str(&mut snippet, kebab);
    push_str(&mut snippet, ".routes').then(m => m.");
    push_str(&mut snippet, lower);
    push_str(&mut snippet, "Routes) },\n");
    match insert_into_array(
        text,
        "export\\s+const\\s+(?:APP_ROUTES|appRoutes)\\s*(?::[^=]+)?=\\s*",
        snippet.as_str(),
    ) {
        Some(t) => RoutePatch::Patched(t),
        None => RoutePatch::NotFound,
    }
}

pub open spec fn is_ascii_digit(c: char) -> bool {
    '0' <= c && c <= '9'
}

/// The digits that start `s`.
pub open spec fn leading_digits(s: Seq<char>) -> Seq<char>
    decreases s.len(),
{
    if s.len() > 0 && is_ascii_digit(s[0]) {
        seq![s[0]] + leading_digits(s.drop_first())
    } else {
        Seq::empty()
    }
}

/// The value of a string of decimal digits.
pub open spec fn digits_value(d: Seq<char>) -> int
    decreases d.len(),
{
    if d.len() == 0 {
        0
    } else {
        digits_value(d.drop_last()) * 10 + (d.last() as int - '0' as int)
    }
}

/// The menu order on a line of `route.provider.ts`: the digits that start
/// the trimmed text after its first `order:`, when they parse as an `i32`.
pub open spec fn line_order(l: Seq<char>) -> Option<int> {
    match find(l, "order:"@) {
        None => None,
        Some(i) => {
            let d = leading_digits(trim(l.skip(i + 6)));
            if d.len() > 0 && digits_value(d) <= 0x7fff_ffff {
                Some(digits_value(d))
            } else {
                None
            }
        },
    }
}

/// The largest menu order on the lines `ls`, and 0 when none has one.
pub open spec fn max_order(ls: Seq<Seq<char>>) -> int
    decreases ls.len(),
{
    if ls.len() == 0 {
        0
    } else {
        let prev = max_order(ls.drop_last());
        match line_order(ls.last()) {
            Some(n) => if n > prev {
                n
            } else {
                prev
            },
            None => prev,
        }
    }
}

proof fn lemma_max_order_range(ls: Seq<Seq<char>>)
    ensures
        0 <= max_order(ls) <= 0x7fff_ffff,
    decreases ls.len(),
{
    if ls.len() > 0 {
        lemma_max_order_range(ls.drop_last());
    }
}

proof fn lemma_digits_grow(d: Seq<char>, k: int)
    requires
        0 <= k <= d.len(),
        forall|j: int| 0 <= j < d.len() ==> is_ascii_digit(#[trigger] d[j]),
    ensures
        digits_value(d.take(k)) <= digits_value(d),
        digits_value(d) >= 0,
    decreases d.len(),
{
    if d.len() == 0 {
        assert(d.take(k) =~= d);
    } else {
        let dl = d.drop_last();
        assert(forall|j: int| 0 <= j < dl.len() ==> is_ascii_digit(#[trigger] dl[j]) <== is_ascii_digit(d[j]));
        assert forall|j: int| 0 <= j < dl.len() implies is_ascii_digit(#[trigger] dl[j]) by {
            assert(dl[j] == d[j]);
        }
        assert(is_ascii_digit(d.last()));
        if k == d.len() {
            assert(d.take(k) =~= d);
            lemma_digits_grow(dl, 0);
        } else {
            lemma_digits_grow(dl, k);
            assert(dl.take(k) =~= d.take(k));
        }
    }
}

proof fn lemma_leading_digits(s: Seq<char>, k: int)
    requires
        0 <= k <= s.len(),
        forall|j: int| 0 <= j < k ==> is_ascii_digit(#[trigger] s[j]),
        k == s.len() || !is_ascii_digit(s[k]),
    ensures
        leading_digits(s) == s.take(k),
    decreases k,
{
    if k > 0 {
        lemma_leading_digits(s.drop_first(), k - 1);
        assert(s.take(k) =~= seq![s[0]] + s.drop_first().take(k - 1));
    } else {
        assert(s.take(0) =~= Seq::<char>::empty());
    }
}

/// The menu order of one line, as `line_order` defines it.
fn line_order_exec(l: &str) -> (r: Option<i32>)
    ensures
        match r {
            Some(n) => line_order(l@) == Some(n as int),
            None => line_order(l@) is None,
        },
{
    let cs = chars_of(l);
    let total = cs.len();
    let pat = chars_of("order:");
    let i = match find_exec(&cs, &pat) {
        Some(i) => i,
        None => return None,
    };
    proof {
        lemma_find_from_sound(cs@, pat@, 0);
        reveal_strlit("order:");
        assert(pat@.len() == 6);
    }
    assert(i + 6 <= total);
    let tail = string_of_range(&cs, i + 6, cs.len());
    assert(tail@ =~= l@.skip(i + 6));
    let t = trim_exec(tail.as_str());
    let tc = chars_of(t.as_str());
    let mut k: usize = 0;
    let mut value: u64 = 0;
    assert(find(l@, "order:"@) == Some(i as int));
    while k < tc.len() && '0' <= tc[k] && tc[k] <= '9'
        invariant
            tc@ == trim(l@.skip(i + 6)),
            find(l@, "order:"@) == Some(i as int),
            k <= tc@.len(),
            forall|j: int| 0 <= j < k ==> is_ascii_digit(#[trigger] tc@[j]),
            value == digits_value(tc@.take(k as int)),
            value <= 0x7fff_ffff,
        decreases tc.len() - k,
    {
        let dgt = (tc[k] as u32 - '0' as u32) as u64;
        proof {
            assert(tc@.take(k + 1).drop_last() =~= tc@.take(k as int));
            assert(tc@.take(k + 1).last() == tc@[k as int]);
        }
        let next = value * 10 + dgt;
        if next > 0x7fff_ffff {
            // Every further digit only makes the number larger.
            proof {
                assert(digits_value(tc@.take(k + 1)) == next);
                lemma_overflow_stays(tc@, k + 1);
                assert(tc@ == trim(l@.skip(i + 6)));
                assert(find(l@, "order:"@) == Some(i as int));
            }
            return None;
        }
        value = next;
        k = k + 1;
    }
    proof {
        lemma_leading_digits(tc@, k as int);
    }
    if k == 0 {
        return None;
    }
    Some(value as i32)
}

/// Once the digits read so far exceed `i32::MAX`, the leading digits do too.
proof fn lemma_overflow_stays(s: Seq<char>, k: int)
    requires
        0 < k <= s.len(),
        forall|j: int| 0 <= j < k ==> is_ascii_digit(#[trigger] s[j]),
        digits_value(s.take(k)) > 0x7fff_ffff,
    ensures
        leading_digits(s).len() > 0,
        digits_value(leading_digits(s)) > 0x7fff_ffff,
{
    let d = leading_digits(s);
    lemma_leading_prefix(s, k);
    assert(d.take(k) =~= s.take(k));
    lemma_digits_grow(d, k);
}

proof fn lemma_leading_prefix(s: Seq<char>, k: int)
    requires
        0 <= k <= s.len(),
        forall|j: int| 0 <= j < k ==> is_ascii_digit(#[trigger] s[j]),
    ensures
        leading_digits(s).len() >= k,
        leading_digits(s).take(k) == s.take(k),
        forall|j: int| 0 <= j < leading_digits(s).len() ==> is_ascii_digit(#[trigger] leading_digits(s)[j]),
    decreases s.len(),
{
    if s.len() > 0 && is_ascii_digit(s[0]) {
        if k > 0 {
            lemma_leading_prefix(s.drop_first(), k - 1);
        } else {
            lemma_leading_prefix(s.drop_first(), 0);
        }
        let d = leading_digits(s);
        let r = leading_digits(s.drop_first());
        assert(d == seq![s[0]] + r);
        if k > 0 {
            assert(r.take(k - 1) == s.drop_first().take(k - 1));
            assert(d.take(k) =~= seq![s[0]] + r.take(k - 1));
            assert(s.take(k) =~= seq![s[0]] + s.drop_first().take(k - 1));
        } else {
            assert(d.take(0) =~= s.take(0));
        }
        assert forall|j: int| 0 <= j < d.len() implies is_ascii_digit(#[trigger] d[j]) by {
            if j > 0 {
                assert(d[j] == r[j - 1]);
            }
        }
    } else {
        assert(leading_digits(s) =~= Seq::<char>::empty());
        assert(s.take(k) =~= Seq::<char>::empty());
    }
}

/// The largest menu order in `route.provider.ts`, and 0 when there is none.
pub fn max_route_order(text: &str) -> (r: i32)
    ensures
        r as int == max_order(lines(text@)),
{
    let ls = lines_exec(text);
    let ghost lv = views(ls@);
    let mut best: i32 = 0;
    let mut i: usize = 0;
    assert(lv.take(0) =~= Seq::<Seq<char>>::empty());
    while i < ls.len()
        invariant
            i <= ls@.len(),
            lv == views(ls@),
            best as int == max_order(lv.take(i as int)),
        decreases ls.len() - i,
    {
        proof {
            assert(lv.take(i + 1).drop_last() =~= lv.take(i as int));
            assert(lv.take(i + 1).last() == lv[i as int]);
        }
        match line_order_exec(ls[i].as_str()) {
            Some(n) => {
                if n > best {
                    best = n;
                }
            },
            None => {},
        }
        i = i + 1;
    }
    assert(lv.take(ls@.len() as int) =~= lv);
    best
}

pub open spec fn route_provider_pattern() -> Seq<char> {
    "routes(?:Service)?\\.add\\s*\\(\\s*"@
}

/// The menu route of a feature in `route.provider.ts`.
pub open spec fn menu_route_snippet(plural_kebab: Seq<char>, plural: Seq<char>, order: int, domain_short: Seq<char>) -> Seq<char> {
    "      {\n        path: '/"@ + plural_kebab + "',\n        name: '::Menu:"@ + plural
        + "',\n        iconClass: 'fa fa-file-alt',\n        order: "@ + decimal(order)
        + ",\n        layout: eLayoutType.application,\n        requiredPolicy: '"@ + domain_short + "."@
        + plural + "',\n      },\n"@
}

/// `route.provider.ts` with the feature's menu route, ordered after the
/// largest order already there, unless a route for the path is there.
pub open spec fn route_provider_spec(
    text: Seq<char>,
    plural_kebab: Seq<char>,
    plural: Seq<char>,
    domain_short: Seq<char>,
) -> Option<Option<Seq<char>>> {
    if contains(text, "path: '/"@ + plural_kebab + "'"@) {
        None
    } else {
        Some(
            array_insert_result(
                text,
                route_provider_pattern(),
                menu_route_snippet(plural_kebab, plural, max_order(lines(text)) + 1, domain_short),
            ),
        )
    }
}

/// Adds the feature's menu route to `route.provider.ts`, ordered after the
/// others. Where the route is missing, the order after `i32::MAX` would
/// overflow, so that text is excluded.
pub fn patch_route_provider(text: &str, plural_kebab: &str, plural: &str, domain_short: &str) -> (r: RoutePatch)
    requires
        !contains(text@, "path: '/"@ + plural_kebab@ + "'"@) ==> max_order(lines(text@)) < 0x7fff_ffff,
    ensures
        route_patch_view(r) == route_provider_spec(text@, plural_kebab@, plural@, domain_short@),
{
    let mut path = copy_str("path: '/");
    push_str(&mut path, plural_kebab);
    push_str(&mut path, "'");
    if str_contains(text, path.as_str()) {
        return RoutePatch::Present;
    }
    let order = max_route_order(text) + 1;
    let num = decimal_exec(order as i64);
    let mut snippet = copy_str("      {\n        path: '/");
    push_str(&mut snippet, plural_kebab);
    push_str(&mut snippet, "',\n        name: '::Menu:");
    push_str(&mut snippet, plural);
    push_str(&mut snippet, "',\n        iconClass: 'fa fa-file-alt',\n        order: ");
    push_str(&mut snippet, num.as_str());
    push_str(&mut snippet, ",\n        layout: eLayoutType.application,\n        requiredPolicy: '");
    push_str(&mut snippet, domain_short);
    push_str(&mut snippet, ".");
    push_str(&mut snippet, plural);
    push_str(&mut snippet, "',\n      },\n");
    match insert_into_array(text, "routes(?:Service)?\\.add\\s*\\(\\s*", snippet.as_str()) {
        Some(t) => RoutePatch::Patched(t),
        None => RoutePatch::NotFound,
    }
}

/* ------------------------------ theme changer registration ------------------------------ */

pub open spec fn providers_pattern() -> Seq<char> {
    "providers\\s*:\\s*"@
}

pub open spec fn ng_module_pattern() -> Seq<char> {
    "@NgModule\\s*\\(\\s*\\{"@
}

/// `t` with `import` on a first line of its own unless it holds it.
pub open spec fn with_top_import(t: Seq<char>, import: Seq<char>) -> Seq<char> {
    if contains(t, import) {
        t
    } else {
        import + "\n"@ + t
    }
}

pub open spec fn providers_missing_msg(path: Seq<char>) -> Seq<char> {
    "Angular providers array not found in "@ + path + "; theme changer was not registered"@
}

pub open spec fn ng_module_missing_msg(path: Seq<char>) -> Seq<char> {
    "Angular NgModule metadata not found in "@ + path + "; theme changer was not registered"@
}

/// The standalone configuration with the theme changer provider
/// registered.
pub open spec fn standalone_changer_spec(t: Seq<char>, path: Seq<char>) -> Result<Seq<char>, Seq<char>> {
    let t1 = with_top_import(t, "import { provideThemeChanger } from './theme-changer/theme-changer.provider';"@);
    if contains(t1, "provideThemeChanger()"@) {
        Ok(t1)
    } else if !regex_compiles(providers_pattern()) {
        Err(crate::merge::invalid_pattern_msg(providers_pattern()))
    } else {
        match array_insert_result(t1, providers_pattern(), "\n    provideThemeChanger(),"@) {
            Some(u) => Ok(u),
            None => Err(providers_missing_msg(path)),
        }
    }
}

/// The legacy module with the theme changer provider registered: in its
/// providers array, or in a new one at the start of the module metadata.
pub open spec fn legacy_changer_spec(t: Seq<char>, path: Seq<char>) -> Result<Seq<char>, Seq<char>> {
    let t1 = with_top_import(t, "import { THEME_CHANGER_PROVIDER } from './theme-changer/theme-changer.provider';"@);
    if contains(t1, "THEME_CHANGER_PROVIDER,"@) {
        Ok(t1)
    } else if !regex_compiles(providers_pattern()) {
        Err(crate::merge::invalid_pattern_msg(providers_pattern()))
    } else {
        match array_insert_result(t1, providers_pattern(), "\n    THEME_CHANGER_PROVIDER,"@) {
            Some(u) => Ok(u),
            None => if !regex_compiles(ng_module_pattern()) {
                Err(crate::merge::invalid_pattern_msg(ng_module_pattern()))
            } else {
                match regex_first_match(ng_module_pattern(), t1) {
                    Some(m) => Ok(crate::merge::insert_at(t1, m.1, "\n  providers: [THEME_CHANGER_PROVIDER],"@)),
                    None => Err(ng_module_missing_msg(path)),
                }
            },
        }
    }
}

fn with_top_import_exec(t: &str, import: &str) -> (r: String)
    ensures
        r@ == with_top_import(t@, import@),
{
    if str_contains(t, import) {
        copy_str(t)
    } else {
        let mut r = copy_str(import);
        push_str(&mut r, "\n");
        push_str(&mut r, t);
        r
    }
}

/// Registers the theme changer provider in the standalone configuration
/// `text` (read from `path`).
pub fn standalone_theme_changer_text(text: &str, path: &str) -> (r: Result<String, String>)
    ensures
        match (r, standalone_changer_spec(text@, path@)) {
            (Ok(a), Ok(b)) => a@ == b,
            (Err(a), Err(b)) => a@ == b,
            _ => false,
        },
{
    let t1 = with_top_import_exec(text, "import { provideThemeChanger } from './theme-changer/theme-changer.provider';");
    if str_contains(t1.as_str(), "provideThemeChanger()") {
        return Ok(t1);
    }
    if regex_find("providers\\s*:\\s*", "").is_err() {
        return Err(crate::merge::invalid_pattern("providers\\s*:\\s*"));
    }
    match insert_into_array(t1.as_str(), "providers\\s*:\\s*", "\n    provideThemeChanger(),") {
        Some(u) => Ok(u),
        None => {
            let mut m = copy_str("Angular providers array not found in ");
            push_str(&mut m, path);
            push_str(&mut m, "; theme changer was not registered");
            Err(m)
        },
    }
}

/// Registers the theme changer provider in the legacy module `text` (read
/// from `path`).
pub fn legacy_theme_changer_text(text: &str, path: &str) -> (r: Result<String, String>)
    ensures
        match (r, legacy_changer_spec(text@, path@)) {
            (Ok(a), Ok(b)) => a@ == b,
            (Err(a), Err(b)) => a@ == b,
            _ => false,
        },
{
    let t1 = with_top_import_exec(text, "import { THEME_CHANGER_PROVIDER } from './theme-changer/theme-changer.provider';");
    if str_contains(t1.as_str(), "THEME_CHANGER_PROVIDER,") {
        return Ok(t1);
    }
    if regex_find("providers\\s*:\\s*", "").is_err() {
        return Err(crate::merge::invalid_pattern("providers\\s*:\\s*"));
    }
    match insert_into_array(t1.as_str(), "providers\\s*:\\s*", "\n    THEME_CHANGER_PROVIDER,") {
        Some(u) => Ok(u),
        None => match regex_find("@NgModule\\s*\\(\\s*\\{", t1.as_str()) {
            Err(_) => Err(crate::merge::invalid_pattern("@NgModule\\s*\\(\\s*\\{")),
            Ok(Some(m)) => {
                let cs = chars_of(t1.as_str());
                Ok(crate::merge::insert_at_exec(&cs, m.1, "\n  providers: [THEME_CHANGER_PROVIDER],"))
            },
            Ok(None) => {
                let mut msg = copy_str("Angular NgModule metadata not found in ");
                push_str(&mut msg, path);
                push_str(&mut msg, "; theme changer was not registered");
                Err(msg)
            },
        },
    }
}

/* ------------------------------ laws ------------------------------ */

proof fn lemma_closing_bracket_at(s: Seq<char>, i: int, depth: int)
    ensures
        closing_bracket(s, i, depth) matches Some(c) ==> i <= c < s.len() && s[c] == ']',
    decreases s.len() - i,
{
    if 0 <= i < s.len() {
        if s[i] == '[' {
            lemma_closing_bracket_at(s, i + 1, depth + 1);
        } else if s[i] == ']' {
            if depth - 1 != 0 {
                lemma_closing_bracket_at(s, i + 1, depth - 1);
            }
        } else {
            lemma_closing_bracket_at(s, i + 1, depth);
        }
    }
}

/// What an array insertion produced: `snippet` put at a `]` of `s`.
proof fn lemma_array_insert_shape(s: Seq<char>, pattern: Seq<char>, snippet: Seq<char>)
    ensures
        array_insert_result(s, pattern, snippet) matches Some(u) ==> exists|c: int|
            0 <= c < s.len() && s[c] == ']' && u == crate::merge::insert_at(s, c, snippet),
{
    if regex_compiles(pattern) {
        match regex_first_match(pattern, s) {
            Some(m) => match find_from(s, seq!['['], m.1) {
                Some(open) => {
                    lemma_closing_bracket_at(s, open, 0);
                    match closing_bracket(s, open, 0) {
                        Some(c) => {
                            assert(s.take(c) + snippet + s.skip(c) == crate::merge::insert_at(s, c, snippet));
                        },
                        None => {},
                    }
                },
                None => {},
            },
            None => {},
        }
    }
}

/// Inserting at a position whose character `n` does not use keeps every
/// occurrence of `n` whole.
proof fn lemma_insert_keeps(s: Seq<char>, c: int, x: Seq<char>, n: Seq<char>)
    requires
        0 <= c < s.len(),
        contains(s, n),
        forall|j: int| 0 <= j < n.len() ==> n[j] != s[c],
    ensures
        contains(crate::merge::insert_at(s, c, x), n),
{
    let i = choose|i: int| crate::text::occurs_at(s, n, i);
    let u = crate::merge::insert_at(s, c, x);
    if c <= i {
        assert(u.subrange(i + x.len(), i + x.len() + n.len()) =~= s.subrange(i, i + n.len()));
        assert(crate::text::occurs_at(u, n, i + x.len()));
    } else if c >= i + n.len() {
        assert(u.subrange(i, i + n.len()) =~= s.subrange(i, i + n.len()));
        assert(crate::text::occurs_at(u, n, i));
    } else {
        assert(s.subrange(i, i + n.len())[c - i] == s[c]);
        assert(n[c - i] == s[c]);
    }
}

proof fn lemma_substring_at(h: Seq<char>, n: Seq<char>, k: int)
    requires
        0 <= k,
        k + n.len() <= h.len(),
        h.subrange(k, k + n.len()) == n,
    ensures
        contains(h, n),
{
    assert(crate::text::occurs_at(h, n, k));
}

pub open spec fn changer_import() -> Seq<char> {
    "import { provideThemeChanger } from './theme-changer/theme-changer.provider';"@
}

/// Law: registering the theme changer in a standalone configuration twice
/// gives what registering it once gave.
pub proof fn lemma_standalone_changer_idempotent(t: Seq<char>, path: Seq<char>)
    ensures
        standalone_changer_spec(t, path) matches Ok(u) ==> standalone_changer_spec(u, path) == Ok::<Seq<char>, Seq<char>>(u),
{
    reveal_strlit("import { provideThemeChanger } from './theme-changer/theme-changer.provider';");
    reveal_strlit("\n    provideThemeChanger(),");
    reveal_strlit("provideThemeChanger()");
    reveal_strlit("\n");
    let imp = changer_import();
    let t1 = with_top_import(t, imp);
    assert(contains(t1, imp)) by {
        if !contains(t, imp) {
            crate::merge::lemma_contains_mid(Seq::<char>::empty(), imp, "\n"@ + t);
            assert(Seq::<char>::empty() + imp + ("\n"@ + t) =~= imp + "\n"@ + t);
        }
    }
    if let Ok(u) = standalone_changer_spec(t, path) {
        if contains(t1, "provideThemeChanger()"@) {
            assert(u == t1);
        } else {
            let snip = "\n    provideThemeChanger(),"@;
            lemma_array_insert_shape(t1, providers_pattern(), snip);
            let c = choose|c: int| 0 <= c < t1.len() && t1[c] == ']' && u == crate::merge::insert_at(t1, c, snip);
            assert forall|j: int| 0 <= j < imp.len() implies imp[j] != t1[c] by {}
            lemma_insert_keeps(t1, c, snip, imp);
            assert(snip.subrange(5, 5int + "provideThemeChanger()"@.len()) =~= "provideThemeChanger()"@);
            lemma_substring_at(snip, "provideThemeChanger()"@, 5);
            crate::text::lemma_contains_within(t1.take(c), snip, t1.skip(c), "provideThemeChanger()"@);
            assert(with_top_import(u, imp) == u);
        }
    }
}

pub open spec fn legacy_changer_import() -> Seq<char> {
    "import { THEME_CHANGER_PROVIDER } from './theme-changer/theme-changer.provider';"@
}

/// Law: registering the theme changer in a legacy module twice gives what
/// registering it once gave, where the module already has a providers array
/// (or the provider): a provider placed in new module metadata is written
/// `[THEME_CHANGER_PROVIDER]`, without the trailing comma that the check
/// looks for, so that case is left out.
pub proof fn lemma_legacy_changer_idempotent(t: Seq<char>, path: Seq<char>)
    requires
        ({
            let t1 = with_top_import(t, legacy_changer_import());
            contains(t1, "THEME_CHANGER_PROVIDER,"@) || array_insert_result(
                t1,
                providers_pattern(),
                "\n    THEME_CHANGER_PROVIDER,"@,
            ) is Some
        }),
    ensures
        legacy_changer_spec(t, path) matches Ok(u) ==> legacy_changer_spec(u, path) == Ok::<Seq<char>, Seq<char>>(u),
{
    reveal_strlit("import { THEME_CHANGER_PROVIDER } from './theme-changer/theme-changer.provider';");
    reveal_strlit("\n    THEME_CHANGER_PROVIDER,");
    reveal_strlit("THEME_CHANGER_PROVIDER,");
    reveal_strlit("\n");
    let imp = legacy_changer_import();
    let t1 = with_top_import(t, imp);
    assert(contains(t1, imp)) by {
        if !contains(t, imp) {
            crate::merge::lemma_contains_mid(Seq::<char>::empty(), imp, "\n"@ + t);
            assert(Seq::<char>::empty() + imp + ("\n"@ + t) =~= imp + "\n"@ + t);
        }
    }
    if let Ok(u) = legacy_changer_spec(t, path) {
        if contains(t1, "THEME_CHANGER_PROVIDER,"@) {
            assert(u == t1);
        } else {
            let snip = "\n    THEME_CHANGER_PROVIDER,"@;
            lemma_array_insert_shape(t1, providers_pattern(), snip);
            let c = choose|c: int| 0 <= c < t1.len() && t1[c] == ']' && u == crate::merge::insert_at(t1, c, snip);
            assert forall|j: int| 0 <= j < imp.len() implies imp[j] != t1[c] by {}
            lemma_insert_keeps(t1, c, snip, imp);
            assert(snip.subrange(5, 5int + "THEME_CHANGER_PROVIDER,"@.len()) =~= "THEME_CHANGER_PROVIDER,"@);
            lemma_substring_at(snip, "THEME_CHANGER_PROVIDER,"@, 5);
            crate::text::lemma_contains_within(t1.take(c), snip, t1.skip(c), "THEME_CHANGER_PROVIDER,"@);
            assert(with_top_import(u, imp) == u);
        }
    }
}

} // verus!
