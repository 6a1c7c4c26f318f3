//! Switching a project's ABP theme between Basic and LeptonX Lite: the
//! edits of the MVC Web module, the Angular startup files and the project
//! files.
use crate::merge::{insert_at, insert_at_exec};
use crate::merge::toolbars::{line_start, line_start_exec, ws_run, ws_run_exec};
use crate::models::AbpTheme;
use crate::text::{
    chars_of, contains, copy_str, find, find_exec, find_from, join, split, split_exec, join_exec, lemma_find_from_sound, lines,
    lines_exec, push_str, replace_all, replace_exec, starts_with, starts_with_exec, str_contains,
    str_eq, trim_start, trim_start_exec, views,
};
use vstd::prelude::*;

verus! {

broadcast use vstd::seq_lib::group_seq_properties;

/* ------------------------------ shared edits ------------------------------ */

/// `s` with each pair of `rs` replaced in turn.
pub open spec fn replace_each(s: Seq<char>, rs: Seq<(Seq<char>, Seq<char>)>) -> Seq<char>
    decreases rs.len(),
{
    if rs.len() == 0 {
        s
    } else {
        let t = replace_each(s, rs.drop_last());
        replace_all(t, rs.last().0, rs.last().1)
    }
}

/// Whether `l` contains one of `needles`.
pub open spec fn contains_any(l: Seq<char>, needles: Seq<Seq<char>>) -> bool {
    exists|j: int| 0 <= j < needles.len() && contains(l, #[trigger] needles[j])
}

/// A line that survives the filter: it holds none of `needles`, and, when
/// `ban` is given, its trimmed start does not begin with it.
pub open spec fn keeps_line(l: Seq<char>, needles: Seq<Seq<char>>, ban: Option<Seq<char>>) -> bool {
    !contains_any(l, needles) && !(ban matches Some(b) && starts_with(trim_start(l), b))
}

/// The lines of `s` that survive the filter.
pub open spec fn kept_lines(s: Seq<char>, needles: Seq<Seq<char>>, ban: Option<Seq<char>>) -> Seq<Seq<char>> {
    lines(s).filter(|l: Seq<char>| keeps_line(l, needles, ban))
}

fn contains_any_exec(l: &str, needles: &Vec<String>) -> (r: bool)
    ensures
        r == contains_any(l@, views(needles@)),
{
    let mut j: usize = 0;
    while j < needles.len()
        invariant
            j <= needles@.len(),
            forall|k: int| 0 <= k < j ==> !contains(l@, #[trigger] views(needles@)[k]),
        decreases needles.len() - j,
    {
        if str_contains(l, needles[j].as_str()) {
            assert(contains(l@, views(needles@)[j as int]));
            return true;
        }
        j = j + 1;
    }
    false
}

/// The lines of `s` that hold none of `needles` (nor, with `ban`, start
/// with it after leading white space), in order.
fn filter_lines(s: &str, needles: &Vec<String>, ban: Option<&str>) -> (r: Vec<String>)
    ensures
        views(r@) == kept_lines(
            s@,
            views(needles@),
            match ban {
                Some(b) => Some(b@),
                None => None,
            },
        ),
{
    let ghost bv = match ban {
        Some(b) => Some(b@),
        None => None,
    };
    let ghost nv = views(needles@);
    let ghost pred = |l: Seq<char>| keeps_line(l, nv, bv);
    let ls = lines_exec(s);
    let ghost lv = views(ls@);
    let mut out: Vec<String> = Vec::new();
    let mut i: usize = 0;
    assert(lv.take(0) =~= Seq::<Seq<char>>::empty());
    assert(Seq::<Seq<char>>::empty().filter(pred) =~= Seq::<Seq<char>>::empty()) by {
        reveal(Seq::filter);
    }
    while i < ls.len()
        invariant
            i <= ls@.len(),
            lv == views(ls@),
            lv == lines(s@),
            nv == views(needles@),
            bv == match ban {
                Some(b) => Some(b@),
                None => None,
            },
            pred == (|l: Seq<char>| keeps_line(l, nv, bv)),
            views(out@) == lv.take(i as int).filter(pred),
        decreases ls.len() - i,
    {
        let line = ls[i].as_str();
        let banned = match ban {
            Some(b) => {
                let t = trim_start_exec(line);
                let tc = chars_of(t.as_str());
                let bc = chars_of(b);
                starts_with_exec(&tc, &bc)
            },
            None => false,
        };
        let keep = !contains_any_exec(line, needles) && !banned;
        proof {
            assert(lv.take(i + 1) =~= lv.take(i as int).push(lv[i as int]));
            lv.take(i as int).lemma_filter_push(lv[i as int], pred);
            assert(keep == pred(lv[i as int]));
        }
        if keep {
            let ghost before = views(out@);
            out.push(copy_str(line));
            assert(views(out@) =~= before.push(lv[i as int]));
        }
        i = i + 1;
    }
    assert(lv.take(ls@.len() as int) =~= lv);
    out
}

/// The kept lines of `s` joined by line breaks, with a final line break.
pub open spec fn filtered_text(s: Seq<char>, needles: Seq<Seq<char>>, ban: Option<Seq<char>>) -> Seq<char> {
    join(kept_lines(s, needles, ban), "\n"@) + "\n"@
}

fn filtered_text_exec(s: &str, needles: &Vec<String>, ban: Option<&str>) -> (r: String)
    ensures
        r@ == filtered_text(
            s@,
            views(needles@),
            match ban {
                Some(b) => Some(b@),
                None => None,
            },
        ),
{
    let kept = filter_lines(s, needles, ban);
    let mut t = join_exec(&kept, "\n");
    push_str(&mut t, "\n");
    t
}

/// `t` with `import` on a line of its own before its first `import `
/// declaration; unchanged when it holds it; none when it has no import.
pub open spec fn ensure_import_spec(t: Seq<char>, import: Seq<char>) -> Option<Seq<char>> {
    if contains(t, import) {
        Some(t)
    } else {
        match find(t, "import "@) {
            Some(p) => Some(insert_at(t, p, import + "\n"@)),
            None => None,
        }
    }
}

pub open spec fn no_imports_msg() -> Seq<char> {
    "Angular startup file contains no import declarations"@
}

fn find_str(t: &str, pat: &str) -> (r: Option<usize>)
    ensures
        match r {
            Some(p) => find(t@, pat@) == Some(p as int) && p + pat@.len() <= t@.len(),
            None => find(t@, pat@) is None,
        },
{
    let tc = chars_of(t);
    let total = tc.len();
    let pc = chars_of(pat);
    let r = find_exec(&tc, &pc);
    proof {
        lemma_find_from_sound(tc@, pc@, 0);
    }
    match r {
        Some(p) => {
            assert(p + pc@.len() <= total);
            Some(p)
        },
        None => None,
    }
}

fn insert_str_at(t: &str, p: usize, ins: &str) -> (r: String)
    requires
        p <= t@.len(),
    ensures
        r@ == insert_at(t@, p as int, ins@),
{
    let tc = chars_of(t);
    insert_at_exec(&tc, p, ins)
}

fn ensure_import(t: String, import: &str) -> (r: Result<String, String>)
    ensures
        match ensure_import_spec(t@, import@) {
            Some(u) => r matches Ok(v) && v@ == u,
            None => r matches Err(e) && e@ == no_imports_msg(),
        },
{
    if str_contains(t.as_str(), import) {
        return Ok(t);
    }
    match find_str(t.as_str(), "import ") {
        Some(p) => {
            let mut line = copy_str(import);
            push_str(&mut line, "\n");
            Ok(insert_str_at(t.as_str(), p, line.as_str()))
        },
        None => Err(copy_str("Angular startup file contains no import declarations")),
    }
}

pub open spec fn missing_marker_msg(what: Seq<char>, path: Seq<char>) -> Seq<char> {
    "could not find "@ + what + " in "@ + path
}

fn missing_marker(what: &str, path: &str) -> (r: String)
    ensures
        r@ == missing_marker_msg(what@, path@),
{
    let mut m = copy_str("could not find ");
    push_str(&mut m, what);
    push_str(&mut m, " in ");
    push_str(&mut m, path);
    m
}

/* ------------------------------ MVC Web module ------------------------------ */

/// The replacements that move the Web module from one theme to the other.
pub open spec fn web_theme_replacements(theme: AbpTheme) -> Seq<(Seq<char>, Seq<char>)> {
    match theme {
        AbpTheme::LeptonX => Seq::empty()
            .push(("Volo.Abp.AspNetCore.Mvc.UI.Theme.Basic.Bundling"@, "Volo.Abp.AspNetCore.Mvc.UI.Theme.LeptonXLite.Bundling"@))
            .push(("Volo.Abp.AspNetCore.Mvc.UI.Theme.Basic"@, "Volo.Abp.AspNetCore.Mvc.UI.Theme.LeptonXLite"@))
            .push(("BasicThemeBundles"@, "LeptonXLiteThemeBundles"@))
            .push(("AbpAspNetCoreMvcUiBasicThemeModule"@, "AbpAspNetCoreMvcUiLeptonXLiteThemeModule"@)),
        AbpTheme::Basic => Seq::empty()
            .push(("Volo.Abp.AspNetCore.Mvc.UI.Theme.LeptonXLite.Bundling"@, "Volo.Abp.AspNetCore.Mvc.UI.Theme.Basic.Bundling"@))
            .push(("Volo.Abp.AspNetCore.Mvc.UI.Theme.LeptonXLite"@, "Volo.Abp.AspNetCore.Mvc.UI.Theme.Basic"@))
            .push(("LeptonXLiteThemeBundles"@, "BasicThemeBundles"@))
            .push(("AbpAspNetCoreMvcUiLeptonXLiteThemeModule"@, "AbpAspNetCoreMvcUiBasicThemeModule"@)),
    }
}

fn replace_lit(s: String, from: &str, to: &str) -> (r: String)
    requires
        from@.len() > 0,
    ensures
        r@ == replace_all(s@, from@, to@),
{
    replace_exec(s.as_str(), from, to)
}

/// The Web module text with its theme references switched to `theme`.
pub fn web_module_theme_text(text: &str, theme: AbpTheme) -> (r: String)
    ensures
        r@ == replace_each(text@, web_theme_replacements(theme)),
{
    let t = copy_str(text);
    match theme {
        AbpTheme::LeptonX => {
            proof {
                reveal_strlit("Volo.Abp.AspNetCore.Mvc.UI.Theme.Basic.Bundling");
                reveal_strlit("Volo.Abp.AspNetCore.Mvc.UI.Theme.Basic");
                reveal_strlit("BasicThemeBundles");
                reveal_strlit("AbpAspNetCoreMvcUiBasicThemeModule");
            }
            let t = replace_lit(t, "Volo.Abp.AspNetCore.Mvc.UI.Theme.Basic.Bundling", "Volo.Abp.AspNetCore.Mvc.UI.Theme.LeptonXLite.Bundling");
            let t = replace_lit(t, "Volo.Abp.AspNetCore.Mvc.UI.Theme.Basic", "Volo.Abp.AspNetCore.Mvc.UI.Theme.LeptonXLite");
            let t = replace_lit(t, "BasicThemeBundles", "LeptonXLiteThemeBundles");
            let t = replace_lit(t, "AbpAspNetCoreMvcUiBasicThemeModule", "AbpAspNetCoreMvcUiLeptonXLiteThemeModule");
            proof {
                let rs = web_theme_replacements(theme);
                assert(rs.drop_last().drop_last().drop_last().drop_last() =~= Seq::<(Seq<char>, Seq<char>)>::empty());
                reveal_with_fuel(replace_each, 5);
            }
            t
        },
        AbpTheme::Basic => {
            proof {
                reveal_strlit("Volo.Abp.AspNetCore.Mvc.UI.Theme.LeptonXLite.Bundling");
                reveal_strlit("Volo.Abp.AspNetCore.Mvc.UI.Theme.LeptonXLite");
                reveal_strlit("LeptonXLiteThemeBundles");
                reveal_strlit("AbpAspNetCoreMvcUiLeptonXLiteThemeModule");
            }
            let t = replace_lit(t, "Volo.Abp.AspNetCore.Mvc.UI.Theme.LeptonXLite.Bundling", "Volo.Abp.AspNetCore.Mvc.UI.Theme.Basic.Bundling");
            let t = replace_lit(t, "Volo.Abp.AspNetCore.Mvc.UI.Theme.LeptonXLite", "Volo.Abp.AspNetCore.Mvc.UI.Theme.Basic");
            let t = replace_lit(t, "LeptonXLiteThemeBundles", "BasicThemeBundles");
            let t = replace_lit(t, "AbpAspNetCoreMvcUiLeptonXLiteThemeModule", "AbpAspNetCoreMvcUiBasicThemeModule");
            proof {
                let rs = web_theme_replacements(theme);
                assert(rs.drop_last().drop_last().drop_last().drop_last() =~= Seq::<(Seq<char>, Seq<char>)>::empty());
                reveal_with_fuel(replace_each, 5);
            }
            t
        },
    }
}

/// The project file without the lines that mention `needle`, joined by
/// line breaks.
pub fn strip_reference_lines(content: &str, needle: &str) -> (r: String)
    ensures
        r@ == join(kept_lines(content@, seq![needle@], None), "\n"@),
{
    let mut needles: Vec<String> = Vec::new();
    needles.push(copy_str(needle));
    assert(views(needles@) =~= seq![needle@]);
    let kept = filter_lines(content, &needles, None);
    join_exec(&kept, "\n")
}

/* ------------------------------ Angular startup files ------------------------------ */

pub open spec fn commercial_msg(path: Seq<char>) -> Seq<char> {
    "commercial Angular LeptonX is not interchangeable with LeptonX Lite; refusing to rewrite "@ + path
}

/// The theme imports that are dropped before the chosen theme's are added.
pub open spec fn startup_needles() -> Seq<Seq<char>> {
    Seq::empty()
        .push("from '@abp/ng.theme.basic'"@)
        .push("from '@abp/ng.theme.lepton-x'"@)
        .push("from '@abp/ng.theme.lepton-x/layouts'"@)
        .push("from './footer/footer.config'"@)
}

pub open spec fn layout_needles() -> Seq<Seq<char>> {
    Seq::empty().push("provideSideMenuLayout()"@).push("provideTopMenuLayout()"@)
}

pub open spec fn shared_marker() -> Seq<char> {
    "    provideAbpThemeShared(),"@
}

/// `t` with `ins` before `marker`, or the error naming `what`.
pub open spec fn before_marker(t: Seq<char>, marker: Seq<char>, ins: Seq<char>, what: Seq<char>, path: Seq<char>) -> Result<
    Seq<char>,
    Seq<char>,
> {
    match find(t, marker) {
        Some(p) => Ok(insert_at(t, p, ins)),
        None => Err(missing_marker_msg(what, path)),
    }
}

/// `t` with `ins` after `marker`, or the error naming `what`.
pub open spec fn after_marker(t: Seq<char>, marker: Seq<char>, ins: Seq<char>, what: Seq<char>, path: Seq<char>) -> Result<
    Seq<char>,
    Seq<char>,
> {
    match find(t, marker) {
        Some(p) => Ok(insert_at(t, p + marker.len(), ins)),
        None => Err(missing_marker_msg(what, path)),
    }
}

pub open spec fn import_or_err(t: Seq<char>, import: Seq<char>) -> Result<Seq<char>, Seq<char>> {
    match ensure_import_spec(t, import) {
        Some(u) => Ok(u),
        None => Err(no_imports_msg()),
    }
}

pub open spec fn basic_import() -> Seq<char> {
    "import { provideThemeBasicConfig } from '@abp/ng.theme.basic';"@
}

pub open spec fn leptonx_import() -> Seq<char> {
    "import { provideThemeLeptonX } from '@abp/ng.theme.lepton-x';"@
}

pub open spec fn layout_import() -> Seq<char> {
    "import { provideSideMenuLayout } from '@abp/ng.theme.lepton-x/layouts';"@
}

pub open spec fn footer_import() -> Seq<char> {
    "import { FOOTER_PROVIDER } from './footer/footer.config';"@
}

pub open spec fn standalone_basic(t1: Seq<char>, path: Seq<char>) -> Result<Seq<char>, Seq<char>> {
    let t2 = replace_all(t1, "provideThemeLeptonX(),"@, "provideThemeBasicConfig(),"@);
    let t3 = filtered_text(t2, layout_needles(), None);
    match import_or_err(t3, basic_import()) {
        Err(e) => Err(e),
        Ok(t4) => if contains(t4, "provideThemeBasicConfig(),"@) {
            Ok(t4)
        } else {
            before_marker(t4, shared_marker(), "    provideThemeBasicConfig(),\n"@, "provideAbpThemeShared()"@, path)
        },
    }
}

pub open spec fn standalone_footer(t5: Seq<char>, path: Seq<char>) -> Result<Seq<char>, Seq<char>> {
    match import_or_err(t5, footer_import()) {
        Err(e) => Err(e),
        Ok(t6) => if contains(t6, "    FOOTER_PROVIDER,"@) {
            Ok(t6)
        } else {
            after_marker(t6, "    APP_ROUTE_PROVIDER,"@, "\n    FOOTER_PROVIDER,"@, "APP_ROUTE_PROVIDER"@, path)
        },
    }
}

pub open spec fn standalone_leptonx(t1: Seq<char>, has_footer: bool, path: Seq<char>) -> Result<Seq<char>, Seq<char>> {
    let t2 = replace_all(t1, "provideThemeBasicConfig(),"@, "provideThemeLeptonX(),\n    provideSideMenuLayout(),"@);
    match import_or_err(t2, leptonx_import()) {
        Err(e) => Err(e),
        Ok(t3) => match import_or_err(t3, layout_import()) {
            Err(e) => Err(e),
            Ok(t4) => {
                let t5 = if contains(t4, "provideThemeLeptonX(),"@) {
                    Ok(t4)
                } else {
                    before_marker(
                        t4,
                        shared_marker(),
                        "    provideThemeLeptonX(),\n    provideSideMenuLayout(),\n"@,
                        "provideAbpThemeShared()"@,
                        path,
                    )
                };
                match t5 {
                    Err(e) => Err(e),
                    Ok(t) => if has_footer {
                        standalone_footer(t, path)
                    } else {
                        Ok(t)
                    },
                }
            },
        },
    }
}

/// The standalone Angular configuration (`app.config.ts`) switched to
/// `theme`; `has_footer` tells whether the app has a footer configuration.
pub open spec fn standalone_theme_spec(orig: Seq<char>, theme: AbpTheme, has_footer: bool, path: Seq<char>) -> Result<
    Seq<char>,
    Seq<char>,
> {
    if contains(orig, "@volosoft/abp.ng.theme.lepton-x"@) {
        Err(commercial_msg(path))
    } else {
        let t1 = filtered_text(orig, startup_needles(), Some("FOOTER_PROVIDER,"@));
        match theme {
            AbpTheme::Basic => standalone_basic(t1, path),
            AbpTheme::LeptonX => standalone_leptonx(t1, has_footer, path),
        }
    }
}

fn before_marker_exec(t: String, marker: &str, ins: &str, what: &str, path: &str) -> (r: Result<String, String>)
    ensures
        match (r, before_marker(t@, marker@, ins@, what@, path@)) {
            (Ok(a), Ok(b)) => a@ == b,
            (Err(a), Err(b)) => a@ == b,
            _ => false,
        },
{
    match find_str(t.as_str(), marker) {
        Some(p) => Ok(insert_str_at(t.as_str(), p, ins)),
        None => Err(missing_marker(what, path)),
    }
}

fn after_marker_exec(t: String, marker: &str, ins: &str, what: &str, path: &str) -> (r: Result<String, String>)
    ensures
        match (r, after_marker(t@, marker@, ins@, what@, path@)) {
            (Ok(a), Ok(b)) => a@ == b,
            (Err(a), Err(b)) => a@ == b,
            _ => false,
        },
{
    let mc = chars_of(marker);
    let tc = chars_of(t.as_str());
    let total = tc.len();
    match find_str(t.as_str(), marker) {
        Some(p) => Ok(insert_str_at(t.as_str(), p + mc.len(), ins)),
        None => Err(missing_marker(what, path)),
    }
}

fn needles_of(v: Vec<&str>) -> (r: Vec<String>)
    ensures
        views(r@) == v@.map_values(|s: &str| s@),
{
    let mut out: Vec<String> = Vec::new();
    let mut i: usize = 0;
    while i < v.len()
        invariant
            i <= v@.len(),
            views(out@) == v@.take(i as int).map_values(|s: &str| s@),
        decreases v.len() - i,
    {
        let ghost before = views(out@);
        out.push(copy_str(v[i]));
        assert(views(out@) =~= before.push(v@[i as int]@));
        assert(v@.take(i + 1) =~= v@.take(i as int).push(v@[i as int]));
        assert(views(out@) =~= v@.take(i + 1).map_values(|s: &str| s@));
        i = i + 1;
    }
    assert(v@.take(v@.len() as int) =~= v@);
    out
}

/// Switches the standalone Angular configuration `text` (read from `path`)
/// to `theme`; fails on the commercial LeptonX theme, on a file without
/// imports and where a marker line is missing.
pub fn standalone_angular_theme_text(text: &str, theme: AbpTheme, has_footer: bool, path: &str) -> (r: Result<
    String,
    String,
>)
    ensures
        match (r, standalone_theme_spec(text@, theme, has_footer, path@)) {
            (Ok(a), Ok(b)) => a@ == b,
            (Err(a), Err(b)) => a@ == b,
            _ => false,
        },
{
    if str_contains(text, "@volosoft/abp.ng.theme.lepton-x") {
        let mut m = copy_str("commercial Angular LeptonX is not interchangeable with LeptonX Lite; refusing to rewrite ");
        push_str(&mut m, path);
        return Err(m);
    }
    let needles = needles_of(
        vec![
            "from '@abp/ng.theme.basic'",
            "from '@abp/ng.theme.lepton-x'",
            "from '@abp/ng.theme.lepton-x/layouts'",
            "from './footer/footer.config'",
        ],
    );
    assert(views(needles@) =~= startup_needles());
    let t1 = filtered_text_exec(text, &needles, Some("FOOTER_PROVIDER,"));
    match theme {
        AbpTheme::Basic => {
            proof {
                reveal_strlit("provideThemeLeptonX(),");
            }
            let t2 = replace_exec(t1.as_str(), "provideThemeLeptonX(),", "provideThemeBasicConfig(),");
            let layouts = needles_of(vec!["provideSideMenuLayout()", "provideTopMenuLayout()"]);
            assert(views(layouts@) =~= layout_needles());
            let t3 = filtered_text_exec(t2.as_str(), &layouts, None);
            let t4 = ensure_import(t3, "import { provideThemeBasicConfig } from '@abp/ng.theme.basic';")?;
            if str_contains(t4.as_str(), "provideThemeBasicConfig(),") {
                Ok(t4)
            } else {
                before_marker_exec(
                    t4,
                    "    provideAbpThemeShared(),",
                    "    provideThemeBasicConfig(),\n",
                    "provideAbpThemeShared()",
                    path,
                )
            }
        },
        AbpTheme::LeptonX => {
            proof {
                reveal_strlit("provideThemeBasicConfig(),");
            }
            let t2 = replace_exec(
                t1.as_str(),
                "provideThemeBasicConfig(),",
                "provideThemeLeptonX(),\n    provideSideMenuLayout(),",
            );
            let t3 = ensure_import(t2, "import { provideThemeLeptonX } from '@abp/ng.theme.lepton-x';")?;
            let t4 = ensure_import(t3, "import { provideSideMenuLayout } from '@abp/ng.theme.lepton-x/layouts';")?;
            let t5 = if str_contains(t4.as_str(), "provideThemeLeptonX(),") {
                t4
            } else {
                before_marker_exec(
                    t4,
                    "    provideAbpThemeShared(),",
                    "    provideThemeLeptonX(),\n    provideSideMenuLayout(),\n",
                    "provideAbpThemeShared()",
                    path,
                )?
            };
            if !has_footer {
                return Ok(t5);
            }
            let t6 = ensure_import(t5, "import { FOOTER_PROVIDER } from './footer/footer.config';")?;
            if str_contains(t6.as_str(), "    FOOTER_PROVIDER,") {
                Ok(t6)
            } else {
                after_marker_exec(
                    t6,
                    "    APP_ROUTE_PROVIDER,",
                    "\n    FOOTER_PROVIDER,",
                    "APP_ROUTE_PROVIDER",
                    path,
                )
            }
        },
    }
}

/// The legacy Angular module (`app.module.ts`) switched to `theme`.
pub open spec fn legacy_theme_spec(orig: Seq<char>, theme: AbpTheme, path: Seq<char>) -> Result<Seq<char>, Seq<char>> {
    match theme {
        AbpTheme::Basic => {
            let t = replace_all(orig, "@abp/ng.theme.lepton-x"@, "@abp/ng.theme.basic"@);
            let t = replace_all(t, "ThemeLeptonXModule"@, "ThemeBasicModule"@);
            let t = replace_all(t, "provideThemeLeptonX"@, "provideThemeBasicConfig"@);
            Ok(filtered_text(t, seq!["SideMenuLayoutModule"@], None))
        },
        AbpTheme::LeptonX => {
            let t = replace_all(orig, "@abp/ng.theme.basic"@, "@abp/ng.theme.lepton-x"@);
            let t = replace_all(t, "ThemeBasicModule"@, "ThemeLeptonXModule"@);
            let t = replace_all(t, "provideThemeBasicConfig"@, "provideThemeLeptonX"@);
            match import_or_err(t, "import { SideMenuLayoutModule } from '@abp/ng.theme.lepton-x/layouts';"@) {
                Err(e) => Err(e),
                Ok(u) => if contains(u, "SideMenuLayoutModule,"@) {
                    Ok(u)
                } else {
                    after_marker(u, "    ThemeLeptonXModule,"@, "\n    SideMenuLayoutModule,"@, "ThemeLeptonXModule"@, path)
                },
            }
        },
    }
}

/// Switches the legacy Angular module `text` (read from `path`) to `theme`.
pub fn legacy_angular_theme_text(text: &str, theme: AbpTheme, path: &str) -> (r: Result<String, String>)
    ensures
        match (r, legacy_theme_spec(text@, theme, path@)) {
            (Ok(a), Ok(b)) => a@ == b,
            (Err(a), Err(b)) => a@ == b,
            _ => false,
        },
{
    match theme {
        AbpTheme::Basic => {
            proof {
                reveal_strlit("@abp/ng.theme.lepton-x");
                reveal_strlit("ThemeLeptonXModule");
                reveal_strlit("provideThemeLeptonX");
            }
            let t = replace_exec(text, "@abp/ng.theme.lepton-x", "@abp/ng.theme.basic");
            let t = replace_exec(t.as_str(), "ThemeLeptonXModule", "ThemeBasicModule");
            let t = replace_exec(t.as_str(), "provideThemeLeptonX", "provideThemeBasicConfig");
            let mut needles: Vec<String> = Vec::new();
            needles.push(copy_str("SideMenuLayoutModule"));
            assert(views(needles@) =~= seq!["SideMenuLayoutModule"@]);
            Ok(filtered_text_exec(t.as_str(), &needles, None))
        },
        AbpTheme::LeptonX => {
            proof {
                reveal_strlit("@abp/ng.theme.basic");
                reveal_strlit("ThemeBasicModule");
                reveal_strlit("provideThemeBasicConfig");
            }
            let t = replace_exec(text, "@abp/ng.theme.basic", "@abp/ng.theme.lepton-x");
            let t = replace_exec(t.as_str(), "ThemeBasicModule", "ThemeLeptonXModule");
            let t = replace_exec(t.as_str(), "provideThemeBasicConfig", "provideThemeLeptonX");
            let u = ensure_import(t, "import { SideMenuLayoutModule } from '@abp/ng.theme.lepton-x/layouts';")?;
            if str_contains(u.as_str(), "SideMenuLayoutModule,") {
                Ok(u)
            } else {
                after_marker_exec(u, "    ThemeLeptonXModule,", "\n    SideMenuLayoutModule,", "ThemeLeptonXModule", path)
            }
        },
    }
}

/* ------------------------------ theme detection ------------------------------ */

/// Markers of the LeptonX themes.
pub open spec fn leptonx_markers() -> Seq<Seq<char>> {
    Seq::empty()
        .push("AbpAspNetCoreMvcUiLeptonXThemeModule"@)
        .push("AbpAspNetCoreMvcUiLeptonXLiteThemeModule"@)
        .push("LeptonXThemeBundles"@)
        .push("LeptonXLiteThemeBundles"@)
        .push("Volo.Abp.AspNetCore.Mvc.UI.Theme.LeptonX"@)
        .push("@abp/ng.theme.lepton-x"@)
        .push("@volo/ngx-lepton-x"@)
        .push("provideThemeLeptonX"@)
        .push("ThemeLeptonXModule"@)
        .push("eThemeLeptonX"@)
}

/// Markers of the Basic theme.
pub open spec fn basic_markers() -> Seq<Seq<char>> {
    Seq::empty()
        .push("AbpAspNetCoreMvcUiBasicThemeModule"@)
        .push("BasicThemeBundles"@)
        .push("Volo.Abp.AspNetCore.Mvc.UI.Theme.Basic"@)
        .push("@abp/ng.theme.basic"@)
        .push("provideThemeBasicConfig"@)
        .push("ThemeBasicModule"@)
        .push("eThemeBasic"@)
}

/// The theme a file's text points to: the one whose markers alone occur.
pub open spec fn detect_theme_spec(content: Seq<char>) -> Option<AbpTheme> {
    let lx = contains_any(content, leptonx_markers());
    let basic = contains_any(content, basic_markers());
    if basic && !lx {
        Some(AbpTheme::Basic)
    } else if lx && !basic {
        Some(AbpTheme::LeptonX)
    } else {
        None
    }
}

/// The theme that `content` uses, when only one theme's markers occur in it.
pub fn detect_theme_in_text(content: &str) -> (r: Option<AbpTheme>)
    ensures
        r == detect_theme_spec(content@),
{
    let lx = needles_of(
        vec![
            "AbpAspNetCoreMvcUiLeptonXThemeModule",
            "AbpAspNetCoreMvcUiLeptonXLiteThemeModule",
            "LeptonXThemeBundles",
            "LeptonXLiteThemeBundles",
            "Volo.Abp.AspNetCore.Mvc.UI.Theme.LeptonX",
            "@abp/ng.theme.lepton-x",
            "@volo/ngx-lepton-x",
            "provideThemeLeptonX",
            "ThemeLeptonXModule",
            "eThemeLeptonX",
        ],
    );
    assert(views(lx@) =~= leptonx_markers());
    let basic = needles_of(
        vec![
            "AbpAspNetCoreMvcUiBasicThemeModule",
            "BasicThemeBundles",
            "Volo.Abp.AspNetCore.Mvc.UI.Theme.Basic",
            "@abp/ng.theme.basic",
            "provideThemeBasicConfig",
            "ThemeBasicModule",
            "eThemeBasic",
        ],
    );
    assert(views(basic@) =~= basic_markers());
    let has_lx = contains_any_exec(content, &lx);
    let has_basic = contains_any_exec(content, &basic);
    if has_basic && !has_lx {
        Some(AbpTheme::Basic)
    } else if has_lx && !has_basic {
        Some(AbpTheme::LeptonX)
    } else {
        None
    }
}

/* ------------------------------ Bootstrap override bundle ------------------------------ */

pub open spec fn legacy_override_call() -> Seq<char> {
    "bundle.AddFiles(\"/bootstrap-overrides.css\");"@
}

pub open spec fn legacy_override_expr() -> Seq<char> {
    "bundle.AddFiles(\"/bootstrap-overrides.css\")"@
}

pub open spec fn global_styles_line() -> Seq<char> {
    "bundle.AddFiles(\"/global-styles.css\");"@
}

/// The global style bundles of the themes, in the order they are tried.
pub open spec fn style_markers() -> Seq<Seq<char>> {
    Seq::empty()
        .push("BasicThemeBundles.Styles.Global"@)
        .push("StandardBundles.Styles.Global"@)
        .push("LeptonXLiteThemeBundles.Styles.Global"@)
}

/// `s` with `line` added inside the block that follows the first of
/// `markers` (from index `k` on) that has one, indented one level deeper
/// than the marker's line; none when no marker has a block.
pub open spec fn add_to_first_bundle(s: Seq<char>, markers: Seq<Seq<char>>, k: int, line: Seq<char>) -> Option<Seq<char>>
    decreases markers.len() - k,
{
    if k < 0 || k >= markers.len() {
        None
    } else {
        match find(s, markers[k]) {
            Some(mp) => match find_from(s, "{"@, mp) {
                Some(bp) => Some(
                    insert_at(
                        s,
                        bp + 1,
                        "\n"@ + ws_run(s.take(mp), line_start(s, mp)) + "    "@ + line,
                    ),
                ),
                None => add_to_first_bundle(s, markers, k + 1, line),
            },
            None => add_to_first_bundle(s, markers, k + 1, line),
        }
    }
}

/// The asset path that a bundle line quotes: its text between the first
/// two double quotes.
pub open spec fn quoted_asset(line: Seq<char>) -> Option<Seq<char>> {
    if split(line, '"').len() > 1 {
        Some(split(line, '"')[1])
    } else {
        None
    }
}

/// `s` with the bundle `line` added to the first bundle of `markers`;
/// none when the line or its asset is already there or no bundle is found.
pub open spec fn bundle_line_spec(s: Seq<char>, markers: Seq<Seq<char>>, line: Seq<char>) -> Option<Seq<char>> {
    if contains(s, line) || (quoted_asset(line) matches Some(a) && contains(s, a)) {
        None
    } else {
        add_to_first_bundle(s, markers, 0, line)
    }
}

/// The bundling configuration appended when no theme bundle is configured.
pub open spec fn fallback_bundle(key: Seq<char>) -> Seq<char> {
    "\n        Configure<AbpBundlingOptions>(options =>\n        {\n            options.StyleBundles.Configure(\n                "@ + key + ".Styles.Global,\n                bundle =>\n                {\n                    bundle.AddFiles(\"/global-styles.css\");\n                });\n        });\n"@
}

/// The Web module text with the legacy override file dropped and the global
/// styles file bundled, and whether anything changed.
pub open spec fn override_bundle_spec(text: Seq<char>) -> (Seq<char>, bool) {
    let legacy = contains(text, "/bootstrap-overrides.css"@);
    let s1 = if legacy {
        replace_all(replace_all(text, legacy_override_call(), Seq::empty()), legacy_override_expr(), Seq::empty())
    } else {
        text
    };
    let added = bundle_line_spec(s1, style_markers(), global_styles_line());
    let s2 = match added {
        Some(t) => t,
        None => s1,
    };
    let has_bundle = contains_any(s2, style_markers());
    if added is None && !has_bundle {
        let key = if contains(s2, "LeptonXLiteThemeBundles"@) {
            "LeptonXLiteThemeBundles"@
        } else if contains(s2, "StandardBundles"@) {
            "StandardBundles"@
        } else {
            "BasicThemeBundles"@
        };
        (s2 + fallback_bundle(key), true)
    } else {
        (s2, legacy || added is Some)
    }
}

fn add_to_first_bundle_exec(s: &str, markers: &Vec<String>, line: &str) -> (r: Option<String>)
    ensures
        match r {
            Some(t) => add_to_first_bundle(s@, views(markers@), 0, line@) == Some(t@),
            None => add_to_first_bundle(s@, views(markers@), 0, line@) is None,
        },
{
    let cs = chars_of(s);
    let total = cs.len();
    let brace = chars_of("{");
    proof {
        reveal_strlit("{");
    }
    let ghost mv = views(markers@);
    let mut k: usize = 0;
    while k < markers.len()
        invariant
            k <= markers@.len(),
            mv == views(markers@),
            cs@ == s@,
            total == cs@.len(),
            brace@ == "{"@,
            add_to_first_bundle(s@, mv, 0, line@) == add_to_first_bundle(s@, mv, k as int, line@),
        decreases markers.len() - k,
    {
        match find_str(s, markers[k].as_str()) {
            Some(mp) => {
                let found = crate::text::find_from_exec(&cs, &brace, mp);
                match found {
                    Some(bp) => {
                        proof {
                            lemma_find_from_sound(cs@, brace@, mp as int);
                            reveal_strlit("{");
                            assert(brace@.len() == 1);
                        }
                        assert(bp + 1 <= total);
                        let prefix = string_of_range_chars(&cs, mp);
                        let pc = chars_of(prefix.as_str());
                        let ls = line_start_exec(&cs, mp, false);
                        let indent = ws_run_exec(&pc, ls);
                        let mut ins = copy_str("\n");
                        push_str(&mut ins, indent.as_str());
                        push_str(&mut ins, "    ");
                        push_str(&mut ins, line);
                        return Some(insert_at_exec(&cs, bp + 1, ins.as_str()));
                    },
                    None => {},
                }
            },
            None => {},
        }
        k = k + 1;
    }
    None
}

/// Adds the bundle `line` to the first bundle of `markers` in `s`, unless
/// the line or the asset it quotes is already there.
fn bundle_line(s: &str, markers: &Vec<String>, line: &str) -> (r: Option<String>)
    ensures
        match r {
            Some(t) => bundle_line_spec(s@, views(markers@), line@) == Some(t@),
            None => bundle_line_spec(s@, views(markers@), line@) is None,
        },
{
    if str_contains(s, line) {
        return None;
    }
    let parts = split_exec(line, '"');
    if parts.len() > 1 && str_contains(s, parts[1].as_str()) {
        return None;
    }
    add_to_first_bundle_exec(s, markers, line)
}

fn string_of_range_chars(cs: &Vec<char>, to: usize) -> (r: String)
    requires
        to <= cs@.len(),
    ensures
        r@ == cs@.take(to as int),
{
    let r = crate::text::string_of_range(cs, 0, to);
    assert(r@ =~= cs@.take(to as int));
    r
}

/// Drops the legacy override stylesheet from the Web module text and
/// bundles `/global-styles.css` with the theme's global styles, appending a
/// bundling configuration where the module configures none; the flag says
/// whether the text changed.
pub fn override_bundle_text(text: &str) -> (r: (String, bool))
    ensures
        (r.0@, r.1) == override_bundle_spec(text@),
{
    let legacy = str_contains(text, "/bootstrap-overrides.css");
    let s1 = if legacy {
        proof {
            reveal_strlit("bundle.AddFiles(\"/bootstrap-overrides.css\");");
            reveal_strlit("bundle.AddFiles(\"/bootstrap-overrides.css\")");
            reveal_strlit("");
        }
        let a = replace_exec(text, "bundle.AddFiles(\"/bootstrap-overrides.css\");", "");
        let b = replace_exec(a.as_str(), "bundle.AddFiles(\"/bootstrap-overrides.css\")", "");
        assert(""@ =~= Seq::<char>::empty());
        b
    } else {
        copy_str(text)
    };
    let markers = needles_of(
        vec![
            "BasicThemeBundles.Styles.Global",
            "StandardBundles.Styles.Global",
            "LeptonXLiteThemeBundles.Styles.Global",
        ],
    );
    assert(views(markers@) =~= style_markers());
    let added = bundle_line(s1.as_str(), &markers, "bundle.AddFiles(\"/global-styles.css\");");
    let was_added = added.is_some();
    let s2 = match added {
        Some(t) => t,
        None => s1,
    };
    let has_bundle = contains_any_exec(s2.as_str(), &markers);
    if !was_added && !has_bundle {
        let key = if str_contains(s2.as_str(), "LeptonXLiteThemeBundles") {
            "LeptonXLiteThemeBundles"
        } else if str_contains(s2.as_str(), "StandardBundles") {
            "StandardBundles"
        } else {
            "BasicThemeBundles"
        };
        let mut out = s2;
        push_str(&mut out, "\n        Configure<AbpBundlingOptions>(options =>\n        {\n            options.StyleBundles.Configure(\n                ");
        push_str(&mut out, key);
        push_str(&mut out, ".Styles.Global,\n                bundle =>\n                {\n                    bundle.AddFiles(\"/global-styles.css\");\n                });\n        });\n");
        (out, true)
    } else {
        (s2, legacy || was_added)
    }
}

/* ------------------------------ Vue asset bundles ------------------------------ */

pub open spec fn vue_style_markers() -> Seq<Seq<char>> {
    Seq::empty()
        .push("BasicThemeBundles.Styles.Global"@)
        .push("StandardBundles.Styles.Global"@)
        .push("LeptonXLiteThemeBundles.Styles.Global"@)
        .push("LeptonXThemeBundles.Styles.Global"@)
}

pub open spec fn vue_script_markers() -> Seq<Seq<char>> {
    Seq::empty()
        .push("BasicThemeBundles.Scripts.Global"@)
        .push("StandardBundles.Scripts.Global"@)
        .push("LeptonXLiteThemeBundles.Scripts.Global"@)
        .push("LeptonXThemeBundles.Scripts.Global"@)
}

/// The bundle lines of the Vue assets, each with whether it is a style.
pub open spec fn vue_bundle_lines() -> Seq<(bool, Seq<char>)> {
    Seq::empty()
        .push((true, "bundle.AddFiles(\"/libs/vue-select/vue-select.css\");"@))
        .push((true, "bundle.AddFiles(\"/global-styles.css\");"@))
        .push((false, "bundle.AddFiles(\"/app.vuehelper.js\");"@))
        .push((false, "bundle.AddFiles(\"/libs/vue-select/vue-select.umd.js\");"@))
        .push((false, "bundle.AddFiles(\"/libs/vue/vue.global.prod.js\");"@))
        .push((false, "bundle.AddFiles(\"/global-scripts.js\");"@))
}

/// `s` with each line of `ls` added to the style or script bundles, and
/// whether one was added.
pub open spec fn vue_bundle_fold(s: Seq<char>, ls: Seq<(bool, Seq<char>)>) -> (Seq<char>, bool)
    decreases ls.len(),
{
    if ls.len() == 0 {
        (s, false)
    } else {
        let prev = vue_bundle_fold(s, ls.drop_last());
        let markers = if ls.last().0 {
            vue_style_markers()
        } else {
            vue_script_markers()
        };
        match bundle_line_spec(prev.0, markers, ls.last().1) {
            Some(t) => (t, true),
            None => prev,
        }
    }
}

pub open spec fn vue_bundle_error(path: Seq<char>) -> Seq<char> {
    "could not safely register Vue assets in "@ + path + "; no supported ABP style/script bundle was found"@
}

/// The Web module with the Vue assets bundled; an error when it has no
/// style or no script bundle to add them to.
pub open spec fn vue_bundle_spec(text: Seq<char>, path: Seq<char>) -> Result<(Seq<char>, bool), Seq<char>> {
    if !contains_any(text, vue_style_markers()) || !contains_any(text, vue_script_markers()) {
        Err(vue_bundle_error(path))
    } else {
        Ok(vue_bundle_fold(text, vue_bundle_lines()))
    }
}

/// Registers the Vue scripts and styles in the theme bundles of the Web
/// module `text` (read from `path`); the flag says whether it changed.
pub fn vue_bundle_text(text: &str, path: &str) -> (r: Result<(String, bool), String>)
    ensures
        match (r, vue_bundle_spec(text@, path@)) {
            (Ok(a), Ok(b)) => a.0@ == b.0 && a.1 == b.1,
            (Err(a), Err(b)) => a@ == b,
            _ => false,
        },
{
    let styles = needles_of(
        vec![
            "BasicThemeBundles.Styles.Global",
            "StandardBundles.Styles.Global",
            "LeptonXLiteThemeBundles.Styles.Global",
            "LeptonXThemeBundles.Styles.Global",
        ],
    );
    assert(views(styles@) =~= vue_style_markers());
    let scripts = needles_of(
        vec![
            "BasicThemeBundles.Scripts.Global",
            "StandardBundles.Scripts.Global",
            "LeptonXLiteThemeBundles.Scripts.Global",
            "LeptonXThemeBundles.Scripts.Global",
        ],
    );
    assert(views(scripts@) =~= vue_script_markers());
    if !contains_any_exec(text, &styles) || !contains_any_exec(text, &scripts) {
        let mut m = copy_str("could not safely register Vue assets in ");
        push_str(&mut m, path);
        push_str(&mut m, "; no supported ABP style/script bundle was found");
        return Err(m);
    }
    let lines: Vec<(bool, &str)> = vec![
        (true, "bundle.AddFiles(\"/libs/vue-select/vue-select.css\");"),
        (true, "bundle.AddFiles(\"/global-styles.css\");"),
        (false, "bundle.AddFiles(\"/app.vuehelper.js\");"),
        (false, "bundle.AddFiles(\"/libs/vue-select/vue-select.umd.js\");"),
        (false, "bundle.AddFiles(\"/libs/vue/vue.global.prod.js\");"),
        (false, "bundle.AddFiles(\"/global-scripts.js\");"),
    ];
    let ghost lv = lines@.map_values(|p: (bool, &str)| (p.0, p.1@));
    assert(lv =~= vue_bundle_lines());
    let mut cur = copy_str(text);
    let mut changed = false;
    let mut i: usize = 0;
    assert(lv.take(0) =~= Seq::<(bool, Seq<char>)>::empty());
    while i < lines.len()
        invariant
            i <= lines@.len(),
            lv == lines@.map_values(|p: (bool, &str)| (p.0, p.1@)),
            views(styles@) == vue_style_markers(),
            views(scripts@) == vue_script_markers(),
            (cur@, changed) == vue_bundle_fold(text@, lv.take(i as int)),
        decreases lines.len() - i,
    {
        proof {
            assert(lv.take(i + 1).drop_last() =~= lv.take(i as int));
            assert(lv.take(i + 1).last() == lv[i as int]);
        }
        let (is_style, line) = lines[i];
        let added = if is_style {
            bundle_line(cur.as_str(), &styles, line)
        } else {
            bundle_line(cur.as_str(), &scripts, line)
        };
        match added {
            Some(t) => {
                cur = t;
                changed = true;
            },
            None => {},
        }
        i = i + 1;
    }
    assert(lv.take(lines@.len() as int) =~= lv);
    Ok((cur, changed))
}

/// A bundle line is registered: the text holds it or the asset it adds.
pub open spec fn line_registered(s: Seq<char>, line: Seq<char>) -> bool {
    contains(s, line) || (quoted_asset(line) matches Some(a) && contains(s, a))
}

proof fn lemma_fold_registered_unchanged(s: Seq<char>, ls: Seq<(bool, Seq<char>)>)
    requires
        forall|j: int| 0 <= j < ls.len() ==> line_registered(s, #[trigger] ls[j].1),
    ensures
        vue_bundle_fold(s, ls) == (s, false),
    decreases ls.len(),
{
    if ls.len() > 0 {
        let d = ls.drop_last();
        assert forall|j: int| 0 <= j < d.len() implies line_registered(s, #[trigger] d[j].1) by {
            assert(d[j] == ls[j]);
        }
        lemma_fold_registered_unchanged(s, d);
        assert(line_registered(s, ls[ls.len() - 1].1));
    }
}

/// Law: a Web module that has its style and script bundles and already
/// registers every Vue asset is left unchanged, and reported unchanged.
pub proof fn lemma_vue_bundle_registered_unchanged(t: Seq<char>, path: Seq<char>)
    requires
        contains_any(t, vue_style_markers()),
        contains_any(t, vue_script_markers()),
        forall|j: int| 0 <= j < vue_bundle_lines().len() ==> line_registered(t, #[trigger] vue_bundle_lines()[j].1),
    ensures
        vue_bundle_spec(t, path) == Ok::<(Seq<char>, bool), Seq<char>>((t, false)),
{
    lemma_fold_registered_unchanged(t, vue_bundle_lines());
}

/// Law: a Web module without the legacy override file, with a global style
/// bundle that already bundles `/global-styles.css`, is left unchanged and
/// reported unchanged.
pub proof fn lemma_override_bundle_registered_unchanged(t: Seq<char>)
    requires
        !contains(t, "/bootstrap-overrides.css"@),
        contains_any(t, style_markers()),
        line_registered(t, global_styles_line()),
    ensures
        override_bundle_spec(t) == (t, false),
{
}

} // verus!
