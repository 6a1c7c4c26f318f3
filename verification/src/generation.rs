//! What one generation run does, decided from the request and from what the
//! project already has.
use crate::models::{MobileUi, UiTarget};
use crate::ports::ExternalTool;
use vstd::prelude::*;

verus! {

/// The options of the interactive program.
#[derive(Debug, Clone)]
pub struct Cli {
    /// Generate files without merging registrations into existing source files.
    pub no_merge: bool,
    /// Preview generation without changing project files or running commands.
    pub dry_run: bool,
}

/// The name under which the UI target is stored in the placeholders.
pub open spec fn ui_target_name_spec(t: UiTarget) -> Seq<char> {
    match t {
        UiTarget::NoUi => "none"@,
        UiTarget::Razor => "razor"@,
        UiTarget::Vue => "vue"@,
        UiTarget::Angular => "angular"@,
    }
}

pub fn ui_target_name(t: UiTarget) -> (r: &'static str)
    ensures
        r@ == ui_target_name_spec(t),
{
    match t {
        UiTarget::NoUi => "none",
        UiTarget::Razor => "razor",
        UiTarget::Vue => "vue",
        UiTarget::Angular => "angular",
    }
}

/// The steps of one generation run, in the order in which they run.
#[derive(Debug, Clone)]
pub struct GenerationPlan {
    /// Tools to check before anything changes.
    pub required_tools: Vec<ExternalTool>,
    /// Add the Web components, toolbars and their module registration.
    pub web_toolbars: bool,
    /// Install and register the Vue workspace after the files are written.
    pub prepare_vue: bool,
    /// Scaffold the React Native screens.
    pub mobile: bool,
    /// Merge registrations into existing source files.
    pub merge: bool,
}

pub open spec fn required_tools_spec(ui: UiTarget, mini_excel_missing: bool, vue_packages_missing: bool) -> Seq<
    ExternalTool,
> {
    let a: Seq<ExternalTool> = if mini_excel_missing {
        seq![ExternalTool::DotNet]
    } else {
        Seq::empty()
    };
    if ui == UiTarget::Vue && vue_packages_missing {
        a + seq![ExternalTool::Npm, ExternalTool::Abp]
    } else {
        a
    }
}

/// The plan for a run with UI `ui` and mobile UI `mobile`: `dotnet` is
/// needed when the MiniExcel package is missing, `npm` and `abp` when a
/// Vue run lacks its packages; MVC runs (Razor, Vue) get the toolbars.
pub fn generation_plan(
    ui: UiTarget,
    mobile: MobileUi,
    no_merge: bool,
    mini_excel_missing: bool,
    vue_packages_missing: bool,
) -> (r: GenerationPlan)
    ensures
        r.required_tools@ == required_tools_spec(ui, mini_excel_missing, vue_packages_missing),
        r.web_toolbars == (ui == UiTarget::Razor || ui == UiTarget::Vue),
        r.prepare_vue == (ui == UiTarget::Vue),
        r.mobile == (mobile == MobileUi::ReactNative),
        r.merge == !no_merge,
{
    let mut tools: Vec<ExternalTool> = Vec::new();
    if mini_excel_missing {
        tools.push(ExternalTool::DotNet);
    }
    let is_vue = match ui {
        UiTarget::Vue => true,
        _ => false,
    };
    if is_vue && vue_packages_missing {
        tools.push(ExternalTool::Npm);
        tools.push(ExternalTool::Abp);
    }
    proof {
        if mini_excel_missing {
            if is_vue && vue_packages_missing {
                assert(tools@ =~= seq![ExternalTool::DotNet] + seq![ExternalTool::Npm, ExternalTool::Abp]);
            } else {
                assert(tools@ =~= seq![ExternalTool::DotNet]);
            }
        } else {
            if is_vue && vue_packages_missing {
                assert(tools@ =~= Seq::<ExternalTool>::empty() + seq![ExternalTool::Npm, ExternalTool::Abp]);
            } else {
                assert(tools@ =~= Seq::<ExternalTool>::empty());
            }
        }
    }
    let web_toolbars = match ui {
        UiTarget::Razor | UiTarget::Vue => true,
        _ => false,
    };
    let mobile = match mobile {
        MobileUi::ReactNative => true,
        MobileUi::NoMobile => false,
    };
    GenerationPlan { required_tools: tools, web_toolbars, prepare_vue: is_vue, mobile, merge: !no_merge }
}

/// A line of a project file that references the MiniExcel package.
pub open spec fn references_mini_excel_line(l: Seq<char>) -> bool {
    crate::text::contains(l, "PackageReference"@) && crate::text::contains(l, "MiniExcel"@)
}

/// Whether some line of the Application `.csproj` text references the
/// MiniExcel package.
pub fn references_mini_excel(csproj: &str) -> (r: bool)
    ensures
        r == exists|i: int|
            0 <= i < crate::text::lines(csproj@).len() && #[trigger] references_mini_excel_line(
                crate::text::lines(csproj@)[i],
            ),
{
    let ls = crate::text::lines_exec(csproj);
    let ghost lv = crate::text::views(ls@);
    let mut i: usize = 0;
    while i < ls.len()
        invariant
            i <= ls@.len(),
            lv == crate::text::views(ls@),
            lv == crate::text::lines(csproj@),
            forall|j: int| 0 <= j < i ==> !#[trigger] references_mini_excel_line(lv[j]),
        decreases ls.len() - i,
    {
        if crate::text::str_contains(ls[i].as_str(), "PackageReference") && crate::text::str_contains(
            ls[i].as_str(),
            "MiniExcel",
        ) {
            assert(references_mini_excel_line(lv[i as int]));
            return true;
        }
        i = i + 1;
    }
    false
}

/// Which user interfaces a solution has, from the directory names under its
/// `src` folder and under its root: an MVC host is the `src` folder
/// `<domain>.Web`; an Angular workspace is a root folder named `angular` in
/// any ASCII case.
pub fn detect_ui(src_dirs: &Vec<String>, root_dirs: &Vec<String>, domain: &str) -> (r: (bool, bool))
    ensures
        r.0 == exists|i: int| 0 <= i < src_dirs.len() && (#[trigger] src_dirs@[i])@ == domain@ + ".Web"@,
        r.1 == exists|i: int| 0 <= i < root_dirs.len() && crate::text::lower((#[trigger] root_dirs@[i])@)
            == crate::text::lower("angular"@),
{
    let mut web = crate::text::copy_str(domain);
    crate::text::push_str(&mut web, ".Web");
    let mut has_mvc = false;
    let mut i: usize = 0;
    while i < src_dirs.len()
        invariant
            i <= src_dirs.len(),
            web@ == domain@ + ".Web"@,
            has_mvc == exists|j: int| 0 <= j < i && (#[trigger] src_dirs@[j])@ == domain@ + ".Web"@,
        decreases src_dirs.len() - i,
    {
        if crate::text::str_eq(src_dirs[i].as_str(), web.as_str()) {
            has_mvc = true;
        }
        i = i + 1;
    }
    let mut has_angular = false;
    let mut i: usize = 0;
    while i < root_dirs.len()
        invariant
            i <= root_dirs.len(),
            has_angular == exists|j: int| 0 <= j < i && crate::text::lower((#[trigger] root_dirs@[j])@)
                == crate::text::lower("angular"@),
        decreases root_dirs.len() - i,
    {
        if crate::text::eq_ignore_case(root_dirs[i].as_str(), "angular") {
            has_angular = true;
        }
        i = i + 1;
    }
    (has_mvc, has_angular)
}

/// The first of the candidates that exists.
pub open spec fn first_true(flags: Seq<bool>) -> Option<int>
    decreases flags.len(),
{
    if flags.len() == 0 {
        None
    } else if flags[0] {
        Some(0)
    } else {
        match first_true(flags.drop_first()) {
            Some(i) => Some(i + 1),
            None => None,
        }
    }
}

/// The positions of the candidates that exist, in order.
pub open spec fn true_positions(flags: Seq<bool>) -> Seq<int>
    decreases flags.len(),
{
    if flags.len() == 0 {
        Seq::empty()
    } else if flags.last() {
        true_positions(flags.drop_last()).push(flags.len() - 1)
    } else {
        true_positions(flags.drop_last())
    }
}

/// The files that a Razor merge of the Web maps works on: the first
/// existing AutoMapper profile; where there is none, the existing Mapperly
/// files in order (tried until one of them changes).
pub fn razor_maps_plan(profiles: &Vec<bool>, mappers: &Vec<bool>) -> (r: (Option<usize>, Vec<usize>))
    ensures
        match first_true(profiles@) {
            Some(i) => r.0 == Some(i as usize) && r.1@.len() == 0,
            None => r.0 is None && r.1@.map_values(|j: usize| j as int) == true_positions(mappers@),
        },
{
    let mut i: usize = 0;
    assert(profiles@.skip(0) =~= profiles@);
    while i < profiles.len()
        invariant
            i <= profiles.len(),
            forall|j: int| 0 <= j < i ==> !profiles@[j],
            first_true(profiles@) == match first_true(profiles@.skip(i as int)) {
                Some(k) => Some(k + i),
                None => None::<int>,
            },
        decreases profiles.len() - i,
    {
        assert(profiles@.skip(i as int)[0] == profiles@[i as int]);
        if profiles[i] {
            return (Some(i), Vec::new());
        }
        assert(profiles@.skip(i as int).drop_first() =~= profiles@.skip(i + 1));
        i = i + 1;
    }
    assert(profiles@.skip(i as int) =~= Seq::<bool>::empty());
    let mut out: Vec<usize> = Vec::new();
    let mut k: usize = 0;
    assert(mappers@.take(0) =~= Seq::<bool>::empty());
    assert(out@.map_values(|j: usize| j as int) =~= Seq::<int>::empty());
    while k < mappers.len()
        invariant
            k <= mappers.len(),
            out@.map_values(|j: usize| j as int) == true_positions(mappers@.take(k as int)),
        decreases mappers.len() - k,
    {
        assert(mappers@.take(k + 1).drop_last() =~= mappers@.take(k as int));
        let ghost before = out@.map_values(|j: usize| j as int);
        if mappers[k] {
            out.push(k);
            assert(out@.map_values(|j: usize| j as int) =~= before.push(k as int));
        }
        k = k + 1;
    }
    assert(mappers@.take(mappers.len() as int) =~= mappers@);
    (None, out)
}

} // verus!
