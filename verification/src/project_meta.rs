//! Project settings that are applied after a project exists: the theme
//! change's tools and commands, the Bootstrap override's templates, and the
//! registration of the mobile client.
use crate::merge::{insert_at, insert_at_exec};
use crate::models::{AbpTheme, BootstrapOverride};
use crate::naming::{last_segment, last_segment_spec};
use crate::ports::ExternalTool;
use crate::text::{
    chars_of, contains, copy_str, find, find_exec, lemma_find_contains, push_str, str_contains,
    string_of_range, views,
};
use vstd::prelude::*;

verus! {

/// The client key of the mobile application.
pub open spec fn mobile_client_key(domain_short: Seq<char>) -> Seq<char> {
    domain_short + "_Mobile"@
}

/// The seeding block that registers the mobile client.
pub open spec fn mobile_seed_block(short: Seq<char>) -> Seq<char> {
    "\n        // Mobile Client\n        var mobileClientId = configurationSection[\""@ + short + "_Mobile:ClientId\"];\n        if (!mobileClientId.IsNullOrWhiteSpace())\n        {\n            var mobileRootUrl = configurationSection[\""@ + short + "_Mobile:RootUrl\"]?.TrimEnd('/');\n\n            await CreateApplicationAsync(\n                name: mobileClientId!,\n                type: OpenIddictConstants.ClientTypes.Public,\n                consentType: OpenIddictConstants.ConsentTypes.Explicit,\n                displayName: \"Mobile Application\",\n                secret: null,\n                grantTypes: new List<string> {\n                    OpenIddictConstants.GrantTypes.Password, OpenIddictConstants.GrantTypes.RefreshToken\n                },\n                scopes: commonScopes,\n                clientUri: mobileRootUrl\n            );\n        }\n\n"@
}

/// The marker before which the mobile client is seeded.
pub open spec fn swagger_marker() -> Seq<char> {
    "// Swagger Client"@
}

/// What registering the mobile client in the data seed contributor does.
#[derive(Debug, Clone)]
pub enum SeedPatch {
    /// The contributor already names the mobile client.
    AlreadyPresent,
    /// The Swagger client marker is missing: nothing is inserted.
    MarkerMissing,
    /// The contributor with the seeding block inserted.
    Patched(String),
}

pub open spec fn seed_patch_spec(content: Seq<char>, short: Seq<char>) -> Option<Option<Seq<char>>> {
    if contains(content, mobile_client_key(short)) {
        None
    } else {
        match find(content, swagger_marker()) {
            Some(p) => Some(Some(insert_at(content, p, mobile_seed_block(short)))),
            None => Some(None),
        }
    }
}

/// The data seed contributor with the mobile client registered just before
/// the Swagger client, unless it names the mobile client already.
pub fn mobile_openiddict_seed(content: &str, domain_short: &str) -> (r: SeedPatch)
    ensures
        match r {
            SeedPatch::AlreadyPresent => seed_patch_spec(content@, domain_short@) is None,
            SeedPatch::MarkerMissing => seed_patch_spec(content@, domain_short@) == Some(None::<Seq<char>>),
            SeedPatch::Patched(t) => seed_patch_spec(content@, domain_short@) == Some(Some(t@)),
        },
{
    let mut key = copy_str(domain_short);
    push_str(&mut key, "_Mobile");
    if str_contains(content, key.as_str()) {
        return SeedPatch::AlreadyPresent;
    }
    let cs = chars_of(content);
    let marker = chars_of("// Swagger Client");
    match find_exec(cs.as_slice(), marker.as_slice()) {
        Some(p) => {
            proof {
                lemma_find_contains(content@, swagger_marker());
            }
            let mut block = copy_str("\n        // Mobile Client\n        var mobileClientId = configurationSection[\"");
            push_str(&mut block, domain_short);
            push_str(&mut block, "_Mobile:ClientId\"];\n        if (!mobileClientId.IsNullOrWhiteSpace())\n        {\n            var mobileRootUrl = configurationSection[\"");
            push_str(&mut block, domain_short);
            push_str(&mut block, "_Mobile:RootUrl\"]?.TrimEnd('/');\n\n            await CreateApplicationAsync(\n                name: mobileClientId!,\n                type: OpenIddictConstants.ClientTypes.Public,\n                consentType: OpenIddictConstants.ConsentTypes.Explicit,\n                displayName: \"Mobile Application\",\n                secret: null,\n                grantTypes: new List<string> {\n                    OpenIddictConstants.GrantTypes.Password, OpenIddictConstants.GrantTypes.RefreshToken\n                },\n                scopes: commonScopes,\n                clientUri: mobileRootUrl\n            );\n        }\n\n");
            SeedPatch::Patched(insert_at_exec(cs.as_slice(), p, block.as_str()))
        },
        None => SeedPatch::MarkerMissing,
    }
}

/// The mobile client that the migrator's settings list.
#[derive(Debug, Clone)]
pub struct MobileClient {
    /// Its key under `OpenIddict.Applications`, also its client id.
    pub key: String,
    pub root_url: String,
}

/// The mobile client entry for a project whose short domain name is
/// `domain_short`.
pub fn mobile_openiddict_client(domain_short: &str) -> (r: MobileClient)
    ensures
        r.key@ == mobile_client_key(domain_short@),
        r.root_url@ == "exp://0.0.0.0:19000"@,
{
    let mut key = copy_str(domain_short);
    push_str(&mut key, "_Mobile");
    MobileClient { key, root_url: copy_str("exp://0.0.0.0:19000") }
}

/// A command line: a program and its arguments.
#[derive(Debug, Clone)]
pub struct PlannedCommand {
    pub program: String,
    pub args: Vec<String>,
}

pub open spec fn command_view(c: PlannedCommand) -> (Seq<char>, Seq<Seq<char>>) {
    (c.program@, views(c.args@))
}

pub open spec fn commands_view(v: Seq<PlannedCommand>) -> Seq<(Seq<char>, Seq<Seq<char>>)> {
    v.map_values(|c: PlannedCommand| command_view(c))
}

fn planned(program: &str, args: Vec<String>) -> (r: PlannedCommand)
    ensures
        command_view(r) == (program@, views(args@)),
{
    PlannedCommand { program: copy_str(program), args }
}

fn args1(a: &str) -> (r: Vec<String>)
    ensures
        views(r@) == Seq::<Seq<char>>::empty().push(a@),
{
    let mut v: Vec<String> = Vec::new();
    v.push(copy_str(a));
    assert(views(v@) =~= Seq::<Seq<char>>::empty().push(a@));
    v
}

fn push_arg(v: &mut Vec<String>, a: &str)
    ensures
        views(final(v)@) == views(old(v)@).push(a@),
{
    let ghost before = views(v@);
    v.push(copy_str(a));
    assert(views(v@) =~= before.push(a@));
}

/// What a theme change runs and edits, in the order given by the fields.
#[derive(Debug, Clone)]
pub struct ThemeChangePlan {
    /// The tools that must be available before anything is changed.
    pub tools: Vec<ExternalTool>,
    /// Lines of the Web project file that name this package are removed.
    pub stale_web_reference: String,
    /// Run in the Web project before its module is patched.
    pub web_packages: Vec<PlannedCommand>,
    /// Run in the Web project after its module is patched.
    pub web_libs: PlannedCommand,
    /// Run in the Angular workspace before its files are patched.
    pub angular_packages: Vec<PlannedCommand>,
    /// Run in the Angular workspace after its files are patched.
    pub angular_build: PlannedCommand,
}

pub open spec fn theme_tools_spec(has_web: bool) -> Seq<ExternalTool> {
    if has_web {
        Seq::empty().push(ExternalTool::DotNet).push(ExternalTool::Npm).push(ExternalTool::Abp)
    } else {
        Seq::empty().push(ExternalTool::Npm)
    }
}

pub open spec fn stale_reference_spec(theme: AbpTheme) -> Seq<char> {
    match theme {
        AbpTheme::LeptonX => "Volo.Abp.AspNetCore.Mvc.UI.Theme.Basic"@,
        AbpTheme::Basic => "Volo.Abp.AspNetCore.Mvc.UI.Theme.LeptonXLite"@,
    }
}

pub open spec fn web_packages_spec(theme: AbpTheme) -> Seq<(Seq<char>, Seq<Seq<char>>)> {
    match theme {
        AbpTheme::LeptonX => Seq::empty().push(
            ("dotnet"@, Seq::empty().push("add"@).push("package"@).push("Volo.Abp.AspNetCore.Mvc.UI.Theme.LeptonXLite"@)),
        ),
        AbpTheme::Basic => Seq::empty().push(
            ("dotnet"@, Seq::empty().push("add"@).push("package"@).push("Volo.Abp.AspNetCore.Mvc.UI.Theme.Basic"@)),
        ).push(("abp"@, Seq::empty().push("add-package"@).push("@abp/aspnetcore.mvc.ui.theme.basic"@))),
    }
}

/// The Angular theme package of `theme` and the one it replaces.
pub open spec fn angular_packages_of(theme: AbpTheme) -> (Seq<char>, Seq<char>) {
    match theme {
        AbpTheme::Basic => ("@abp/ng.theme.basic"@, "@abp/ng.theme.lepton-x"@),
        AbpTheme::LeptonX => ("@abp/ng.theme.lepton-x"@, "@abp/ng.theme.basic"@),
    }
}

pub open spec fn angular_packages_spec(theme: AbpTheme) -> Seq<(Seq<char>, Seq<Seq<char>>)> {
    let (target, old) = angular_packages_of(theme);
    Seq::empty().push(
        ("npm"@, Seq::empty().push("install"@).push("--save"@).push("--legacy-peer-deps"@).push(target)),
    ).push(("npm"@, Seq::empty().push("uninstall"@).push("--legacy-peer-deps"@).push(old)))
}

/// The plan for switching to `theme` in a project with an MVC Web host
/// (`has_web`) and an Angular workspace (`has_angular`); none where it has
/// neither, since then there is nothing to switch.
pub fn theme_change_plan(has_web: bool, has_angular: bool, theme: AbpTheme) -> (r: Option<ThemeChangePlan>)
    ensures
        r is None <==> !has_web && !has_angular,
        r matches Some(p) ==> {
            &&& p.tools@ == theme_tools_spec(has_web)
            &&& p.stale_web_reference@ == stale_reference_spec(theme)
            &&& commands_view(p.web_packages@) == web_packages_spec(theme)
            &&& command_view(p.web_libs) == ("abp"@, Seq::empty().push("install-libs"@))
            &&& commands_view(p.angular_packages@) == angular_packages_spec(theme)
            &&& command_view(p.angular_build) == ("npm"@, Seq::empty().push("run"@).push("build"@))
        },
{
    if !has_web && !has_angular {
        return None;
    }
    let mut tools: Vec<ExternalTool> = Vec::new();
    if has_web {
        tools.push(ExternalTool::DotNet);
        tools.push(ExternalTool::Npm);
        tools.push(ExternalTool::Abp);
    } else {
        tools.push(ExternalTool::Npm);
    }
    let mut web_packages: Vec<PlannedCommand> = Vec::new();
    let stale_web_reference = match theme {
        AbpTheme::LeptonX => {
            let mut args = args1("add");
            push_arg(&mut args, "package");
            push_arg(&mut args, "Volo.Abp.AspNetCore.Mvc.UI.Theme.LeptonXLite");
            web_packages.push(planned("dotnet", args));
            copy_str("Volo.Abp.AspNetCore.Mvc.UI.Theme.Basic")
        },
        AbpTheme::Basic => {
            let mut args = args1("add");
            push_arg(&mut args, "package");
            push_arg(&mut args, "Volo.Abp.AspNetCore.Mvc.UI.Theme.Basic");
            web_packages.push(planned("dotnet", args));
            let mut args = args1("add-package");
            push_arg(&mut args, "@abp/aspnetcore.mvc.ui.theme.basic");
            web_packages.push(planned("abp", args));
            copy_str("Volo.Abp.AspNetCore.Mvc.UI.Theme.LeptonXLite")
        },
    };
    let (target, old) = match theme {
        AbpTheme::Basic => ("@abp/ng.theme.basic", "@abp/ng.theme.lepton-x"),
        AbpTheme::LeptonX => ("@abp/ng.theme.lepton-x", "@abp/ng.theme.basic"),
    };
    let mut angular_packages: Vec<PlannedCommand> = Vec::new();
    let mut args = args1("install");
    push_arg(&mut args, "--save");
    push_arg(&mut args, "--legacy-peer-deps");
    push_arg(&mut args, target);
    angular_packages.push(planned("npm", args));
    let mut args = args1("uninstall");
    push_arg(&mut args, "--legacy-peer-deps");
    push_arg(&mut args, old);
    angular_packages.push(planned("npm", args));
    let web_libs = planned("abp", args1("install-libs"));
    let mut args = args1("run");
    push_arg(&mut args, "build");
    let angular_build = planned("npm", args);
    proof {
        assert(tools@ =~= theme_tools_spec(has_web));
        assert(commands_view(web_packages@) =~= web_packages_spec(theme));
        assert(commands_view(angular_packages@) =~= angular_packages_spec(theme));
    }
    Some(ThemeChangePlan { tools, stale_web_reference, web_packages, web_libs, angular_packages, angular_build })
}

/// The file names under which a Web project's module is looked for, in order.
pub fn web_module_names(domain: &str) -> (r: (String, String))
    ensures
        r.0@ == "WebModule.cs"@,
        r.1@ == last_segment_spec(domain@) + "WebModule.cs"@,
{
    let mut named = last_segment(domain);
    push_str(&mut named, "WebModule.cs");
    (copy_str("WebModule.cs"), named)
}

/// The company part of a domain: its first dot-separated segment, or the
/// short name where that segment is empty.
pub open spec fn company_name_spec(domain: Seq<char>, domain_short: Seq<char>) -> Seq<char> {
    let first = match find(domain, seq!['.']) {
        Some(i) => domain.take(i),
        None => domain,
    };
    if first.len() > 0 {
        first
    } else {
        domain_short
    }
}

/// The company name that the React Native template's placeholders receive.
pub fn company_name(domain: &str, domain_short: &str) -> (r: String)
    ensures
        r@ == company_name_spec(domain@, domain_short@),
{
    let cs = chars_of(domain);
    let dot = vec!['.'];
    assert(dot@ =~= seq!['.']);
    let first = match find_exec(cs.as_slice(), dot.as_slice()) {
        Some(i) => {
            proof {
                crate::text::lemma_find_from_sound(domain@, seq!['.'], 0);
            }
            let r = string_of_range(cs.as_slice(), 0, i);
            assert(r@ =~= domain@.take(i as int));
            r
        },
        None => copy_str(domain),
    };
    if !first.as_str().is_empty() {
        first
    } else {
        copy_str(domain_short)
    }
}

/// The templates of a Bootstrap override: the MVC global stylesheet (the
/// first template found among the candidates), the Angular stylesheet and
/// the React Native theme (none without an override).
#[derive(Debug, Clone)]
pub struct OverrideTemplates {
    pub mvc: Vec<String>,
    pub angular: Option<String>,
    pub mobile: Option<String>,
}

pub open spec fn theme_dir(o: BootstrapOverride) -> Seq<char> {
    match o {
        BootstrapOverride::Modern => "Modern"@,
        BootstrapOverride::Nord => "Nord"@,
        BootstrapOverride::Solarized => "Solarized"@,
        BootstrapOverride::NoOverride => Seq::empty(),
    }
}

pub open spec fn override_mvc_spec(o: BootstrapOverride) -> Seq<Seq<char>> {
    match o {
        BootstrapOverride::NoOverride => Seq::empty().push("Web/MVC/wwwroot/global-styles.css"@).push(
            "Web/wwwroot/global-styles.css"@,
        ),
        _ => Seq::empty().push("Themes/"@ + theme_dir(o) + "/MVC/global-styles.css"@),
    }
}

pub open spec fn override_named(o: BootstrapOverride, tail: Seq<char>) -> Option<Seq<char>> {
    match o {
        BootstrapOverride::NoOverride => None,
        _ => Some("Themes/"@ + theme_dir(o) + tail),
    }
}

fn theme_dir_exec(o: BootstrapOverride) -> (r: &'static str)
    ensures
        r@ == theme_dir(o),
{
    match o {
        BootstrapOverride::Modern => "Modern",
        BootstrapOverride::Nord => "Nord",
        BootstrapOverride::Solarized => "Solarized",
        BootstrapOverride::NoOverride => {
            proof {
                reveal_strlit("");
            }
            ""
        },
    }
}

fn themed(o: BootstrapOverride, tail: &str) -> (r: String)
    ensures
        r@ == "Themes/"@ + theme_dir(o) + tail@,
{
    let mut s = copy_str("Themes/");
    push_str(&mut s, theme_dir_exec(o));
    push_str(&mut s, tail);
    s
}

/// The templates that the Bootstrap override `o` writes.
pub fn override_templates(o: BootstrapOverride) -> (r: OverrideTemplates)
    ensures
        views(r.mvc@) == override_mvc_spec(o),
        crate::models::opt_view(r.angular) == override_named(o, "/Angular/styles.scss"@),
        crate::models::opt_view(r.mobile) == override_named(o, "/Mobile/theme/index.ts"@),
{
    let mut mvc: Vec<String> = Vec::new();
    match o {
        BootstrapOverride::NoOverride => {
            mvc.push(copy_str("Web/MVC/wwwroot/global-styles.css"));
            mvc.push(copy_str("Web/wwwroot/global-styles.css"));
            assert(views(mvc@) =~= override_mvc_spec(o));
            OverrideTemplates { mvc, angular: None, mobile: None }
        },
        _ => {
            mvc.push(themed(o, "/MVC/global-styles.css"));
            assert(views(mvc@) =~= override_mvc_spec(o));
            OverrideTemplates {
                mvc,
                angular: Some(themed(o, "/Angular/styles.scss")),
                mobile: Some(themed(o, "/Mobile/theme/index.ts")),
            }
        },
    }
}

/// Whether an Angular startup file uses the commercial LeptonX theme, which
/// a theme change does not convert.
pub fn is_commercial_angular(startup: &str) -> (r: bool)
    ensures
        r == contains(startup@, "@volosoft/abp.ng.theme.lepton-x"@),
{
    str_contains(startup, "@volosoft/abp.ng.theme.lepton-x")
}

} // verus!
