use banna::models::{AbpTheme, BootstrapOverride};
use banna::ports::ExternalTool;
use banna::staging::should_copy;
use banna::project_meta::{
    company_name, is_commercial_angular, mobile_openiddict_client, mobile_openiddict_seed, override_templates,
    theme_change_plan, web_module_names, SeedPatch,
};

#[test]
fn angular_only_theme_change_uses_unversioned_npm_packages_and_builds() {
    let plan = theme_change_plan(false, true, AbpTheme::Basic).expect("an Angular workspace can be switched");
    assert_eq!(plan.tools, vec![ExternalTool::Npm]);
    assert_eq!(plan.angular_packages.len(), 2);
    assert_eq!(plan.angular_packages[0].program, "npm");
    assert_eq!(plan.angular_packages[0].args, ["install", "--save", "--legacy-peer-deps", "@abp/ng.theme.basic"]);
    assert_eq!(plan.angular_packages[1].args, ["uninstall", "--legacy-peer-deps", "@abp/ng.theme.lepton-x"]);
    assert_eq!(plan.angular_build.program, "npm");
    assert_eq!(plan.angular_build.args, ["run", "build"]);
}

#[test]
fn web_theme_change_swaps_the_mvc_packages() {
    let plan = theme_change_plan(true, false, AbpTheme::LeptonX).expect("a Web host can be switched");
    assert_eq!(plan.tools, vec![ExternalTool::DotNet, ExternalTool::Npm, ExternalTool::Abp]);
    assert_eq!(plan.stale_web_reference, "Volo.Abp.AspNetCore.Mvc.UI.Theme.Basic");
    assert_eq!(plan.web_packages.len(), 1);
    assert_eq!(plan.web_packages[0].args, ["add", "package", "Volo.Abp.AspNetCore.Mvc.UI.Theme.LeptonXLite"]);
    assert_eq!(plan.web_libs.program, "abp");
    assert_eq!(plan.web_libs.args, ["install-libs"]);
    let basic = theme_change_plan(true, true, AbpTheme::Basic).expect("switchable");
    assert_eq!(basic.web_packages.len(), 2);
    assert_eq!(basic.web_packages[1].program, "abp");
    assert_eq!(basic.web_packages[1].args, ["add-package", "@abp/aspnetcore.mvc.ui.theme.basic"]);
    assert!(theme_change_plan(false, false, AbpTheme::Basic).is_none());
}

#[test]
fn seeds_the_mobile_client_before_the_swagger_client_once() {
    let content = "    // Console Test\n    // Swagger Client\n    var x = 1;\n";
    let patched = match mobile_openiddict_seed(content, "BookStore") {
        SeedPatch::Patched(t) => t,
        other => panic!("unexpected {other:?}"),
    };
    assert!(patched.starts_with("    // Console Test\n    \n        // Mobile Client\n"));
    assert!(patched.contains("configurationSection[\"BookStore_Mobile:ClientId\"]"));
    assert!(patched.contains("configurationSection[\"BookStore_Mobile:RootUrl\"]?.TrimEnd('/');"));
    assert!(patched.ends_with("        }\n\n// Swagger Client\n    var x = 1;\n"));
    assert!(matches!(mobile_openiddict_seed(&patched, "BookStore"), SeedPatch::AlreadyPresent));
    assert!(matches!(mobile_openiddict_seed("no marker", "BookStore"), SeedPatch::MarkerMissing));
}

#[test]
fn names_the_mobile_client_and_the_module_files() {
    let client = mobile_openiddict_client("BookStore");
    assert_eq!(client.key, "BookStore_Mobile");
    assert_eq!(client.root_url, "exp://0.0.0.0:19000");
    assert_eq!(web_module_names("Acme.BookStore"), ("WebModule.cs".to_string(), "BookStoreWebModule.cs".to_string()));
    assert_eq!(company_name("Acme.BookStore", "BookStore"), "Acme");
    assert_eq!(company_name(".BookStore", "BookStore"), "BookStore");
    assert_eq!(company_name("Solo", "Solo"), "Solo");
    assert!(is_commercial_angular("import '@volosoft/abp.ng.theme.lepton-x';"));
    assert!(!is_commercial_angular("import '@abp/ng.theme.lepton-x';"));
}

#[test]
fn override_templates_follow_the_selected_override() {
    let nord = override_templates(BootstrapOverride::Nord);
    assert_eq!(nord.mvc, ["Themes/Nord/MVC/global-styles.css"]);
    assert_eq!(nord.angular.as_deref(), Some("Themes/Nord/Angular/styles.scss"));
    assert_eq!(nord.mobile.as_deref(), Some("Themes/Nord/Mobile/theme/index.ts"));
    let none = override_templates(BootstrapOverride::NoOverride);
    assert_eq!(none.mvc, ["Web/MVC/wwwroot/global-styles.css", "Web/wwwroot/global-styles.css"]);
    assert!(none.angular.is_none() && none.mobile.is_none());
}

#[test]
fn dry_run_copies_sources_but_skips_build_and_dependency_trees() {
    assert!(should_copy(0, true, "node_modules"));
    assert!(should_copy(1, true, "src"));
    assert!(should_copy(2, false, "bin"));
    for excluded in [".git", "target", "node_modules", "bin", "obj"] {
        assert!(!should_copy(1, true, excluded), "{excluded} should be skipped");
    }
}
