use banna::models::AbpTheme;
use banna::theme::{
    legacy_angular_theme_text, standalone_angular_theme_text, strip_reference_lines, web_module_theme_text,
};

const CONFIG: &str = "import { provideAbpThemeShared } from '@abp/ng.theme.shared';
import { provideThemeLeptonX } from '@abp/ng.theme.lepton-x';
import { provideSideMenuLayout } from '@abp/ng.theme.lepton-x/layouts';
import { ApplicationConfig } from '@angular/core';
import { APP_ROUTE_PROVIDER } from './route.provider';
import { FOOTER_PROVIDER } from './footer/footer.config';

export const appConfig: ApplicationConfig = {
  providers: [
    APP_ROUTE_PROVIDER,
    FOOTER_PROVIDER,
    provideThemeLeptonX(),
    provideSideMenuLayout(),
    provideAbpThemeShared(),
  ],
};
";

#[test]
fn switches_standalone_angular_theme_in_both_directions_idempotently() {
    let basic = standalone_angular_theme_text(CONFIG, AbpTheme::Basic, true, "app.config.ts").unwrap();
    let basic_again = standalone_angular_theme_text(&basic, AbpTheme::Basic, true, "app.config.ts").unwrap();
    assert_eq!(basic, basic_again);
    assert!(basic.contains("provideThemeBasicConfig()"));
    assert!(!basic.contains("provideThemeLeptonX"));
    assert!(basic.starts_with("import { provideThemeBasicConfig } from '@abp/ng.theme.basic';\n"));

    let first_lepton = standalone_angular_theme_text(&basic, AbpTheme::LeptonX, true, "app.config.ts").unwrap();
    let second_lepton =
        standalone_angular_theme_text(&first_lepton, AbpTheme::LeptonX, true, "app.config.ts").unwrap();
    assert_eq!(first_lepton, second_lepton);
    assert!(second_lepton.contains("provideThemeLeptonX()"));
    assert!(second_lepton.contains("provideSideMenuLayout()"));
    assert!(second_lepton.contains("    APP_ROUTE_PROVIDER,\n    FOOTER_PROVIDER,"));
}

#[test]
fn refuses_commercial_lepton_x_and_reports_missing_markers() {
    let commercial = "import { x } from '@volosoft/abp.ng.theme.lepton-x';\n";
    assert_eq!(
        standalone_angular_theme_text(commercial, AbpTheme::Basic, false, "a.ts").unwrap_err(),
        "commercial Angular LeptonX is not interchangeable with LeptonX Lite; refusing to rewrite a.ts"
    );
    assert_eq!(
        standalone_angular_theme_text("const a = 1;\n", AbpTheme::Basic, false, "a.ts").unwrap_err(),
        "Angular startup file contains no import declarations"
    );
    assert_eq!(
        standalone_angular_theme_text("import { A } from 'a';\n", AbpTheme::Basic, false, "a.ts").unwrap_err(),
        "could not find provideAbpThemeShared() in a.ts"
    );
}

#[test]
fn switches_the_legacy_module_theme() {
    let module = "import { ThemeBasicModule } from '@abp/ng.theme.basic';\n@NgModule({\n  imports: [\n    ThemeBasicModule,\n  ],\n})\nexport class AppModule {}\n";
    let lepton = legacy_angular_theme_text(module, AbpTheme::LeptonX, "app.module.ts").unwrap();
    assert!(lepton.contains("import { ThemeLeptonXModule } from '@abp/ng.theme.lepton-x';"));
    assert!(lepton.contains("    ThemeLeptonXModule,\n    SideMenuLayoutModule,"));
    let back = legacy_angular_theme_text(&lepton, AbpTheme::Basic, "app.module.ts").unwrap();
    assert!(!back.contains("SideMenuLayoutModule"));
    assert!(back.contains("    ThemeBasicModule,"));
}

#[test]
fn switches_the_web_module_theme() {
    let module = "using Volo.Abp.AspNetCore.Mvc.UI.Theme.Basic;\nusing Volo.Abp.AspNetCore.Mvc.UI.Theme.Basic.Bundling;\n[DependsOn(typeof(AbpAspNetCoreMvcUiBasicThemeModule))]\nBasicThemeBundles.Styles.Global\n";
    let lepton = web_module_theme_text(module, AbpTheme::LeptonX);
    assert_eq!(
        lepton,
        "using Volo.Abp.AspNetCore.Mvc.UI.Theme.LeptonXLite;\nusing Volo.Abp.AspNetCore.Mvc.UI.Theme.LeptonXLite.Bundling;\n[DependsOn(typeof(AbpAspNetCoreMvcUiLeptonXLiteThemeModule))]\nLeptonXLiteThemeBundles.Styles.Global\n"
    );
    assert_eq!(web_module_theme_text(&lepton, AbpTheme::Basic), module);
}

#[test]
fn strips_the_lines_that_reference_a_package() {
    let csproj = "<Project>\n  <PackageReference Include=\"Volo.Abp.AspNetCore.Mvc.UI.Theme.Basic\" />\n  <PackageReference Include=\"Other\" />\n</Project>\n";
    assert_eq!(
        strip_reference_lines(csproj, "Theme.Basic"),
        "<Project>\n  <PackageReference Include=\"Other\" />\n</Project>"
    );
}

#[test]
fn bundles_global_styles_inside_the_theme_bundle() {
    let module = "    private void ConfigureBundles()\n    {\n        Configure<AbpBundlingOptions>(options =>\n        {\n            options.StyleBundles.Configure(\n                LeptonXLiteThemeBundles.Styles.Global,\n                bundle =>\n                {\n                    bundle.AddFiles(\"/bootstrap-overrides.css\");\n                }\n            );\n        });\n    }\n";
    let (text, changed) = banna::theme::override_bundle_text(module);
    assert!(changed);
    assert!(!text.contains("bootstrap-overrides"));
    assert!(text.contains(
        "                LeptonXLiteThemeBundles.Styles.Global,\n                bundle =>\n                {\n                    bundle.AddFiles(\"/global-styles.css\");"
    ));
    let (again, changed_again) = banna::theme::override_bundle_text(&text);
    assert!(!changed_again);
    assert_eq!(again, text);
}

#[test]
fn appends_a_bundling_configuration_when_none_exists() {
    let (text, changed) = banna::theme::override_bundle_text("class M { LeptonXLiteThemeBundles x; }\n");
    assert!(changed);
    assert!(text.ends_with(
        "\n        Configure<AbpBundlingOptions>(options =>\n        {\n            options.StyleBundles.Configure(\n                LeptonXLiteThemeBundles.Styles.Global,\n                bundle =>\n                {\n                    bundle.AddFiles(\"/global-styles.css\");\n                });\n        });\n"
    ));
}

const VUE_MODULE: &str = r#"public class BookStoreWebModule
{
    private void ConfigureBundles()
    {
        options.StyleBundles.Configure(
            BasicThemeBundles.Styles.Global,
            bundle =>
            {
            });
        options.ScriptBundles.Configure(
            BasicThemeBundles.Scripts.Global,
            bundle =>
            {
            });
    }
}
"#;

#[test]
fn bundle_registration_is_idempotent_and_rejects_unknown_layouts() {
    let (first, changed) = banna::theme::vue_bundle_text(VUE_MODULE, "BookStoreWebModule.cs").unwrap();
    assert!(changed);
    let (registered, changed_again) = banna::theme::vue_bundle_text(&first, "BookStoreWebModule.cs").unwrap();
    assert!(!changed_again);
    for asset in [
        "/libs/vue/vue.global.prod.js",
        "/libs/vue-select/vue-select.umd.js",
        "/libs/vue-select/vue-select.css",
        "/app.vuehelper.js",
    ] {
        assert_eq!(registered.matches(asset).count(), 1, "duplicate asset: {asset}");
    }
    assert!(registered.contains(
        "            BasicThemeBundles.Scripts.Global,\n            bundle =>\n            {\n                bundle.AddFiles(\"/global-scripts.js\");\n"
    ));

    let error = banna::theme::vue_bundle_text("public class BookStoreWebModule {}\n", "BookStoreWebModule.cs")
        .expect_err("unknown bundle layout should fail safely");
    assert!(error.contains("could not safely register Vue assets"));
}
