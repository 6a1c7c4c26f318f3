use banna::merge::toolbars::patch_web_module_toolbars;

const MODULE: &str = "public class BookStoreWebModule\n{\n    public override void ConfigureServices(ServiceConfigurationContext context)\n    {\n        ConfigureBundles(hostingEnvironment);\n    }\n}\n";

#[test]
fn toolbar_patch_preserves_method_indentation_and_is_idempotent() {
    let first = patch_web_module_toolbars(MODULE, "Acme.BookStore");
    let second = patch_web_module_toolbars(&first.text, "Acme.BookStore");
    let output = second.text;
    assert_eq!(output.matches("ConfigureToolbars();").count(), 1);
    assert!(
        output.contains("        ConfigureBundles(hostingEnvironment);\n        ConfigureToolbars();\n"),
        "unexpected method indentation:\n{output}"
    );
    assert!(output.contains("    private void ConfigureToolbars()"));
    assert!(first.changed);
    assert!(!second.changed);
}

#[test]
fn adds_the_toolbar_usings_before_the_namespace() {
    let src = "using System;\nnamespace Acme.BookStore.Web;\n\npublic class BookStoreWebModule\n{\n    public override void ConfigureServices(ServiceConfigurationContext context)\n    {\n        var x = 1;\n    }\n}\n";
    let p = patch_web_module_toolbars(src, "Acme.BookStore");
    assert!(p.text.starts_with(
        "using System;\nusing Volo.Abp.AspNetCore.Mvc.UI.Theme.Shared.Toolbars;\nusing Acme.BookStore.Web.Toolbars;\nnamespace Acme.BookStore.Web;"
    ));
    assert!(p.text.contains("        var x = 1;\n        ConfigureToolbars();\n    }"));
    assert!(p.text.contains(
        "    private void ConfigureToolbars()\n    {\n        Configure<AbpToolbarOptions>(options =>\n        {\n            options.Contributors.Add(new ChangeThemeToolbarContributor());\n        });\n    }\n}\n"
    ));
    assert!(!p.services_missing);
    assert!(!p.class_missing);
}

#[test]
fn reports_what_it_could_not_find() {
    let p = patch_web_module_toolbars("// empty\n", "Acme.BookStore");
    assert!(p.services_missing);
    assert!(p.class_missing);
    assert!(p.changed);
    assert!(p.text.ends_with("// empty\n"));
}
