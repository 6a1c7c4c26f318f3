use banna::domain::infer_domain;
use banna::models::AbpTheme;
use banna::theme::detect_theme_in_text;

fn names(v: &[&str]) -> Vec<String> {
    v.iter().map(|s| s.to_string()).collect()
}

#[test]
fn infers_the_domain_shared_by_most_layer_projects() {
    let dirs = names(&[
        "Acme.Billing.Application",
        "Acme.Billing.Application.Contracts",
        "Acme.Billing.Domain",
        "Acme.Billing.Domain.Shared",
        "Acme.Billing.EntityFrameworkCore",
        "Acme.Billing.Web",
    ]);
    assert_eq!(infer_domain(&dirs), Some("Acme.Billing".to_string()));
}

#[test]
fn prefers_the_shorter_domain_on_a_tie() {
    let dirs = names(&["Acme.Long.Domain", "Acme.Domain"]);
    assert_eq!(infer_domain(&dirs), Some("Acme".to_string()));
}

#[test]
fn falls_back_to_the_first_dotted_directory() {
    assert_eq!(infer_domain(&names(&["tools", "Acme.Web", "Other.Web"])), Some("Acme".to_string()));
    assert_eq!(infer_domain(&names(&["Domain", "tools", ".hidden"])), None);
    assert_eq!(infer_domain(&Vec::new()), None);
}

#[test]
fn detects_a_theme_only_when_its_markers_alone_occur() {
    assert_eq!(detect_theme_in_text("typeof(AbpAspNetCoreMvcUiLeptonXLiteThemeModule)"), Some(AbpTheme::LeptonX));
    assert_eq!(detect_theme_in_text("import '@abp/ng.theme.basic';"), Some(AbpTheme::Basic));
    assert_eq!(detect_theme_in_text("BasicThemeBundles and LeptonXThemeBundles"), None);
    assert_eq!(detect_theme_in_text("nothing"), None);
}
