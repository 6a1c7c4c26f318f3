use banna::configure::{configure_plan, ConfigureRequest, StoredSettings};
use banna::models::{AbpTheme, BootstrapOverride, MobileUi};

fn basic_history() -> StoredSettings {
    StoredSettings { theme: AbpTheme::Basic, bootstrap_override: BootstrapOverride::NoOverride, mobile_ui: MobileUi::NoMobile }
}

fn request(theme: Option<AbpTheme>, bootstrap_override: Option<BootstrapOverride>) -> ConfigureRequest {
    ConfigureRequest { theme, bootstrap_override, mobile_ui: None, dry_run: false }
}

#[test]
fn leaves_matching_project_configuration_unchanged() {
    let plan = configure_plan(request(None, None), Some(basic_history()), Some(AbpTheme::Basic));
    assert!(!plan.changed);
    assert!(!plan.save_history);
}

#[test]
fn applies_and_persists_a_bootstrap_override() {
    let plan = configure_plan(request(None, Some(BootstrapOverride::Modern)), Some(basic_history()), None);
    assert!(plan.changed);
    assert!(plan.override_changed);
    assert!(!plan.theme_changed);
    assert_eq!(plan.bootstrap_override, BootstrapOverride::Modern);
    assert!(plan.save_history);
}

#[test]
fn reconciles_an_old_basic_default_with_the_detected_lepton_x_theme() {
    let plan = configure_plan(request(None, None), Some(basic_history()), Some(AbpTheme::LeptonX));
    assert_eq!(plan.theme, AbpTheme::LeptonX);
    assert!(!plan.changed);
    assert!(plan.save_history);
}

#[test]
fn initializes_missing_history_with_the_detected_theme() {
    let plan = configure_plan(request(None, None), None, Some(AbpTheme::LeptonX));
    assert_eq!(plan.theme, AbpTheme::LeptonX);
    assert!(!plan.changed);
    assert!(plan.save_history);
}

#[test]
fn explicit_theme_selection_reapplies_for_interrupted_change_recovery() {
    let plan = configure_plan(request(Some(AbpTheme::Basic), None), Some(basic_history()), Some(AbpTheme::LeptonX));
    assert_eq!(plan.theme, AbpTheme::Basic);
    assert!(plan.theme_changed);
    assert!(plan.changed);
}

#[test]
fn a_dry_run_never_writes_the_history() {
    let mut r = request(Some(AbpTheme::LeptonX), Some(BootstrapOverride::Nord));
    r.dry_run = true;
    let plan = configure_plan(r, None, None);
    assert!(plan.changed);
    assert!(!plan.save_history);
}

#[test]
fn a_settled_plan_plans_nothing_more() {
    let plan = configure_plan(request(Some(AbpTheme::LeptonX), Some(BootstrapOverride::Nord)), None, None);
    let after = StoredSettings { theme: plan.theme, bootstrap_override: plan.bootstrap_override, mobile_ui: plan.mobile_ui };
    let again = configure_plan(request(None, None), Some(after), Some(plan.theme));
    assert!(!again.changed);
    assert!(!again.save_history);
}
