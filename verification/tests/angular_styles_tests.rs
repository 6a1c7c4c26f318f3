use banna::angular_styles::{
    angular_footer_config, angular_theme_styles, is_angular_theme_style, override_restyled, restyled, StyleRef,
    StyleSlot,
};
use banna::models::AbpTheme;

fn text(s: &str) -> StyleRef {
    StyleRef { text: Some(s.to_string()), input: None }
}

fn object(input: &str) -> StyleRef {
    StyleRef { text: None, input: Some(input.to_string()) }
}

/// The styles of a LeptonX workspace.
fn fixture() -> Vec<StyleRef> {
    vec![
        text("node_modules/@fortawesome/fontawesome-free/css/all.min.css"),
        object("node_modules/@volo/ngx-lepton-x.lite/assets/css/ng-bundle.css"),
        object("node_modules/bootstrap-icons/font/bootstrap-icons.css"),
        text("src/styles.scss"),
    ]
}

/// The entries of a rewritten array, as input paths.
fn inputs(slots: &[StyleSlot], old: &[StyleRef]) -> Vec<String> {
    slots
        .iter()
        .map(|slot| match slot {
            StyleSlot::Kept(i) => old[*i].text.clone().or_else(|| old[*i].input.clone()).unwrap_or_default(),
            StyleSlot::Theme(t) => t.input.clone(),
            StyleSlot::Text(t) => t.clone(),
        })
        .collect()
}

fn as_refs(slots: &[StyleSlot], old: &[StyleRef]) -> Vec<StyleRef> {
    slots
        .iter()
        .map(|slot| match slot {
            StyleSlot::Kept(i) => old[*i].clone(),
            StyleSlot::Theme(t) => object(&t.input),
            StyleSlot::Text(t) => text(t),
        })
        .collect()
}

#[test]
fn switches_angular_style_bundles_in_both_directions_idempotently() {
    let old = fixture();
    let basic = restyled(&old, AbpTheme::Basic);
    let basic_inputs = inputs(&basic, &old);
    assert_eq!(
        basic_inputs,
        vec![
            "node_modules/@fortawesome/fontawesome-free/css/all.min.css",
            "node_modules/bootstrap/dist/css/bootstrap.rtl.min.css",
            "node_modules/bootstrap/dist/css/bootstrap.min.css",
            "src/styles.scss",
        ]
    );
    let basic_refs = as_refs(&basic, &old);
    assert_eq!(inputs(&restyled(&basic_refs, AbpTheme::Basic), &basic_refs), basic_inputs);

    let lepton = restyled(&basic_refs, AbpTheme::LeptonX);
    let lepton_inputs = inputs(&lepton, &basic_refs);
    assert_eq!(lepton_inputs.len(), 13);
    assert_eq!(lepton_inputs[1], "node_modules/@volo/ngx-lepton-x.lite/assets/css/bootstrap-dim.css");
    assert_eq!(lepton_inputs[11], "node_modules/bootstrap-icons/font/bootstrap-icons.css");
    assert_eq!(lepton_inputs[12], "src/styles.scss");
    assert!(!lepton_inputs.iter().any(|i| i.contains("bootstrap.min.css")));
    assert_eq!(inputs(&restyled(&old, AbpTheme::LeptonX), &old), lepton_inputs);
}

#[test]
fn theme_bundles_go_last_where_there_is_no_main_stylesheet() {
    let old = vec![text("a.css")];
    let slots = restyled(&old, AbpTheme::Basic);
    assert!(matches!(slots[0], StyleSlot::Kept(0)));
    assert_eq!(slots.len(), 3);
    let styles = angular_theme_styles(AbpTheme::Basic);
    assert!(styles[1].inject);
    assert_eq!(styles[1].bundle_name, "bootstrap-ltr.min");
}

#[test]
fn recognises_theme_bundles_by_their_input() {
    assert!(is_angular_theme_style(&object("node_modules/@volo/ngx-lepton-x.lite/x.css")));
    assert!(is_angular_theme_style(&text("node_modules/bootstrap/dist/css/bootstrap.min.css")));
    assert!(!is_angular_theme_style(&text("src/styles.scss")));
    assert!(!is_angular_theme_style(&StyleRef { text: None, input: None }));
}

#[test]
fn applies_and_removes_angular_bootstrap_override_without_replacing_app_styles() {
    let old = fixture();
    let on = override_restyled(&old, true);
    let on_inputs = inputs(&on, &old);
    assert_eq!(on_inputs[3], "src/styles.scss");
    assert_eq!(on_inputs[4], "src/banna-theme.scss");
    assert_eq!(on_inputs.iter().filter(|i| i.as_str() == "src/banna-theme.scss").count(), 1);
    let on_refs = as_refs(&on, &old);
    assert_eq!(inputs(&override_restyled(&on_refs, true), &on_refs), on_inputs);
    let off = override_restyled(&on_refs, false);
    let off_inputs = inputs(&off, &on_refs);
    assert!(!off_inputs.iter().any(|i| i == "src/banna-theme.scss"));
    assert!(off_inputs.iter().any(|i| i == "src/styles.scss"));
    assert_eq!(off_inputs, inputs(&override_restyled(&old, false), &old));
}

#[test]
fn footer_provider_follows_the_theme() {
    assert_eq!(angular_footer_config(AbpTheme::Basic), "export const FOOTER_PROVIDER = [];\n");
    let lepton = angular_footer_config(AbpTheme::LeptonX);
    assert!(lepton.contains("eThemeLeptonXComponents.Footer"));
    assert!(lepton.ends_with("];\n"));
}
