//! What a project configuration request changes, decided from the request,
//! the stored project settings and the theme found in the project.
use crate::models::{AbpTheme, BootstrapOverride, MobileUi};
use vstd::prelude::*;

verus! {

/// The settings a request asks for; an absent one keeps its current value.
#[derive(Debug, Clone, Copy)]
pub struct ConfigureRequest {
    pub theme: Option<AbpTheme>,
    pub bootstrap_override: Option<BootstrapOverride>,
    pub mobile_ui: Option<MobileUi>,
    pub dry_run: bool,
}

/// The settings stored in a project's history.
#[derive(Debug, Clone, Copy, PartialEq, Eq, Structural)]
pub struct StoredSettings {
    pub theme: AbpTheme,
    pub bootstrap_override: BootstrapOverride,
    pub mobile_ui: MobileUi,
}

/// What to apply and what to record.
#[derive(Debug, Clone, Copy)]
pub struct ConfigurePlan {
    pub theme: AbpTheme,
    pub bootstrap_override: BootstrapOverride,
    pub mobile_ui: MobileUi,
    /// Reapply the theme: it was asked for explicitly, which also recovers an
    /// interrupted earlier change.
    pub theme_changed: bool,
    pub override_changed: bool,
    pub mobile_changed: bool,
    /// Some part of the project is to be changed.
    pub changed: bool,
    /// The history is to be written with the plan's settings.
    pub save_history: bool,
}

/// The settings of a project without history.
pub open spec fn default_settings() -> StoredSettings {
    StoredSettings {
        theme: AbpTheme::Basic,
        bootstrap_override: BootstrapOverride::NoOverride,
        mobile_ui: MobileUi::NoMobile,
    }
}

/// The plan for `request` on a project with history `stored` (none when it
/// has none) in which `detected` is the theme found in its files. The
/// detected theme replaces the stored one unless a theme is asked for.
pub open spec fn configure_plan_spec(
    request: ConfigureRequest,
    stored: Option<StoredSettings>,
    detected: Option<AbpTheme>,
) -> ConfigurePlan {
    let h = match stored {
        Some(s) => s,
        None => default_settings(),
    };
    let history_theme = match (request.theme, detected) {
        (None, Some(d)) => d,
        _ => h.theme,
    };
    let theme = match request.theme {
        Some(t) => t,
        None => history_theme,
    };
    let bootstrap_override = match request.bootstrap_override {
        Some(o) => o,
        None => h.bootstrap_override,
    };
    let mobile_ui = match request.mobile_ui {
        Some(m) => m,
        None => h.mobile_ui,
    };
    let theme_changed = request.theme is Some || history_theme != theme;
    let override_changed = h.bootstrap_override != bootstrap_override;
    let mobile_changed = h.mobile_ui != mobile_ui;
    let changed = theme_changed || override_changed || mobile_changed;
    ConfigurePlan {
        theme,
        bootstrap_override,
        mobile_ui,
        theme_changed,
        override_changed,
        mobile_changed,
        changed,
        save_history: !request.dry_run && (changed || stored is None || h.theme != history_theme),
    }
}

/// Decides what a configuration request changes and whether the history is
/// written.
pub fn configure_plan(request: ConfigureRequest, stored: Option<StoredSettings>, detected: Option<AbpTheme>) -> (r:
    ConfigurePlan)
    ensures
        r == configure_plan_spec(request, stored, detected),
{
    let history_missing = stored.is_none();
    let h = match stored {
        Some(s) => s,
        None => StoredSettings {
            theme: AbpTheme::Basic,
            bootstrap_override: BootstrapOverride::NoOverride,
            mobile_ui: MobileUi::NoMobile,
        },
    };
    let history_theme = match (request.theme, detected) {
        (None, Some(d)) => d,
        _ => h.theme,
    };
    let theme = match request.theme {
        Some(t) => t,
        None => history_theme,
    };
    let bootstrap_override = match request.bootstrap_override {
        Some(o) => o,
        None => h.bootstrap_override,
    };
    let mobile_ui = match request.mobile_ui {
        Some(m) => m,
        None => h.mobile_ui,
    };
    let theme_changed = request.theme.is_some() || history_theme != theme;
    let override_changed = h.bootstrap_override != bootstrap_override;
    let mobile_changed = h.mobile_ui != mobile_ui;
    let changed = theme_changed || override_changed || mobile_changed;
    let metadata_changed = h.theme != history_theme;
    ConfigurePlan {
        theme,
        bootstrap_override,
        mobile_ui,
        theme_changed,
        override_changed,
        mobile_changed,
        changed,
        save_history: !request.dry_run && (changed || history_missing || metadata_changed),
    }
}

/// Law: applying a plan and asking again for nothing changes nothing more.
/// Once the history holds what a plan settled on and the files show that
/// theme, an empty request plans no change and writes nothing.
pub proof fn lemma_configure_settles(request: ConfigureRequest, stored: Option<StoredSettings>, detected: Option<AbpTheme>)
    ensures
        ({
            let p = configure_plan_spec(request, stored, detected);
            let after = StoredSettings {
                theme: p.theme,
                bootstrap_override: p.bootstrap_override,
                mobile_ui: p.mobile_ui,
            };
            let empty = ConfigureRequest {
                theme: None,
                bootstrap_override: None,
                mobile_ui: None,
                dry_run: request.dry_run,
            };
            let q = configure_plan_spec(empty, Some(after), Some(p.theme));
            &&& !q.changed
            &&& !q.save_history
            &&& q.theme == p.theme
            &&& q.bootstrap_override == p.bootstrap_override
            &&& q.mobile_ui == p.mobile_ui
        }),
{
}

} // verus!
