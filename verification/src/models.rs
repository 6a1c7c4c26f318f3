//! The data that the generator reads and persists.
use crate::naming::{last_segment, last_segment_spec, split_nav, split_nav_spec};
use crate::text::{copy_str, push_str, str_eq};
use vstd::prelude::*;

verus! {

/// One property of a generated entity.
#[derive(Debug, Clone)]
pub struct Field {
    pub name: String,
    pub ftype: String,
    pub required: bool,
    pub navigation_display: Option<String>,
    pub max_length: Option<i32>,
    pub navigation: Option<String>,
    pub filterable: bool,
    pub show_in_ui: bool,
}

/// A field's content as mathematical values.
pub struct FieldV {
    pub name: Seq<char>,
    pub ftype: Seq<char>,
    pub required: bool,
    pub navigation_display: Option<Seq<char>>,
    pub max_length: Option<int>,
    pub navigation: Option<Seq<char>>,
    pub filterable: bool,
    pub show_in_ui: bool,
}

pub open spec fn opt_view(o: Option<String>) -> Option<Seq<char>> {
    match o {
        Some(s) => Some(s@),
        None => None,
    }
}

impl View for Field {
    type V = FieldV;

    open spec fn view(&self) -> FieldV {
        FieldV {
            name: self.name@,
            ftype: self.ftype@,
            required: self.required,
            navigation_display: opt_view(self.navigation_display),
            max_length: match self.max_length {
                Some(m) => Some(m as int),
                None => None,
            },
            navigation: opt_view(self.navigation),
            filterable: self.filterable,
            show_in_ui: self.show_in_ui,
        }
    }
}

pub open spec fn fields_view(fields: Seq<Field>) -> Seq<FieldV> {
    fields.map_values(|f: Field| f@)
}

/// Type used for an optional filter on a field.
pub open spec fn nullable_filter_type_spec(f: FieldV) -> Seq<char> {
    if f.ftype == "textarea"@ {
        "string?"@
    } else if f.ftype == "enum"@ {
        match f.navigation {
            Some(nav) => last_segment_spec(nav) + "?"@,
            None => "Enum?"@,
        }
    } else {
        f.ftype + "?"@
    }
}

impl Field {
    /// The C# type of this field as an optional filter parameter.
    pub fn nullable_filter_type(&self) -> (r: String)
        ensures
            r@ == nullable_filter_type_spec(self@),
    {
        if str_eq(self.ftype.as_str(), "textarea") {
            copy_str("string?")
        } else if str_eq(self.ftype.as_str(), "enum") {
            match &self.navigation {
                Some(nav) => {
                    let mut r = last_segment(nav.as_str());
                    push_str(&mut r, "?");
                    r
                },
                None => copy_str("Enum?"),
            }
        } else {
            let mut r = copy_str(self.ftype.as_str());
            push_str(&mut r, "?");
            r
        }
    }
}

#[derive(Debug, Clone, Copy, PartialEq, Eq, Structural)]
pub enum UiTarget {
    NoUi,
    Razor,
    Vue,
    Angular,
}

impl Default for UiTarget {
    fn default() -> (r: Self)
        ensures
            r == UiTarget::NoUi,
    {
        UiTarget::NoUi
    }
}

#[derive(Debug, Clone, Copy, PartialEq, Eq, Structural)]
pub enum AbpTheme {
    Basic,
    LeptonX,
}

impl Default for AbpTheme {
    fn default() -> (r: Self)
        ensures
            r == AbpTheme::Basic,
    {
        AbpTheme::Basic
    }
}

#[derive(Debug, Clone, Copy, PartialEq, Eq, Structural)]
pub enum BootstrapOverride {
    NoOverride,
    Modern,
    Nord,
    Solarized,
}

impl Default for BootstrapOverride {
    fn default() -> (r: Self)
        ensures
            r == BootstrapOverride::NoOverride,
    {
        BootstrapOverride::NoOverride
    }
}

#[derive(Debug, Clone, Copy, PartialEq, Eq, Structural)]
pub enum MobileUi {
    NoMobile,
    ReactNative,
}

impl Default for MobileUi {
    fn default() -> (r: Self)
        ensures
            r == MobileUi::NoMobile,
    {
        MobileUi::NoMobile
    }
}

/// An entity as recorded in a project's generation history; the time of
/// generation is kept as RFC 3339 text.
#[derive(Debug, Clone)]
pub struct EntityRecord {
    pub domain: String,
    pub name: String,
    pub namespace: String,
    pub fields: Vec<Field>,
    pub ui_target: UiTarget,
    pub generated_at: String,
}

/// A project's generation history.
#[derive(Debug, Clone)]
pub struct ProjectRecord {
    pub project_name: String,
    pub project_dir: String,
    pub theme: AbpTheme,
    pub bootstrap_override: BootstrapOverride,
    pub mobile_ui: MobileUi,
    pub entities: Vec<EntityRecord>,
}

/// The registered projects.
#[derive(Debug, Clone, PartialEq, Eq)]
pub struct GlobalIndex {
    pub projects: Vec<ProjectRef>,
}

/// A registered project: its name and its root directory.
#[derive(Debug, Clone, PartialEq, Eq)]
pub struct ProjectRef {
    pub project_name: String,
    pub project_dir: String,
}

} // verus!
