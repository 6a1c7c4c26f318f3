use banna::models::{AbpTheme, BootstrapOverride, Field, MobileUi, UiTarget};

fn field(ftype: &str, navigation: Option<&str>) -> Field {
    Field {
        name: "X".into(),
        ftype: ftype.into(),
        required: false,
        navigation_display: None,
        max_length: None,
        navigation: navigation.map(str::to_string),
        filterable: true,
        show_in_ui: true,
    }
}

#[test]
fn nullable_filter_types() {
    assert_eq!(field("textarea", None).nullable_filter_type(), "string?");
    assert_eq!(field("enum", Some("Acme.Books.BookType")).nullable_filter_type(), "BookType?");
    assert_eq!(field("enum", None).nullable_filter_type(), "Enum?");
    assert_eq!(field("int", None).nullable_filter_type(), "int?");
}

#[test]
fn project_metadata_defaults() {
    assert_eq!(AbpTheme::default(), AbpTheme::Basic);
    assert_eq!(BootstrapOverride::default(), BootstrapOverride::NoOverride);
    assert_eq!(MobileUi::default(), MobileUi::NoMobile);
    assert_eq!(UiTarget::default(), UiTarget::NoUi);
}
