use banna::generate_entity::{
    validate, GenerateEntityRequest, GenerationEvent, GenerationEventKind, GenerationOptions,
};
use banna::models::{Field, MobileUi, UiTarget};
use std::path::Path;

fn request() -> GenerateEntityRequest {
    GenerateEntityRequest {
        project_root: "/missing/project".into(),
        domain: "Acme.Billing".into(),
        namespace: "Acme.Billing.Invoices".into(),
        entity: "Invoice".into(),
        fields: vec![Field {
            name: "Number".into(),
            ftype: "string".into(),
            required: true,
            navigation_display: None,
            max_length: Some(64),
            navigation: None,
            filterable: true,
            show_in_ui: true,
        }],
        ui_target: UiTarget::NoUi,
        mobile_ui: MobileUi::NoMobile,
        options: GenerationOptions::default(),
    }
}

fn has_src_dir(root: &str) -> bool {
    Path::new(root).join("src").is_dir()
}

#[test]
fn rejects_a_project_without_a_src_directory() {
    let request = request();
    let error = validate(&request, has_src_dir(&request.project_root))
        .expect_err("missing project should fail");
    assert!(error.contains("must contain a src directory"));
}

#[test]
fn rejects_an_empty_entity_name() {
    let mut request = request();
    request.entity.clear();
    // A project root that holds a `src` directory.
    let error = validate(&request, true).expect_err("empty entity should fail");
    assert_eq!(error, "entity cannot be empty");
}

#[test]
fn rejects_unsafe_reserved_and_duplicate_identifiers() {
    let mut invalid_entity = request();
    invalid_entity.entity = "../Invoice".into();
    assert!(validate(&invalid_entity, true)
        .expect_err("path-like entity should fail")
        .contains("valid identifier"));

    let mut reserved_field = request();
    reserved_field.fields[0].name = "ConcurrencyStamp".into();
    assert!(validate(&reserved_field, true)
        .expect_err("reserved field should fail")
        .contains("reserved"));

    let mut duplicate_fields = request();
    duplicate_fields.fields.push(duplicate_fields.fields[0].clone());
    duplicate_fields.fields[1].name = "number".into();
    assert!(validate(&duplicate_fields, true)
        .expect_err("case-insensitive duplicate should fail")
        .contains("unique"));
}

#[test]
fn classifies_generation_messages_for_machine_readable_reports() {
    assert_eq!(GenerationEvent::from_message("created: Invoice.cs").kind, GenerationEventKind::Created);
    assert_eq!(GenerationEvent::from_message("merged: AppModule.cs").kind, GenerationEventKind::Modified);
    assert_eq!(GenerationEvent::from_message("skip: existing file").kind, GenerationEventKind::Skipped);
    assert_eq!(GenerationEvent::from_message("warn: unsupported layout").kind, GenerationEventKind::Warning);
}

#[test]
fn classification_ignores_case_and_leading_space_and_keeps_the_message() {
    let event = GenerationEvent::from_message("  L10N+ Demo");
    assert_eq!(event.kind, GenerationEventKind::Modified);
    assert_eq!(event.message, "  L10N+ Demo");
    assert_eq!(GenerationEvent::from_message("l10n= kept").kind, GenerationEventKind::Skipped);
    assert_eq!(GenerationEvent::from_message("Running migration").kind, GenerationEventKind::Info);
}

#[test]
fn accepts_a_valid_request_and_reports_each_problem_in_order() {
    assert!(validate(&request(), true).is_ok());

    let mut r = request();
    r.domain = "  ".into();
    assert_eq!(validate(&r, true).unwrap_err(), "domain cannot be empty");

    let mut r = request();
    r.domain = "Acme..Billing".into();
    assert_eq!(validate(&r, true).unwrap_err(), "domain must be a dot-separated identifier: Acme..Billing");

    let mut r = request();
    r.namespace = "Acme.1Billing".into();
    assert_eq!(validate(&r, true).unwrap_err(), "namespace must be a dot-separated identifier: Acme.1Billing");

    let mut r = request();
    r.fields.clear();
    assert_eq!(validate(&r, true).unwrap_err(), "at least one field is required");

    let mut r = request();
    r.fields[0].name = "id".into();
    assert_eq!(validate(&r, true).unwrap_err(), "field name is reserved by ABP or Banna: id");

    let mut r = request();
    r.fields[0].name = "Bad-Name".into();
    assert_eq!(validate(&r, true).unwrap_err(), "field must have a valid identifier: Bad-Name");

    assert_eq!(
        validate(&request(), false).unwrap_err(),
        "project root must contain a src directory: /missing/project"
    );
}
