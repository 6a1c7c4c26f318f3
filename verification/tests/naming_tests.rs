use banna::naming::{last_segment, ns_of, ns_relative_path, pluralize, to_kebab, to_lower_camel, to_upper_camel};
use std::path::PathBuf;

fn as_path(segments: Vec<String>) -> PathBuf {
    segments.iter().collect()
}

#[test]
fn extracts_namespace_parts() {
    assert_eq!(last_segment("Acme.Billing.Invoices"), "Invoices");
    assert_eq!(ns_of("Acme.Billing.Invoices"), "Acme.Billing");
    assert_eq!(ns_of("Invoices"), "");
}

#[test]
fn maps_namespaces_to_relative_paths() {
    assert_eq!(as_path(ns_relative_path("Acme", "Acme")), PathBuf::new());
    assert_eq!(
        as_path(ns_relative_path("Acme", "Acme.Billing.Invoices")),
        PathBuf::from("Billing/Invoices")
    );
}

#[test]
fn case_conversions() {
    assert_eq!(to_lower_camel("AuthorId"), "authorId");
    assert_eq!(to_upper_camel("authorId"), "AuthorId");
    assert_eq!(to_kebab("BookAuthors"), "book-authors");
    assert_eq!(to_lower_camel(""), "");
}

#[test]
fn plurals() {
    assert_eq!(pluralize("Book"), "Books");
    assert_eq!(pluralize("Category"), "Categories");
    assert_eq!(pluralize("Box"), "Boxes");
    assert_eq!(pluralize("Day"), "Days");
}
