use banna::angular_app::insert_into_array;
use banna::fragments::classes::ClassSources;
use banna::fragments::compile::{compile_fragments, namespace_lower};
use banna::mapping::Mapping;
use banna::models::Field;

fn field(name: &str, field_type: &str) -> Field {
    Field {
        name: name.into(),
        ftype: field_type.into(),
        required: false,
        navigation_display: None,
        max_length: None,
        navigation: None,
        filterable: false,
        show_in_ui: false,
    }
}

fn get(m: &Mapping, key: &str) -> String {
    m.get(key).cloned().unwrap_or_else(|| panic!("missing {key}"))
}

fn book_placeholders() -> Mapping {
    let mut title = field("Title", "string");
    title.required = true;
    title.filterable = true;
    title.show_in_ui = true;
    let mut price = field("Price", "decimal");
    price.filterable = true;
    let srcs = ClassSources { entries: Vec::new() };
    compile_fragments("Acme.BookStore", "Acme.BookStore.Books", "Book", &[title, price], &srcs)
        .placeholders()
}

#[test]
fn compiles_naming_placeholders() {
    let m = book_placeholders();
    assert_eq!(get(&m, "ns_rel_path"), "Books");
    assert_eq!(get(&m, "domain_name"), "Acme.BookStore");
    assert_eq!(get(&m, "domain_short"), "BookStore");
    assert_eq!(get(&m, "namespace"), "Acme.BookStore.Books");
    assert_eq!(get(&m, "entity"), "Book");
    assert_eq!(get(&m, "entity_name"), "Book");
    assert_eq!(get(&m, "entity_lower"), "book");
    assert_eq!(get(&m, "entity_camel"), "book");
    assert_eq!(get(&m, "entity_name_lower"), "book");
    assert_eq!(get(&m, "entity_plural"), "Books");
    assert_eq!(get(&m, "entity_plural_lower"), "books");
    assert_eq!(get(&m, "entity_plural_camel"), "books");
    assert_eq!(get(&m, "entity_plural_kebab"), "books");
    assert_eq!(get(&m, "entity_name_kebab"), "book");
    assert_eq!(get(&m, "localization_resource"), "BookStoreResource");
    assert_eq!(get(&m, "web_namespace"), "Acme.BookStore.Web.Pages.Books");
    assert_eq!(get(&m, "namespace_lower"), "acme.bookStore.books");
}

#[test]
fn compiles_field_placeholders_and_fixed_defaults() {
    let m = book_placeholders();
    assert!(get(&m, "fields").contains("Title"));
    assert!(get(&m, "fields").contains("Price"));
    assert!(get(&m, "filter_param_names").starts_with("filterText"));
    assert!(get(&m, "filter_param_names").contains("title"));
    assert_eq!(get(&m, "with_nav_properties"), get(&m, "navigation_properties"));
    assert_eq!(get(&m, "mobile_list_description"), "null");
    assert_eq!(get(&m, "mobile_tab_scenes"), "");
    assert_eq!(get(&m, "mobile_tab_route_builder"), "");
    assert_eq!(get(&m, "mobile_screen_props"), "");
    assert_eq!(get(&m, "mobile_form_refs"), "");
    assert_eq!(get(&m, "mobile_form_styles"), "");
    assert_eq!(get(&m, "mobile_list_title"), "entityItem.title");
    assert!(get(&m, "web_form_fields_create").contains("Book.Title"));
    assert!(m.get("no_such_placeholder").is_none());
}

#[test]
fn lowers_each_namespace_segment_with_unicode_rules() {
    assert_eq!(namespace_lower("Acme.BookStore.Books"), "acme.bookStore.books");
    assert_eq!(namespace_lower("Élan.Ärzte"), "élan.ärzte");
    assert_eq!(namespace_lower(""), "");
}

#[test]
fn inserts_routes_into_current_and_legacy_app_route_names() {
    let declaration = r"export\s+const\s+(?:APP_ROUTES|appRoutes)\s*(?::[^=]+)?=\s*";
    for source in [
        "export const APP_ROUTES: Routes = [\n  { path: '' },\n];\n",
        "export const appRoutes = [{ path: '' }];\n",
    ] {
        let updated =
            insert_into_array(source, declaration, "  { path: 'books' },\n").expect("route array");
        assert_eq!(updated.matches("path: 'books'").count(), 1);
        assert!(updated.ends_with("];\n"));
    }
}

#[test]
fn inserts_before_the_bracket_that_closes_the_outer_array() {
    let updated = insert_into_array("providers: [a, [b], c]", r"providers\s*:\s*", ", d").unwrap();
    assert_eq!(updated, "providers: [a, [b], c, d]");
    assert!(insert_into_array("providers: [a, [b]", r"providers\s*:\s*", ", d").is_none());
    assert!(insert_into_array("imports: [a]", r"providers\s*:\s*", ", d").is_none());
    assert!(insert_into_array("providers: [a]", r"providers(", ", d").is_none());
}
