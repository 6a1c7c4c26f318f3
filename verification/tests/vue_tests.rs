use banna::mapping::Mapping;
use banna::models::Field;
use banna::vue::vue_ui_blocks;

fn field(name: &str, field_type: &str) -> Field {
    Field {
        name: name.into(),
        ftype: field_type.into(),
        required: false,
        navigation_display: None,
        max_length: None,
        navigation: None,
        filterable: false,
        show_in_ui: false,
    }
}

fn get(m: &Mapping, key: &str) -> String {
    m.get(key).cloned().unwrap_or_else(|| panic!("missing {key}"))
}

#[test]
fn builds_required_string_form_and_payload() {
    let mut title = field("Title", "string");
    title.required = true;
    title.show_in_ui = true;

    let blocks = vue_ui_blocks("Book", &[title], &Mapping::new()).placeholders();

    assert!(get(&blocks, "web_form_fields_create_vue").contains("v-model=\"model.title\""));
    assert_eq!(get(&blocks, "vue_create_cansave_logic"), "return !!model.title;");
    assert!(get(&blocks, "vue_create_payload").contains("title: model.title"));
    assert!(get(&blocks, "web_datatable_columns").contains("book.title"));
}

#[test]
fn builds_navigation_lookup_and_filter_fragments() {
    let mut author = field("AuthorId", "Guid");
    author.navigation = Some("Acme.BookStore.Authors.Author".into());
    author.navigation_display = Some("Title".into());
    author.filterable = true;
    author.show_in_ui = true;

    let blocks = vue_ui_blocks("Book", &[author], &Mapping::new()).placeholders();

    assert!(get(&blocks, "vue_create_lookup_functions").contains("fetchAuthorLookup"));
    assert!(get(&blocks, "vue_create_lookup_functions").contains("bookService.getAuthorLookup"));
    assert!(get(&blocks, "vue_index_lookup_functions").contains("fetchAuthorLookup"));
    assert!(get(&blocks, "index_js_nav_query_pairs").contains("authorId"));
    assert!(get(&blocks, "vue_index_advanced_filter_inputs").contains("filter.authorId"));
    assert!(get(&blocks, "vue_edit_prime_lookups_if_needed").contains("dto.author.title"));
    assert!(get(&blocks, "web_datatable_columns").contains("author.title"));
}

#[test]
fn builds_typed_filter_defaults() {
    let mut price = field("Price", "decimal");
    price.filterable = true;
    let mut active = field("Active", "bool");
    active.filterable = true;

    let blocks = vue_ui_blocks("Book", &[price, active], &Mapping::new()).placeholders();

    assert!(get(&blocks, "vue_index_filter_fields").contains("price: null"));
    assert!(get(&blocks, "vue_index_filter_fields").contains("active: null"));
    assert!(!get(&blocks, "vue_index_filter_fields").contains("filterText"));
    assert!(get(&blocks, "vue_index_watch_filters").contains("scheduleFilterReload"));
    assert!(get(&blocks, "index_js_string_query_pairs").contains("price"));
    assert!(get(&blocks, "index_js_string_query_pairs").contains("active"));
}

#[test]
fn detail_controls_are_read_only() {
    let blocks = vue_ui_blocks("Book", &[field("Title", "string"), field("Count", "int")], &Mapping::new());
    assert_eq!(
        blocks.web_form_fields_detail_vue,
        "<div class=\"mb-3\">\n  <label class=\"form-label\">@L[\"Book:Title\"].Value</label>\n  <input :value=\"model.title\" class=\"form-control\" disabled />\n</div>\n\
<div class=\"mb-3\">\n  <label class=\"form-label\">@L[\"Book:Count\"].Value</label>\n  <input :value=\"model.count\"  class=\"form-control\" disabled />\n</div>\n"
    );
}

#[test]
fn shared_navigation_targets_are_declared_once() {
    let mut a = field("AuthorId", "Guid");
    a.navigation = Some("X.Author".into());
    a.required = true;
    let mut b = field("ReviewerId", "Guid");
    b.navigation = Some("Y.Author".into());
    let blocks = vue_ui_blocks("Book", &[a, b], &Mapping::new());
    assert_eq!(blocks.vue_create_support_refs, "const authors = ref([]);\n");
    assert_eq!(blocks.vue_create_onmounted, "await fetchAuthorLookup(\"\");\n");
    assert_eq!(blocks.vue_create_lookup_functions.matches("async function fetchAuthorLookup").count(), 1);
    assert_eq!(blocks.vue_create_return_refs, ", authors, fetchAuthorLookup, authors");
    assert_eq!(blocks.vue_index_return_refs, ", authors, fetchAuthorLookup");
    assert_eq!(blocks.vue_detail_return_refs, ", authors, authors");
    assert_eq!(blocks.vue_create_cansave_expression, "!!model.authorId");
}

#[test]
fn edit_parts_add_the_concurrency_stamp() {
    let blocks = vue_ui_blocks("Book", &[field("Title", "textarea")], &Mapping::new());
    assert_eq!(blocks.vue_edit_model_fields, "title: \"\",\n      concurrencyStamp: null");
    assert_eq!(blocks.vue_create_model_fields, "title: \"\"");
    assert_eq!(blocks.vue_edit_payload, "{ title: model.title, concurrencyStamp: model.concurrencyStamp }");
    assert_eq!(blocks.vue_create_cansave_logic, "return true;");
    assert_eq!(
        blocks.vue_edit_load_mapping,
        "model.title = dto.book.title ?? \"\";\nmodel.concurrencyStamp = dto.book.concurrencyStamp ?? null;\n"
    );
    assert_eq!(blocks.vue_index_clear_filter_defaults, "filterText: \"\"");
    assert_eq!(blocks.vue_index_default_order_col, "1");
    assert!(blocks.vue_index_bulk_delete_block.contains("document.getElementById(\"BooksTable\")"));
}
