use banna::angular::angular_blocks;
use banna::models::Field;

fn field(name: &str, field_type: &str) -> Field {
    Field {
        name: name.into(),
        ftype: field_type.into(),
        required: false,
        navigation_display: None,
        max_length: None,
        navigation: None,
        filterable: false,
        show_in_ui: false,
    }
}

#[test]
fn builds_required_filterable_string_controls() {
    let mut title = field("Title", "string");
    title.required = true;
    title.filterable = true;
    title.show_in_ui = true;

    let blocks = angular_blocks("Book", &[title]);

    assert!(blocks.datatable_columns.contains("row.book.title"));
    assert!(blocks.form_group_entries.contains("Validators.required"));
    assert!(blocks.advanced_filter_inputs.contains("filter.title"));
    assert!(blocks.excel_filter_body.contains("title: f.title ?? ''"));
}

#[test]
fn builds_typed_payload_mappings() {
    let published_at = field("PublishedAt", "DateTime");
    let price = field("Price", "decimal");
    let status = field("Status", "enum");

    let blocks = angular_blocks("Book", &[published_at, price, status]);

    assert!(blocks
        .payload_mappings
        .contains("publishedAt: this.toIsoStringSafe(raw.publishedAt)"));
    assert!(blocks.payload_mappings.contains("price: raw.price"));
    assert!(blocks.payload_mappings.contains("Number(raw.price)"));
    assert!(blocks.payload_mappings.contains("status: raw.status"));
    assert!(blocks.proxy_dto_fields.contains("status?: number | null"));
}

#[test]
fn builds_navigation_lookup_once() {
    let mut author = field("AuthorId", "Guid");
    author.navigation = Some("Acme.BookStore.Authors.Author".into());
    author.navigation_display = Some("Title".into());
    author.filterable = true;
    author.show_in_ui = true;

    let blocks = angular_blocks("Book", &[author]);

    assert!(blocks.nav_option_arrays.contains("authorOptions"));
    assert_eq!(blocks.nav_load_calls.matches("onAuthorSearch").count(), 1);
    assert_eq!(blocks.nav_search_bindings.matches("getAuthorLookup").count(), 1);
    assert!(blocks.nav_search_bindings.contains("debounceTime(300)"));
    assert!(blocks.nav_search_bindings.contains("res.items ?? []"));
    assert!(blocks.proxy_with_nav_fields.contains("author?: AuthorDto"));
    assert!(blocks.proxy_nav_models.contains("title?: string | null"));
    assert!(blocks.datatable_columns.contains("row.author?.title"));
    assert!(blocks.proxy_lookup_methods.contains("/api/app/books/author-lookup"));
    assert!(blocks.modal_form_fields.contains("formControlName=\"authorId\""));
}

#[test]
fn a_shared_navigation_target_is_declared_once() {
    let mut author = field("AuthorId", "Guid");
    author.navigation = Some("Acme.Authors.Author".into());
    let mut editor = field("EditorId", "Guid");
    editor.navigation = Some("Other.Author".into());
    let blocks = angular_blocks("Book", &[author, editor]);
    assert_eq!(blocks.nav_option_arrays, "authorOptions: LookupDto<string>[] = [];");
    assert_eq!(blocks.nav_load_calls, "this.onAuthorSearch('');");
    assert_eq!(blocks.proxy_nav_models.matches("export interface AuthorDto").count(), 1);
    assert_eq!(blocks.modal_form_fields.matches("onAuthorSearch(").count(), 2);
}

#[test]
fn proxy_parameters_start_with_paging_and_filter_text() {
    let mut title = field("Title", "string");
    title.filterable = true;
    let blocks = angular_blocks("Book", &[title, field("Hidden", "int")]);
    assert_eq!(
        blocks.proxy_filter_params,
        "filterText: input.filterText, sorting: input.sorting, skipCount: input.skipCount, maxResultCount: input.maxResultCount, title: input.title"
    );
    assert_eq!(blocks.proxy_delete_filter_params, "filterText: input.filterText, title: input.title");
    assert_eq!(
        blocks.proxy_excel_params,
        "downloadToken: input.downloadToken, filterText: input.filterText, title: input.title"
    );
    assert_eq!(blocks.proxy_filter_fields, "  title?: string | null;");
    assert_eq!(blocks.proxy_create_fields, "  title?: string | null;\n  hidden?: number | null;");
    assert_eq!(
        blocks.excel_query_appends,
        "    this.appendIfHasValue(qs, \"filterText\", input.filterText);\n    this.appendIfHasValue(qs, \"title\", input.title);"
    );
}

#[test]
fn form_entries_carry_defaults_and_validators() {
    let mut name = field("Name", "string");
    name.required = true;
    name.max_length = Some(128);
    let blocks = angular_blocks("Book", &[name, field("Active", "bool"), field("When", "DateTime")]);
    assert_eq!(
        blocks.form_group_entries,
        "name: [c?.name ?? '', [Validators.required, Validators.maxLength(128)]],\n      active: [c?.active ?? false],\n      when: [this.toDatetimeLocal(c?.when)],"
    );
}

#[test]
fn no_fields_give_only_the_fixed_parts() {
    let blocks = angular_blocks("Book", &[]);
    assert_eq!(blocks.datatable_columns, "");
    assert_eq!(blocks.excel_filter_body, "      filterText: f.filterText ?? '',");
    assert_eq!(blocks.proxy_delete_filter_params, "filterText: input.filterText");
}
