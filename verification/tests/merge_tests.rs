use banna::mapping::Mapping;
use banna::merge::permissions::{merge_permission_provider, merge_permissions_class};
use banna::merge::{ensure_using, insert_before_last_close_brace_of_method, insert_inside_class, MergeContext};

#[test]
fn ensures_using_once_after_existing_usings() {
    let source = "using System;\n\nnamespace Demo;\n";
    let once = ensure_using(source, "using Demo.Books;");
    let twice = ensure_using(&once, "using Demo.Books;");

    assert_eq!(once, twice);
    assert_eq!(once.matches("using Demo.Books;").count(), 1);
    assert!(once.starts_with("using System;\nusing Demo.Books;"));
}

#[test]
fn inserts_inside_nested_method_and_class_bodies() {
    let method = r"void\s+Configure\s*\(\s*\)\s*";
    let source = "class Sample\n{\n    void Configure()\n    {\n        if (true) { Run(); }\n    }\n}\n";
    let merged = insert_before_last_close_brace_of_method(source, method, "\n        Added();\n")
        .expect("method regex");
    let run_position = merged.find("Run();").expect("existing method body");
    let added_position = merged.find("Added();").expect("inserted method body");
    assert!(run_position < added_position);
    assert_eq!(merged.matches("Added();").count(), 1);

    let class = r"class\s+Sample\s*";
    let merged = insert_inside_class(&merged, class, "\n    int Value;\n", true).expect("class regex");
    assert!(merged.contains("    int Value;\n}"));
}

#[test]
fn reports_missing_mapping_keys_without_panicking() {
    let error = MergeContext::from_mapping(&Mapping::new()).err().expect("invalid mapping should fail");
    assert!(error.contains("domain_name"));
}

#[test]
fn an_invalid_pattern_is_reported() {
    let error = insert_inside_class("class A {}", "class (", "x", true).expect_err("bad regex");
    assert_eq!(error, "invalid regular expression: class (");
}

#[test]
fn using_goes_first_when_there_is_none() {
    assert_eq!(ensure_using("namespace Demo;\n", "using A;"), "using A;\nnamespace Demo;\n");
}

fn context() -> MergeContext {
    let mut m = Mapping::new();
    for (k, v) in [
        ("domain_name", "Acme.BookStore"),
        ("domain_short", "BookStore"),
        ("entity_name", "Book"),
        ("entity_plural", "Books"),
        ("entity_name_lower", "book"),
        ("namespace", "Acme.BookStore.Books"),
        ("ui_target", "vue"),
    ] {
        m.insert(k.to_string(), v.to_string());
    }
    MergeContext::from_mapping(&m).expect("complete mapping")
}

#[test]
fn permission_merges_are_idempotent() {
    let ctx = context();
    let class = "namespace X;\npublic static class BookStorePermissions\n{\n    public const string GroupName = \"BookStore\";\n}\n";
    let once = merge_permissions_class(class, &ctx).expect("merge").0;
    let twice = merge_permissions_class(&once, &ctx).expect("merge").0;
    assert_eq!(once, twice);
    assert!(once.contains("public static class Books"));

    let provider = "public class P\n{\n    public override void Define(IPermissionDefinitionContext context)\n    {\n        var myGroup = context.AddGroup(\"x\");\n    }\n}\n";
    let once = merge_permission_provider(provider, &ctx).expect("merge").0;
    let twice = merge_permission_provider(&once, &ctx).expect("merge").0;
    assert_eq!(once, twice);
    assert_eq!(once.matches("var bookPermission").count(), 1);
}

#[test]
fn removes_razor_view_model_maps_and_mappers() {
    let src = "public class BookStoreWebAutoMapperProfile : Profile\n{\n    public BookStoreWebAutoMapperProfile()\n    {\n        CreateMap<BookDto, BookUpdateViewModel>();\n        CreateMap<BookDto, BookDetailViewModel>();\n        CreateMap<AuthorDto, AuthorUpdateViewModel>();\n    }\n}\n\n[Mapper]\npublic partial class BookDtoToBookUpdateViewModelMapper : MapperBase<BookDto, BookUpdateViewModel>\n{\n    public override partial BookUpdateViewModel Map(BookDto source);\n}\n\n[Mapper]\npublic partial class AuthorDtoToAuthorUpdateViewModelMapper\n{\n}\n";
    let (cleaned, removed) = banna::merge::web::cleanup_razor_viewmodel_mappings(src, "Book").unwrap();
    assert_eq!(removed, 2);
    assert!(!cleaned.contains("BookUpdateViewModel"));
    assert!(!cleaned.contains("BookDetailViewModel"));
    assert!(cleaned.contains("        CreateMap<AuthorDto, AuthorUpdateViewModel>();\n    }\n}\n\n[Mapper]\npublic partial class AuthorDtoToAuthorUpdateViewModelMapper"));
    let (again, removed_again) = banna::merge::web::cleanup_razor_viewmodel_mappings(&cleaned, "Book").unwrap();
    assert_eq!(removed_again, 0);
    assert_eq!(again, cleaned);
}

#[test]
fn keeps_a_mapper_class_that_does_not_close() {
    let src = "[Mapper]\npublic partial class BookDtoToBookUpdateViewModelMapper\n{\n";
    let (out, removed) = banna::merge::web::remove_mapperly_class(src, "BookDtoToBookUpdateViewModelMapper").unwrap();
    assert!(!removed);
    assert_eq!(out, src);
}
