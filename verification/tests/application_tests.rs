use banna::merge::application::{merge_application_mappers, merge_application_profile};
use banna::merge::MergeContext;

fn context() -> MergeContext {
    MergeContext {
        domain: "Acme.BookStore".into(),
        short: "BookStore".into(),
        entity: "Book".into(),
        entity_plural: "Books".into(),
        entity_lower: "book".into(),
        namespace: "Acme.BookStore.Books".into(),
        web_namespace: String::new(),
        is_mvc: false,
        is_razor: false,
    }
}

const PROFILE: &str = "using AutoMapper;\n\nnamespace Acme.BookStore;\n\npublic class BookStoreApplicationAutoMapperProfile : Profile\n{\n    public BookStoreApplicationAutoMapperProfile()\n    {\n    }\n}\n";

const NAV_MAP: &str = "CreateMap<Author, LookupDto<Guid>>().ForMember(dest => dest.DisplayName, opt => opt.MapFrom(src => src.Name));";

#[test]
fn adds_usings_and_every_missing_profile_map() {
    let nav_maps = format!("  {NAV_MAP}  \n\n");
    let m = merge_application_profile(PROFILE, &context(), &nav_maps, "using Acme.BookStore.Authors;\n").unwrap();
    assert!(m.system_using_added);
    assert!(m.usings_added);
    assert!(m.text.starts_with("using System;\nusing AutoMapper;"));
    assert_eq!(m.text.matches("using Acme.BookStore.Books;").count(), 1);
    assert_eq!(m.text.matches("using Acme.BookStore.Shared;").count(), 1);
    assert_eq!(m.text.matches("using Acme.BookStore.Authors;").count(), 1);
    assert_eq!(m.text.matches("CreateMap<Book, BookDto>();").count(), 1);
    assert_eq!(m.text.matches("CreateMap<Book, BookExcelDto>();").count(), 1);
    assert_eq!(m.text.matches("CreateMap<Book, BookCreateDto>();").count(), 1);
    assert_eq!(m.text.matches("CreateMap<Book, BookUpdateDto>();").count(), 1);
    assert_eq!(
        m.text.matches("CreateMap<BookWithNavigationProperties, BookWithNavigationPropertiesDto>();").count(),
        1
    );
    assert_eq!(m.text.matches(NAV_MAP).count(), 1);
    assert!(m.text.contains("\n        CreateMap<Book, LookupDto<Guid>>()"));
    assert!(m.text.ends_with("src.Name));}\n}"), "{}", m.text);
    let heads: Vec<String> = m.steps.iter().map(|s| s.clone().expect("added")).collect();
    assert_eq!(
        heads,
        vec![
            "CreateMap<Book, LookupDto<Guid>>",
            "CreateMap<Book, BookDto>",
            "CreateMap<Book, BookExcelDto>",
            "CreateMap<BookWithNavigationProperties, BookWithNavigationPropertiesDto>",
            "CreateMap<Book, BookCreateDto>",
            "CreateMap<Book, BookUpdateDto>",
            "CreateMap<Author, LookupDto<Guid>>",
        ]
    );
}

#[test]
fn merging_the_profile_again_changes_nothing() {
    let first = merge_application_profile(PROFILE, &context(), NAV_MAP, "").unwrap();
    let second = merge_application_profile(&first.text, &context(), NAV_MAP, "").unwrap();
    assert_eq!(second.text, first.text);
    assert!(!second.system_using_added);
    assert!(!second.usings_added);
    assert!(second.steps.is_empty());
}

#[test]
fn reports_each_map_when_the_profile_has_no_constructor() {
    let src = "using System;\nnamespace Acme.BookStore;\n";
    let m = merge_application_profile(src, &context(), "", "").unwrap();
    assert!(!m.system_using_added);
    assert_eq!(m.steps.len(), 6);
    assert!(m.steps.iter().all(|s| s.is_none()));
    assert!(!m.text.contains("CreateMap"));
}

#[test]
fn puts_system_using_on_top_of_a_file_without_usings() {
    let m = merge_application_profile("namespace X;\n", &context(), "", "").unwrap();
    assert!(m.text.starts_with("using System;\n"));
}

const NAV_BLOCKS: &str = "// <auto-nav-lookup-Author>\n[Mapper]\npublic partial class AuthorToLookupDtoMapper { }\n// </auto-nav-lookup-Author>\n";

#[test]
fn adds_mapperly_classes_and_navigation_lookups_once() {
    let src = "using System;\n\nnamespace Acme.BookStore;\n";
    let m = merge_application_mappers(src, &context(), "", Some("Title"), Some(NAV_BLOCKS)).unwrap();
    assert!(m.changed);
    assert!(m.classes_added);
    assert_eq!(m.lookups_added, vec!["Author".to_string()]);
    assert!(m.text.contains("public partial class BookToBookDtoMapper : MapperBase<Book, BookDto>"));
    assert!(m.text.contains("public partial class BookToBookExcelDtoMapper"));
    assert!(m.text.contains("[MapProperty(nameof(Book.Title), nameof(LookupDto<Guid>.DisplayName))]"));
    assert!(m.text.contains("using Riok.Mapperly.Abstractions;"));
    assert!(m.text.contains("using Volo.Abp.Mapperly;"));
    assert!(m.text.ends_with("// </auto-nav-lookup-Author>\n"));

    let again = merge_application_mappers(&m.text, &context(), "", Some("Title"), Some(NAV_BLOCKS)).unwrap();
    assert!(!again.changed);
    assert!(!again.classes_added);
    assert!(again.lookups_added.is_empty());
    assert_eq!(again.text, m.text);
}

#[test]
fn names_the_lookup_display_property_name_by_default() {
    let m = merge_application_mappers("", &context(), "", None, None).unwrap();
    assert!(m.text.contains("nameof(Book.Name)"));
    let existing = "class BookToLookupDtoMapper { }\n";
    let m = merge_application_mappers(existing, &context(), "", None, None).unwrap();
    assert_eq!(m.text.matches("BookToLookupDtoMapper").count(), 1);
}
