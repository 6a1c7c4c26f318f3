use banna::mapping::Mapping;
use banna::merge::application::{merge_application_mappers, merge_application_profile};
use banna::merge::ef_core::merge_db_context;
use banna::merge::permissions::{merge_permission_provider, merge_permissions_class};
use banna::merge::web::{
    cleanup_razor_viewmodel_mappings, merge_menu_constant, merge_menu_contributor, merge_web_profile,
};
use banna::merge::toolbars::patch_web_module_toolbars;
use banna::merge::web::merge_web_mappers;
use banna::merge::MergeContext;

fn context(ui_target: &str) -> MergeContext {
    let mut m = Mapping::new();
    for (k, v) in [
        ("domain_name", "Acme.BookStore"),
        ("domain_short", "BookStore"),
        ("entity_name", "Book"),
        ("entity_plural", "Books"),
        ("entity_name_lower", "book"),
        ("namespace", "Acme.BookStore.Books"),
        ("web_namespace", "Acme.BookStore.Web.Pages.Books"),
        ("ui_target", ui_target),
    ] {
        m.insert(k.to_string(), v.to_string());
    }
    MergeContext::from_mapping(&m).expect("complete mapping")
}

#[test]
fn core_csharp_merge_is_idempotent() {
    let ctx = context("none");
    let profile = "namespace Acme.BookStore;\npublic class BookStoreApplicationAutoMapperProfile\n{\n    public BookStoreApplicationAutoMapperProfile()\n    {\n    }\n}\n";
    let permissions = "namespace Acme.BookStore.Permissions;\npublic static class BookStorePermissions\n{\n    public const string GroupName = \"BookStore\";\n}\n";
    let provider = "public class BookStorePermissionDefinitionProvider\n{\n    public override void Define(IPermissionDefinitionContext context)\n    {\n        var myGroup = context.AddGroup(\"BookStore\");\n    }\n}\n";
    let db_context = "using Microsoft.EntityFrameworkCore;\npublic class BookStoreDbContext : DbContext\n{\n    protected override void OnModelCreating(ModelBuilder builder)\n    {\n        base.OnModelCreating(builder);\n    }\n}\n";

    let merge = |texts: [String; 4]| -> [String; 4] {
        [
            merge_application_profile(&texts[0], &ctx, "", "").expect("profile").text,
            merge_permissions_class(&texts[1], &ctx).expect("permissions").0,
            merge_permission_provider(&texts[2], &ctx).expect("provider").0,
            merge_db_context(&texts[3], &ctx).expect("db context").0,
        ]
    };
    let first = merge([profile.into(), permissions.into(), provider.into(), db_context.into()]);
    let second = merge(first.clone());

    assert_eq!(first, second);
    assert_eq!(first[0].matches("CreateMap<Book, BookDto>").count(), 1);
    assert_eq!(first[1].matches("class Books").count(), 1);
    assert_eq!(first[2].matches("var bookPermission").count(), 1);
    assert_eq!(first[3].matches("DbSet<Book> Books").count(), 1);
    assert_eq!(first[3].matches("builder.ConfigureBook();").count(), 1);
}

#[test]
fn razor_web_and_mapperly_fallback_merge_are_idempotent() {
    let ctx = context("razor");
    let app_mappers = "namespace Acme.BookStore;\n";
    let menus = "public class BookStoreMenus\n{\n    public const string Prefix = \"BookStore\";\n}\n";
    let contributor = "using System.Threading.Tasks;\npublic class BookStoreMenuContributor\n{\n    private static Task ConfigureMainMenuAsync(MenuConfigurationContext context)\n    {\n        return Task.CompletedTask;\n    }\n}\n";
    let web_profile = "public class BookStoreWebAutoMapperProfile : Profile\n{\n    public BookStoreWebAutoMapperProfile()\n    {\n    }\n}\n";

    let merge = |texts: [String; 4]| -> [String; 4] {
        [
            merge_application_mappers(&texts[0], &ctx, "", None, None).expect("mappers").text,
            merge_menu_constant(&texts[1], &ctx).expect("menus").0,
            merge_menu_contributor(&texts[2], &ctx).expect("contributor").0,
            merge_web_profile(&texts[3], &ctx).expect("web profile").0,
        ]
    };
    let first = merge([app_mappers.into(), menus.into(), contributor.into(), web_profile.into()]);
    let second = merge(first.clone());

    assert_eq!(first, second);
    assert_eq!(first[0].matches("class BookToBookDtoMapper").count(), 1);
    assert_eq!(first[1].matches("public const string Books").count(), 1);
    assert_eq!(first[2].matches("BookStoreMenus.Books").count(), 1);
    assert_eq!(first[3].matches("CreateMap<BookDto, BookUpdateViewModel>").count(), 1);
}

#[test]
fn switching_from_razor_to_vue_removes_only_obsolete_viewmodel_mappings() {
    let automapper = "public class BookStoreWebAutoMapperProfile : Profile\n{\n    public BookStoreWebAutoMapperProfile()\n    {\n        CreateMap<BookDto, BookUpdateViewModel>();\n        CreateMap<BookDto, BookDetailViewModel>();\n        CreateMap<CustomSource, CustomTarget>();\n    }\n}\n";
    let (cleaned, removed) = cleanup_razor_viewmodel_mappings(automapper, "Book").expect("cleanup");
    let (again, removed_again) = cleanup_razor_viewmodel_mappings(&cleaned, "Book").expect("cleanup");
    assert_eq!(again, cleaned);
    assert_eq!(removed_again, 0);
    assert!(removed > 0);
    assert!(!cleaned.contains("BookUpdateViewModel"));
    assert!(!cleaned.contains("BookDetailViewModel"));
    assert!(cleaned.contains("CreateMap<CustomSource, CustomTarget>();"));

    let (mappers, _) = cleanup_razor_viewmodel_mappings(MAPPERLY, "Book").expect("cleanup");
    let (mappers_again, _) = cleanup_razor_viewmodel_mappings(&mappers, "Book").expect("cleanup");
    assert_eq!(mappers_again, mappers);
    assert!(!mappers.contains("BookUpdateViewModel"));
    assert!(!mappers.contains("BookCreateViewModel"));
    assert!(!mappers.contains("BookDetailViewModel"));
    assert!(mappers.contains("class CustomMapper"));
}

const MAPPERLY: &str = r#"using Riok.Mapperly.Abstractions;
using Volo.Abp.Mapperly;
namespace Acme.BookStore.Web;

[Mapper]
public partial class CustomMapper : MapperBase<CustomSource, CustomTarget>
{
    public override partial CustomTarget Map(CustomSource source);
    public override partial void Map(CustomSource source, CustomTarget destination);
}

[Mapper]
public partial class BookDtoToBookUpdateViewModelMapper : MapperBase<BookDto, BookUpdateViewModel>
{
    public override partial BookUpdateViewModel Map(BookDto source);
    public override partial void Map(BookDto source, BookUpdateViewModel destination);
}

[Mapper]
public partial class BookUpdateViewModelToBookUpdateDtoMapper : MapperBase<BookUpdateViewModel, BookUpdateDto>
{
    public override partial BookUpdateDto Map(BookUpdateViewModel source);
    public override partial void Map(BookUpdateViewModel source, BookUpdateDto destination);
}

[Mapper]
public partial class BookCreateViewModelToBookCreateDtoMapper : MapperBase<BookCreateViewModel, BookCreateDto>
{
    public override partial BookCreateDto Map(BookCreateViewModel source);
    public override partial void Map(BookCreateViewModel source, BookCreateDto destination);
}

[Mapper]
public partial class BookDtoToBookDetailViewModelMapper : MapperBase<BookDto, BookDetailViewModel>
{
    public override partial BookDetailViewModel Map(BookDto source);
    public override partial void Map(BookDto source, BookDetailViewModel destination);
}
"#;

#[test]
fn web_mappers_and_toolbars_settle_after_one_merge() {
    let ctx = context("razor");
    let mappers = "using System;\nnamespace Acme.BookStore.Web;\n";
    let (first, changed, added) = merge_web_mappers(mappers, &ctx);
    assert!(changed && added);
    let (second, changed_again, added_again) = merge_web_mappers(&first, &ctx);
    assert_eq!(second, first);
    assert!(!changed_again && !added_again);

    let module = "using Volo.Abp;\nnamespace Acme.BookStore.Web;\n\npublic class BookStoreWebModule : AbpModule\n{\n    public override void ConfigureServices(ServiceConfigurationContext context)\n    {\n        ConfigureBundles();\n    }\n}\n";
    let once = patch_web_module_toolbars(module, "Acme.BookStore");
    let twice = patch_web_module_toolbars(&once.text, "Acme.BookStore");
    assert_eq!(twice.text, once.text);
    assert!(!twice.changed);
    assert_eq!(once.text.matches("ConfigureToolbars();").count(), 1);
}

#[test]
fn mapper_file_with_navigation_blocks_settles_after_one_merge() {
    let ctx = context("razor");
    let blocks = "// <auto-nav-lookup-Author>\n[Mapper]\npublic partial class AuthorToLookupDtoMapper {}\n// </auto-nav-lookup-Author>";
    let src = "namespace Acme.BookStore;\n";
    let first = merge_application_mappers(src, &ctx, "using Acme.BookStore.Authors;", Some("Title"), Some(blocks)).expect("merge");
    let second = merge_application_mappers(&first.text, &ctx, "using Acme.BookStore.Authors;", Some("Title"), Some(blocks))
        .expect("merge");
    assert_eq!(second.text, first.text);
    assert!(!second.changed);
    assert_eq!(first.lookups_added, ["Author"]);
    assert_eq!(first.text.matches("<auto-nav-lookup-Author>").count(), 1);
}
