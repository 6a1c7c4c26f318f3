use banna::entity_files::{entity_file_plan, render_template};
use banna::generation::{detect_ui, razor_maps_plan};
use banna::mapping::Mapping;
use banna::models::{GlobalIndex, ProjectRef};
use banna::templates::{embedded_walk, embedded_walk_recursive, read_tpl_text, EmbeddedFiles};
use banna::tui::{register_created, tui_step, Key, TuiAction, TuiState};
use banna::ui_files::{angular_feature_plan, react_native_screen_plan, remove_legacy_proxy_alias};

fn templates(paths: &[&str]) -> EmbeddedFiles {
    EmbeddedFiles { files: paths.iter().map(|p| (p.to_string(), b"x".to_vec())).collect() }
}

fn strings(v: &[&str]) -> Vec<String> {
    v.iter().map(|s| s.to_string()).collect()
}

#[test]
fn plans_each_backend_template_under_its_layer_and_renamed() {
    let files = templates(&[
        "Domain/Entity.tpl",
        "Domain/Custom.tpl",
        "Domain.Shared/Consts.tpl",
        "Application.Contracts/Shared/PagedDto.tpl",
        "EntityFrameworkCore/EfCoreRepository.tpl",
        "Application/AppService.tpl",
        "Application.Contracts/GetInput.tpl",
        "Web/Angular/component.ts.tpl",
    ]);
    let mut m = Mapping::new();
    m.insert("entity_plural".to_string(), "Books".to_string());
    m.insert("ns_rel_path".to_string(), "Books".to_string());
    let plan = entity_file_plan(&files, "Acme.BookStore", "Book", &m);
    let got: Vec<(String, Vec<String>, bool)> =
        plan.into_iter().map(|f| (f.template, f.path, f.skip_if_exists)).collect();
    assert_eq!(
        got,
        vec![
            ("Domain/Entity.tpl".to_string(), strings(&["Acme.BookStore.Domain", "Books", "Book.cs"]), false),
            ("Domain/Custom.tpl".to_string(), strings(&["Acme.BookStore.Domain", "Books", "Custom.cs"]), false),
            ("Domain.Shared/Consts.tpl".to_string(), strings(&["Acme.BookStore.Domain.Shared", "Books", "BookConsts.cs"]), false),
            (
                "Application.Contracts/Shared/PagedDto.tpl".to_string(),
                strings(&["Acme.BookStore.Application.Contracts", "Shared", "PagedDto.cs"]),
                true
            ),
            (
                "EntityFrameworkCore/EfCoreRepository.tpl".to_string(),
                strings(&["Acme.BookStore.EntityFrameworkCore", "Books", "EfCoreBookRepository.cs"]),
                false
            ),
            ("Application/AppService.tpl".to_string(), strings(&["Acme.BookStore.Application", "Books", "BooksAppService.cs"]), false),
            (
                "Application.Contracts/GetInput.tpl".to_string(),
                strings(&["Acme.BookStore.Application.Contracts", "Books", "GetBookInput.cs"]),
                false
            ),
        ]
    );
}

#[test]
fn renders_each_placeholder_of_the_mapping() {
    let mut m = Mapping::new();
    m.insert("entity".to_string(), "Book".to_string());
    m.insert("domain_short".to_string(), "BookStore".to_string());
    assert_eq!(
        render_template("class {{entity}} in {{domain_short}}; {{entity}}s {{unknown}}", &m),
        "class Book in BookStore; Books {{unknown}}"
    );
}

#[test]
fn plans_the_angular_feature_and_proxy_files() {
    let plan = angular_feature_plan("book", "books");
    assert_eq!(plan.len(), 8);
    assert_eq!(plan[0], ("Web/Angular/component.html.tpl".to_string(), "book/book.component.html".to_string()));
    assert_eq!(plan[4], ("Web/Angular/routes.ts.tpl".to_string(), "book/book.routes.ts".to_string()));
    assert_eq!(plan[6], ("Web/Angular/proxy.service.ts.tpl".to_string(), "proxy/books/books.service.ts".to_string()));
    assert_eq!(plan[7], ("Web/Angular/proxy.index.ts.tpl".to_string(), "proxy/books/index.ts".to_string()));
}

#[test]
fn removes_the_obsolete_proxy_alias_line_once() {
    let tsconfig = "{\n  \"paths\": {\n    \"@proxy/books\": [\"src/app/proxy/books/index.ts\"],\n    \"@proxy\": [\"src/app/proxy/index.ts\"]\n  }\n}\n";
    let (cleaned, changed) = remove_legacy_proxy_alias(tsconfig, "books").expect("pattern compiles");
    assert!(changed);
    assert_eq!(cleaned, "{\n  \"paths\": {\n    \"@proxy\": [\"src/app/proxy/index.ts\"]\n  }\n}\n");
    let (again, changed_again) = remove_legacy_proxy_alias(&cleaned, "books").expect("pattern compiles");
    assert!(!changed_again);
    assert_eq!(again, cleaned);
}

#[test]
fn plans_the_react_native_screens() {
    let plan = react_native_screen_plan("Category", &Mapping::new());
    assert_eq!(plan[0], ("Mobile/ReactNative/api/Api.ts.tpl".to_string(), "api/CategoryAPI.ts".to_string()));
    assert_eq!(plan[2].1, "screens/Categories/CategoriesMainScreen.tsx");
    assert_eq!(plan[5].1, "screens/Categories/CreateUpdateCategory/CreateUpdateCategoryForm.tsx");
    assert_eq!(plan.len(), 6);
}

#[test]
fn routes_keys_by_the_open_overlays() {
    let idle = TuiState { confirm_open: false, help_open: false, console_visible: false, vim_pending_g: true };
    let (s, a) = tui_step(&idle, Key::Char('?'));
    assert_eq!(a, TuiAction::HelpOpened);
    assert!(s.help_open && !s.vim_pending_g);
    assert_eq!(tui_step(&s, Key::Esc).1, TuiAction::Help);
    let confirm = TuiState { confirm_open: true, ..s };
    assert_eq!(tui_step(&confirm, Key::Char('?')), (confirm, TuiAction::Confirm));
    let console = TuiState { console_visible: true, ..idle };
    assert_eq!(tui_step(&console, Key::Char('?')).1, TuiAction::Console);
    assert_eq!(tui_step(&idle, Key::Down), (idle, TuiAction::ModalOrScreen));
}

#[test]
fn a_created_project_is_registered_once_per_directory() {
    let p = ProjectRef { project_name: "Demo".into(), project_dir: "/work/demo".into() };
    let once = register_created(&GlobalIndex { projects: vec![] }, &p);
    assert_eq!(once.projects, vec![p.clone()]);
    let renamed = ProjectRef { project_name: "Other".into(), project_dir: "/work/demo".into() };
    assert_eq!(register_created(&once, &renamed), once);
}

#[test]
fn detects_the_hosts_by_directory_name() {
    assert_eq!(detect_ui(&strings(&["Acme.Demo.Web", "Acme.Demo.Domain"]), &strings(&["Angular", "src"]), "Acme.Demo"), (true, true));
    assert_eq!(detect_ui(&strings(&["Acme.Demo.Web2"]), &strings(&["angular-old"]), "Acme.Demo"), (false, false));
}

#[test]
fn razor_maps_use_the_first_profile_else_every_mapper() {
    assert_eq!(razor_maps_plan(&vec![false, true], &vec![true, true]), (Some(1), vec![]));
    assert_eq!(razor_maps_plan(&vec![false, false], &vec![false, true]), (None, vec![1]));
}

#[test]
fn walks_and_reads_templates() {
    let files = EmbeddedFiles {
        files: vec![
            ("Web/MVC/a.tpl".to_string(), b"A".to_vec()),
            ("Web/MVC/Sub/b.tpl".to_string(), "é".as_bytes().to_vec()),
        ],
    };
    assert_eq!(embedded_walk(&files, "Web/MVC"), vec!["Web/MVC/a.tpl"]);
    assert_eq!(embedded_walk_recursive(&files, "Web/MVC"), embedded_walk_recursive(&files, "Web/MVC/"));
    assert_eq!(embedded_walk_recursive(&files, "Web/MVC"), vec!["Web/MVC/a.tpl", "Web/MVC/Sub/b.tpl"]);
    let text = read_tpl_text(&files, "Web\\MVC\\Sub\\b.tpl").expect("stored");
    assert_eq!(text.as_bytes(), "é".as_bytes());
}
