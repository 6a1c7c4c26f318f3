use banna::models::{AbpTheme, BootstrapOverride, EntityRecord, GlobalIndex, MobileUi, ProjectRecord, UiTarget};
use banna::projects::{choose_project_name, remove_history_entity};

#[test]
fn adds_lists_and_removes_a_project() {
    let mut index = GlobalIndex { projects: Vec::new() };
    let project = index.register("Demo".into(), "/work/demo".into()).expect("project should be added");
    assert_eq!(index.list(), vec![project.clone()]);

    let removed = index.unregister("Demo").expect("project should be removed");
    assert_eq!(removed.project_name, "Demo");
    assert!(index.list().is_empty());
}

#[test]
fn rejects_duplicate_names_and_paths() {
    let mut index = GlobalIndex { projects: Vec::new() };
    index.register("Demo".into(), "/work/first".into()).expect("first project should be added");
    let error = index.register("Demo".into(), "/work/second".into()).expect_err("duplicate should fail");
    assert_eq!(error, "a project named 'Demo' already exists");
    let error = index.register("Other".into(), "/work/first".into()).expect_err("duplicate path");
    assert_eq!(error, "project path is already registered: /work/first");
    assert_eq!(index.projects.len(), 1);
}

#[test]
fn register_then_unregister_restores_the_index() {
    let mut index = GlobalIndex { projects: Vec::new() };
    index.register("A".into(), "/a".into()).unwrap();
    index.register("B".into(), "/b".into()).unwrap();
    let before = index.clone();
    index.register("C".into(), "/c".into()).unwrap();
    let removed = index.unregister("C").unwrap();
    assert_eq!(removed.project_dir, "/c");
    assert_eq!(index, before);
    assert_eq!(index.unregister("Z").unwrap_err(), "project not found: Z");
    assert_eq!(index, before);
}

#[test]
fn project_names_come_from_the_option_or_the_directory() {
    assert_eq!(choose_project_name(Some("Demo"), Some("dir")).unwrap(), "Demo");
    assert_eq!(choose_project_name(Some("  "), Some("dir")).unwrap(), "dir");
    assert_eq!(choose_project_name(None, Some("dir")).unwrap(), "dir");
    assert_eq!(
        choose_project_name(None, None).unwrap_err(),
        "project name could not be inferred; pass --name"
    );
}

fn entity(name: &str) -> EntityRecord {
    EntityRecord {
        domain: "Acme".into(),
        name: name.into(),
        namespace: "Acme.X".into(),
        fields: Vec::new(),
        ui_target: UiTarget::Vue,
        generated_at: "2024-01-01T00:00:00Z".into(),
    }
}

#[test]
fn removes_an_entity_from_history() {
    let record = ProjectRecord {
        project_name: "Demo".into(),
        project_dir: "/demo".into(),
        theme: AbpTheme::Basic,
        bootstrap_override: BootstrapOverride::NoOverride,
        mobile_ui: MobileUi::NoMobile,
        entities: vec![entity("Book"), entity("Author"), entity("Book")],
    };
    let (rest, removed) = remove_history_entity(Some(record.clone()), "/demo", "Book").unwrap();
    assert_eq!(removed.name, "Book");
    let names: Vec<&str> = rest.entities.iter().map(|e| e.name.as_str()).collect();
    assert_eq!(names, ["Author", "Book"]);
    assert_eq!(
        remove_history_entity(Some(record), "/demo", "Shelf").unwrap_err(),
        "entity not found in project history: Shelf"
    );
    assert_eq!(remove_history_entity(None, "/demo", "Book").unwrap_err(), "project history not found: /demo");
}

#[test]
fn removing_a_history_entity_keeps_the_project_settings() {
    let record = ProjectRecord {
        project_name: "Demo".into(),
        project_dir: "/demo".into(),
        theme: AbpTheme::LeptonX,
        bootstrap_override: BootstrapOverride::Nord,
        mobile_ui: MobileUi::ReactNative,
        entities: vec![entity("Book"), entity("Author")],
    };
    let (rest, _) = remove_history_entity(Some(record), "/demo", "Author").unwrap();
    assert_eq!(rest.theme, AbpTheme::LeptonX);
    assert_eq!(rest.bootstrap_override, BootstrapOverride::Nord);
    assert_eq!(rest.mobile_ui, MobileUi::ReactNative);
    assert_eq!(rest.project_name, "Demo");
    assert_eq!(rest.entities.len(), 1);
}
