use banna::templates::{
    embedded_projects_walk, embedded_walk, embedded_walk_recursive, read_project_file,
    read_tpl_text, EmbeddedFiles,
};

fn store(paths: &[(&str, &[u8])]) -> EmbeddedFiles {
    EmbeddedFiles { files: paths.iter().map(|(p, b)| (p.to_string(), b.to_vec())).collect() }
}

fn templates() -> EmbeddedFiles {
    store(&[
        ("Web/Angular/list.tpl", b"list"),
        ("Web/Angular/detail/page.tpl", b"page"),
        ("Web/Angular/readme.md", b"doc"),
        ("Web/AngularX/other.tpl", b"x"),
        ("Domain/Entity.tpl", b"{{entity}}"),
        ("Bad/latin1.tpl", &[0xff, 0xfe]),
    ])
}

#[test]
fn walks_only_direct_templates() {
    assert_eq!(embedded_walk(&templates(), "Web/Angular"), ["Web/Angular/list.tpl"]);
    assert_eq!(embedded_walk(&templates(), "Web/Angular/"), ["Web/Angular/list.tpl"]);
}

#[test]
fn walks_templates_recursively() {
    assert_eq!(
        embedded_walk_recursive(&templates(), "Web/Angular"),
        ["Web/Angular/list.tpl", "Web/Angular/detail/page.tpl"]
    );
}

#[test]
fn reads_templates_by_relative_path() {
    assert_eq!(read_tpl_text(&templates(), "Domain\\Entity.tpl").unwrap(), "{{entity}}");
    assert_eq!(
        read_tpl_text(&templates(), "Domain/Missing.tpl").unwrap_err(),
        "embedded template not found: Domain/Missing.tpl"
    );
    assert!(read_tpl_text(&templates(), "Bad/latin1.tpl").is_err());
}

#[test]
fn walks_and_reads_project_files() {
    let projects = store(&[
        ("Vanilla/react-native/NOTICE.md", b"notice"),
        ("Vanilla/react-native/src/App.js", b"app"),
        ("Vanilla/react-nativeX/x", b"x"),
    ]);
    assert_eq!(
        embedded_projects_walk(&projects, "Vanilla/react-native"),
        ["Vanilla/react-native/NOTICE.md", "Vanilla/react-native/src/App.js"]
    );
    assert_eq!(read_project_file(&projects, "Vanilla/react-native/NOTICE.md").unwrap(), b"notice");
    assert_eq!(
        read_project_file(&projects, "Vanilla/none").unwrap_err(),
        "embedded project file not found: Vanilla/none"
    );
}

#[test]
fn invalid_utf8_gives_the_decoder_error_for_either_path_form() {
    let slash = read_tpl_text(&templates(), "Bad/latin1.tpl").unwrap_err();
    let backslash = read_tpl_text(&templates(), "Bad\\latin1.tpl").unwrap_err();
    assert_eq!(slash, backslash);
    assert_eq!(slash, String::from_utf8(vec![0xff, 0xfe]).unwrap_err().to_string());
}
