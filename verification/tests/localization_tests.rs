use banna::localization::{
    entries_to_add, first_key_ignoring_case, localization_root_plan, mobile_localization_entries,
    shared_localization_entries, CultureStep,
};
use banna::mapping::Mapping;
use banna::models::Field;

fn field(name: &str, ftype: &str, navigation: Option<&str>) -> Field {
    Field {
        name: name.to_string(),
        ftype: ftype.to_string(),
        required: false,
        navigation_display: None,
        max_length: None,
        navigation: navigation.map(str::to_string),
        filterable: false,
        show_in_ui: true,
    }
}

fn book_mapping() -> Mapping {
    let mut m = Mapping::new();
    m.insert("entity_name".to_string(), "Book".to_string());
    m.insert("entity_plural".to_string(), "Books".to_string());
    m.insert("domain_short".to_string(), "BookStore".to_string());
    m
}

fn keys(v: &[(String, String)]) -> Vec<String> {
    v.iter().map(|(k, _)| k.clone()).collect()
}

#[test]
fn localization_adds_missing_angular_pager_keys_without_overwriting_existing_values() {
    let fields = vec![field("Title", "string", None)];
    let desired = shared_localization_entries(&book_mapping(), &fields);
    let existing = vec!["PagerShow".to_string()];
    let (added, report) = entries_to_add(&existing, &desired);
    let added_keys = keys(&added);
    assert!(!added_keys.contains(&"PagerShow".to_string()));
    for key in ["PagerPageSize", "PagerEntries", "PagerInfo", "PagerFirst", "PagerPrevious", "PagerNext", "PagerLast"] {
        assert!(added_keys.contains(&key.to_string()), "missing generated key: {key}");
    }
    assert!(report.contains(&"l10n= PagerShow (skip, exists)".to_string()));
    assert!(report.contains(&"l10n+ PagerInfo = Showing {0} to {1} of {2} entries".to_string()));
    assert_eq!(report.len(), desired.len());
}

#[test]
fn shared_entries_start_with_the_entity_texts_and_end_with_the_fields() {
    let fields = vec![field("Title", "string", None), field("AuthorId", "guid", Some("Acme.Authors.Author"))];
    let desired = shared_localization_entries(&book_mapping(), &fields);
    assert_eq!(desired[0], ("Permission:Books".to_string(), "Books".to_string()));
    assert_eq!(desired[1], ("Books".to_string(), "Books".to_string()));
    assert_eq!(desired[2], ("NewBook".to_string(), "New Book".to_string()));
    assert_eq!(desired[3], ("Menu:Books".to_string(), "Books".to_string()));
    assert_eq!(desired.len(), 33 + 2);
    assert_eq!(desired[33], ("Book:Title".to_string(), "Title".to_string()));
    assert_eq!(desired[34], ("Book:AuthorId".to_string(), "Author".to_string()));
}

#[test]
fn mobile_entries_fall_back_on_the_entity_and_the_pluralised_name() {
    let mut m = Mapping::new();
    m.insert("entity".to_string(), "Category".to_string());
    let fields = vec![field("ParentId", "Guid", None)];
    let desired = mobile_localization_entries(&m, &fields);
    assert_eq!(
        desired,
        vec![
            ("Menu:Categories".to_string(), "Categories".to_string()),
            ("NewCategory".to_string(), "New Category".to_string()),
            ("Permission:Categories".to_string(), "Categories".to_string()),
            ("Categories".to_string(), "Categories".to_string()),
            ("AreYouSureToDelete".to_string(), "Are you sure you want to delete this item?".to_string()),
            ("Category:ParentId".to_string(), "ParentId".to_string()),
        ]
    );
}

#[test]
fn a_second_merge_adds_nothing_and_repeated_keys_are_added_once() {
    let desired = vec![
        ("Detail".to_string(), "Detail".to_string()),
        ("Save".to_string(), "Save".to_string()),
        ("Detail".to_string(), "Other".to_string()),
    ];
    let (added, report) = entries_to_add(&Vec::new(), &desired);
    assert_eq!(added, vec![("Detail".to_string(), "Detail".to_string()), ("Save".to_string(), "Save".to_string())]);
    assert_eq!(report[2], "l10n= Detail (skip, exists)");
    let (again, _) = entries_to_add(&keys(&added), &desired);
    assert!(again.is_empty());
}

#[test]
fn finds_the_first_key_ignoring_ascii_case() {
    let keys = vec!["Culture".to_string(), "TEXTS".to_string(), "texts".to_string()];
    assert_eq!(first_key_ignoring_case(&keys, "texts"), Some(1));
    assert_eq!(first_key_ignoring_case(&keys, "missing"), None);
}

#[test]
fn root_plan_renames_culture_and_recreates_texts() {
    let keys = vec!["culture".to_string(), "texts".to_string()];
    let plan = localization_root_plan(&keys, &vec![false, false]);
    assert_eq!(plan.culture, CultureStep::Rename("culture".to_string()));
    assert_eq!(plan.texts_key, "texts");
    assert!(plan.recreate_texts);
    assert!(plan.rename_texts);

    let keys = vec!["Culture".to_string(), "Texts".to_string()];
    let plan = localization_root_plan(&keys, &vec![false, true]);
    assert_eq!(plan.culture, CultureStep::Keep);
    assert!(!plan.recreate_texts);
    assert!(!plan.rename_texts);

    let plan = localization_root_plan(&Vec::new(), &Vec::new());
    assert_eq!(plan.culture, CultureStep::InsertDefault);
    assert_eq!(plan.texts_key, "Texts");
    assert!(plan.recreate_texts);
    assert!(!plan.rename_texts);
}
