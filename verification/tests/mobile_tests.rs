use banna::mapping::Mapping;
use banna::mobile::{drawer_content_text, drawer_names, drawer_navigator_text, react_native_placeholder_text};

const NAVIGATOR: &str = "import React from 'react';\nimport HeaderBackground from './HeaderBackground';\nconst Drawer = createDrawerNavigator();\n  <Drawer.Navigator>\n      <Drawer.Screen\n        name=\"HomeStack\"\n      />\n      <Drawer.Screen\n        name=\"TenantsStack\"\n      />\n  </Drawer.Navigator>\n";

#[test]
fn registers_the_stack_in_the_drawer_navigator_once() {
    let text = drawer_navigator_text(NAVIGATOR, "Book", "Books");
    assert!(text.contains("import BookStackNavigator from './BooksNavigator';\nimport HeaderBackground"));
    assert!(text.contains(
        "      <Drawer.Screen\n        name=\"BooksStack\"\n        component={BookStackNavigator}\n        options={{ header: () => null }}\n      />\n      <Drawer.Screen\n        name=\"TenantsStack\""
    ));
    assert_eq!(drawer_navigator_text(&text, "Book", "Books"), text);
}

#[test]
fn corrects_single_brace_options_of_an_existing_screen() {
    let text = "<Drawer.Screen name=\"BooksStack\" options={ header: () => null } />\nimport BookStackNavigator from './BooksNavigator';\n";
    let fixed = drawer_navigator_text(text, "Book", "Books");
    assert_eq!(
        fixed,
        "<Drawer.Screen name=\"BooksStack\" options={{ header: () => null }} />\nimport BookStackNavigator from './BooksNavigator';\n"
    );
}

#[test]
fn adds_the_drawer_menu_entry() {
    let content = "const screens = {\n  HomeStack: { label: 'Home' },\n  UsersStack: { label: 'Users' },\n};\n";
    let text = drawer_content_text(content, "Books", "BookStore");
    assert!(text.contains(
        "  BooksStack: { label: 'BookStore::Menu:Books', iconName: 'list', requiredPolicy: 'BookStore.Books' },\n  UsersStack"
    ));
    assert_eq!(drawer_content_text(&text, "Books", "BookStore"), text);
    assert_eq!(
        drawer_content_text("// empty\n", "Books", "BookStore"),
        "// empty\n\nconst screens = {\n  BooksStack: { label: 'BookStore::Menu:Books', iconName: 'list', requiredPolicy: 'BookStore.Books' },\n};\n"
    );
}

#[test]
fn reads_drawer_names_with_fallbacks() {
    let mut m = Mapping::new();
    m.insert("entity".to_string(), "Category".to_string());
    assert_eq!(drawer_names(&m), ("Category".to_string(), "Categories".to_string(), "App".to_string()));
    m.insert("entity_plural_kebab".to_string(), "categories".to_string());
    m.insert("domain_short".to_string(), "Shop".to_string());
    assert_eq!(drawer_names(&m), ("Category".to_string(), "categories".to_string(), "Shop".to_string()));
}

#[test]
fn replaces_the_template_placeholders() {
    assert_eq!(
        react_native_placeholder_text("MyCompanyName.MyProjectName app MyProjectName", "BookStore", "Acme"),
        "Acme.BookStore app BookStore"
    );
}
