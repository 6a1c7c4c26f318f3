use banna::resource_mapping::{insert_into_js_block, vue_resource_mapping_text};

const MAPPING: &str = "module.exports = {\n    aliases: {\n        \"@node_modules\": \"./node_modules\",\n    },\n    mappings: {\n    }\n};";

#[test]
fn adds_the_missing_vue_aliases_and_mappings() {
    let (text, changed) = vue_resource_mapping_text(MAPPING);
    assert!(changed);
    assert_eq!(
        text,
        "module.exports = {\n    aliases: {\n        \"@node_modules\": \"./node_modules\",\n      \"@libs\": \"./wwwroot/libs\",\n    },\n    mappings: {\n      \"@node_modules/vue/dist/**/*\": \"@libs/vue/\",\n      \"@node_modules/vue-select/dist/**/*\": \"@libs/vue-select/\",\n    }\n};"
    );
    let (again, changed_again) = vue_resource_mapping_text(&text);
    assert!(!changed_again);
    assert_eq!(again, text);
}

#[test]
fn leaves_text_without_a_multiline_block_alone() {
    let entries = vec!["x: 1,".to_string()];
    assert_eq!(insert_into_js_block("aliases: {}\n", "aliases", &entries), ("aliases: {}\n".to_string(), false));
    assert_eq!(insert_into_js_block("nothing here\n", "aliases", &entries), ("nothing here\n".to_string(), false));
}
