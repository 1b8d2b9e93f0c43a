use rolldown_plugin_dts::utils::{
    get_declaration_path, is_declaration_file, is_json_ext, is_special_query, is_typescript_file,
    strip_bom,
};

#[test]
fn test_is_typescript_file() {
    assert!(is_typescript_file("test.ts"));
    assert!(is_typescript_file("test.tsx"));
    assert!(is_typescript_file("test.d.ts"));
    assert!(!is_typescript_file("test.js"));
    assert!(!is_typescript_file("test.jsx"));
}

#[test]
fn test_is_declaration_file() {
    assert!(is_declaration_file("test.d.ts"));
    assert!(!is_declaration_file("test.ts"));
    assert!(!is_declaration_file("test.tsx"));
}

#[test]
fn test_get_declaration_path() {
    assert_eq!(get_declaration_path("test.ts"), "test.d.ts");
    assert_eq!(get_declaration_path("test.tsx"), "test.d.ts");
    assert_eq!(get_declaration_path("test.js"), "test.js.d.ts");
}

#[test]
fn declaration_path_replaces_only_the_extension() {
    assert_eq!(get_declaration_path("src.ts/mod.ts"), "src.ts/mod.d.ts");
    assert_eq!(get_declaration_path("a.ts/b.ts"), "a.ts/b.d.ts");
    assert_eq!(get_declaration_path("a.tsx.tsx"), "a.tsx.d.ts");
    assert_eq!(get_declaration_path("a.ts.tsx"), "a.ts.d.ts");
    assert_eq!(get_declaration_path("a.tsx.ts"), "a.tsx.d.ts");
    assert_eq!(get_declaration_path("test.d.ts"), "test.d.d.ts");
    assert_eq!(get_declaration_path(".ts"), ".d.ts");
    assert_eq!(get_declaration_path(""), ".d.ts");
    assert_eq!(get_declaration_path("é.ts"), "é.d.ts");
    assert_eq!(get_declaration_path("a.ts/b"), "a.ts/b.d.ts");
}

#[test]
fn typescript_file_needs_the_whole_suffix() {
    assert!(!is_typescript_file(""));
    assert!(!is_typescript_file("ts"));
    assert!(is_typescript_file(".ts"));
    assert!(!is_typescript_file("a.ts.map"));
    assert!(!is_declaration_file("d.ts"));
    assert!(is_declaration_file(".d.ts"));
}

#[test]
fn strip_bom_drops_one_mark() {
    assert_eq!(strip_bom("\u{FEFF}let a = 1;"), "let a = 1;");
    assert_eq!(strip_bom("let a = 1;"), "let a = 1;");
    assert_eq!(strip_bom("\u{FEFF}\u{FEFF}x"), "\u{FEFF}x");
    assert_eq!(strip_bom(""), "");
    assert_eq!(strip_bom("\u{FEFF}"), "");
    assert_eq!(strip_bom("a\u{FEFF}"), "a\u{FEFF}");
}

#[test]
fn json_ext_by_suffix() {
    assert!(is_json_ext("a.json"));
    assert!(is_json_ext(".json"));
    assert!(!is_json_ext("a.json5"));
    assert!(!is_json_ext("json"));
    assert!(!is_json_ext(""));
}

#[test]
fn json_ext_with_query() {
    assert!(is_json_ext("a.json?raw"));
    assert!(is_json_ext("a.json?"));
    assert!(!is_json_ext("a.json?commonjs-proxy"));
    assert!(!is_json_ext("a.json?commonjs-external"));
    assert!(is_json_ext("a.json?commonjs-proxy2"));
    assert!(is_json_ext("a.json?commonjs-proxy&x.json?y"));
    assert!(!is_json_ext("a.json?x.json?commonjs-proxy"));
    assert!(is_json_ext("a.json?commonjs-proxy.json"));
    assert!(!is_json_ext("a.jsonx?raw"));
}

#[test]
fn special_query_words() {
    assert!(is_special_query("a.js?worker"));
    assert!(is_special_query("a.js?sharedworker"));
    assert!(is_special_query("a.js?raw"));
    assert!(is_special_query("a.js?url"));
    assert!(is_special_query("a.js?x=1&url"));
    assert!(is_special_query("a.js?url&x=1"));
    assert!(is_special_query("a.js?url=1"));
    assert!(is_special_query("a.js?worker-x"));
    assert!(is_special_query("a.js?rawé"));
}

#[test]
fn special_query_needs_a_whole_word() {
    assert!(!is_special_query("a.js"));
    assert!(!is_special_query(""));
    assert!(!is_special_query("a.js?urls"));
    assert!(!is_special_query("a.js?raw_"));
    assert!(!is_special_query("a.js?worker1"));
    assert!(!is_special_query("a.js?inline"));
    assert!(!is_special_query("url"));
    assert!(!is_special_query("a.js?"));
    assert!(!is_special_query("a.js#url"));
    assert!(is_special_query("a.js?urls&raw"));
    assert!(is_special_query("a.js?raw&urls"));
}
