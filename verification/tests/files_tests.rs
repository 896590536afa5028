use codopsy::files::{find_source_files, find_source_files_with_config, should_skip};

#[test]
fn vendored_and_generated_paths_are_skipped() {
    let none: Vec<&str> = vec![];
    assert!(should_skip("/p/node_modules/x/index.js", &none, &none));
    assert!(should_skip("/p/target/debug/a.rs", &none, &none));
    assert!(should_skip("/p/types.d.ts", &none, &none));
    assert!(should_skip("/p/package.json", &none, &none));
    assert!(!should_skip("/p/src/main.rs", &none, &none));
}

#[test]
fn extra_skips_come_from_the_configuration() {
    let dirs = vec!["/fixtures/"];
    let files = vec![".gen.go"];
    assert!(should_skip("/p/fixtures/a.rs", &dirs, &files));
    assert!(should_skip("/p/src/api.gen.go", &dirs, &files));
    assert!(!should_skip("/p/src/api.go", &dirs, &files));
}

#[test]
fn selection_keeps_known_languages_sorted() {
    let none: Vec<&str> = vec![];
    let paths = vec![
        "/p/src/z.py".to_string(),
        "/p/README.md".to_string(),
        "/p/src/a.rs".to_string(),
        "/p/node_modules/m.js".to_string(),
        "/p/src/b.ts".to_string(),
    ];
    let chosen = find_source_files_with_config(paths.clone(), &none, &none);
    assert_eq!(find_source_files(paths), chosen);
    assert_eq!(chosen, vec!["/p/src/a.rs".to_string(), "/p/src/b.ts".to_string(), "/p/src/z.py".to_string()]);
}
