use codopsy::language::{all_languages, get_language, SourceLanguage};
use std::collections::HashSet;

#[test]
fn names_and_extensions_are_unique() {
    let mut names = HashSet::new();
    let mut extensions = HashSet::new();
    for lang in all_languages() {
        assert!(names.insert(lang.name()), "duplicate name {}", lang.name());
        for ext in lang.extensions() {
            assert!(extensions.insert(ext), "extension .{ext} claimed twice");
        }
    }
    assert_eq!(all_languages().len(), names.len());
}

#[test]
fn type_declaration_files_are_skipped() {
    assert_eq!(get_language("types.d.ts"), None);
    assert_eq!(get_language("types.ts"), Some(SourceLanguage::TypeScript));
}

#[test]
fn extension_lookup_ignores_case() {
    assert_eq!(get_language("src/Main.RS"), Some(SourceLanguage::Rust));
    assert_eq!(get_language("App.TSX"), Some(SourceLanguage::Tsx));
    assert_eq!(get_language("lib/types.D.TS"), None);
}

#[test]
fn unknown_or_missing_extension_has_no_language() {
    assert_eq!(get_language("README"), None);
    assert_eq!(get_language("notes.txt"), None);
    assert_eq!(get_language("archive.tar.gz"), None);
}

#[test]
fn languages_resolve_by_their_extensions() {
    assert_eq!(get_language("a.go"), Some(SourceLanguage::Go));
    assert_eq!(get_language("a.py"), Some(SourceLanguage::Python));
    assert_eq!(get_language("a.hpp"), Some(SourceLanguage::Cpp));
    assert_eq!(get_language("a.c"), Some(SourceLanguage::C));
    assert_eq!(get_language("a.ex"), Some(SourceLanguage::Elixir));
    assert_eq!(get_language("x/y.z/a.mjs"), Some(SourceLanguage::JavaScript));
}

#[test]
fn every_language_has_a_name() {
    assert_eq!(SourceLanguage::Rust.name(), "Rust");
    assert!(all_languages().iter().all(|l| !l.name().is_empty()));
}

#[test]
fn linked_grammars_load_and_extensions_round_trip() {
    let mut linked = 0;
    for lang in all_languages() {
        if let Some(grammar) = lang.tree_sitter_language() {
            let mut parser = tree_sitter::Parser::new();
            assert!(parser.set_language(&grammar).is_ok(), "grammar for {} failed to load", lang.name());
            linked += 1;
        }
        for ext in lang.extensions() {
            assert_eq!(get_language(&format!("file.{ext}")), Some(lang));
        }
    }
    assert_eq!(linked, 26);
}
