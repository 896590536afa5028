use codopsy::classify::is_nesting_construct;
use codopsy::language::{all_languages, get_language, SourceLanguage};

#[test]
fn the_language_table_holds_each_language_once() {
    let all = all_languages();
    for (i, a) in all.iter().enumerate() {
        for b in &all[i + 1..] {
            assert_ne!(a, b);
            assert_ne!(a.name(), b.name());
        }
    }
}

#[test]
fn each_extension_leads_back_to_its_language() {
    for lang in all_languages() {
        let exts = lang.extensions();
        for (i, e) in exts.iter().enumerate() {
            assert!(!e.is_empty() && !e.contains('.'));
            assert!(!exts[i + 1..].contains(e));
            assert_eq!(get_language(&format!("dir/file.{e}")), Some(lang));
            assert_eq!(get_language(&format!("src/FILE.{}", e.to_uppercase())), Some(lang));
        }
    }
}

#[test]
fn only_lean_nests_in_match_and_induction() {
    assert!(is_nesting_construct("match", SourceLanguage::Lean));
    assert!(is_nesting_construct("induction", SourceLanguage::Lean));
    assert!(!is_nesting_construct("for_statement", SourceLanguage::Lean));
    assert!(!is_nesting_construct("match", SourceLanguage::Rust));
    assert!(!is_nesting_construct("induction", SourceLanguage::Go));
    assert!(is_nesting_construct("match_expression", SourceLanguage::Rust));
    assert!(is_nesting_construct("case", SourceLanguage::Gleam));
}
