use codopsy::grammar::parse_source;
use codopsy::language::SourceLanguage;

#[test]
fn parses_javascript_into_a_tree() {
    let t = parse_source("function foo() { return 1; }", SourceLanguage::JavaScript).unwrap();
    assert!(t.nodes.len() > 3);
    assert_eq!(t.nodes[0].kind, "program");
    let f = t.nodes[0].children[0];
    assert_eq!(t.nodes[f].kind, "function_declaration");
    let name = t.field_child(f, "name").unwrap();
    assert_eq!(t.node_text(name), "foo");
}

#[test]
fn the_copied_tree_keeps_parents_children_fields_and_positions() {
    let t = parse_source("let x = 1;\nlet y = 2;", SourceLanguage::JavaScript).unwrap();
    assert_eq!(t.nodes[0].parent, None);
    assert_eq!(t.nodes[0].children.len(), 2);
    let second = t.nodes[0].children[1];
    assert_eq!(t.nodes[second].kind, "lexical_declaration");
    assert_eq!(t.nodes[second].parent, Some(0));
    assert_eq!((t.nodes[second].row, t.nodes[second].column), (1, 0));
    assert_eq!(t.nodes[second].start_byte, 11);
    for (i, n) in t.nodes.iter().enumerate() {
        for &c in &n.children {
            assert!(c > i);
            assert_eq!(t.nodes[c].parent, Some(i));
        }
    }
    let d = t.nodes[second].children[1];
    assert_eq!(t.nodes[d].kind, "variable_declarator");
    let v = t.field_child(d, "value").unwrap();
    assert_eq!(t.node_text(v), "2");
    assert_eq!(t.nodes[v].field.as_deref(), Some("value"));
}

#[test]
fn every_language_with_a_grammar_gets_a_tree() {
    for lang in codopsy::language::all_languages() {
        let t = parse_source("", lang);
        assert_eq!(t.is_some(), lang.tree_sitter_language().is_some());
    }
}
