//! The Lean rules run over trees written out by hand in the shape the Lean
//! grammar gives, as no Lean grammar is linked into this build.
use codopsy::rules::lean_rules::{
    check_no_axiom, check_no_debug_command, check_no_native_decide, check_no_partial_def, check_no_sorry,
    check_no_unlimited_heartbeats,
};
use codopsy::syntax::{SyntaxNode, SyntaxTree};
use codopsy::types::{Issue, Severity};

/// A one-line source and its nodes in pre-order: kind, named, parent, field
/// and byte range.
fn tree(source: &str, nodes: &[(&str, bool, Option<usize>, Option<&str>, usize, usize)]) -> SyntaxTree {
    let mut out: Vec<SyntaxNode> = Vec::new();
    for (idx, &(kind, named, parent, field, start, end)) in nodes.iter().enumerate() {
        out.push(SyntaxNode {
            kind: kind.to_string(),
            named,
            field: field.map(|f| f.to_string()),
            parent,
            children: vec![],
            start_byte: start,
            end_byte: end,
            row: 0,
            column: start,
        });
        if let Some(p) = parent {
            out[p].children.push(idx);
        }
    }
    SyntaxTree { source: source.to_string(), nodes: out }
}

fn only(issues: &[Issue]) -> (&str, usize, usize, &str) {
    assert_eq!(issues.len(), 1);
    let i = &issues[0];
    (i.rule.as_str(), i.line, i.column, i.message.as_str())
}

#[test]
fn lean_sorry_term_is_flagged() {
    let src = "theorem t : True := sorry";
    let t = tree(src, &[("module", true, None, None, 0, 25), ("theorem", true, Some(0), None, 0, 25), ("sorry", true, Some(1), None, 20, 25)]);
    assert_eq!(
        only(&check_no_sorry(&t, "a.lean", Severity::Error)),
        ("no-sorry", 1, 21, "`sorry` leaves this declaration unproved")
    );
    let proved = tree("theorem t : True := trivial", &[("module", true, None, None, 0, 27), ("theorem", true, Some(0), None, 0, 27), ("identifier", true, Some(1), None, 20, 27)]);
    assert!(check_no_sorry(&proved, "a.lean", Severity::Error).is_empty());
}

#[test]
fn lean_axiom_declaration_is_flagged() {
    let t = tree("axiom choice : True", &[("module", true, None, None, 0, 19), ("axiom", true, Some(0), None, 0, 19)]);
    assert_eq!(only(&check_no_axiom(&t, "a.lean", Severity::Error)).0, "no-axiom");
    let keyword_only = tree("axiom", &[("module", true, None, None, 0, 5), ("axiom", false, Some(0), None, 0, 5)]);
    assert!(check_no_axiom(&keyword_only, "a.lean", Severity::Error).is_empty());
}

#[test]
fn lean_native_decide_is_flagged_and_decide_is_not() {
    let t = tree("by native_decide", &[("module", true, None, None, 0, 16), ("identifier", true, Some(0), None, 3, 16)]);
    assert_eq!(only(&check_no_native_decide(&t, "a.lean", Severity::Warning)).1, 1);
    let d = tree("by decide", &[("module", true, None, None, 0, 9), ("identifier", true, Some(0), None, 3, 9)]);
    assert!(check_no_native_decide(&d, "a.lean", Severity::Warning).is_empty());
}

#[test]
fn lean_partial_modifier_is_flagged() {
    let src = "partial def f : Nat := f";
    let t = tree(src, &[("module", true, None, None, 0, 24), ("def", true, Some(0), None, 0, 24), ("decl_modifiers", true, Some(1), None, 0, 7)]);
    assert_eq!(only(&check_no_partial_def(&t, "a.lean", Severity::Warning)).0, "no-partial-def");
    let plain = tree("def f : Nat := 0", &[("module", true, None, None, 0, 16), ("def", true, Some(0), None, 0, 16)]);
    assert!(check_no_partial_def(&plain, "a.lean", Severity::Warning).is_empty());
}

#[test]
fn lean_interactive_commands_are_named_in_the_message() {
    let t = tree("#eval 1", &[("module", true, None, None, 0, 7), ("eval", true, Some(0), None, 0, 7)]);
    assert_eq!(
        only(&check_no_debug_command(&t, "a.lean", Severity::Info)).3,
        "`#eval` is an interactive command; remove it before committing"
    );
}

#[test]
fn lean_unlimited_heartbeats_only_for_zero() {
    let src = "set_option maxHeartbeats 0";
    let t = tree(src, &[
        ("module", true, None, None, 0, 26),
        ("set_option", true, Some(0), None, 0, 26),
        ("identifier", true, Some(1), Some("name"), 11, 24),
        ("number", true, Some(1), Some("value"), 25, 26),
    ]);
    assert_eq!(only(&check_no_unlimited_heartbeats(&t, "a.lean", Severity::Warning)).0, "no-unlimited-heartbeats");
    let src = "set_option maxHeartbeats 400000";
    let raised = tree(src, &[
        ("module", true, None, None, 0, 31),
        ("set_option", true, Some(0), None, 0, 31),
        ("identifier", true, Some(1), Some("name"), 11, 24),
        ("number", true, Some(1), Some("value"), 25, 31),
    ]);
    assert!(check_no_unlimited_heartbeats(&raised, "a.lean", Severity::Warning).is_empty());
}
