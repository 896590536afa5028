use codopsy::analysis::{resolve_scoring_thresholds, AnalyzeOptions};
use codopsy::config::{CodopsyConfig, RuleConfig};
use codopsy::types::Severity;

fn config(entries: Vec<(&str, RuleConfig)>) -> CodopsyConfig {
    CodopsyConfig {
        plugins: None,
        rules: Some(entries.into_iter().map(|(n, c)| (n.to_string(), c)).collect()),
    }
}

#[test]
fn rule_settings_are_read_by_name() {
    let c = config(vec![
        ("no-var", RuleConfig::Disabled(false)),
        ("no-eval", RuleConfig::Disabled(true)),
        ("no-console", RuleConfig::Severity(Severity::Error)),
        ("max-lines", RuleConfig::Options { severity: Some(Severity::Info), max: Some(500), props: None }),
    ]);
    assert!(c.is_rule_disabled("no-var"));
    assert!(!c.is_rule_disabled("no-eval"));
    assert!(!c.is_rule_disabled("unknown"));
    assert_eq!(c.get_rule_severity("no-console"), Some(Severity::Error));
    assert_eq!(c.get_rule_severity("max-lines"), Some(Severity::Info));
    assert_eq!(c.get_rule_severity("no-var"), None);
    assert_eq!(c.get_rule_max("max-lines"), Some(500));
    assert_eq!(c.get_rule_max("no-console"), None);
    assert_eq!(c.severity_for("no-console", Severity::Warning), Severity::Error);
    assert_eq!(c.severity_for("no-debugger", Severity::Warning), Severity::Warning);
}

#[test]
fn thresholds_follow_the_configuration() {
    let opts = AnalyzeOptions::new();
    let plain = resolve_scoring_thresholds(&CodopsyConfig::new(), &opts);
    assert_eq!(plain.cyclomatic_complexity, Some(10));
    assert_eq!(plain.cognitive_complexity, Some(15));
    let c = config(vec![
        ("max-complexity", RuleConfig::Options { severity: None, max: Some(20), props: None }),
        ("max-cognitive-complexity", RuleConfig::Disabled(false)),
    ]);
    let th = resolve_scoring_thresholds(&c, &opts);
    assert_eq!(th.cyclomatic_complexity, Some(20));
    assert_eq!(th.cognitive_complexity, None);
    assert_eq!(c.resolve_threshold("max-params", 4), Some(4));
}

#[test]
fn config_search_goes_up_to_home_then_tries_home() {
    let dirs = codopsy::config_search::config_search_dirs("/home/u/proj/src", Some("/home/u"));
    assert_eq!(dirs, vec!["/home/u/proj/src", "/home/u/proj", "/home/u", "/home/u"]);
    let dirs = codopsy::config_search::config_search_dirs("/srv/app", None);
    assert_eq!(dirs, vec!["/srv/app", "/srv", "/"]);
}

#[test]
fn the_first_configuration_found_is_used() {
    let mut near = CodopsyConfig::new();
    near.plugins = Some(vec!["near".to_string()]);
    let mut far = CodopsyConfig::new();
    far.plugins = Some(vec!["far".to_string()]);
    let c = codopsy::config_search::choose_config(vec![None, Some(near), Some(far)]);
    assert_eq!(c.plugins, Some(vec!["near".to_string()]));
    let none = codopsy::config_search::choose_config(vec![None, None]);
    assert!(none.plugins.is_none() && none.rules.is_none());
}

#[test]
fn the_home_directory_is_recognised_as_a_path() {
    let dirs = codopsy::config_search::config_search_dirs("/home/u/proj", Some("/home/u/"));
    assert_eq!(dirs, vec!["/home/u/proj", "/home/u", "/home/u/"]);
}
