//! Per-project rule configuration (`.codopsyrc.json`, read by the caller).
use vstd::prelude::*;
use crate::text::str_eq;
use crate::types::Severity;

verus! {

/// How one rule is configured.
#[derive(Debug, Clone, Copy, PartialEq, Eq, Structural)]
pub enum RuleConfig {
    /// `false` disables the rule; `true` leaves it as it is.
    Disabled(bool),
    /// Overrides the rule's severity.
    Severity(Severity),
    /// Severity, threshold and an extra flag, each optional.
    Options { severity: Option<Severity>, max: Option<usize>, props: Option<bool> },
}

/// The project configuration: rule settings keyed by rule name.
#[derive(Debug)]
pub struct CodopsyConfig {
    pub plugins: Option<Vec<String>>,
    /// `(rule name, setting)`; a name occurs at most once.
    pub rules: Option<Vec<(String, RuleConfig)>>,
}

/// The setting of the first entry named `name`.
pub open spec fn lookup(entries: Seq<(String, RuleConfig)>, name: Seq<char>) -> Option<RuleConfig>
    decreases entries.len(),
{
    if entries.len() == 0 {
        None
    } else if entries[0].0@ == name {
        Some(entries[0].1)
    } else {
        lookup(entries.drop_first(), name)
    }
}

impl CodopsyConfig {
    /// The configuration with no settings.
    pub fn new() -> (c: CodopsyConfig)
        ensures
            c.plugins is None,
            c.rules is None,
    {
        CodopsyConfig { plugins: None, rules: None }
    }

    /// The setting of rule `name`, if configured.
    pub open spec fn setting(&self, name: Seq<char>) -> Option<RuleConfig> {
        match self.rules {
            Some(r) => lookup(r@, name),
            None => None,
        }
    }

    pub open spec fn spec_disabled(&self, name: Seq<char>) -> bool {
        self.setting(name) == Some(RuleConfig::Disabled(false))
    }

    pub open spec fn spec_severity(&self, name: Seq<char>) -> Option<Severity> {
        match self.setting(name) {
            Some(RuleConfig::Severity(s)) => Some(s),
            Some(RuleConfig::Options { severity: Some(s), .. }) => Some(s),
            _ => None,
        }
    }

    pub open spec fn spec_max(&self, name: Seq<char>) -> Option<usize> {
        match self.setting(name) {
            Some(RuleConfig::Options { max: Some(m), .. }) => Some(m),
            _ => None,
        }
    }

    /// The severity a rule reports with: the configured one, else `default`.
    pub open spec fn severity_or(&self, name: Seq<char>, default: Severity) -> Severity {
        match self.spec_severity(name) {
            Some(s) => s,
            None => default,
        }
    }

    /// The threshold of a threshold rule: `None` when disabled, else the
    /// configured maximum, else `default`.
    pub open spec fn spec_threshold(&self, name: Seq<char>, default: usize) -> Option<usize> {
        if self.spec_disabled(name) {
            None
        } else {
            match self.spec_max(name) {
                Some(m) => Some(m),
                None => Some(default),
            }
        }
    }

    fn find(&self, name: &str) -> (r: Option<RuleConfig>)
        ensures
            r == self.setting(name@),
    {
        match &self.rules {
            None => None,
            Some(entries) => {
                let mut k: usize = 0;
                assert(entries@.skip(0) =~= entries@);
                while k < entries.len()
                    invariant
                        self.setting(name@) == lookup(entries@, name@),
                        k <= entries@.len(),
                        lookup(entries@, name@) == lookup(entries@.skip(k as int), name@),
                    decreases entries@.len() - k,
                {
                    assert(entries@.skip(k as int).drop_first() =~= entries@.skip(k + 1));
                    assert(entries@.skip(k as int)[0] == entries@[k as int]);
                    if str_eq(entries[k].0.as_str(), name) {
                        assert(entries@.skip(k as int).len() > 0);
                        assert(lookup(entries@.skip(k as int), name@) == Some(entries@[k as int].1));
                        return Some(entries[k].1);
                    }
                    k = k + 1;
                }
                assert(entries@.skip(k as int) =~= Seq::<(String, RuleConfig)>::empty());
                None
            },
        }
    }

    /// Whether rule `name` is switched off (configured as `false`).
    pub fn is_rule_disabled(&self, name: &str) -> (r: bool)
        ensures
            r == self.spec_disabled(name@),
    {
        match self.find(name) {
            Some(RuleConfig::Disabled(false)) => true,
            _ => false,
        }
    }

    /// The configured severity of rule `name`.
    pub fn get_rule_severity(&self, name: &str) -> (r: Option<Severity>)
        ensures
            r == self.spec_severity(name@),
    {
        match self.find(name) {
            Some(RuleConfig::Severity(s)) => Some(s),
            Some(RuleConfig::Options { severity: Some(s), .. }) => Some(s),
            _ => None,
        }
    }

    /// The configured maximum of threshold rule `name`.
    pub fn get_rule_max(&self, name: &str) -> (r: Option<usize>)
        ensures
            r == self.spec_max(name@),
    {
        match self.find(name) {
            Some(RuleConfig::Options { max: Some(m), .. }) => Some(m),
            _ => None,
        }
    }

    /// The threshold that governs rule `name`: `None` when the rule is
    /// disabled, else its configured maximum, else `default`.
    pub fn resolve_threshold(&self, name: &str, default: usize) -> (r: Option<usize>)
        ensures
            r == self.spec_threshold(name@, default),
    {
        if self.is_rule_disabled(name) {
            None
        } else {
            match self.get_rule_max(name) {
                Some(m) => Some(m),
                None => Some(default),
            }
        }
    }

    /// The severity rule `name` reports with.
    pub fn severity_for(&self, name: &str, default: Severity) -> (r: Severity)
        ensures
            r == self.severity_or(name@, default),
    {
        match self.get_rule_severity(name) {
            Some(s) => s,
            None => default,
        }
    }
}

} // verus!
