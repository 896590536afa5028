//! Analyzing files: complexity, lint issues and complexity-threshold
//! issues of one file, and the summary and score of a whole run.
use vstd::prelude::*;
use crate::complexity::{
    UnitView, every_function_has_a_line_and_at_least_one_path, sat, sat_add, analyze_complexity, cognitive_of, cyclomatic_of, fc_views, file_units, seq_max,
};
use crate::config::CodopsyConfig;
use crate::defaults::{MAX_COGNITIVE_COMPLEXITY, MAX_COMPLEXITY};
use crate::grammar::{copies, grammar_nodes, has_grammar, parse_source};
use crate::language::{SourceLanguage, get_language, spec_get_language};
use crate::lint::{IssueView, issue_views, lint_file, lint_issues};
use crate::coverage::{is_mostly_unparsed, mostly_unparsed};
use crate::lint_laws::{all_in_file, every_issue_names_its_file_at_a_position, lemma_in_file_concat};
use crate::scoring::{
    calculate_file_score, complexity_halves, spec_file_score, excess, functions_within_thresholds_keep_the_full_complexity_score,
    lemma_penalty_positive,
};
use crate::defaults::WEIGHT_COMPLEXITY;
use crate::syntax::SyntaxTree;
use crate::text::{decimal, push_decimal};
use crate::types::{
    ComplexityResult, FileAnalysis, FileScore, FunctionComplexity, Grade, GradeDistribution, Issue,
    MaxComplexityInfo, ProjectScore, ScoringThresholds, Severity, SeverityCounts, spec_to_grade,
    to_grade,
};
use crate::defaults::WEIGHT_ISSUES;

verus! {

/// The complexity limits given on the command line.
pub struct AnalyzeOptions {
    pub max_complexity: usize,
    pub max_cognitive_complexity: usize,
}

impl AnalyzeOptions {
    /// The default limits: cyclomatic 10, cognitive 15.
    pub fn new() -> (o: AnalyzeOptions)
        ensures
            o.max_complexity == MAX_COMPLEXITY,
            o.max_cognitive_complexity == MAX_COGNITIVE_COMPLEXITY,
    {
        AnalyzeOptions {
            max_complexity: MAX_COMPLEXITY,
            max_cognitive_complexity: MAX_COGNITIVE_COMPLEXITY,
        }
    }
}

/// The thresholds that govern both the complexity issues and the
/// complexity score: each rule's configured maximum, else the option's
/// limit; `None` when the rule is disabled.
pub fn resolve_scoring_thresholds(config: &CodopsyConfig, opts: &AnalyzeOptions) -> (r: ScoringThresholds)
    ensures
        r.cyclomatic_complexity == config.spec_threshold("max-complexity"@, opts.max_complexity),
        r.cognitive_complexity == config.spec_threshold(
            "max-cognitive-complexity"@,
            opts.max_cognitive_complexity,
        ),
{
    ScoringThresholds {
        cyclomatic_complexity: config.resolve_threshold("max-complexity", opts.max_complexity),
        cognitive_complexity: config.resolve_threshold(
            "max-cognitive-complexity",
            opts.max_cognitive_complexity,
        ),
    }
}

/// Which complexity figure a threshold check reads.
#[derive(Debug, Clone, Copy, PartialEq, Eq, Structural)]
pub enum Measure {
    Cyclomatic,
    Cognitive,
}

pub open spec fn measure_rule(m: Measure) -> Seq<char> {
    match m {
        Measure::Cyclomatic => "max-complexity"@,
        Measure::Cognitive => "max-cognitive-complexity"@,
    }
}

pub open spec fn measure_word(m: Measure) -> Seq<char> {
    match m {
        Measure::Cyclomatic => "cyclomatic"@,
        Measure::Cognitive => "cognitive"@,
    }
}

pub open spec fn measure_of(u: UnitView, m: Measure) -> int {
    match m {
        Measure::Cyclomatic => u.2,
        Measure::Cognitive => u.3,
    }
}

/// The issues of the functions of `units` whose figure exceeds `threshold`,
/// in order, at column 1 of each function's line.
pub open spec fn complexity_issues(
    file: Seq<char>,
    units: Seq<UnitView>,
    threshold: int,
    sev: Severity,
    m: Measure,
) -> Seq<IssueView>
    decreases units.len(),
{
    if units.len() == 0 {
        seq![]
    } else {
        let u = units.last();
        complexity_issues(file, units.drop_last(), threshold, sev, m) + if measure_of(u, m) > threshold {
            seq![
                (
                    file,
                    u.1,
                    1int,
                    sev,
                    measure_rule(m),
                    "Function \""@ + u.0 + "\" has a "@ + measure_word(m) + " complexity of "@
                        + decimal(measure_of(u, m) as nat) + " (threshold: "@ + decimal(
                        threshold as nat,
                    ) + ")"@,
                ),
            ]
        } else {
            seq![]
        }
    }
}

/// The issues a complexity threshold adds: none without a threshold, else
/// at the rule's configured severity or `Warning`.
pub open spec fn threshold_issues_of(
    file: Seq<char>,
    units: Seq<UnitView>,
    config: CodopsyConfig,
    threshold: Option<usize>,
    m: Measure,
) -> Seq<IssueView> {
    match threshold {
        Some(t) => complexity_issues(
            file,
            units,
            t as int,
            config.severity_or(measure_rule(m), Severity::Warning),
            m,
        ),
        None => seq![],
    }
}

proof fn lemma_complexity_issues_mark_the_excess(
    file: Seq<char>,
    units: Seq<UnitView>,
    threshold: int,
    sev: Severity,
    m: Measure,
)
    ensures
        complexity_issues(file, units, threshold, sev, m).len() == 0 <==> forall|k: int|
            0 <= k < units.len() ==> measure_of(#[trigger] units[k], m) <= threshold,
    decreases units.len(),
{
    if units.len() > 0 {
        let prev = units.drop_last();
        lemma_complexity_issues_mark_the_excess(file, prev, threshold, sev, m);
        assert(units.last() == units[units.len() - 1]);
        if forall|k: int| 0 <= k < units.len() ==> measure_of(#[trigger] units[k], m) <= threshold {
            assert forall|k: int| 0 <= k < prev.len() implies measure_of(#[trigger] prev[k], m) <= threshold by {
                assert(prev[k] == units[k]);
            }
            assert(measure_of(units[units.len() - 1], m) <= threshold);
        }
        if complexity_issues(file, units, threshold, sev, m).len() == 0 {
            assert forall|k: int| 0 <= k < units.len() implies measure_of(#[trigger] units[k], m) <= threshold by {
                if k < units.len() - 1 {
                    assert(prev[k] == units[k]);
                }
            }
        }
    }
}

/// The complexity thresholds of a run, as its score uses them.
pub open spec fn run_thresholds(config: CodopsyConfig, opts: AnalyzeOptions) -> ScoringThresholds {
    ScoringThresholds {
        cyclomatic_complexity: config.spec_threshold("max-complexity"@, opts.max_complexity),
        cognitive_complexity: config.spec_threshold("max-cognitive-complexity"@, opts.max_cognitive_complexity),
    }
}

/// The complexity issues and the complexity score of a run go by the same
/// thresholds: a file keeps the whole complexity component of its score
/// exactly when its functions raise neither a `max-complexity` nor a
/// `max-cognitive-complexity` issue.
pub proof fn the_complexity_score_is_full_exactly_without_complexity_issues(
    file: Seq<char>,
    units: Seq<UnitView>,
    config: CodopsyConfig,
    opts: AnalyzeOptions,
)
    ensures
        complexity_halves(units, run_thresholds(config, opts)) == 2 * WEIGHT_COMPLEXITY <==> (threshold_issues_of(
            file,
            units,
            config,
            config.spec_threshold("max-complexity"@, opts.max_complexity),
            Measure::Cyclomatic,
        ).len() == 0 && threshold_issues_of(
            file,
            units,
            config,
            config.spec_threshold("max-cognitive-complexity"@, opts.max_cognitive_complexity),
            Measure::Cognitive,
        ).len() == 0),
{
    let th = run_thresholds(config, opts);
    let cc_sev = config.severity_or(measure_rule(Measure::Cyclomatic), Severity::Warning);
    let cog_sev = config.severity_or(measure_rule(Measure::Cognitive), Severity::Warning);
    if let Some(t) = th.cyclomatic_complexity {
        lemma_complexity_issues_mark_the_excess(file, units, t as int, cc_sev, Measure::Cyclomatic);
    }
    if let Some(t) = th.cognitive_complexity {
        lemma_complexity_issues_mark_the_excess(file, units, t as int, cog_sev, Measure::Cognitive);
    }
    let none_over = forall|k: int| 0 <= k < units.len() ==> excess((#[trigger] units[k]).2, th.cyclomatic_complexity)
        == 0 && excess(units[k].3, th.cognitive_complexity) == 0;
    if none_over {
        functions_within_thresholds_keep_the_full_complexity_score(units, th);
        if let Some(t) = th.cyclomatic_complexity {
            assert forall|k: int| 0 <= k < units.len() implies measure_of(#[trigger] units[k], Measure::Cyclomatic)
                <= t by {
                assert(excess(units[k].2, th.cyclomatic_complexity) == 0);
            }
        }
        if let Some(t) = th.cognitive_complexity {
            assert forall|k: int| 0 <= k < units.len() implies measure_of(#[trigger] units[k], Measure::Cognitive)
                <= t by {
                assert(excess(units[k].3, th.cognitive_complexity) == 0);
            }
        }
    } else {
        let k = choose|k: int| 0 <= k < units.len() && !(excess((#[trigger] units[k]).2, th.cyclomatic_complexity)
            == 0 && excess(units[k].3, th.cognitive_complexity) == 0);
        assert(excess(units[k].2, th.cyclomatic_complexity) >= 0);
        assert(excess(units[k].3, th.cognitive_complexity) >= 0);
        lemma_penalty_positive(units, th, k);
        if excess(units[k].2, th.cyclomatic_complexity) > 0 {
            assert(measure_of(units[k], Measure::Cyclomatic) > th.cyclomatic_complexity.unwrap());
        } else {
            assert(measure_of(units[k], Measure::Cognitive) > th.cognitive_complexity.unwrap());
        }
    }
}

fn complexity_message(name: &str, m: Measure, value: usize, threshold: usize) -> (r: String)
    ensures
        r@ == "Function \""@ + name@ + "\" has a "@ + measure_word(m) + " complexity of "@ + decimal(
            value as nat,
        ) + " (threshold: "@ + decimal(threshold as nat) + ")"@,
{
    let mut s = "Function \"".to_owned();
    s.append(name);
    s.append("\" has a ");
    match m {
        Measure::Cyclomatic => s.append("cyclomatic"),
        Measure::Cognitive => s.append("cognitive"),
    }
    s.append(" complexity of ");
    push_decimal(&mut s, value);
    s.append(" (threshold: ");
    push_decimal(&mut s, threshold);
    s.append(")");
    s
}

fn check_measure(analysis: &mut FileAnalysis, config: &CodopsyConfig, threshold: Option<usize>, m: Measure)
    ensures
        final(analysis).file == old(analysis).file,
        final(analysis).complexity == old(analysis).complexity,
        final(analysis).score == old(analysis).score,
        final(analysis).unanalyzed == old(analysis).unanalyzed,
        issue_views(final(analysis).issues@) == issue_views(old(analysis).issues@) + threshold_issues_of(
            old(analysis).file@,
            fc_views(old(analysis).complexity.functions@),
            *config,
            threshold,
            m,
        ),
{
    let t = match threshold {
        Some(t) => t,
        None => {
            return;
        },
    };
    let rule = match m {
        Measure::Cyclomatic => "max-complexity",
        Measure::Cognitive => "max-cognitive-complexity",
    };
    let severity = config.severity_for(rule, Severity::Warning);
    let ghost start = issue_views(analysis.issues@);
    let ghost units = fc_views(analysis.complexity.functions@);
    let n = analysis.complexity.functions.len();
    let mut k: usize = 0;
    while k < n
        invariant
            n == analysis.complexity.functions@.len(),
            units == fc_views(analysis.complexity.functions@),
            k <= n,
            severity == config.severity_or(measure_rule(m), Severity::Warning),
            rule@ == measure_rule(m),
            issue_views(analysis.issues@) == start + complexity_issues(
                analysis.file@,
                units.take(k as int),
                t as int,
                severity,
                m,
            ),
            analysis.file == old(analysis).file,
            analysis.complexity == old(analysis).complexity,
            analysis.score == old(analysis).score,
            analysis.unanalyzed == old(analysis).unanalyzed,
        decreases n - k,
    {
        assert(units.take(k + 1).drop_last() =~= units.take(k as int));
        assert(units.take(k + 1).last() == crate::complexity::fc_view(
            analysis.complexity.functions@[k as int],
        ));
        let ghost u = units.take(k + 1).last();
        let value = match m {
            Measure::Cyclomatic => analysis.complexity.functions[k].complexity,
            Measure::Cognitive => analysis.complexity.functions[k].cognitive_complexity,
        };
        assert(value == measure_of(u, m));
        let ghost before = issue_views(analysis.issues@);
        let ghost added: Seq<IssueView> = if measure_of(u, m) > t {
            seq![
                (
                    analysis.file@,
                    u.1,
                    1int,
                    severity,
                    measure_rule(m),
                    "Function \""@ + u.0 + "\" has a "@ + measure_word(m) + " complexity of "@
                        + decimal(measure_of(u, m) as nat) + " (threshold: "@ + decimal(t as nat)
                        + ")"@,
                ),
            ]
        } else {
            seq![]
        };
        assert(complexity_issues(analysis.file@, units.take(k + 1), t as int, severity, m)
            == complexity_issues(analysis.file@, units.take(k as int), t as int, severity, m) + added);
        if value > t {
            let issue = Issue {
                file: analysis.file.clone(),
                line: analysis.complexity.functions[k].line,
                column: 1,
                severity,
                rule: rule.to_owned(),
                message: complexity_message(
                    analysis.complexity.functions[k].name.as_str(),
                    m,
                    value,
                    t,
                ),
            };
            analysis.issues.push(issue);
            assert(issue_views(analysis.issues@) =~= before + added);
        } else {
            assert(issue_views(analysis.issues@) =~= before + added);
        }
        k = k + 1;
    }
    assert(units.take(k as int) =~= units);
}

/// Add a `max-complexity` issue for each function whose cyclomatic
/// complexity exceeds `threshold`.
pub fn check_max_complexity(analysis: &mut FileAnalysis, config: &CodopsyConfig, threshold: Option<usize>)
    ensures
        final(analysis).file == old(analysis).file,
        final(analysis).complexity == old(analysis).complexity,
        final(analysis).score == old(analysis).score,
        final(analysis).unanalyzed == old(analysis).unanalyzed,
        issue_views(final(analysis).issues@) == issue_views(old(analysis).issues@) + threshold_issues_of(
            old(analysis).file@,
            fc_views(old(analysis).complexity.functions@),
            *config,
            threshold,
            Measure::Cyclomatic,
        ),
{
    check_measure(analysis, config, threshold, Measure::Cyclomatic)
}

/// Add a `max-cognitive-complexity` issue for each function whose cognitive
/// complexity exceeds `threshold`.
pub fn check_max_cognitive_complexity(
    analysis: &mut FileAnalysis,
    config: &CodopsyConfig,
    threshold: Option<usize>,
)
    ensures
        final(analysis).file == old(analysis).file,
        final(analysis).complexity == old(analysis).complexity,
        final(analysis).score == old(analysis).score,
        final(analysis).unanalyzed == old(analysis).unanalyzed,
        issue_views(final(analysis).issues@) == issue_views(old(analysis).issues@) + threshold_issues_of(
            old(analysis).file@,
            fc_views(old(analysis).complexity.functions@),
            *config,
            threshold,
            Measure::Cognitive,
        ),
{
    check_measure(analysis, config, threshold, Measure::Cognitive)
}

/// Whether `r` is the analysis of file `file` parsed as tree `t` in language
/// `lang`: its units with their complexity, the largest figures among them,
/// its lint issues, and whether the grammar failed on so much of it that it
/// is left unanalyzed.
pub open spec fn tree_analysis(
    r: FileAnalysis,
    t: SyntaxTree,
    file: Seq<char>,
    config: CodopsyConfig,
    lang: SourceLanguage,
) -> bool {
    &&& fc_views(r.complexity.functions@) == file_units(t, lang)
    &&& r.complexity.cyclomatic == seq_max(cyclomatic_of(file_units(t, lang)))
    &&& r.complexity.cognitive == seq_max(cognitive_of(file_units(t, lang)))
    &&& issue_views(r.issues@) == lint_issues(t, file, config, lang)
    &&& r.unanalyzed == mostly_unparsed(t)
}

/// The analysis of a parsed file (see [`tree_analysis`]).
pub fn analyze_tree(file_path: &str, t: &SyntaxTree, config: &CodopsyConfig, language: SourceLanguage) -> (r: FileAnalysis)
    requires
        t.wf(),
    ensures
        r.file@ == file_path@,
        r.score is None,
        tree_analysis(r, *t, file_path@, *config, language),
{
    FileAnalysis {
        file: file_path.to_owned(),
        complexity: analyze_complexity(t, language),
        issues: lint_file(file_path, t, config, language),
        score: None,
        unanalyzed: is_mostly_unparsed(t),
    }
}

fn empty_complexity() -> (r: ComplexityResult)
    ensures
        r.cyclomatic == 0,
        r.cognitive == 0,
        r.functions@.len() == 0,
{
    ComplexityResult { cyclomatic: 0, cognitive: 0, functions: Vec::new() }
}

/// Whether `r` records that the grammar built no tree for file `file`:
/// unanalyzed, no functions, both totals 0, and one `parse-error` issue.
pub open spec fn parse_failure(r: FileAnalysis, file: Seq<char>) -> bool {
    &&& r.unanalyzed
    &&& r.complexity.functions@.len() == 0
    &&& r.complexity.cyclomatic == 0
    &&& r.complexity.cognitive == 0
    &&& issue_views(r.issues@) == seq![
        (file, 1int, 1int, Severity::Error, "parse-error"@, "Failed to parse file"@),
    ]
}

/// Whether `r` is an analysis of the file at `file` with text `source`.
///
/// A file whose language is unknown has nothing to analyze: no functions,
/// totals 0, no issues. A file of a language without a grammar here records
/// a parse failure. Otherwise `r` is the analysis of the plain copy of the
/// tree that the language's grammar builds for `source`.
pub open spec fn source_analysis(
    r: FileAnalysis,
    file: Seq<char>,
    source: Seq<char>,
    config: CodopsyConfig,
) -> bool {
    &&& r.file@ == file
    &&& r.score is None
    &&& match spec_get_language(file) {
        None => r.complexity.functions@.len() == 0 && r.complexity.cyclomatic == 0
            && r.complexity.cognitive == 0 && r.issues@.len() == 0 && !r.unanalyzed,
        Some(lang) => if !has_grammar(lang) {
            parse_failure(r, file)
        } else {
            exists|t: SyntaxTree|
                t.wf() && copies(t, grammar_nodes(source, lang), source) && tree_analysis(r, t, file, config, lang)
        },
    }
}

/// The analysis of a file's source text (see [`source_analysis`]).
pub fn analyze_source(file_path: &str, source: &str, config: &CodopsyConfig) -> (r: FileAnalysis)
    ensures
        source_analysis(r, file_path@, source@, *config),
{
    let language = match get_language(file_path) {
        Some(l) => l,
        None => {
            return FileAnalysis {
                file: file_path.to_owned(),
                complexity: empty_complexity(),
                issues: Vec::new(),
                score: None,
                unanalyzed: false,
            };
        },
    };
    let parsed = parse_source(source, language);
    let r = analyze_parsed(file_path, language, &parsed, config);
    proof {
        if let Some(t) = parsed {
            assert(t.wf() && copies(t, grammar_nodes(source@, language), source@) && tree_analysis(
                r,
                t,
                file_path@,
                *config,
                language,
            ));
        }
    }
    r
}

/// The analysis of a file of a known language, given what the grammar made
/// of its text: a parse failure when it built no tree, else the analysis of
/// the tree.
pub fn analyze_parsed(
    file_path: &str,
    language: SourceLanguage,
    parsed: &Option<SyntaxTree>,
    config: &CodopsyConfig,
) -> (r: FileAnalysis)
    requires
        parsed matches Some(t) ==> t.wf(),
    ensures
        r.file@ == file_path@,
        r.score is None,
        match parsed {
            Some(t) => tree_analysis(r, *t, file_path@, *config, language),
            None => parse_failure(r, file_path@),
        },
{
    match parsed {
        Some(t) => analyze_tree(file_path, t, config, language),
        None => {
            let issue = Issue {
                file: file_path.to_owned(),
                line: 1,
                column: 1,
                severity: Severity::Error,
                rule: "parse-error".to_owned(),
                message: "Failed to parse file".to_owned(),
            };
            let issues = vec![issue];
            assert(issue_views(issues@) =~= seq![
                (file_path@, 1int, 1int, Severity::Error, "parse-error"@, "Failed to parse file"@),
            ]);
            FileAnalysis {
                file: file_path.to_owned(),
                complexity: empty_complexity(),
                issues,
                score: None,
                unanalyzed: true,
            }
        },
    }
}

/// Whether `r` is the analysis of one file of a run: a [`source_analysis`]
/// of its text with the issues of the functions over the complexity
/// thresholds added, cyclomatic first.
pub open spec fn run_analysis(
    r: FileAnalysis,
    file: Seq<char>,
    source: Seq<char>,
    config: CodopsyConfig,
    opts: AnalyzeOptions,
) -> bool {
    exists|b: FileAnalysis|
        {
            &&& source_analysis(b, file, source, config)
            &&& r.file == b.file
            &&& r.complexity == b.complexity
            &&& r.score is None
            &&& r.unanalyzed == b.unanalyzed
            &&& issue_views(r.issues@) == issue_views(b.issues@) + threshold_issues_of(
                file,
                fc_views(b.complexity.functions@),
                config,
                config.spec_threshold("max-complexity"@, opts.max_complexity),
                Measure::Cyclomatic,
            ) + threshold_issues_of(
                file,
                fc_views(b.complexity.functions@),
                config,
                config.spec_threshold("max-cognitive-complexity"@, opts.max_cognitive_complexity),
                Measure::Cognitive,
            )
        }
}

proof fn lemma_complexity_issues_positioned(
    file: Seq<char>,
    units: Seq<UnitView>,
    threshold: int,
    sev: Severity,
    m: Measure,
)
    requires
        forall|k: int| 0 <= k < units.len() ==> (#[trigger] units[k]).1 >= 1,
    ensures
        all_in_file(complexity_issues(file, units, threshold, sev, m), file),
    decreases units.len(),
{
    if units.len() > 0 {
        let prev = units.drop_last();
        assert forall|k: int| 0 <= k < prev.len() implies (#[trigger] prev[k]).1 >= 1 by {
            assert(prev[k] == units[k]);
        }
        lemma_complexity_issues_positioned(file, prev, threshold, sev, m);
        assert(units.last() == units[units.len() - 1]);
        let here: Seq<IssueView> = if measure_of(units.last(), m) > threshold {
            seq![
                (
                    file,
                    units.last().1,
                    1int,
                    sev,
                    measure_rule(m),
                    "Function \""@ + units.last().0 + "\" has a "@ + measure_word(m) + " complexity of "@
                        + decimal(measure_of(units.last(), m) as nat) + " (threshold: "@ + decimal(
                        threshold as nat,
                    ) + ")"@,
                ),
            ]
        } else {
            seq![]
        };
        lemma_in_file_concat(complexity_issues(file, prev, threshold, sev, m), here, file);
    }
}

proof fn lemma_threshold_issues_positioned(
    file: Seq<char>,
    units: Seq<UnitView>,
    config: CodopsyConfig,
    threshold: Option<usize>,
    m: Measure,
)
    requires
        forall|k: int| 0 <= k < units.len() ==> (#[trigger] units[k]).1 >= 1,
    ensures
        all_in_file(threshold_issues_of(file, units, config, threshold, m), file),
{
    if let Some(t) = threshold {
        lemma_complexity_issues_positioned(file, units, t as int, config.severity_or(measure_rule(m), Severity::Warning), m);
    }
}

/// The analysis of a file in a run names that file, carries no score yet,
/// and every issue of it names the file and lies at a line and column of at
/// least 1.
pub proof fn every_issue_of_a_file_names_it_at_a_position(
    r: FileAnalysis,
    file: Seq<char>,
    source: Seq<char>,
    config: CodopsyConfig,
    opts: AnalyzeOptions,
)
    requires
        run_analysis(r, file, source, config, opts),
    ensures
        r.file@ == file,
        r.score is None,
        all_in_file(issue_views(r.issues@), file),
{
    let b = choose|b: FileAnalysis|
        {
            &&& source_analysis(b, file, source, config)
            &&& r.file == b.file
            &&& r.complexity == b.complexity
            &&& r.score is None
            &&& r.unanalyzed == b.unanalyzed
            &&& issue_views(r.issues@) == issue_views(b.issues@) + threshold_issues_of(
                file,
                fc_views(b.complexity.functions@),
                config,
                config.spec_threshold("max-complexity"@, opts.max_complexity),
                Measure::Cyclomatic,
            ) + threshold_issues_of(
                file,
                fc_views(b.complexity.functions@),
                config,
                config.spec_threshold("max-cognitive-complexity"@, opts.max_cognitive_complexity),
                Measure::Cognitive,
            )
        };
    let units = fc_views(b.complexity.functions@);
    match spec_get_language(file) {
        None => {
            assert(issue_views(b.issues@) =~= Seq::<IssueView>::empty());
        },
        Some(lang) => {
            if parse_failure(b, file) {
            } else {
                let t = choose|t: SyntaxTree| t.wf() && t.source@ == source && tree_analysis(b, t, file, config, lang);
                every_issue_names_its_file_at_a_position(t, file, config, lang);
                every_function_has_a_line_and_at_least_one_path(t, lang);
            }
        },
    }
    assert forall|k: int| 0 <= k < units.len() implies (#[trigger] units[k]).1 >= 1 by {
        if spec_get_language(file) is Some && !parse_failure(b, file) {
            let lang = spec_get_language(file).unwrap();
            let t = choose|t: SyntaxTree| t.wf() && t.source@ == source && tree_analysis(b, t, file, config, lang);
            every_function_has_a_line_and_at_least_one_path(t, lang);
        }
    }
    let cc = threshold_issues_of(file, units, config, config.spec_threshold("max-complexity"@, opts.max_complexity), Measure::Cyclomatic);
    let cog = threshold_issues_of(file, units, config, config.spec_threshold("max-cognitive-complexity"@, opts.max_cognitive_complexity), Measure::Cognitive);
    lemma_threshold_issues_positioned(file, units, config, config.spec_threshold("max-complexity"@, opts.max_complexity), Measure::Cyclomatic);
    lemma_threshold_issues_positioned(file, units, config, config.spec_threshold("max-cognitive-complexity"@, opts.max_cognitive_complexity), Measure::Cognitive);
    lemma_in_file_concat(issue_views(b.issues@), cc, file);
    lemma_in_file_concat(issue_views(b.issues@) + cc, cog, file);
}

/// The analysis of one file of a run (see [`run_analysis`]).
pub fn analyze_file_source(file_path: &str, source: &str, config: &CodopsyConfig, opts: &AnalyzeOptions) -> (r: FileAnalysis)
    ensures
        run_analysis(r, file_path@, source@, *config, *opts),
{
    let thresholds = resolve_scoring_thresholds(config, opts);
    let mut analysis = analyze_source(file_path, source, config);
    let ghost b = analysis;
    check_max_complexity(&mut analysis, config, thresholds.cyclomatic_complexity);
    check_max_cognitive_complexity(&mut analysis, config, thresholds.cognitive_complexity);
    assert(issue_views(analysis.issues@) == issue_views(b.issues@) + threshold_issues_of(
        file_path@,
        fc_views(b.complexity.functions@),
        *config,
        thresholds.cyclomatic_complexity,
        Measure::Cyclomatic,
    ) + threshold_issues_of(
        file_path@,
        fc_views(b.complexity.functions@),
        *config,
        thresholds.cognitive_complexity,
        Measure::Cognitive,
    ));
    analysis
}

/// Attach a file's score, given its issue points; a file the grammar could
/// not read is left unscored.
pub fn attach_score(analysis: &mut FileAnalysis, thresholds: ScoringThresholds, issue_points: u64)
    requires
        issue_points <= WEIGHT_ISSUES,
    ensures
        final(analysis).file == old(analysis).file,
        final(analysis).complexity == old(analysis).complexity,
        final(analysis).issues == old(analysis).issues,
        final(analysis).unanalyzed == old(analysis).unanalyzed,
        final(analysis).score == scored(*old(analysis), thresholds, issue_points),
{
    if analysis.unanalyzed {
        analysis.score = None;
    } else {
        let s = calculate_file_score(analysis, thresholds, issue_points);
        analysis.score = Some(s);
    }
}

/// The score a file gets from its issue points: none for a file the grammar
/// could not read.
pub open spec fn scored(a: FileAnalysis, thresholds: ScoringThresholds, issue_points: u64) -> Option<FileScore> {
    if a.unanalyzed {
        None
    } else {
        Some(spec_file_score(a, thresholds, issue_points))
    }
}

/// `b` is `a` with the score its issue points give it.
pub open spec fn scored_as(b: FileAnalysis, a: FileAnalysis, thresholds: ScoringThresholds, issue_points: u64) -> bool {
    &&& b.file == a.file
    &&& b.complexity == a.complexity
    &&& b.issues == a.issues
    &&& b.unanalyzed == a.unanalyzed
    &&& b.score == scored(a, thresholds, issue_points)
}

/// Attach the score of each file of a run, given each file's issue points.
fn attach_scores(files: &mut Vec<FileAnalysis>, thresholds: ScoringThresholds, points: &Vec<u64>)
    requires
        points@.len() == old(files)@.len(),
        forall|k: int| 0 <= k < points@.len() ==> #[trigger] points@[k] <= WEIGHT_ISSUES,
    ensures
        final(files)@.len() == old(files)@.len(),
        forall|k: int|
            0 <= k < old(files)@.len() ==> scored_as(#[trigger] final(files)@[k], old(files)@[k], thresholds, points@[k]),
{
    let ghost start = files@;
    let mut k: usize = 0;
    while k < files.len()
        invariant
            files@.len() == start.len(),
            points@.len() == start.len(),
            k <= start.len(),
            forall|q: int| 0 <= q < points@.len() ==> #[trigger] points@[q] <= WEIGHT_ISSUES,
            forall|q: int| k <= q < start.len() ==> #[trigger] files@[q] == start[q],
            forall|q: int| 0 <= q < k ==> scored_as(#[trigger] files@[q], start[q], thresholds, points@[q]),
        decreases start.len() - k,
    {
        let mut fa = files.remove(k);
        attach_score(&mut fa, thresholds, points[k]);
        files.insert(k, fa);
        k = k + 1;
    }
}

/// Totals over the files of a run. The average complexity of the run is
/// `complexity_sum / function_count`.
pub struct Summary {
    pub total_files: usize,
    pub total_issues: usize,
    pub issues_by_severity: SeverityCounts,
    pub complexity_sum: usize,
    pub function_count: usize,
    pub max_complexity: Option<MaxComplexityInfo>,
    /// Files the grammar could not read; counted among `total_files`, left
    /// out of the score.
    pub unanalyzed_files: usize,
}

/// The number of files of `fs` the grammar could not read.
pub open spec fn unanalyzed_count(fs: Seq<FileAnalysis>) -> int
    decreases fs.len(),
{
    if fs.len() == 0 {
        0
    } else {
        unanalyzed_count(fs.drop_last()) + if fs.last().unanalyzed {
            1int
        } else {
            0int
        }
    }
}

/// Every issue of the files, in file order.
pub open spec fn all_issues(fs: Seq<FileAnalysis>) -> Seq<IssueView>
    decreases fs.len(),
{
    if fs.len() == 0 {
        seq![]
    } else {
        all_issues(fs.drop_last()) + issue_views(fs.last().issues@)
    }
}

/// The number of issues of severity `sev`.
pub open spec fn severity_count(issues: Seq<IssueView>, sev: Severity) -> int
    decreases issues.len(),
{
    if issues.len() == 0 {
        0
    } else {
        severity_count(issues.drop_last(), sev) + if issues.last().3 == sev {
            1int
        } else {
            0int
        }
    }
}

/// Every issue has exactly one of the three severities, so the error,
/// warning and info counts of a run add up to its number of issues; when
/// that number fits in a `usize`, so do the counts of its summary.
pub proof fn the_severity_counts_add_up_to_the_issues(issues: Seq<IssueView>)
    ensures
        severity_count(issues, Severity::Error) + severity_count(issues, Severity::Warning) + severity_count(
            issues,
            Severity::Info,
        ) == issues.len(),
        issues.len() <= usize::MAX ==> sat(severity_count(issues, Severity::Error)) + sat(
            severity_count(issues, Severity::Warning),
        ) + sat(severity_count(issues, Severity::Info)) == sat(issues.len() as int),
    decreases issues.len(),
{
    if issues.len() > 0 {
        the_severity_counts_add_up_to_the_issues(issues.drop_last());
    }
    lemma_severity_count_nonneg(issues, Severity::Error);
    lemma_severity_count_nonneg(issues, Severity::Warning);
    lemma_severity_count_nonneg(issues, Severity::Info);
}

proof fn lemma_severity_count_nonneg(issues: Seq<IssueView>, sev: Severity)
    ensures
        severity_count(issues, sev) >= 0,
    decreases issues.len(),
{
    if issues.len() > 0 {
        lemma_severity_count_nonneg(issues.drop_last(), sev);
    }
}

/// A function of a run: file, function name, cyclomatic complexity.
pub type EntryView = (Seq<char>, Seq<char>, nat);

pub open spec fn file_entries(f: FileAnalysis) -> Seq<EntryView> {
    f.complexity.functions@.map_values(|g: FunctionComplexity| (f.file@, g.name@, g.complexity as nat))
}

/// Every function of the files, in file order.
pub open spec fn all_entries(fs: Seq<FileAnalysis>) -> Seq<EntryView>
    decreases fs.len(),
{
    if fs.len() == 0 {
        seq![]
    } else {
        all_entries(fs.drop_last()) + file_entries(fs.last())
    }
}

/// The sum of the complexities of `es`.
pub open spec fn complexity_total(es: Seq<EntryView>) -> nat
    decreases es.len(),
{
    if es.len() == 0 {
        0
    } else {
        complexity_total(es.drop_last()) + es.last().2
    }
}

/// The most complex function of `es`; of equally complex ones, the last.
pub open spec fn most_complex(es: Seq<EntryView>) -> Option<EntryView>
    decreases es.len(),
{
    if es.len() == 0 {
        None
    } else {
        let e = es.last();
        match most_complex(es.drop_last()) {
            Some(m) => if e.2 >= m.2 {
                Some(e)
            } else {
                Some(m)
            },
            None => Some(e),
        }
    }
}

pub open spec fn max_info_view(m: Option<MaxComplexityInfo>) -> Option<EntryView> {
    match m {
        Some(i) => Some((i.file@, i.function@, i.complexity as nat)),
        None => None,
    }
}

/// The totals of a run over `files`, out of `total_files` files; counts
/// saturate at `usize::MAX`.
pub fn summarize(files: &Vec<FileAnalysis>, total_files: usize) -> (r: Summary)
    ensures
        r.total_files == total_files,
        r.total_issues == sat(all_issues(files@).len() as int),
        r.issues_by_severity.error == sat(severity_count(all_issues(files@), Severity::Error)),
        r.issues_by_severity.warning == sat(severity_count(all_issues(files@), Severity::Warning)),
        r.issues_by_severity.info == sat(severity_count(all_issues(files@), Severity::Info)),
        r.complexity_sum == sat(complexity_total(all_entries(files@)) as int),
        r.function_count == sat(all_entries(files@).len() as int),
        max_info_view(r.max_complexity) == most_complex(all_entries(files@)),
        r.unanalyzed_files == unanalyzed_count(files@),
{
    let mut unread: usize = 0;
    let mut i: usize = 0;
    while i < files.len()
        invariant
            i <= files@.len(),
            unread <= i,
            unread == unanalyzed_count(files@.take(i as int)),
        decreases files@.len() - i,
    {
        assert(files@.take(i + 1).drop_last() =~= files@.take(i as int));
        assert(files@.take(i + 1).last() == files@[i as int]);
        if files[i].unanalyzed {
            unread = unread + 1;
        }
        i = i + 1;
    }
    assert(files@.take(i as int) =~= files@);
    let mut total: usize = 0;
    let mut error: usize = 0;
    let mut warning: usize = 0;
    let mut info: usize = 0;
    let mut i: usize = 0;
    while i < files.len()
        invariant
            i <= files@.len(),
            total == sat(all_issues(files@.take(i as int)).len() as int),
            error == sat(severity_count(all_issues(files@.take(i as int)), Severity::Error)),
            warning == sat(severity_count(all_issues(files@.take(i as int)), Severity::Warning)),
            info == sat(severity_count(all_issues(files@.take(i as int)), Severity::Info)),
        decreases files@.len() - i,
    {
        assert(files@.take(i + 1).drop_last() =~= files@.take(i as int));
        assert(files@.take(i + 1).last() == files@[i as int]);
        let ghost prefix = all_issues(files@.take(i as int));
        let issues = &files[i].issues;
        let mut j: usize = 0;
        while j < issues.len()
            invariant
                j <= issues@.len(),
                i < files@.len(),
                issues@ == files@[i as int].issues@,
                total == sat((prefix + issue_views(issues@).take(j as int)).len() as int),
                error == sat(severity_count(prefix + issue_views(issues@).take(j as int), Severity::Error)),
                warning == sat(
                    severity_count(prefix + issue_views(issues@).take(j as int), Severity::Warning),
                ),
                info == sat(severity_count(prefix + issue_views(issues@).take(j as int), Severity::Info)),
            decreases issues@.len() - j,
        {
            let ghost cur = prefix + issue_views(issues@).take(j as int);
            let ghost next = prefix + issue_views(issues@).take(j + 1);
            assert(next.drop_last() =~= cur);
            assert(next.last().3 == issues@[j as int].severity);
            total = sat_add(total, 1);
            match issues[j].severity {
                Severity::Error => error = sat_add(error, 1),
                Severity::Warning => warning = sat_add(warning, 1),
                Severity::Info => info = sat_add(info, 1),
            }
            j = j + 1;
        }
        assert(issue_views(issues@).take(j as int) =~= issue_views(issues@));
        assert(all_issues(files@.take(i + 1)) == prefix + issue_views(files@[i as int].issues@));
        i = i + 1;
    }
    assert(files@.take(i as int) =~= files@);
    let mut sum: usize = 0;
    let mut count: usize = 0;
    let mut best: Option<MaxComplexityInfo> = None;
    let mut i: usize = 0;
    while i < files.len()
        invariant
            i <= files@.len(),
            sum == sat(complexity_total(all_entries(files@.take(i as int))) as int),
            count == sat(all_entries(files@.take(i as int)).len() as int),
            max_info_view(best) == most_complex(all_entries(files@.take(i as int))),
        decreases files@.len() - i,
    {
        assert(files@.take(i + 1).drop_last() =~= files@.take(i as int));
        assert(files@.take(i + 1).last() == files@[i as int]);
        let ghost prefix = all_entries(files@.take(i as int));
        let fa = &files[i];
        let mut j: usize = 0;
        while j < fa.complexity.functions.len()
            invariant
                j <= fa.complexity.functions@.len(),
                sum == sat(complexity_total(prefix + file_entries(*fa).take(j as int)) as int),
                count == sat((prefix + file_entries(*fa).take(j as int)).len() as int),
                max_info_view(best) == most_complex(prefix + file_entries(*fa).take(j as int)),
            decreases fa.complexity.functions@.len() - j,
        {
            let ghost cur = prefix + file_entries(*fa).take(j as int);
            let ghost next = prefix + file_entries(*fa).take(j + 1);
            assert(next.drop_last() =~= cur);
            let g = &fa.complexity.functions[j];
            assert(next.last() == (fa.file@, g.name@, g.complexity as nat));
            sum = sat_add(sum, g.complexity);
            count = sat_add(count, 1);
            let replace = match &best {
                Some(m) => g.complexity >= m.complexity,
                None => true,
            };
            if replace {
                best = Some(
                    MaxComplexityInfo {
                        file: fa.file.clone(),
                        function: g.name.clone(),
                        complexity: g.complexity,
                    },
                );
            }
            j = j + 1;
        }
        assert(file_entries(*fa).take(j as int) =~= file_entries(*fa));
        assert(all_entries(files@.take(i + 1)) == prefix + file_entries(files@[i as int]));
        i = i + 1;
    }
    assert(files@.take(i as int) =~= files@);
    Summary {
        total_files,
        total_issues: total,
        issues_by_severity: SeverityCounts { error, warning, info },
        complexity_sum: sum,
        function_count: count,
        max_complexity: best,
        unanalyzed_files: unread,
    }
}

/// The grades of the scored files, in order.
pub open spec fn scored_grades(fs: Seq<FileAnalysis>) -> Seq<Grade>
    decreases fs.len(),
{
    if fs.len() == 0 {
        seq![]
    } else {
        scored_grades(fs.drop_last()) + match fs.last().score {
            Some(s) => seq![s.grade],
            None => seq![],
        }
    }
}

/// The number of times `g` occurs in `gs`.
pub open spec fn grade_count(gs: Seq<Grade>, g: Grade) -> int
    decreases gs.len(),
{
    if gs.len() == 0 {
        0
    } else {
        grade_count(gs.drop_last(), g) + if gs.last() == g {
            1int
        } else {
            0int
        }
    }
}

proof fn lemma_grade_count_bound(gs: Seq<Grade>, g: Grade)
    ensures
        0 <= grade_count(gs, g) <= gs.len(),
    decreases gs.len(),
{
    if gs.len() > 0 {
        lemma_grade_count_bound(gs.drop_last(), g);
    }
}

proof fn lemma_scored_bound(fs: Seq<FileAnalysis>)
    ensures
        scored_grades(fs).len() <= fs.len(),
    decreases fs.len(),
{
    if fs.len() > 0 {
        lemma_scored_bound(fs.drop_last());
    }
}

/// How many scored files earned each grade; unscored files are not counted.
pub fn grade_distribution(files: &Vec<FileAnalysis>) -> (d: GradeDistribution)
    ensures
        d.a == grade_count(scored_grades(files@), Grade::A),
        d.b == grade_count(scored_grades(files@), Grade::B),
        d.c == grade_count(scored_grades(files@), Grade::C),
        d.d == grade_count(scored_grades(files@), Grade::D),
        d.f == grade_count(scored_grades(files@), Grade::F),
{
    let mut d = GradeDistribution { a: 0, b: 0, c: 0, d: 0, f: 0 };
    let mut i: usize = 0;
    while i < files.len()
        invariant
            i <= files@.len(),
            d.a == grade_count(scored_grades(files@.take(i as int)), Grade::A),
            d.b == grade_count(scored_grades(files@.take(i as int)), Grade::B),
            d.c == grade_count(scored_grades(files@.take(i as int)), Grade::C),
            d.d == grade_count(scored_grades(files@.take(i as int)), Grade::D),
            d.f == grade_count(scored_grades(files@.take(i as int)), Grade::F),
        decreases files@.len() - i,
    {
        assert(files@.take(i + 1).drop_last() =~= files@.take(i as int));
        assert(files@.take(i + 1).last() == files@[i as int]);
        let ghost gs = scored_grades(files@.take(i as int));
        proof {
            lemma_scored_bound(files@.take(i as int));
            lemma_grade_count_bound(gs, Grade::A);
            lemma_grade_count_bound(gs, Grade::B);
            lemma_grade_count_bound(gs, Grade::C);
            lemma_grade_count_bound(gs, Grade::D);
            lemma_grade_count_bound(gs, Grade::F);
        }
        if let Some(s) = &files[i].score {
            assert(scored_grades(files@.take(i + 1)) == gs.push(s.grade));
            assert(gs.push(s.grade).drop_last() =~= gs);
            match s.grade {
                Grade::A => d.a = d.a + 1,
                Grade::B => d.b = d.b + 1,
                Grade::C => d.c = d.c + 1,
                Grade::D => d.d = d.d + 1,
                Grade::F => d.f = d.f + 1,
            }
        } else {
            assert(scored_grades(files@.take(i + 1)) =~= gs);
        }
        i = i + 1;
    }
    assert(files@.take(i as int) =~= files@);
    d
}

/// The number of issues of the files the grammar could read.
pub open spec fn analyzed_issue_count(fs: Seq<FileAnalysis>) -> int
    decreases fs.len(),
{
    if fs.len() == 0 {
        0
    } else {
        analyzed_issue_count(fs.drop_last()) + if fs.last().unanalyzed {
            0int
        } else {
            fs.last().issues@.len() as int
        }
    }
}

/// The number of issues of the files the grammar could read, saturating at
/// `usize::MAX`; the project's density penalty grows with it.
pub fn count_analyzed_issues(files: &Vec<FileAnalysis>) -> (r: usize)
    ensures
        r == sat(analyzed_issue_count(files@)),
{
    let mut n: usize = 0;
    let mut i: usize = 0;
    while i < files.len()
        invariant
            i <= files@.len(),
            n == sat(analyzed_issue_count(files@.take(i as int))),
        decreases files@.len() - i,
    {
        assert(files@.take(i + 1).drop_last() =~= files@.take(i as int));
        assert(files@.take(i + 1).last() == files@[i as int]);
        proof {
            lemma_analyzed_nonneg(files@.take(i as int));
        }
        if !files[i].unanalyzed {
            n = sat_add(n, files[i].issues.len());
        }
        i = i + 1;
    }
    assert(files@.take(i as int) =~= files@);
    n
}

proof fn lemma_analyzed_nonneg(fs: Seq<FileAnalysis>)
    ensures
        analyzed_issue_count(fs) >= 0,
    decreases fs.len(),
{
    if fs.len() > 0 {
        lemma_analyzed_nonneg(fs.drop_last());
    }
}

/// Whether `d` counts the grades of the scored files of `fs`.
pub open spec fn distribution_of(d: GradeDistribution, fs: Seq<FileAnalysis>) -> bool {
    let gs = scored_grades(fs);
    &&& d.a == grade_count(gs, Grade::A)
    &&& d.b == grade_count(gs, Grade::B)
    &&& d.c == grade_count(gs, Grade::C)
    &&& d.d == grade_count(gs, Grade::D)
    &&& d.f == grade_count(gs, Grade::F)
}

/// The base score less the density penalty, at least 0.
pub open spec fn penalized(base_score: int, density_penalty: int) -> int {
    if base_score - density_penalty > 0 {
        base_score - density_penalty
    } else {
        0
    }
}

/// The project score: 100 and grade A for a project without files;
/// otherwise the base score (the weighted average of the file scores) less
/// the issue-density penalty, at least 0, with the grade it earns and the
/// grade distribution of the scored files.
pub fn calculate_project_score(files: &Vec<FileAnalysis>, base_score: i32, density_penalty: i32) -> (r: ProjectScore)
    requires
        i32::MIN <= base_score - density_penalty <= i32::MAX,
    ensures
        files@.len() == 0 ==> r.overall == 100,
        files@.len() == 0 ==> distribution_of(r.distribution, files@),
        files@.len() > 0 ==> r.overall == penalized(base_score as int, density_penalty as int),
        files@.len() > 0 ==> distribution_of(r.distribution, files@),
        r.grade == spec_to_grade(r.overall as int),
{
    if files.len() == 0 {
        return ProjectScore {
            overall: 100,
            grade: Grade::A,
            distribution: GradeDistribution { a: 0, b: 0, c: 0, d: 0, f: 0 },
        };
    }
    let distribution = grade_distribution(files);
    let diff = base_score - density_penalty;
    let overall = if diff > 0 {
        diff
    } else {
        0
    };
    ProjectScore { overall, grade: to_grade(overall), distribution }
}

/// The result of a run.
pub struct AnalysisResult {
    pub timestamp: String,
    pub target_dir: String,
    pub files: Vec<FileAnalysis>,
    pub summary: Summary,
    pub scoring_thresholds: ScoringThresholds,
    pub score: Option<ProjectScore>,
}

/// The result of a run over `total_files` files with analyses `files`, given
/// each file's issue points, the project's base score and its density
/// penalty. Each analyzed file gets its score; a file the grammar could not
/// read is left unscored.
pub fn build_analysis_result(
    files: Vec<FileAnalysis>,
    points: &Vec<u64>,
    total_files: usize,
    target_dir: &str,
    thresholds: ScoringThresholds,
    timestamp: String,
    base_score: i32,
    density_penalty: i32,
) -> (r: AnalysisResult)
    requires
        points@.len() == files@.len(),
        forall|k: int| 0 <= k < points@.len() ==> #[trigger] points@[k] <= WEIGHT_ISSUES,
        i32::MIN <= base_score - density_penalty <= i32::MAX,
    ensures
        r.files@.len() == files@.len(),
        forall|k: int| 0 <= k < files@.len() ==> scored_as(#[trigger] r.files@[k], files@[k], thresholds, points@[k]),
        r.timestamp == timestamp,
        r.target_dir@ == target_dir@,
        r.scoring_thresholds == thresholds,
        r.summary.total_files == total_files,
        r.summary.total_issues == sat(all_issues(r.files@).len() as int),
        r.summary.issues_by_severity.error == sat(severity_count(all_issues(r.files@), Severity::Error)),
        r.summary.issues_by_severity.warning == sat(
            severity_count(all_issues(r.files@), Severity::Warning),
        ),
        r.summary.issues_by_severity.info == sat(severity_count(all_issues(r.files@), Severity::Info)),
        r.summary.complexity_sum == sat(complexity_total(all_entries(r.files@)) as int),
        r.summary.function_count == sat(all_entries(r.files@).len() as int),
        max_info_view(r.summary.max_complexity) == most_complex(all_entries(r.files@)),
        r.summary.unanalyzed_files == unanalyzed_count(r.files@),
        r.score matches Some(p) && (files@.len() == 0 ==> p.overall == 100) && (files@.len() > 0
            ==> p.overall == penalized(base_score as int, density_penalty as int)) && distribution_of(
            p.distribution,
            r.files@,
        ) && p.grade == spec_to_grade(p.overall as int),
{
    let mut files = files;
    attach_scores(&mut files, thresholds, points);
    let summary = summarize(&files, total_files);
    let score = calculate_project_score(&files, base_score, density_penalty);
    AnalysisResult {
        timestamp,
        target_dir: target_dir.to_owned(),
        files,
        summary,
        scoring_thresholds: thresholds,
        score: Some(score),
    }
}


proof fn lemma_grade_counts_sum(gs: Seq<Grade>)
    ensures
        grade_count(gs, Grade::A) + grade_count(gs, Grade::B) + grade_count(gs, Grade::C) + grade_count(
            gs,
            Grade::D,
        ) + grade_count(gs, Grade::F) == gs.len(),
    decreases gs.len(),
{
    if gs.len() > 0 {
        lemma_grade_counts_sum(gs.drop_last());
    }
}

proof fn lemma_scored_grades_len(fs: Seq<FileAnalysis>)
    ensures
        scored_grades(fs).len() <= fs.len(),
        (forall|k: int| 0 <= k < fs.len() ==> (#[trigger] fs[k]).score is Some) ==> scored_grades(fs).len()
            == fs.len(),
        (forall|k: int| 0 <= k < fs.len() ==> (#[trigger] fs[k]).score is None) ==> scored_grades(fs).len() == 0,
    decreases fs.len(),
{
    if fs.len() > 0 {
        lemma_scored_grades_len(fs.drop_last());
        assert forall|k: int| 0 <= k < fs.drop_last().len() implies #[trigger] fs.drop_last()[k] == fs[k] by {}
        assert(fs.last() == fs[fs.len() - 1]);
    }
}

/// The grade distribution of a project counts each scored file once and
/// leaves out every file without a score, such as a file the grammar could
/// not read.
pub proof fn the_distribution_counts_exactly_the_scored_files(d: GradeDistribution, fs: Seq<FileAnalysis>)
    requires
        distribution_of(d, fs),
    ensures
        d.a + d.b + d.c + d.d + d.f == scored_grades(fs).len(),
        d.a + d.b + d.c + d.d + d.f <= fs.len(),
        (forall|k: int| 0 <= k < fs.len() ==> (#[trigger] fs[k]).score is None) ==> d.a + d.b + d.c + d.d + d.f == 0,
{
    lemma_grade_counts_sum(scored_grades(fs));
    lemma_scored_grades_len(fs);
}


/// The analysis of a file that could not be read: no functions, totals 0,
/// and one `parse-error` issue giving the reason.
pub open spec fn unreadable(r: FileAnalysis, file: Seq<char>, reason: Seq<char>) -> bool {
    &&& r.file@ == file
    &&& r.complexity.functions@.len() == 0
    &&& r.complexity.cyclomatic == 0
    &&& r.complexity.cognitive == 0
    &&& r.score is None
    &&& !r.unanalyzed
    &&& issue_views(r.issues@) == seq![
        (file, 1int, 1int, Severity::Error, "parse-error"@, "Failed to read file: "@ + reason),
    ]
}

/// The analysis of a file that could not be read, for `reason`.
pub fn unreadable_file(file_path: &str, reason: &str) -> (r: FileAnalysis)
    ensures
        unreadable(r, file_path@, reason@),
{
    let mut message = "Failed to read file: ".to_owned();
    message.append(reason);
    let issues = vec![
        Issue {
            file: file_path.to_owned(),
            line: 1,
            column: 1,
            severity: Severity::Error,
            rule: "parse-error".to_owned(),
            message,
        },
    ];
    assert(issue_views(issues@) =~= seq![
        (file_path@, 1int, 1int, Severity::Error, "parse-error"@, "Failed to read file: "@ + reason@),
    ]);
    FileAnalysis { file: file_path.to_owned(), complexity: empty_complexity(), issues, score: None, unanalyzed: false }
}

/// The analyses of the files of a run, in order: each file's text, or why
/// it could not be read.
pub fn analyze_files(files: &Vec<(String, Result<String, String>)>, config: &CodopsyConfig, opts: &AnalyzeOptions) -> (r: Vec<FileAnalysis>)
    ensures
        r@.len() == files@.len(),
        forall|k: int| 0 <= k < files@.len() ==> match (#[trigger] files@[k]).1 {
            Ok(source) => run_analysis(r@[k], files@[k].0@, source@, *config, *opts),
            Err(reason) => unreadable(r@[k], files@[k].0@, reason@),
        },
{
    let mut out: Vec<FileAnalysis> = Vec::new();
    let mut k: usize = 0;
    while k < files.len()
        invariant
            k <= files@.len(),
            out@.len() == k,
            forall|q: int| 0 <= q < k ==> match (#[trigger] files@[q]).1 {
                Ok(source) => run_analysis(out@[q], files@[q].0@, source@, *config, *opts),
                Err(reason) => unreadable(out@[q], files@[q].0@, reason@),
            },
        decreases files@.len() - k,
    {
        let a = match &files[k].1 {
            Ok(source) => analyze_file_source(files[k].0.as_str(), source.as_str(), config, opts),
            Err(reason) => unreadable_file(files[k].0.as_str(), reason.as_str()),
        };
        out.push(a);
        k = k + 1;
    }
    out
}


/// Whether a run fails: with `fail_on_warning` when it has a warning, with
/// `fail_on_error` when it has an error.
pub fn run_fails(summary: &Summary, fail_on_warning: bool, fail_on_error: bool) -> (r: bool)
    ensures
        r == ((fail_on_warning && summary.issues_by_severity.warning > 0) || (fail_on_error
            && summary.issues_by_severity.error > 0)),
{
    (fail_on_warning && summary.issues_by_severity.warning > 0) || (fail_on_error
        && summary.issues_by_severity.error > 0)
}

} // verus!
