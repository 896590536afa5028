//! Scoring files and projects.
//!
//! A file scores out of 100: complexity (35), issues (40) and structure
//! (25). The complexity and structure components are whole or half points
//! and are computed here exactly; the complexity component is kept in half
//! points. The issues component weighs each rule's issue count by a
//! fractional power, so this module hands the caller the per-rule groups it
//! is computed from and takes the rounded points back.
use vstd::prelude::*;
use crate::complexity::{UnitView, fc_views};
use crate::defaults::{
    CC_PENALTY_CAP, CC_PENALTY_RATE, COG_PENALTY_CAP_HALVES, COG_PENALTY_RATE_HALVES,
    MAX_DEPTH_PENALTY, MAX_DEPTH_PENALTY_CAP, MAX_LINES_PENALTY, MAX_LINES_PENALTY_CAP,
    MAX_PARAMS_PENALTY, MAX_PARAMS_PENALTY_CAP, WEIGHT_COMPLEXITY, WEIGHT_ISSUES, WEIGHT_STRUCTURE,
};
use crate::lint::{IssueView, issue_views};
use crate::text::str_eq;
use crate::types::{
    FileAnalysis, FileScore, FunctionComplexity, Grade, Issue, ScoreBreakdown, ScoringThresholds,
    Severity, spec_to_grade, to_grade,
};

verus! {

/// How far `value` exceeds `threshold`; nothing when there is no threshold.
pub open spec fn excess(value: int, threshold: Option<usize>) -> int {
    match threshold {
        Some(t) => if value > t {
            value - t
        } else {
            0
        },
        None => 0,
    }
}

pub open spec fn min(a: int, b: int) -> int {
    if a <= b {
        a
    } else {
        b
    }
}

/// The complexity penalty of one function, in half points: 2 points per
/// unit of cyclomatic excess up to 15, and 1.5 points per unit of cognitive
/// excess up to 12.
pub open spec fn unit_penalty_halves(u: UnitView, th: ScoringThresholds) -> int {
    min(2 * CC_PENALTY_RATE * excess(u.2, th.cyclomatic_complexity), 2 * CC_PENALTY_CAP) + min(
        COG_PENALTY_RATE_HALVES * excess(u.3, th.cognitive_complexity),
        COG_PENALTY_CAP_HALVES as int,
    )
}

/// The complexity penalty of all functions, in half points.
pub open spec fn penalty_halves(us: Seq<UnitView>, th: ScoringThresholds) -> int
    decreases us.len(),
{
    if us.len() == 0 {
        0
    } else {
        penalty_halves(us.drop_last(), th) + unit_penalty_halves(us.last(), th)
    }
}

/// The complexity component, in half points: 70 less the penalty, at least 0.
pub open spec fn complexity_halves(us: Seq<UnitView>, th: ScoringThresholds) -> int {
    let left = 2 * WEIGHT_COMPLEXITY - penalty_halves(us, th);
    if left > 0 {
        left
    } else {
        0
    }
}

proof fn lemma_penalty_nonneg(us: Seq<UnitView>, th: ScoringThresholds)
    ensures
        penalty_halves(us, th) >= 0,
    decreases us.len(),
{
    if us.len() > 0 {
        lemma_penalty_nonneg(us.drop_last(), th);
    }
}

/// A function that exceeds a threshold makes the complexity penalty positive.
pub(crate) proof fn lemma_penalty_positive(us: Seq<UnitView>, th: ScoringThresholds, k: int)
    requires
        0 <= k < us.len(),
        excess(us[k].2, th.cyclomatic_complexity) > 0 || excess(us[k].3, th.cognitive_complexity) > 0,
    ensures
        penalty_halves(us, th) > 0,
    decreases us.len(),
{
    if k < us.len() - 1 {
        assert(us.drop_last()[k] == us[k]);
        lemma_penalty_positive(us.drop_last(), th, k);
    } else {
        lemma_penalty_nonneg(us.drop_last(), th);
    }
}

#[verifier::spinoff_prover]
fn unit_penalty_exec(f: &FunctionComplexity, th: ScoringThresholds) -> (r: u64)
    ensures
        r == unit_penalty_halves(crate::complexity::fc_view(*f), th),
        r <= 2 * CC_PENALTY_CAP + COG_PENALTY_CAP_HALVES,
{
    let cc: u64 = match th.cyclomatic_complexity {
        Some(t) => if f.complexity > t {
            let e = f.complexity - t;
            if e >= 8 {
                2 * CC_PENALTY_CAP
            } else {
                2 * CC_PENALTY_RATE * (e as u64)
            }
        } else {
            0
        },
        None => 0,
    };
    let cog: u64 = match th.cognitive_complexity {
        Some(t) => if f.cognitive_complexity > t {
            let e = f.cognitive_complexity - t;
            if e >= 8 {
                COG_PENALTY_CAP_HALVES
            } else {
                COG_PENALTY_RATE_HALVES * (e as u64)
            }
        } else {
            0
        },
        None => 0,
    };
    cc + cog
}

/// The complexity component of a file's score, in half points (out of 70).
pub fn score_complexity_halves(functions: &Vec<FunctionComplexity>, th: ScoringThresholds) -> (r: u64)
    ensures
        r == complexity_halves(fc_views(functions@), th),
        r <= 2 * WEIGHT_COMPLEXITY,
{
    let full: u64 = 2 * WEIGHT_COMPLEXITY;
    let mut pen: u64 = 0;
    let mut k: usize = 0;
    while k < functions.len()
        invariant
            k <= functions@.len(),
            full == 2 * WEIGHT_COMPLEXITY,
            pen == min(penalty_halves(fc_views(functions@).take(k as int), th), full as int),
        decreases functions@.len() - k,
    {
        assert(fc_views(functions@).take(k + 1).drop_last() =~= fc_views(functions@).take(k as int));
        assert(fc_views(functions@).take(k + 1).last() == crate::complexity::fc_view(functions@[k as int]));
        proof {
            lemma_penalty_nonneg(fc_views(functions@).take(k as int), th);
        }
        let p = unit_penalty_exec(&functions[k], th);
        pen = if pen + p >= full {
            full
        } else {
            pen + p
        };
        k = k + 1;
    }
    assert(fc_views(functions@).take(k as int) =~= fc_views(functions@));
    full - pen
}

/// The number of issues raised by rule `rule`.
pub open spec fn rule_count(issues: Seq<IssueView>, rule: Seq<char>) -> int
    decreases issues.len(),
{
    if issues.len() == 0 {
        0
    } else {
        rule_count(issues.drop_last(), rule) + if issues.last().4 == rule {
            1int
        } else {
            0int
        }
    }
}

/// The structure penalty of one threshold rule: `per` points per issue, at
/// most `cap`, none without issues.
pub open spec fn structure_penalty(count: int, per: int, cap: int) -> int {
    if count > 0 {
        min(per * count, cap)
    } else {
        0
    }
}

/// The structure component: 25 less the penalties of `max-lines`,
/// `max-depth` and `max-params`, at least 0.
pub open spec fn structure_points(issues: Seq<IssueView>) -> int {
    let left = WEIGHT_STRUCTURE - structure_penalty(
        rule_count(issues, "max-lines"@),
        MAX_LINES_PENALTY as int,
        MAX_LINES_PENALTY_CAP as int,
    ) - structure_penalty(
        rule_count(issues, "max-depth"@),
        MAX_DEPTH_PENALTY as int,
        MAX_DEPTH_PENALTY_CAP as int,
    ) - structure_penalty(
        rule_count(issues, "max-params"@),
        MAX_PARAMS_PENALTY as int,
        MAX_PARAMS_PENALTY_CAP as int,
    );
    if left > 0 {
        left
    } else {
        0
    }
}

proof fn lemma_rule_count_bounds(issues: Seq<IssueView>, rule: Seq<char>)
    ensures
        0 <= rule_count(issues, rule) <= issues.len(),
    decreases issues.len(),
{
    if issues.len() > 0 {
        lemma_rule_count_bounds(issues.drop_last(), rule);
    }
}

/// The number of issues of `issues` raised by `rule`.
pub fn count_rule(issues: &Vec<Issue>, rule: &str) -> (r: usize)
    ensures
        r == rule_count(issue_views(issues@), rule@),
{
    let mut n: usize = 0;
    let mut k: usize = 0;
    while k < issues.len()
        invariant
            k <= issues@.len(),
            n <= k,
            n == rule_count(issue_views(issues@).take(k as int), rule@),
        decreases issues@.len() - k,
    {
        assert(issue_views(issues@).take(k + 1).drop_last() =~= issue_views(issues@).take(k as int));
        assert(issue_views(issues@).take(k + 1).last().4 == issues@[k as int].rule@);
        if str_eq(issues[k].rule.as_str(), rule) {
            n = n + 1;
        }
        k = k + 1;
    }
    assert(issue_views(issues@).take(k as int) =~= issue_views(issues@));
    n
}

fn structure_penalty_exec(count: usize, per: u64, cap: u64) -> (r: u64)
    requires
        1 <= per <= cap <= 100,
    ensures
        r == structure_penalty(count as int, per as int, cap as int),
        r <= cap,
{
    if count == 0 {
        0
    } else if count as u64 >= cap {
        assert(per * count >= cap) by (nonlinear_arith)
            requires
                per >= 1,
                count >= cap,
        ;
        cap
    } else {
        assert(per * count <= 100 * 100) by (nonlinear_arith)
            requires
                per <= 100,
                count <= 100,
        ;
        let p = per * (count as u64);
        if p >= cap {
            cap
        } else {
            p
        }
    }
}

/// The structure component of a file's score (out of 25).
pub fn score_structure(issues: &Vec<Issue>) -> (r: u64)
    ensures
        r == structure_points(issue_views(issues@)),
        r <= WEIGHT_STRUCTURE,
{
    let lines = structure_penalty_exec(
        count_rule(issues, "max-lines"),
        MAX_LINES_PENALTY,
        MAX_LINES_PENALTY_CAP,
    );
    let depth = structure_penalty_exec(
        count_rule(issues, "max-depth"),
        MAX_DEPTH_PENALTY,
        MAX_DEPTH_PENALTY_CAP,
    );
    let params = structure_penalty_exec(
        count_rule(issues, "max-params"),
        MAX_PARAMS_PENALTY,
        MAX_PARAMS_PENALTY_CAP,
    );
    let pen = lines + depth + params;
    if pen >= WEIGHT_STRUCTURE {
        0
    } else {
        WEIGHT_STRUCTURE - pen
    }
}

/// A file's score from its three components: the complexity half points
/// rounded half up, plus the issue and structure points.
pub open spec fn file_score_value(halves: int, issues: int, structure: int) -> int {
    (halves + 1) / 2 + issues + structure
}

/// The score of file `a` under thresholds `th` with `points` issue points:
/// the complexity half points, the issue points and the structure points,
/// their total (half points rounded half up) and its grade.
pub open spec fn spec_file_score(a: FileAnalysis, th: ScoringThresholds, points: u64) -> FileScore {
    let halves = complexity_halves(fc_views(a.complexity.functions@), th);
    let structure = structure_points(issue_views(a.issues@));
    let score = file_score_value(halves, points as int, structure);
    FileScore {
        score: score as i32,
        grade: spec_to_grade(score),
        breakdown: ScoreBreakdown {
            complexity_halves: halves as u64,
            issues: points,
            structure: structure as u64,
        },
    }
}

/// The score of a file, given the points of its issues component (at most
/// 40), which the caller computes from [`issue_rule_groups`].
pub fn calculate_file_score(analysis: &FileAnalysis, thresholds: ScoringThresholds, issue_points: u64) -> (r: FileScore)
    requires
        issue_points <= WEIGHT_ISSUES,
    ensures
        r.breakdown.complexity_halves == complexity_halves(fc_views(analysis.complexity.functions@), thresholds),
        r.breakdown.issues == issue_points,
        r.breakdown.structure == structure_points(issue_views(analysis.issues@)),
        r.score == file_score_value(
            r.breakdown.complexity_halves as int,
            issue_points as int,
            r.breakdown.structure as int,
        ),
        0 <= r.score <= 100,
        r.breakdown.complexity_halves <= 2 * WEIGHT_COMPLEXITY,
        r.breakdown.issues <= WEIGHT_ISSUES,
        r.breakdown.structure <= WEIGHT_STRUCTURE,
        r.grade == spec_to_grade(r.score as int),
        r == spec_file_score(*analysis, thresholds, issue_points),
{
    let complexity_halves = score_complexity_halves(&analysis.complexity.functions, thresholds);
    let structure = score_structure(&analysis.issues);
    let total = (complexity_halves + 1) / 2 + issue_points + structure;
    let score = total as i32;
    FileScore {
        score,
        grade: to_grade(score),
        breakdown: ScoreBreakdown { complexity_halves, issues: issue_points, structure },
    }
}

/// Rules left out of the issues component: the threshold rules, which the
/// complexity and structure components already count.
pub open spec fn excluded_from_issues(rule: Seq<char>) -> bool {
    rule == "max-lines"@ || rule == "max-depth"@ || rule == "max-params"@ || rule
        == "max-complexity"@ || rule == "max-cognitive-complexity"@
}

fn excluded_from_issues_exec(rule: &str) -> (r: bool)
    ensures
        r == excluded_from_issues(rule@),
{
    str_eq(rule, "max-lines") || str_eq(rule, "max-depth") || str_eq(rule, "max-params") || str_eq(
        rule,
        "max-complexity",
    ) || str_eq(rule, "max-cognitive-complexity")
}

/// The issues of one rule: its name, the severity of its first issue, and
/// how many issues it raised.
pub struct RuleGroup {
    pub rule: String,
    pub severity: Severity,
    pub count: usize,
}

pub type GroupView = (Seq<char>, Severity, int);

pub open spec fn group_views(v: Seq<RuleGroup>) -> Seq<GroupView> {
    v.map_values(|g: RuleGroup| (g.rule@, g.severity, g.count as int))
}

/// The position of the group of `rule` among `gs`, from `k` on.
pub open spec fn group_of(gs: Seq<GroupView>, rule: Seq<char>, k: int) -> Option<int>
    decreases gs.len() - k,
{
    if k < 0 || k >= gs.len() {
        None
    } else if gs[k].0 == rule {
        Some(k)
    } else {
        group_of(gs, rule, k + 1)
    }
}

/// The issues grouped by rule, in the order each rule first appears,
/// leaving out the threshold rules.
pub open spec fn rule_groups(issues: Seq<IssueView>) -> Seq<GroupView>
    decreases issues.len(),
{
    if issues.len() == 0 {
        seq![]
    } else {
        let gs = rule_groups(issues.drop_last());
        let i = issues.last();
        if excluded_from_issues(i.4) {
            gs
        } else {
            match group_of(gs, i.4, 0) {
                Some(j) => gs.update(j, (gs[j].0, gs[j].1, gs[j].2 + 1)),
                None => gs.push((i.4, i.3, 1)),
            }
        }
    }
}

proof fn lemma_group_of_found(gs: Seq<GroupView>, rule: Seq<char>, k: int)
    requires
        0 <= k <= gs.len(),
    ensures
        group_of(gs, rule, k) matches Some(j) ==> k <= j < gs.len() && gs[j].0 == rule,
        group_of(gs, rule, k) is None ==> forall|q: int| k <= q < gs.len() ==> gs[q].0 != rule,
    decreases gs.len() - k,
{
    if k < gs.len() && gs[k].0 != rule {
        lemma_group_of_found(gs, rule, k + 1);
    }
}

proof fn lemma_groups_bounded(issues: Seq<IssueView>)
    ensures
        rule_groups(issues).len() <= issues.len(),
        forall|j: int| 0 <= j < rule_groups(issues).len() ==> 1 <= #[trigger] rule_groups(issues)[j].2 <= issues.len(),
    decreases issues.len(),
{
    if issues.len() > 0 {
        lemma_groups_bounded(issues.drop_last());
        let gs = rule_groups(issues.drop_last());
        lemma_group_of_found(gs, issues.last().4, 0);
    }
}

/// The issues of a file grouped by rule, in the order each rule first
/// appears, without the threshold rules; each group has the severity of its
/// rule's first issue.
pub fn issue_rule_groups(issues: &Vec<Issue>) -> (r: Vec<RuleGroup>)
    ensures
        group_views(r@) == rule_groups(issue_views(issues@)),
{
    let ghost views = issue_views(issues@);
    let mut names: Vec<&str> = Vec::new();
    let mut sevs: Vec<Severity> = Vec::new();
    let mut counts: Vec<usize> = Vec::new();
    let mut k: usize = 0;
    while k < issues.len()
        invariant
            k <= issues@.len(),
            views == issue_views(issues@),
            names@.len() == sevs@.len(),
            names@.len() == counts@.len(),
            rule_groups(views.take(k as int)).len() == names@.len(),
            forall|j: int| 0 <= j < names@.len() ==> #[trigger] rule_groups(views.take(k as int))[j] == (
                names@[j]@,
                sevs@[j],
                counts@[j] as int,
            ),
        decreases issues@.len() - k,
    {
        let ghost gs = rule_groups(views.take(k as int));
        assert(views.take(k + 1).drop_last() =~= views.take(k as int));
        assert(views.take(k + 1).last() == views[k as int]);
        proof {
            lemma_groups_bounded(views.take(k as int));
            lemma_group_of_found(gs, views[k as int].4, 0);
        }
        let rule = issues[k].rule.as_str();
        if !excluded_from_issues_exec(rule) {
            let mut j: usize = 0;
            while j < names.len() && !str_eq(names[j], rule)
                invariant
                    j <= names@.len(),
                    names@.len() == counts@.len(),
                    forall|q: int| 0 <= q < j ==> names@[q]@ != rule@,
                decreases names@.len() - j,
            {
                j = j + 1;
            }
            if j < names.len() {
                assert(group_of(gs, rule@, 0) == Some(j as int)) by {
                    assert(gs[j as int].0 == rule@);
                    assert forall|q: int| 0 <= q < j implies gs[q].0 != rule@ by {
                        assert(gs[q].0 == names@[q]@);
                    }
                    lemma_first_group(gs, rule@, j as int);
                }
                assert(gs[j as int] == (names@[j as int]@, sevs@[j as int], counts@[j as int] as int));
                assert(rule_groups(views.take(k as int))[j as int].2 <= views.take(k as int).len());
                assert(counts[j as int] < k + 1);
                let c = counts[j] + 1;
                counts.set(j, c);
            } else {
                assert(group_of(gs, rule@, 0) is None) by {
                    assert forall|q: int| 0 <= q < gs.len() implies gs[q].0 != rule@ by {
                        assert(gs[q].0 == names@[q]@);
                    }
                    lemma_no_group(gs, rule@, 0);
                }
                names.push(rule);
                sevs.push(issues[k].severity);
                counts.push(1);
            }
        }
        k = k + 1;
    }
    assert(views.take(k as int) =~= views);
    let mut out: Vec<RuleGroup> = Vec::new();
    let mut j: usize = 0;
    while j < names.len()
        invariant
            j <= names@.len(),
            names@.len() == sevs@.len(),
            names@.len() == counts@.len(),
            rule_groups(views).len() == names@.len(),
            forall|q: int| 0 <= q < names@.len() ==> #[trigger] rule_groups(views)[q] == (
                names@[q]@,
                sevs@[q],
                counts@[q] as int,
            ),
            group_views(out@) =~= rule_groups(views).take(j as int),
        decreases names@.len() - j,
    {
        assert(rule_groups(views)[j as int] == (names@[j as int]@, sevs@[j as int], counts@[j as int] as int));
        let ghost before = group_views(out@);
        out.push(RuleGroup { rule: names[j].to_owned(), severity: sevs[j], count: counts[j] });
        assert(group_views(out@) =~= before.push(rule_groups(views)[j as int]));
        assert(rule_groups(views).take(j + 1) =~= rule_groups(views).take(j as int).push(rule_groups(views)[j as int]));
        j = j + 1;
    }
    assert(rule_groups(views).take(j as int) =~= rule_groups(views));
    out
}

proof fn lemma_first_group(gs: Seq<GroupView>, rule: Seq<char>, j: int)
    requires
        0 <= j < gs.len(),
        gs[j].0 == rule,
        forall|q: int| 0 <= q < j ==> gs[q].0 != rule,
    ensures
        group_of(gs, rule, 0) == Some(j),
{
    lemma_first_group_from(gs, rule, j, 0);
}

proof fn lemma_first_group_from(gs: Seq<GroupView>, rule: Seq<char>, j: int, k: int)
    requires
        0 <= k <= j < gs.len(),
        gs[j].0 == rule,
        forall|q: int| 0 <= q < j ==> gs[q].0 != rule,
    ensures
        group_of(gs, rule, k) == Some(j),
    decreases j - k,
{
    if k < j {
        lemma_first_group_from(gs, rule, j, k + 1);
    }
}

proof fn lemma_no_group(gs: Seq<GroupView>, rule: Seq<char>, k: int)
    requires
        0 <= k,
        forall|q: int| 0 <= q < gs.len() ==> gs[q].0 != rule,
    ensures
        group_of(gs, rule, k) is None,
    decreases gs.len() - k,
{
    if k < gs.len() {
        lemma_no_group(gs, rule, k + 1);
    }
}


/// Whether thresholds `a` are at least as lax as `b`: for each measure,
/// `a` has none (the rule is off) or one at least as high as `b`'s.
pub open spec fn at_least_as_lax(a: ScoringThresholds, b: ScoringThresholds) -> bool {
    &&& (a.cyclomatic_complexity is None || (b.cyclomatic_complexity is Some
        && a.cyclomatic_complexity.unwrap() >= b.cyclomatic_complexity.unwrap()))
    &&& (a.cognitive_complexity is None || (b.cognitive_complexity is Some
        && a.cognitive_complexity.unwrap() >= b.cognitive_complexity.unwrap()))
}

#[verifier::spinoff_prover]
proof fn lemma_penalty_monotone(us: Seq<UnitView>, strict: ScoringThresholds, relaxed: ScoringThresholds)
    requires
        at_least_as_lax(relaxed, strict),
    ensures
        penalty_halves(us, relaxed) <= penalty_halves(us, strict),
    decreases us.len(),
{
    if us.len() > 0 {
        lemma_penalty_monotone(us.drop_last(), strict, relaxed);
        let u = us.last();
        assert(excess(u.2, relaxed.cyclomatic_complexity) <= excess(u.2, strict.cyclomatic_complexity));
        assert(excess(u.3, relaxed.cognitive_complexity) <= excess(u.3, strict.cognitive_complexity));
        let (a1, b1) = (excess(u.2, relaxed.cyclomatic_complexity), excess(u.2, strict.cyclomatic_complexity));
        let (a2, b2) = (excess(u.3, relaxed.cognitive_complexity), excess(u.3, strict.cognitive_complexity));
        assert(2 * CC_PENALTY_RATE * a1 <= 2 * CC_PENALTY_RATE * b1) by (nonlinear_arith)
            requires
                a1 <= b1,
                CC_PENALTY_RATE == 2,
        ;
        assert(COG_PENALTY_RATE_HALVES * a2 <= COG_PENALTY_RATE_HALVES * b2) by (nonlinear_arith)
            requires
                a2 <= b2,
                COG_PENALTY_RATE_HALVES == 3,
        ;
        assert(unit_penalty_halves(u, relaxed) <= unit_penalty_halves(u, strict));
    }
}

/// Relaxing the complexity thresholds (raising one, or switching a rule
/// off) never lowers a file's complexity score.
pub proof fn relaxed_thresholds_never_lower_the_complexity_score(
    us: Seq<UnitView>,
    strict: ScoringThresholds,
    relaxed: ScoringThresholds,
)
    requires
        at_least_as_lax(relaxed, strict),
    ensures
        complexity_halves(us, strict) <= complexity_halves(us, relaxed),
{
    lemma_penalty_monotone(us, strict, relaxed);
}

proof fn lemma_penalty_zero_within(us: Seq<UnitView>, th: ScoringThresholds)
    requires
        forall|k: int| 0 <= k < us.len() ==> excess((#[trigger] us[k]).2, th.cyclomatic_complexity) == 0
            && excess(us[k].3, th.cognitive_complexity) == 0,
    ensures
        penalty_halves(us, th) == 0,
    decreases us.len(),
{
    if us.len() > 0 {
        lemma_penalty_zero_within(us.drop_last(), th);
        assert(us.last() == us[us.len() - 1]);
    }
}

/// A file whose functions all stay within the thresholds gets the whole
/// complexity component (35 points); in particular, with both complexity
/// rules switched off, no function is ever penalized.
pub proof fn functions_within_thresholds_keep_the_full_complexity_score(us: Seq<UnitView>, th: ScoringThresholds)
    requires
        forall|k: int| 0 <= k < us.len() ==> excess((#[trigger] us[k]).2, th.cyclomatic_complexity) == 0
            && excess(us[k].3, th.cognitive_complexity) == 0,
    ensures
        complexity_halves(us, th) == 2 * WEIGHT_COMPLEXITY,
{
    lemma_penalty_zero_within(us, th);
}

/// With both complexity rules switched off the complexity component is
/// full, however complex the functions.
pub proof fn disabled_complexity_rules_never_penalize(us: Seq<UnitView>)
    ensures
        complexity_halves(us, ScoringThresholds { cyclomatic_complexity: None, cognitive_complexity: None })
            == 2 * WEIGHT_COMPLEXITY,
{
    functions_within_thresholds_keep_the_full_complexity_score(
        us,
        ScoringThresholds { cyclomatic_complexity: None, cognitive_complexity: None },
    );
}


proof fn lemma_rule_count_witness(issues: Seq<IssueView>, rule: Seq<char>)
    ensures
        rule_count(issues, rule) >= 0,
        rule_count(issues, rule) > 0 ==> exists|k: int| 0 <= k < issues.len() && (#[trigger] issues[k]).4 == rule,
    decreases issues.len(),
{
    if issues.len() > 0 {
        lemma_rule_count_witness(issues.drop_last(), rule);
        if rule_count(issues.drop_last(), rule) > 0 {
            let k = choose|k: int| 0 <= k < issues.drop_last().len() && (#[trigger] issues.drop_last()[k]).4 == rule;
            assert(issues[k] == issues.drop_last()[k]);
        } else if issues.last().4 == rule {
            assert(issues[issues.len() - 1].4 == rule);
        }
    }
}

/// What the rule groups of a file's issues are: one group per rule that is
/// not a threshold rule, no rule twice, each counting exactly the issues of
/// its rule, and every issue of such a rule in some group.
pub proof fn rule_groups_count_each_scored_rule(issues: Seq<IssueView>)
    ensures
        forall|j: int| 0 <= j < rule_groups(issues).len() ==> !excluded_from_issues(
            (#[trigger] rule_groups(issues)[j]).0,
        ),
        forall|j: int| 0 <= j < rule_groups(issues).len() ==> (#[trigger] rule_groups(issues)[j]).2 == rule_count(
            issues,
            rule_groups(issues)[j].0,
        ),
        forall|j1: int, j2: int| 0 <= j1 < j2 < rule_groups(issues).len() ==> (#[trigger] rule_groups(issues)[j1]).0
            != (#[trigger] rule_groups(issues)[j2]).0,
        forall|k: int| 0 <= k < issues.len() && !excluded_from_issues((#[trigger] issues[k]).4) ==> exists|j: int|
            0 <= j < rule_groups(issues).len() && (#[trigger] rule_groups(issues)[j]).0 == issues[k].4,
    decreases issues.len(),
{
    if issues.len() == 0 {
        return;
    }
    let prev = issues.drop_last();
    let gs0 = rule_groups(prev);
    let i = issues.last();
    let gs = rule_groups(issues);
    rule_groups_count_each_scored_rule(prev);
    assert forall|name: Seq<char>| #[trigger] rule_count(issues, name) == rule_count(prev, name) + if i.4 == name {
        1int
    } else {
        0int
    } by {}
    assert forall|k: int| 0 <= k < prev.len() implies #[trigger] issues[k] == prev[k] by {}
    if excluded_from_issues(i.4) {
        assert(gs == gs0);
        assert forall|k: int| 0 <= k < issues.len() && !excluded_from_issues((#[trigger] issues[k]).4) implies exists|j: int|
            0 <= j < gs.len() && (#[trigger] gs[j]).0 == issues[k].4 by {
            assert(k < prev.len());
            assert(prev[k] == issues[k]);
        }
    } else {
        lemma_group_of_found(gs0, i.4, 0);
        match group_of(gs0, i.4, 0) {
            Some(j) => {
                assert(gs == gs0.update(j, (gs0[j].0, gs0[j].1, gs0[j].2 + 1)));
                assert forall|k: int| 0 <= k < issues.len() && !excluded_from_issues((#[trigger] issues[k]).4) implies exists|q: int|
                    0 <= q < gs.len() && (#[trigger] gs[q]).0 == issues[k].4 by {
                    if k < prev.len() {
                        assert(prev[k] == issues[k]);
                        let q = choose|q: int| 0 <= q < gs0.len() && (#[trigger] gs0[q]).0 == prev[k].4;
                        assert(gs[q].0 == gs0[q].0);
                    } else {
                        assert(gs[j].0 == i.4);
                    }
                }
            },
            None => {
                assert(gs == gs0.push((i.4, i.3, 1)));
                lemma_rule_count_witness(prev, i.4);
                if rule_count(prev, i.4) > 0 {
                    let k = choose|k: int| 0 <= k < prev.len() && (#[trigger] prev[k]).4 == i.4;
                    assert(!excluded_from_issues(prev[k].4));
                    assert(false);
                }
                assert forall|k: int| 0 <= k < issues.len() && !excluded_from_issues((#[trigger] issues[k]).4) implies exists|q: int|
                    0 <= q < gs.len() && (#[trigger] gs[q]).0 == issues[k].4 by {
                    if k < prev.len() {
                        assert(prev[k] == issues[k]);
                        let q = choose|q: int| 0 <= q < gs0.len() && (#[trigger] gs0[q]).0 == prev[k].4;
                        assert(gs[q].0 == gs0[q].0);
                    } else {
                        assert(gs[gs0.len() as int].0 == i.4);
                    }
                }
            },
        }
    }
}

} // verus!
