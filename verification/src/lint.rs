//! Running lint rules over a syntax tree.
//!
//! A rule looks at one node at a time and may report findings there; a run
//! of a rule visits every node in pre-order (a node before its children,
//! children in source order) and collects the findings as issues of one file
//! at one severity.
use vstd::prelude::*;
use crate::config::CodopsyConfig;
use crate::defaults::{MAX_DEPTH, MAX_LINES, MAX_PARAMS};
use crate::language::SourceLanguage;
use crate::rules::{
    Rule, language_rule_list, language_rules, node_hits, reversed, rule_hits, skips_file,
    skips_file_exec, spec_default_severity, spec_rule_name, universal_rule_list, universal_rules,
};
use crate::threshold::{check_max_depth, check_max_lines, max_depth_hits, max_lines_hits};
use crate::syntax::SyntaxTree;
use crate::types::{Issue, Severity};

verus! {

/// A finding: line, column, rule name and message.
pub type HitView = (int, int, Seq<char>, Seq<char>);

/// A finding at node `c`.
pub open spec fn hit(t: SyntaxTree, c: int, rule: Seq<char>, message: Seq<char>) -> HitView {
    (t.line(c), t.col(c), rule, message)
}

/// One finding at node `c` when `cond` holds, none otherwise.
pub open spec fn hit_if(
    cond: bool,
    t: SyntaxTree,
    c: int,
    rule: Seq<char>,
    message: Seq<char>,
) -> Seq<HitView> {
    if cond {
        seq![hit(t, c, rule, message)]
    } else {
        seq![]
    }
}

/// An issue as plain values: file, line, column, severity, rule, message.
pub type IssueView = (Seq<char>, int, int, Severity, Seq<char>, Seq<char>);

pub open spec fn issue_view(i: Issue) -> IssueView {
    (i.file@, i.line as int, i.column as int, i.severity, i.rule@, i.message@)
}

pub open spec fn issue_views(v: Seq<Issue>) -> Seq<IssueView> {
    v.map_values(|i: Issue| issue_view(i))
}

/// The issues that findings become in file `file` at severity `sev`.
pub open spec fn as_issues(hits: Seq<HitView>, file: Seq<char>, sev: Severity) -> Seq<IssueView> {
    hits.map_values(|h: HitView| (file, h.0, h.1, sev, h.2, h.3))
}

/// The issues being collected for one file at one severity.
pub struct Ctx {
    pub file_path: String,
    pub severity: Severity,
    pub issues: Vec<Issue>,
}

impl Ctx {
    /// Every issue collected belongs to this file and has this severity.
    pub open spec fn wf(&self) -> bool {
        forall|k: int|
            #![trigger self.issues@[k]]
            0 <= k < self.issues@.len() ==> self.issues@[k].file@ == self.file_path@
                && self.issues@[k].severity == self.severity
    }

    /// The findings collected so far.
    pub open spec fn found(&self) -> Seq<HitView> {
        self.issues@.map_values(|i: Issue| (i.line as int, i.column as int, i.rule@, i.message@))
    }

    /// `self` is `before` with `hits` appended.
    pub open spec fn grew(&self, before: Ctx, hits: Seq<HitView>) -> bool {
        &&& self.wf()
        &&& self.file_path@ == before.file_path@
        &&& self.severity == before.severity
        &&& self.found() =~= before.found() + hits
    }

    /// An empty collection for `file_path` at `severity`.
    pub fn new(file_path: &str, severity: Severity) -> (c: Ctx)
        ensures
            c.wf(),
            c.file_path@ == file_path@,
            c.severity == severity,
            c.found() == Seq::<HitView>::empty(),
            c.issues@.len() == 0,
    {
        let c = Ctx { file_path: file_path.to_owned(), severity, issues: Vec::new() };
        assert(c.found() =~= Seq::<HitView>::empty());
        c
    }

    /// Report node `node` under `rule`.
    pub fn report(&mut self, t: &SyntaxTree, node: usize, rule: &str, message: String)
        requires
            old(self).wf(),
            t.wf(),
            node < t.len(),
        ensures
            final(self).grew(*old(self), seq![hit(*t, node as int, rule@, message@)]),
    {
        let ghost before = self.found();
        let issue = Issue {
            file: self.file_path.clone(),
            line: t.node_line(node),
            column: t.node_column(node),
            severity: self.severity,
            rule: rule.to_owned(),
            message,
        };
        self.issues.push(issue);
        assert(self.found() =~= before + seq![hit(*t, node as int, rule@, message@)]);
    }

    /// Report a finding of the whole file at `line` and `column`.
    pub fn report_at(&mut self, line: usize, column: usize, rule: &str, message: String)
        requires
            old(self).wf(),
        ensures
            final(self).grew(*old(self), seq![(line as int, column as int, rule@, message@)]),
    {
        let ghost before = self.found();
        let issue = Issue {
            file: self.file_path.clone(),
            line,
            column,
            severity: self.severity,
            rule: rule.to_owned(),
            message,
        };
        self.issues.push(issue);
        assert(self.found() =~= before + seq![(line as int, column as int, rule@, message@)]);
    }

    /// The issues collected, as plain values, are the findings placed in this
    /// file at this severity.
    pub proof fn lemma_views(&self)
        requires
            self.wf(),
        ensures
            issue_views(self.issues@) =~= as_issues(self.found(), self.file_path@, self.severity),
    {
        assert forall|k: int| 0 <= k < self.issues@.len() implies #[trigger] issue_views(
            self.issues@,
        )[k] == as_issues(self.found(), self.file_path@, self.severity)[k] by {
            assert(self.issues@[k].file@ == self.file_path@);
        }
    }
}

/// One finding per node of `cs`, all with the same rule and message.
pub open spec fn hits_each(t: SyntaxTree, cs: Seq<int>, rule: Seq<char>, message: Seq<char>) -> Seq<HitView> {
    cs.map_values(|c: int| hit(t, c, rule, message))
}

/// Report each node of `cs` under `rule` with `message`.
pub fn report_each(ctx: &mut Ctx, t: &SyntaxTree, cs: &Vec<usize>, rule: &str, message: &str)
    requires
        old(ctx).wf(),
        t.wf(),
        forall|k: int| 0 <= k < cs@.len() ==> #[trigger] cs@[k] < t.len(),
    ensures
        final(ctx).grew(
            *old(ctx),
            hits_each(*t, cs@.map_values(|c: usize| c as int), rule@, message@),
        ),
{
    let ghost start = *ctx;
    let mut k: usize = 0;
    while k < cs.len()
        invariant
            t.wf(),
            forall|q: int| 0 <= q < cs@.len() ==> #[trigger] cs@[q] < t.len(),
            k <= cs@.len(),
            ctx.grew(
                start,
                hits_each(*t, cs@.take(k as int).map_values(|c: usize| c as int), rule@, message@),
            ),
        decreases cs@.len() - k,
    {
        let ghost mid = ctx.found();
        ctx.report(t, cs[k], rule, message.to_owned());
        assert(hits_each(*t, cs@.take(k + 1).map_values(|c: usize| c as int), rule@, message@)
            =~= hits_each(*t, cs@.take(k as int).map_values(|c: usize| c as int), rule@, message@)
            + seq![hit(*t, cs@[k as int] as int, rule@, message@)]);
        k = k + 1;
    }
    assert(cs@.take(k as int) =~= cs@);
}

/// Findings of rule `r` in the subtree at `i`, in pre-order.
pub open spec fn hits_at(t: SyntaxTree, i: int, r: Rule) -> Seq<HitView>
    decreases t.len() - i, 1int, 0int,
{
    rule_hits(t, i, r) + hits_kids(t, i, 0, r)
}

/// Findings of rule `r` in the subtrees of the children of `p` from the
/// `k`-th on.
pub open spec fn hits_kids(t: SyntaxTree, p: int, k: int, r: Rule) -> Seq<HitView>
    decreases t.len() - p, 0int, t.children(p).len() - k,
{
    if 0 <= k < t.children(p).len() {
        let c = t.children(p)[k] as int;
        (if p < c < t.len() {
            hits_at(t, c, r)
        } else {
            seq![]
        }) + hits_kids(t, p, k + 1, r)
    } else {
        seq![]
    }
}

/// Findings of rule `r` in the subtree at `i`, children visited last to first.
pub open spec fn rev_hits_at(t: SyntaxTree, i: int, r: Rule) -> Seq<HitView>
    decreases t.len() - i, 1int, 0int,
{
    rule_hits(t, i, r) + rev_kids(t, i, t.children(i).len() as int, r)
}

/// Findings of rule `r` in the subtrees of the first `k` children of `p`,
/// last to first.
pub open spec fn rev_kids(t: SyntaxTree, p: int, k: int, r: Rule) -> Seq<HitView>
    decreases t.len() - p, 0int, k,
{
    if 0 < k <= t.children(p).len() {
        let c = t.children(p)[k - 1] as int;
        (if p < c < t.len() {
            rev_hits_at(t, c, r)
        } else {
            seq![]
        }) + rev_kids(t, p, k - 1, r)
    } else {
        seq![]
    }
}

/// Findings of rule `r` in the whole tree, in the rule's visiting order.
pub open spec fn tree_hits(t: SyntaxTree, r: Rule) -> Seq<HitView> {
    if t.len() == 0 {
        seq![]
    } else if reversed(r) {
        rev_hits_at(t, 0, r)
    } else {
        hits_at(t, 0, r)
    }
}

/// The issues rule `r` raises in a file.
pub open spec fn rule_issues(t: SyntaxTree, file: Seq<char>, r: Rule, sev: Severity) -> Seq<IssueView> {
    if skips_file(r, file) {
        seq![]
    } else {
        as_issues(tree_hits(t, r), file, sev)
    }
}

fn collect_rev(t: &SyntaxTree, i: usize, r: Rule, ctx: &mut Ctx)
    requires
        t.wf(),
        i < t.len(),
        old(ctx).wf(),
    ensures
        final(ctx).grew(*old(ctx), rev_hits_at(*t, i as int, r)),
    decreases t.len() - i,
{
    let ghost start = *ctx;
    node_hits(t, i, r, ctx);
    let n = t.child_count(i);
    let mut k: usize = n;
    while k > 0
        invariant
            t.wf(),
            i < t.len(),
            n == t.children(i as int).len(),
            k <= n,
            ctx.wf(),
            ctx.file_path@ == start.file_path@,
            ctx.severity == start.severity,
            ctx.found() + rev_kids(*t, i as int, k as int, r) =~= start.found() + rev_hits_at(
                *t,
                i as int,
                r,
            ),
        decreases k,
    {
        let c = t.nodes[i].children[k - 1];
        assert(i < c < t.len()) by {
            assert(t.nodes@[i as int].children@[k - 1] == c);
        }
        let ghost mid = ctx.found();
        collect_rev(t, c, r, ctx);
        assert(ctx.found() + rev_kids(*t, i as int, k - 1, r) =~= mid + rev_kids(
            *t,
            i as int,
            k as int,
            r,
        ));
        k = k - 1;
    }
    assert(rev_kids(*t, i as int, 0, r) =~= Seq::<HitView>::empty());
}

fn collect(t: &SyntaxTree, i: usize, r: Rule, ctx: &mut Ctx)
    requires
        t.wf(),
        i < t.len(),
        old(ctx).wf(),
    ensures
        final(ctx).grew(*old(ctx), hits_at(*t, i as int, r)),
    decreases t.len() - i,
{
    let ghost start = *ctx;
    node_hits(t, i, r, ctx);
    let ghost after_node = ctx.found();
    let n = t.child_count(i);
    let mut k: usize = 0;
    while k < n
        invariant
            t.wf(),
            i < t.len(),
            n == t.children(i as int).len(),
            k <= n,
            ctx.wf(),
            ctx.file_path@ == start.file_path@,
            ctx.severity == start.severity,
            ctx.found() + hits_kids(*t, i as int, k as int, r) =~= start.found() + hits_at(
                *t,
                i as int,
                r,
            ),
        decreases n - k,
    {
        let c = t.nodes[i].children[k];
        assert(i < c < t.len()) by {
            assert(t.nodes@[i as int].children@[k as int] == c);
        }
        let ghost mid = ctx.found();
        collect(t, c, r, ctx);
        assert(hits_kids(*t, i as int, k as int, r) == hits_at(*t, c as int, r) + hits_kids(
            *t,
            i as int,
            k + 1,
            r,
        ));
        assert(ctx.found() + hits_kids(*t, i as int, k + 1, r) =~= mid + hits_kids(
            *t,
            i as int,
            k as int,
            r,
        ));
        k = k + 1;
    }
    assert(hits_kids(*t, i as int, k as int, r) =~= Seq::<HitView>::empty());
}

/// The issues rule `rule` raises in `file`, at severity `severity`.
pub fn run_check(t: &SyntaxTree, file: &str, rule: Rule, severity: Severity) -> (r: Vec<Issue>)
    requires
        t.wf(),
    ensures
        issue_views(r@) == rule_issues(*t, file@, rule, severity),
{
    let mut ctx = Ctx::new(file, severity);
    if skips_file_exec(rule, file) {
        assert(issue_views(ctx.issues@) =~= Seq::<IssueView>::empty());
        return ctx.issues;
    }
    if t.node_count() > 0 {
        if rule.children_reversed() {
            collect_rev(t, 0, rule, &mut ctx);
        } else {
            collect(t, 0, rule, &mut ctx);
        }
    }
    proof {
        ctx.lemma_views();
    }
    ctx.issues
}

/// The issues rule `r` raises in a file under configuration `config`: none
/// when the rule is disabled, else at the configured severity or the rule's
/// default.
pub open spec fn configured_issues(
    t: SyntaxTree,
    file: Seq<char>,
    config: CodopsyConfig,
    r: Rule,
) -> Seq<IssueView> {
    let name = spec_rule_name(r);
    if config.spec_disabled(name) {
        seq![]
    } else {
        rule_issues(t, file, r, config.severity_or(name, spec_default_severity(r)))
    }
}

/// The issues of a list of rules, in list order.
pub open spec fn rule_list_issues(
    t: SyntaxTree,
    file: Seq<char>,
    config: CodopsyConfig,
    rs: Seq<Rule>,
) -> Seq<IssueView>
    decreases rs.len(),
{
    if rs.len() == 0 {
        seq![]
    } else {
        rule_list_issues(t, file, config, rs.drop_last()) + configured_issues(t, file, config, rs.last())
    }
}

/// Languages whose own rules include an empty-function check.
pub open spec fn has_own_empty_function_rule(lang: SourceLanguage) -> bool {
    lang == SourceLanguage::TypeScript || lang == SourceLanguage::Tsx || lang
        == SourceLanguage::JavaScript || lang == SourceLanguage::Rust
}

/// Languages that get the cross-language empty-function check.
pub open spec fn checks_empty_functions(lang: SourceLanguage) -> bool {
    !has_own_empty_function_rule(lang) && !(lang == SourceLanguage::Html || lang == SourceLanguage::Css
        || lang == SourceLanguage::Json || lang == SourceLanguage::Yaml)
}

/// The issues of the threshold rules: file length, nesting depth and
/// parameter count, each unless disabled, at the configured maximum or the
/// default one and at the configured severity or `Warning`.
pub open spec fn threshold_issues(t: SyntaxTree, file: Seq<char>, config: CodopsyConfig) -> Seq<IssueView> {
    let lines = match config.spec_threshold("max-lines"@, MAX_LINES) {
        Some(m) => as_issues(
            max_lines_hits(t.source@, m as int),
            file,
            config.severity_or("max-lines"@, Severity::Warning),
        ),
        None => seq![],
    };
    let depth = match config.spec_threshold("max-depth"@, MAX_DEPTH) {
        Some(m) => as_issues(
            max_depth_hits(t, m as int),
            file,
            config.severity_or("max-depth"@, Severity::Warning),
        ),
        None => seq![],
    };
    let params = match config.spec_threshold("max-params"@, MAX_PARAMS) {
        Some(m) => rule_issues(
            t,
            file,
            Rule::MaxParams(m),
            config.severity_or("max-params"@, Severity::Warning),
        ),
        None => seq![],
    };
    lines + depth + params
}

/// Every issue of a file: the universal rules, the language's rules, the
/// cross-language empty-function check where it applies, then the
/// threshold rules.
pub open spec fn lint_issues(
    t: SyntaxTree,
    file: Seq<char>,
    config: CodopsyConfig,
    lang: SourceLanguage,
) -> Seq<IssueView> {
    rule_list_issues(t, file, config, universal_rule_list()) + rule_list_issues(
        t,
        file,
        config,
        language_rule_list(lang),
    ) + (if checks_empty_functions(lang) {
        configured_issues(t, file, config, Rule::EmptyFunction)
    } else {
        seq![]
    }) + threshold_issues(t, file, config)
}

fn append_issues(out: &mut Vec<Issue>, more: Vec<Issue>)
    ensures
        issue_views(final(out)@) == issue_views(old(out)@) + issue_views(more@),
{
    let ghost a = issue_views(out@);
    let ghost m = issue_views(more@);
    let mut more = more;
    out.append(&mut more);
    assert(issue_views(out@) =~= a + m);
}

/// The issues of rule `r` under `config`.
fn configured(t: &SyntaxTree, file: &str, config: &CodopsyConfig, r: Rule) -> (v: Vec<Issue>)
    requires
        t.wf(),
    ensures
        issue_views(v@) == configured_issues(*t, file@, *config, r),
{
    let name = r.name();
    if config.is_rule_disabled(name) {
        let v: Vec<Issue> = Vec::new();
        assert(issue_views(v@) =~= Seq::<IssueView>::empty());
        return v;
    }
    let sev = config.severity_for(name, r.default_severity());
    run_check(t, file, r, sev)
}

fn run_rule_list(t: &SyntaxTree, file: &str, config: &CodopsyConfig, rs: &Vec<Rule>, out: &mut Vec<Issue>)
    requires
        t.wf(),
    ensures
        issue_views(final(out)@) == issue_views(old(out)@) + rule_list_issues(*t, file@, *config, rs@),
{
    let ghost start = issue_views(out@);
    let mut k: usize = 0;
    while k < rs.len()
        invariant
            t.wf(),
            k <= rs@.len(),
            issue_views(out@) == start + rule_list_issues(*t, file@, *config, rs@.take(k as int)),
        decreases rs@.len() - k,
    {
        assert(rs@.take(k + 1).drop_last() =~= rs@.take(k as int));
        assert(rs@.take(k + 1).last() == rs@[k as int]);
        let more = configured(t, file, config, rs[k]);
        append_issues(out, more);
        assert(issue_views(out@) =~= start + rule_list_issues(*t, file@, *config, rs@.take(k + 1)));
        k = k + 1;
    }
    assert(rs@.take(k as int) =~= rs@);
}

/// Every issue of a file, under `config`.
pub fn lint_file(file_path: &str, t: &SyntaxTree, config: &CodopsyConfig, language: SourceLanguage) -> (r: Vec<Issue>)
    requires
        t.wf(),
    ensures
        issue_views(r@) == lint_issues(*t, file_path@, *config, language),
{
    let mut out: Vec<Issue> = Vec::new();
    assert(issue_views(out@) =~= Seq::<IssueView>::empty());
    run_rule_list(t, file_path, config, &universal_rules(), &mut out);
    run_rule_list(t, file_path, config, &language_rules(language), &mut out);
    let ghost before_empty = issue_views(out@);
    let own = language.is_js_ts() || language.is_rust();
    if !own && !language.is_markup_or_data() {
        let more = configured(t, file_path, config, Rule::EmptyFunction);
        append_issues(&mut out, more);
    }
    let ghost before_thresholds = issue_views(out@);
    if let Some(m) = config.resolve_threshold("max-lines", MAX_LINES) {
        let sev = config.severity_for("max-lines", Severity::Warning);
        append_issues(&mut out, check_max_lines(t.source.as_str(), file_path, sev, m));
    }
    if let Some(m) = config.resolve_threshold("max-depth", MAX_DEPTH) {
        let sev = config.severity_for("max-depth", Severity::Warning);
        append_issues(&mut out, check_max_depth(t, file_path, sev, m));
    }
    if let Some(m) = config.resolve_threshold("max-params", MAX_PARAMS) {
        let sev = config.severity_for("max-params", Severity::Warning);
        append_issues(&mut out, run_check(t, file_path, Rule::MaxParams(m), sev));
    }
    assert(issue_views(out@) =~= before_thresholds + threshold_issues(*t, file_path@, *config));
    out
}

} // verus!
