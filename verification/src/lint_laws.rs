//! What a lint run promises about rule names and the configuration: every
//! issue carries the name of the rule that raised it, so a rule switched off
//! by name raises nothing, and a severity set by name is the severity of
//! every issue of that name.
//!
//! The one rule that raises issues under two names is Python's `no-eval`:
//! it reports `exec(...)` calls as `no-exec`, and both kinds of issue are
//! governed by the setting of `no-eval`.
use vstd::prelude::*;
use crate::config::CodopsyConfig;
use crate::defaults::{MAX_DEPTH, MAX_LINES, MAX_PARAMS};
use crate::language::SourceLanguage;
use crate::lint::{
    HitView, IssueView, as_issues, configured_issues, hits_at, hits_kids, lint_issues, rev_hits_at,
    rev_kids, rule_issues, rule_list_issues, threshold_issues, tree_hits,
};
use crate::rules::{Rule, rule_hits, spec_default_severity, spec_rule_name};
use crate::rules::common::{ReturnSearch, returns_at, returns_kids, search_rule};
use crate::syntax::SyntaxTree;
use crate::threshold::{depth_at, depth_kids, max_depth_hits, max_lines_hits};
use crate::types::Severity;

verus! {

/// Whether rule `r` may label a finding `n`: its own name, and for Python's
/// `no-eval` also `no-exec`.
pub open spec fn labels(r: Rule, n: Seq<char>) -> bool {
    n == spec_rule_name(r) || (r == Rule::PyNoEval && n == "no-exec"@)
}

/// Every finding of `hs` carries name `n`, at a line and column of at
/// least 1.
pub open spec fn all_named(hs: Seq<HitView>, n: Seq<char>) -> bool {
    forall|k: int| 0 <= k < hs.len() ==> (#[trigger] hs[k]).2 == n && hs[k].0 >= 1 && hs[k].1 >= 1
}

/// Every finding of `hs` carries a name that rule `r` may use, at a line
/// and column of at least 1.
pub open spec fn labelled(hs: Seq<HitView>, r: Rule) -> bool {
    forall|k: int| 0 <= k < hs.len() ==> labels(r, (#[trigger] hs[k]).2) && hs[k].0 >= 1 && hs[k].1 >= 1
}

proof fn lemma_named_concat(a: Seq<HitView>, b: Seq<HitView>, n: Seq<char>)
    requires
        all_named(a, n),
        all_named(b, n),
    ensures
        all_named(a + b, n),
{
    assert forall|k: int| 0 <= k < (a + b).len() implies (#[trigger] (a + b)[k]).2 == n by {
        if k < a.len() {
            assert((a + b)[k] == a[k]);
        } else {
            assert((a + b)[k] == b[k - a.len()]);
        }
    }
}

proof fn lemma_labelled_concat(a: Seq<HitView>, b: Seq<HitView>, r: Rule)
    requires
        labelled(a, r),
        labelled(b, r),
    ensures
        labelled(a + b, r),
{
    assert forall|k: int| 0 <= k < (a + b).len() implies labels(r, (#[trigger] (a + b)[k]).2) by {
        if k < a.len() {
            assert((a + b)[k] == a[k]);
        } else {
            assert((a + b)[k] == b[k - a.len()]);
        }
    }
}

proof fn lemma_duplicate_cases_named(t: SyntaxTree, cs: Seq<usize>)
    ensures
        all_named(crate::rules::js::duplicate_cases(t, cs), "no-duplicate-case"@),
    decreases cs.len(),
{
    if cs.len() > 0 {
        lemma_duplicate_cases_named(t, cs.drop_last());
        let last = match crate::rules::js::case_label(t, cs.last() as int) {
            Some(l) => crate::lint::hit_if(
                crate::rules::js::labels(t, cs.drop_last()).contains(l),
                t,
                cs.last() as int,
                "no-duplicate-case"@,
                "Duplicate case label: "@ + l,
            ),
            None => seq![],
        };
        lemma_named_concat(crate::rules::js::duplicate_cases(t, cs.drop_last()), last, "no-duplicate-case"@);
    }
}

proof fn lemma_falling_cases_named(t: SyntaxTree, cs: Seq<usize>)
    ensures
        all_named(crate::rules::js::falling_cases(t, cs), "no-fallthrough"@),
    decreases cs.len(),
{
    if cs.len() > 0 {
        lemma_falling_cases_named(t, cs.drop_last());
        let c = cs.last() as int;
        let st = crate::rules::js::case_stmts(t, t.children(c));
        let last = crate::lint::hit_if(
            t.kind(c) == "switch_case"@ && st.len() > 0 && !crate::rules::js::ends_flow(t, st.last() as int),
            t,
            c,
            "no-fallthrough"@,
            "Expected break, return, or throw before next case"@,
        );
        lemma_named_concat(crate::rules::js::falling_cases(t, cs.drop_last()), last, "no-fallthrough"@);
    }
}

proof fn lemma_returns_at_named(t: SyntaxTree, c: int, s: ReturnSearch)
    ensures
        all_named(returns_at(t, c, s), search_rule(s)),
    decreases t.len() - c, 1int, 0int,
{
    lemma_returns_kids_named(t, c, 0, s);
    if !crate::rules::common::search_skips(t.kind(c), s) {
        let here = crate::lint::hit_if(
            crate::rules::common::search_finds(t, c, s),
            t,
            c,
            search_rule(s),
            crate::rules::common::search_message(s),
        );
        lemma_named_concat(here, returns_kids(t, c, 0, s), search_rule(s));
    }
}

proof fn lemma_returns_kids_named(t: SyntaxTree, p: int, k: int, s: ReturnSearch)
    ensures
        all_named(returns_kids(t, p, k, s), search_rule(s)),
    decreases t.len() - p, 0int, t.children(p).len() - k,
{
    if 0 <= k < t.children(p).len() {
        let c = t.children(p)[k] as int;
        lemma_returns_kids_named(t, p, k + 1, s);
        if p < c < t.len() {
            lemma_returns_at_named(t, c, s);
            lemma_named_concat(returns_at(t, c, s), returns_kids(t, p, k + 1, s), search_rule(s));
        } else {
            lemma_named_concat(seq![], returns_kids(t, p, k + 1, s), search_rule(s));
        }
    }
}

proof fn lemma_shadowing_named(t: SyntaxTree, i: int, cs: Seq<usize>, imports: Seq<Seq<char>>)
    ensures
        all_named(crate::rules::go::shadowing(t, i, cs, imports), "no-shadow-import"@),
    decreases cs.len(),
{
    if cs.len() > 0 {
        lemma_shadowing_named(t, i, cs.drop_last(), imports);
        let c = cs.last() as int;
        let last = crate::lint::hit_if(
            t.kind(c) == "identifier"@ && imports.contains(t.text(c)),
            t,
            i,
            "no-shadow-import"@,
            "Variable `"@ + t.text(c) + "` shadows imported package"@,
        );
        lemma_named_concat(crate::rules::go::shadowing(t, i, cs.drop_last(), imports), last, "no-shadow-import"@);
    }
}

proof fn lemma_broad_excepts_named(t: SyntaxTree, i: int, cs: Seq<usize>)
    ensures
        all_named(crate::rules::python::broad_excepts(t, i, cs), "no-bare-except"@),
    decreases cs.len(),
{
    if cs.len() > 0 {
        lemma_broad_excepts_named(t, i, cs.drop_last());
        let last = crate::lint::hit_if(
            t.kind(cs.last() as int) == "identifier"@ && t.text(cs.last() as int) == "Exception"@,
            t,
            i,
            "no-bare-except"@,
            "Avoid `except Exception:`, catch specific exceptions"@,
        );
        lemma_named_concat(crate::rules::python::broad_excepts(t, i, cs.drop_last()), last, "no-bare-except"@);
    }
}

proof fn lemma_falling_c_cases_named(t: SyntaxTree, cs: Seq<usize>, total: int)
    ensures
        all_named(crate::rules::c::falling_c_cases(t, cs, total), "no-implicit-fallthrough"@),
    decreases cs.len(),
{
    if cs.len() > 0 {
        lemma_falling_c_cases_named(t, cs.drop_last(), total);
        let last = crate::lint::hit_if(
            crate::rules::c::case_falls(t, cs.last() as int) && cs.len() < total,
            t,
            cs.last() as int,
            "no-implicit-fallthrough"@,
            "Case without break, return, or goto before next case"@,
        );
        lemma_named_concat(
            crate::rules::c::falling_c_cases(t, cs.drop_last(), total),
            last,
            "no-implicit-fallthrough"@,
        );
    }
}

proof fn lemma_relative_strings_named(t: SyntaxTree, i: int, cs: Seq<usize>)
    ensures
        all_named(crate::rules::ruby::relative_strings(t, i, cs), "require-relative"@),
    decreases cs.len(),
{
    if cs.len() > 0 {
        lemma_relative_strings_named(t, i, cs.drop_last());
        let last = crate::lint::hit_if(
            crate::rules::ruby::is_relative_string(t, cs.last() as int),
            t,
            i,
            "require-relative"@,
            "Use `require_relative` instead of `require` with relative path"@,
        );
        lemma_named_concat(crate::rules::ruby::relative_strings(t, i, cs.drop_last()), last, "require-relative"@);
    }
}

proof fn lemma_empty_statements_named(t: SyntaxTree, i: int, cs: Seq<usize>)
    ensures
        all_named(crate::rules::jvm::empty_statements(t, i, cs), "no-empty-catch"@),
    decreases cs.len(),
{
    if cs.len() > 0 {
        lemma_empty_statements_named(t, i, cs.drop_last());
        let c = cs.last() as int;
        let last = crate::lint::hit_if(
            t.kind(c) == "statements"@ && crate::rules::common::kids_except(
                t,
                c,
                crate::rules::common::Noise::BracesKotlinComments,
            ).len() == 0,
            t,
            i,
            "no-empty-catch"@,
            "Empty catch block; handle or rethrow the exception"@,
        );
        lemma_named_concat(crate::rules::jvm::empty_statements(t, i, cs.drop_last()), last, "no-empty-catch"@);
    }
}

proof fn lemma_unused_imports_named(t: SyntaxTree, cs: Seq<usize>)
    ensures
        all_named(crate::rules::haskell::unused_imports(t, cs), "unused-import"@),
    decreases cs.len(),
{
    if cs.len() > 0 {
        lemma_unused_imports_named(t, cs.drop_last());
        lemma_named_concat(
            crate::rules::haskell::unused_imports(t, cs.drop_last()),
            crate::rules::haskell::unused_import_of(t, cs.last() as int),
            "unused-import"@,
        );
    }
}

proof fn lemma_labelled_js(t: SyntaxTree, i: int, r: Rule)
    requires
        r == Rule::NoAny
        || r == Rule::NoConsole
        || r == Rule::NoVar
        || r == Rule::Eqeqeq
        || r == Rule::JsNoEmptyFunction
        || r == Rule::NoNestedTernary
        || r == Rule::NoDebugger
        || r == Rule::NoDuplicateCase
        || r == Rule::NoSelfAssign
        || r == Rule::JsNoEval
        || r == Rule::JsNoUnreachable
        || r == Rule::NoConstantCondition
        || r == Rule::DefaultCase
        || r == Rule::NoFallthrough
        || r == Rule::NoSelfCompare
        || r == Rule::NoUselessCatch
        || r == Rule::UseIsnan
        || r == Rule::NoCompareNegZero
        || r == Rule::NoUnsafeNegation
        || r == Rule::NoConstructorReturn
        || r == Rule::ValidTypeof
        || r == Rule::NoUselessRename
        || r == Rule::NoEmptyPattern,
    ensures
        labelled(rule_hits(t, i, r), r),
{
    if r == Rule::NoDuplicateCase {
        if t.kind(i) == "switch_body"@ {
            lemma_duplicate_cases_named(t, t.children(i));
        }
    } else if r == Rule::NoFallthrough {
        if t.kind(i) == "switch_body"@ {
            lemma_falling_cases_named(t, t.children(i));
        }
    }
}

proof fn lemma_labelled_rust(t: SyntaxTree, i: int, r: Rule)
    requires
        r == Rule::NoUnsafe
        || r == Rule::NoUnwrap
        || r == Rule::NoDbg
        || r == Rule::RustNoTodo
        || r == Rule::RustNoPrintln
        || r == Rule::NeedlessBool
        || r == Rule::RustNoEmptyFunction
        || r == Rule::NeedlessReturn
        || r == Rule::BoolComparison
        || r == Rule::RustCollapsibleIf
        || r == Rule::SingleMatch
        || r == Rule::ManualMap
        || r == Rule::RedundantClone
        || r == Rule::EqOp,
    ensures
        labelled(rule_hits(t, i, r), r),
{

}

proof fn lemma_labelled_go(t: SyntaxTree, i: int, r: Rule)
    requires
        r == Rule::GoNoPanic
        || r == Rule::NoFmtPrint
        || r == Rule::NoIgnoredError
        || r == Rule::NoOsExit
        || r == Rule::NoDeferInLoop
        || r == Rule::NoEmptyBlock
        || r == Rule::GoNoUnreachable
        || r == Rule::NoNakedReturn
        || r == Rule::NoRangeOverString
        || r == Rule::NoShadowImport
        || r == Rule::GoCollapsibleIf
        || r == Rule::GoSuperfluousElse,
    ensures
        labelled(rule_hits(t, i, r), r),
{
    if r == Rule::NoNakedReturn {
        lemma_returns_kids_named(t, t.child_by_field(i, "body"@).unwrap() as int, 0, ReturnSearch::Bare);
    } else if r == Rule::NoShadowImport {
        lemma_shadowing_named(
            t,
            i,
            t.children(t.child_by_field(i, "left"@).unwrap() as int),
            crate::rules::go::file_imports(t),
        );
    }
}

proof fn lemma_labelled_python(t: SyntaxTree, i: int, r: Rule)
    requires
        r == Rule::NoBareExcept
        || r == Rule::PyNoPrint
        || r == Rule::PyNoEval
        || r == Rule::NoMutableDefault
        || r == Rule::PyNoGlobal
        || r == Rule::NoAssert
        || r == Rule::Unreachable
        || r == Rule::PointlessExcept
        || r == Rule::NoPassBody
        || r == Rule::NoStarImport
        || r == Rule::NoNestedWith
        || r == Rule::NoReturnInInit
        || r == Rule::SimplifyBooleanReturn
        || r == Rule::PyCollapsibleIf
        || r == Rule::PySuperfluousElse,
    ensures
        labelled(rule_hits(t, i, r), r),
{
    if r == Rule::NoBareExcept {
        lemma_broad_excepts_named(t, i, t.children(i));
    } else if r == Rule::PyNoEval {
        let f = crate::rules::python::py_callee(t, i);
        let a = crate::lint::hit_if(
            crate::rules::common::text_of_is(t, f, "eval"@),
            t,
            i,
            "no-eval"@,
            "`eval()` is a security risk"@,
        );
        let b = crate::lint::hit_if(
            crate::rules::common::text_of_is(t, f, "exec"@),
            t,
            i,
            "no-exec"@,
            "`exec()` is a security risk"@,
        );
        lemma_labelled_concat(a, b, r);
    } else if r == Rule::NoReturnInInit {
        lemma_returns_kids_named(t, t.child_by_field(i, "body"@).unwrap() as int, 0, ReturnSearch::Valued);
    }
}

proof fn lemma_labelled_java(t: SyntaxTree, i: int, r: Rule)
    requires
        r == Rule::NoSysout
        || r == Rule::NoPrintStackTrace
        || r == Rule::JavaNoEmptyCatch
        || r == Rule::NoThrowsException
        || r == Rule::NoRawType
        || r == Rule::NoStringEquality
        || r == Rule::MissingSwitchDefault
        || r == Rule::JavaNoEmptyIf
        || r == Rule::NoDoubleBraceInit
        || r == Rule::NoStringConcatInLoop
        || r == Rule::NoNestedTry
        || r == Rule::EqualsNull,
    ensures
        labelled(rule_hits(t, i, r), r),
{

}

proof fn lemma_labelled_c(t: SyntaxTree, i: int, r: Rule)
    requires
        r == Rule::NoPrintf
        || r == Rule::NoUnsafeFn
        || r == Rule::NoMalloc
        || r == Rule::NoGoto
        || r == Rule::NoSizeofPtr
        || r == Rule::NoMagicNumber
        || r == Rule::NoImplicitFallthrough
        || r == Rule::CNoEmptyIf
        || r == Rule::NoVoidMain,
    ensures
        labelled(rule_hits(t, i, r), r),
{
    if r == Rule::NoImplicitFallthrough {
        let cases = crate::rules::common::kids_of_kind(
            t,
            t.child_by_field(i, "body"@).unwrap() as int,
            "case_statement"@,
        );
        lemma_falling_c_cases_named(t, cases, cases.len() as int);
    }
}

proof fn lemma_labelled_elixir(t: SyntaxTree, i: int, r: Rule)
    requires
        r == Rule::NoIoInspect
        || r == Rule::NoIoPuts
        || r == Rule::NoRaiseInWith
        || r == Rule::PipeIntoAnonymous,
    ensures
        labelled(rule_hits(t, i, r), r),
{

}

proof fn lemma_labelled_erlang(t: SyntaxTree, i: int, r: Rule)
    requires
        r == Rule::NoProcessFlag
        || r == Rule::NoCatchAll
        || r == Rule::NoExitCall,
    ensures
        labelled(rule_hits(t, i, r), r),
{

}

proof fn lemma_labelled_gleam(t: SyntaxTree, i: int, r: Rule)
    requires
        r == Rule::GleamNoTodo
        || r == Rule::GleamNoPanic
        || r == Rule::NoLetAssert,
    ensures
        labelled(rule_hits(t, i, r), r),
{

}

proof fn lemma_labelled_clojure(t: SyntaxTree, i: int, r: Rule)
    requires
        r == Rule::ClojureNoPrintln
        || r == Rule::NoDefInDef
        || r == Rule::NoThreadSleep
        || r == Rule::NoReflection,
    ensures
        labelled(rule_hits(t, i, r), r),
{

}

proof fn lemma_labelled_universal(t: SyntaxTree, i: int, r: Rule)
    requires
        r == Rule::TodoComment
        || r == Rule::EmptyFunction,
    ensures
        labelled(rule_hits(t, i, r), r),
{

}

proof fn lemma_labelled_ruby(t: SyntaxTree, i: int, r: Rule)
    requires
        r == Rule::RubyNoPuts
        || r == Rule::RubyNoEval
        || r == Rule::RequireRelative
        || r == Rule::RubyNoRescueException
        || r == Rule::RubyNoSleep,
    ensures
        labelled(rule_hits(t, i, r), r),
{
    if r == Rule::RequireRelative {
        lemma_relative_strings_named(t, i, t.children(t.child_by_field(i, "arguments"@).unwrap() as int));
    }
}

proof fn lemma_labelled_crystal(t: SyntaxTree, i: int, r: Rule)
    requires
        r == Rule::CrystalNoPuts
        || r == Rule::NoRaiseString
        || r == Rule::CrystalNoRescueException
        || r == Rule::NoShell
        || r == Rule::CrystalNoSleep,
    ensures
        labelled(rule_hits(t, i, r), r),
{

}

proof fn lemma_labelled_php(t: SyntaxTree, i: int, r: Rule)
    requires
        r == Rule::NoDebugOutput
        || r == Rule::PhpNoEval
        || r == Rule::NoExit
        || r == Rule::StrictComparison
        || r == Rule::NoErrorSuppression,
    ensures
        labelled(rule_hits(t, i, r), r),
{

}

proof fn lemma_labelled_lua(t: SyntaxTree, i: int, r: Rule)
    requires
        r == Rule::LuaNoGlobal
        || r == Rule::NoOsExecute
        || r == Rule::NoLoadstring
        || r == Rule::LuaNoPrint,
    ensures
        labelled(rule_hits(t, i, r), r),
{

}

proof fn lemma_labelled_swift(t: SyntaxTree, i: int, r: Rule)
    requires
        r == Rule::SwiftNoPrint
        || r == Rule::NoForceUnwrap
        || r == Rule::NoForceTry
        || r == Rule::NoForceCast
        || r == Rule::NoNslog
        || r == Rule::NoFatalError,
    ensures
        labelled(rule_hits(t, i, r), r),
{

}

proof fn lemma_labelled_zig(t: SyntaxTree, i: int, r: Rule)
    requires
        r == Rule::NoDebugPrint
        || r == Rule::ZigNoUnreachable
        || r == Rule::ZigNoPanic
        || r == Rule::NoCatchAllSwitch,
    ensures
        labelled(rule_hits(t, i, r), r),
{

}

proof fn lemma_labelled_haskell(t: SyntaxTree, i: int, r: Rule)
    requires
        r == Rule::NoPartialFunction
        || r == Rule::NoUndefined
        || r == Rule::NoError
        || r == Rule::NoUnsafePerformIo
        || r == Rule::NoTrace,
    ensures
        labelled(rule_hits(t, i, r), r),
{

}

proof fn lemma_labelled_elm(t: SyntaxTree, i: int, r: Rule)
    requires
        r == Rule::NoDebug
        || r == Rule::ElmNoTodo
        || r == Rule::UnusedImport,
    ensures
        labelled(rule_hits(t, i, r), r),
{
    if r == Rule::UnusedImport {
        if i == 0 {
            lemma_unused_imports_named(t, t.children(0));
        }
    }
}

proof fn lemma_labelled_scala(t: SyntaxTree, i: int, r: Rule)
    requires
        r == Rule::ScalaNoPrintln
        || r == Rule::NoNull
        || r == Rule::ScalaNoVar
        || r == Rule::NoReturn
        || r == Rule::NoAsInstanceOf,
    ensures
        labelled(rule_hits(t, i, r), r),
{

}

proof fn lemma_labelled_kotlin(t: SyntaxTree, i: int, r: Rule)
    requires
        r == Rule::KotlinNoPrintln
        || r == Rule::NoUnsafeCast
        || r == Rule::NoNotNullAssertion
        || r == Rule::KotlinNoEmptyCatch
        || r == Rule::KotlinNoSystemExit
        || r == Rule::PreferVal,
    ensures
        labelled(rule_hits(t, i, r), r),
{
    if r == Rule::KotlinNoEmptyCatch {
        if t.kind(i) == "catch_block"@ {
            lemma_empty_statements_named(t, i, t.children(i));
        }
    }
}

proof fn lemma_labelled_groovy(t: SyntaxTree, i: int, r: Rule)
    requires
        r == Rule::GroovyNoPrintln
        || r == Rule::NoDefType
        || r == Rule::GroovyNoSystemExit
        || r == Rule::GroovyNoEmptyCatch,
    ensures
        labelled(rule_hits(t, i, r), r),
{

}

proof fn lemma_labelled_dart(t: SyntaxTree, i: int, r: Rule)
    requires
        r == Rule::DartNoPrint
        || r == Rule::NoDynamic
        || r == Rule::DartNoEmptyCatch
        || r == Rule::NoCast
        || r == Rule::NoRethrowOnly,
    ensures
        labelled(rule_hits(t, i, r), r),
{

}

proof fn lemma_labelled_julia(t: SyntaxTree, i: int, r: Rule)
    requires
        r == Rule::JuliaNoPrintln
        || r == Rule::JuliaNoEval
        || r == Rule::NoGlobalMutable
        || r == Rule::NoBareCcall,
    ensures
        labelled(rule_hits(t, i, r), r),
{

}

proof fn lemma_labelled_lean(t: SyntaxTree, i: int, r: Rule)
    requires
        r == Rule::NoSorry
        || r == Rule::NoAxiom
        || r == Rule::NoNativeDecide
        || r == Rule::LeanNoUnsafe
        || r == Rule::NoUnlimitedHeartbeats
        || r == Rule::NoPartialDef
        || r == Rule::NoDbgTrace
        || r == Rule::NoDebugCommand,
    ensures
        labelled(rule_hits(t, i, r), r),
{

}

proof fn lemma_labelled_bash(t: SyntaxTree, i: int, r: Rule)
    requires
        r == Rule::UnquotedExpansion
        || r == Rule::BashNoEval
        || r == Rule::CdWithoutOr
        || r == Rule::UselessCat
        || r == Rule::DangerousRm
        || r == Rule::NoSetE
        || r == Rule::TestEquals,
    ensures
        labelled(rule_hits(t, i, r), r),
{

}

/// Every finding rule `r` reports at a node carries a name `r` may use.
pub proof fn lemma_rule_hits_labelled(t: SyntaxTree, i: int, r: Rule)
    ensures
        labelled(rule_hits(t, i, r), r),
{
    match r {
        Rule::NoAny | Rule::NoConsole | Rule::NoVar | Rule::Eqeqeq | Rule::JsNoEmptyFunction | Rule::NoNestedTernary | Rule::NoDebugger | Rule::NoDuplicateCase | Rule::NoSelfAssign | Rule::JsNoEval | Rule::JsNoUnreachable | Rule::NoConstantCondition | Rule::DefaultCase | Rule::NoFallthrough | Rule::NoSelfCompare | Rule::NoUselessCatch | Rule::UseIsnan | Rule::NoCompareNegZero | Rule::NoUnsafeNegation | Rule::NoConstructorReturn | Rule::ValidTypeof | Rule::NoUselessRename | Rule::NoEmptyPattern => lemma_labelled_js(t, i, r),
        Rule::NoUnsafe | Rule::NoUnwrap | Rule::NoDbg | Rule::RustNoTodo | Rule::RustNoPrintln | Rule::NeedlessBool | Rule::RustNoEmptyFunction | Rule::NeedlessReturn | Rule::BoolComparison | Rule::RustCollapsibleIf | Rule::SingleMatch | Rule::ManualMap | Rule::RedundantClone | Rule::EqOp => lemma_labelled_rust(t, i, r),
        Rule::GoNoPanic | Rule::NoFmtPrint | Rule::NoIgnoredError | Rule::NoOsExit | Rule::NoDeferInLoop | Rule::NoEmptyBlock | Rule::GoNoUnreachable | Rule::NoNakedReturn | Rule::NoRangeOverString | Rule::NoShadowImport | Rule::GoCollapsibleIf | Rule::GoSuperfluousElse => lemma_labelled_go(t, i, r),
        Rule::NoBareExcept | Rule::PyNoPrint | Rule::PyNoEval | Rule::NoMutableDefault | Rule::PyNoGlobal | Rule::NoAssert | Rule::Unreachable | Rule::PointlessExcept | Rule::NoPassBody | Rule::NoStarImport | Rule::NoNestedWith | Rule::NoReturnInInit | Rule::SimplifyBooleanReturn | Rule::PyCollapsibleIf | Rule::PySuperfluousElse => lemma_labelled_python(t, i, r),
        Rule::NoSysout | Rule::NoPrintStackTrace | Rule::JavaNoEmptyCatch | Rule::NoThrowsException | Rule::NoRawType | Rule::NoStringEquality | Rule::MissingSwitchDefault | Rule::JavaNoEmptyIf | Rule::NoDoubleBraceInit | Rule::NoStringConcatInLoop | Rule::NoNestedTry | Rule::EqualsNull => lemma_labelled_java(t, i, r),
        Rule::NoPrintf | Rule::NoUnsafeFn | Rule::NoMalloc | Rule::NoGoto | Rule::NoSizeofPtr | Rule::NoMagicNumber | Rule::NoImplicitFallthrough | Rule::CNoEmptyIf | Rule::NoVoidMain => lemma_labelled_c(t, i, r),
        Rule::NoIoInspect | Rule::NoIoPuts | Rule::NoRaiseInWith | Rule::PipeIntoAnonymous => lemma_labelled_elixir(t, i, r),
        Rule::NoProcessFlag | Rule::NoCatchAll | Rule::NoExitCall => lemma_labelled_erlang(t, i, r),
        Rule::GleamNoTodo | Rule::GleamNoPanic | Rule::NoLetAssert => lemma_labelled_gleam(t, i, r),
        Rule::ClojureNoPrintln | Rule::NoDefInDef | Rule::NoThreadSleep | Rule::NoReflection => lemma_labelled_clojure(t, i, r),
        Rule::TodoComment | Rule::EmptyFunction => lemma_labelled_universal(t, i, r),
        Rule::RubyNoPuts | Rule::RubyNoEval | Rule::RequireRelative | Rule::RubyNoRescueException | Rule::RubyNoSleep => lemma_labelled_ruby(t, i, r),
        Rule::CrystalNoPuts | Rule::NoRaiseString | Rule::CrystalNoRescueException | Rule::NoShell | Rule::CrystalNoSleep => lemma_labelled_crystal(t, i, r),
        Rule::NoDebugOutput | Rule::PhpNoEval | Rule::NoExit | Rule::StrictComparison | Rule::NoErrorSuppression => lemma_labelled_php(t, i, r),
        Rule::LuaNoGlobal | Rule::NoOsExecute | Rule::NoLoadstring | Rule::LuaNoPrint => lemma_labelled_lua(t, i, r),
        Rule::SwiftNoPrint | Rule::NoForceUnwrap | Rule::NoForceTry | Rule::NoForceCast | Rule::NoNslog | Rule::NoFatalError => lemma_labelled_swift(t, i, r),
        Rule::NoDebugPrint | Rule::ZigNoUnreachable | Rule::ZigNoPanic | Rule::NoCatchAllSwitch => lemma_labelled_zig(t, i, r),
        Rule::NoPartialFunction | Rule::NoUndefined | Rule::NoError | Rule::NoUnsafePerformIo | Rule::NoTrace => lemma_labelled_haskell(t, i, r),
        Rule::NoDebug | Rule::ElmNoTodo | Rule::UnusedImport => lemma_labelled_elm(t, i, r),
        Rule::ScalaNoPrintln | Rule::NoNull | Rule::ScalaNoVar | Rule::NoReturn | Rule::NoAsInstanceOf => lemma_labelled_scala(t, i, r),
        Rule::KotlinNoPrintln | Rule::NoUnsafeCast | Rule::NoNotNullAssertion | Rule::KotlinNoEmptyCatch | Rule::KotlinNoSystemExit | Rule::PreferVal => lemma_labelled_kotlin(t, i, r),
        Rule::GroovyNoPrintln | Rule::NoDefType | Rule::GroovyNoSystemExit | Rule::GroovyNoEmptyCatch => lemma_labelled_groovy(t, i, r),
        Rule::DartNoPrint | Rule::NoDynamic | Rule::DartNoEmptyCatch | Rule::NoCast | Rule::NoRethrowOnly => lemma_labelled_dart(t, i, r),
        Rule::JuliaNoPrintln | Rule::JuliaNoEval | Rule::NoGlobalMutable | Rule::NoBareCcall => lemma_labelled_julia(t, i, r),
        Rule::NoSorry | Rule::NoAxiom | Rule::NoNativeDecide | Rule::LeanNoUnsafe | Rule::NoUnlimitedHeartbeats | Rule::NoPartialDef | Rule::NoDbgTrace | Rule::NoDebugCommand => lemma_labelled_lean(t, i, r),
        Rule::UnquotedExpansion | Rule::BashNoEval | Rule::CdWithoutOr | Rule::UselessCat | Rule::DangerousRm | Rule::NoSetE | Rule::TestEquals => lemma_labelled_bash(t, i, r),
        Rule::MaxParams(_) => {},
        Rule::GoGenericMethod(_, _) => {},
    }
}

proof fn lemma_hits_at_labelled(t: SyntaxTree, i: int, r: Rule)
    ensures
        labelled(hits_at(t, i, r), r),
    decreases t.len() - i, 1int, 0int,
{
    lemma_rule_hits_labelled(t, i, r);
    lemma_hits_kids_labelled(t, i, 0, r);
    lemma_labelled_concat(rule_hits(t, i, r), hits_kids(t, i, 0, r), r);
}

proof fn lemma_hits_kids_labelled(t: SyntaxTree, p: int, k: int, r: Rule)
    ensures
        labelled(hits_kids(t, p, k, r), r),
    decreases t.len() - p, 0int, t.children(p).len() - k,
{
    if 0 <= k < t.children(p).len() {
        let c = t.children(p)[k] as int;
        lemma_hits_kids_labelled(t, p, k + 1, r);
        if p < c < t.len() {
            lemma_hits_at_labelled(t, c, r);
            lemma_labelled_concat(hits_at(t, c, r), hits_kids(t, p, k + 1, r), r);
        } else {
            lemma_labelled_concat(seq![], hits_kids(t, p, k + 1, r), r);
        }
    }
}

proof fn lemma_rev_hits_at_labelled(t: SyntaxTree, i: int, r: Rule)
    ensures
        labelled(rev_hits_at(t, i, r), r),
    decreases t.len() - i, 1int, 0int,
{
    lemma_rule_hits_labelled(t, i, r);
    lemma_rev_kids_labelled(t, i, t.children(i).len() as int, r);
    lemma_labelled_concat(rule_hits(t, i, r), rev_kids(t, i, t.children(i).len() as int, r), r);
}

proof fn lemma_rev_kids_labelled(t: SyntaxTree, p: int, k: int, r: Rule)
    ensures
        labelled(rev_kids(t, p, k, r), r),
    decreases t.len() - p, 0int, k,
{
    if 0 < k <= t.children(p).len() {
        let c = t.children(p)[k - 1] as int;
        lemma_rev_kids_labelled(t, p, k - 1, r);
        if p < c < t.len() {
            lemma_rev_hits_at_labelled(t, c, r);
            lemma_labelled_concat(rev_hits_at(t, c, r), rev_kids(t, p, k - 1, r), r);
        } else {
            lemma_labelled_concat(seq![], rev_kids(t, p, k - 1, r), r);
        }
    }
}

/// Every issue rule `r` raises in a file carries a name `r` may use and the
/// severity it was run at.
pub proof fn lemma_rule_issues_labelled(t: SyntaxTree, file: Seq<char>, r: Rule, sev: Severity)
    ensures
        forall|k: int| 0 <= k < rule_issues(t, file, r, sev).len() ==> labels(r, (#[trigger] rule_issues(t, file, r, sev)[k]).4)
            && rule_issues(t, file, r, sev)[k].3 == sev,
        forall|k: int| 0 <= k < rule_issues(t, file, r, sev).len() ==> (#[trigger] rule_issues(t, file, r, sev)[k]).0
            == file && rule_issues(t, file, r, sev)[k].1 >= 1 && rule_issues(t, file, r, sev)[k].2 >= 1,
{
    if t.len() > 0 {
        if crate::rules::reversed(r) {
            lemma_rev_hits_at_labelled(t, 0, r);
        } else {
            lemma_hits_at_labelled(t, 0, r);
        }
    }
    let hs = tree_hits(t, r);
    assert forall|k: int| 0 <= k < rule_issues(t, file, r, sev).len() implies labels(r, (#[trigger] rule_issues(t, file, r, sev)[k]).4)
        && rule_issues(t, file, r, sev)[k].3 == sev by {
        assert(rule_issues(t, file, r, sev)[k] == as_issues(hs, file, sev)[k]);
        assert(as_issues(hs, file, sev)[k].4 == hs[k].2);
    }
    assert forall|k: int| 0 <= k < rule_issues(t, file, r, sev).len() implies (#[trigger] rule_issues(
        t,
        file,
        r,
        sev,
    )[k]).0 == file && rule_issues(t, file, r, sev)[k].1 >= 1 && rule_issues(t, file, r, sev)[k].2 >= 1 by {
        assert(rule_issues(t, file, r, sev)[k] == as_issues(hs, file, sev)[k]);
        assert(as_issues(hs, file, sev)[k].1 == hs[k].0);
    }
}

/// No issue of `is` is named `name`.
pub open spec fn avoids(is: Seq<IssueView>, name: Seq<char>) -> bool {
    forall|k: int| 0 <= k < is.len() ==> (#[trigger] is[k]).4 != name
}

/// Every issue of `is` named `name` has severity `sev`.
pub open spec fn severity_of_name(is: Seq<IssueView>, name: Seq<char>, sev: Severity) -> bool {
    forall|k: int| 0 <= k < is.len() && (#[trigger] is[k]).4 == name ==> is[k].3 == sev
}

proof fn lemma_issue_concat(a: Seq<IssueView>, b: Seq<IssueView>, name: Seq<char>, sev: Severity)
    ensures
        avoids(a, name) && avoids(b, name) ==> avoids(a + b, name),
        severity_of_name(a, name, sev) && severity_of_name(b, name, sev) ==> severity_of_name(a + b, name, sev),
{
    assert forall|k: int| 0 <= k < (a + b).len() implies (#[trigger] (a + b)[k]) == if k < a.len() {
        a[k]
    } else {
        b[k - a.len()]
    } by {}
}

proof fn lemma_configured(t: SyntaxTree, file: Seq<char>, config: CodopsyConfig, r: Rule, name: Seq<char>, sev: Severity)
    requires
        name != "no-exec"@,
    ensures
        config.spec_disabled(name) ==> avoids(configured_issues(t, file, config, r), name),
        config.spec_severity(name) == Some(sev) ==> severity_of_name(configured_issues(t, file, config, r), name, sev),
{
    let n = spec_rule_name(r);
    let s = config.severity_or(n, spec_default_severity(r));
    lemma_rule_issues_labelled(t, file, r, s);
}

proof fn lemma_rule_list(
    t: SyntaxTree,
    file: Seq<char>,
    config: CodopsyConfig,
    rs: Seq<Rule>,
    name: Seq<char>,
    sev: Severity,
)
    requires
        name != "no-exec"@,
    ensures
        config.spec_disabled(name) ==> avoids(rule_list_issues(t, file, config, rs), name),
        config.spec_severity(name) == Some(sev) ==> severity_of_name(rule_list_issues(t, file, config, rs), name, sev),
    decreases rs.len(),
{
    if rs.len() > 0 {
        lemma_rule_list(t, file, config, rs.drop_last(), name, sev);
        lemma_configured(t, file, config, rs.last(), name, sev);
        lemma_issue_concat(
            rule_list_issues(t, file, config, rs.drop_last()),
            configured_issues(t, file, config, rs.last()),
            name,
            sev,
        );
    }
}

proof fn lemma_depth_at_named(t: SyntaxTree, i: int, d: int, max: int)
    ensures
        all_named(depth_at(t, i, d, max), "max-depth"@),
    decreases t.len() - i, 1int, 0int,
{
    let nd = if crate::threshold::deepens(t, i) { d + 1 } else { d };
    lemma_depth_kids_named(t, i, 0, nd, max);
    let here = crate::lint::hit_if(
        crate::threshold::deepens(t, i) && nd > max,
        t,
        i,
        "max-depth"@,
        "Nesting depth "@ + crate::text::decimal(nd as nat) + " exceeds max of "@ + crate::text::decimal(
            max as nat,
        ),
    );
    lemma_named_concat(here, depth_kids(t, i, 0, nd, max), "max-depth"@);
}

proof fn lemma_depth_kids_named(t: SyntaxTree, p: int, k: int, d: int, max: int)
    ensures
        all_named(depth_kids(t, p, k, d, max), "max-depth"@),
    decreases t.len() - p, 0int, t.children(p).len() - k,
{
    if 0 <= k < t.children(p).len() {
        let c = t.children(p)[k] as int;
        lemma_depth_kids_named(t, p, k + 1, d, max);
        if p < c < t.len() {
            lemma_depth_at_named(t, c, d, max);
            lemma_named_concat(depth_at(t, c, d, max), depth_kids(t, p, k + 1, d, max), "max-depth"@);
        } else {
            lemma_named_concat(seq![], depth_kids(t, p, k + 1, d, max), "max-depth"@);
        }
    }
}

proof fn lemma_as_issues_named(hs: Seq<HitView>, n: Seq<char>, file: Seq<char>, s: Severity)
    requires
        all_named(hs, n),
    ensures
        forall|k: int| 0 <= k < as_issues(hs, file, s).len() ==> (#[trigger] as_issues(hs, file, s)[k]).4 == n
            && as_issues(hs, file, s)[k].3 == s,
        forall|k: int| 0 <= k < as_issues(hs, file, s).len() ==> (#[trigger] as_issues(hs, file, s)[k]).0 == file
            && as_issues(hs, file, s)[k].1 >= 1 && as_issues(hs, file, s)[k].2 >= 1,
{
    assert forall|k: int| 0 <= k < as_issues(hs, file, s).len() implies (#[trigger] as_issues(hs, file, s)[k]).4 == n
        && as_issues(hs, file, s)[k].3 == s by {
        assert(as_issues(hs, file, s)[k].4 == hs[k].2);
    }
}

proof fn lemma_thresholds(t: SyntaxTree, file: Seq<char>, config: CodopsyConfig, name: Seq<char>, sev: Severity)
    ensures
        config.spec_disabled(name) ==> avoids(threshold_issues(t, file, config), name),
        config.spec_severity(name) == Some(sev) ==> severity_of_name(threshold_issues(t, file, config), name, sev),
{
    let lines = match config.spec_threshold("max-lines"@, MAX_LINES) {
        Some(m) => as_issues(
            max_lines_hits(t.source@, m as int),
            file,
            config.severity_or("max-lines"@, Severity::Warning),
        ),
        None => seq![],
    };
    let depth = match config.spec_threshold("max-depth"@, MAX_DEPTH) {
        Some(m) => as_issues(
            max_depth_hits(t, m as int),
            file,
            config.severity_or("max-depth"@, Severity::Warning),
        ),
        None => seq![],
    };
    let params = match config.spec_threshold("max-params"@, MAX_PARAMS) {
        Some(m) => rule_issues(
            t,
            file,
            Rule::MaxParams(m),
            config.severity_or("max-params"@, Severity::Warning),
        ),
        None => seq![],
    };
    if let Some(m) = config.spec_threshold("max-lines"@, MAX_LINES) {
        lemma_as_issues_named(
            max_lines_hits(t.source@, m as int),
            "max-lines"@,
            file,
            config.severity_or("max-lines"@, Severity::Warning),
        );
    }
    if let Some(m) = config.spec_threshold("max-depth"@, MAX_DEPTH) {
        if t.len() > 0 {
            lemma_depth_at_named(t, 0, 0, m as int);
        }
        lemma_as_issues_named(
            max_depth_hits(t, m as int),
            "max-depth"@,
            file,
            config.severity_or("max-depth"@, Severity::Warning),
        );
    }
    if let Some(m) = config.spec_threshold("max-params"@, MAX_PARAMS) {
        lemma_rule_issues_labelled(t, file, Rule::MaxParams(m), config.severity_or("max-params"@, Severity::Warning));
    }
    lemma_issue_concat(lines, depth, name, sev);
    lemma_issue_concat(lines + depth, params, name, sev);
}

/// A rule switched off in the configuration raises no issue of its name
/// (Python's `exec(...)` findings, named `no-exec`, follow `no-eval`).
pub proof fn disabled_rule_is_never_reported(
    t: SyntaxTree,
    file: Seq<char>,
    config: CodopsyConfig,
    lang: SourceLanguage,
    name: Seq<char>,
)
    requires
        config.spec_disabled(name),
        name != "no-exec"@,
    ensures
        forall|k: int| 0 <= k < lint_issues(t, file, config, lang).len() ==> (#[trigger] lint_issues(
            t,
            file,
            config,
            lang,
        )[k]).4 != name,
{
    reported_names_follow_the_configuration(t, file, config, lang, name, Severity::Info);
}

/// A severity set for a rule in the configuration is the severity of every
/// issue of that name (Python's `exec(...)` findings, named `no-exec`,
/// follow `no-eval`).
pub proof fn configured_severity_is_applied(
    t: SyntaxTree,
    file: Seq<char>,
    config: CodopsyConfig,
    lang: SourceLanguage,
    name: Seq<char>,
    sev: Severity,
)
    requires
        config.spec_severity(name) == Some(sev),
        name != "no-exec"@,
    ensures
        forall|k: int| 0 <= k < lint_issues(t, file, config, lang).len() && (#[trigger] lint_issues(
            t,
            file,
            config,
            lang,
        )[k]).4 == name ==> lint_issues(t, file, config, lang)[k].3 == sev,
{
    reported_names_follow_the_configuration(t, file, config, lang, name, sev);
}

proof fn reported_names_follow_the_configuration(
    t: SyntaxTree,
    file: Seq<char>,
    config: CodopsyConfig,
    lang: SourceLanguage,
    name: Seq<char>,
    sev: Severity,
)
    requires
        name != "no-exec"@,
    ensures
        config.spec_disabled(name) ==> avoids(lint_issues(t, file, config, lang), name),
        config.spec_severity(name) == Some(sev) ==> severity_of_name(lint_issues(t, file, config, lang), name, sev),
{
    let u = rule_list_issues(t, file, config, crate::rules::universal_rule_list());
    let l = rule_list_issues(t, file, config, crate::rules::language_rule_list(lang));
    let e = if crate::lint::checks_empty_functions(lang) {
        configured_issues(t, file, config, Rule::EmptyFunction)
    } else {
        seq![]
    };
    let th = threshold_issues(t, file, config);
    lemma_rule_list(t, file, config, crate::rules::universal_rule_list(), name, sev);
    lemma_rule_list(t, file, config, crate::rules::language_rule_list(lang), name, sev);
    lemma_configured(t, file, config, Rule::EmptyFunction, name, sev);
    lemma_thresholds(t, file, config, name, sev);
    lemma_issue_concat(u, l, name, sev);
    lemma_issue_concat(u + l, e, name, sev);
    lemma_issue_concat(u + l + e, th, name, sev);
}


/// Every issue of `v` names file `file` and lies at a line and column of
/// at least 1.
pub open spec fn all_in_file(v: Seq<IssueView>, file: Seq<char>) -> bool {
    forall|k: int| 0 <= k < v.len() ==> (#[trigger] v[k]).0 == file && v[k].1 >= 1 && v[k].2 >= 1
}

pub(crate) proof fn lemma_in_file_concat(a: Seq<IssueView>, b: Seq<IssueView>, file: Seq<char>)
    requires
        all_in_file(a, file),
        all_in_file(b, file),
    ensures
        all_in_file(a + b, file),
{
    assert forall|k: int| 0 <= k < (a + b).len() implies (#[trigger] (a + b)[k]).0 == file && (a + b)[k].1 >= 1
        && (a + b)[k].2 >= 1 by {
        if k < a.len() {
            assert((a + b)[k] == a[k]);
        } else {
            assert((a + b)[k] == b[k - a.len()]);
        }
    }
}

proof fn lemma_rule_list_in_file(t: SyntaxTree, file: Seq<char>, config: CodopsyConfig, rs: Seq<Rule>)
    ensures
        all_in_file(rule_list_issues(t, file, config, rs), file),
    decreases rs.len(),
{
    if rs.len() > 0 {
        lemma_rule_list_in_file(t, file, config, rs.drop_last());
        let r = rs.last();
        let name = spec_rule_name(r);
        if !config.spec_disabled(name) {
            let sev = config.severity_or(name, spec_default_severity(r));
            lemma_rule_issues_labelled(t, file, r, sev);
        }
        lemma_in_file_concat(
            rule_list_issues(t, file, config, rs.drop_last()),
            configured_issues(t, file, config, r),
            file,
        );
    }
}

/// Every issue the lint of a file reports names that file and lies at a
/// line and column of at least 1.
pub proof fn every_issue_names_its_file_at_a_position(
    t: SyntaxTree,
    file: Seq<char>,
    config: CodopsyConfig,
    lang: SourceLanguage,
)
    ensures
        all_in_file(lint_issues(t, file, config, lang), file),
{
    let u = rule_list_issues(t, file, config, crate::rules::universal_rule_list());
    let l = rule_list_issues(t, file, config, crate::rules::language_rule_list(lang));
    let e = if crate::lint::checks_empty_functions(lang) {
        configured_issues(t, file, config, Rule::EmptyFunction)
    } else {
        seq![]
    };
    lemma_rule_list_in_file(t, file, config, crate::rules::universal_rule_list());
    lemma_rule_list_in_file(t, file, config, crate::rules::language_rule_list(lang));
    let en = spec_rule_name(Rule::EmptyFunction);
    lemma_rule_issues_labelled(t, file, Rule::EmptyFunction, config.severity_or(en, spec_default_severity(Rule::EmptyFunction)));
    let ls = config.severity_or("max-lines"@, Severity::Warning);
    let ds = config.severity_or("max-depth"@, Severity::Warning);
    let ps = config.severity_or("max-params"@, Severity::Warning);
    let lines = match config.spec_threshold("max-lines"@, MAX_LINES) {
        Some(m) => as_issues(max_lines_hits(t.source@, m as int), file, ls),
        None => seq![],
    };
    let depth = match config.spec_threshold("max-depth"@, MAX_DEPTH) {
        Some(m) => as_issues(max_depth_hits(t, m as int), file, ds),
        None => seq![],
    };
    let params = match config.spec_threshold("max-params"@, MAX_PARAMS) {
        Some(m) => rule_issues(t, file, Rule::MaxParams(m), ps),
        None => seq![],
    };
    if let Some(m) = config.spec_threshold("max-lines"@, MAX_LINES) {
        lemma_as_issues_named(max_lines_hits(t.source@, m as int), "max-lines"@, file, ls);
    }
    if let Some(m) = config.spec_threshold("max-depth"@, MAX_DEPTH) {
        if t.len() > 0 {
            lemma_depth_at_named(t, 0, 0, m as int);
        }
        lemma_as_issues_named(max_depth_hits(t, m as int), "max-depth"@, file, ds);
    }
    if let Some(m) = config.spec_threshold("max-params"@, MAX_PARAMS) {
        lemma_rule_issues_labelled(t, file, Rule::MaxParams(m), ps);
    }
    lemma_in_file_concat(lines, depth, file);
    lemma_in_file_concat(lines + depth, params, file);
    lemma_in_file_concat(u, l, file);
    lemma_in_file_concat(u + l, e, file);
    lemma_in_file_concat(u + l + e, threshold_issues(t, file, config), file);
}

} // verus!
