//! The lint rules, one variant of [`Rule`] each, and the rule set of each
//! language.
//!
//! The logic of each rule lives in the module of its language family
//! (`js`, `rust`, `go`, ...); the `*_rules` modules hold one entry point per
//! rule that runs it over a whole tree.
pub mod common;
pub mod js;
pub mod rust;
pub mod go;
pub mod python;
pub mod java;
pub mod c;
pub mod beam;
pub mod clojure;
pub mod universal;
pub mod ruby;
pub mod php;
pub mod swift;
pub mod zig;
pub mod haskell;
pub mod jvm;
pub mod dart;
pub mod lean;
pub mod bash;
pub mod bash_rules;
pub mod bug_detection;
pub mod c_rules;
pub mod clojure_rules;
pub mod control_flow;
pub mod crystal_rules;
pub mod dart_rules;
pub mod elixir_rules;
pub mod elm_rules;
pub mod erlang_rules;
pub mod gleam_rules;
pub mod go_extra_rules;
pub mod go_rules;
pub mod groovy_rules;
pub mod haskell_rules;
pub mod java_rules;
pub mod julia_rules;
pub mod kotlin_rules;
pub mod lean_rules;
pub mod lua_rules;
pub mod php_rules;
pub mod python_flow_rules;
pub mod python_rules;
pub mod ruby_rules;
pub mod rust_extra_rules;
pub mod rust_rules;
pub mod scala_rules;
pub mod style_rules;
pub mod swift_rules;
pub mod threshold_rules;
pub mod universal_rules;
pub mod zig_rules;
pub mod unused;

use vstd::prelude::*;
use crate::language::SourceLanguage;
use crate::lint::{Ctx, HitView};
use crate::syntax::SyntaxTree;
use crate::threshold;
use crate::version;
use crate::text::{contains, ends_with, str_contains, str_ends_with};
use crate::types::Severity;

verus! {

/// Every lint rule that looks at one node at a time.
#[derive(Debug, Clone, Copy, PartialEq, Eq, Structural)]
pub enum Rule {
    NoAny,
    NoConsole,
    NoVar,
    Eqeqeq,
    JsNoEmptyFunction,
    NoNestedTernary,
    NoDebugger,
    NoDuplicateCase,
    NoSelfAssign,
    JsNoEval,
    JsNoUnreachable,
    NoConstantCondition,
    DefaultCase,
    NoFallthrough,
    NoSelfCompare,
    NoUselessCatch,
    UseIsnan,
    NoCompareNegZero,
    NoUnsafeNegation,
    NoConstructorReturn,
    ValidTypeof,
    NoUselessRename,
    NoEmptyPattern,
    NoUnsafe,
    NoUnwrap,
    NoDbg,
    RustNoTodo,
    RustNoPrintln,
    NeedlessBool,
    RustNoEmptyFunction,
    NeedlessReturn,
    BoolComparison,
    RustCollapsibleIf,
    SingleMatch,
    ManualMap,
    RedundantClone,
    EqOp,
    GoNoPanic,
    NoFmtPrint,
    NoIgnoredError,
    NoOsExit,
    NoDeferInLoop,
    NoEmptyBlock,
    GoNoUnreachable,
    NoNakedReturn,
    NoRangeOverString,
    NoShadowImport,
    GoCollapsibleIf,
    GoSuperfluousElse,
    NoBareExcept,
    PyNoPrint,
    PyNoEval,
    NoMutableDefault,
    PyNoGlobal,
    NoAssert,
    Unreachable,
    PointlessExcept,
    NoPassBody,
    NoStarImport,
    NoNestedWith,
    NoReturnInInit,
    SimplifyBooleanReturn,
    PyCollapsibleIf,
    PySuperfluousElse,
    NoSysout,
    NoPrintStackTrace,
    JavaNoEmptyCatch,
    NoThrowsException,
    NoRawType,
    NoStringEquality,
    MissingSwitchDefault,
    JavaNoEmptyIf,
    NoDoubleBraceInit,
    NoStringConcatInLoop,
    NoNestedTry,
    EqualsNull,
    NoPrintf,
    NoUnsafeFn,
    NoMalloc,
    NoGoto,
    NoSizeofPtr,
    NoMagicNumber,
    NoImplicitFallthrough,
    CNoEmptyIf,
    NoVoidMain,
    NoIoInspect,
    NoIoPuts,
    NoRaiseInWith,
    PipeIntoAnonymous,
    NoProcessFlag,
    NoCatchAll,
    NoExitCall,
    GleamNoTodo,
    GleamNoPanic,
    NoLetAssert,
    ClojureNoPrintln,
    NoDefInDef,
    NoThreadSleep,
    NoReflection,
    TodoComment,
    EmptyFunction,
    RubyNoPuts,
    RubyNoEval,
    RequireRelative,
    RubyNoRescueException,
    RubyNoSleep,
    CrystalNoPuts,
    NoRaiseString,
    CrystalNoRescueException,
    NoShell,
    CrystalNoSleep,
    NoDebugOutput,
    PhpNoEval,
    NoExit,
    StrictComparison,
    NoErrorSuppression,
    LuaNoGlobal,
    NoOsExecute,
    NoLoadstring,
    LuaNoPrint,
    SwiftNoPrint,
    NoForceUnwrap,
    NoForceTry,
    NoForceCast,
    NoNslog,
    NoFatalError,
    NoDebugPrint,
    ZigNoUnreachable,
    ZigNoPanic,
    NoCatchAllSwitch,
    NoPartialFunction,
    NoUndefined,
    NoError,
    NoUnsafePerformIo,
    NoTrace,
    NoDebug,
    ElmNoTodo,
    UnusedImport,
    ScalaNoPrintln,
    NoNull,
    ScalaNoVar,
    NoReturn,
    NoAsInstanceOf,
    KotlinNoPrintln,
    NoUnsafeCast,
    NoNotNullAssertion,
    KotlinNoEmptyCatch,
    KotlinNoSystemExit,
    PreferVal,
    GroovyNoPrintln,
    NoDefType,
    GroovyNoSystemExit,
    GroovyNoEmptyCatch,
    DartNoPrint,
    NoDynamic,
    DartNoEmptyCatch,
    NoCast,
    NoRethrowOnly,
    JuliaNoPrintln,
    JuliaNoEval,
    NoGlobalMutable,
    NoBareCcall,
    NoSorry,
    NoAxiom,
    NoNativeDecide,
    LeanNoUnsafe,
    NoUnlimitedHeartbeats,
    NoPartialDef,
    NoDbgTrace,
    NoDebugCommand,
    UnquotedExpansion,
    BashNoEval,
    CdWithoutOr,
    UselessCat,
    DangerousRm,
    NoSetE,
    TestEquals,
    /// `max-params` with its limit.
    MaxParams(usize),
    /// `go-generic-method` with the version go.mod declares.
    GoGenericMethod(u32, u32),
}

/// The findings rule `r` reports at node `i`.
pub open spec fn rule_hits(t: SyntaxTree, i: int, r: Rule) -> Seq<HitView> {
    match r {
        Rule::NoAny => js::no_any_hits(t, i),
        Rule::NoConsole => js::no_console_hits(t, i),
        Rule::NoVar => js::no_var_hits(t, i),
        Rule::Eqeqeq => js::eqeqeq_hits(t, i),
        Rule::JsNoEmptyFunction => js::no_empty_function_hits(t, i),
        Rule::NoNestedTernary => js::no_nested_ternary_hits(t, i),
        Rule::NoDebugger => js::no_debugger_hits(t, i),
        Rule::NoDuplicateCase => js::no_duplicate_case_hits(t, i),
        Rule::NoSelfAssign => js::no_self_assign_hits(t, i),
        Rule::JsNoEval => js::no_eval_hits(t, i),
        Rule::JsNoUnreachable => js::no_unreachable_hits(t, i),
        Rule::NoConstantCondition => js::no_constant_condition_hits(t, i),
        Rule::DefaultCase => js::default_case_hits(t, i),
        Rule::NoFallthrough => js::no_fallthrough_hits(t, i),
        Rule::NoSelfCompare => js::no_self_compare_hits(t, i),
        Rule::NoUselessCatch => js::no_useless_catch_hits(t, i),
        Rule::UseIsnan => js::use_isnan_hits(t, i),
        Rule::NoCompareNegZero => js::no_compare_neg_zero_hits(t, i),
        Rule::NoUnsafeNegation => js::no_unsafe_negation_hits(t, i),
        Rule::NoConstructorReturn => js::no_constructor_return_hits(t, i),
        Rule::ValidTypeof => js::valid_typeof_hits(t, i),
        Rule::NoUselessRename => js::no_useless_rename_hits(t, i),
        Rule::NoEmptyPattern => js::no_empty_pattern_hits(t, i),
        Rule::NoUnsafe => rust::no_unsafe_hits(t, i),
        Rule::NoUnwrap => rust::no_unwrap_hits(t, i),
        Rule::NoDbg => rust::no_dbg_hits(t, i),
        Rule::RustNoTodo => rust::no_todo_hits(t, i),
        Rule::RustNoPrintln => rust::no_println_hits(t, i),
        Rule::NeedlessBool => rust::needless_bool_hits(t, i),
        Rule::RustNoEmptyFunction => rust::no_empty_function_hits(t, i),
        Rule::NeedlessReturn => rust::needless_return_hits(t, i),
        Rule::BoolComparison => rust::bool_comparison_hits(t, i),
        Rule::RustCollapsibleIf => rust::collapsible_if_hits(t, i),
        Rule::SingleMatch => rust::single_match_hits(t, i),
        Rule::ManualMap => rust::manual_map_hits(t, i),
        Rule::RedundantClone => rust::redundant_clone_hits(t, i),
        Rule::EqOp => rust::eq_op_hits(t, i),
        Rule::GoNoPanic => go::no_panic_hits(t, i),
        Rule::NoFmtPrint => go::no_fmt_print_hits(t, i),
        Rule::NoIgnoredError => go::no_ignored_error_hits(t, i),
        Rule::NoOsExit => go::no_os_exit_hits(t, i),
        Rule::NoDeferInLoop => go::no_defer_in_loop_hits(t, i),
        Rule::NoEmptyBlock => go::no_empty_block_hits(t, i),
        Rule::GoNoUnreachable => go::no_unreachable_hits(t, i),
        Rule::NoNakedReturn => go::no_naked_return_hits(t, i),
        Rule::NoRangeOverString => go::no_range_over_string_hits(t, i),
        Rule::NoShadowImport => go::no_shadow_import_hits(t, i),
        Rule::GoCollapsibleIf => go::collapsible_if_hits(t, i),
        Rule::GoSuperfluousElse => go::superfluous_else_hits(t, i),
        Rule::NoBareExcept => python::no_bare_except_hits(t, i),
        Rule::PyNoPrint => python::no_print_hits(t, i),
        Rule::PyNoEval => python::no_eval_hits(t, i),
        Rule::NoMutableDefault => python::no_mutable_default_hits(t, i),
        Rule::PyNoGlobal => python::no_global_hits(t, i),
        Rule::NoAssert => python::no_assert_hits(t, i),
        Rule::Unreachable => python::unreachable_hits(t, i),
        Rule::PointlessExcept => python::pointless_except_hits(t, i),
        Rule::NoPassBody => python::no_pass_body_hits(t, i),
        Rule::NoStarImport => python::no_star_import_hits(t, i),
        Rule::NoNestedWith => python::no_nested_with_hits(t, i),
        Rule::NoReturnInInit => python::no_return_in_init_hits(t, i),
        Rule::SimplifyBooleanReturn => python::simplify_boolean_return_hits(t, i),
        Rule::PyCollapsibleIf => python::collapsible_if_hits(t, i),
        Rule::PySuperfluousElse => python::superfluous_else_hits(t, i),
        Rule::NoSysout => java::no_sysout_hits(t, i),
        Rule::NoPrintStackTrace => java::no_print_stack_trace_hits(t, i),
        Rule::JavaNoEmptyCatch => java::no_empty_catch_hits(t, i),
        Rule::NoThrowsException => java::no_throws_exception_hits(t, i),
        Rule::NoRawType => java::no_raw_type_hits(t, i),
        Rule::NoStringEquality => java::no_string_equality_hits(t, i),
        Rule::MissingSwitchDefault => java::missing_switch_default_hits(t, i),
        Rule::JavaNoEmptyIf => java::no_empty_if_hits(t, i),
        Rule::NoDoubleBraceInit => java::no_double_brace_init_hits(t, i),
        Rule::NoStringConcatInLoop => java::no_string_concat_in_loop_hits(t, i),
        Rule::NoNestedTry => java::no_nested_try_hits(t, i),
        Rule::EqualsNull => java::equals_null_hits(t, i),
        Rule::NoPrintf => c::no_printf_hits(t, i),
        Rule::NoUnsafeFn => c::no_unsafe_fn_hits(t, i),
        Rule::NoMalloc => c::no_malloc_hits(t, i),
        Rule::NoGoto => c::no_goto_hits(t, i),
        Rule::NoSizeofPtr => c::no_sizeof_ptr_hits(t, i),
        Rule::NoMagicNumber => c::no_magic_number_hits(t, i),
        Rule::NoImplicitFallthrough => c::no_implicit_fallthrough_hits(t, i),
        Rule::CNoEmptyIf => c::no_empty_if_hits(t, i),
        Rule::NoVoidMain => c::no_void_main_hits(t, i),
        Rule::NoIoInspect => beam::no_io_inspect_hits(t, i),
        Rule::NoIoPuts => beam::no_io_puts_hits(t, i),
        Rule::NoRaiseInWith => beam::no_raise_in_with_hits(t, i),
        Rule::PipeIntoAnonymous => beam::pipe_into_anonymous_hits(t, i),
        Rule::NoProcessFlag => beam::no_process_flag_hits(t, i),
        Rule::NoCatchAll => beam::no_catch_all_hits(t, i),
        Rule::NoExitCall => beam::no_exit_call_hits(t, i),
        Rule::GleamNoTodo => beam::gleam_no_todo_hits(t, i),
        Rule::GleamNoPanic => beam::gleam_no_panic_hits(t, i),
        Rule::NoLetAssert => beam::no_let_assert_hits(t, i),
        Rule::ClojureNoPrintln => clojure::no_println_hits(t, i),
        Rule::NoDefInDef => clojure::no_def_in_def_hits(t, i),
        Rule::NoThreadSleep => clojure::no_thread_sleep_hits(t, i),
        Rule::NoReflection => clojure::no_reflection_hits(t, i),
        Rule::TodoComment => universal::todo_comment_hits(t, i),
        Rule::EmptyFunction => universal::empty_function_hits(t, i),
        Rule::RubyNoPuts => ruby::no_puts_hits(t, i),
        Rule::RubyNoEval => ruby::no_eval_hits(t, i),
        Rule::RequireRelative => ruby::require_relative_hits(t, i),
        Rule::RubyNoRescueException => ruby::no_rescue_exception_hits(t, i),
        Rule::RubyNoSleep => ruby::no_sleep_hits(t, i),
        Rule::CrystalNoPuts => ruby::crystal_no_puts_hits(t, i),
        Rule::NoRaiseString => ruby::no_raise_string_hits(t, i),
        Rule::CrystalNoRescueException => ruby::crystal_no_rescue_exception_hits(t, i),
        Rule::NoShell => ruby::no_shell_hits(t, i),
        Rule::CrystalNoSleep => ruby::crystal_no_sleep_hits(t, i),
        Rule::NoDebugOutput => php::no_debug_output_hits(t, i),
        Rule::PhpNoEval => php::no_eval_hits(t, i),
        Rule::NoExit => php::no_exit_hits(t, i),
        Rule::StrictComparison => php::strict_comparison_hits(t, i),
        Rule::NoErrorSuppression => php::no_error_suppression_hits(t, i),
        Rule::LuaNoGlobal => php::lua_no_global_hits(t, i),
        Rule::NoOsExecute => php::no_os_execute_hits(t, i),
        Rule::NoLoadstring => php::no_loadstring_hits(t, i),
        Rule::LuaNoPrint => php::lua_no_print_hits(t, i),
        Rule::SwiftNoPrint => swift::no_print_hits(t, i),
        Rule::NoForceUnwrap => swift::no_force_unwrap_hits(t, i),
        Rule::NoForceTry => swift::no_force_try_hits(t, i),
        Rule::NoForceCast => swift::no_force_cast_hits(t, i),
        Rule::NoNslog => swift::no_nslog_hits(t, i),
        Rule::NoFatalError => swift::no_fatal_error_hits(t, i),
        Rule::NoDebugPrint => zig::no_debug_print_hits(t, i),
        Rule::ZigNoUnreachable => zig::no_unreachable_hits(t, i),
        Rule::ZigNoPanic => zig::no_panic_hits(t, i),
        Rule::NoCatchAllSwitch => zig::no_catch_all_switch_hits(t, i),
        Rule::NoPartialFunction => haskell::no_partial_functions_hits(t, i),
        Rule::NoUndefined => haskell::no_undefined_hits(t, i),
        Rule::NoError => haskell::no_error_hits(t, i),
        Rule::NoUnsafePerformIo => haskell::no_unsafe_perform_io_hits(t, i),
        Rule::NoTrace => haskell::no_trace_hits(t, i),
        Rule::NoDebug => haskell::no_debug_hits(t, i),
        Rule::ElmNoTodo => haskell::elm_no_todo_hits(t, i),
        Rule::UnusedImport => haskell::unused_import_hits(t, i),
        Rule::ScalaNoPrintln => jvm::scala_no_println_hits(t, i),
        Rule::NoNull => jvm::no_null_hits(t, i),
        Rule::ScalaNoVar => jvm::scala_no_var_hits(t, i),
        Rule::NoReturn => jvm::no_return_hits(t, i),
        Rule::NoAsInstanceOf => jvm::no_as_instance_of_hits(t, i),
        Rule::KotlinNoPrintln => jvm::kotlin_no_println_hits(t, i),
        Rule::NoUnsafeCast => jvm::no_unsafe_cast_hits(t, i),
        Rule::NoNotNullAssertion => jvm::no_not_null_assertion_hits(t, i),
        Rule::KotlinNoEmptyCatch => jvm::kotlin_no_empty_catch_hits(t, i),
        Rule::KotlinNoSystemExit => jvm::kotlin_no_system_exit_hits(t, i),
        Rule::PreferVal => jvm::prefer_val_hits(t, i),
        Rule::GroovyNoPrintln => jvm::groovy_no_println_hits(t, i),
        Rule::NoDefType => jvm::no_def_type_hits(t, i),
        Rule::GroovyNoSystemExit => jvm::groovy_no_system_exit_hits(t, i),
        Rule::GroovyNoEmptyCatch => jvm::groovy_no_empty_catch_hits(t, i),
        Rule::DartNoPrint => dart::dart_no_print_hits(t, i),
        Rule::NoDynamic => dart::no_dynamic_hits(t, i),
        Rule::DartNoEmptyCatch => dart::dart_no_empty_catch_hits(t, i),
        Rule::NoCast => dart::no_cast_hits(t, i),
        Rule::NoRethrowOnly => dart::no_rethrow_only_hits(t, i),
        Rule::JuliaNoPrintln => dart::julia_no_println_hits(t, i),
        Rule::JuliaNoEval => dart::julia_no_eval_hits(t, i),
        Rule::NoGlobalMutable => dart::no_global_mutable_hits(t, i),
        Rule::NoBareCcall => dart::no_bare_ccall_hits(t, i),
        Rule::NoSorry => lean::no_sorry_hits(t, i),
        Rule::NoAxiom => lean::no_axiom_hits(t, i),
        Rule::NoNativeDecide => lean::no_native_decide_hits(t, i),
        Rule::LeanNoUnsafe => lean::no_unsafe_hits(t, i),
        Rule::NoUnlimitedHeartbeats => lean::no_unlimited_heartbeats_hits(t, i),
        Rule::NoPartialDef => lean::no_partial_def_hits(t, i),
        Rule::NoDbgTrace => lean::no_dbg_trace_hits(t, i),
        Rule::NoDebugCommand => lean::no_debug_command_hits(t, i),
        Rule::UnquotedExpansion => bash::unquoted_expansion_hits(t, i),
        Rule::BashNoEval => bash::no_eval_hits(t, i),
        Rule::CdWithoutOr => bash::cd_without_or_hits(t, i),
        Rule::UselessCat => bash::useless_cat_hits(t, i),
        Rule::DangerousRm => bash::dangerous_rm_hits(t, i),
        Rule::NoSetE => bash::no_set_e_hits(t, i),
        Rule::TestEquals => bash::test_equals_hits(t, i),
        Rule::MaxParams(max) => threshold::max_params_hits(t, i, max as int),
        Rule::GoGenericMethod(major, minor) => version::generic_method_hits(t, i, (major, minor)),
    }
}

/// Apply rule `r` at node `i`.
pub fn node_hits(t: &SyntaxTree, i: usize, r: Rule, ctx: &mut Ctx)
    requires
        t.wf(),
        i < t.len(),
        old(ctx).wf(),
    ensures
        final(ctx).grew(*old(ctx), rule_hits(*t, i as int, r)),
{
    match r {
        Rule::NoAny => js::no_any_at(t, i, ctx),
        Rule::NoConsole => js::no_console_at(t, i, ctx),
        Rule::NoVar => js::no_var_at(t, i, ctx),
        Rule::Eqeqeq => js::eqeqeq_at(t, i, ctx),
        Rule::JsNoEmptyFunction => js::no_empty_function_at(t, i, ctx),
        Rule::NoNestedTernary => js::no_nested_ternary_at(t, i, ctx),
        Rule::NoDebugger => js::no_debugger_at(t, i, ctx),
        Rule::NoDuplicateCase => js::no_duplicate_case_at(t, i, ctx),
        Rule::NoSelfAssign => js::no_self_assign_at(t, i, ctx),
        Rule::JsNoEval => js::no_eval_at(t, i, ctx),
        Rule::JsNoUnreachable => js::no_unreachable_at(t, i, ctx),
        Rule::NoConstantCondition => js::no_constant_condition_at(t, i, ctx),
        Rule::DefaultCase => js::default_case_at(t, i, ctx),
        Rule::NoFallthrough => js::no_fallthrough_at(t, i, ctx),
        Rule::NoSelfCompare => js::no_self_compare_at(t, i, ctx),
        Rule::NoUselessCatch => js::no_useless_catch_at(t, i, ctx),
        Rule::UseIsnan => js::use_isnan_at(t, i, ctx),
        Rule::NoCompareNegZero => js::no_compare_neg_zero_at(t, i, ctx),
        Rule::NoUnsafeNegation => js::no_unsafe_negation_at(t, i, ctx),
        Rule::NoConstructorReturn => js::no_constructor_return_at(t, i, ctx),
        Rule::ValidTypeof => js::valid_typeof_at(t, i, ctx),
        Rule::NoUselessRename => js::no_useless_rename_at(t, i, ctx),
        Rule::NoEmptyPattern => js::no_empty_pattern_at(t, i, ctx),
        Rule::NoUnsafe => rust::no_unsafe_at(t, i, ctx),
        Rule::NoUnwrap => rust::no_unwrap_at(t, i, ctx),
        Rule::NoDbg => rust::no_dbg_at(t, i, ctx),
        Rule::RustNoTodo => rust::no_todo_at(t, i, ctx),
        Rule::RustNoPrintln => rust::no_println_at(t, i, ctx),
        Rule::NeedlessBool => rust::needless_bool_at(t, i, ctx),
        Rule::RustNoEmptyFunction => rust::no_empty_function_at(t, i, ctx),
        Rule::NeedlessReturn => rust::needless_return_at(t, i, ctx),
        Rule::BoolComparison => rust::bool_comparison_at(t, i, ctx),
        Rule::RustCollapsibleIf => rust::collapsible_if_at(t, i, ctx),
        Rule::SingleMatch => rust::single_match_at(t, i, ctx),
        Rule::ManualMap => rust::manual_map_at(t, i, ctx),
        Rule::RedundantClone => rust::redundant_clone_at(t, i, ctx),
        Rule::EqOp => rust::eq_op_at(t, i, ctx),
        Rule::GoNoPanic => go::no_panic_at(t, i, ctx),
        Rule::NoFmtPrint => go::no_fmt_print_at(t, i, ctx),
        Rule::NoIgnoredError => go::no_ignored_error_at(t, i, ctx),
        Rule::NoOsExit => go::no_os_exit_at(t, i, ctx),
        Rule::NoDeferInLoop => go::no_defer_in_loop_at(t, i, ctx),
        Rule::NoEmptyBlock => go::no_empty_block_at(t, i, ctx),
        Rule::GoNoUnreachable => go::no_unreachable_at(t, i, ctx),
        Rule::NoNakedReturn => go::no_naked_return_at(t, i, ctx),
        Rule::NoRangeOverString => go::no_range_over_string_at(t, i, ctx),
        Rule::NoShadowImport => go::no_shadow_import_at(t, i, ctx),
        Rule::GoCollapsibleIf => go::collapsible_if_at(t, i, ctx),
        Rule::GoSuperfluousElse => go::superfluous_else_at(t, i, ctx),
        Rule::NoBareExcept => python::no_bare_except_at(t, i, ctx),
        Rule::PyNoPrint => python::no_print_at(t, i, ctx),
        Rule::PyNoEval => python::no_eval_at(t, i, ctx),
        Rule::NoMutableDefault => python::no_mutable_default_at(t, i, ctx),
        Rule::PyNoGlobal => python::no_global_at(t, i, ctx),
        Rule::NoAssert => python::no_assert_at(t, i, ctx),
        Rule::Unreachable => python::unreachable_at(t, i, ctx),
        Rule::PointlessExcept => python::pointless_except_at(t, i, ctx),
        Rule::NoPassBody => python::no_pass_body_at(t, i, ctx),
        Rule::NoStarImport => python::no_star_import_at(t, i, ctx),
        Rule::NoNestedWith => python::no_nested_with_at(t, i, ctx),
        Rule::NoReturnInInit => python::no_return_in_init_at(t, i, ctx),
        Rule::SimplifyBooleanReturn => python::simplify_boolean_return_at(t, i, ctx),
        Rule::PyCollapsibleIf => python::collapsible_if_at(t, i, ctx),
        Rule::PySuperfluousElse => python::superfluous_else_at(t, i, ctx),
        Rule::NoSysout => java::no_sysout_at(t, i, ctx),
        Rule::NoPrintStackTrace => java::no_print_stack_trace_at(t, i, ctx),
        Rule::JavaNoEmptyCatch => java::no_empty_catch_at(t, i, ctx),
        Rule::NoThrowsException => java::no_throws_exception_at(t, i, ctx),
        Rule::NoRawType => java::no_raw_type_at(t, i, ctx),
        Rule::NoStringEquality => java::no_string_equality_at(t, i, ctx),
        Rule::MissingSwitchDefault => java::missing_switch_default_at(t, i, ctx),
        Rule::JavaNoEmptyIf => java::no_empty_if_at(t, i, ctx),
        Rule::NoDoubleBraceInit => java::no_double_brace_init_at(t, i, ctx),
        Rule::NoStringConcatInLoop => java::no_string_concat_in_loop_at(t, i, ctx),
        Rule::NoNestedTry => java::no_nested_try_at(t, i, ctx),
        Rule::EqualsNull => java::equals_null_at(t, i, ctx),
        Rule::NoPrintf => c::no_printf_at(t, i, ctx),
        Rule::NoUnsafeFn => c::no_unsafe_fn_at(t, i, ctx),
        Rule::NoMalloc => c::no_malloc_at(t, i, ctx),
        Rule::NoGoto => c::no_goto_at(t, i, ctx),
        Rule::NoSizeofPtr => c::no_sizeof_ptr_at(t, i, ctx),
        Rule::NoMagicNumber => c::no_magic_number_at(t, i, ctx),
        Rule::NoImplicitFallthrough => c::no_implicit_fallthrough_at(t, i, ctx),
        Rule::CNoEmptyIf => c::no_empty_if_at(t, i, ctx),
        Rule::NoVoidMain => c::no_void_main_at(t, i, ctx),
        Rule::NoIoInspect => beam::no_io_inspect_at(t, i, ctx),
        Rule::NoIoPuts => beam::no_io_puts_at(t, i, ctx),
        Rule::NoRaiseInWith => beam::no_raise_in_with_at(t, i, ctx),
        Rule::PipeIntoAnonymous => beam::pipe_into_anonymous_at(t, i, ctx),
        Rule::NoProcessFlag => beam::no_process_flag_at(t, i, ctx),
        Rule::NoCatchAll => beam::no_catch_all_at(t, i, ctx),
        Rule::NoExitCall => beam::no_exit_call_at(t, i, ctx),
        Rule::GleamNoTodo => beam::gleam_no_todo_at(t, i, ctx),
        Rule::GleamNoPanic => beam::gleam_no_panic_at(t, i, ctx),
        Rule::NoLetAssert => beam::no_let_assert_at(t, i, ctx),
        Rule::ClojureNoPrintln => clojure::no_println_at(t, i, ctx),
        Rule::NoDefInDef => clojure::no_def_in_def_at(t, i, ctx),
        Rule::NoThreadSleep => clojure::no_thread_sleep_at(t, i, ctx),
        Rule::NoReflection => clojure::no_reflection_at(t, i, ctx),
        Rule::TodoComment => universal::todo_comment_at(t, i, ctx),
        Rule::EmptyFunction => universal::empty_function_at(t, i, ctx),
        Rule::RubyNoPuts => ruby::no_puts_at(t, i, ctx),
        Rule::RubyNoEval => ruby::no_eval_at(t, i, ctx),
        Rule::RequireRelative => ruby::require_relative_at(t, i, ctx),
        Rule::RubyNoRescueException => ruby::no_rescue_exception_at(t, i, ctx),
        Rule::RubyNoSleep => ruby::no_sleep_at(t, i, ctx),
        Rule::CrystalNoPuts => ruby::crystal_no_puts_at(t, i, ctx),
        Rule::NoRaiseString => ruby::no_raise_string_at(t, i, ctx),
        Rule::CrystalNoRescueException => ruby::crystal_no_rescue_exception_at(t, i, ctx),
        Rule::NoShell => ruby::no_shell_at(t, i, ctx),
        Rule::CrystalNoSleep => ruby::crystal_no_sleep_at(t, i, ctx),
        Rule::NoDebugOutput => php::no_debug_output_at(t, i, ctx),
        Rule::PhpNoEval => php::no_eval_at(t, i, ctx),
        Rule::NoExit => php::no_exit_at(t, i, ctx),
        Rule::StrictComparison => php::strict_comparison_at(t, i, ctx),
        Rule::NoErrorSuppression => php::no_error_suppression_at(t, i, ctx),
        Rule::LuaNoGlobal => php::lua_no_global_at(t, i, ctx),
        Rule::NoOsExecute => php::no_os_execute_at(t, i, ctx),
        Rule::NoLoadstring => php::no_loadstring_at(t, i, ctx),
        Rule::LuaNoPrint => php::lua_no_print_at(t, i, ctx),
        Rule::SwiftNoPrint => swift::no_print_at(t, i, ctx),
        Rule::NoForceUnwrap => swift::no_force_unwrap_at(t, i, ctx),
        Rule::NoForceTry => swift::no_force_try_at(t, i, ctx),
        Rule::NoForceCast => swift::no_force_cast_at(t, i, ctx),
        Rule::NoNslog => swift::no_nslog_at(t, i, ctx),
        Rule::NoFatalError => swift::no_fatal_error_at(t, i, ctx),
        Rule::NoDebugPrint => zig::no_debug_print_at(t, i, ctx),
        Rule::ZigNoUnreachable => zig::no_unreachable_at(t, i, ctx),
        Rule::ZigNoPanic => zig::no_panic_at(t, i, ctx),
        Rule::NoCatchAllSwitch => zig::no_catch_all_switch_at(t, i, ctx),
        Rule::NoPartialFunction => haskell::no_partial_functions_at(t, i, ctx),
        Rule::NoUndefined => haskell::no_undefined_at(t, i, ctx),
        Rule::NoError => haskell::no_error_at(t, i, ctx),
        Rule::NoUnsafePerformIo => haskell::no_unsafe_perform_io_at(t, i, ctx),
        Rule::NoTrace => haskell::no_trace_at(t, i, ctx),
        Rule::NoDebug => haskell::no_debug_at(t, i, ctx),
        Rule::ElmNoTodo => haskell::elm_no_todo_at(t, i, ctx),
        Rule::UnusedImport => haskell::unused_import_at(t, i, ctx),
        Rule::ScalaNoPrintln => jvm::scala_no_println_at(t, i, ctx),
        Rule::NoNull => jvm::no_null_at(t, i, ctx),
        Rule::ScalaNoVar => jvm::scala_no_var_at(t, i, ctx),
        Rule::NoReturn => jvm::no_return_at(t, i, ctx),
        Rule::NoAsInstanceOf => jvm::no_as_instance_of_at(t, i, ctx),
        Rule::KotlinNoPrintln => jvm::kotlin_no_println_at(t, i, ctx),
        Rule::NoUnsafeCast => jvm::no_unsafe_cast_at(t, i, ctx),
        Rule::NoNotNullAssertion => jvm::no_not_null_assertion_at(t, i, ctx),
        Rule::KotlinNoEmptyCatch => jvm::kotlin_no_empty_catch_at(t, i, ctx),
        Rule::KotlinNoSystemExit => jvm::kotlin_no_system_exit_at(t, i, ctx),
        Rule::PreferVal => jvm::prefer_val_at(t, i, ctx),
        Rule::GroovyNoPrintln => jvm::groovy_no_println_at(t, i, ctx),
        Rule::NoDefType => jvm::no_def_type_at(t, i, ctx),
        Rule::GroovyNoSystemExit => jvm::groovy_no_system_exit_at(t, i, ctx),
        Rule::GroovyNoEmptyCatch => jvm::groovy_no_empty_catch_at(t, i, ctx),
        Rule::DartNoPrint => dart::dart_no_print_at(t, i, ctx),
        Rule::NoDynamic => dart::no_dynamic_at(t, i, ctx),
        Rule::DartNoEmptyCatch => dart::dart_no_empty_catch_at(t, i, ctx),
        Rule::NoCast => dart::no_cast_at(t, i, ctx),
        Rule::NoRethrowOnly => dart::no_rethrow_only_at(t, i, ctx),
        Rule::JuliaNoPrintln => dart::julia_no_println_at(t, i, ctx),
        Rule::JuliaNoEval => dart::julia_no_eval_at(t, i, ctx),
        Rule::NoGlobalMutable => dart::no_global_mutable_at(t, i, ctx),
        Rule::NoBareCcall => dart::no_bare_ccall_at(t, i, ctx),
        Rule::NoSorry => lean::no_sorry_at(t, i, ctx),
        Rule::NoAxiom => lean::no_axiom_at(t, i, ctx),
        Rule::NoNativeDecide => lean::no_native_decide_at(t, i, ctx),
        Rule::LeanNoUnsafe => lean::no_unsafe_at(t, i, ctx),
        Rule::NoUnlimitedHeartbeats => lean::no_unlimited_heartbeats_at(t, i, ctx),
        Rule::NoPartialDef => lean::no_partial_def_at(t, i, ctx),
        Rule::NoDbgTrace => lean::no_dbg_trace_at(t, i, ctx),
        Rule::NoDebugCommand => lean::no_debug_command_at(t, i, ctx),
        Rule::UnquotedExpansion => bash::unquoted_expansion_at(t, i, ctx),
        Rule::BashNoEval => bash::no_eval_at(t, i, ctx),
        Rule::CdWithoutOr => bash::cd_without_or_at(t, i, ctx),
        Rule::UselessCat => bash::useless_cat_at(t, i, ctx),
        Rule::DangerousRm => bash::dangerous_rm_at(t, i, ctx),
        Rule::NoSetE => bash::no_set_e_at(t, i, ctx),
        Rule::TestEquals => bash::test_equals_at(t, i, ctx),
        Rule::MaxParams(max) => threshold::max_params_at(t, i, max, ctx),
        Rule::GoGenericMethod(major, minor) => version::generic_method_at(t, i, (major, minor), ctx),
    }
}

/// The name under which rule `r` is configured.
pub open spec fn spec_rule_name(r: Rule) -> Seq<char> {
    match r {
        Rule::NoAny => "no-any"@,
        Rule::NoConsole => "no-console"@,
        Rule::NoVar => "no-var"@,
        Rule::Eqeqeq => "eqeqeq"@,
        Rule::JsNoEmptyFunction => "no-empty-function"@,
        Rule::NoNestedTernary => "no-nested-ternary"@,
        Rule::NoDebugger => "no-debugger"@,
        Rule::NoDuplicateCase => "no-duplicate-case"@,
        Rule::NoSelfAssign => "no-self-assign"@,
        Rule::JsNoEval => "no-eval"@,
        Rule::JsNoUnreachable => "no-unreachable"@,
        Rule::NoConstantCondition => "no-constant-condition"@,
        Rule::DefaultCase => "default-case"@,
        Rule::NoFallthrough => "no-fallthrough"@,
        Rule::NoSelfCompare => "no-self-compare"@,
        Rule::NoUselessCatch => "no-useless-catch"@,
        Rule::UseIsnan => "use-isnan"@,
        Rule::NoCompareNegZero => "no-compare-neg-zero"@,
        Rule::NoUnsafeNegation => "no-unsafe-negation"@,
        Rule::NoConstructorReturn => "no-constructor-return"@,
        Rule::ValidTypeof => "valid-typeof"@,
        Rule::NoUselessRename => "no-useless-rename"@,
        Rule::NoEmptyPattern => "no-empty-pattern"@,
        Rule::NoUnsafe => "no-unsafe"@,
        Rule::NoUnwrap => "no-unwrap"@,
        Rule::NoDbg => "no-dbg"@,
        Rule::RustNoTodo => "no-todo"@,
        Rule::RustNoPrintln => "no-println"@,
        Rule::NeedlessBool => "needless-bool"@,
        Rule::RustNoEmptyFunction => "no-empty-function"@,
        Rule::NeedlessReturn => "needless-return"@,
        Rule::BoolComparison => "bool-comparison"@,
        Rule::RustCollapsibleIf => "collapsible-if"@,
        Rule::SingleMatch => "single-match"@,
        Rule::ManualMap => "manual-map"@,
        Rule::RedundantClone => "redundant-clone"@,
        Rule::EqOp => "eq-op"@,
        Rule::GoNoPanic => "no-panic"@,
        Rule::NoFmtPrint => "no-fmt-print"@,
        Rule::NoIgnoredError => "no-ignored-error"@,
        Rule::NoOsExit => "no-os-exit"@,
        Rule::NoDeferInLoop => "no-defer-in-loop"@,
        Rule::NoEmptyBlock => "no-empty-block"@,
        Rule::GoNoUnreachable => "no-unreachable"@,
        Rule::NoNakedReturn => "no-naked-return"@,
        Rule::NoRangeOverString => "no-range-over-string"@,
        Rule::NoShadowImport => "no-shadow-import"@,
        Rule::GoCollapsibleIf => "collapsible-if"@,
        Rule::GoSuperfluousElse => "superfluous-else"@,
        Rule::NoBareExcept => "no-bare-except"@,
        Rule::PyNoPrint => "no-print"@,
        Rule::PyNoEval => "no-eval"@,
        Rule::NoMutableDefault => "no-mutable-default"@,
        Rule::PyNoGlobal => "no-global"@,
        Rule::NoAssert => "no-assert"@,
        Rule::Unreachable => "unreachable"@,
        Rule::PointlessExcept => "pointless-except"@,
        Rule::NoPassBody => "no-pass-body"@,
        Rule::NoStarImport => "no-star-import"@,
        Rule::NoNestedWith => "no-nested-with"@,
        Rule::NoReturnInInit => "no-return-in-init"@,
        Rule::SimplifyBooleanReturn => "simplify-boolean-return"@,
        Rule::PyCollapsibleIf => "collapsible-if"@,
        Rule::PySuperfluousElse => "superfluous-else"@,
        Rule::NoSysout => "no-sysout"@,
        Rule::NoPrintStackTrace => "no-print-stack-trace"@,
        Rule::JavaNoEmptyCatch => "no-empty-catch"@,
        Rule::NoThrowsException => "no-throws-exception"@,
        Rule::NoRawType => "no-raw-type"@,
        Rule::NoStringEquality => "no-string-equality"@,
        Rule::MissingSwitchDefault => "missing-switch-default"@,
        Rule::JavaNoEmptyIf => "no-empty-if"@,
        Rule::NoDoubleBraceInit => "no-double-brace-init"@,
        Rule::NoStringConcatInLoop => "no-string-concat-in-loop"@,
        Rule::NoNestedTry => "no-nested-try"@,
        Rule::EqualsNull => "equals-null"@,
        Rule::NoPrintf => "no-printf"@,
        Rule::NoUnsafeFn => "no-unsafe-fn"@,
        Rule::NoMalloc => "no-malloc"@,
        Rule::NoGoto => "no-goto"@,
        Rule::NoSizeofPtr => "no-sizeof-ptr"@,
        Rule::NoMagicNumber => "no-magic-number"@,
        Rule::NoImplicitFallthrough => "no-implicit-fallthrough"@,
        Rule::CNoEmptyIf => "no-empty-if"@,
        Rule::NoVoidMain => "no-void-main"@,
        Rule::NoIoInspect => "no-io-inspect"@,
        Rule::NoIoPuts => "no-io-puts"@,
        Rule::NoRaiseInWith => "no-raise-in-with"@,
        Rule::PipeIntoAnonymous => "pipe-into-anonymous"@,
        Rule::NoProcessFlag => "no-process-flag"@,
        Rule::NoCatchAll => "no-catch-all"@,
        Rule::NoExitCall => "no-exit-call"@,
        Rule::GleamNoTodo => "no-todo"@,
        Rule::GleamNoPanic => "no-panic"@,
        Rule::NoLetAssert => "no-let-assert"@,
        Rule::ClojureNoPrintln => "no-println"@,
        Rule::NoDefInDef => "no-def-in-def"@,
        Rule::NoThreadSleep => "no-thread-sleep"@,
        Rule::NoReflection => "no-reflection"@,
        Rule::TodoComment => "todo-comment"@,
        Rule::EmptyFunction => "no-empty-function"@,
        Rule::RubyNoPuts => "no-puts"@,
        Rule::RubyNoEval => "no-eval"@,
        Rule::RequireRelative => "require-relative"@,
        Rule::RubyNoRescueException => "no-rescue-exception"@,
        Rule::RubyNoSleep => "no-sleep"@,
        Rule::CrystalNoPuts => "no-puts"@,
        Rule::NoRaiseString => "no-raise-string"@,
        Rule::CrystalNoRescueException => "no-rescue-exception"@,
        Rule::NoShell => "no-shell"@,
        Rule::CrystalNoSleep => "no-sleep"@,
        Rule::NoDebugOutput => "no-debug-output"@,
        Rule::PhpNoEval => "no-eval"@,
        Rule::NoExit => "no-exit"@,
        Rule::StrictComparison => "strict-comparison"@,
        Rule::NoErrorSuppression => "no-error-suppression"@,
        Rule::LuaNoGlobal => "no-global"@,
        Rule::NoOsExecute => "no-os-execute"@,
        Rule::NoLoadstring => "no-loadstring"@,
        Rule::LuaNoPrint => "no-print"@,
        Rule::SwiftNoPrint => "no-print"@,
        Rule::NoForceUnwrap => "no-force-unwrap"@,
        Rule::NoForceTry => "no-force-try"@,
        Rule::NoForceCast => "no-force-cast"@,
        Rule::NoNslog => "no-nslog"@,
        Rule::NoFatalError => "no-fatal-error"@,
        Rule::NoDebugPrint => "no-debug-print"@,
        Rule::ZigNoUnreachable => "no-unreachable"@,
        Rule::ZigNoPanic => "no-panic"@,
        Rule::NoCatchAllSwitch => "no-catch-all-switch"@,
        Rule::NoPartialFunction => "no-partial-function"@,
        Rule::NoUndefined => "no-undefined"@,
        Rule::NoError => "no-error"@,
        Rule::NoUnsafePerformIo => "no-unsafe-perform-io"@,
        Rule::NoTrace => "no-trace"@,
        Rule::NoDebug => "no-debug"@,
        Rule::ElmNoTodo => "no-todo"@,
        Rule::UnusedImport => "unused-import"@,
        Rule::ScalaNoPrintln => "no-println"@,
        Rule::NoNull => "no-null"@,
        Rule::ScalaNoVar => "no-var"@,
        Rule::NoReturn => "no-return"@,
        Rule::NoAsInstanceOf => "no-as-instance-of"@,
        Rule::KotlinNoPrintln => "no-println"@,
        Rule::NoUnsafeCast => "no-unsafe-cast"@,
        Rule::NoNotNullAssertion => "no-not-null-assertion"@,
        Rule::KotlinNoEmptyCatch => "no-empty-catch"@,
        Rule::KotlinNoSystemExit => "no-system-exit"@,
        Rule::PreferVal => "prefer-val"@,
        Rule::GroovyNoPrintln => "no-println"@,
        Rule::NoDefType => "no-def-type"@,
        Rule::GroovyNoSystemExit => "no-system-exit"@,
        Rule::GroovyNoEmptyCatch => "no-empty-catch"@,
        Rule::DartNoPrint => "no-print"@,
        Rule::NoDynamic => "no-dynamic"@,
        Rule::DartNoEmptyCatch => "no-empty-catch"@,
        Rule::NoCast => "no-cast"@,
        Rule::NoRethrowOnly => "no-rethrow-only"@,
        Rule::JuliaNoPrintln => "no-println"@,
        Rule::JuliaNoEval => "no-eval"@,
        Rule::NoGlobalMutable => "no-global-mutable"@,
        Rule::NoBareCcall => "no-bare-ccall"@,
        Rule::NoSorry => "no-sorry"@,
        Rule::NoAxiom => "no-axiom"@,
        Rule::NoNativeDecide => "no-native-decide"@,
        Rule::LeanNoUnsafe => "no-unsafe"@,
        Rule::NoUnlimitedHeartbeats => "no-unlimited-heartbeats"@,
        Rule::NoPartialDef => "no-partial-def"@,
        Rule::NoDbgTrace => "no-dbg-trace"@,
        Rule::NoDebugCommand => "no-debug-command"@,
        Rule::UnquotedExpansion => "unquoted-expansion"@,
        Rule::BashNoEval => "no-eval"@,
        Rule::CdWithoutOr => "cd-without-or"@,
        Rule::UselessCat => "useless-cat"@,
        Rule::DangerousRm => "dangerous-rm"@,
        Rule::NoSetE => "no-set-e"@,
        Rule::TestEquals => "test-equals"@,
        Rule::MaxParams(_) => "max-params"@,
        Rule::GoGenericMethod(_, _) => "go-generic-method"@,
    }
}

/// The severity of rule `r` when the configuration sets none.
pub open spec fn spec_default_severity(r: Rule) -> Severity {
    match r {
        Rule::NoAny => Severity::Warning,
        Rule::NoConsole => Severity::Warning,
        Rule::NoVar => Severity::Warning,
        Rule::Eqeqeq => Severity::Warning,
        Rule::JsNoEmptyFunction => Severity::Warning,
        Rule::NoNestedTernary => Severity::Warning,
        Rule::NoDebugger => Severity::Error,
        Rule::NoDuplicateCase => Severity::Error,
        Rule::NoSelfAssign => Severity::Warning,
        Rule::JsNoEval => Severity::Error,
        Rule::JsNoUnreachable => Severity::Error,
        Rule::NoConstantCondition => Severity::Warning,
        Rule::DefaultCase => Severity::Warning,
        Rule::NoFallthrough => Severity::Warning,
        Rule::NoSelfCompare => Severity::Warning,
        Rule::NoUselessCatch => Severity::Error,
        Rule::UseIsnan => Severity::Error,
        Rule::NoCompareNegZero => Severity::Error,
        Rule::NoUnsafeNegation => Severity::Error,
        Rule::NoConstructorReturn => Severity::Error,
        Rule::ValidTypeof => Severity::Error,
        Rule::NoUselessRename => Severity::Warning,
        Rule::NoEmptyPattern => Severity::Warning,
        Rule::NoUnsafe => Severity::Warning,
        Rule::NoUnwrap => Severity::Warning,
        Rule::NoDbg => Severity::Warning,
        Rule::RustNoTodo => Severity::Warning,
        Rule::RustNoPrintln => Severity::Info,
        Rule::NeedlessBool => Severity::Warning,
        Rule::RustNoEmptyFunction => Severity::Warning,
        Rule::NeedlessReturn => Severity::Warning,
        Rule::BoolComparison => Severity::Warning,
        Rule::RustCollapsibleIf => Severity::Warning,
        Rule::SingleMatch => Severity::Warning,
        Rule::ManualMap => Severity::Warning,
        Rule::RedundantClone => Severity::Warning,
        Rule::EqOp => Severity::Warning,
        Rule::GoNoPanic => Severity::Warning,
        Rule::NoFmtPrint => Severity::Info,
        Rule::NoIgnoredError => Severity::Warning,
        Rule::NoOsExit => Severity::Warning,
        Rule::NoDeferInLoop => Severity::Warning,
        Rule::NoEmptyBlock => Severity::Warning,
        Rule::GoNoUnreachable => Severity::Error,
        Rule::NoNakedReturn => Severity::Warning,
        Rule::NoRangeOverString => Severity::Info,
        Rule::NoShadowImport => Severity::Warning,
        Rule::GoCollapsibleIf => Severity::Warning,
        Rule::GoSuperfluousElse => Severity::Warning,
        Rule::NoBareExcept => Severity::Warning,
        Rule::PyNoPrint => Severity::Info,
        Rule::PyNoEval => Severity::Error,
        Rule::NoMutableDefault => Severity::Warning,
        Rule::PyNoGlobal => Severity::Warning,
        Rule::NoAssert => Severity::Info,
        Rule::Unreachable => Severity::Warning,
        Rule::PointlessExcept => Severity::Warning,
        Rule::NoPassBody => Severity::Info,
        Rule::NoStarImport => Severity::Warning,
        Rule::NoNestedWith => Severity::Warning,
        Rule::NoReturnInInit => Severity::Error,
        Rule::SimplifyBooleanReturn => Severity::Warning,
        Rule::PyCollapsibleIf => Severity::Warning,
        Rule::PySuperfluousElse => Severity::Warning,
        Rule::NoSysout => Severity::Warning,
        Rule::NoPrintStackTrace => Severity::Warning,
        Rule::JavaNoEmptyCatch => Severity::Warning,
        Rule::NoThrowsException => Severity::Warning,
        Rule::NoRawType => Severity::Warning,
        Rule::NoStringEquality => Severity::Warning,
        Rule::MissingSwitchDefault => Severity::Warning,
        Rule::JavaNoEmptyIf => Severity::Warning,
        Rule::NoDoubleBraceInit => Severity::Warning,
        Rule::NoStringConcatInLoop => Severity::Warning,
        Rule::NoNestedTry => Severity::Warning,
        Rule::EqualsNull => Severity::Error,
        Rule::NoPrintf => Severity::Info,
        Rule::NoUnsafeFn => Severity::Error,
        Rule::NoMalloc => Severity::Info,
        Rule::NoGoto => Severity::Warning,
        Rule::NoSizeofPtr => Severity::Warning,
        Rule::NoMagicNumber => Severity::Info,
        Rule::NoImplicitFallthrough => Severity::Warning,
        Rule::CNoEmptyIf => Severity::Warning,
        Rule::NoVoidMain => Severity::Warning,
        Rule::NoIoInspect => Severity::Warning,
        Rule::NoIoPuts => Severity::Info,
        Rule::NoRaiseInWith => Severity::Warning,
        Rule::PipeIntoAnonymous => Severity::Warning,
        Rule::NoProcessFlag => Severity::Warning,
        Rule::NoCatchAll => Severity::Warning,
        Rule::NoExitCall => Severity::Warning,
        Rule::GleamNoTodo => Severity::Warning,
        Rule::GleamNoPanic => Severity::Warning,
        Rule::NoLetAssert => Severity::Warning,
        Rule::ClojureNoPrintln => Severity::Info,
        Rule::NoDefInDef => Severity::Warning,
        Rule::NoThreadSleep => Severity::Warning,
        Rule::NoReflection => Severity::Warning,
        Rule::TodoComment => Severity::Info,
        Rule::EmptyFunction => Severity::Warning,
        Rule::RubyNoPuts => Severity::Info,
        Rule::RubyNoEval => Severity::Error,
        Rule::RequireRelative => Severity::Warning,
        Rule::RubyNoRescueException => Severity::Warning,
        Rule::RubyNoSleep => Severity::Warning,
        Rule::CrystalNoPuts => Severity::Info,
        Rule::NoRaiseString => Severity::Warning,
        Rule::CrystalNoRescueException => Severity::Warning,
        Rule::NoShell => Severity::Error,
        Rule::CrystalNoSleep => Severity::Warning,
        Rule::NoDebugOutput => Severity::Warning,
        Rule::PhpNoEval => Severity::Error,
        Rule::NoExit => Severity::Warning,
        Rule::StrictComparison => Severity::Warning,
        Rule::NoErrorSuppression => Severity::Warning,
        Rule::LuaNoGlobal => Severity::Warning,
        Rule::NoOsExecute => Severity::Error,
        Rule::NoLoadstring => Severity::Error,
        Rule::LuaNoPrint => Severity::Info,
        Rule::SwiftNoPrint => Severity::Info,
        Rule::NoForceUnwrap => Severity::Warning,
        Rule::NoForceTry => Severity::Warning,
        Rule::NoForceCast => Severity::Warning,
        Rule::NoNslog => Severity::Warning,
        Rule::NoFatalError => Severity::Warning,
        Rule::NoDebugPrint => Severity::Info,
        Rule::ZigNoUnreachable => Severity::Warning,
        Rule::ZigNoPanic => Severity::Warning,
        Rule::NoCatchAllSwitch => Severity::Warning,
        Rule::NoPartialFunction => Severity::Warning,
        Rule::NoUndefined => Severity::Warning,
        Rule::NoError => Severity::Warning,
        Rule::NoUnsafePerformIo => Severity::Error,
        Rule::NoTrace => Severity::Warning,
        Rule::NoDebug => Severity::Warning,
        Rule::ElmNoTodo => Severity::Warning,
        Rule::UnusedImport => Severity::Warning,
        Rule::ScalaNoPrintln => Severity::Info,
        Rule::NoNull => Severity::Warning,
        Rule::ScalaNoVar => Severity::Warning,
        Rule::NoReturn => Severity::Warning,
        Rule::NoAsInstanceOf => Severity::Warning,
        Rule::KotlinNoPrintln => Severity::Info,
        Rule::NoUnsafeCast => Severity::Warning,
        Rule::NoNotNullAssertion => Severity::Warning,
        Rule::KotlinNoEmptyCatch => Severity::Warning,
        Rule::KotlinNoSystemExit => Severity::Warning,
        Rule::PreferVal => Severity::Info,
        Rule::GroovyNoPrintln => Severity::Info,
        Rule::NoDefType => Severity::Warning,
        Rule::GroovyNoSystemExit => Severity::Warning,
        Rule::GroovyNoEmptyCatch => Severity::Warning,
        Rule::DartNoPrint => Severity::Info,
        Rule::NoDynamic => Severity::Warning,
        Rule::DartNoEmptyCatch => Severity::Warning,
        Rule::NoCast => Severity::Warning,
        Rule::NoRethrowOnly => Severity::Warning,
        Rule::JuliaNoPrintln => Severity::Info,
        Rule::JuliaNoEval => Severity::Error,
        Rule::NoGlobalMutable => Severity::Warning,
        Rule::NoBareCcall => Severity::Warning,
        Rule::NoSorry => Severity::Error,
        Rule::NoAxiom => Severity::Warning,
        Rule::NoNativeDecide => Severity::Warning,
        Rule::LeanNoUnsafe => Severity::Warning,
        Rule::NoUnlimitedHeartbeats => Severity::Warning,
        Rule::NoPartialDef => Severity::Info,
        Rule::NoDbgTrace => Severity::Info,
        Rule::NoDebugCommand => Severity::Info,
        Rule::UnquotedExpansion => Severity::Warning,
        Rule::BashNoEval => Severity::Error,
        Rule::CdWithoutOr => Severity::Warning,
        Rule::UselessCat => Severity::Warning,
        Rule::DangerousRm => Severity::Error,
        Rule::NoSetE => Severity::Info,
        Rule::TestEquals => Severity::Warning,
        Rule::MaxParams(_) => Severity::Warning,
        Rule::GoGenericMethod(_, _) => Severity::Warning,
    }
}

impl Rule {
    /// The name under which the rule is configured.
    pub fn name(&self) -> (s: &'static str)
        ensures
            s@ == spec_rule_name(*self),
    {
        match self {
            Rule::NoAny => "no-any",
            Rule::NoConsole => "no-console",
            Rule::NoVar => "no-var",
            Rule::Eqeqeq => "eqeqeq",
            Rule::JsNoEmptyFunction => "no-empty-function",
            Rule::NoNestedTernary => "no-nested-ternary",
            Rule::NoDebugger => "no-debugger",
            Rule::NoDuplicateCase => "no-duplicate-case",
            Rule::NoSelfAssign => "no-self-assign",
            Rule::JsNoEval => "no-eval",
            Rule::JsNoUnreachable => "no-unreachable",
            Rule::NoConstantCondition => "no-constant-condition",
            Rule::DefaultCase => "default-case",
            Rule::NoFallthrough => "no-fallthrough",
            Rule::NoSelfCompare => "no-self-compare",
            Rule::NoUselessCatch => "no-useless-catch",
            Rule::UseIsnan => "use-isnan",
            Rule::NoCompareNegZero => "no-compare-neg-zero",
            Rule::NoUnsafeNegation => "no-unsafe-negation",
            Rule::NoConstructorReturn => "no-constructor-return",
            Rule::ValidTypeof => "valid-typeof",
            Rule::NoUselessRename => "no-useless-rename",
            Rule::NoEmptyPattern => "no-empty-pattern",
            Rule::NoUnsafe => "no-unsafe",
            Rule::NoUnwrap => "no-unwrap",
            Rule::NoDbg => "no-dbg",
            Rule::RustNoTodo => "no-todo",
            Rule::RustNoPrintln => "no-println",
            Rule::NeedlessBool => "needless-bool",
            Rule::RustNoEmptyFunction => "no-empty-function",
            Rule::NeedlessReturn => "needless-return",
            Rule::BoolComparison => "bool-comparison",
            Rule::RustCollapsibleIf => "collapsible-if",
            Rule::SingleMatch => "single-match",
            Rule::ManualMap => "manual-map",
            Rule::RedundantClone => "redundant-clone",
            Rule::EqOp => "eq-op",
            Rule::GoNoPanic => "no-panic",
            Rule::NoFmtPrint => "no-fmt-print",
            Rule::NoIgnoredError => "no-ignored-error",
            Rule::NoOsExit => "no-os-exit",
            Rule::NoDeferInLoop => "no-defer-in-loop",
            Rule::NoEmptyBlock => "no-empty-block",
            Rule::GoNoUnreachable => "no-unreachable",
            Rule::NoNakedReturn => "no-naked-return",
            Rule::NoRangeOverString => "no-range-over-string",
            Rule::NoShadowImport => "no-shadow-import",
            Rule::GoCollapsibleIf => "collapsible-if",
            Rule::GoSuperfluousElse => "superfluous-else",
            Rule::NoBareExcept => "no-bare-except",
            Rule::PyNoPrint => "no-print",
            Rule::PyNoEval => "no-eval",
            Rule::NoMutableDefault => "no-mutable-default",
            Rule::PyNoGlobal => "no-global",
            Rule::NoAssert => "no-assert",
            Rule::Unreachable => "unreachable",
            Rule::PointlessExcept => "pointless-except",
            Rule::NoPassBody => "no-pass-body",
            Rule::NoStarImport => "no-star-import",
            Rule::NoNestedWith => "no-nested-with",
            Rule::NoReturnInInit => "no-return-in-init",
            Rule::SimplifyBooleanReturn => "simplify-boolean-return",
            Rule::PyCollapsibleIf => "collapsible-if",
            Rule::PySuperfluousElse => "superfluous-else",
            Rule::NoSysout => "no-sysout",
            Rule::NoPrintStackTrace => "no-print-stack-trace",
            Rule::JavaNoEmptyCatch => "no-empty-catch",
            Rule::NoThrowsException => "no-throws-exception",
            Rule::NoRawType => "no-raw-type",
            Rule::NoStringEquality => "no-string-equality",
            Rule::MissingSwitchDefault => "missing-switch-default",
            Rule::JavaNoEmptyIf => "no-empty-if",
            Rule::NoDoubleBraceInit => "no-double-brace-init",
            Rule::NoStringConcatInLoop => "no-string-concat-in-loop",
            Rule::NoNestedTry => "no-nested-try",
            Rule::EqualsNull => "equals-null",
            Rule::NoPrintf => "no-printf",
            Rule::NoUnsafeFn => "no-unsafe-fn",
            Rule::NoMalloc => "no-malloc",
            Rule::NoGoto => "no-goto",
            Rule::NoSizeofPtr => "no-sizeof-ptr",
            Rule::NoMagicNumber => "no-magic-number",
            Rule::NoImplicitFallthrough => "no-implicit-fallthrough",
            Rule::CNoEmptyIf => "no-empty-if",
            Rule::NoVoidMain => "no-void-main",
            Rule::NoIoInspect => "no-io-inspect",
            Rule::NoIoPuts => "no-io-puts",
            Rule::NoRaiseInWith => "no-raise-in-with",
            Rule::PipeIntoAnonymous => "pipe-into-anonymous",
            Rule::NoProcessFlag => "no-process-flag",
            Rule::NoCatchAll => "no-catch-all",
            Rule::NoExitCall => "no-exit-call",
            Rule::GleamNoTodo => "no-todo",
            Rule::GleamNoPanic => "no-panic",
            Rule::NoLetAssert => "no-let-assert",
            Rule::ClojureNoPrintln => "no-println",
            Rule::NoDefInDef => "no-def-in-def",
            Rule::NoThreadSleep => "no-thread-sleep",
            Rule::NoReflection => "no-reflection",
            Rule::TodoComment => "todo-comment",
            Rule::EmptyFunction => "no-empty-function",
            Rule::RubyNoPuts => "no-puts",
            Rule::RubyNoEval => "no-eval",
            Rule::RequireRelative => "require-relative",
            Rule::RubyNoRescueException => "no-rescue-exception",
            Rule::RubyNoSleep => "no-sleep",
            Rule::CrystalNoPuts => "no-puts",
            Rule::NoRaiseString => "no-raise-string",
            Rule::CrystalNoRescueException => "no-rescue-exception",
            Rule::NoShell => "no-shell",
            Rule::CrystalNoSleep => "no-sleep",
            Rule::NoDebugOutput => "no-debug-output",
            Rule::PhpNoEval => "no-eval",
            Rule::NoExit => "no-exit",
            Rule::StrictComparison => "strict-comparison",
            Rule::NoErrorSuppression => "no-error-suppression",
            Rule::LuaNoGlobal => "no-global",
            Rule::NoOsExecute => "no-os-execute",
            Rule::NoLoadstring => "no-loadstring",
            Rule::LuaNoPrint => "no-print",
            Rule::SwiftNoPrint => "no-print",
            Rule::NoForceUnwrap => "no-force-unwrap",
            Rule::NoForceTry => "no-force-try",
            Rule::NoForceCast => "no-force-cast",
            Rule::NoNslog => "no-nslog",
            Rule::NoFatalError => "no-fatal-error",
            Rule::NoDebugPrint => "no-debug-print",
            Rule::ZigNoUnreachable => "no-unreachable",
            Rule::ZigNoPanic => "no-panic",
            Rule::NoCatchAllSwitch => "no-catch-all-switch",
            Rule::NoPartialFunction => "no-partial-function",
            Rule::NoUndefined => "no-undefined",
            Rule::NoError => "no-error",
            Rule::NoUnsafePerformIo => "no-unsafe-perform-io",
            Rule::NoTrace => "no-trace",
            Rule::NoDebug => "no-debug",
            Rule::ElmNoTodo => "no-todo",
            Rule::UnusedImport => "unused-import",
            Rule::ScalaNoPrintln => "no-println",
            Rule::NoNull => "no-null",
            Rule::ScalaNoVar => "no-var",
            Rule::NoReturn => "no-return",
            Rule::NoAsInstanceOf => "no-as-instance-of",
            Rule::KotlinNoPrintln => "no-println",
            Rule::NoUnsafeCast => "no-unsafe-cast",
            Rule::NoNotNullAssertion => "no-not-null-assertion",
            Rule::KotlinNoEmptyCatch => "no-empty-catch",
            Rule::KotlinNoSystemExit => "no-system-exit",
            Rule::PreferVal => "prefer-val",
            Rule::GroovyNoPrintln => "no-println",
            Rule::NoDefType => "no-def-type",
            Rule::GroovyNoSystemExit => "no-system-exit",
            Rule::GroovyNoEmptyCatch => "no-empty-catch",
            Rule::DartNoPrint => "no-print",
            Rule::NoDynamic => "no-dynamic",
            Rule::DartNoEmptyCatch => "no-empty-catch",
            Rule::NoCast => "no-cast",
            Rule::NoRethrowOnly => "no-rethrow-only",
            Rule::JuliaNoPrintln => "no-println",
            Rule::JuliaNoEval => "no-eval",
            Rule::NoGlobalMutable => "no-global-mutable",
            Rule::NoBareCcall => "no-bare-ccall",
            Rule::NoSorry => "no-sorry",
            Rule::NoAxiom => "no-axiom",
            Rule::NoNativeDecide => "no-native-decide",
            Rule::LeanNoUnsafe => "no-unsafe",
            Rule::NoUnlimitedHeartbeats => "no-unlimited-heartbeats",
            Rule::NoPartialDef => "no-partial-def",
            Rule::NoDbgTrace => "no-dbg-trace",
            Rule::NoDebugCommand => "no-debug-command",
            Rule::UnquotedExpansion => "unquoted-expansion",
            Rule::BashNoEval => "no-eval",
            Rule::CdWithoutOr => "cd-without-or",
            Rule::UselessCat => "useless-cat",
            Rule::DangerousRm => "dangerous-rm",
            Rule::NoSetE => "no-set-e",
            Rule::TestEquals => "test-equals",
            Rule::MaxParams(_) => "max-params",
            Rule::GoGenericMethod(_, _) => "go-generic-method",
        }
    }

    /// The severity of the rule when the configuration sets none.
    pub fn default_severity(&self) -> (s: Severity)
        ensures
            s == spec_default_severity(*self),
    {
        match self {
            Rule::NoAny => Severity::Warning,
            Rule::NoConsole => Severity::Warning,
            Rule::NoVar => Severity::Warning,
            Rule::Eqeqeq => Severity::Warning,
            Rule::JsNoEmptyFunction => Severity::Warning,
            Rule::NoNestedTernary => Severity::Warning,
            Rule::NoDebugger => Severity::Error,
            Rule::NoDuplicateCase => Severity::Error,
            Rule::NoSelfAssign => Severity::Warning,
            Rule::JsNoEval => Severity::Error,
            Rule::JsNoUnreachable => Severity::Error,
            Rule::NoConstantCondition => Severity::Warning,
            Rule::DefaultCase => Severity::Warning,
            Rule::NoFallthrough => Severity::Warning,
            Rule::NoSelfCompare => Severity::Warning,
            Rule::NoUselessCatch => Severity::Error,
            Rule::UseIsnan => Severity::Error,
            Rule::NoCompareNegZero => Severity::Error,
            Rule::NoUnsafeNegation => Severity::Error,
            Rule::NoConstructorReturn => Severity::Error,
            Rule::ValidTypeof => Severity::Error,
            Rule::NoUselessRename => Severity::Warning,
            Rule::NoEmptyPattern => Severity::Warning,
            Rule::NoUnsafe => Severity::Warning,
            Rule::NoUnwrap => Severity::Warning,
            Rule::NoDbg => Severity::Warning,
            Rule::RustNoTodo => Severity::Warning,
            Rule::RustNoPrintln => Severity::Info,
            Rule::NeedlessBool => Severity::Warning,
            Rule::RustNoEmptyFunction => Severity::Warning,
            Rule::NeedlessReturn => Severity::Warning,
            Rule::BoolComparison => Severity::Warning,
            Rule::RustCollapsibleIf => Severity::Warning,
            Rule::SingleMatch => Severity::Warning,
            Rule::ManualMap => Severity::Warning,
            Rule::RedundantClone => Severity::Warning,
            Rule::EqOp => Severity::Warning,
            Rule::GoNoPanic => Severity::Warning,
            Rule::NoFmtPrint => Severity::Info,
            Rule::NoIgnoredError => Severity::Warning,
            Rule::NoOsExit => Severity::Warning,
            Rule::NoDeferInLoop => Severity::Warning,
            Rule::NoEmptyBlock => Severity::Warning,
            Rule::GoNoUnreachable => Severity::Error,
            Rule::NoNakedReturn => Severity::Warning,
            Rule::NoRangeOverString => Severity::Info,
            Rule::NoShadowImport => Severity::Warning,
            Rule::GoCollapsibleIf => Severity::Warning,
            Rule::GoSuperfluousElse => Severity::Warning,
            Rule::NoBareExcept => Severity::Warning,
            Rule::PyNoPrint => Severity::Info,
            Rule::PyNoEval => Severity::Error,
            Rule::NoMutableDefault => Severity::Warning,
            Rule::PyNoGlobal => Severity::Warning,
            Rule::NoAssert => Severity::Info,
            Rule::Unreachable => Severity::Warning,
            Rule::PointlessExcept => Severity::Warning,
            Rule::NoPassBody => Severity::Info,
            Rule::NoStarImport => Severity::Warning,
            Rule::NoNestedWith => Severity::Warning,
            Rule::NoReturnInInit => Severity::Error,
            Rule::SimplifyBooleanReturn => Severity::Warning,
            Rule::PyCollapsibleIf => Severity::Warning,
            Rule::PySuperfluousElse => Severity::Warning,
            Rule::NoSysout => Severity::Warning,
            Rule::NoPrintStackTrace => Severity::Warning,
            Rule::JavaNoEmptyCatch => Severity::Warning,
            Rule::NoThrowsException => Severity::Warning,
            Rule::NoRawType => Severity::Warning,
            Rule::NoStringEquality => Severity::Warning,
            Rule::MissingSwitchDefault => Severity::Warning,
            Rule::JavaNoEmptyIf => Severity::Warning,
            Rule::NoDoubleBraceInit => Severity::Warning,
            Rule::NoStringConcatInLoop => Severity::Warning,
            Rule::NoNestedTry => Severity::Warning,
            Rule::EqualsNull => Severity::Error,
            Rule::NoPrintf => Severity::Info,
            Rule::NoUnsafeFn => Severity::Error,
            Rule::NoMalloc => Severity::Info,
            Rule::NoGoto => Severity::Warning,
            Rule::NoSizeofPtr => Severity::Warning,
            Rule::NoMagicNumber => Severity::Info,
            Rule::NoImplicitFallthrough => Severity::Warning,
            Rule::CNoEmptyIf => Severity::Warning,
            Rule::NoVoidMain => Severity::Warning,
            Rule::NoIoInspect => Severity::Warning,
            Rule::NoIoPuts => Severity::Info,
            Rule::NoRaiseInWith => Severity::Warning,
            Rule::PipeIntoAnonymous => Severity::Warning,
            Rule::NoProcessFlag => Severity::Warning,
            Rule::NoCatchAll => Severity::Warning,
            Rule::NoExitCall => Severity::Warning,
            Rule::GleamNoTodo => Severity::Warning,
            Rule::GleamNoPanic => Severity::Warning,
            Rule::NoLetAssert => Severity::Warning,
            Rule::ClojureNoPrintln => Severity::Info,
            Rule::NoDefInDef => Severity::Warning,
            Rule::NoThreadSleep => Severity::Warning,
            Rule::NoReflection => Severity::Warning,
            Rule::TodoComment => Severity::Info,
            Rule::EmptyFunction => Severity::Warning,
            Rule::RubyNoPuts => Severity::Info,
            Rule::RubyNoEval => Severity::Error,
            Rule::RequireRelative => Severity::Warning,
            Rule::RubyNoRescueException => Severity::Warning,
            Rule::RubyNoSleep => Severity::Warning,
            Rule::CrystalNoPuts => Severity::Info,
            Rule::NoRaiseString => Severity::Warning,
            Rule::CrystalNoRescueException => Severity::Warning,
            Rule::NoShell => Severity::Error,
            Rule::CrystalNoSleep => Severity::Warning,
            Rule::NoDebugOutput => Severity::Warning,
            Rule::PhpNoEval => Severity::Error,
            Rule::NoExit => Severity::Warning,
            Rule::StrictComparison => Severity::Warning,
            Rule::NoErrorSuppression => Severity::Warning,
            Rule::LuaNoGlobal => Severity::Warning,
            Rule::NoOsExecute => Severity::Error,
            Rule::NoLoadstring => Severity::Error,
            Rule::LuaNoPrint => Severity::Info,
            Rule::SwiftNoPrint => Severity::Info,
            Rule::NoForceUnwrap => Severity::Warning,
            Rule::NoForceTry => Severity::Warning,
            Rule::NoForceCast => Severity::Warning,
            Rule::NoNslog => Severity::Warning,
            Rule::NoFatalError => Severity::Warning,
            Rule::NoDebugPrint => Severity::Info,
            Rule::ZigNoUnreachable => Severity::Warning,
            Rule::ZigNoPanic => Severity::Warning,
            Rule::NoCatchAllSwitch => Severity::Warning,
            Rule::NoPartialFunction => Severity::Warning,
            Rule::NoUndefined => Severity::Warning,
            Rule::NoError => Severity::Warning,
            Rule::NoUnsafePerformIo => Severity::Error,
            Rule::NoTrace => Severity::Warning,
            Rule::NoDebug => Severity::Warning,
            Rule::ElmNoTodo => Severity::Warning,
            Rule::UnusedImport => Severity::Warning,
            Rule::ScalaNoPrintln => Severity::Info,
            Rule::NoNull => Severity::Warning,
            Rule::ScalaNoVar => Severity::Warning,
            Rule::NoReturn => Severity::Warning,
            Rule::NoAsInstanceOf => Severity::Warning,
            Rule::KotlinNoPrintln => Severity::Info,
            Rule::NoUnsafeCast => Severity::Warning,
            Rule::NoNotNullAssertion => Severity::Warning,
            Rule::KotlinNoEmptyCatch => Severity::Warning,
            Rule::KotlinNoSystemExit => Severity::Warning,
            Rule::PreferVal => Severity::Info,
            Rule::GroovyNoPrintln => Severity::Info,
            Rule::NoDefType => Severity::Warning,
            Rule::GroovyNoSystemExit => Severity::Warning,
            Rule::GroovyNoEmptyCatch => Severity::Warning,
            Rule::DartNoPrint => Severity::Info,
            Rule::NoDynamic => Severity::Warning,
            Rule::DartNoEmptyCatch => Severity::Warning,
            Rule::NoCast => Severity::Warning,
            Rule::NoRethrowOnly => Severity::Warning,
            Rule::JuliaNoPrintln => Severity::Info,
            Rule::JuliaNoEval => Severity::Error,
            Rule::NoGlobalMutable => Severity::Warning,
            Rule::NoBareCcall => Severity::Warning,
            Rule::NoSorry => Severity::Error,
            Rule::NoAxiom => Severity::Warning,
            Rule::NoNativeDecide => Severity::Warning,
            Rule::LeanNoUnsafe => Severity::Warning,
            Rule::NoUnlimitedHeartbeats => Severity::Warning,
            Rule::NoPartialDef => Severity::Info,
            Rule::NoDbgTrace => Severity::Info,
            Rule::NoDebugCommand => Severity::Info,
            Rule::UnquotedExpansion => Severity::Warning,
            Rule::BashNoEval => Severity::Error,
            Rule::CdWithoutOr => Severity::Warning,
            Rule::UselessCat => Severity::Warning,
            Rule::DangerousRm => Severity::Error,
            Rule::NoSetE => Severity::Info,
            Rule::TestEquals => Severity::Warning,
            Rule::MaxParams(_) => Severity::Warning,
            Rule::GoGenericMethod(_, _) => Severity::Warning,
        }
    }

    /// Whether the rule visits a node's children last to first.
    pub fn children_reversed(&self) -> (b: bool)
        ensures
            b == reversed(*self),
    {
        matches!(self, Rule::NoShadowImport)
    }
}

/// Whether rule `r` visits a node's children last to first.
pub open spec fn reversed(r: Rule) -> bool {
    r == Rule::NoShadowImport
}

/// Whether rule `r` leaves the file at path `file` alone: `no-assert` and
/// the `no-sleep` rules do not apply to test files.
pub open spec fn skips_file(r: Rule, file: Seq<char>) -> bool {
    match r {
        Rule::NoAssert => contains(file, "test_"@) || contains(file, "_test."@) || ends_with(
            file,
            "_test.py"@,
        ),
        Rule::RubyNoSleep => contains(file, "_test.rb"@) || contains(file, "_spec.rb"@) || contains(
            file,
            "test_"@,
        ),
        Rule::CrystalNoSleep => contains(file, "_spec.cr"@) || contains(file, "_test.cr"@),
        _ => false,
    }
}

pub fn skips_file_exec(r: Rule, file: &str) -> (b: bool)
    ensures
        b == skips_file(r, file@),
{
    match r {
        Rule::NoAssert => str_contains(file, "test_") || str_contains(file, "_test.") || str_ends_with(
            file,
            "_test.py",
        ),
        Rule::RubyNoSleep => str_contains(file, "_test.rb") || str_contains(file, "_spec.rb")
            || str_contains(file, "test_"),
        Rule::CrystalNoSleep => str_contains(file, "_spec.cr") || str_contains(file, "_test.cr"),
        _ => false,
    }
}

/// The rules that run on every file.
pub open spec fn universal_rule_list() -> Seq<Rule> {
    seq![Rule::TodoComment]
}

pub fn universal_rules() -> (r: Vec<Rule>)
    ensures
        r@ == universal_rule_list(),
{
    vec![Rule::TodoComment]
}

/// The rules specific to a language.
pub open spec fn language_rule_list(lang: SourceLanguage) -> Seq<Rule> {
    match lang {
        SourceLanguage::TypeScript | SourceLanguage::Tsx | SourceLanguage::JavaScript => seq![
            Rule::NoAny, Rule::NoConsole, Rule::NoVar, Rule::Eqeqeq, Rule::JsNoEmptyFunction,
            Rule::NoNestedTernary, Rule::NoDebugger, Rule::NoDuplicateCase, Rule::NoSelfAssign,
            Rule::JsNoEval, Rule::JsNoUnreachable, Rule::NoConstantCondition, Rule::DefaultCase,
            Rule::NoFallthrough, Rule::NoSelfCompare, Rule::NoUselessCatch, Rule::UseIsnan,
            Rule::NoCompareNegZero, Rule::NoUnsafeNegation, Rule::NoConstructorReturn,
            Rule::ValidTypeof, Rule::NoUselessRename, Rule::NoEmptyPattern
        ],
        SourceLanguage::Rust => seq![
            Rule::NoUnsafe, Rule::NoUnwrap, Rule::NoDbg, Rule::RustNoTodo, Rule::RustNoPrintln,
            Rule::NeedlessBool, Rule::RustNoEmptyFunction, Rule::NeedlessReturn,
            Rule::BoolComparison, Rule::RustCollapsibleIf, Rule::SingleMatch, Rule::ManualMap,
            Rule::RedundantClone, Rule::EqOp
        ],
        SourceLanguage::C | SourceLanguage::Cpp => seq![
            Rule::NoPrintf, Rule::NoUnsafeFn, Rule::NoMalloc, Rule::NoGoto, Rule::NoSizeofPtr,
            Rule::NoMagicNumber, Rule::NoImplicitFallthrough, Rule::CNoEmptyIf, Rule::NoVoidMain
        ],
        SourceLanguage::Go => seq![
            Rule::GoNoPanic, Rule::NoFmtPrint, Rule::NoIgnoredError, Rule::NoOsExit,
            Rule::NoDeferInLoop, Rule::NoEmptyBlock, Rule::GoNoUnreachable, Rule::NoNakedReturn,
            Rule::NoRangeOverString, Rule::NoShadowImport, Rule::GoCollapsibleIf,
            Rule::GoSuperfluousElse
        ],
        SourceLanguage::Python => seq![
            Rule::NoBareExcept, Rule::PyNoPrint, Rule::PyNoEval, Rule::NoMutableDefault,
            Rule::PyNoGlobal, Rule::NoAssert, Rule::Unreachable, Rule::PointlessExcept,
            Rule::NoPassBody, Rule::NoStarImport, Rule::NoNestedWith, Rule::NoReturnInInit,
            Rule::SimplifyBooleanReturn, Rule::PyCollapsibleIf, Rule::PySuperfluousElse
        ],
        SourceLanguage::Java => seq![
            Rule::NoSysout, Rule::NoPrintStackTrace, Rule::JavaNoEmptyCatch,
            Rule::NoThrowsException, Rule::NoRawType, Rule::NoStringEquality,
            Rule::MissingSwitchDefault, Rule::JavaNoEmptyIf, Rule::NoDoubleBraceInit,
            Rule::NoStringConcatInLoop, Rule::NoNestedTry, Rule::EqualsNull
        ],
        SourceLanguage::Elixir => seq![
            Rule::NoIoInspect, Rule::NoIoPuts, Rule::NoRaiseInWith, Rule::PipeIntoAnonymous
        ],
        SourceLanguage::Erlang => seq![
            Rule::NoProcessFlag, Rule::NoCatchAll, Rule::NoExitCall
        ],
        SourceLanguage::Gleam => seq![
            Rule::GleamNoTodo, Rule::GleamNoPanic, Rule::NoLetAssert
        ],
        SourceLanguage::Clojure => seq![
            Rule::ClojureNoPrintln, Rule::NoDefInDef, Rule::NoThreadSleep, Rule::NoReflection
        ],
        SourceLanguage::Ruby => seq![
            Rule::RubyNoPuts, Rule::RubyNoEval, Rule::RequireRelative, Rule::RubyNoRescueException,
            Rule::RubyNoSleep
        ],
        SourceLanguage::Crystal => seq![
            Rule::CrystalNoPuts, Rule::NoRaiseString, Rule::CrystalNoRescueException,
            Rule::NoShell, Rule::CrystalNoSleep
        ],
        SourceLanguage::Php => seq![
            Rule::NoDebugOutput, Rule::PhpNoEval, Rule::NoExit, Rule::StrictComparison,
            Rule::NoErrorSuppression
        ],
        SourceLanguage::Lua => seq![
            Rule::LuaNoGlobal, Rule::NoOsExecute, Rule::NoLoadstring, Rule::LuaNoPrint
        ],
        SourceLanguage::Swift => seq![
            Rule::SwiftNoPrint, Rule::NoForceUnwrap, Rule::NoForceTry, Rule::NoForceCast,
            Rule::NoNslog, Rule::NoFatalError
        ],
        SourceLanguage::Zig => seq![
            Rule::NoDebugPrint, Rule::ZigNoUnreachable, Rule::ZigNoPanic, Rule::NoCatchAllSwitch
        ],
        SourceLanguage::Haskell => seq![
            Rule::NoPartialFunction, Rule::NoUndefined, Rule::NoError, Rule::NoUnsafePerformIo,
            Rule::NoTrace
        ],
        SourceLanguage::Elm => seq![
            Rule::NoDebug, Rule::ElmNoTodo, Rule::UnusedImport
        ],
        SourceLanguage::Scala => seq![
            Rule::ScalaNoPrintln, Rule::NoNull, Rule::ScalaNoVar, Rule::NoReturn,
            Rule::NoAsInstanceOf
        ],
        SourceLanguage::Kotlin => seq![
            Rule::KotlinNoPrintln, Rule::NoUnsafeCast, Rule::NoNotNullAssertion,
            Rule::KotlinNoEmptyCatch, Rule::KotlinNoSystemExit, Rule::PreferVal
        ],
        SourceLanguage::Groovy => seq![
            Rule::GroovyNoPrintln, Rule::NoDefType, Rule::GroovyNoSystemExit,
            Rule::GroovyNoEmptyCatch
        ],
        SourceLanguage::Dart => seq![
            Rule::DartNoPrint, Rule::NoDynamic, Rule::DartNoEmptyCatch, Rule::NoCast,
            Rule::NoRethrowOnly
        ],
        SourceLanguage::Julia => seq![
            Rule::JuliaNoPrintln, Rule::JuliaNoEval, Rule::NoGlobalMutable, Rule::NoBareCcall
        ],
        SourceLanguage::Lean => seq![
            Rule::NoSorry, Rule::NoAxiom, Rule::NoNativeDecide, Rule::LeanNoUnsafe,
            Rule::NoUnlimitedHeartbeats, Rule::NoPartialDef, Rule::NoDbgTrace,
            Rule::NoDebugCommand
        ],
        SourceLanguage::Bash => seq![
            Rule::UnquotedExpansion, Rule::BashNoEval, Rule::CdWithoutOr, Rule::UselessCat,
            Rule::DangerousRm, Rule::NoSetE, Rule::TestEquals
        ],
        _ => seq![],
    }
}

pub fn language_rules(lang: SourceLanguage) -> (r: Vec<Rule>)
    ensures
        r@ == language_rule_list(lang),
{
    match lang {
        SourceLanguage::TypeScript | SourceLanguage::Tsx | SourceLanguage::JavaScript => vec![
            Rule::NoAny, Rule::NoConsole, Rule::NoVar, Rule::Eqeqeq, Rule::JsNoEmptyFunction,
            Rule::NoNestedTernary, Rule::NoDebugger, Rule::NoDuplicateCase, Rule::NoSelfAssign,
            Rule::JsNoEval, Rule::JsNoUnreachable, Rule::NoConstantCondition, Rule::DefaultCase,
            Rule::NoFallthrough, Rule::NoSelfCompare, Rule::NoUselessCatch, Rule::UseIsnan,
            Rule::NoCompareNegZero, Rule::NoUnsafeNegation, Rule::NoConstructorReturn,
            Rule::ValidTypeof, Rule::NoUselessRename, Rule::NoEmptyPattern
        ],
        SourceLanguage::Rust => vec![
            Rule::NoUnsafe, Rule::NoUnwrap, Rule::NoDbg, Rule::RustNoTodo, Rule::RustNoPrintln,
            Rule::NeedlessBool, Rule::RustNoEmptyFunction, Rule::NeedlessReturn,
            Rule::BoolComparison, Rule::RustCollapsibleIf, Rule::SingleMatch, Rule::ManualMap,
            Rule::RedundantClone, Rule::EqOp
        ],
        SourceLanguage::C | SourceLanguage::Cpp => vec![
            Rule::NoPrintf, Rule::NoUnsafeFn, Rule::NoMalloc, Rule::NoGoto, Rule::NoSizeofPtr,
            Rule::NoMagicNumber, Rule::NoImplicitFallthrough, Rule::CNoEmptyIf, Rule::NoVoidMain
        ],
        SourceLanguage::Go => vec![
            Rule::GoNoPanic, Rule::NoFmtPrint, Rule::NoIgnoredError, Rule::NoOsExit,
            Rule::NoDeferInLoop, Rule::NoEmptyBlock, Rule::GoNoUnreachable, Rule::NoNakedReturn,
            Rule::NoRangeOverString, Rule::NoShadowImport, Rule::GoCollapsibleIf,
            Rule::GoSuperfluousElse
        ],
        SourceLanguage::Python => vec![
            Rule::NoBareExcept, Rule::PyNoPrint, Rule::PyNoEval, Rule::NoMutableDefault,
            Rule::PyNoGlobal, Rule::NoAssert, Rule::Unreachable, Rule::PointlessExcept,
            Rule::NoPassBody, Rule::NoStarImport, Rule::NoNestedWith, Rule::NoReturnInInit,
            Rule::SimplifyBooleanReturn, Rule::PyCollapsibleIf, Rule::PySuperfluousElse
        ],
        SourceLanguage::Java => vec![
            Rule::NoSysout, Rule::NoPrintStackTrace, Rule::JavaNoEmptyCatch,
            Rule::NoThrowsException, Rule::NoRawType, Rule::NoStringEquality,
            Rule::MissingSwitchDefault, Rule::JavaNoEmptyIf, Rule::NoDoubleBraceInit,
            Rule::NoStringConcatInLoop, Rule::NoNestedTry, Rule::EqualsNull
        ],
        SourceLanguage::Elixir => vec![
            Rule::NoIoInspect, Rule::NoIoPuts, Rule::NoRaiseInWith, Rule::PipeIntoAnonymous
        ],
        SourceLanguage::Erlang => vec![
            Rule::NoProcessFlag, Rule::NoCatchAll, Rule::NoExitCall
        ],
        SourceLanguage::Gleam => vec![
            Rule::GleamNoTodo, Rule::GleamNoPanic, Rule::NoLetAssert
        ],
        SourceLanguage::Clojure => vec![
            Rule::ClojureNoPrintln, Rule::NoDefInDef, Rule::NoThreadSleep, Rule::NoReflection
        ],
        SourceLanguage::Ruby => vec![
            Rule::RubyNoPuts, Rule::RubyNoEval, Rule::RequireRelative, Rule::RubyNoRescueException,
            Rule::RubyNoSleep
        ],
        SourceLanguage::Crystal => vec![
            Rule::CrystalNoPuts, Rule::NoRaiseString, Rule::CrystalNoRescueException,
            Rule::NoShell, Rule::CrystalNoSleep
        ],
        SourceLanguage::Php => vec![
            Rule::NoDebugOutput, Rule::PhpNoEval, Rule::NoExit, Rule::StrictComparison,
            Rule::NoErrorSuppression
        ],
        SourceLanguage::Lua => vec![
            Rule::LuaNoGlobal, Rule::NoOsExecute, Rule::NoLoadstring, Rule::LuaNoPrint
        ],
        SourceLanguage::Swift => vec![
            Rule::SwiftNoPrint, Rule::NoForceUnwrap, Rule::NoForceTry, Rule::NoForceCast,
            Rule::NoNslog, Rule::NoFatalError
        ],
        SourceLanguage::Zig => vec![
            Rule::NoDebugPrint, Rule::ZigNoUnreachable, Rule::ZigNoPanic, Rule::NoCatchAllSwitch
        ],
        SourceLanguage::Haskell => vec![
            Rule::NoPartialFunction, Rule::NoUndefined, Rule::NoError, Rule::NoUnsafePerformIo,
            Rule::NoTrace
        ],
        SourceLanguage::Elm => vec![
            Rule::NoDebug, Rule::ElmNoTodo, Rule::UnusedImport
        ],
        SourceLanguage::Scala => vec![
            Rule::ScalaNoPrintln, Rule::NoNull, Rule::ScalaNoVar, Rule::NoReturn,
            Rule::NoAsInstanceOf
        ],
        SourceLanguage::Kotlin => vec![
            Rule::KotlinNoPrintln, Rule::NoUnsafeCast, Rule::NoNotNullAssertion,
            Rule::KotlinNoEmptyCatch, Rule::KotlinNoSystemExit, Rule::PreferVal
        ],
        SourceLanguage::Groovy => vec![
            Rule::GroovyNoPrintln, Rule::NoDefType, Rule::GroovyNoSystemExit,
            Rule::GroovyNoEmptyCatch
        ],
        SourceLanguage::Dart => vec![
            Rule::DartNoPrint, Rule::NoDynamic, Rule::DartNoEmptyCatch, Rule::NoCast,
            Rule::NoRethrowOnly
        ],
        SourceLanguage::Julia => vec![
            Rule::JuliaNoPrintln, Rule::JuliaNoEval, Rule::NoGlobalMutable, Rule::NoBareCcall
        ],
        SourceLanguage::Lean => vec![
            Rule::NoSorry, Rule::NoAxiom, Rule::NoNativeDecide, Rule::LeanNoUnsafe,
            Rule::NoUnlimitedHeartbeats, Rule::NoPartialDef, Rule::NoDbgTrace,
            Rule::NoDebugCommand
        ],
        SourceLanguage::Bash => vec![
            Rule::UnquotedExpansion, Rule::BashNoEval, Rule::CdWithoutOr, Rule::UselessCat,
            Rule::DangerousRm, Rule::NoSetE, Rule::TestEquals
        ],
        _ => vec![],
    }
}

} // verus!
