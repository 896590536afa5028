//! Parsing source text into a [`SyntaxTree`] with the tree-sitter grammars.
//!
//! The tree-sitter calls stand behind the trusted items of this module: what
//! a grammar builds for a text is named, node by node. The copy of those
//! nodes into the plain tree, with the children and parents their counts
//! give, is verified.
use vstd::prelude::*;
use tree_sitter::{Language, Parser, Tree};
use crate::language::SourceLanguage;
use crate::syntax::{SyntaxNode, SyntaxTree};

verus! {

#[verifier::external_type_specification]
#[verifier::external_body]
pub struct ExTsLanguage(Language);

#[verifier::external_type_specification]
#[verifier::external_body]
pub struct ExTsTree(Tree);

/// What the grammar tells of one node of a tree: its kind, whether it is
/// named, the field it fills in its parent, its number of children, its
/// number of descendants (itself included), its byte range, and its
/// zero-based row and column.
pub type NodeFacts = (Seq<char>, bool, Option<Seq<char>>, usize, usize, usize, usize, usize, usize);

/// The nodes of a tree-sitter tree, numbered as tree-sitter numbers the
/// descendants of the root (the root is number 0).
pub uninterp spec fn tree_nodes(tree: Tree) -> Seq<NodeFacts>;

/// The nodes of the tree that the grammar of `language` builds for `source`.
pub uninterp spec fn grammar_nodes(source: Seq<char>, language: SourceLanguage) -> Seq<NodeFacts>;

/// `tree_sitter::Node::descendant_count` of the root of `tree`: the number
/// of its nodes, which tree-sitter counts in a `u32`.
#[verifier::external_body]
fn ts_node_count(tree: &Tree) -> (r: usize)
    ensures
        r == tree_nodes(*tree).len(),
        r <= u32::MAX,
{
    tree.root_node().descendant_count()
}

/// The facts of node number `i` of `tree`: a `tree_sitter::TreeCursor` from
/// the root moved by `goto_descendant(i)`, its `field_name`, and its node's
/// `kind`, `is_named`, `child_count`, `descendant_count`, `start_byte`,
/// `end_byte` and `start_position`.
#[verifier::external_body]
fn ts_node_facts(tree: &Tree, i: usize) -> (r: (&'static str, bool, Option<&'static str>, usize, usize, usize, usize, usize, usize))
    requires
        i < tree_nodes(*tree).len(),
    ensures
        r.0@ == tree_nodes(*tree)[i as int].0,
        r.1 == tree_nodes(*tree)[i as int].1,
        r.2 is Some <==> tree_nodes(*tree)[i as int].2 is Some,
        r.2 matches Some(f) ==> tree_nodes(*tree)[i as int].2 == Some(f@),
        r.3 == tree_nodes(*tree)[i as int].3,
        r.4 == tree_nodes(*tree)[i as int].4,
        r.5 == tree_nodes(*tree)[i as int].5,
        r.6 == tree_nodes(*tree)[i as int].6,
        r.7 == tree_nodes(*tree)[i as int].7,
        r.8 == tree_nodes(*tree)[i as int].8,
{
    let mut cursor = tree.walk();
    cursor.goto_descendant(i);
    let n = cursor.node();
    let p = n.start_position();
    (n.kind(), n.is_named(), cursor.field_name(), n.child_count(), n.descendant_count(), n.start_byte(), n.end_byte(), p.row, p.column)
}

/// `tree_sitter_typescript::LANGUAGE_TSX`, as a `tree_sitter::Language`.
#[verifier::external_body]
fn grammar_tsx() -> Language {
    tree_sitter_typescript::LANGUAGE_TSX.into()
}

/// `tree_sitter_typescript::LANGUAGE_TYPESCRIPT`, as a `tree_sitter::Language`.
#[verifier::external_body]
fn grammar_type_script() -> Language {
    tree_sitter_typescript::LANGUAGE_TYPESCRIPT.into()
}

/// `tree_sitter_javascript::LANGUAGE`, as a `tree_sitter::Language`.
#[verifier::external_body]
fn grammar_java_script() -> Language {
    tree_sitter_javascript::LANGUAGE.into()
}

/// `tree_sitter_rust::LANGUAGE`, as a `tree_sitter::Language`.
#[verifier::external_body]
fn grammar_rust() -> Language {
    tree_sitter_rust::LANGUAGE.into()
}

/// `tree_sitter_go::LANGUAGE`, as a `tree_sitter::Language`.
#[verifier::external_body]
fn grammar_go() -> Language {
    tree_sitter_go::LANGUAGE.into()
}

/// `tree_sitter_python::LANGUAGE`, as a `tree_sitter::Language`.
#[verifier::external_body]
fn grammar_python() -> Language {
    tree_sitter_python::LANGUAGE.into()
}

/// `tree_sitter_cpp::LANGUAGE`, as a `tree_sitter::Language`.
#[verifier::external_body]
fn grammar_cpp() -> Language {
    tree_sitter_cpp::LANGUAGE.into()
}

/// `tree_sitter_c::LANGUAGE`, as a `tree_sitter::Language`.
#[verifier::external_body]
fn grammar_c() -> Language {
    tree_sitter_c::LANGUAGE.into()
}

/// `tree_sitter_java::LANGUAGE`, as a `tree_sitter::Language`.
#[verifier::external_body]
fn grammar_java() -> Language {
    tree_sitter_java::LANGUAGE.into()
}

/// `tree_sitter_ruby::LANGUAGE`, as a `tree_sitter::Language`.
#[verifier::external_body]
fn grammar_ruby() -> Language {
    tree_sitter_ruby::LANGUAGE.into()
}

/// `tree_sitter_c_sharp::LANGUAGE`, as a `tree_sitter::Language`.
#[verifier::external_body]
fn grammar_c_sharp() -> Language {
    tree_sitter_c_sharp::LANGUAGE.into()
}

/// `tree_sitter_php::LANGUAGE_PHP`, as a `tree_sitter::Language`.
#[verifier::external_body]
fn grammar_php() -> Language {
    tree_sitter_php::LANGUAGE_PHP.into()
}

/// `tree_sitter_scala::LANGUAGE`, as a `tree_sitter::Language`.
#[verifier::external_body]
fn grammar_scala() -> Language {
    tree_sitter_scala::LANGUAGE.into()
}

/// `tree_sitter_haskell::LANGUAGE`, as a `tree_sitter::Language`.
#[verifier::external_body]
fn grammar_haskell() -> Language {
    tree_sitter_haskell::LANGUAGE.into()
}

/// `tree_sitter_bash::LANGUAGE`, as a `tree_sitter::Language`.
#[verifier::external_body]
fn grammar_bash() -> Language {
    tree_sitter_bash::LANGUAGE.into()
}

/// `tree_sitter_swift::LANGUAGE`, as a `tree_sitter::Language`.
#[verifier::external_body]
fn grammar_swift() -> Language {
    tree_sitter_swift::LANGUAGE.into()
}

/// `tree_sitter_lua::LANGUAGE`, as a `tree_sitter::Language`.
#[verifier::external_body]
fn grammar_lua() -> Language {
    tree_sitter_lua::LANGUAGE.into()
}

/// `tree_sitter_zig::LANGUAGE`, as a `tree_sitter::Language`.
#[verifier::external_body]
fn grammar_zig() -> Language {
    tree_sitter_zig::LANGUAGE.into()
}

/// `tree_sitter_elixir::LANGUAGE`, as a `tree_sitter::Language`.
#[verifier::external_body]
fn grammar_elixir() -> Language {
    tree_sitter_elixir::LANGUAGE.into()
}

/// `tree_sitter_clojure::LANGUAGE`, as a `tree_sitter::Language`.
#[verifier::external_body]
fn grammar_clojure() -> Language {
    tree_sitter_clojure::LANGUAGE.into()
}

/// `tree_sitter_erlang::LANGUAGE`, as a `tree_sitter::Language`.
#[verifier::external_body]
fn grammar_erlang() -> Language {
    tree_sitter_erlang::LANGUAGE.into()
}

/// `tree_sitter_gleam::LANGUAGE`, as a `tree_sitter::Language`.
#[verifier::external_body]
fn grammar_gleam() -> Language {
    tree_sitter_gleam::LANGUAGE.into()
}

/// `tree_sitter_dart::LANGUAGE`, as a `tree_sitter::Language`.
#[verifier::external_body]
fn grammar_dart() -> Language {
    tree_sitter_dart::LANGUAGE.into()
}

/// `tree_sitter_elm::LANGUAGE`, as a `tree_sitter::Language`.
#[verifier::external_body]
fn grammar_elm() -> Language {
    tree_sitter_elm::LANGUAGE.into()
}

/// `tree_sitter_julia::LANGUAGE`, as a `tree_sitter::Language`.
#[verifier::external_body]
fn grammar_julia() -> Language {
    tree_sitter_julia::LANGUAGE.into()
}

/// `tree_sitter_json::LANGUAGE`, as a `tree_sitter::Language`.
#[verifier::external_body]
fn grammar_json() -> Language {
    tree_sitter_json::LANGUAGE.into()
}

/// A `tree_sitter::Parser` set to `tree_sitter_typescript::LANGUAGE_TSX` (ABI 14, which
/// `Parser::set_language` accepts) parses `source`: with no timeout and no
/// cancellation flag, `Parser::parse` gives a tree, the grammar's for `source`.
#[verifier::external_body]
fn parse_tsx(source: &str) -> (r: Option<Tree>)
    ensures
        r is Some,
        r matches Some(t) ==> tree_nodes(t) == grammar_nodes(source@, SourceLanguage::Tsx),
{
    let mut parser = Parser::new();
    parser.set_language(&tree_sitter_typescript::LANGUAGE_TSX.into()).ok()?;
    parser.parse(source, None)
}

/// A `tree_sitter::Parser` set to `tree_sitter_typescript::LANGUAGE_TYPESCRIPT` (ABI 14, which
/// `Parser::set_language` accepts) parses `source`: with no timeout and no
/// cancellation flag, `Parser::parse` gives a tree, the grammar's for `source`.
#[verifier::external_body]
fn parse_type_script(source: &str) -> (r: Option<Tree>)
    ensures
        r is Some,
        r matches Some(t) ==> tree_nodes(t) == grammar_nodes(source@, SourceLanguage::TypeScript),
{
    let mut parser = Parser::new();
    parser.set_language(&tree_sitter_typescript::LANGUAGE_TYPESCRIPT.into()).ok()?;
    parser.parse(source, None)
}

/// A `tree_sitter::Parser` set to `tree_sitter_javascript::LANGUAGE` (ABI 15, which
/// `Parser::set_language` accepts) parses `source`: with no timeout and no
/// cancellation flag, `Parser::parse` gives a tree, the grammar's for `source`.
#[verifier::external_body]
fn parse_java_script(source: &str) -> (r: Option<Tree>)
    ensures
        r is Some,
        r matches Some(t) ==> tree_nodes(t) == grammar_nodes(source@, SourceLanguage::JavaScript),
{
    let mut parser = Parser::new();
    parser.set_language(&tree_sitter_javascript::LANGUAGE.into()).ok()?;
    parser.parse(source, None)
}

/// A `tree_sitter::Parser` set to `tree_sitter_rust::LANGUAGE` (ABI 15, which
/// `Parser::set_language` accepts) parses `source`: with no timeout and no
/// cancellation flag, `Parser::parse` gives a tree, the grammar's for `source`.
#[verifier::external_body]
fn parse_rust(source: &str) -> (r: Option<Tree>)
    ensures
        r is Some,
        r matches Some(t) ==> tree_nodes(t) == grammar_nodes(source@, SourceLanguage::Rust),
{
    let mut parser = Parser::new();
    parser.set_language(&tree_sitter_rust::LANGUAGE.into()).ok()?;
    parser.parse(source, None)
}

/// A `tree_sitter::Parser` set to `tree_sitter_go::LANGUAGE` (ABI 15, which
/// `Parser::set_language` accepts) parses `source`: with no timeout and no
/// cancellation flag, `Parser::parse` gives a tree, the grammar's for `source`.
#[verifier::external_body]
fn parse_go(source: &str) -> (r: Option<Tree>)
    ensures
        r is Some,
        r matches Some(t) ==> tree_nodes(t) == grammar_nodes(source@, SourceLanguage::Go),
{
    let mut parser = Parser::new();
    parser.set_language(&tree_sitter_go::LANGUAGE.into()).ok()?;
    parser.parse(source, None)
}

/// A `tree_sitter::Parser` set to `tree_sitter_python::LANGUAGE` (ABI 15, which
/// `Parser::set_language` accepts) parses `source`: with no timeout and no
/// cancellation flag, `Parser::parse` gives a tree, the grammar's for `source`.
#[verifier::external_body]
fn parse_python(source: &str) -> (r: Option<Tree>)
    ensures
        r is Some,
        r matches Some(t) ==> tree_nodes(t) == grammar_nodes(source@, SourceLanguage::Python),
{
    let mut parser = Parser::new();
    parser.set_language(&tree_sitter_python::LANGUAGE.into()).ok()?;
    parser.parse(source, None)
}

/// A `tree_sitter::Parser` set to `tree_sitter_cpp::LANGUAGE` (ABI 14, which
/// `Parser::set_language` accepts) parses `source`: with no timeout and no
/// cancellation flag, `Parser::parse` gives a tree, the grammar's for `source`.
#[verifier::external_body]
fn parse_cpp(source: &str) -> (r: Option<Tree>)
    ensures
        r is Some,
        r matches Some(t) ==> tree_nodes(t) == grammar_nodes(source@, SourceLanguage::Cpp),
{
    let mut parser = Parser::new();
    parser.set_language(&tree_sitter_cpp::LANGUAGE.into()).ok()?;
    parser.parse(source, None)
}

/// A `tree_sitter::Parser` set to `tree_sitter_c::LANGUAGE` (ABI 15, which
/// `Parser::set_language` accepts) parses `source`: with no timeout and no
/// cancellation flag, `Parser::parse` gives a tree, the grammar's for `source`.
#[verifier::external_body]
fn parse_c(source: &str) -> (r: Option<Tree>)
    ensures
        r is Some,
        r matches Some(t) ==> tree_nodes(t) == grammar_nodes(source@, SourceLanguage::C),
{
    let mut parser = Parser::new();
    parser.set_language(&tree_sitter_c::LANGUAGE.into()).ok()?;
    parser.parse(source, None)
}

/// A `tree_sitter::Parser` set to `tree_sitter_java::LANGUAGE` (ABI 14, which
/// `Parser::set_language` accepts) parses `source`: with no timeout and no
/// cancellation flag, `Parser::parse` gives a tree, the grammar's for `source`.
#[verifier::external_body]
fn parse_java(source: &str) -> (r: Option<Tree>)
    ensures
        r is Some,
        r matches Some(t) ==> tree_nodes(t) == grammar_nodes(source@, SourceLanguage::Java),
{
    let mut parser = Parser::new();
    parser.set_language(&tree_sitter_java::LANGUAGE.into()).ok()?;
    parser.parse(source, None)
}

/// A `tree_sitter::Parser` set to `tree_sitter_ruby::LANGUAGE` (ABI 14, which
/// `Parser::set_language` accepts) parses `source`: with no timeout and no
/// cancellation flag, `Parser::parse` gives a tree, the grammar's for `source`.
#[verifier::external_body]
fn parse_ruby(source: &str) -> (r: Option<Tree>)
    ensures
        r is Some,
        r matches Some(t) ==> tree_nodes(t) == grammar_nodes(source@, SourceLanguage::Ruby),
{
    let mut parser = Parser::new();
    parser.set_language(&tree_sitter_ruby::LANGUAGE.into()).ok()?;
    parser.parse(source, None)
}

/// A `tree_sitter::Parser` set to `tree_sitter_c_sharp::LANGUAGE` (ABI 15, which
/// `Parser::set_language` accepts) parses `source`: with no timeout and no
/// cancellation flag, `Parser::parse` gives a tree, the grammar's for `source`.
#[verifier::external_body]
fn parse_c_sharp(source: &str) -> (r: Option<Tree>)
    ensures
        r is Some,
        r matches Some(t) ==> tree_nodes(t) == grammar_nodes(source@, SourceLanguage::CSharp),
{
    let mut parser = Parser::new();
    parser.set_language(&tree_sitter_c_sharp::LANGUAGE.into()).ok()?;
    parser.parse(source, None)
}

/// A `tree_sitter::Parser` set to `tree_sitter_php::LANGUAGE_PHP` (ABI 15, which
/// `Parser::set_language` accepts) parses `source`: with no timeout and no
/// cancellation flag, `Parser::parse` gives a tree, the grammar's for `source`.
#[verifier::external_body]
fn parse_php(source: &str) -> (r: Option<Tree>)
    ensures
        r is Some,
        r matches Some(t) ==> tree_nodes(t) == grammar_nodes(source@, SourceLanguage::Php),
{
    let mut parser = Parser::new();
    parser.set_language(&tree_sitter_php::LANGUAGE_PHP.into()).ok()?;
    parser.parse(source, None)
}

/// A `tree_sitter::Parser` set to `tree_sitter_scala::LANGUAGE` (ABI 15, which
/// `Parser::set_language` accepts) parses `source`: with no timeout and no
/// cancellation flag, `Parser::parse` gives a tree, the grammar's for `source`.
#[verifier::external_body]
fn parse_scala(source: &str) -> (r: Option<Tree>)
    ensures
        r is Some,
        r matches Some(t) ==> tree_nodes(t) == grammar_nodes(source@, SourceLanguage::Scala),
{
    let mut parser = Parser::new();
    parser.set_language(&tree_sitter_scala::LANGUAGE.into()).ok()?;
    parser.parse(source, None)
}

/// A `tree_sitter::Parser` set to `tree_sitter_haskell::LANGUAGE` (ABI 15, which
/// `Parser::set_language` accepts) parses `source`: with no timeout and no
/// cancellation flag, `Parser::parse` gives a tree, the grammar's for `source`.
#[verifier::external_body]
fn parse_haskell(source: &str) -> (r: Option<Tree>)
    ensures
        r is Some,
        r matches Some(t) ==> tree_nodes(t) == grammar_nodes(source@, SourceLanguage::Haskell),
{
    let mut parser = Parser::new();
    parser.set_language(&tree_sitter_haskell::LANGUAGE.into()).ok()?;
    parser.parse(source, None)
}

/// A `tree_sitter::Parser` set to `tree_sitter_bash::LANGUAGE` (ABI 15, which
/// `Parser::set_language` accepts) parses `source`: with no timeout and no
/// cancellation flag, `Parser::parse` gives a tree, the grammar's for `source`.
#[verifier::external_body]
fn parse_bash(source: &str) -> (r: Option<Tree>)
    ensures
        r is Some,
        r matches Some(t) ==> tree_nodes(t) == grammar_nodes(source@, SourceLanguage::Bash),
{
    let mut parser = Parser::new();
    parser.set_language(&tree_sitter_bash::LANGUAGE.into()).ok()?;
    parser.parse(source, None)
}

/// A `tree_sitter::Parser` set to `tree_sitter_swift::LANGUAGE` (ABI 15, which
/// `Parser::set_language` accepts) parses `source`: with no timeout and no
/// cancellation flag, `Parser::parse` gives a tree, the grammar's for `source`.
#[verifier::external_body]
fn parse_swift(source: &str) -> (r: Option<Tree>)
    ensures
        r is Some,
        r matches Some(t) ==> tree_nodes(t) == grammar_nodes(source@, SourceLanguage::Swift),
{
    let mut parser = Parser::new();
    parser.set_language(&tree_sitter_swift::LANGUAGE.into()).ok()?;
    parser.parse(source, None)
}

/// A `tree_sitter::Parser` set to `tree_sitter_lua::LANGUAGE` (ABI 15, which
/// `Parser::set_language` accepts) parses `source`: with no timeout and no
/// cancellation flag, `Parser::parse` gives a tree, the grammar's for `source`.
#[verifier::external_body]
fn parse_lua(source: &str) -> (r: Option<Tree>)
    ensures
        r is Some,
        r matches Some(t) ==> tree_nodes(t) == grammar_nodes(source@, SourceLanguage::Lua),
{
    let mut parser = Parser::new();
    parser.set_language(&tree_sitter_lua::LANGUAGE.into()).ok()?;
    parser.parse(source, None)
}

/// A `tree_sitter::Parser` set to `tree_sitter_zig::LANGUAGE` (ABI 14, which
/// `Parser::set_language` accepts) parses `source`: with no timeout and no
/// cancellation flag, `Parser::parse` gives a tree, the grammar's for `source`.
#[verifier::external_body]
fn parse_zig(source: &str) -> (r: Option<Tree>)
    ensures
        r is Some,
        r matches Some(t) ==> tree_nodes(t) == grammar_nodes(source@, SourceLanguage::Zig),
{
    let mut parser = Parser::new();
    parser.set_language(&tree_sitter_zig::LANGUAGE.into()).ok()?;
    parser.parse(source, None)
}

/// A `tree_sitter::Parser` set to `tree_sitter_elixir::LANGUAGE` (ABI 14, which
/// `Parser::set_language` accepts) parses `source`: with no timeout and no
/// cancellation flag, `Parser::parse` gives a tree, the grammar's for `source`.
#[verifier::external_body]
fn parse_elixir(source: &str) -> (r: Option<Tree>)
    ensures
        r is Some,
        r matches Some(t) ==> tree_nodes(t) == grammar_nodes(source@, SourceLanguage::Elixir),
{
    let mut parser = Parser::new();
    parser.set_language(&tree_sitter_elixir::LANGUAGE.into()).ok()?;
    parser.parse(source, None)
}

/// A `tree_sitter::Parser` set to `tree_sitter_clojure::LANGUAGE` (ABI 14, which
/// `Parser::set_language` accepts) parses `source`: with no timeout and no
/// cancellation flag, `Parser::parse` gives a tree, the grammar's for `source`.
#[verifier::external_body]
fn parse_clojure(source: &str) -> (r: Option<Tree>)
    ensures
        r is Some,
        r matches Some(t) ==> tree_nodes(t) == grammar_nodes(source@, SourceLanguage::Clojure),
{
    let mut parser = Parser::new();
    parser.set_language(&tree_sitter_clojure::LANGUAGE.into()).ok()?;
    parser.parse(source, None)
}

/// A `tree_sitter::Parser` set to `tree_sitter_erlang::LANGUAGE` (ABI 15, which
/// `Parser::set_language` accepts) parses `source`: with no timeout and no
/// cancellation flag, `Parser::parse` gives a tree, the grammar's for `source`.
#[verifier::external_body]
fn parse_erlang(source: &str) -> (r: Option<Tree>)
    ensures
        r is Some,
        r matches Some(t) ==> tree_nodes(t) == grammar_nodes(source@, SourceLanguage::Erlang),
{
    let mut parser = Parser::new();
    parser.set_language(&tree_sitter_erlang::LANGUAGE.into()).ok()?;
    parser.parse(source, None)
}

/// A `tree_sitter::Parser` set to `tree_sitter_gleam::LANGUAGE` (ABI 13, which
/// `Parser::set_language` accepts) parses `source`: with no timeout and no
/// cancellation flag, `Parser::parse` gives a tree, the grammar's for `source`.
#[verifier::external_body]
fn parse_gleam(source: &str) -> (r: Option<Tree>)
    ensures
        r is Some,
        r matches Some(t) ==> tree_nodes(t) == grammar_nodes(source@, SourceLanguage::Gleam),
{
    let mut parser = Parser::new();
    parser.set_language(&tree_sitter_gleam::LANGUAGE.into()).ok()?;
    parser.parse(source, None)
}

/// A `tree_sitter::Parser` set to `tree_sitter_dart::LANGUAGE` (ABI 15, which
/// `Parser::set_language` accepts) parses `source`: with no timeout and no
/// cancellation flag, `Parser::parse` gives a tree, the grammar's for `source`.
#[verifier::external_body]
fn parse_dart(source: &str) -> (r: Option<Tree>)
    ensures
        r is Some,
        r matches Some(t) ==> tree_nodes(t) == grammar_nodes(source@, SourceLanguage::Dart),
{
    let mut parser = Parser::new();
    parser.set_language(&tree_sitter_dart::LANGUAGE.into()).ok()?;
    parser.parse(source, None)
}

/// A `tree_sitter::Parser` set to `tree_sitter_elm::LANGUAGE` (ABI 15, which
/// `Parser::set_language` accepts) parses `source`: with no timeout and no
/// cancellation flag, `Parser::parse` gives a tree, the grammar's for `source`.
#[verifier::external_body]
fn parse_elm(source: &str) -> (r: Option<Tree>)
    ensures
        r is Some,
        r matches Some(t) ==> tree_nodes(t) == grammar_nodes(source@, SourceLanguage::Elm),
{
    let mut parser = Parser::new();
    parser.set_language(&tree_sitter_elm::LANGUAGE.into()).ok()?;
    parser.parse(source, None)
}

/// A `tree_sitter::Parser` set to `tree_sitter_julia::LANGUAGE` (ABI 14, which
/// `Parser::set_language` accepts) parses `source`: with no timeout and no
/// cancellation flag, `Parser::parse` gives a tree, the grammar's for `source`.
#[verifier::external_body]
fn parse_julia(source: &str) -> (r: Option<Tree>)
    ensures
        r is Some,
        r matches Some(t) ==> tree_nodes(t) == grammar_nodes(source@, SourceLanguage::Julia),
{
    let mut parser = Parser::new();
    parser.set_language(&tree_sitter_julia::LANGUAGE.into()).ok()?;
    parser.parse(source, None)
}

/// A `tree_sitter::Parser` set to `tree_sitter_json::LANGUAGE` (ABI 14, which
/// `Parser::set_language` accepts) parses `source`: with no timeout and no
/// cancellation flag, `Parser::parse` gives a tree, the grammar's for `source`.
#[verifier::external_body]
fn parse_json(source: &str) -> (r: Option<Tree>)
    ensures
        r is Some,
        r matches Some(t) ==> tree_nodes(t) == grammar_nodes(source@, SourceLanguage::Json),
{
    let mut parser = Parser::new();
    parser.set_language(&tree_sitter_json::LANGUAGE.into()).ok()?;
    parser.parse(source, None)
}

pub open spec fn has_grammar(l: SourceLanguage) -> bool {
    match l {
        SourceLanguage::Tsx => true,
        SourceLanguage::TypeScript => true,
        SourceLanguage::JavaScript => true,
        SourceLanguage::Rust => true,
        SourceLanguage::Go => true,
        SourceLanguage::Python => true,
        SourceLanguage::Cpp => true,
        SourceLanguage::C => true,
        SourceLanguage::Java => true,
        SourceLanguage::Ruby => true,
        SourceLanguage::CSharp => true,
        SourceLanguage::Php => true,
        SourceLanguage::Scala => true,
        SourceLanguage::Haskell => true,
        SourceLanguage::Bash => true,
        SourceLanguage::Swift => true,
        SourceLanguage::Lua => true,
        SourceLanguage::Zig => true,
        SourceLanguage::Elixir => true,
        SourceLanguage::Clojure => true,
        SourceLanguage::Erlang => true,
        SourceLanguage::Gleam => true,
        SourceLanguage::Dart => true,
        SourceLanguage::Elm => true,
        SourceLanguage::Julia => true,
        SourceLanguage::Json => true,
        _ => false,
    }
}

impl SourceLanguage {
    /// The grammar of the language, when one is linked into this build.
    pub fn tree_sitter_language(&self) -> (r: Option<Language>)
        ensures
            r is Some <==> has_grammar(*self),
    {
        match *self {
            SourceLanguage::Tsx => Some(grammar_tsx()),
            SourceLanguage::TypeScript => Some(grammar_type_script()),
            SourceLanguage::JavaScript => Some(grammar_java_script()),
            SourceLanguage::Rust => Some(grammar_rust()),
            SourceLanguage::Go => Some(grammar_go()),
            SourceLanguage::Python => Some(grammar_python()),
            SourceLanguage::Cpp => Some(grammar_cpp()),
            SourceLanguage::C => Some(grammar_c()),
            SourceLanguage::Java => Some(grammar_java()),
            SourceLanguage::Ruby => Some(grammar_ruby()),
            SourceLanguage::CSharp => Some(grammar_c_sharp()),
            SourceLanguage::Php => Some(grammar_php()),
            SourceLanguage::Scala => Some(grammar_scala()),
            SourceLanguage::Haskell => Some(grammar_haskell()),
            SourceLanguage::Bash => Some(grammar_bash()),
            SourceLanguage::Swift => Some(grammar_swift()),
            SourceLanguage::Lua => Some(grammar_lua()),
            SourceLanguage::Zig => Some(grammar_zig()),
            SourceLanguage::Elixir => Some(grammar_elixir()),
            SourceLanguage::Clojure => Some(grammar_clojure()),
            SourceLanguage::Erlang => Some(grammar_erlang()),
            SourceLanguage::Gleam => Some(grammar_gleam()),
            SourceLanguage::Dart => Some(grammar_dart()),
            SourceLanguage::Elm => Some(grammar_elm()),
            SourceLanguage::Julia => Some(grammar_julia()),
            SourceLanguage::Json => Some(grammar_json()),
            _ => None,
        }
    }
}

/// The children of a node of `f` that has `k` children, the first being
/// node `c`: each next child follows the descendants of the one before. A
/// child number that runs past the nodes ends the list.
pub open spec fn kids_from(f: Seq<NodeFacts>, k: nat, c: int) -> Seq<int>
    decreases k,
{
    if k == 0 || c < 0 || c >= f.len() {
        seq![]
    } else {
        seq![c] + kids_from(f, (k - 1) as nat, c + f[c].4)
    }
}

/// The children of node `i` of `f`.
pub open spec fn kids(f: Seq<NodeFacts>, i: int) -> Seq<int> {
    kids_from(f, f[i].3 as nat, i + 1)
}

/// The parent of node `j` among the first `m` nodes of `f`: the last of
/// them whose children hold `j`.
pub open spec fn parent_in(f: Seq<NodeFacts>, j: int, m: int) -> Option<int>
    decreases m,
{
    if m <= 0 {
        None
    } else if kids(f, m - 1).contains(j) {
        Some(m - 1)
    } else {
        parent_in(f, j, m - 1)
    }
}

/// A row or column as the plain tree holds it: kept below `usize::MAX`.
pub open spec fn clamped(x: usize) -> usize {
    if x < usize::MAX {
        x
    } else {
        (usize::MAX - 1) as usize
    }
}

/// Whether `t` is the plain copy of the nodes `f` of a tree of `source`:
/// node for node, the same kind, naming, field, byte range and position,
/// the children that the child and descendant counts give, and as parent
/// the node whose children hold it.
pub open spec fn copies(t: SyntaxTree, f: Seq<NodeFacts>, source: Seq<char>) -> bool {
    &&& t.source@ == source
    &&& t.nodes@.len() == f.len()
    &&& forall|i: int| #![trigger t.nodes@[i]]
        0 <= i < f.len() ==> {
            &&& t.kind(i) == f[i].0
            &&& t.is_named(i) == f[i].1
            &&& t.field(i) == f[i].2
            &&& t.children(i).map_values(|c: usize| c as int) == kids(f, i)
            &&& match t.parent(i) {
                Some(p) => parent_in(f, i, f.len() as int) == Some(p as int),
                None => parent_in(f, i, f.len() as int) is None,
            }
            &&& t.nodes@[i].start_byte == f[i].5
            &&& t.nodes@[i].end_byte == f[i].6
            &&& t.nodes@[i].row == clamped(f[i].7)
            &&& t.nodes@[i].column == clamped(f[i].8)
        }
}

proof fn lemma_kids_range(f: Seq<NodeFacts>, k: nat, c: int)
    requires
        c >= 0,
    ensures
        forall|q: int| 0 <= q < kids_from(f, k, c).len() ==> c <= #[trigger] kids_from(f, k, c)[q] < f.len(),
    decreases k,
{
    if !(k == 0 || c >= f.len()) {
        lemma_kids_range(f, (k - 1) as nat, c + f[c].4);
        assert forall|q: int| 0 <= q < kids_from(f, k, c).len() implies c <= #[trigger] kids_from(f, k, c)[q]
            < f.len() by {
            if q > 0 {
                assert(kids_from(f, k, c)[q] == kids_from(f, (k - 1) as nat, c + f[c].4)[q - 1]);
            }
        }
    }
}

proof fn lemma_parent_in(f: Seq<NodeFacts>, j: int, m: int)
    ensures
        parent_in(f, j, m) matches Some(p) ==> 0 <= p < m && kids(f, p).contains(j),
    decreases m,
{
    if m > 0 && !kids(f, m - 1).contains(j) {
        lemma_parent_in(f, j, m - 1);
    }
}

/// The facts of a node as the plain tree holds them.
fn plain_node(
    facts: (&'static str, bool, Option<&'static str>, usize, usize, usize, usize, usize, usize),
) -> (r: SyntaxNode)
    ensures
        r.kind@ == facts.0@,
        r.named == facts.1,
        r.field is Some <==> facts.2 is Some,
        facts.2 matches Some(f) ==> r.field matches Some(g) && g@ == f@,
        r.parent is None,
        r.children@.len() == 0,
        r.start_byte == facts.5,
        r.end_byte == facts.6,
        r.row == clamped(facts.7),
        r.column == clamped(facts.8),
{
    let field = match facts.2 {
        Some(name) => Some(name.to_owned()),
        None => None,
    };
    SyntaxNode {
        kind: facts.0.to_owned(),
        named: facts.1,
        field,
        parent: None,
        children: Vec::new(),
        start_byte: facts.5,
        end_byte: facts.6,
        row: if facts.7 < usize::MAX { facts.7 } else { usize::MAX - 1 },
        column: if facts.8 < usize::MAX { facts.8 } else { usize::MAX - 1 },
    }
}

/// Whether node `i` of `nodes` holds the facts of node `i` of `f`, children
/// and parent aside.
pub open spec fn holds_facts(nodes: Seq<SyntaxNode>, f: Seq<NodeFacts>, i: int) -> bool {
    &&& nodes[i].kind@ == f[i].0
    &&& nodes[i].named == f[i].1
    &&& (match nodes[i].field {
        Some(g) => f[i].2 == Some(g@),
        None => f[i].2 is None,
    })
    &&& nodes[i].start_byte == f[i].5
    &&& nodes[i].end_byte == f[i].6
    &&& nodes[i].row == clamped(f[i].7)
    &&& nodes[i].column == clamped(f[i].8)
}

/// Copy the nodes of `tree`, a tree of `source`, into a plain tree.
fn build_tree(source: &str, tree: &Tree) -> (t: SyntaxTree)
    ensures
        t.wf(),
        copies(t, tree_nodes(*tree), source@),
{
    let ghost f = tree_nodes(*tree);
    let n = ts_node_count(tree);
    let mut nodes: Vec<SyntaxNode> = Vec::new();
    let mut child_counts: Vec<usize> = Vec::new();
    let mut sizes: Vec<usize> = Vec::new();
    let mut i: usize = 0;
    while i < n
        invariant
            f == tree_nodes(*tree),
            n == f.len(),
            i <= n,
            nodes@.len() == i,
            child_counts@.len() == i,
            sizes@.len() == i,
            forall|q: int| 0 <= q < i ==> #[trigger] holds_facts(nodes@, f, q),
            forall|q: int| 0 <= q < i ==> (#[trigger] nodes@[q]).parent is None && nodes@[q].children@.len() == 0,
            forall|q: int| 0 <= q < i ==> #[trigger] child_counts@[q] == f[q].3,
            forall|q: int| 0 <= q < i ==> #[trigger] sizes@[q] == f[q].4,
        decreases n - i,
    {
        let facts = ts_node_facts(tree, i);
        let node = plain_node(facts);
        let ghost old_nodes = nodes@;
        nodes.push(node);
        child_counts.push(facts.3);
        sizes.push(facts.4);
        assert(holds_facts(nodes@, f, i as int));
        assert forall|q: int| 0 <= q <= i implies #[trigger] holds_facts(nodes@, f, q) by {
            if q < i {
                assert(holds_facts(old_nodes, f, q));
                assert(nodes@[q] == old_nodes[q]);
            }
        }
        i = i + 1;
    }
    let mut i: usize = 0;
    while i < n
        invariant
            n == f.len(),
            i <= n,
            nodes@.len() == n,
            child_counts@.len() == n,
            sizes@.len() == n,
            forall|q: int| 0 <= q < n ==> #[trigger] holds_facts(nodes@, f, q),
            forall|q: int| 0 <= q < n ==> #[trigger] child_counts@[q] == f[q].3,
            forall|q: int| 0 <= q < n ==> #[trigger] sizes@[q] == f[q].4,
            forall|q: int| #![trigger nodes@[q]]
                0 <= q < i ==> nodes@[q].children@.map_values(|c: usize| c as int) == kids(f, q),
            forall|q: int| #![trigger nodes@[q]]
                0 <= q < n ==> match nodes@[q].parent {
                    Some(p) => parent_in(f, q, i as int) == Some(p as int),
                    None => parent_in(f, q, i as int) is None,
                },
        decreases n - i,
    {
        let mut list: Vec<usize> = Vec::new();
        let mut k: usize = child_counts[i];
        let mut c: usize = i + 1;
        proof {
            lemma_kids_range(f, f[i as int].3 as nat, i + 1);
        }
        while k > 0 && c < n
            invariant
                n == f.len(),
                i < n,
                i < c,
                nodes@.len() == n,
                sizes@.len() == n,
                forall|q: int| 0 <= q < n ==> #[trigger] holds_facts(nodes@, f, q),
                forall|q: int| 0 <= q < n ==> #[trigger] sizes@[q] == f[q].4,
                forall|q: int| #![trigger nodes@[q]]
                    0 <= q < i ==> nodes@[q].children@.map_values(|c: usize| c as int) == kids(f, q),
                list@.map_values(|c: usize| c as int) + kids_from(f, k as nat, c as int) == kids(f, i as int),
                forall|q: int| 0 <= q < list@.len() ==> i < #[trigger] list@[q] < n,
                forall|q: int| #![trigger nodes@[q]]
                    0 <= q < n ==> match nodes@[q].parent {
                        Some(p) => if list@.contains(q as usize) {
                            p == i
                        } else {
                            parent_in(f, q, i as int) == Some(p as int)
                        },
                        None => !list@.contains(q as usize) && parent_in(f, q, i as int) is None,
                    },
            decreases k,
        {
            let ghost before = list@;
            list.push(c);
            assert(list@.map_values(|c: usize| c as int) =~= before.map_values(|c: usize| c as int) + seq![c as int]);
            let ghost old_nodes = nodes@;
            nodes[c].parent = Some(i);
            assert forall|q: int| 0 <= q < n implies #[trigger] holds_facts(nodes@, f, q) by {
                assert(holds_facts(old_nodes, f, q));
            }
            let size = sizes[c];
            let ghost old_c = c;
            c = if size >= n - c { n } else { c + size };
            k = k - 1;
            proof {
                assert(kids_from(f, (k + 1) as nat, old_c as int) == seq![old_c as int] + kids_from(f, k as nat, old_c + f[old_c as int].4));
                if c == n {
                    assert(kids_from(f, k as nat, old_c + f[old_c as int].4) =~= Seq::<int>::empty());
                    assert(kids_from(f, k as nat, c as int) =~= Seq::<int>::empty());
                }
                assert forall|q: int| #![trigger nodes@[q]] 0 <= q < n implies match nodes@[q].parent {
                    Some(p) => if list@.contains(q as usize) {
                        p == i
                    } else {
                        parent_in(f, q, i as int) == Some(p as int)
                    },
                    None => !list@.contains(q as usize) && parent_in(f, q, i as int) is None,
                } by {
                    if q == old_c {
                        assert(list@[before.len() as int] == q as usize);
                    } else if before.contains(q as usize) {
                        let w = choose|w: int| 0 <= w < before.len() && #[trigger] before[w] == q as usize;
                        assert(list@[w] == q as usize);
                    } else if list@.contains(q as usize) {
                        let w = choose|w: int| 0 <= w < list@.len() && #[trigger] list@[w] == q as usize;
                        if w < before.len() {
                            assert(before[w] == q as usize);
                        }
                    }
                }
            }
        }
        proof {
            if !(k > 0) {
                assert(kids_from(f, k as nat, c as int) =~= Seq::<int>::empty());
            }
            assert(list@.map_values(|c: usize| c as int) =~= kids(f, i as int));
            assert forall|q: int| #![trigger nodes@[q]] 0 <= q < n implies match nodes@[q].parent {
                Some(p) => parent_in(f, q, i + 1) == Some(p as int),
                None => parent_in(f, q, i + 1) is None,
            } by {
                let m = list@.map_values(|c: usize| c as int);
                if list@.contains(q as usize) {
                    let w = choose|w: int| 0 <= w < list@.len() && #[trigger] list@[w] == q as usize;
                    assert(m[w] == q);
                    assert(kids(f, i as int).contains(q));
                } else if kids(f, i as int).contains(q) {
                    let w = choose|w: int| 0 <= w < m.len() && #[trigger] m[w] == q;
                    assert(list@[w] == q as usize);
                }
                assert(parent_in(f, q, i + 1) == if kids(f, i as int).contains(q) {
                    Some(i as int)
                } else {
                    parent_in(f, q, i as int)
                });
            }
        }
        let ghost old_nodes = nodes@;
        nodes[i].children = list;
        assert forall|q: int| 0 <= q < n implies #[trigger] holds_facts(nodes@, f, q) by {
            assert(holds_facts(old_nodes, f, q));
        }
        i = i + 1;
    }
    let t = SyntaxTree { source: source.to_owned(), nodes };
    proof {
        assert forall|j: int| #![trigger t.nodes@[j].parent]
            0 <= j < t.nodes@.len() implies match t.nodes@[j].parent {
                Some(p) => p < j,
                None => true,
            } by {
            lemma_parent_in(f, j, n as int);
            if let Some(p) = t.nodes@[j].parent {
                let p = p as int;
                lemma_kids_range(f, f[p].3 as nat, p + 1);
                let w = choose|w: int| 0 <= w < kids(f, p).len() && kids(f, p)[w] == j;
                assert(kids(f, p)[w] == j);
            }
        }
        assert forall|j: int, k: int| #![trigger t.nodes@[j].children@[k]]
            0 <= j < t.nodes@.len() && 0 <= k < t.nodes@[j].children@.len() implies j
                < t.nodes@[j].children@[k] < t.nodes@.len() by {
            lemma_kids_range(f, f[j].3 as nat, j + 1);
            assert(t.nodes@[j].children@.map_values(|c: usize| c as int)[k] == kids(f, j)[k]);
        }
        assert forall|j: int| #![trigger t.nodes@[j]] 0 <= j < f.len() implies {
            &&& t.kind(j) == f[j].0
            &&& t.is_named(j) == f[j].1
            &&& t.field(j) == f[j].2
            &&& t.children(j).map_values(|c: usize| c as int) == kids(f, j)
            &&& match t.parent(j) {
                Some(p) => parent_in(f, j, f.len() as int) == Some(p as int),
                None => parent_in(f, j, f.len() as int) is None,
            }
            &&& t.nodes@[j].start_byte == f[j].5
            &&& t.nodes@[j].end_byte == f[j].6
            &&& t.nodes@[j].row == clamped(f[j].7)
            &&& t.nodes@[j].column == clamped(f[j].8)
        } by {
            assert(holds_facts(t.nodes@, f, j));
            assert(t.nodes@[j] == nodes@[j]);
        }
        assert forall|j: int| #![trigger t.nodes@[j].row] 0 <= j < t.nodes@.len() implies t.nodes@[j].row < usize::MAX by {
            assert(holds_facts(t.nodes@, f, j));
        }
        assert forall|j: int| #![trigger t.nodes@[j].column] 0 <= j < t.nodes@.len() implies t.nodes@[j].column < usize::MAX by {
            assert(holds_facts(t.nodes@, f, j));
        }
    }
    t
}

/// Parse `source` with the grammar of `language`: `None` when no grammar
/// for the language is linked into this build, otherwise the plain copy of
/// the tree the grammar builds for `source`.
pub fn parse_source(source: &str, language: SourceLanguage) -> (r: Option<SyntaxTree>)
    ensures
        !has_grammar(language) ==> r is None,
        has_grammar(language) ==> r is Some,
        r matches Some(t) ==> t.wf() && copies(t, grammar_nodes(source@, language), source@),
{
    let tree = match language {
        SourceLanguage::Tsx => parse_tsx(source),
        SourceLanguage::TypeScript => parse_type_script(source),
        SourceLanguage::JavaScript => parse_java_script(source),
        SourceLanguage::Rust => parse_rust(source),
        SourceLanguage::Go => parse_go(source),
        SourceLanguage::Python => parse_python(source),
        SourceLanguage::Cpp => parse_cpp(source),
        SourceLanguage::C => parse_c(source),
        SourceLanguage::Java => parse_java(source),
        SourceLanguage::Ruby => parse_ruby(source),
        SourceLanguage::CSharp => parse_c_sharp(source),
        SourceLanguage::Php => parse_php(source),
        SourceLanguage::Scala => parse_scala(source),
        SourceLanguage::Haskell => parse_haskell(source),
        SourceLanguage::Bash => parse_bash(source),
        SourceLanguage::Swift => parse_swift(source),
        SourceLanguage::Lua => parse_lua(source),
        SourceLanguage::Zig => parse_zig(source),
        SourceLanguage::Elixir => parse_elixir(source),
        SourceLanguage::Clojure => parse_clojure(source),
        SourceLanguage::Erlang => parse_erlang(source),
        SourceLanguage::Gleam => parse_gleam(source),
        SourceLanguage::Dart => parse_dart(source),
        SourceLanguage::Elm => parse_elm(source),
        SourceLanguage::Julia => parse_julia(source),
        SourceLanguage::Json => parse_json(source),
        _ => None,
    };
    match tree {
        Some(tr) => Some(build_tree(source, &tr)),
        None => None,
    }
}

} // verus!
