//! The languages the analyzer knows, their names and file extensions.
use vstd::prelude::*;
use crate::text::{after_last, chars_after_last, chars_ends_with, chars_eq, chars_of, ends_with, lowercase_of, to_lowercase};


verus! {

/// A source language with a grammar.
#[derive(Debug, Clone, Copy, PartialEq, Eq, Structural)]
pub enum SourceLanguage {
    TypeScript,
    Tsx,
    JavaScript,
    Rust,
    Go,
    Python,
    C,
    Cpp,
    Java,
    Ruby,
    CSharp,
    Php,
    Scala,
    Haskell,
    Bash,
    Html,
    Css,
    Json,
    OCaml,
    Swift,
    Lua,
    Zig,
    Elixir,
    Yaml,
    Almide,
    Clojure,
    Erlang,
    Gleam,
    Kotlin,
    Crystal,
    Dart,
    Elm,
    Groovy,
    Julia,
    Lean,
}

/// Every language, in the order in which extensions are looked up.
pub open spec fn language_table() -> Seq<SourceLanguage> {
    seq![
        SourceLanguage::Tsx,
        SourceLanguage::TypeScript,
        SourceLanguage::JavaScript,
        SourceLanguage::Rust,
        SourceLanguage::Go,
        SourceLanguage::Python,
        SourceLanguage::Cpp,
        SourceLanguage::C,
        SourceLanguage::Java,
        SourceLanguage::Ruby,
        SourceLanguage::CSharp,
        SourceLanguage::Php,
        SourceLanguage::Scala,
        SourceLanguage::Haskell,
        SourceLanguage::Bash,
        SourceLanguage::Html,
        SourceLanguage::Css,
        SourceLanguage::Json,
        SourceLanguage::OCaml,
        SourceLanguage::Swift,
        SourceLanguage::Lua,
        SourceLanguage::Zig,
        SourceLanguage::Elixir,
        SourceLanguage::Yaml,
        SourceLanguage::Almide,
        SourceLanguage::Clojure,
        SourceLanguage::Erlang,
        SourceLanguage::Gleam,
        SourceLanguage::Kotlin,
        SourceLanguage::Crystal,
        SourceLanguage::Dart,
        SourceLanguage::Elm,
        SourceLanguage::Groovy,
        SourceLanguage::Julia,
        SourceLanguage::Lean,
    ]
}

pub open spec fn spec_name(l: SourceLanguage) -> Seq<char> {
    match l {
        SourceLanguage::Tsx => "TSX"@,
        SourceLanguage::TypeScript => "TypeScript"@,
        SourceLanguage::JavaScript => "JavaScript"@,
        SourceLanguage::Rust => "Rust"@,
        SourceLanguage::Go => "Go"@,
        SourceLanguage::Python => "Python"@,
        SourceLanguage::Cpp => "C++"@,
        SourceLanguage::C => "C"@,
        SourceLanguage::Java => "Java"@,
        SourceLanguage::Ruby => "Ruby"@,
        SourceLanguage::CSharp => "C#"@,
        SourceLanguage::Php => "PHP"@,
        SourceLanguage::Scala => "Scala"@,
        SourceLanguage::Haskell => "Haskell"@,
        SourceLanguage::Bash => "Bash"@,
        SourceLanguage::Html => "HTML"@,
        SourceLanguage::Css => "CSS"@,
        SourceLanguage::Json => "JSON"@,
        SourceLanguage::OCaml => "OCaml"@,
        SourceLanguage::Swift => "Swift"@,
        SourceLanguage::Lua => "Lua"@,
        SourceLanguage::Zig => "Zig"@,
        SourceLanguage::Elixir => "Elixir"@,
        SourceLanguage::Yaml => "YAML"@,
        SourceLanguage::Almide => "Almide"@,
        SourceLanguage::Clojure => "Clojure"@,
        SourceLanguage::Erlang => "Erlang"@,
        SourceLanguage::Gleam => "Gleam"@,
        SourceLanguage::Kotlin => "Kotlin"@,
        SourceLanguage::Crystal => "Crystal"@,
        SourceLanguage::Dart => "Dart"@,
        SourceLanguage::Elm => "Elm"@,
        SourceLanguage::Groovy => "Groovy"@,
        SourceLanguage::Julia => "Julia"@,
        SourceLanguage::Lean => "Lean 4"@,
    }
}

/// Lowercase extensions, without the leading dot.
pub open spec fn spec_extensions(l: SourceLanguage) -> Seq<Seq<char>> {
    match l {
        SourceLanguage::Tsx => seq!["tsx"@],
        SourceLanguage::TypeScript => seq!["ts"@],
        SourceLanguage::JavaScript => seq!["js"@, "jsx"@, "mjs"@, "cjs"@],
        SourceLanguage::Rust => seq!["rs"@],
        SourceLanguage::Go => seq!["go"@],
        SourceLanguage::Python => seq!["py"@, "pyi"@],
        SourceLanguage::Cpp => seq!["cpp"@, "cc"@, "cxx"@, "hpp"@, "hxx"@],
        SourceLanguage::C => seq!["c"@, "h"@],
        SourceLanguage::Java => seq!["java"@],
        SourceLanguage::Ruby => seq!["rb"@],
        SourceLanguage::CSharp => seq!["cs"@],
        SourceLanguage::Php => seq!["php"@],
        SourceLanguage::Scala => seq!["scala"@, "sc"@],
        SourceLanguage::Haskell => seq!["hs"@],
        SourceLanguage::Bash => seq!["sh"@, "bash"@, "zsh"@],
        SourceLanguage::Html => seq!["html"@, "htm"@],
        SourceLanguage::Css => seq!["css"@],
        SourceLanguage::Json => seq!["json"@],
        SourceLanguage::OCaml => seq!["ml"@, "mli"@],
        SourceLanguage::Swift => seq!["swift"@],
        SourceLanguage::Lua => seq!["lua"@],
        SourceLanguage::Zig => seq!["zig"@],
        SourceLanguage::Elixir => seq!["ex"@, "exs"@],
        SourceLanguage::Yaml => seq!["yml"@, "yaml"@],
        SourceLanguage::Almide => seq!["almd"@],
        SourceLanguage::Clojure => seq!["clj"@, "cljs"@, "cljc"@, "edn"@],
        SourceLanguage::Erlang => seq!["erl"@, "hrl"@],
        SourceLanguage::Gleam => seq!["gleam"@],
        SourceLanguage::Kotlin => seq!["kt"@, "kts"@],
        SourceLanguage::Crystal => seq!["cr"@],
        SourceLanguage::Dart => seq!["dart"@],
        SourceLanguage::Elm => seq!["elm"@],
        SourceLanguage::Groovy => seq!["groovy"@, "gvy"@, "gy"@, "gsh"@],
        SourceLanguage::Julia => seq!["jl"@],
        SourceLanguage::Lean => seq!["lean"@],
    }
}

impl SourceLanguage {
    pub fn is_js_ts(&self) -> (r: bool)
        ensures
            r == (*self == SourceLanguage::TypeScript || *self == SourceLanguage::Tsx || *self
                == SourceLanguage::JavaScript),
    {
        matches!(self, Self::TypeScript | Self::Tsx | Self::JavaScript)
    }

    pub fn is_rust(&self) -> (r: bool)
        ensures
            r == (*self == SourceLanguage::Rust),
    {
        matches!(self, Self::Rust)
    }

    pub fn is_c_family(&self) -> (r: bool)
        ensures
            r == (*self == SourceLanguage::C || *self == SourceLanguage::Cpp || *self
                == SourceLanguage::CSharp || *self == SourceLanguage::Java),
    {
        matches!(self, Self::C | Self::Cpp | Self::CSharp | Self::Java)
    }

    pub fn is_markup_or_data(&self) -> (r: bool)
        ensures
            r == (*self == SourceLanguage::Html || *self == SourceLanguage::Css || *self
                == SourceLanguage::Json || *self == SourceLanguage::Yaml),
    {
        matches!(self, Self::Html | Self::Css | Self::Json | Self::Yaml)
    }

    pub fn is_beam(&self) -> (r: bool)
        ensures
            r == (*self == SourceLanguage::Elixir || *self == SourceLanguage::Erlang || *self
                == SourceLanguage::Gleam),
    {
        matches!(self, Self::Elixir | Self::Erlang | Self::Gleam)
    }

    pub fn is_lisp(&self) -> (r: bool)
        ensures
            r == (*self == SourceLanguage::Clojure),
    {
        matches!(self, Self::Clojure)
    }

    /// Human-readable name of the language.
    pub fn name(&self) -> (r: &'static str)
        ensures
            r@ == spec_name(*self),
    {
        match self {
            Self::Tsx => "TSX",
            Self::TypeScript => "TypeScript",
            Self::JavaScript => "JavaScript",
            Self::Rust => "Rust",
            Self::Go => "Go",
            Self::Python => "Python",
            Self::Cpp => "C++",
            Self::C => "C",
            Self::Java => "Java",
            Self::Ruby => "Ruby",
            Self::CSharp => "C#",
            Self::Php => "PHP",
            Self::Scala => "Scala",
            Self::Haskell => "Haskell",
            Self::Bash => "Bash",
            Self::Html => "HTML",
            Self::Css => "CSS",
            Self::Json => "JSON",
            Self::OCaml => "OCaml",
            Self::Swift => "Swift",
            Self::Lua => "Lua",
            Self::Zig => "Zig",
            Self::Elixir => "Elixir",
            Self::Yaml => "YAML",
            Self::Almide => "Almide",
            Self::Clojure => "Clojure",
            Self::Erlang => "Erlang",
            Self::Gleam => "Gleam",
            Self::Kotlin => "Kotlin",
            Self::Crystal => "Crystal",
            Self::Dart => "Dart",
            Self::Elm => "Elm",
            Self::Groovy => "Groovy",
            Self::Julia => "Julia",
            Self::Lean => "Lean 4",
        }
    }

    /// Lowercase file extensions of the language, without the leading dot.
    pub fn extensions(&self) -> (r: Vec<&'static str>)
        ensures
            r@.len() == spec_extensions(*self).len(),
            forall|k: int| 0 <= k < r@.len() ==> #[trigger] r@[k]@ == spec_extensions(*self)[k],
    {
        let v: Vec<&'static str> = match self {
            Self::Tsx => vec!["tsx"],
            Self::TypeScript => vec!["ts"],
            Self::JavaScript => vec!["js", "jsx", "mjs", "cjs"],
            Self::Rust => vec!["rs"],
            Self::Go => vec!["go"],
            Self::Python => vec!["py", "pyi"],
            Self::Cpp => vec!["cpp", "cc", "cxx", "hpp", "hxx"],
            Self::C => vec!["c", "h"],
            Self::Java => vec!["java"],
            Self::Ruby => vec!["rb"],
            Self::CSharp => vec!["cs"],
            Self::Php => vec!["php"],
            Self::Scala => vec!["scala", "sc"],
            Self::Haskell => vec!["hs"],
            Self::Bash => vec!["sh", "bash", "zsh"],
            Self::Html => vec!["html", "htm"],
            Self::Css => vec!["css"],
            Self::Json => vec!["json"],
            Self::OCaml => vec!["ml", "mli"],
            Self::Swift => vec!["swift"],
            Self::Lua => vec!["lua"],
            Self::Zig => vec!["zig"],
            Self::Elixir => vec!["ex", "exs"],
            Self::Yaml => vec!["yml", "yaml"],
            Self::Almide => vec!["almd"],
            Self::Clojure => vec!["clj", "cljs", "cljc", "edn"],
            Self::Erlang => vec!["erl", "hrl"],
            Self::Gleam => vec!["gleam"],
            Self::Kotlin => vec!["kt", "kts"],
            Self::Crystal => vec!["cr"],
            Self::Dart => vec!["dart"],
            Self::Elm => vec!["elm"],
            Self::Groovy => vec!["groovy", "gvy", "gy", "gsh"],
            Self::Julia => vec!["jl"],
            Self::Lean => vec!["lean"],
        };
        v
    }
}

/// Every language, in the order of the language table.
pub fn all_languages() -> (r: Vec<SourceLanguage>)
    ensures
        r@ == language_table(),
{
    let v = vec![
        SourceLanguage::Tsx,
        SourceLanguage::TypeScript,
        SourceLanguage::JavaScript,
        SourceLanguage::Rust,
        SourceLanguage::Go,
        SourceLanguage::Python,
        SourceLanguage::Cpp,
        SourceLanguage::C,
        SourceLanguage::Java,
        SourceLanguage::Ruby,
        SourceLanguage::CSharp,
        SourceLanguage::Php,
        SourceLanguage::Scala,
        SourceLanguage::Haskell,
        SourceLanguage::Bash,
        SourceLanguage::Html,
        SourceLanguage::Css,
        SourceLanguage::Json,
        SourceLanguage::OCaml,
        SourceLanguage::Swift,
        SourceLanguage::Lua,
        SourceLanguage::Zig,
        SourceLanguage::Elixir,
        SourceLanguage::Yaml,
        SourceLanguage::Almide,
        SourceLanguage::Clojure,
        SourceLanguage::Erlang,
        SourceLanguage::Gleam,
        SourceLanguage::Kotlin,
        SourceLanguage::Crystal,
        SourceLanguage::Dart,
        SourceLanguage::Elm,
        SourceLanguage::Groovy,
        SourceLanguage::Julia,
        SourceLanguage::Lean,
    ];
    assert(v@ =~= language_table());
    v
}

/// The first language of `table` that claims extension `ext`.
pub open spec fn first_with_extension(table: Seq<SourceLanguage>, ext: Seq<char>) -> Option<SourceLanguage>
    decreases table.len(),
{
    if table.len() == 0 {
        None
    } else if spec_extensions(table[0]).contains(ext) {
        Some(table[0])
    } else {
        first_with_extension(table.drop_first(), ext)
    }
}

/// The language of a file path: by its lowercased extension (what follows the
/// last `.`), except that TypeScript declaration files have none.
pub open spec fn spec_get_language(path: Seq<char>) -> Option<SourceLanguage> {
    let p = lowercase_of(path);
    if ends_with(p, ".d.ts"@) || ends_with(p, ".d.tsx"@) {
        None
    } else {
        first_with_extension(language_table(), after_last(p, '.'))
    }
}

fn claims_extension(l: SourceLanguage, ext: &Vec<char>) -> (r: bool)
    ensures
        r == spec_extensions(l).contains(ext@),
{
    let exts = l.extensions();
    let mut k: usize = 0;
    while k < exts.len()
        invariant
            k <= exts@.len(),
            exts@.len() == spec_extensions(l).len(),
            forall|q: int| 0 <= q < exts@.len() ==> #[trigger] exts@[q]@ == spec_extensions(l)[q],
            forall|q: int| 0 <= q < k ==> spec_extensions(l)[q] != ext@,
        decreases exts@.len() - k,
    {
        let e = chars_of(exts[k]);
        if chars_eq(&e, ext) {
            assert(spec_extensions(l)[k as int] == ext@);
            return true;
        }
        k = k + 1;
    }
    assert(!spec_extensions(l).contains(ext@));
    false
}

/// The language of the file at `file_path`, if any.
pub fn get_language(file_path: &str) -> (r: Option<SourceLanguage>)
    ensures
        r == spec_get_language(file_path@),
{
    let lower = to_lowercase(file_path);
    let p = chars_of(lower.as_str());
    if chars_ends_with(&p, &chars_of(".d.ts")) || chars_ends_with(&p, &chars_of(".d.tsx")) {
        return None;
    }
    let ext = chars_after_last(&p, '.');
    let table = all_languages();
    assert(p@ == lowercase_of(file_path@));
    assert(spec_get_language(file_path@) == first_with_extension(language_table(), ext@));
    let mut k: usize = 0;
    assert(table@.skip(0) =~= table@);
    while k < table.len()
        invariant
            k <= table@.len(),
            table@ == language_table(),
            ext@ == after_last(p@, '.'),
            spec_get_language(file_path@) == first_with_extension(table@, ext@),
            first_with_extension(table@, ext@) == first_with_extension(table@.skip(k as int), ext@),
        decreases table@.len() - k,
    {
        assert(table@.skip(k as int).drop_first() =~= table@.skip(k + 1));
        assert(table@.skip(k as int)[0] == table@[k as int]);
        if claims_extension(table[k], &ext) {
            assert(first_with_extension(table@.skip(k as int), ext@) == Some(table@[k as int]));
            return Some(table[k]);
        }
        k = k + 1;
    }
    assert(table@.skip(k as int) =~= Seq::<SourceLanguage>::empty());
    None
}




/// The place of language `l` in the language table.
pub open spec fn table_position(l: SourceLanguage) -> int {
    match l {
        SourceLanguage::Tsx => 0,
        SourceLanguage::TypeScript => 1,
        SourceLanguage::JavaScript => 2,
        SourceLanguage::Rust => 3,
        SourceLanguage::Go => 4,
        SourceLanguage::Python => 5,
        SourceLanguage::Cpp => 6,
        SourceLanguage::C => 7,
        SourceLanguage::Java => 8,
        SourceLanguage::Ruby => 9,
        SourceLanguage::CSharp => 10,
        SourceLanguage::Php => 11,
        SourceLanguage::Scala => 12,
        SourceLanguage::Haskell => 13,
        SourceLanguage::Bash => 14,
        SourceLanguage::Html => 15,
        SourceLanguage::Css => 16,
        SourceLanguage::Json => 17,
        SourceLanguage::OCaml => 18,
        SourceLanguage::Swift => 19,
        SourceLanguage::Lua => 20,
        SourceLanguage::Zig => 21,
        SourceLanguage::Elixir => 22,
        SourceLanguage::Yaml => 23,
        SourceLanguage::Almide => 24,
        SourceLanguage::Clojure => 25,
        SourceLanguage::Erlang => 26,
        SourceLanguage::Gleam => 27,
        SourceLanguage::Kotlin => 28,
        SourceLanguage::Crystal => 29,
        SourceLanguage::Dart => 30,
        SourceLanguage::Elm => 31,
        SourceLanguage::Groovy => 32,
        SourceLanguage::Julia => 33,
        SourceLanguage::Lean => 34,
    }
}

/// The language table lists every language, each once.
pub proof fn the_language_table_lists_every_language_once(l: SourceLanguage)
    ensures
        0 <= table_position(l) < language_table().len(),
        language_table()[table_position(l)] == l,
        language_table().no_duplicates(),
{
    let t = language_table();
    assert forall|i: int| 0 <= i < t.len() implies table_position(#[trigger] t[i]) == i by {
        if i == 0 {
            assert(t[0] == SourceLanguage::Tsx);
        } else if i == 1 {
            assert(t[1] == SourceLanguage::TypeScript);
        } else if i == 2 {
            assert(t[2] == SourceLanguage::JavaScript);
        } else if i == 3 {
            assert(t[3] == SourceLanguage::Rust);
        } else if i == 4 {
            assert(t[4] == SourceLanguage::Go);
        } else if i == 5 {
            assert(t[5] == SourceLanguage::Python);
        } else if i == 6 {
            assert(t[6] == SourceLanguage::Cpp);
        } else if i == 7 {
            assert(t[7] == SourceLanguage::C);
        } else if i == 8 {
            assert(t[8] == SourceLanguage::Java);
        } else if i == 9 {
            assert(t[9] == SourceLanguage::Ruby);
        } else if i == 10 {
            assert(t[10] == SourceLanguage::CSharp);
        } else if i == 11 {
            assert(t[11] == SourceLanguage::Php);
        } else if i == 12 {
            assert(t[12] == SourceLanguage::Scala);
        } else if i == 13 {
            assert(t[13] == SourceLanguage::Haskell);
        } else if i == 14 {
            assert(t[14] == SourceLanguage::Bash);
        } else if i == 15 {
            assert(t[15] == SourceLanguage::Html);
        } else if i == 16 {
            assert(t[16] == SourceLanguage::Css);
        } else if i == 17 {
            assert(t[17] == SourceLanguage::Json);
        } else if i == 18 {
            assert(t[18] == SourceLanguage::OCaml);
        } else if i == 19 {
            assert(t[19] == SourceLanguage::Swift);
        } else if i == 20 {
            assert(t[20] == SourceLanguage::Lua);
        } else if i == 21 {
            assert(t[21] == SourceLanguage::Zig);
        } else if i == 22 {
            assert(t[22] == SourceLanguage::Elixir);
        } else if i == 23 {
            assert(t[23] == SourceLanguage::Yaml);
        } else if i == 24 {
            assert(t[24] == SourceLanguage::Almide);
        } else if i == 25 {
            assert(t[25] == SourceLanguage::Clojure);
        } else if i == 26 {
            assert(t[26] == SourceLanguage::Erlang);
        } else if i == 27 {
            assert(t[27] == SourceLanguage::Gleam);
        } else if i == 28 {
            assert(t[28] == SourceLanguage::Kotlin);
        } else if i == 29 {
            assert(t[29] == SourceLanguage::Crystal);
        } else if i == 30 {
            assert(t[30] == SourceLanguage::Dart);
        } else if i == 31 {
            assert(t[31] == SourceLanguage::Elm);
        } else if i == 32 {
            assert(t[32] == SourceLanguage::Groovy);
        } else if i == 33 {
            assert(t[33] == SourceLanguage::Julia);
        } else if i == 34 {
            assert(t[34] == SourceLanguage::Lean);
        }
    }
    assert forall|i: int, j: int| 0 <= i < t.len() && 0 <= j < t.len() && i != j implies t[i] != t[j] by {
        assert(table_position(t[i]) == i);
        assert(table_position(t[j]) == j);
    }
}

proof fn lemma_first_with_extension(t: Seq<SourceLanguage>, l: SourceLanguage, e: Seq<char>)
    requires
        t.contains(l),
        spec_extensions(l).contains(e),
        forall|m: SourceLanguage| #[trigger] t.contains(m) && m != l ==> !spec_extensions(m).contains(e),
    ensures
        first_with_extension(t, e) == Some(l),
    decreases t.len(),
{
    if t[0] != l {
        assert(t.contains(t[0]));
        let k = choose|k: int| 0 <= k < t.len() && t[k] == l;
        assert(t.drop_first()[k - 1] == l);
        assert forall|m: SourceLanguage| #[trigger] t.drop_first().contains(m) && m != l implies !spec_extensions(
            m,
        ).contains(e) by {
            let q = choose|q: int| 0 <= q < t.drop_first().len() && t.drop_first()[q] == m;
            assert(t[q + 1] == m);
            assert(t.contains(m));
        }
        lemma_first_with_extension(t.drop_first(), l, e);
    }
}

/// Every extension that a language claims leads back to that language.
pub proof fn each_extension_leads_back_to_its_language(l: SourceLanguage, i: int)
    requires
        0 <= i < spec_extensions(l).len(),
    ensures
        first_with_extension(language_table(), spec_extensions(l)[i]) == Some(l),
{
    let e = spec_extensions(l)[i];
    the_language_table_lists_every_language_once(l);
    assert forall|m: SourceLanguage| #[trigger] language_table().contains(m) && m != l implies !spec_extensions(
        m,
    ).contains(e) by {
        if spec_extensions(m).contains(e) {
            let j = choose|j: int| 0 <= j < spec_extensions(m).len() && spec_extensions(m)[j] == e;
            languages_claim_distinct_extensions(l, m, i, j);
        }
    }
    lemma_first_with_extension(language_table(), l, e);
}

/// A path whose lowercased extension a language claims, and that is not a
/// TypeScript declaration file, is a file of that language.
pub proof fn a_path_with_a_claimed_extension_has_that_language(path: Seq<char>, l: SourceLanguage, i: int)
    requires
        0 <= i < spec_extensions(l).len(),
        after_last(lowercase_of(path), '.') == spec_extensions(l)[i],
        !ends_with(lowercase_of(path), ".d.ts"@),
        !ends_with(lowercase_of(path), ".d.tsx"@),
    ensures
        spec_get_language(path) == Some(l),
{
    each_extension_leads_back_to_its_language(l, i);
}

/// No two languages share a name.
pub proof fn languages_have_distinct_names(a: SourceLanguage, b: SourceLanguage)
    requires
        a != b,
    ensures
        spec_name(a) != spec_name(b),
{
    reveal_strlit("TSX");
    reveal_strlit("TypeScript");
    reveal_strlit("JavaScript");
    reveal_strlit("Rust");
    reveal_strlit("Go");
    reveal_strlit("Python");
    reveal_strlit("C++");
    reveal_strlit("C");
    reveal_strlit("Java");
    reveal_strlit("Ruby");
    reveal_strlit("C#");
    reveal_strlit("PHP");
    reveal_strlit("Scala");
    reveal_strlit("Haskell");
    reveal_strlit("Bash");
    reveal_strlit("HTML");
    reveal_strlit("CSS");
    reveal_strlit("JSON");
    reveal_strlit("OCaml");
    reveal_strlit("Swift");
    reveal_strlit("Lua");
    reveal_strlit("Zig");
    reveal_strlit("Elixir");
    reveal_strlit("YAML");
    reveal_strlit("Almide");
    reveal_strlit("Clojure");
    reveal_strlit("Erlang");
    reveal_strlit("Gleam");
    reveal_strlit("Kotlin");
    reveal_strlit("Crystal");
    reveal_strlit("Dart");
    reveal_strlit("Elm");
    reveal_strlit("Groovy");
    reveal_strlit("Julia");
    reveal_strlit("Lean 4");
    let (x, y) = (spec_name(a), spec_name(b));
    assert(x.len() != y.len() || x[0] != y[0] || x[x.len() - 1] != y[y.len() - 1]);
}


/// No extension is claimed by two languages.
#[verifier::rlimit(100)]
pub proof fn languages_claim_distinct_extensions(a: SourceLanguage, b: SourceLanguage, i: int, j: int)
    requires
        a != b,
        0 <= i < spec_extensions(a).len(),
        0 <= j < spec_extensions(b).len(),
    ensures
        spec_extensions(a)[i] != spec_extensions(b)[j],
{
    reveal_strlit("tsx");
    reveal_strlit("ts");
    reveal_strlit("js");
    reveal_strlit("jsx");
    reveal_strlit("mjs");
    reveal_strlit("cjs");
    reveal_strlit("rs");
    reveal_strlit("go");
    reveal_strlit("py");
    reveal_strlit("pyi");
    reveal_strlit("cpp");
    reveal_strlit("cc");
    reveal_strlit("cxx");
    reveal_strlit("hpp");
    reveal_strlit("hxx");
    reveal_strlit("c");
    reveal_strlit("h");
    reveal_strlit("java");
    reveal_strlit("rb");
    reveal_strlit("cs");
    reveal_strlit("php");
    reveal_strlit("scala");
    reveal_strlit("sc");
    reveal_strlit("hs");
    reveal_strlit("sh");
    reveal_strlit("bash");
    reveal_strlit("zsh");
    reveal_strlit("html");
    reveal_strlit("htm");
    reveal_strlit("css");
    reveal_strlit("json");
    reveal_strlit("ml");
    reveal_strlit("mli");
    reveal_strlit("swift");
    reveal_strlit("lua");
    reveal_strlit("zig");
    reveal_strlit("ex");
    reveal_strlit("exs");
    reveal_strlit("yml");
    reveal_strlit("yaml");
    reveal_strlit("almd");
    reveal_strlit("clj");
    reveal_strlit("cljs");
    reveal_strlit("cljc");
    reveal_strlit("edn");
    reveal_strlit("erl");
    reveal_strlit("hrl");
    reveal_strlit("gleam");
    reveal_strlit("kt");
    reveal_strlit("kts");
    reveal_strlit("cr");
    reveal_strlit("dart");
    reveal_strlit("elm");
    reveal_strlit("groovy");
    reveal_strlit("gvy");
    reveal_strlit("gy");
    reveal_strlit("gsh");
    reveal_strlit("jl");
    reveal_strlit("lean");
    let (x, y) = (spec_extensions(a)[i], spec_extensions(b)[j]);
    assert(x.len() != y.len() || x[0] != y[0] || x[1] != y[1] || x[x.len() - 1] != y[y.len() - 1]);
}

/// A language lists each of its extensions once.
#[verifier::rlimit(100)]
pub proof fn a_language_lists_each_extension_once(l: SourceLanguage, i: int, j: int)
    requires
        i != j,
        0 <= i < spec_extensions(l).len(),
        0 <= j < spec_extensions(l).len(),
    ensures
        spec_extensions(l)[i] != spec_extensions(l)[j],
{
    reveal_strlit("tsx");
    reveal_strlit("ts");
    reveal_strlit("js");
    reveal_strlit("jsx");
    reveal_strlit("mjs");
    reveal_strlit("cjs");
    reveal_strlit("rs");
    reveal_strlit("go");
    reveal_strlit("py");
    reveal_strlit("pyi");
    reveal_strlit("cpp");
    reveal_strlit("cc");
    reveal_strlit("cxx");
    reveal_strlit("hpp");
    reveal_strlit("hxx");
    reveal_strlit("c");
    reveal_strlit("h");
    reveal_strlit("java");
    reveal_strlit("rb");
    reveal_strlit("cs");
    reveal_strlit("php");
    reveal_strlit("scala");
    reveal_strlit("sc");
    reveal_strlit("hs");
    reveal_strlit("sh");
    reveal_strlit("bash");
    reveal_strlit("zsh");
    reveal_strlit("html");
    reveal_strlit("htm");
    reveal_strlit("css");
    reveal_strlit("json");
    reveal_strlit("ml");
    reveal_strlit("mli");
    reveal_strlit("swift");
    reveal_strlit("lua");
    reveal_strlit("zig");
    reveal_strlit("ex");
    reveal_strlit("exs");
    reveal_strlit("yml");
    reveal_strlit("yaml");
    reveal_strlit("almd");
    reveal_strlit("clj");
    reveal_strlit("cljs");
    reveal_strlit("cljc");
    reveal_strlit("edn");
    reveal_strlit("erl");
    reveal_strlit("hrl");
    reveal_strlit("gleam");
    reveal_strlit("kt");
    reveal_strlit("kts");
    reveal_strlit("cr");
    reveal_strlit("dart");
    reveal_strlit("elm");
    reveal_strlit("groovy");
    reveal_strlit("gvy");
    reveal_strlit("gy");
    reveal_strlit("gsh");
    reveal_strlit("jl");
    reveal_strlit("lean");
    let (x, y) = (spec_extensions(l)[i], spec_extensions(l)[j]);
    assert(x.len() != y.len() || x[0] != y[0] || x[1] != y[1] || x[x.len() - 1] != y[y.len() - 1]);
}

/// Each extension is a non-empty word without a dot.
#[verifier::rlimit(100)]
pub proof fn every_extension_is_a_word_without_a_dot(l: SourceLanguage, i: int)
    requires
        0 <= i < spec_extensions(l).len(),
    ensures
        spec_extensions(l)[i].len() > 0,
        !spec_extensions(l)[i].contains('.'),
{
    reveal_strlit("tsx");
    reveal_strlit("ts");
    reveal_strlit("js");
    reveal_strlit("jsx");
    reveal_strlit("mjs");
    reveal_strlit("cjs");
    reveal_strlit("rs");
    reveal_strlit("go");
    reveal_strlit("py");
    reveal_strlit("pyi");
    reveal_strlit("cpp");
    reveal_strlit("cc");
    reveal_strlit("cxx");
    reveal_strlit("hpp");
    reveal_strlit("hxx");
    reveal_strlit("c");
    reveal_strlit("h");
    reveal_strlit("java");
    reveal_strlit("rb");
    reveal_strlit("cs");
    reveal_strlit("php");
    reveal_strlit("scala");
    reveal_strlit("sc");
    reveal_strlit("hs");
    reveal_strlit("sh");
    reveal_strlit("bash");
    reveal_strlit("zsh");
    reveal_strlit("html");
    reveal_strlit("htm");
    reveal_strlit("css");
    reveal_strlit("json");
    reveal_strlit("ml");
    reveal_strlit("mli");
    reveal_strlit("swift");
    reveal_strlit("lua");
    reveal_strlit("zig");
    reveal_strlit("ex");
    reveal_strlit("exs");
    reveal_strlit("yml");
    reveal_strlit("yaml");
    reveal_strlit("almd");
    reveal_strlit("clj");
    reveal_strlit("cljs");
    reveal_strlit("cljc");
    reveal_strlit("edn");
    reveal_strlit("erl");
    reveal_strlit("hrl");
    reveal_strlit("gleam");
    reveal_strlit("kt");
    reveal_strlit("kts");
    reveal_strlit("cr");
    reveal_strlit("dart");
    reveal_strlit("elm");
    reveal_strlit("groovy");
    reveal_strlit("gvy");
    reveal_strlit("gy");
    reveal_strlit("gsh");
    reveal_strlit("jl");
    reveal_strlit("lean");
    let e = spec_extensions(l)[i];
    assert forall|k: int| 0 <= k < e.len() implies e[k] != '.' by {}
}

} // verus!
