//! The part of code highlighting that is plain logic: the mapping from a
//! declared language to the file extension under which the syntax database
//! is looked up, and the highlighter's error type.
//!
//! The highlighter itself wraps an outside theme and grammar database and
//! lives outside this crate; it resolves a block's syntax through
//! [`language_extension`].

use vstd::prelude::*;
use crate::code::CodeLanguage;

verus! {

/// A theme could not be found.
#[derive(Clone, Copy, Debug, PartialEq, Eq, Structural)]
pub struct ThemeNotFound;

/// The file extension under which each language's grammar is registered in
/// the syntax database.
pub open spec fn spec_language_extension(language: CodeLanguage) -> Seq<char> {
    match language {
        CodeLanguage::Ada => "adb"@,
        CodeLanguage::Asp => "asa"@,
        CodeLanguage::Awk => "awk"@,
        CodeLanguage::Bash => "bash"@,
        CodeLanguage::BatchFile => "bat"@,
        CodeLanguage::C => "c"@,
        CodeLanguage::CMake => "cmake"@,
        CodeLanguage::CSharp => "cs"@,
        CodeLanguage::Clojure => "clj"@,
        CodeLanguage::Cpp => "cpp"@,
        CodeLanguage::Crontab => "crontab"@,
        CodeLanguage::Css => "css"@,
        CodeLanguage::DLang => "d"@,
        CodeLanguage::Docker => "Dockerfile"@,
        CodeLanguage::Dotenv => "env"@,
        CodeLanguage::Elixir => "ex"@,
        CodeLanguage::Elm => "elm"@,
        CodeLanguage::Erlang => "erl"@,
        CodeLanguage::Go => "go"@,
        CodeLanguage::Haskell => "hs"@,
        CodeLanguage::Html => "html"@,
        CodeLanguage::Java => "java"@,
        CodeLanguage::JavaScript => "js"@,
        CodeLanguage::Json => "json"@,
        CodeLanguage::Kotlin => "kt"@,
        CodeLanguage::Latex => "tex"@,
        CodeLanguage::Lua => "lua"@,
        CodeLanguage::Makefile => "make"@,
        CodeLanguage::Markdown => "md"@,
        CodeLanguage::OCaml => "ml"@,
        CodeLanguage::Perl => "pl"@,
        CodeLanguage::Php => "php"@,
        CodeLanguage::Protobuf => "proto"@,
        CodeLanguage::Puppet => "pp"@,
        CodeLanguage::Python => "py"@,
        CodeLanguage::R => "r"@,
        CodeLanguage::Rust => "rs"@,
        CodeLanguage::Scala => "scala"@,
        CodeLanguage::Shell(_) => "sh"@,
        CodeLanguage::Sql => "sql"@,
        CodeLanguage::Swift => "swift"@,
        CodeLanguage::Svelte => "svelte"@,
        CodeLanguage::Terraform => "tf"@,
        CodeLanguage::TypeScript => "ts"@,
        // plain text, so unknown languages get the same look and feel
        CodeLanguage::Unknown => "txt"@,
        CodeLanguage::Vue => "vue"@,
        CodeLanguage::Xml => "xml"@,
        CodeLanguage::Yaml => "yaml"@,
        CodeLanguage::Zig => "zig"@,
    }
}

/// The file extension under which a language's grammar is looked up in the
/// syntax database.
pub fn language_extension(language: &CodeLanguage) -> (r: &'static str)
    ensures
        r@ == spec_language_extension(*language),
{
    match language {
        CodeLanguage::Ada => "adb",
        CodeLanguage::Asp => "asa",
        CodeLanguage::Awk => "awk",
        CodeLanguage::Bash => "bash",
        CodeLanguage::BatchFile => "bat",
        CodeLanguage::C => "c",
        CodeLanguage::CMake => "cmake",
        CodeLanguage::CSharp => "cs",
        CodeLanguage::Clojure => "clj",
        CodeLanguage::Cpp => "cpp",
        CodeLanguage::Crontab => "crontab",
        CodeLanguage::Css => "css",
        CodeLanguage::DLang => "d",
        CodeLanguage::Docker => "Dockerfile",
        CodeLanguage::Dotenv => "env",
        CodeLanguage::Elixir => "ex",
        CodeLanguage::Elm => "elm",
        CodeLanguage::Erlang => "erl",
        CodeLanguage::Go => "go",
        CodeLanguage::Haskell => "hs",
        CodeLanguage::Html => "html",
        CodeLanguage::Java => "java",
        CodeLanguage::JavaScript => "js",
        CodeLanguage::Json => "json",
        CodeLanguage::Kotlin => "kt",
        CodeLanguage::Latex => "tex",
        CodeLanguage::Lua => "lua",
        CodeLanguage::Makefile => "make",
        CodeLanguage::Markdown => "md",
        CodeLanguage::OCaml => "ml",
        CodeLanguage::Perl => "pl",
        CodeLanguage::Php => "php",
        CodeLanguage::Protobuf => "proto",
        CodeLanguage::Puppet => "pp",
        CodeLanguage::Python => "py",
        CodeLanguage::R => "r",
        CodeLanguage::Rust => "rs",
        CodeLanguage::Scala => "scala",
        CodeLanguage::Shell(_) => "sh",
        CodeLanguage::Sql => "sql",
        CodeLanguage::Swift => "swift",
        CodeLanguage::Svelte => "svelte",
        CodeLanguage::Terraform => "tf",
        CodeLanguage::TypeScript => "ts",
        CodeLanguage::Unknown => "txt",
        CodeLanguage::Vue => "vue",
        CodeLanguage::Xml => "xml",
        CodeLanguage::Yaml => "yaml",
        CodeLanguage::Zig => "zig",
    }
}

} // verus!
