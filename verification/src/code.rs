//! Code blocks as supplied by the document parser: raw contents, a language
//! tag, and an execute-authorization flag.

use vstd::prelude::*;

verus! {

/// The language of a code block, as declared in the document.
///
/// Exactly one family supports execution: shell-style interpreters, whose
/// variant carries the interpreter executable name.
#[derive(Clone, Debug, PartialEq, Eq)]
pub enum CodeLanguage {
    Ada,
    Asp,
    Awk,
    Bash,
    BatchFile,
    C,
    CMake,
    CSharp,
    Clojure,
    Cpp,
    Crontab,
    Css,
    DLang,
    Docker,
    Dotenv,
    Elixir,
    Elm,
    Erlang,
    Go,
    Haskell,
    Html,
    Java,
    JavaScript,
    Json,
    Kotlin,
    Latex,
    Lua,
    Makefile,
    Markdown,
    OCaml,
    Perl,
    Php,
    Protobuf,
    Puppet,
    Python,
    R,
    Rust,
    Scala,
    Shell(String),
    Sql,
    Swift,
    Svelte,
    Terraform,
    TypeScript,
    Unknown,
    Vue,
    Xml,
    Yaml,
    Zig,
}

impl CodeLanguage {
    /// True exactly on the languages whose blocks can ever be executed.
    pub open spec fn spec_supports_execution(&self) -> bool {
        self is Shell
    }

    /// Whether this language supports execution at all, independently of any
    /// per-block authorization.
    pub fn supports_execution(&self) -> (r: bool)
        ensures
            r == self.spec_supports_execution(),
    {
        matches!(self, CodeLanguage::Shell(_))
    }
}

/// Flags set on a code block by the document author.
#[derive(Clone, Copy, Debug, PartialEq, Eq, Structural)]
pub struct CodeFlags {
    /// Whether executing this block has been explicitly authorized.
    pub execute: bool,
}

/// A code block: raw source text, declared language, and flags.
#[derive(Clone, Debug)]
pub struct Code {
    /// The block's raw source text.
    pub contents: String,
    /// The block's declared language.
    pub language: CodeLanguage,
    /// The block's flags.
    pub flags: CodeFlags,
}

} // verus!
