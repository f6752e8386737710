use presenterm::code::CodeLanguage;
use presenterm::highlighting::{language_extension, ThemeNotFound};

#[test]
fn language_extensions_are_the_database_keys() {
    assert_eq!(language_extension(&CodeLanguage::Ada), "adb");
    assert_eq!(language_extension(&CodeLanguage::Bash), "bash");
    assert_eq!(language_extension(&CodeLanguage::C), "c");
    assert_eq!(language_extension(&CodeLanguage::Cpp), "cpp");
    assert_eq!(language_extension(&CodeLanguage::Docker), "Dockerfile");
    assert_eq!(language_extension(&CodeLanguage::Latex), "tex");
    assert_eq!(language_extension(&CodeLanguage::Makefile), "make");
    assert_eq!(language_extension(&CodeLanguage::OCaml), "ml");
    assert_eq!(language_extension(&CodeLanguage::Python), "py");
    assert_eq!(language_extension(&CodeLanguage::Rust), "rs");
    assert_eq!(language_extension(&CodeLanguage::TypeScript), "ts");
    assert_eq!(language_extension(&CodeLanguage::Zig), "zig");
}

#[test]
fn shell_blocks_highlight_as_shell_whatever_the_interpreter() {
    assert_eq!(language_extension(&CodeLanguage::Shell("sh".to_string())), "sh");
    assert_eq!(language_extension(&CodeLanguage::Shell("zsh".to_string())), "sh");
    assert_eq!(language_extension(&CodeLanguage::Shell("fish".to_string())), "sh");
}

#[test]
fn unknown_language_falls_back_to_plain_text() {
    assert_eq!(language_extension(&CodeLanguage::Unknown), "txt");
}

#[test]
fn stock_database_has_grammars_for_common_extensions() {
    let syntax_set = syntect::parsing::SyntaxSet::load_defaults_newlines();
    let languages = [
        CodeLanguage::Bash,
        CodeLanguage::C,
        CodeLanguage::Clojure,
        CodeLanguage::Cpp,
        CodeLanguage::Css,
        CodeLanguage::Erlang,
        CodeLanguage::Go,
        CodeLanguage::Haskell,
        CodeLanguage::Html,
        CodeLanguage::Java,
        CodeLanguage::JavaScript,
        CodeLanguage::Json,
        CodeLanguage::Latex,
        CodeLanguage::Lua,
        CodeLanguage::Makefile,
        CodeLanguage::Markdown,
        CodeLanguage::OCaml,
        CodeLanguage::Perl,
        CodeLanguage::Php,
        CodeLanguage::Python,
        CodeLanguage::R,
        CodeLanguage::Rust,
        CodeLanguage::Scala,
        CodeLanguage::Shell("sh".to_string()),
        CodeLanguage::Sql,
        CodeLanguage::Xml,
        CodeLanguage::Yaml,
    ];
    for language in languages {
        let extension = language_extension(&language);
        let syntax = syntax_set.find_syntax_by_extension(extension);
        assert!(syntax.is_some(), "extension {extension} for {language:?} not found");
    }
}

#[test]
fn theme_not_found_is_a_unit_error() {
    let error = ThemeNotFound;
    assert_eq!(error, ThemeNotFound);
}
