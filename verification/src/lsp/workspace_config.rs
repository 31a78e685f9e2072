//! Whether to write a generated `.clangd`.
use crate::lsp::clangd_config::{render_clangd_config, render_spec, ClangdConfigInput};
use crate::text::{append_str, chars_of, is_sep, replace_char, replace_char_exec, string_of, trim_end_by, trim_end_seps};
use vstd::prelude::*;

verus! {

/// What to do with the workspace's `.clangd`.
#[derive(Debug, Clone, PartialEq, Eq)]
pub enum ClangdFileDecision {
    /// Write a new file with these contents.
    Create { path: String, contents: String },
    /// Leave the existing file alone.
    PreserveExisting { path: String },
}

/// `<root>/.clangd`, with forward slashes and no doubled separator.
pub open spec fn clangd_path_spec(root_path: Seq<char>) -> Seq<char> {
    trim_end_by(replace_char(root_path, '\\', '/'), |c: char| is_sep(c)) + "/.clangd"@
}

/// Creates a rendered `.clangd` when the workspace has none, and otherwise
/// preserves the existing file.
pub fn decide_clangd_file(root_path: &str, existing_contents: Option<String>, input: &ClangdConfigInput) -> (r:
    ClangdFileDecision)
    ensures
        match r {
            ClangdFileDecision::Create { path, contents } => existing_contents is None && path@ == clangd_path_spec(
                root_path@,
            ) && contents@ == render_spec(input@),
            ClangdFileDecision::PreserveExisting { path } => existing_contents is Some && path@
                == clangd_path_spec(root_path@),
        },
{
    let slashed = replace_char_exec(&chars_of(root_path), '\\', '/');
    let trimmed = trim_end_seps(&slashed);
    let mut path = string_of(&trimmed);
    append_str(&mut path, "/.clangd");
    if existing_contents.is_some() {
        ClangdFileDecision::PreserveExisting { path }
    } else {
        ClangdFileDecision::Create { path, contents: render_clangd_config(input) }
    }
}

} // verus!
