//! The library's error type.
use crate::text::{append_str, copy_string};
use vstd::prelude::*;

verus! {

/// Everything that can go wrong while preparing a workspace.
#[derive(Debug, Clone, PartialEq, Eq)]
pub enum ToolkitError {
    /// A message for the user, already worded.
    IoMessage(String),
    /// `cmake` could not be run.
    MissingCmake,
    /// `clangd` is not on `PATH`.
    MissingClangd,
    /// `neocmakelsp` is not on `PATH`.
    MissingNeocmakelsp,
    /// Visual Studio 2022+ was not found by `vswhere`.
    MissingVisualStudio,
    /// No MSVC toolset directory was found.
    MissingMsvcToolset,
    /// A configured tool is not on `PATH`.
    MissingTool(String),
    /// The language server id is not served by this extension.
    UnsupportedLanguageServer(String),
    /// A host command ended with a failure status.
    CommandFailed(String),
}

/// The result type used throughout the library.
pub type ToolkitResult<T> = Result<T, ToolkitError>;

/// The mathematical model of a `ToolkitError`.
pub enum ToolkitErrorView {
    IoMessage(Seq<char>),
    MissingCmake,
    MissingClangd,
    MissingNeocmakelsp,
    MissingVisualStudio,
    MissingMsvcToolset,
    MissingTool(Seq<char>),
    UnsupportedLanguageServer(Seq<char>),
    CommandFailed(Seq<char>),
}

impl View for ToolkitError {
    type V = ToolkitErrorView;

    open spec fn view(&self) -> ToolkitErrorView {
        match self {
            ToolkitError::IoMessage(m) => ToolkitErrorView::IoMessage(m@),
            ToolkitError::MissingCmake => ToolkitErrorView::MissingCmake,
            ToolkitError::MissingClangd => ToolkitErrorView::MissingClangd,
            ToolkitError::MissingNeocmakelsp => ToolkitErrorView::MissingNeocmakelsp,
            ToolkitError::MissingVisualStudio => ToolkitErrorView::MissingVisualStudio,
            ToolkitError::MissingMsvcToolset => ToolkitErrorView::MissingMsvcToolset,
            ToolkitError::MissingTool(t) => ToolkitErrorView::MissingTool(t@),
            ToolkitError::UnsupportedLanguageServer(id) => ToolkitErrorView::UnsupportedLanguageServer(id@),
            ToolkitError::CommandFailed(m) => ToolkitErrorView::CommandFailed(m@),
        }
    }
}

/// A copy of an error.
pub fn copy_error(e: &ToolkitError) -> (r: ToolkitError)
    ensures
        r@ == e@,
{
    match e {
        ToolkitError::IoMessage(m) => ToolkitError::IoMessage(copy_string(m)),
        ToolkitError::MissingCmake => ToolkitError::MissingCmake,
        ToolkitError::MissingClangd => ToolkitError::MissingClangd,
        ToolkitError::MissingNeocmakelsp => ToolkitError::MissingNeocmakelsp,
        ToolkitError::MissingVisualStudio => ToolkitError::MissingVisualStudio,
        ToolkitError::MissingMsvcToolset => ToolkitError::MissingMsvcToolset,
        ToolkitError::MissingTool(t) => ToolkitError::MissingTool(copy_string(t)),
        ToolkitError::UnsupportedLanguageServer(id) => ToolkitError::UnsupportedLanguageServer(copy_string(id)),
        ToolkitError::CommandFailed(m) => ToolkitError::CommandFailed(copy_string(m)),
    }
}

/// The text shown to the user for an error.
pub open spec fn user_message_spec(e: ToolkitErrorView) -> Seq<char> {
    match e {
        ToolkitErrorView::IoMessage(m) => m,
        ToolkitErrorView::MissingCmake => "CMake was not found in PATH"@,
        ToolkitErrorView::MissingClangd => "clangd was not found in PATH"@,
        ToolkitErrorView::MissingNeocmakelsp => "neocmakelsp was not found in PATH"@,
        ToolkitErrorView::MissingVisualStudio => "Visual Studio 2022+ was not found"@,
        ToolkitErrorView::MissingMsvcToolset => "MSVC v143+ toolset was not found"@,
        ToolkitErrorView::MissingTool(t) => "tool was not found in PATH: "@ + t,
        ToolkitErrorView::UnsupportedLanguageServer(id) => "unsupported language server: "@ + id,
        ToolkitErrorView::CommandFailed(m) => m,
    }
}

impl ToolkitError {
    /// The text shown to the user for this error.
    pub fn user_message(&self) -> (r: String)
        ensures
            r@ == user_message_spec(self@),
    {
        match self {
            ToolkitError::IoMessage(m) => copy_string(m),
            ToolkitError::MissingCmake => String::from_str("CMake was not found in PATH"),
            ToolkitError::MissingClangd => String::from_str("clangd was not found in PATH"),
            ToolkitError::MissingNeocmakelsp => String::from_str("neocmakelsp was not found in PATH"),
            ToolkitError::MissingVisualStudio => String::from_str("Visual Studio 2022+ was not found"),
            ToolkitError::MissingMsvcToolset => String::from_str("MSVC v143+ toolset was not found"),
            ToolkitError::MissingTool(t) => {
                let mut r = String::from_str("tool was not found in PATH: ");
                append_str(&mut r, t.as_str());
                r
            },
            ToolkitError::UnsupportedLanguageServer(id) => {
                let mut r = String::from_str("unsupported language server: ");
                append_str(&mut r, id.as_str());
                r
            },
            ToolkitError::CommandFailed(m) => copy_string(m),
        }
    }
}

} // verus!
