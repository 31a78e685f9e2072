//! The neocmakelsp language server for CMake files.
use crate::error::{ToolkitError, ToolkitErrorView, ToolkitResult};
use crate::lsp::launch::LaunchCommand;
use crate::json_model::{
    bool_of, field_in, field_of, json_bool, json_field, json_model_of, json_object, object_of, parse_json,
    JsonModel,
};
use crate::text::{owned, str_eq, strs_view};
use vstd::prelude::*;

verus! {

/// The id under which the extension serves neocmakelsp.
pub const LANGUAGE_SERVER_ID: &'static str = "cpp-toolkit-neocmake";

/// The id neocmakelsp was served under by the first versions; still
/// accepted.
pub const LEGACY_LANGUAGE_SERVER_ID: &'static str = "msvc-cmake-neocmake";

/// The program looked up on `PATH`.
pub const BINARY_NAME: &'static str = "neocmakelsp";

/// Accepts the neocmakelsp server id (and the id of the first versions);
/// any other id is `UnsupportedLanguageServer` with that id.
pub fn validate_language_server_id(id: &str) -> (r: ToolkitResult<()>)
    ensures
        (id@ == LANGUAGE_SERVER_ID@ || id@ == LEGACY_LANGUAGE_SERVER_ID@) <==> r is Ok,
        r matches Err(e) ==> e@ == ToolkitErrorView::UnsupportedLanguageServer(id@),
{
    if str_eq(id, LANGUAGE_SERVER_ID) || str_eq(id, LEGACY_LANGUAGE_SERVER_ID) {
        Ok(())
    } else {
        Err(ToolkitError::UnsupportedLanguageServer(owned(id)))
    }
}

/// The neocmakelsp found on `PATH`, or `MissingNeocmakelsp`.
pub fn require_neocmakelsp(found: Option<String>) -> (r: ToolkitResult<String>)
    ensures
        match found {
            Some(p) => r matches Ok(q) && q@ == p@,
            None => r matches Err(e) && e == ToolkitError::MissingNeocmakelsp,
        },
{
    match found {
        Some(p) => Ok(p),
        None => Err(ToolkitError::MissingNeocmakelsp),
    }
}

/// neocmakelsp speaking LSP over stdio, with no environment of its own.
pub fn build_neocmakelsp_command(binary_path: String) -> (r: LaunchCommand)
    ensures
        r@.command == binary_path@,
        r@.args == seq!["stdio"@],
        r@.env.len() == 0,
{
    let args = vec![owned("stdio")];
    assert(strs_view(args@) =~= seq!["stdio"@]);
    LaunchCommand { command: binary_path, args, env: Vec::new() }
}

/// A feature that can be switched on or off.
#[derive(Debug, Clone, Copy, PartialEq, Eq, Structural)]
pub struct FeatureConfig {
    pub enable: bool,
}

impl Default for FeatureConfig {
    /// Off.
    fn default() -> (r: Self)
        ensures
            !r.enable,
    {
        FeatureConfig { enable: false }
    }
}

/// The initialization options of neocmakelsp.
#[derive(Debug, Clone, Copy, PartialEq, Eq, Structural)]
pub struct NeocmakeConfig {
    pub format: FeatureConfig,
    pub lint: FeatureConfig,
    pub scan_cmake_in_package: bool,
    pub semantic_token: bool,
}

/// Formatting, linting and package scanning on; semantic tokens off.
pub open spec fn default_neocmake_config() -> NeocmakeConfig {
    NeocmakeConfig {
        format: FeatureConfig { enable: true },
        lint: FeatureConfig { enable: true },
        scan_cmake_in_package: true,
        semantic_token: false,
    }
}

impl Default for NeocmakeConfig {
    /// Formatting, linting and package scanning on; semantic tokens off.
    fn default() -> (r: Self)
        ensures
            r == default_neocmake_config(),
    {
        NeocmakeConfig {
            format: FeatureConfig { enable: true },
            lint: FeatureConfig { enable: true },
            scan_cmake_in_package: true,
            semantic_token: false,
        }
    }
}

/// What the workspace settings (`lsp."msvc-cmake-neocmake"` in
/// `.zed/settings.json`) set: each value present only where the setting is
/// a boolean.
#[derive(Debug, Clone, Copy, PartialEq, Eq, Structural)]
pub struct NeocmakeOverrides {
    /// `format.enable`.
    pub format_enable: Option<bool>,
    /// `lint.enable`.
    pub lint_enable: Option<bool>,
    /// `scan_cmake_in_package`.
    pub scan_cmake_in_package: Option<bool>,
    /// `semantic_token`.
    pub semantic_token: Option<bool>,
}

impl Default for NeocmakeOverrides {
    /// Nothing set.
    fn default() -> (r: Self)
        ensures
            r.format_enable is None,
            r.lint_enable is None,
            r.scan_cmake_in_package is None,
            r.semantic_token is None,
    {
        NeocmakeOverrides { format_enable: None, lint_enable: None, scan_cmake_in_package: None, semantic_token: None }
    }
}

/// A setting, or its default.
pub open spec fn setting_or(value: Option<bool>, default: bool) -> bool {
    match value {
        Some(v) => v,
        None => default,
    }
}

/// The defaults with every setting that is present laid over them.
pub open spec fn config_from_overrides_spec(overrides: NeocmakeOverrides) -> NeocmakeConfig {
    NeocmakeConfig {
        format: FeatureConfig { enable: setting_or(overrides.format_enable, true) },
        lint: FeatureConfig { enable: setting_or(overrides.lint_enable, true) },
        scan_cmake_in_package: setting_or(overrides.scan_cmake_in_package, true),
        semantic_token: setting_or(overrides.semantic_token, false),
    }
}

/// The neocmakelsp options for the workspace settings: the defaults, with
/// each setting that is present laid over them.
pub fn config_from_overrides(overrides: NeocmakeOverrides) -> (r: NeocmakeConfig)
    ensures
        r == config_from_overrides_spec(overrides),
{
    let mut config = NeocmakeConfig::default();
    if let Some(enable) = overrides.format_enable {
        config.format.enable = enable;
    }
    if let Some(enable) = overrides.lint_enable {
        config.lint.enable = enable;
    }
    if let Some(scan) = overrides.scan_cmake_in_package {
        config.scan_cmake_in_package = scan;
    }
    if let Some(token) = overrides.semantic_token {
        config.semantic_token = token;
    }
    config
}

/// Nothing set.
pub open spec fn no_overrides() -> NeocmakeOverrides {
    NeocmakeOverrides { format_enable: None, lint_enable: None, scan_cmake_in_package: None, semantic_token: None }
}

/// What the settings object of the server sets: `format.enable` and
/// `lint.enable` (each inside an object), `scan_cmake_in_package` and
/// `semantic_token`, wherever they are booleans.
pub open spec fn overrides_in(server: JsonModel) -> NeocmakeOverrides {
    NeocmakeOverrides {
        format_enable: bool_of(field_in(object_of(field_of(server, "format"@)), "enable"@)),
        lint_enable: bool_of(field_in(object_of(field_of(server, "lint"@)), "enable"@)),
        scan_cmake_in_package: bool_of(field_of(server, "scan_cmake_in_package"@)),
        semantic_token: bool_of(field_of(server, "semantic_token"@)),
    }
}

/// The settings object of the server in a settings document:
/// `lsp."cpp-toolkit-neocmake"`, or else `lsp."msvc-cmake-neocmake"`, when
/// `lsp` and it are objects.
pub open spec fn server_settings(settings: JsonModel) -> Option<JsonModel> {
    match object_of(field_of(settings, "lsp"@)) {
        None => None,
        Some(lsp) => match object_of(field_of(lsp, LANGUAGE_SERVER_ID@)) {
            Some(server) => Some(server),
            None => object_of(field_of(lsp, LEGACY_LANGUAGE_SERVER_ID@)),
        },
    }
}

/// What a settings text sets: nothing when there is no text, when it is
/// not JSON, or when it has no settings object for the server.
pub open spec fn settings_overrides_spec(settings: Option<Seq<char>>) -> NeocmakeOverrides {
    match settings {
        None => no_overrides(),
        Some(text) => match json_model_of(text) {
            None => no_overrides(),
            Some(document) => match server_settings(document) {
                Some(server) => overrides_in(server),
                None => no_overrides(),
            },
        },
    }
}

/// What the settings object of the server sets.
pub fn overrides_from_json(server: &JsonModel) -> (r: NeocmakeOverrides)
    ensures
        r == overrides_in(*server),
{
    let format = json_object(json_field(server, "format"));
    let lint = json_object(json_field(server, "lint"));
    NeocmakeOverrides {
        format_enable: json_bool(crate::json_model::json_field_in(format, "enable")),
        lint_enable: json_bool(crate::json_model::json_field_in(lint, "enable")),
        scan_cmake_in_package: json_bool(json_field(server, "scan_cmake_in_package")),
        semantic_token: json_bool(json_field(server, "semantic_token")),
    }
}

/// What a settings text sets for the server.
pub fn settings_overrides(settings: Option<&str>) -> (r: NeocmakeOverrides)
    ensures
        r == settings_overrides_spec(
            match settings {
                Some(t) => Some(t@),
                None => None,
            },
        ),
{
    let text = match settings {
        Some(t) => t,
        None => return NeocmakeOverrides::default(),
    };
    let document = match parse_json(text) {
        Ok(d) => d,
        Err(_) => return NeocmakeOverrides::default(),
    };
    let lsp = match json_object(json_field(&document, "lsp")) {
        Some(l) => l,
        None => return NeocmakeOverrides::default(),
    };
    let server = match json_object(json_field(lsp, LANGUAGE_SERVER_ID)) {
        Some(s) => s,
        None => match json_object(json_field(lsp, LEGACY_LANGUAGE_SERVER_ID)) {
            Some(s) => s,
            None => return NeocmakeOverrides::default(),
        },
    };
    overrides_from_json(server)
}

/// The neocmakelsp options for a workspace's `.zed/settings.json` text (if
/// it has one): the defaults with what the settings set laid over them.
pub fn config_from_settings_json(settings: Option<&str>) -> (r: NeocmakeConfig)
    ensures
        r == config_from_overrides_spec(
            settings_overrides_spec(
                match settings {
                    Some(t) => Some(t@),
                    None => None,
                },
            ),
        ),
{
    config_from_overrides(settings_overrides(settings))
}

/// Settings that set nothing (missing, unreadable, or without booleans)
/// keep every default.
pub proof fn law_no_overrides_keep_defaults(overrides: NeocmakeOverrides)
    requires
        overrides.format_enable is None,
        overrides.lint_enable is None,
        overrides.scan_cmake_in_package is None,
        overrides.semantic_token is None,
    ensures
        config_from_overrides_spec(overrides) == default_neocmake_config(),
{
}

} // verus!
