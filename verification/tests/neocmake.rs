use cpp_toolkit::error::ToolkitError;
use cpp_toolkit::lsp::neocmake::{build_neocmakelsp_command, config_from_settings_json, validate_language_server_id};

#[test]
fn accepts_neocmake_language_server_id() {
    assert_eq!(validate_language_server_id("msvc-cmake-neocmake"), Ok(()));
}

#[test]
fn rejects_unexpected_language_server_id() {
    let error = validate_language_server_id("other-lsp").unwrap_err();
    assert!(matches!(error, ToolkitError::UnsupportedLanguageServer(_)));
}

#[test]
fn builds_stdio_command_without_cli_init_options() {
    let command = build_neocmakelsp_command("C:\\tools\\neocmakelsp.exe".to_string());

    assert_eq!(command.command, "C:\\tools\\neocmakelsp.exe");
    assert_eq!(command.args, vec!["stdio"]);
    assert!(command.env.is_empty());
}

#[test]
fn settings_json_overrides_default_init_options() {
    let settings = r#"{
        "lsp": {
            "msvc-cmake-neocmake": {
                "format": { "enable": false },
                "lint": { "enable": true },
                "scan_cmake_in_package": false,
                "semantic_token": true
            }
        }
    }"#;

    let config = config_from_settings_json(Some(settings));

    assert!(!config.format.enable);
    assert!(config.lint.enable);
    assert!(!config.scan_cmake_in_package);
    assert!(config.semantic_token);
}

#[test]
fn invalid_settings_json_keeps_defaults() {
    let config = config_from_settings_json(Some("{ invalid json"));

    assert!(config.format.enable);
    assert!(config.lint.enable);
    assert!(config.scan_cmake_in_package);
    assert!(!config.semantic_token);
}

#[test]
fn accepts_documented_neocmake_id_and_settings_key() {
    assert_eq!(validate_language_server_id("cpp-toolkit-neocmake"), Ok(()));
    let settings = r#"{ "lsp": { "cpp-toolkit-neocmake": { "semantic_token": true, "lint": { "enable": 1 } } } }"#;
    let config = config_from_settings_json(Some(settings));
    assert!(config.semantic_token);
    assert!(config.lint.enable);
    assert!(config.format.enable);
    let missing = config_from_settings_json(None);
    assert!(!missing.semantic_token);
}
