use cpp_toolkit::lsp::clangd_config::{render_clangd_config, ClangdConfigInput};

#[test]
fn renders_msvc_and_sdk_include_paths() {
    let rendered = render_clangd_config(&ClangdConfigInput {
        compiler: String::new(),
        compile_commands_dir: String::new(),
        extra_flags: Vec::new(),
        msvc_include: Some(r"C:\VS\VC\Tools\MSVC\14.40.33807\include".to_string()),
        sdk_includes: vec![
            r"C:\Windows Kits\10\Include\10.0.22621.0\ucrt".to_string(),
            r"C:\Windows Kits\10\Include\10.0.22621.0\um".to_string(),
            r"C:\Windows Kits\10\Include\10.0.22621.0\shared".to_string(),
        ],
        compile_database_path: None,
    });

    assert!(rendered.contains("DriverMode: cl"));
    assert!(rendered.contains("- /IC:/VS/VC/Tools/MSVC/14.40.33807/include"));
    assert!(rendered.contains("- /IC:/Windows Kits/10/Include/10.0.22621.0/ucrt"));
    assert!(rendered.contains("- /IC:/Windows Kits/10/Include/10.0.22621.0/um"));
    assert!(rendered.contains("- /IC:/Windows Kits/10/Include/10.0.22621.0/shared"));
    assert!(!rendered.contains("Windows SDK include 未自动探测到"));
}

#[test]
fn renders_manual_sdk_comments_when_sdk_is_missing() {
    let rendered = render_clangd_config(&ClangdConfigInput {
        compiler: String::new(),
        compile_commands_dir: String::new(),
        extra_flags: Vec::new(),
        msvc_include: Some(r"C:\VS\VC\Tools\MSVC\14.40.33807\include".to_string()),
        sdk_includes: Vec::new(),
        compile_database_path: None,
    });

    assert!(rendered.contains("- /IC:/VS/VC/Tools/MSVC/14.40.33807/include"));
    assert!(rendered.contains("Windows SDK include 未自动探测到"));
    assert!(rendered.contains("# - /IC:/Program Files (x86)/Windows Kits/10/Include/<version>/ucrt"));
}

#[test]
fn renders_compilation_database_when_present() {
    let rendered = render_clangd_config(&ClangdConfigInput {
        compiler: String::new(),
        compile_commands_dir: String::new(),
        extra_flags: Vec::new(),
        msvc_include: Some(r"C:\VS\VC\Tools\MSVC\14.40.33807\include".to_string()),
        sdk_includes: Vec::new(),
        compile_database_path: Some(r"C:\project\build".to_string()),
    });

    assert!(rendered.contains("检测到 compile_commands.json，使用编译数据库"));
    assert!(rendered.contains("CompilationDatabase: C:/project/build"));
    assert!(rendered.contains("编译数据库包含完整 include 路径，以下仅作为备用"));
}

#[test]
fn does_not_render_compilation_database_when_missing() {
    let rendered = render_clangd_config(&ClangdConfigInput {
        compiler: String::new(),
        compile_commands_dir: String::new(),
        extra_flags: Vec::new(),
        msvc_include: Some(r"C:\VS\VC\Tools\MSVC\14.40.33807\include".to_string()),
        sdk_includes: Vec::new(),
        compile_database_path: None,
    });

    assert!(!rendered.contains("CompilationDatabase:"));
    assert!(!rendered.contains("检测到 compile_commands.json"));
}

#[test]
fn plain_config_starts_with_marker_and_has_no_add_list() {
    let rendered = render_clangd_config(&ClangdConfigInput {
        compiler: "g++".to_string(),
        compile_commands_dir: String::new(),
        extra_flags: Vec::new(),
        msvc_include: None,
        sdk_includes: Vec::new(),
        compile_database_path: None,
    });

    assert_eq!(rendered.lines().next(), Some("# Auto-generated by Zed C++ Toolkit."));
    assert!(rendered.contains("  Remove:\n    - -fdeps-format=*\n    - -fmodules-ts\n    - -fmodule-mapper=*\n"));
    assert!(!rendered.contains("Add:"));
    assert!(rendered.contains("-fmodule-mapper=*\nDiagnostics:\n"));
}
