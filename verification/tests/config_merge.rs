use cpp_toolkit::config::merge::{
    merge_user_config, resolve_config, resolve_config_for_host, resolve_config_for_root_path, HostPlatform,
};
use cpp_toolkit::config::schema::{BuildConfig, BuildDirStyle, ClangdConfig, UserConfig};

#[test]
fn defaults_to_build_directory() {
    let config = resolve_config(Some(UserConfig {
        preset: Some("gcc-cmake-ninja".to_string()),
        ..UserConfig::default()
    }))
    .unwrap();

    assert_eq!(config.build.build_dir, "build");
    assert_eq!(config.clangd.compile_commands_dir, "build");
    assert!(config.build.configure.unwrap().contains("-B build"));
}

#[test]
fn windows_host_path_uses_msvc_default_preset() {
    let config = resolve_config_for_root_path(None, r"C:\repo").unwrap();

    assert_eq!(config.preset, "msvc-cmake-ninja");
    assert_eq!(config.toolchain.name, "msvc");
    assert_eq!(config.clangd.compiler, "clang-cl");
}

#[test]
fn msvc_cmake_preset_pins_cmake_compilers_to_cl() {
    let config = resolve_config_for_host(None, HostPlatform::Windows).unwrap();
    let configure = config.build.configure.unwrap();

    assert!(configure.contains("-DCMAKE_C_COMPILER=cl"));
    assert!(configure.contains("-DCMAKE_CXX_COMPILER=cl"));
}

#[test]
fn clion_style_is_only_used_when_explicit() {
    let config = resolve_config(Some(UserConfig {
        preset: Some("gcc-cmake-ninja".to_string()),
        build: BuildConfig {
            build_dir_style: Some(BuildDirStyle::Clion),
            build_type: Some("Release".to_string()),
            ..BuildConfig::default()
        },
        ..UserConfig::default()
    }))
    .unwrap();

    assert_eq!(config.build.build_dir, "cmake-build-release");
    assert_eq!(config.clangd.compile_commands_dir, "cmake-build-release");
    assert!(config.build.configure.unwrap().contains("-B cmake-build-release"));
}

#[test]
fn explicit_build_dir_wins_over_style() {
    let config = resolve_config(Some(UserConfig {
        preset: Some("gcc-cmake-ninja".to_string()),
        build: BuildConfig {
            build_dir_style: Some(BuildDirStyle::Clion),
            build_dir: Some("out/debug".to_string()),
            ..BuildConfig::default()
        },
        ..UserConfig::default()
    }))
    .unwrap();

    assert_eq!(config.build.build_dir, "out/debug");
    assert_eq!(config.clangd.compile_commands_dir, "out/debug");
}

#[test]
fn custom_build_dir_style_requires_explicit_build_dir() {
    let error = resolve_config(Some(UserConfig {
        preset: Some("custom".to_string()),
        build: BuildConfig {
            build_dir_style: Some(BuildDirStyle::Custom),
            ..BuildConfig::default()
        },
        ..UserConfig::default()
    }))
    .unwrap_err();

    assert!(error.user_message().contains("build_dir_style = \"custom\" requires build_dir"));
}

#[test]
fn empty_query_driver_overrides_preset_default() {
    let user = UserConfig {
        preset: Some("gcc-cmake-ninja".to_string()),
        clangd: ClangdConfig {
            query_driver: Some(Vec::new()),
            ..ClangdConfig::default()
        },
        ..UserConfig::default()
    };

    let config = resolve_config(Some(user)).unwrap();

    assert!(config.clangd.query_driver.is_empty());
}

#[test]
fn empty_extra_flags_overrides_preset_default() {
    let preset = UserConfig {
        preset: Some("custom".to_string()),
        clangd: ClangdConfig {
            extra_flags: Some(vec!["-std=c++20".to_string()]),
            ..ClangdConfig::default()
        },
        ..UserConfig::default()
    };
    let user = UserConfig {
        clangd: ClangdConfig {
            extra_flags: Some(Vec::new()),
            ..ClangdConfig::default()
        },
        ..UserConfig::default()
    };

    let merged = merge_user_config(preset, user);

    assert_eq!(merged.clangd.extra_flags, Some(Vec::new()));
}
