use cpp_toolkit::cmake::tools::{
    build_build_command, build_configure_command, CmakeBuildType, CmakeConfigureOptions, CmakeGenerator,
};

#[test]
fn ninja_generator_produces_correct_args() {
    assert_eq!(CmakeGenerator::Ninja.as_args(), vec!["-G", "Ninja"]);
}

#[test]
fn visual_studio_generator_produces_correct_args() {
    assert_eq!(CmakeGenerator::VisualStudio2022.as_args(), vec!["-G", "Visual Studio 17 2022"]);
}

#[test]
fn build_type_produces_correct_cmake_var() {
    assert_eq!(CmakeBuildType::Debug.as_cmake_var(), "Debug");
    assert_eq!(CmakeBuildType::Release.as_cmake_var(), "Release");
    assert_eq!(CmakeBuildType::RelWithDebInfo.as_cmake_var(), "RelWithDebInfo");
}

#[test]
fn build_type_produces_correct_build_arg() {
    assert_eq!(CmakeBuildType::Debug.as_build_arg(), "Debug");
    assert_eq!(CmakeBuildType::Release.as_build_arg(), "Release");
    assert_eq!(CmakeBuildType::RelWithDebInfo.as_build_arg(), "RelWithDebInfo");
}

#[test]
fn configure_command_for_ninja() {
    let options = CmakeConfigureOptions {
        source_dir: r"C:\project".to_string(),
        build_dir: "build".to_string(),
        generator: CmakeGenerator::Ninja,
        build_type: CmakeBuildType::Debug,
    };

    let args = build_configure_command(&options);

    assert!(args.contains(&"-S".to_string()));
    assert!(args.contains(&"C:\\project".to_string()));
    assert!(args.contains(&"-B".to_string()));
    assert!(args.contains(&"build".to_string()));
    assert!(args.contains(&"-G".to_string()));
    assert!(args.contains(&"Ninja".to_string()));
    assert!(args.contains(&"-DCMAKE_BUILD_TYPE=Debug".to_string()));
}

#[test]
fn configure_command_for_visual_studio() {
    let options = CmakeConfigureOptions {
        source_dir: r"C:\project".to_string(),
        build_dir: "build".to_string(),
        generator: CmakeGenerator::VisualStudio2022,
        build_type: CmakeBuildType::Debug,
    };

    let args = build_configure_command(&options);

    assert!(args.contains(&"-G".to_string()));
    assert!(args.contains(&"Visual Studio 17 2022".to_string()));
}

#[test]
fn build_command_includes_config() {
    let args = build_build_command("build", CmakeBuildType::Debug);

    assert!(args.contains(&"--build".to_string()));
    assert!(args.contains(&"build".to_string()));
    assert!(args.contains(&"--config".to_string()));
    assert!(args.contains(&"Debug".to_string()));
}

#[test]
fn configure_command_arguments_are_separate() {
    let options = CmakeConfigureOptions {
        source_dir: r"C:\project".to_string(),
        build_dir: "build".to_string(),
        generator: CmakeGenerator::VisualStudio2022,
        build_type: CmakeBuildType::Debug,
    };

    let args = build_configure_command(&options);

    let s_index = args.iter().position(|a| a == "-S").unwrap();
    assert_eq!(args[s_index + 1], r"C:\project");

    let g_index = args.iter().position(|a| a == "-G").unwrap();
    assert_eq!(args[g_index + 1], "Visual Studio 17 2022");
}

#[test]
fn source_dir_with_spaces_is_separate_argument() {
    let options = CmakeConfigureOptions {
        source_dir: r"C:\My Project\src".to_string(),
        build_dir: "build".to_string(),
        generator: CmakeGenerator::Ninja,
        build_type: CmakeBuildType::Debug,
    };

    let args = build_configure_command(&options);

    let s_index = args.iter().position(|a| a == "-S").unwrap();
    assert_eq!(args[s_index + 1], r"C:\My Project\src");
}
