use cpp_toolkit::cmake::tasks::{generate_tasks_json, TaskOptions};

#[test]
fn generate_tasks_json_creates_valid_json() {
    let options = TaskOptions::default();
    let json = generate_tasks_json(&options).unwrap();

    let parsed: serde_json::Value = serde_json::from_str(&json).unwrap();
    assert!(parsed.is_array());
}

#[test]
fn tasks_include_configure_and_build() {
    let options = TaskOptions::default();
    let json = generate_tasks_json(&options).unwrap();
    let parsed: serde_json::Value = serde_json::from_str(&json).unwrap();

    assert_eq!(parsed.as_array().unwrap().len(), 2);
    assert_eq!(parsed[0]["label"], "CMake: Configure (Debug)");
    assert_eq!(parsed[1]["label"], "CMake: Build (Debug)");
}

#[test]
fn tasks_use_workspace_root_variable() {
    let options = TaskOptions::default();
    let json = generate_tasks_json(&options).unwrap();
    let parsed: serde_json::Value = serde_json::from_str(&json).unwrap();

    let configure_args = parsed[0]["args"].as_array().unwrap();
    assert!(configure_args
        .iter()
        .any(|arg| arg.as_str().map(|s| s.contains("$ZED_WORKTREE_ROOT")).unwrap_or(false)));

    let build_args = parsed[1]["args"].as_array().unwrap();
    assert!(build_args
        .iter()
        .any(|arg| arg.as_str().map(|s| s.contains("$ZED_WORKTREE_ROOT")).unwrap_or(false)));
}

#[test]
fn custom_build_dir_and_type() {
    let options = TaskOptions {
        build_dir: "cmake-build".to_string(),
        build_type: "Release".to_string(),
    };
    let json = generate_tasks_json(&options).unwrap();
    let parsed: serde_json::Value = serde_json::from_str(&json).unwrap();

    assert_eq!(parsed[0]["label"], "CMake: Configure (Release)");
    assert_eq!(parsed[1]["label"], "CMake: Build (Release)");

    let build_arg = parsed[0]["args"]
        .as_array()
        .unwrap()
        .iter()
        .find(|arg| arg.as_str().map(|s| s.contains("cmake-build")).unwrap_or(false))
        .unwrap();
    assert_eq!(build_arg, "$ZED_WORKTREE_ROOT/cmake-build");
}
