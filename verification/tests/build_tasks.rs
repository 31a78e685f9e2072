use cpp_toolkit::build::shell::ShellKind;
use cpp_toolkit::build::tasks::generate_cpp_tasks_json;
use cpp_toolkit::cmake::tasks::CmakeTarget;
use cpp_toolkit::config::merge::resolve_config;
use cpp_toolkit::config::schema::{RunConfig, UserConfig};

fn task_labels(parsed: &serde_json::Value) -> Vec<&str> {
    parsed
        .as_array()
        .unwrap()
        .iter()
        .map(|task| task["label"].as_str().unwrap())
        .collect()
}

fn task_with_label<'a>(parsed: &'a serde_json::Value, label: &str) -> &'a serde_json::Value {
    parsed
        .as_array()
        .unwrap()
        .iter()
        .find(|task| task["label"] == label)
        .unwrap()
}

fn run_task_count(parsed: &serde_json::Value) -> usize {
    task_labels(parsed)
        .iter()
        .filter(|label| label.starts_with("C++: Run"))
        .count()
}

fn run_task_target_count(parsed: &serde_json::Value) -> usize {
    task_labels(parsed)
        .iter()
        .filter(|label| label.starts_with("C++: Run (") && label.contains("): "))
        .count()
}

fn gcc_config() -> cpp_toolkit::config::schema::EffectiveConfig {
    resolve_config(Some(UserConfig {
        preset: Some("gcc-cmake-ninja".to_string()),
        ..UserConfig::default()
    }))
    .unwrap()
}

#[test]
fn generates_configure_build_and_clean_tasks() {
    let config = gcc_config();
    let json = generate_cpp_tasks_json(&config, ShellKind::Sh, &[]).unwrap();
    let parsed: serde_json::Value = serde_json::from_str(&json).unwrap();

    assert_eq!(parsed.as_array().unwrap().len(), 6);
    assert_eq!(parsed[0]["label"], "C++: Configure (Debug)");
    assert_eq!(parsed[1]["label"], "C++: Build (Debug)");
    assert_eq!(parsed[2]["label"], "C++: Clean (Debug)");
    assert_eq!(parsed[3]["label"], "C++: Configure (Release)");
    assert_eq!(parsed[4]["label"], "C++: Build (Release)");
    assert_eq!(parsed[5]["label"], "C++: Clean (Release)");
    assert_eq!(parsed[1]["command"], "cmake --build build/debug");
    assert_eq!(parsed[4]["command"], "cmake --build build/release");
    assert!(parsed[1]["args"].as_array().unwrap().is_empty());
}

#[test]
fn generates_debug_and_release_task_profiles_for_cmake_targets() {
    let config = gcc_config();
    let targets = vec![CmakeTarget {
        name: "myapp".to_string(),
        output: Some("myapp.exe".to_string()),
        executable: true,
    }];
    let json = generate_cpp_tasks_json(&config, ShellKind::Sh, &targets).unwrap();
    let parsed: serde_json::Value = serde_json::from_str(&json).unwrap();

    assert!(task_labels(&parsed).contains(&"C++: Configure (Debug)"));
    assert!(task_labels(&parsed).contains(&"C++: Configure (Release)"));
    assert!(task_labels(&parsed).contains(&"C++: Build (Debug)"));
    assert!(task_labels(&parsed).contains(&"C++: Build (Release)"));
    assert!(task_labels(&parsed).contains(&"C++: Run (Debug): myapp"));
    assert!(task_labels(&parsed).contains(&"C++: Run (Release): myapp"));

    let debug_configure = task_with_label(&parsed, "C++: Configure (Debug)");
    assert!(debug_configure["command"].as_str().unwrap().contains("-B build/debug"));
    assert!(debug_configure["command"].as_str().unwrap().contains("-DCMAKE_BUILD_TYPE=Debug"));

    let release_configure = task_with_label(&parsed, "C++: Configure (Release)");
    assert!(release_configure["command"].as_str().unwrap().contains("-B build/release"));
    assert!(release_configure["command"].as_str().unwrap().contains("-DCMAKE_BUILD_TYPE=Release"));

    let release_run = task_with_label(&parsed, "C++: Run (Release): myapp");
    assert!(release_run["command"].as_str().unwrap().contains("build/release/myapp.exe"));
}

#[test]
fn auto_discovers_run_tasks_from_cmake_targets() {
    let config = gcc_config();
    let targets = vec![CmakeTarget {
        name: "myapp".to_string(),
        output: Some("myapp.exe".to_string()),
        executable: true,
    }];
    let json = generate_cpp_tasks_json(&config, ShellKind::Sh, &targets).unwrap();
    let parsed: serde_json::Value = serde_json::from_str(&json).unwrap();

    assert_eq!(parsed.as_array().unwrap().len(), 10);
    let run_task = task_with_label(&parsed, "C++: Run (Debug): myapp");
    assert!(run_task["command"].as_str().unwrap().contains("build/debug/myapp.exe"));
}

#[test]
fn creates_build_tasks_for_cmake_library_and_executable_targets() {
    let config = gcc_config();
    let targets = vec![
        CmakeTarget {
            name: "QEnhancedCustomPlot".to_string(),
            output: Some("QEnhancedCustomPlot.lib".to_string()),
            executable: false,
        },
        CmakeTarget {
            name: "demo_realtime".to_string(),
            output: Some("demos/demo_realtime/demo_realtime.exe".to_string()),
            executable: true,
        },
    ];
    let json = generate_cpp_tasks_json(&config, ShellKind::Powershell, &targets).unwrap();
    let parsed: serde_json::Value = serde_json::from_str(&json).unwrap();

    let labels = parsed
        .as_array()
        .unwrap()
        .iter()
        .map(|task| task["label"].as_str().unwrap())
        .collect::<Vec<_>>();

    assert!(labels.contains(&"C++: Build Target (Debug): QEnhancedCustomPlot"));
    assert!(labels.contains(&"C++: Build Target (Release): QEnhancedCustomPlot"));
    assert!(labels.contains(&"C++: Build Target (Debug): demo_realtime"));
    assert!(labels.contains(&"C++: Run (Debug): demo_realtime"));
    assert!(labels.contains(&"C++: Run (Release): demo_realtime"));
    assert!(!labels.contains(&"C++: Run (Debug): QEnhancedCustomPlot"));
    assert!(!labels.contains(&"C++: Run (Release): QEnhancedCustomPlot"));
    assert!(parsed.as_array().unwrap().iter().any(|task| {
        task["label"] == "C++: Build Target (Debug): QEnhancedCustomPlot"
            && task["args"][2]
                .as_str()
                .unwrap()
                .contains("cmake --build build/debug --config Debug --target QEnhancedCustomPlot")
    }));
}

#[test]
fn keeps_cmake_build_target_tasks_when_run_command_is_explicit() {
    let config = resolve_config(Some(UserConfig {
        preset: Some("gcc-cmake-ninja".to_string()),
        run: RunConfig {
            command: Some("./build/my-custom-app".to_string()),
            cwd: None,
        },
        ..UserConfig::default()
    }))
    .unwrap();
    let targets = vec![CmakeTarget {
        name: "QEnhancedCustomPlot".to_string(),
        output: Some("QEnhancedCustomPlot.lib".to_string()),
        executable: false,
    }];
    let json = generate_cpp_tasks_json(&config, ShellKind::Sh, &targets).unwrap();
    let parsed: serde_json::Value = serde_json::from_str(&json).unwrap();

    assert!(task_labels(&parsed).contains(&"C++: Build Target (Debug): QEnhancedCustomPlot"));
    assert!(task_labels(&parsed).contains(&"C++: Build Target (Release): QEnhancedCustomPlot"));
    assert_eq!(run_task_count(&parsed), 2);
    assert!(task_labels(&parsed).contains(&"C++: Run (Debug)"));
    assert!(task_labels(&parsed).contains(&"C++: Run (Release)"));
}

#[test]
fn explicit_run_command_overrides_auto_discovery() {
    let config = resolve_config(Some(UserConfig {
        preset: Some("gcc-cmake-ninja".to_string()),
        run: RunConfig {
            command: Some("./build/my-custom-app".to_string()),
            cwd: None,
        },
        ..UserConfig::default()
    }))
    .unwrap();
    let targets = vec![CmakeTarget {
        name: "myapp".to_string(),
        output: Some("myapp.exe".to_string()),
        executable: true,
    }];
    let json = generate_cpp_tasks_json(&config, ShellKind::Sh, &targets).unwrap();
    let parsed: serde_json::Value = serde_json::from_str(&json).unwrap();

    assert_eq!(parsed.as_array().unwrap().len(), 10);
    assert_eq!(run_task_count(&parsed), 2);
    assert_eq!(run_task_target_count(&parsed), 0);
    let run_task = task_with_label(&parsed, "C++: Run (Debug)");
    assert!(run_task["command"].as_str().unwrap().contains("my-custom-app"));
}

#[test]
fn skips_non_executable_targets() {
    let config = gcc_config();
    let targets = vec![
        CmakeTarget {
            name: "mylib".to_string(),
            output: Some("libmylib.a".to_string()),
            executable: false,
        },
        CmakeTarget {
            name: "myapp".to_string(),
            output: Some("myapp".to_string()),
            executable: true,
        },
    ];
    let json = generate_cpp_tasks_json(&config, ShellKind::Sh, &targets).unwrap();
    let parsed: serde_json::Value = serde_json::from_str(&json).unwrap();

    assert_eq!(parsed.as_array().unwrap().len(), 12);
    assert!(task_labels(&parsed).contains(&"C++: Build Target (Debug): mylib"));
    assert!(task_labels(&parsed).contains(&"C++: Build Target (Debug): myapp"));
    assert!(task_labels(&parsed).contains(&"C++: Run (Debug): myapp"));
    assert!(!task_labels(&parsed).contains(&"C++: Run (Debug): mylib"));
}

#[test]
fn every_task_runs_from_the_root_with_debug_before_release() {
    let config = gcc_config();
    let targets = vec![
        CmakeTarget { name: "app".to_string(), output: Some("bin/app".to_string()), executable: true },
        CmakeTarget { name: "core".to_string(), output: Some("libcore.a".to_string()), executable: false },
    ];
    let json = generate_cpp_tasks_json(&config, ShellKind::Sh, &targets).unwrap();
    let parsed: serde_json::Value = serde_json::from_str(&json).unwrap();
    let tasks = parsed.as_array().unwrap();
    // configure, build, clean, two build-target tasks and one run task per profile
    assert_eq!(tasks.len(), 2 * (3 + 2 + 1));
    for (i, task) in tasks.iter().enumerate() {
        assert_eq!(task["cwd"], "$ZED_WORKTREE_ROOT");
        assert!(task["env"].as_object().unwrap().is_empty());
        let label = task["label"].as_str().unwrap();
        if i < 6 {
            assert!(label.contains(" (Debug)"));
        } else {
            assert!(label.contains(" (Release)"));
        }
    }
}
