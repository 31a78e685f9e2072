use cpp_toolkit::cmake::compile_db::{discover_compile_database, has_cmake_lists, COMPILE_COMMANDS_JSON};
use cpp_toolkit::error::{ToolkitError, ToolkitResult};
use cpp_toolkit::files::{LocalFiles, RecordedFiles};

/// A file system holding only the listed files.
struct MemoryFiles {
    files: Vec<String>,
}

impl LocalFiles for MemoryFiles {
    fn path_exists(&self, path: &str) -> bool {
        self.files.iter().any(|f| f == path)
    }

    fn is_dir(&self, _path: &str) -> bool {
        false
    }

    fn entry_names(&self, dir: &str) -> ToolkitResult<Vec<String>> {
        Err(ToolkitError::IoMessage(format!("no directory {dir}")))
    }

    fn read_text(&self, path: &str) -> ToolkitResult<String> {
        Err(ToolkitError::IoMessage(format!("no file {path}")))
    }
}

const ROOT: &str = "/tmp/zed-msvc-test";

#[test]
fn finds_compile_commands_in_root() {
    let files = MemoryFiles {
        files: vec![format!("{ROOT}/{COMPILE_COMMANDS_JSON}")],
    };

    let found = discover_compile_database(ROOT, &mut RecordedFiles::new(&files));

    assert_eq!(found, Some(format!("{ROOT}/{COMPILE_COMMANDS_JSON}")));
}

#[test]
fn finds_compile_commands_in_build_subdirectory() {
    let files = MemoryFiles {
        files: vec![format!("{ROOT}/build/{COMPILE_COMMANDS_JSON}")],
    };

    let found = discover_compile_database(ROOT, &mut RecordedFiles::new(&files));

    assert_eq!(found, Some(format!("{ROOT}/build/{COMPILE_COMMANDS_JSON}")));
}

#[test]
fn prefers_root_over_build_directory() {
    let files = MemoryFiles {
        files: vec![
            format!("{ROOT}/build/{COMPILE_COMMANDS_JSON}"),
            format!("{ROOT}/{COMPILE_COMMANDS_JSON}"),
        ],
    };

    let found = discover_compile_database(ROOT, &mut RecordedFiles::new(&files));

    assert_eq!(found, Some(format!("{ROOT}/{COMPILE_COMMANDS_JSON}")));
}

#[test]
fn returns_none_when_compile_commands_missing() {
    let files = MemoryFiles { files: Vec::new() };

    let found = discover_compile_database(ROOT, &mut RecordedFiles::new(&files));
    assert!(found.is_none());
}

#[test]
fn detects_cmake_project() {
    let files = MemoryFiles {
        files: vec![format!("{ROOT}/CMakeLists.txt")],
    };

    assert!(has_cmake_lists(ROOT, &mut RecordedFiles::new(&files)));
}

#[test]
fn returns_false_for_non_cmake_project() {
    let files = MemoryFiles { files: Vec::new() };

    assert!(!has_cmake_lists(ROOT, &mut RecordedFiles::new(&files)));
}
