//! Finding the compilation database (`compile_commands.json`).
use crate::files::{file_call, path_join, path_join_spec, FileAnswer, FileCall, LocalFiles, RecordedFiles};
use crate::text::opt_view;
use vstd::prelude::*;

verus! {

/// The file name of a compilation database.
pub const COMPILE_COMMANDS_JSON: &'static str = "compile_commands.json";

/// Where the compilation database of the workspace root would be.
pub open spec fn root_database_path(root_path: Seq<char>) -> Seq<char> {
    path_join_spec(root_path, COMPILE_COMMANDS_JSON@)
}

/// Where the compilation database of `<root>/build` would be.
pub open spec fn build_database_path(root_path: Seq<char>) -> Seq<char> {
    path_join_spec(path_join_spec(root_path, "build"@), COMPILE_COMMANDS_JSON@)
}

/// Which compilation database is used, given which of the two exist: the
/// root one first, then the one in `build/`.
pub open spec fn select_database_spec(root_path: Seq<char>, root_exists: bool, build_exists: bool) -> Option<
    Seq<char>,
> {
    if root_exists {
        Some(root_database_path(root_path))
    } else if build_exists {
        Some(build_database_path(root_path))
    } else {
        None
    }
}

/// The compilation database to use, given whether the root one and the
/// `build/` one exist.
pub fn select_database(root_path: &str, root_exists: bool, build_exists: bool) -> (r: Option<String>)
    ensures
        opt_view(r) == select_database_spec(root_path@, root_exists, build_exists),
{
    if root_exists {
        Some(path_join(root_path, COMPILE_COMMANDS_JSON))
    } else if build_exists {
        let build = path_join(root_path, "build");
        Some(path_join(build.as_str(), COMPILE_COMMANDS_JSON))
    } else {
        None
    }
}

/// The transcript of looking for the database: the root one is asked
/// about; only when it is not there is the `build/` one asked about; the
/// result is `select_database_spec` of the answers.
pub open spec fn compile_database_lookup(
    root_path: Seq<char>,
    before: Seq<FileCall>,
    after: Seq<FileCall>,
    found: Option<Seq<char>>,
) -> bool {
    let n = before.len() as int;
    &&& after.len() > n
    &&& after.take(n) == before
    &&& after[n].path == root_database_path(root_path)
    &&& match after[n].answer {
        FileAnswer::Exists(true) => after.len() == n + 1 && found == select_database_spec(root_path, true, false),
        FileAnswer::Exists(false) => {
            &&& after.len() == n + 2
            &&& after[n + 1].path == build_database_path(root_path)
            &&& after[n + 1].answer matches FileAnswer::Exists(b)
            &&& found == select_database_spec(root_path, false, b)
        },
        _ => false,
    }
}

/// The path of the compilation database: the one in the workspace root if
/// it exists, else the one in `build/` if that exists (which is asked about
/// only when the root has none).
pub fn discover_compile_database<F: LocalFiles>(root_path: &str, files: &mut RecordedFiles<F>) -> (r: Option<String>)
    ensures
        compile_database_lookup(root_path@, old(files).transcript(), final(files).transcript(), opt_view(r)),
{
    let ghost n = old(files).transcript().len() as int;
    let root_db = path_join(root_path, COMPILE_COMMANDS_JSON);
    if files.path_exists(root_db.as_str()) {
        assert(files.transcript().take(n) =~= old(files).transcript());
        return select_database(root_path, true, false);
    }
    let ghost asked = files.transcript();
    let build = path_join(root_path, "build");
    let build_db = path_join(build.as_str(), COMPILE_COMMANDS_JSON);
    let build_exists = files.path_exists(build_db.as_str());
    assert(files.transcript()[n] == asked[n]);
    assert(files.transcript().take(n) =~= old(files).transcript());
    select_database(root_path, false, build_exists)
}

/// Where the workspace's `CMakeLists.txt` would be.
pub open spec fn cmake_lists_path_spec(root_path: Seq<char>) -> Seq<char> {
    path_join_spec(root_path, "CMakeLists.txt"@)
}

/// The path of the workspace's `CMakeLists.txt`.
pub fn cmake_lists_path(root_path: &str) -> (r: String)
    ensures
        r@ == cmake_lists_path_spec(root_path@),
{
    path_join(root_path, "CMakeLists.txt")
}

/// Whether the workspace root holds a `CMakeLists.txt`: the file system's
/// answer for that one path.
pub fn has_cmake_lists<F: LocalFiles>(root_path: &str, files: &mut RecordedFiles<F>) -> (r: bool)
    ensures
        final(files).transcript() == old(files).transcript().push(
            file_call(cmake_lists_path_spec(root_path@), FileAnswer::Exists(r)),
        ),
{
    let path = cmake_lists_path(root_path);
    files.path_exists(path.as_str())
}

} // verus!
