//! Rendering the generated `.clangd` file.
use crate::paths::{clangd_include_arg, clangd_include_arg_spec};
use crate::text::{append_str, replace_char, replace_char_exec, chars_of, string_of, strs_view};
use vstd::prelude::*;

verus! {

/// What goes into a generated `.clangd`.
#[derive(Debug, Clone, PartialEq, Eq)]
pub struct ClangdConfigInput {
    /// `CompileFlags.Compiler`; left out when empty.
    pub compiler: String,
    /// `CompileFlags.CompilationDatabase`; left out when empty.
    pub compile_commands_dir: String,
    /// Flags added with `CompileFlags.Add`.
    pub extra_flags: Vec<String>,
    /// The MSVC include directory; its presence selects the `cl` driver mode.
    pub msvc_include: Option<String>,
    /// Windows SDK include directories.
    pub sdk_includes: Vec<String>,
    /// A compilation database that was found; it takes the place of
    /// `compile_commands_dir`.
    pub compile_database_path: Option<String>,
}

pub struct ClangdConfigInputView {
    pub compiler: Seq<char>,
    pub compile_commands_dir: Seq<char>,
    pub extra_flags: Seq<Seq<char>>,
    pub msvc_include: Option<Seq<char>>,
    pub sdk_includes: Seq<Seq<char>>,
    pub compile_database_path: Option<Seq<char>>,
}

impl View for ClangdConfigInput {
    type V = ClangdConfigInputView;

    open spec fn view(&self) -> ClangdConfigInputView {
        ClangdConfigInputView {
            compiler: self.compiler@,
            compile_commands_dir: self.compile_commands_dir@,
            extra_flags: strs_view(self.extra_flags@),
            msvc_include: crate::text::opt_view(self.msvc_include),
            sdk_includes: strs_view(self.sdk_includes@),
            compile_database_path: crate::text::opt_view(self.compile_database_path),
        }
    }
}

/// The first line of every generated `.clangd`; a file without it (or
/// without the marker of the first versions) is the user's own.
pub const GENERATED_MARKER: &'static str = "# Auto-generated by Zed C++ Toolkit.";

/// The marker the first versions wrote.
pub const LEGACY_GENERATED_MARKER: &'static str = "# Auto-generated by Zed MSVC C++ Assistant.";

/// YAML list items, one per line, indented under a key.
pub open spec fn list_items(items: Seq<Seq<char>>) -> Seq<char>
    decreases items.len(),
{
    if items.len() == 0 {
        Seq::empty()
    } else {
        list_items(items.drop_last()) + "    - "@ + items.last() + "\n"@
    }
}

/// The include arguments of include directories.
pub open spec fn include_args(paths: Seq<Seq<char>>) -> Seq<Seq<char>> {
    paths.map_values(|p: Seq<char>| clangd_include_arg_spec(p))
}

/// The header comment.
pub open spec fn header_spec() -> Seq<char> {
    GENERATED_MARKER@ + "\n"@ + "# Edit this file to customize clangd behavior.\n"@
}

/// The note written before `CompileFlags` when a database was found.
pub open spec fn database_note_spec(input: ClangdConfigInputView) -> Seq<char> {
    if input.compile_database_path is Some {
        "# 检测到 compile_commands.json，使用编译数据库。\n"@
    } else {
        Seq::empty()
    }
}

/// The `CompilationDatabase` lines.
pub open spec fn database_lines_spec(input: ClangdConfigInputView) -> Seq<char> {
    match input.compile_database_path {
        Some(p) => "  CompilationDatabase: "@ + replace_char(p, '\\', '/') + "\n"@
            + "  # 编译数据库包含完整 include 路径，以下仅作为备用。\n"@,
        None => if input.compile_commands_dir.len() > 0 {
            "  CompilationDatabase: "@ + input.compile_commands_dir + "\n"@
        } else {
            Seq::empty()
        },
    }
}

/// The `Compiler` line.
pub open spec fn compiler_line_spec(input: ClangdConfigInputView) -> Seq<char> {
    if input.compiler.len() > 0 {
        "  Compiler: "@ + input.compiler + "\n"@
    } else {
        Seq::empty()
    }
}

/// The `DriverMode` line, for MSVC.
pub open spec fn driver_line_spec(input: ClangdConfigInputView) -> Seq<char> {
    if input.msvc_include is Some {
        "  DriverMode: cl\n"@
    } else {
        Seq::empty()
    }
}

/// The flags clangd drivers do not understand, removed from every command.
pub open spec fn remove_lines_spec() -> Seq<char> {
    "  Remove:\n"@ + "    - -fdeps-format=*\n"@ + "    - -fmodules-ts\n"@ + "    - -fmodule-mapper=*\n"@
}

/// The comment written in place of SDK includes that were not found.
pub open spec fn sdk_comment_spec() -> Seq<char> {
    "    # Windows SDK include 未自动探测到；如有需要，请手动添加 /I...\n"@
        + "    # - /IC:/Program Files (x86)/Windows Kits/10/Include/<version>/ucrt\n"@
        + "    # - /IC:/Program Files (x86)/Windows Kits/10/Include/<version>/um\n"@
        + "    # - /IC:/Program Files (x86)/Windows Kits/10/Include/<version>/shared\n"@
}

/// The MSVC and SDK include items.
pub open spec fn msvc_items_spec(input: ClangdConfigInputView) -> Seq<char> {
    match input.msvc_include {
        None => Seq::empty(),
        Some(i) => "    - "@ + clangd_include_arg_spec(i) + "\n"@ + if input.sdk_includes.len() == 0 {
            sdk_comment_spec()
        } else {
            list_items(include_args(input.sdk_includes))
        },
    }
}

/// The `Add` list: the extra flags, then the MSVC includes; left out when
/// there is nothing to add.
pub open spec fn add_section_spec(input: ClangdConfigInputView) -> Seq<char> {
    if input.extra_flags.len() == 0 && input.msvc_include is None {
        Seq::empty()
    } else {
        "  Add:\n"@ + list_items(input.extra_flags) + msvc_items_spec(input)
    }
}

/// The diagnostics section.
pub open spec fn diagnostics_spec() -> Seq<char> {
    "Diagnostics:\n"@ + "  Suppress: ['pp_file_not_found']\n"@
}

/// The whole generated `.clangd`.
pub open spec fn render_spec(input: ClangdConfigInputView) -> Seq<char> {
    header_spec() + database_note_spec(input) + "CompileFlags:\n"@ + database_lines_spec(input)
        + compiler_line_spec(input) + driver_line_spec(input) + remove_lines_spec() + add_section_spec(
        input,
    ) + diagnostics_spec()
}

/// Appends YAML list items.
fn append_list_items(out: &mut String, items: &Vec<String>)
    ensures
        final(out)@ == old(out)@ + list_items(strs_view(items@)),
{
    let ghost items_v = strs_view(items@);
    let mut i: usize = 0;
    assert(items_v.take(0) =~= Seq::<Seq<char>>::empty());
    assert(old(out)@ + Seq::<char>::empty() =~= old(out)@);
    while i < items.len()
        invariant
            items_v == strs_view(items@),
            i <= items.len(),
            out@ == old(out)@ + list_items(items_v.take(i as int)),
        decreases items.len() - i,
    {
        append_str(out, "    - ");
        append_str(out, items[i].as_str());
        append_str(out, "\n");
        proof {
            let t = items_v.take(i + 1);
            assert(t.drop_last() =~= items_v.take(i as int));
            assert(t.last() == items@[i as int]@);
            assert(out@ =~= old(out)@ + list_items(t));
        }
        i = i + 1;
    }
    assert(items_v.take(items.len() as int) =~= items_v);
}

/// The include arguments of include directories.
fn include_arg_list(paths: &Vec<String>) -> (r: Vec<String>)
    ensures
        strs_view(r@) == include_args(strs_view(paths@)),
{
    let mut r: Vec<String> = Vec::new();
    let mut i: usize = 0;
    while i < paths.len()
        invariant
            i <= paths.len(),
            r@.len() == i,
            strs_view(r@) == include_args(strs_view(paths@)).take(i as int),
        decreases paths.len() - i,
    {
        let arg = clangd_include_arg(paths[i].as_str());
        let ghost before = r@;
        r.push(arg);
        proof {
            let want = include_args(strs_view(paths@)).take(i + 1);
            assert(strs_view(before) == include_args(strs_view(paths@)).take(i as int));
            assert forall|j: int| 0 <= j < i + 1 implies #[trigger] strs_view(r@)[j] == want[j] by {
                if j < i {
                    assert(r@[j] == before[j]);
                    assert(strs_view(before)[j] == before[j]@);
                } else {
                    assert(r@[j] == arg);
                    assert(strs_view(paths@)[j] == paths@[j]@);
                }
            }
            assert(strs_view(r@) =~= want);
        }
        i = i + 1;
    }
    assert(include_args(strs_view(paths@)).take(paths.len() as int) =~= include_args(strs_view(paths@)));
    r
}

/// Appends the header, the database note, `CompileFlags:` and the
/// database lines.
fn append_head(out: &mut String, input: &ClangdConfigInput)
    ensures
        final(out)@ == old(out)@ + header_spec() + database_note_spec(input@) + "CompileFlags:\n"@
            + database_lines_spec(input@),
{
    append_str(out, GENERATED_MARKER);
    append_str(out, "\n");
    append_str(out, "# Edit this file to customize clangd behavior.\n");
    assert(out@ =~= old(out)@ + header_spec());
    let ghost after_header = out@;
    if input.compile_database_path.is_some() {
        append_str(out, "# 检测到 compile_commands.json，使用编译数据库。\n");
    }
    assert(out@ =~= after_header + database_note_spec(input@));
    append_str(out, "CompileFlags:\n");
    let ghost after_key = out@;
    match &input.compile_database_path {
        Some(p) => {
            append_str(out, "  CompilationDatabase: ");
            let slashed = string_of(&replace_char_exec(&chars_of(p.as_str()), '\\', '/'));
            append_str(out, slashed.as_str());
            append_str(out, "\n");
            append_str(out, "  # 编译数据库包含完整 include 路径，以下仅作为备用。\n");
        },
        None => {
            if !input.compile_commands_dir.as_str().is_empty() {
                append_str(out, "  CompilationDatabase: ");
                append_str(out, input.compile_commands_dir.as_str());
                append_str(out, "\n");
            }
        },
    }
    assert(out@ =~= after_key + database_lines_spec(input@));
}

/// Appends the compiler, driver mode and removed-flags lines.
fn append_compile_options(out: &mut String, input: &ClangdConfigInput)
    ensures
        final(out)@ == old(out)@ + compiler_line_spec(input@) + driver_line_spec(input@) + remove_lines_spec(),
{
    if !input.compiler.as_str().is_empty() {
        append_str(out, "  Compiler: ");
        append_str(out, input.compiler.as_str());
        append_str(out, "\n");
    }
    assert(out@ =~= old(out)@ + compiler_line_spec(input@));
    let ghost after_compiler = out@;
    if input.msvc_include.is_some() {
        append_str(out, "  DriverMode: cl\n");
    }
    assert(out@ =~= after_compiler + driver_line_spec(input@));
    let ghost after_driver = out@;
    append_str(out, "  Remove:\n");
    append_str(out, "    - -fdeps-format=*\n");
    append_str(out, "    - -fmodules-ts\n");
    append_str(out, "    - -fmodule-mapper=*\n");
    assert(out@ =~= after_driver + remove_lines_spec());
}

/// Appends the MSVC and SDK include items.
fn append_msvc_items(out: &mut String, input: &ClangdConfigInput)
    ensures
        final(out)@ == old(out)@ + msvc_items_spec(input@),
{
    match &input.msvc_include {
        Some(i) => {
            append_str(out, "    - ");
            let arg = clangd_include_arg(i.as_str());
            append_str(out, arg.as_str());
            append_str(out, "\n");
            let ghost after_msvc = out@;
            if input.sdk_includes.len() == 0 {
                append_str(out, "    # Windows SDK include 未自动探测到；如有需要，请手动添加 /I...\n");
                append_str(out, "    # - /IC:/Program Files (x86)/Windows Kits/10/Include/<version>/ucrt\n");
                append_str(out, "    # - /IC:/Program Files (x86)/Windows Kits/10/Include/<version>/um\n");
                append_str(out, "    # - /IC:/Program Files (x86)/Windows Kits/10/Include/<version>/shared\n");
                assert(out@ =~= after_msvc + sdk_comment_spec());
            } else {
                let args = include_arg_list(&input.sdk_includes);
                append_list_items(out, &args);
            }
            assert(out@ =~= old(out)@ + msvc_items_spec(input@));
        },
        None => {
            assert(old(out)@ + msvc_items_spec(input@) =~= old(out)@);
        },
    }
}

/// Renders a `.clangd`: the generated-file marker, the compilation
/// database, the compiler, the `cl` driver mode for MSVC, the flags clangd
/// does not understand, the added flags and includes, and the suppressed
/// diagnostics.
pub fn render_clangd_config(input: &ClangdConfigInput) -> (r: String)
    ensures
        r@ == render_spec(input@),
{
    let mut out = String::new();
    append_head(&mut out, input);
    append_compile_options(&mut out, input);
    let ghost before_add = out@;
    if input.extra_flags.len() > 0 || input.msvc_include.is_some() {
        append_str(&mut out, "  Add:\n");
        append_list_items(&mut out, &input.extra_flags);
        append_msvc_items(&mut out, input);
        assert(out@ =~= before_add + add_section_spec(input@));
    } else {
        assert(before_add + add_section_spec(input@) =~= before_add);
    }
    let ghost after_add = out@;
    append_str(&mut out, "Diagnostics:\n");
    append_str(&mut out, "  Suppress: ['pp_file_not_found']\n");
    assert(out@ =~= after_add + diagnostics_spec());
    assert(out@ =~= render_spec(input@));
    out
}

/// Every generated `.clangd` starts with the marker line, and its
/// `CompileFlags` carry the `Remove` list of the three module flags; with
/// no extra flags and no MSVC include there is no `Add` list: the flags
/// end with `Remove`, followed by the diagnostics.
pub proof fn law_rendered_clangd_shape(input: ClangdConfigInputView)
    ensures
        render_spec(input).take(GENERATED_MARKER@.len() + 1 as int) == GENERATED_MARKER@ + "\n"@,
        exists|before: Seq<char>, after: Seq<char>|
            render_spec(input) == #[trigger] (before + remove_lines_spec() + after) && crate::text::contains(
                before,
                "CompileFlags:\n"@,
            ),
        input.extra_flags.len() == 0 && input.msvc_include is None ==> render_spec(input) == header_spec()
            + database_note_spec(input) + "CompileFlags:\n"@ + database_lines_spec(input) + compiler_line_spec(input)
            + driver_line_spec(input) + remove_lines_spec() + diagnostics_spec(),
{
    reveal_strlit("\n");
    let text = render_spec(input);
    let first = GENERATED_MARKER@ + "\n"@;
    assert(text.take(first.len() as int) =~= first);
    let note = header_spec() + database_note_spec(input);
    let before = note + "CompileFlags:\n"@ + database_lines_spec(input) + compiler_line_spec(input) + driver_line_spec(
        input,
    );
    let after = add_section_spec(input) + diagnostics_spec();
    assert(text =~= before + remove_lines_spec() + after);
    assert(before.subrange(note.len() as int, note.len() + "CompileFlags:\n"@.len() as int) =~= "CompileFlags:\n"@);
    assert(crate::text::occurs_at(before, "CompileFlags:\n"@, note.len() as int));
    if input.extra_flags.len() == 0 && input.msvc_include is None {
        assert(text =~= before + remove_lines_spec() + diagnostics_spec());
    }
}

} // verus!
