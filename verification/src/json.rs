//! Rendering task lists as JSON with `serde_json`.
use crate::build::tasks::{ZedTask, ZedTaskView};
use crate::cmake::tasks::{CmakeTask, CmakeTaskView};
use crate::text::{copy_string, copy_strings, owned, strs_view};
use vstd::prelude::*;

verus! {

/// `serde_json::Error`, carried through opaquely.
#[verifier::external_type_specification]
#[verifier::external_body]
pub struct ExJsonError(serde_json::Error);

/// The JSON string `serde_json` makes of a text.
pub uninterp spec fn string_json(text: Seq<char>) -> serde_json::Value;

/// The JSON array of strings `serde_json` makes of a list of texts.
pub uninterp spec fn strings_json(texts: Seq<Seq<char>>) -> serde_json::Value;

/// The JSON object `serde_json` collects from members, in order (a later
/// member replaces an earlier one of the same key).
pub uninterp spec fn object_json(members: Seq<(Seq<char>, serde_json::Value)>) -> serde_json::Value;

/// An environment as a JSON object of strings.
pub open spec fn env_json(env: Seq<(Seq<char>, Seq<char>)>) -> serde_json::Value {
    object_json(env.map_values(|p: (Seq<char>, Seq<char>)| (p.0, string_json(p.1))))
}

/// A Zed task as a JSON object: `label`, `command`, `args`, `env` and
/// `cwd`.
pub open spec fn zed_task_json(task: ZedTaskView) -> serde_json::Value {
    object_json(
        seq![
            ("label"@, string_json(task.label)),
            ("command"@, string_json(task.command)),
            ("args"@, strings_json(task.args)),
            ("env"@, env_json(task.env)),
            ("cwd"@, string_json(task.cwd)),
        ],
    )
}

/// A CMake task as a JSON object: `label`, `command`, `args` and `env`.
pub open spec fn cmake_task_json(task: CmakeTaskView) -> serde_json::Value {
    object_json(
        seq![
            ("label"@, string_json(task.label)),
            ("command"@, string_json(task.command)),
            ("args"@, strings_json(task.args)),
            ("env"@, env_json(task.env)),
        ],
    )
}

/// The text `serde_json::to_string_pretty` gives for an array of values.
pub uninterp spec fn pretty_array_text(values: Seq<serde_json::Value>) -> Seq<char>;

/// The text `serde_json::Value`'s `Display` gives for an array of values.
pub uninterp spec fn compact_array_text(values: Seq<serde_json::Value>) -> Seq<char>;

/// The pretty JSON text of a list of Zed tasks.
pub open spec fn pretty_tasks_json(tasks: Seq<ZedTaskView>) -> Seq<char> {
    pretty_array_text(tasks.map_values(|t: ZedTaskView| zed_task_json(t)))
}

/// The compact JSON text of a list of CMake tasks.
pub open spec fn compact_tasks_json(tasks: Seq<CmakeTaskView>) -> Seq<char> {
    compact_array_text(tasks.map_values(|t: CmakeTaskView| cmake_task_json(t)))
}

/// The model of a list of Zed tasks.
pub open spec fn zed_tasks_view(tasks: Seq<ZedTask>) -> Seq<ZedTaskView> {
    tasks.map_values(|t: ZedTask| t@)
}

/// The model of a list of CMake tasks.
pub open spec fn cmake_tasks_view(tasks: Seq<CmakeTask>) -> Seq<CmakeTaskView> {
    tasks.map_values(|t: CmakeTask| t@)
}

/// `serde_json::Value`, carried through opaquely.
#[verifier::external_type_specification]
#[verifier::external_body]
pub struct ExJsonValue(serde_json::Value);

/// `serde_json::Value::String`: the name `string_json` of the text.
#[verifier::external_body]
fn json_string(text: String) -> (r: serde_json::Value)
    ensures
        r == string_json(text@),
{
    serde_json::Value::String(text)
}

/// `serde_json::Value::from` a list of strings: the name `strings_json` of
/// the texts.
#[verifier::external_body]
fn json_strings(texts: Vec<String>) -> (r: serde_json::Value)
    ensures
        r == strings_json(strs_view(texts@)),
{
    serde_json::Value::from(texts)
}

/// `serde_json::Value::Object` of the members collected into a
/// `serde_json::Map`: the name `object_json` of the members.
#[verifier::external_body]
fn json_object_of(members: Vec<(String, serde_json::Value)>) -> (r: serde_json::Value)
    ensures
        r == object_json(members@.map_values(|m: (String, serde_json::Value)| (m.0@, m.1))),
{
    serde_json::Value::Object(members.into_iter().collect())
}

/// An environment as a JSON object.
fn env_value(env: &Vec<(String, String)>) -> (r: serde_json::Value)
    ensures
        r == env_json(env@.map_values(|p: (String, String)| (p.0@, p.1@))),
{
    let ghost ev = env@.map_values(|p: (String, String)| (p.0@, p.1@));
    let mut members: Vec<(String, serde_json::Value)> = Vec::new();
    let mut i: usize = 0;
    while i < env.len()
        invariant
            ev == env@.map_values(|p: (String, String)| (p.0@, p.1@)),
            i <= env.len(),
            members@.map_values(|m: (String, serde_json::Value)| (m.0@, m.1)) == ev.take(i as int).map_values(
                |p: (Seq<char>, Seq<char>)| (p.0, string_json(p.1)),
            ),
        decreases env.len() - i,
    {
        let key = copy_string(&env[i].0);
        let value = json_string(copy_string(&env[i].1));
        let ghost before = members@;
        members.push((key, value));
        proof {
            assert(ev.take(i + 1) =~= ev.take(i as int).push(ev[i as int]));
            assert(members@ =~= before.push((key, value)));
            assert(members@.map_values(|m: (String, serde_json::Value)| (m.0@, m.1)) =~= before.map_values(
                |m: (String, serde_json::Value)| (m.0@, m.1),
            ).push((key@, value)));
            assert(ev.take(i + 1).map_values(|p: (Seq<char>, Seq<char>)| (p.0, string_json(p.1))) =~= ev.take(
                i as int,
            ).map_values(|p: (Seq<char>, Seq<char>)| (p.0, string_json(p.1))).push((ev[i as int].0, string_json(ev[i as int].1))));
        }
        i = i + 1;
    }
    assert(ev.take(env.len() as int) =~= ev);
    json_object_of(members)
}

/// A Zed task as a JSON object.
fn zed_task_value(t: &ZedTask) -> (r: serde_json::Value)
    ensures
        r == zed_task_json(t@),
{
    let members = vec![
        (owned("label"), json_string(copy_string(&t.label))),
        (owned("command"), json_string(copy_string(&t.command))),
        (owned("args"), json_strings(copy_strings(&t.args))),
        (owned("env"), env_value(&t.env)),
        (owned("cwd"), json_string(copy_string(&t.cwd))),
    ];
    let r = json_object_of(members);
    assert(members@.map_values(|m: (String, serde_json::Value)| (m.0@, m.1)) =~= seq![
        ("label"@, string_json(t@.label)),
        ("command"@, string_json(t@.command)),
        ("args"@, strings_json(t@.args)),
        ("env"@, env_json(t@.env)),
        ("cwd"@, string_json(t@.cwd)),
    ]);
    r
}

/// A CMake task as a JSON object.
fn cmake_task_value(t: &CmakeTask) -> (r: serde_json::Value)
    ensures
        r == cmake_task_json(t@),
{
    let members = vec![
        (owned("label"), json_string(copy_string(&t.label))),
        (owned("command"), json_string(copy_string(&t.command))),
        (owned("args"), json_strings(copy_strings(&t.args))),
        (owned("env"), env_value(&t.env)),
    ];
    let r = json_object_of(members);
    assert(members@.map_values(|m: (String, serde_json::Value)| (m.0@, m.1)) =~= seq![
        ("label"@, string_json(t@.label)),
        ("command"@, string_json(t@.command)),
        ("args"@, strings_json(t@.args)),
        ("env"@, env_json(t@.env)),
    ]);
    r
}

/// `serde_json::to_string_pretty` of an array of values: the name
/// `pretty_array_text` of the values. It succeeds: the serializer fails only
/// when a `Serialize` impl fails or a map key is not a string, and writing
/// into its `Vec<u8>` buffer cannot fail; `Value`'s impl never fails (its map
/// keys are strings, and a non-finite float is written as `null`).
#[verifier::external_body]
fn pretty_array(values: &Vec<serde_json::Value>) -> (r: Result<String, serde_json::Error>)
    ensures
        r is Ok,
        r matches Ok(text) ==> text@ == pretty_array_text(values@),
{
    serde_json::to_string_pretty(values)
}

/// The `Display` text of `serde_json::Value::Array` of the values: the name
/// `compact_array_text` of the values.
#[verifier::external_body]
fn compact_array(values: Vec<serde_json::Value>) -> (r: String)
    ensures
        r@ == compact_array_text(values@),
{
    serde_json::Value::Array(values).to_string()
}

/// The pretty JSON text of a list of Zed tasks.
pub(crate) fn render_zed_tasks(tasks: &Vec<ZedTask>) -> (r: Result<String, serde_json::Error>)
    ensures
        r matches Ok(text) && text@ == pretty_tasks_json(zed_tasks_view(tasks@)),
{
    let mut values: Vec<serde_json::Value> = Vec::new();
    let mut i: usize = 0;
    while i < tasks.len()
        invariant
            i <= tasks.len(),
            values@ == zed_tasks_view(tasks@).take(i as int).map_values(|t: ZedTaskView| zed_task_json(t)),
        decreases tasks.len() - i,
    {
        let v = zed_task_value(&tasks[i]);
        values.push(v);
        assert(values@ =~= zed_tasks_view(tasks@).take(i + 1).map_values(|t: ZedTaskView| zed_task_json(t)));
        i = i + 1;
    }
    assert(zed_tasks_view(tasks@).take(tasks.len() as int) =~= zed_tasks_view(tasks@));
    pretty_array(&values)
}

/// The compact JSON text of a list of CMake tasks.
pub(crate) fn render_cmake_tasks(tasks: &Vec<CmakeTask>) -> (r: String)
    ensures
        r@ == compact_tasks_json(cmake_tasks_view(tasks@)),
{
    let mut values: Vec<serde_json::Value> = Vec::new();
    let mut i: usize = 0;
    while i < tasks.len()
        invariant
            i <= tasks.len(),
            values@ == cmake_tasks_view(tasks@).take(i as int).map_values(|t: CmakeTaskView| cmake_task_json(t)),
        decreases tasks.len() - i,
    {
        let v = cmake_task_value(&tasks[i]);
        values.push(v);
        assert(values@ =~= cmake_tasks_view(tasks@).take(i + 1).map_values(|t: CmakeTaskView| cmake_task_json(t)));
        i = i + 1;
    }
    assert(cmake_tasks_view(tasks@).take(tasks.len() as int) =~= cmake_tasks_view(tasks@));
    compact_array(values)
}

/// The `Display` text of a `serde_json::Error`. Nothing is stated of it.
#[verifier::external_body]
pub(crate) fn json_error_message(error: &serde_json::Error) -> String {
    error.to_string()
}

} // verus!
