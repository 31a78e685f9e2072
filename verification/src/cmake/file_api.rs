//! CMake file-api replies: which targets a configured build directory has.
//!
//! The reply files are JSON; they are read into the plain types below, which
//! keep exactly the fields target discovery looks at.
use crate::cmake::targets::{
    dedupe_cmake_targets, is_dedupe_of, is_user_buildable_cmake_target_name, is_user_buildable_spec,
    text_lt, text_lt_exec, lemma_text_lt_trans, lemma_text_lt_irreflexive, lemma_text_lt_total,
};
use crate::cmake::tasks::{targets_view, CmakeTarget, CmakeTargetView};
use crate::environment::tools::string_result_view;
use crate::error::{copy_error, ToolkitErrorView, ToolkitResult};
use crate::files::{file_call, path_join, path_join_spec, FileAnswer, FileCall, LocalFiles, RecordedFiles};
use crate::json_model::{
    bool_of, field_in, field_of, items_of, json_bool, json_field, json_field_in, json_items, json_model_of,
    json_str, parse_json, str_of, JsonModel,
};
use crate::text::{
    ascii_lower_exec, ascii_lower_seq, chars_of, copy_string, ends_with, has_prefix,
    has_suffix, opt_view, starts_with, str_eq, string_of, strs_view, trim_ws, trim_ws_exec,
};
use vstd::prelude::*;

verus! {

// ---------------------------------------------------------------------------
// Reply types
// ---------------------------------------------------------------------------

/// One entry of the `objects` list of an index file.
#[derive(Debug, Clone, PartialEq, Eq)]
pub struct FileApiObject {
    /// `kind`, when it is a string.
    pub kind: Option<String>,
    /// `jsonFile`, when it is a string.
    pub json_file: Option<String>,
}

/// An index file (`reply/index-*.json`).
#[derive(Debug, Clone, PartialEq, Eq)]
pub struct FileApiIndex {
    /// `reply."codemodel-v2".jsonFile`, when it is a string.
    pub codemodel_v2_json_file: Option<String>,
    /// `objects`, empty when it is not an array.
    pub objects: Vec<FileApiObject>,
}

/// A codemodel file: for each configuration, the `jsonFile` of each of its
/// targets (`None` where it is not a string).
#[derive(Debug, Clone, PartialEq, Eq)]
pub struct FileApiCodemodel {
    pub configurations: Vec<Vec<Option<String>>>,
}

/// A target file.
#[derive(Debug, Clone, PartialEq, Eq)]
pub struct FileApiTarget {
    /// `imported`; false unless it is the boolean `true`.
    pub imported: bool,
    /// `name`, when it is a string.
    pub name: Option<String>,
    /// `type`, when it is a string.
    pub target_type: Option<String>,
    /// `artifacts`, when it is an array: the `path` of each artifact, when
    /// it is a string.
    pub artifacts: Option<Vec<Option<String>>>,
}

pub struct FileApiObjectView {
    pub kind: Option<Seq<char>>,
    pub json_file: Option<Seq<char>>,
}

pub struct FileApiIndexView {
    pub codemodel_v2_json_file: Option<Seq<char>>,
    pub objects: Seq<FileApiObjectView>,
}

pub struct FileApiTargetView {
    pub imported: bool,
    pub name: Option<Seq<char>>,
    pub target_type: Option<Seq<char>>,
    pub artifacts: Option<Seq<Option<Seq<char>>>>,
}

/// The model of a list of optional strings.
pub open spec fn opt_strs(v: Seq<Option<String>>) -> Seq<Option<Seq<char>>> {
    v.map_values(|s: Option<String>| opt_view(s))
}

impl View for FileApiObject {
    type V = FileApiObjectView;

    open spec fn view(&self) -> FileApiObjectView {
        FileApiObjectView { kind: opt_view(self.kind), json_file: opt_view(self.json_file) }
    }
}

impl View for FileApiIndex {
    type V = FileApiIndexView;

    open spec fn view(&self) -> FileApiIndexView {
        FileApiIndexView {
            codemodel_v2_json_file: opt_view(self.codemodel_v2_json_file),
            objects: self.objects@.map_values(|o: FileApiObject| o@),
        }
    }
}

impl View for FileApiCodemodel {
    type V = Seq<Seq<Option<Seq<char>>>>;

    open spec fn view(&self) -> Seq<Seq<Option<Seq<char>>>> {
        self.configurations@.map_values(|c: Vec<Option<String>>| opt_strs(c@))
    }
}

impl View for FileApiTarget {
    type V = FileApiTargetView;

    open spec fn view(&self) -> FileApiTargetView {
        FileApiTargetView {
            imported: self.imported,
            name: opt_view(self.name),
            target_type: opt_view(self.target_type),
            artifacts: match self.artifacts {
                Some(a) => Some(opt_strs(a@)),
                None => None,
            },
        }
    }
}

/// The model of a list of target files.
pub open spec fn file_api_targets_view(v: Seq<FileApiTarget>) -> Seq<FileApiTargetView> {
    v.map_values(|t: FileApiTarget| t@)
}

// ---------------------------------------------------------------------------
// Reading reply files
// ---------------------------------------------------------------------------

/// An entry of `objects`: its `kind` and `jsonFile` where they are strings.
pub open spec fn object_view_of(object: JsonModel) -> FileApiObjectView {
    FileApiObjectView { kind: str_of(field_of(object, "kind"@)), json_file: str_of(field_of(object, "jsonFile"@)) }
}

/// The index a JSON document describes: `reply."codemodel-v2".jsonFile`
/// where it is a string, and the entries of `objects` where it is an array.
pub open spec fn index_of_model(document: JsonModel) -> FileApiIndexView {
    FileApiIndexView {
        codemodel_v2_json_file: str_of(
            field_in(field_in(field_of(document, "reply"@), "codemodel-v2"@), "jsonFile"@),
        ),
        objects: match items_of(field_of(document, "objects"@)) {
            Some(items) => items.map_values(|o: JsonModel| object_view_of(o)),
            None => seq![],
        },
    }
}

/// The string member `key` of each item.
pub open spec fn string_members(items: Seq<JsonModel>, key: Seq<char>) -> Seq<Option<Seq<char>>> {
    items.map_values(|item: JsonModel| str_of(field_of(item, key)))
}

/// The target files of one configuration: the `jsonFile` of each of its
/// `targets` (none when `targets` is not an array).
pub open spec fn configuration_files_of(configuration: JsonModel) -> Seq<Option<Seq<char>>> {
    match items_of(field_of(configuration, "targets"@)) {
        Some(targets) => string_members(targets, "jsonFile"@),
        None => seq![],
    }
}

/// The codemodel a JSON document describes: the target files of each of
/// its `configurations` (none when that is not an array).
pub open spec fn codemodel_of_model(document: JsonModel) -> Seq<Seq<Option<Seq<char>>>> {
    match items_of(field_of(document, "configurations"@)) {
        Some(configurations) => configurations.map_values(|c: JsonModel| configuration_files_of(c)),
        None => seq![],
    }
}

/// The target a JSON document describes: `imported` only when it is
/// `true`, `name` and `type` where they are strings, and the `path` of each
/// artifact when `artifacts` is an array.
pub open spec fn target_of_model(document: JsonModel) -> FileApiTargetView {
    FileApiTargetView {
        imported: bool_of(field_of(document, "imported"@)) == Some(true),
        name: str_of(field_of(document, "name"@)),
        target_type: str_of(field_of(document, "type"@)),
        artifacts: match items_of(field_of(document, "artifacts"@)) {
            Some(artifacts) => Some(string_members(artifacts, "path"@)),
            None => None,
        },
    }
}

/// The string member `key` of each item.
fn string_members_exec(items: &Vec<JsonModel>, key: &str) -> (r: Vec<Option<String>>)
    ensures
        opt_strs(r@) == string_members(items@, key@),
{
    let mut r: Vec<Option<String>> = Vec::new();
    let mut i: usize = 0;
    while i < items.len()
        invariant
            i <= items.len(),
            opt_strs(r@) == string_members(items@.take(i as int), key@),
        decreases items.len() - i,
    {
        let v = json_str(json_field(&items[i], key));
        let ghost before = r@;
        r.push(v);
        assert(opt_strs(r@) =~= string_members(items@.take(i + 1), key@)) by {
            assert(items@.take(i + 1) =~= items@.take(i as int).push(items@[i as int]));
            assert(opt_strs(r@) =~= opt_strs(before).push(opt_view(v)));
        }
        i = i + 1;
    }
    assert(items@.take(items.len() as int) =~= items@);
    r
}

/// The index described by a JSON document.
pub fn file_api_index_from_model(document: &JsonModel) -> (r: FileApiIndex)
    ensures
        r@ == index_of_model(*document),
{
    let codemodel_v2_json_file = json_str(
        json_field_in(json_field_in(json_field(document, "reply"), "codemodel-v2"), "jsonFile"),
    );
    let mut objects: Vec<FileApiObject> = Vec::new();
    match json_items(json_field(document, "objects")) {
        Some(items) => {
            let mut i: usize = 0;
            while i < items.len()
                invariant
                    i <= items.len(),
                    objects@.map_values(|o: FileApiObject| o@) == items@.take(i as int).map_values(
                        |o: JsonModel| object_view_of(o),
                    ),
                decreases items.len() - i,
            {
                let kind_field = json_field(&items[i], "kind");
                let file_field = json_field(&items[i], "jsonFile");
                assert(crate::json_model::deref_opt(kind_field) == field_of(items@[i as int], "kind"@));
                assert(crate::json_model::deref_opt(file_field) == field_of(items@[i as int], "jsonFile"@));
                let object = FileApiObject { kind: json_str(kind_field), json_file: json_str(file_field) };
                let ghost before = objects@;
                objects.push(object);
                assert(objects@.map_values(|o: FileApiObject| o@) =~= items@.take(i + 1).map_values(
                    |o: JsonModel| object_view_of(o),
                )) by {
                    assert(items@.take(i + 1) =~= items@.take(i as int).push(items@[i as int]));
                    assert(objects@ =~= before.push(object));
                    assert(object@ == object_view_of(items@[i as int]));
                    assert(objects@.map_values(|o: FileApiObject| o@) =~= before.map_values(|o: FileApiObject| o@).push(
                        object@,
                    ));
                    assert(items@.take(i + 1).map_values(|o: JsonModel| object_view_of(o)) =~= items@.take(
                        i as int,
                    ).map_values(|o: JsonModel| object_view_of(o)).push(object_view_of(items@[i as int])));
                }
                i = i + 1;
            }
            assert(items@.take(items.len() as int) =~= items@);
        },
        None => {
            assert(objects@.map_values(|o: FileApiObject| o@) =~= seq![]);
        },
    }
    FileApiIndex { codemodel_v2_json_file, objects }
}

/// The codemodel described by a JSON document.
pub fn file_api_codemodel_from_model(document: &JsonModel) -> (r: FileApiCodemodel)
    ensures
        r@ == codemodel_of_model(*document),
{
    let mut configurations: Vec<Vec<Option<String>>> = Vec::new();
    match json_items(json_field(document, "configurations")) {
        Some(items) => {
            let mut i: usize = 0;
            while i < items.len()
                invariant
                    i <= items.len(),
                    configurations@.map_values(|c: Vec<Option<String>>| opt_strs(c@)) == items@.take(
                        i as int,
                    ).map_values(|c: JsonModel| configuration_files_of(c)),
                decreases items.len() - i,
            {
                let targets_field = json_field(&items[i], "targets");
                assert(crate::json_model::deref_opt(targets_field) == field_of(items@[i as int], "targets"@));
                let files = match json_items(targets_field) {
                    Some(targets) => string_members_exec(targets, "jsonFile"),
                    None => {
                        let empty: Vec<Option<String>> = Vec::new();
                        assert(opt_strs(empty@) =~= seq![]);
                        empty
                    },
                };
                let ghost before = configurations@;
                configurations.push(files);
                assert(configurations@.map_values(|c: Vec<Option<String>>| opt_strs(c@)) =~= items@.take(
                    i + 1,
                ).map_values(|c: JsonModel| configuration_files_of(c))) by {
                    assert(items@.take(i + 1) =~= items@.take(i as int).push(items@[i as int]));
                    assert(configurations@ =~= before.push(files));
                    assert(opt_strs(files@) == configuration_files_of(items@[i as int]));
                    assert(configurations@.map_values(|c: Vec<Option<String>>| opt_strs(c@)) =~= before.map_values(
                        |c: Vec<Option<String>>| opt_strs(c@),
                    ).push(opt_strs(files@)));
                    assert(items@.take(i + 1).map_values(|c: JsonModel| configuration_files_of(c)) =~= items@.take(
                        i as int,
                    ).map_values(|c: JsonModel| configuration_files_of(c)).push(
                        configuration_files_of(items@[i as int]),
                    ));
                }
                i = i + 1;
            }
            assert(items@.take(items.len() as int) =~= items@);
        },
        None => {
            assert(configurations@.map_values(|c: Vec<Option<String>>| opt_strs(c@)) =~= seq![]);
        },
    }
    FileApiCodemodel { configurations }
}

/// The target described by a JSON document.
pub fn file_api_target_from_model(document: &JsonModel) -> (r: FileApiTarget)
    ensures
        r@ == target_of_model(*document),
{
    let imported = match json_bool(json_field(document, "imported")) {
        Some(b) => b,
        None => false,
    };
    let artifacts = match json_items(json_field(document, "artifacts")) {
        Some(items) => Some(string_members_exec(items, "path")),
        None => None,
    };
    FileApiTarget {
        imported,
        name: json_str(json_field(document, "name")),
        target_type: json_str(json_field(document, "type")),
        artifacts,
    }
}

/// The index in a reply file's text; text that is not JSON is an
/// `IoMessage`.
pub fn file_api_index_from_text(text: &str) -> (r: ToolkitResult<FileApiIndex>)
    ensures
        r is Ok <==> json_model_of(text@) is Some,
        r matches Ok(index) ==> index@ == index_of_model(json_model_of(text@)->0),
        r matches Err(e) ==> e is IoMessage,
{
    let document = parse_json(text)?;
    Ok(file_api_index_from_model(&document))
}

/// The codemodel in a reply file's text; text that is not JSON is an
/// `IoMessage`.
pub fn file_api_codemodel_from_text(text: &str) -> (r: ToolkitResult<FileApiCodemodel>)
    ensures
        r is Ok <==> json_model_of(text@) is Some,
        r matches Ok(codemodel) ==> codemodel@ == codemodel_of_model(json_model_of(text@)->0),
        r matches Err(e) ==> e is IoMessage,
{
    let document = parse_json(text)?;
    Ok(file_api_codemodel_from_model(&document))
}

/// The target in a reply file's text; text that is not JSON is an
/// `IoMessage`.
pub fn file_api_target_from_text(text: &str) -> (r: ToolkitResult<FileApiTarget>)
    ensures
        r is Ok <==> json_model_of(text@) is Some,
        r matches Ok(target) ==> target@ == target_of_model(json_model_of(text@)->0),
        r matches Err(e) ==> e is IoMessage,
{
    let document = parse_json(text)?;
    Ok(file_api_target_from_model(&document))
}

// ---------------------------------------------------------------------------
// Index selection
// ---------------------------------------------------------------------------

/// A file name of the form `index-*.json`.
pub open spec fn is_index_file_name(name: Seq<char>) -> bool {
    starts_with(name, "index-"@) && ends_with(name, ".json"@)
}

/// `name` is the greatest index file name among `names`.
pub open spec fn is_latest_index(names: Seq<Seq<char>>, name: Seq<char>) -> bool {
    &&& names.contains(name)
    &&& is_index_file_name(name)
    &&& forall|i: int| 0 <= i < names.len() && is_index_file_name(#[trigger] names[i]) ==> !text_lt(name, names[i])
}

/// Whether a file name is that of an index file.
pub fn is_index_file_name_exec(name: &str) -> (r: bool)
    ensures
        r == is_index_file_name(name@),
{
    let v = chars_of(name);
    has_prefix(&v, &chars_of("index-")) && has_suffix(&v, &chars_of(".json"))
}

/// The newest index file among the entries of a reply directory: the
/// greatest `index-*.json` name in text order, which for CMake's
/// timestamped names is the latest.
pub fn latest_cmake_file_api_index(names: &Vec<String>) -> (r: Option<String>)
    ensures
        match r {
            Some(n) => is_latest_index(names@.map_values(|s: String| s@), n@),
            None => forall|i: int| 0 <= i < names.len() ==> !is_index_file_name(#[trigger] names@[i]@),
        },
{
    let ghost ns = names@.map_values(|s: String| s@);
    let mut best: Option<String> = None;
    let mut i: usize = 0;
    while i < names.len()
        invariant
            ns == names@.map_values(|s: String| s@),
            i <= names.len(),
            match best {
                Some(b) => is_latest_index(ns.take(i as int), b@),
                None => forall|j: int| 0 <= j < i ==> !is_index_file_name(#[trigger] names@[j]@),
            },
        decreases names.len() - i,
    {
        let ghost prefix = ns.take(i as int);
        let ghost next = ns.take(i + 1);
        let ghost gb = opt_view(best);
        assert(next =~= prefix.push(ns[i as int]));
        assert(ns[i as int] == names@[i as int]@);
        let name = &names[i];
        if is_index_file_name_exec(name.as_str()) {
            let replace = match &best {
                None => true,
                Some(b) => text_lt_exec(b.as_str(), name.as_str()),
            };
            if replace {
                proof {
                    assert(next[i as int] == name@);
                    assert(next.contains(name@));
                    assert forall|j: int| 0 <= j < next.len() && is_index_file_name(#[trigger] next[j]) implies !text_lt(
                        name@,
                        next[j],
                    ) by {
                        if j == i {
                            lemma_text_lt_irreflexive(name@);
                        } else {
                            assert(next[j] == prefix[j]);
                            match gb {
                                Some(b) => {
                                    assert(!text_lt(b, prefix[j]));
                                    if text_lt(name@, prefix[j]) {
                                        lemma_text_lt_trans(b, name@, prefix[j]);
                                    }
                                },
                                None => {
                                    assert(names@[j]@ == prefix[j]);
                                },
                            }
                        }
                    }
                }
                best = Some(copy_string(name));
            } else {
                proof {
                    match gb {
                        Some(b) => {
                            let k = choose|k: int| 0 <= k < prefix.len() && prefix[k] == b;
                            assert(next[k] == b);
                            assert(next.contains(b));
                            lemma_text_lt_total(b, name@);
                            assert forall|j: int| 0 <= j < next.len() && is_index_file_name(#[trigger] next[j]) implies !text_lt(
                                b,
                                next[j],
                            ) by {
                                if j != i {
                                    assert(next[j] == prefix[j]);
                                }
                            }
                        },
                        None => {},
                    }
                }
            }
        } else {
            proof {
                match gb {
                    Some(b) => {
                        let k = choose|k: int| 0 <= k < prefix.len() && prefix[k] == b;
                        assert(next[k] == b);
                        assert forall|j: int| 0 <= j < next.len() && is_index_file_name(#[trigger] next[j]) implies !text_lt(
                            b,
                            next[j],
                        ) by {
                            if j < i {
                                assert(next[j] == prefix[j]);
                            }
                        }
                    },
                    None => {},
                }
            }
        }
        i = i + 1;
    }
    assert(ns.take(names.len() as int) =~= ns);
    best
}

// ---------------------------------------------------------------------------
// Codemodel file
// ---------------------------------------------------------------------------

/// The first object of kind `codemodel`.
pub open spec fn first_codemodel_object(objects: Seq<FileApiObjectView>) -> Option<FileApiObjectView>
    decreases objects.len(),
{
    if objects.len() == 0 {
        None
    } else if objects[0].kind == Some("codemodel"@) {
        Some(objects[0])
    } else {
        first_codemodel_object(objects.drop_first())
    }
}

/// The codemodel file an index names: `reply."codemodel-v2".jsonFile`, or
/// else the `jsonFile` of the first object of kind `codemodel`.
pub open spec fn codemodel_file_spec(index: FileApiIndexView) -> Option<Seq<char>> {
    match index.codemodel_v2_json_file {
        Some(f) => Some(f),
        None => match first_codemodel_object(index.objects) {
            Some(o) => o.json_file,
            None => None,
        },
    }
}

/// The codemodel file an index names.
pub fn cmake_codemodel_file_name(index: &FileApiIndex) -> (r: Option<String>)
    ensures
        opt_view(r) == codemodel_file_spec(index@),
{
    match &index.codemodel_v2_json_file {
        Some(f) => return Some(copy_string(f)),
        None => {},
    }
    let ghost objs = index@.objects;
    let mut i: usize = 0;
    assert(objs.skip(0) =~= objs);
    while i < index.objects.len()
        invariant
            objs == index@.objects,
            index.codemodel_v2_json_file is None,
            i <= index.objects.len(),
            first_codemodel_object(objs) == first_codemodel_object(objs.skip(i as int)),
        decreases index.objects.len() - i,
    {
        let object = &index.objects[i];
        assert(objs.skip(i as int)[0] == object@);
        let is_codemodel = match &object.kind {
            Some(k) => str_eq(k.as_str(), "codemodel"),
            None => false,
        };
        proof {
            reveal_strlit("codemodel");
        }
        if is_codemodel {
            return crate::text::copy_opt(&object.json_file);
        }
        assert(objs.skip(i as int).drop_first() =~= objs.skip(i + 1));
        i = i + 1;
    }
    None
}

/// The strings that are present, in order.
pub open spec fn present(v: Seq<Option<Seq<char>>>) -> Seq<Seq<char>>
    decreases v.len(),
{
    if v.len() == 0 {
        seq![]
    } else {
        match v.last() {
            Some(s) => present(v.drop_last()).push(s),
            None => present(v.drop_last()),
        }
    }
}

// ---------------------------------------------------------------------------
// Targets
// ---------------------------------------------------------------------------

/// Whether an artifact looks like an executable: it ends in `.exe`, or in
/// none of `.pdb`, `.ilk`, `.dll`, `.lib`, `.a`, `.so` and `.dylib`
/// (ignoring ASCII case).
pub open spec fn executable_artifact_spec(path: Seq<char>) -> bool {
    let lower = ascii_lower_seq(path);
    ||| ends_with(lower, ".exe"@)
    ||| (!ends_with(lower, ".pdb"@) && !ends_with(lower, ".ilk"@) && !ends_with(lower, ".dll"@)
        && !ends_with(lower, ".lib"@) && !ends_with(lower, ".a"@) && !ends_with(lower, ".so"@)
        && !ends_with(lower, ".dylib"@))
}

/// Whether an artifact path looks like an executable.
pub fn executable_artifact_path(path: &str) -> (r: bool)
    ensures
        r == executable_artifact_spec(path@),
{
    let lower = ascii_lower_exec(&chars_of(path));
    has_suffix(&lower, &chars_of(".exe")) || (!has_suffix(&lower, &chars_of(".pdb")) && !has_suffix(
        &lower,
        &chars_of(".ilk"),
    ) && !has_suffix(&lower, &chars_of(".dll")) && !has_suffix(&lower, &chars_of(".lib"))
        && !has_suffix(&lower, &chars_of(".a")) && !has_suffix(&lower, &chars_of(".so"))
        && !has_suffix(&lower, &chars_of(".dylib")))
}

/// The first path that suits: any path for a library, an executable-looking
/// one for an executable.
pub open spec fn first_suitable(paths: Seq<Seq<char>>, executable: bool) -> Option<Seq<char>>
    decreases paths.len(),
{
    if paths.len() == 0 {
        None
    } else if !executable || executable_artifact_spec(paths[0]) {
        Some(paths[0])
    } else {
        first_suitable(paths.drop_first(), executable)
    }
}

/// The main artifact of a target: the first suitable artifact path, or else
/// the first path; none when there is no artifact list.
pub open spec fn primary_artifact_spec(artifacts: Option<Seq<Option<Seq<char>>>>, executable: bool) -> Option<
    Seq<char>,
> {
    match artifacts {
        None => None,
        Some(a) => {
            let paths = present(a);
            match first_suitable(paths, executable) {
                Some(p) => Some(p),
                None => if paths.len() > 0 {
                    Some(paths[0])
                } else {
                    None
                },
            }
        },
    }
}

/// The present strings of a list, in order.
fn present_strings(v: &Vec<Option<String>>) -> (r: Vec<String>)
    ensures
        r@.map_values(|s: String| s@) == present(opt_strs(v@)),
{
    let ghost vs = opt_strs(v@);
    let mut r: Vec<String> = Vec::new();
    let mut i: usize = 0;
    while i < v.len()
        invariant
            vs == opt_strs(v@),
            i <= v.len(),
            r@.map_values(|s: String| s@) == present(vs.take(i as int)),
        decreases v.len() - i,
    {
        assert(vs.take(i + 1).drop_last() =~= vs.take(i as int));
        assert(vs.take(i + 1).last() == opt_view(v@[i as int]));
        match &v[i] {
            Some(s) => {
                let ghost before = r@;
                r.push(copy_string(s));
                assert(r@.map_values(|s: String| s@) =~= before.map_values(|s: String| s@).push(s@));
            },
            None => {},
        }
        i = i + 1;
    }
    assert(vs.take(v.len() as int) =~= vs);
    r
}

/// The main artifact of a target.
pub fn file_api_primary_artifact(artifacts: &Option<Vec<Option<String>>>, executable: bool) -> (r: Option<String>)
    ensures
        opt_view(r) == primary_artifact_spec(
            match *artifacts {
                Some(a) => Some(opt_strs(a@)),
                None => None,
            },
            executable,
        ),
{
    let a = match artifacts {
        Some(a) => a,
        None => return None,
    };
    let paths = present_strings(a);
    let ghost ps = paths@.map_values(|s: String| s@);
    let mut i: usize = 0;
    assert(ps.skip(0) =~= ps);
    while i < paths.len()
        invariant
            ps == paths@.map_values(|s: String| s@),
            ps == present(opt_strs(a@)),
            *artifacts == Some(*a),
            i <= paths.len(),
            first_suitable(ps, executable) == first_suitable(ps.skip(i as int), executable),
        decreases paths.len() - i,
    {
        assert(ps.skip(i as int)[0] == paths@[i as int]@);
        if !executable || executable_artifact_path(paths[i].as_str()) {
            return Some(copy_string(&paths[i]));
        }
        assert(ps.skip(i as int).drop_first() =~= ps.skip(i + 1));
        i = i + 1;
    }
    if paths.len() > 0 {
        assert(ps[0] == paths@[0]@);
        Some(copy_string(&paths[0]))
    } else {
        None
    }
}

/// The kinds of library target.
pub open spec fn is_library_type(t: Seq<char>) -> bool {
    t == "STATIC_LIBRARY"@ || t == "SHARED_LIBRARY"@ || t == "MODULE_LIBRARY"@ || t == "OBJECT_LIBRARY"@
}

/// The target a file-api target file describes: none for an imported
/// target, one without a name or type, one whose trimmed name is not user
/// buildable, or one that is neither an executable nor a library.
pub open spec fn file_api_target_spec(t: FileApiTargetView) -> Option<CmakeTargetView> {
    if t.imported {
        None
    } else {
        match t.name {
            None => None,
            Some(raw) => {
                let name = trim_ws(raw);
                if !is_user_buildable_spec(name) {
                    None
                } else {
                    match t.target_type {
                        None => None,
                        Some(ty) => if ty == "EXECUTABLE"@ {
                            Some(
                                CmakeTargetView {
                                    name: name,
                                    output: primary_artifact_spec(t.artifacts, true),
                                    executable: true,
                                },
                            )
                        } else if is_library_type(ty) {
                            Some(
                                CmakeTargetView {
                                    name: name,
                                    output: primary_artifact_spec(t.artifacts, false),
                                    executable: false,
                                },
                            )
                        } else {
                            None
                        },
                    }
                }
            },
        }
    }
}

/// The target a file-api target file describes, if it is one to build.
pub fn cmake_target_from_file_api(target: &FileApiTarget) -> (r: Option<CmakeTarget>)
    ensures
        match r {
            Some(t) => file_api_target_spec(target@) == Some(t@),
            None => file_api_target_spec(target@) is None,
        },
{
    if target.imported {
        return None;
    }
    let raw = match &target.name {
        Some(n) => n,
        None => return None,
    };
    let name = string_of(&trim_ws_exec(&chars_of(raw.as_str())));
    if !is_user_buildable_cmake_target_name(name.as_str()) {
        return None;
    }
    let ty = match &target.target_type {
        Some(t) => t,
        None => return None,
    };
    proof {
        reveal_strlit("EXECUTABLE");
        reveal_strlit("STATIC_LIBRARY");
        reveal_strlit("SHARED_LIBRARY");
        reveal_strlit("MODULE_LIBRARY");
        reveal_strlit("OBJECT_LIBRARY");
    }
    let executable = if str_eq(ty.as_str(), "EXECUTABLE") {
        true
    } else if str_eq(ty.as_str(), "STATIC_LIBRARY") || str_eq(ty.as_str(), "SHARED_LIBRARY") || str_eq(
        ty.as_str(),
        "MODULE_LIBRARY",
    ) || str_eq(ty.as_str(), "OBJECT_LIBRARY") {
        false
    } else {
        return None;
    };
    let output = file_api_primary_artifact(&target.artifacts, executable);
    Some(CmakeTarget { name, output, executable })
}

/// The targets the target files describe, in order.
pub open spec fn file_api_targets_spec(targets: Seq<FileApiTargetView>) -> Seq<CmakeTargetView>
    decreases targets.len(),
{
    if targets.len() == 0 {
        seq![]
    } else {
        let rest = file_api_targets_spec(targets.drop_last());
        match file_api_target_spec(targets.last()) {
            Some(t) => rest.push(t),
            None => rest,
        }
    }
}

/// Every target taken from file-api target files is one to offer: not
/// imported, with a user buildable name.
pub proof fn law_file_api_targets_are_offered(targets: Seq<FileApiTargetView>, i: int)
    requires
        0 <= i < file_api_targets_spec(targets).len(),
    ensures
        is_user_buildable_spec(file_api_targets_spec(targets)[i].name),
    decreases targets.len(),
{
    let rest = file_api_targets_spec(targets.drop_last());
    if i < rest.len() {
        law_file_api_targets_are_offered(targets.drop_last(), i);
        match file_api_target_spec(targets.last()) {
            Some(t) => assert(file_api_targets_spec(targets)[i] == rest[i]),
            None => {},
        }
    }
}

/// Every target discovered from file-api replies is one to offer.
pub proof fn law_discovered_file_api_targets_are_offered(out: Seq<CmakeTargetView>, read: Seq<FileApiTargetView>, i: int)
    requires
        is_dedupe_of(out, file_api_targets_spec(read)),
        0 <= i < out.len(),
    ensures
        is_user_buildable_spec(out[i].name),
{
    let input = file_api_targets_spec(read);
    crate::cmake::targets::lemma_dedupe_members(out, input, i);
    let k = choose|k: int| 0 <= k < input.len() && input[k] == out[i];
    law_file_api_targets_are_offered(read, k);
}

/// The targets to build among the target files read, deduplicated.
pub fn collect_file_api_targets(targets: &Vec<FileApiTarget>) -> (r: Vec<CmakeTarget>)
    ensures
        is_dedupe_of(targets_view(r@), file_api_targets_spec(file_api_targets_view(targets@))),
{
    let ghost tv = file_api_targets_view(targets@);
    let mut found: Vec<CmakeTarget> = Vec::new();
    let mut i: usize = 0;
    assert(targets_view(found@) =~= seq![]);
    while i < targets.len()
        invariant
            tv == file_api_targets_view(targets@),
            i <= targets.len(),
            targets_view(found@) == file_api_targets_spec(tv.take(i as int)),
        decreases targets.len() - i,
    {
        assert(tv.take(i + 1).drop_last() =~= tv.take(i as int));
        assert(tv.take(i + 1).last() == targets@[i as int]@);
        match cmake_target_from_file_api(&targets[i]) {
            Some(t) => {
                let ghost before = targets_view(found@);
                found.push(t);
                assert(targets_view(found@) =~= before.push(t@));
            },
            None => {},
        }
        i = i + 1;
    }
    assert(tv.take(targets.len() as int) =~= tv);
    dedupe_cmake_targets(found)
}

// ---------------------------------------------------------------------------
// Discovery
// ---------------------------------------------------------------------------

/// The target files a codemodel lists: those of each configuration, in
/// order.
pub open spec fn target_files_of(codemodel: Seq<Seq<Option<Seq<char>>>>) -> Seq<Seq<char>>
    decreases codemodel.len(),
{
    if codemodel.len() == 0 {
        seq![]
    } else {
        target_files_of(codemodel.drop_last()) + present(codemodel.last())
    }
}

/// The target files a codemodel lists, in order.
pub fn codemodel_target_files(codemodel: &FileApiCodemodel) -> (r: Vec<String>)
    ensures
        strs_view(r@) == target_files_of(codemodel@),
{
    let ghost cm = codemodel@;
    let mut files: Vec<String> = Vec::new();
    let mut c: usize = 0;
    assert(cm.take(0) =~= Seq::<Seq<Option<Seq<char>>>>::empty());
    while c < codemodel.configurations.len()
        invariant
            cm == codemodel@,
            c <= codemodel.configurations.len(),
            strs_view(files@) == target_files_of(cm.take(c as int)),
        decreases codemodel.configurations.len() - c,
    {
        let configuration = &codemodel.configurations[c];
        let ghost cv = cm[c as int];
        assert(cv == opt_strs(configuration@));
        let ghost start = strs_view(files@);
        let mut t: usize = 0;
        assert(cv.take(0) =~= Seq::<Option<Seq<char>>>::empty());
        assert(start + present(cv.take(0)) =~= start);
        while t < configuration.len()
            invariant
                cv == opt_strs(configuration@),
                t <= configuration.len(),
                strs_view(files@) == start + present(cv.take(t as int)),
            decreases configuration.len() - t,
        {
            assert(cv.take(t + 1).drop_last() =~= cv.take(t as int));
            assert(cv.take(t + 1).last() == opt_view(configuration@[t as int]));
            match &configuration[t] {
                Some(file) => {
                    let ghost before = strs_view(files@);
                    files.push(copy_string(file));
                    assert(strs_view(files@) =~= before.push(file@));
                    assert(start + present(cv.take(t + 1)) =~= (start + present(cv.take(t as int))).push(file@));
                },
                None => {},
            }
            t = t + 1;
        }
        assert(cv.take(configuration.len() as int) =~= cv);
        assert(cm.take(c + 1).drop_last() =~= cm.take(c as int));
        assert(cm.take(c + 1).last() == cv);
        c = c + 1;
    }
    assert(cm.take(codemodel.configurations.len() as int) =~= cm);
    files
}

/// What was read of a build directory's file-api reply, in the order of
/// reading: whether `.cmake/api/v1/reply` is a directory; its entry names;
/// the text of the latest index file; the text of the codemodel file it
/// names; and the text of each target file the codemodel lists, in order.
/// A field that an earlier answer made unnecessary is not looked at.
pub struct FileApiReads {
    pub reply_is_dir: bool,
    pub entry_names: ToolkitResult<Vec<String>>,
    pub index_text: ToolkitResult<String>,
    pub codemodel_text: ToolkitResult<String>,
    pub target_texts: Vec<ToolkitResult<String>>,
}

/// The model of the reads.
pub struct FileApiReadsView {
    pub reply_is_dir: bool,
    pub entry_names: Result<Seq<Seq<char>>, ToolkitErrorView>,
    pub index_text: Result<Seq<char>, ToolkitErrorView>,
    pub codemodel_text: Result<Seq<char>, ToolkitErrorView>,
    pub target_texts: Seq<Result<Seq<char>, ToolkitErrorView>>,
}

impl View for FileApiReads {
    type V = FileApiReadsView;

    open spec fn view(&self) -> FileApiReadsView {
        FileApiReadsView {
            reply_is_dir: self.reply_is_dir,
            entry_names: match self.entry_names {
                Ok(names) => Ok(strs_view(names@)),
                Err(e) => Err(e@),
            },
            index_text: string_result_view(self.index_text),
            codemodel_text: string_result_view(self.codemodel_text),
            target_texts: self.target_texts@.map_values(|t: ToolkitResult<String>| string_result_view(t)),
        }
    }
}

/// Some entry is an index file.
pub open spec fn has_index_file(names: Seq<Seq<char>>) -> bool {
    exists|i: int| 0 <= i < names.len() && is_index_file_name(#[trigger] names[i])
}

/// A read that stops discovery: it failed, or its text is not JSON.
pub open spec fn is_read_failure(t: Result<Seq<char>, ToolkitErrorView>) -> bool {
    match t {
        Ok(text) => json_model_of(text) is None,
        Err(_) => true,
    }
}

/// The result a stopping read gives: its failure, or an `IoMessage` for
/// text that is not JSON.
pub open spec fn is_failure_of(
    t: Result<Seq<char>, ToolkitErrorView>,
    result: Result<Option<Seq<CmakeTargetView>>, ToolkitErrorView>,
) -> bool {
    match t {
        Err(e) => result == Err::<Option<Seq<CmakeTargetView>>, ToolkitErrorView>(e),
        Ok(_) => result matches Err(e) && e is IoMessage,
    }
}

/// The target a target file's text holds.
pub open spec fn parsed_target(t: Result<Seq<char>, ToolkitErrorView>) -> FileApiTargetView {
    match t {
        Ok(text) => match json_model_of(text) {
            Some(document) => target_of_model(document),
            None => target_of_model(JsonModel::Null),
        },
        Err(_) => target_of_model(JsonModel::Null),
    }
}

/// `k` is the first read among `texts` that stops discovery.
pub open spec fn is_first_failure(texts: Seq<Result<Seq<char>, ToolkitErrorView>>, k: int) -> bool {
    &&& 0 <= k < texts.len()
    &&& is_read_failure(texts[k])
    &&& forall|j: int| 0 <= j < k ==> !is_read_failure(#[trigger] texts[j])
}

/// What the target files give: the first stopping read's failure, or else
/// the targets of all of them, deduplicated.
pub open spec fn targets_outcome(
    texts: Seq<Result<Seq<char>, ToolkitErrorView>>,
    result: Result<Option<Seq<CmakeTargetView>>, ToolkitErrorView>,
) -> bool {
    if exists|k: int| 0 <= k < texts.len() && #[trigger] is_read_failure(texts[k]) {
        exists|k: int| #[trigger] is_first_failure(texts, k) && is_failure_of(texts[k], result)
    } else {
        result matches Ok(Some(ts)) && is_dedupe_of(
            ts,
            file_api_targets_spec(texts.map_values(|t: Result<Seq<char>, ToolkitErrorView>| parsed_target(t))),
        )
    }
}

/// What the reads give: `Ok(None)` when there is no reply directory, no
/// index file, or the index names no codemodel; a failed read, or an
/// `IoMessage` for a reply file that is not JSON; otherwise what the target
/// files give.
pub open spec fn file_api_outcome(
    reads: FileApiReadsView,
    result: Result<Option<Seq<CmakeTargetView>>, ToolkitErrorView>,
) -> bool {
    if !reads.reply_is_dir {
        result == Ok::<Option<Seq<CmakeTargetView>>, ToolkitErrorView>(None)
    } else {
        match reads.entry_names {
            Err(e) => result == Err::<Option<Seq<CmakeTargetView>>, ToolkitErrorView>(e),
            Ok(names) => if !has_index_file(names) {
                result == Ok::<Option<Seq<CmakeTargetView>>, ToolkitErrorView>(None)
            } else if is_read_failure(reads.index_text) {
                is_failure_of(reads.index_text, result)
            } else if codemodel_file_spec(index_of_model(json_model_of(reads.index_text->Ok_0)->0)) is None {
                result == Ok::<Option<Seq<CmakeTargetView>>, ToolkitErrorView>(None)
            } else if is_read_failure(reads.codemodel_text) {
                is_failure_of(reads.codemodel_text, result)
            } else {
                targets_outcome(reads.target_texts, result)
            },
        }
    }
}

/// How many target files the reads show the codemodel lists, when the reads
/// got that far.
pub open spec fn listed_target_count(reads: FileApiReadsView) -> Option<nat> {
    if !reads.reply_is_dir {
        None
    } else {
        match reads.entry_names {
            Err(_) => None,
            Ok(names) => if !has_index_file(names) || is_read_failure(reads.index_text) {
                None
            } else if codemodel_file_spec(index_of_model(json_model_of(reads.index_text->Ok_0)->0)) is None
                || is_read_failure(reads.codemodel_text) {
                None
            } else {
                Some(target_files_of(codemodel_of_model(json_model_of(reads.codemodel_text->Ok_0)->0)).len())
            },
        }
    }
}

/// The reads went as far as they had to: every target file the codemodel
/// lists was read, in order, unless a failed read stopped the reading.
pub open spec fn reads_complete(reads: FileApiReadsView) -> bool {
    let texts = reads.target_texts;
    match listed_target_count(reads) {
        None => texts.len() == 0,
        Some(n) => {
            &&& texts.len() <= n
            &&& forall|j: int| 0 <= j < texts.len() - 1 ==> #[trigger] texts[j] is Ok
            &&& texts.len() < n ==> texts.len() > 0 && texts.last() is Err
        },
    }
}

/// The model of a discovery result.
pub open spec fn file_api_result_view(r: ToolkitResult<Option<Vec<CmakeTarget>>>) -> Result<
    Option<Seq<CmakeTargetView>>,
    ToolkitErrorView,
> {
    match r {
        Ok(Some(ts)) => Ok(Some(targets_view(ts@))),
        Ok(None) => Ok(None),
        Err(e) => Err(e@),
    }
}

/// The targets of a file-api reply, from what was read of it.
pub fn file_api_targets_from_reads(reads: FileApiReads) -> (r: ToolkitResult<Option<Vec<CmakeTarget>>>)
    ensures
        file_api_outcome(reads@, file_api_result_view(r)),
{
    let ghost rv = reads@;
    let FileApiReads { reply_is_dir, entry_names, index_text, codemodel_text, target_texts } = reads;
    if !reply_is_dir {
        return Ok(None);
    }
    let names = match entry_names {
        Ok(n) => n,
        Err(e) => return Err(e),
    };
    match latest_cmake_file_api_index(&names) {
        Some(latest) => {
            proof {
                let ns = names@.map_values(|s: String| s@);
                assert(ns =~= strs_view(names@));
                let i = choose|i: int| 0 <= i < ns.len() && ns[i] == latest@;
                assert(is_index_file_name(ns[i]));
            }
        },
        None => {
            return Ok(None);
        },
    }
    let index_text = match index_text {
        Ok(t) => t,
        Err(e) => return Err(e),
    };
    let index = match file_api_index_from_text(index_text.as_str()) {
        Ok(i) => i,
        Err(e) => return Err(e),
    };
    if cmake_codemodel_file_name(&index).is_none() {
        return Ok(None);
    }
    let codemodel_text = match codemodel_text {
        Ok(t) => t,
        Err(e) => return Err(e),
    };
    match file_api_codemodel_from_text(codemodel_text.as_str()) {
        Ok(_) => {},
        Err(e) => return Err(e),
    }
    let ghost texts = rv.target_texts;
    assert forall|x: Result<Option<Seq<CmakeTargetView>>, ToolkitErrorView>|
        #[trigger] file_api_outcome(rv, x) == targets_outcome(texts, x) by {}
    let mut read: Vec<FileApiTarget> = Vec::new();
    let mut i: usize = 0;
    while i < target_texts.len()
        invariant
            rv == reads@,
            forall|x: Result<Option<Seq<CmakeTargetView>>, ToolkitErrorView>|
                #[trigger] file_api_outcome(rv, x) == targets_outcome(texts, x),
            texts == target_texts@.map_values(|t: ToolkitResult<String>| string_result_view(t)),
            i <= target_texts.len(),
            forall|j: int| 0 <= j < i ==> !is_read_failure(#[trigger] texts[j]),
            file_api_targets_view(read@) == texts.take(i as int).map_values(
                |t: Result<Seq<char>, ToolkitErrorView>| parsed_target(t),
            ),
        decreases target_texts.len() - i,
    {
        let parsed = match &target_texts[i] {
            Ok(text) => file_api_target_from_text(text.as_str()),
            Err(e) => {
                let r = Err(copy_error(e));
                proof {
                    assert(texts[i as int] == string_result_view(target_texts@[i as int]));
                    assert(is_read_failure(texts[i as int]));
                    assert(is_first_failure(texts, i as int));
                    assert(is_failure_of(texts[i as int], file_api_result_view(r)));
                }
                return r;
            },
        };
        match parsed {
            Ok(target) => {
                let ghost before = file_api_targets_view(read@);
                read.push(target);
                assert(texts.take(i + 1).map_values(|t: Result<Seq<char>, ToolkitErrorView>| parsed_target(t))
                    =~= before.push(target@));
            },
            Err(e) => {
                let r = Err(e);
                proof {
                    assert(texts[i as int] == string_result_view(target_texts@[i as int]));
                    assert(is_read_failure(texts[i as int]));
                    assert(is_first_failure(texts, i as int));
                    assert(is_failure_of(texts[i as int], file_api_result_view(r)));
                }
                return r;
            },
        }
        i = i + 1;
    }
    assert(texts.take(target_texts.len() as int) =~= texts);
    let targets = collect_file_api_targets(&read);
    Ok(Some(targets))
}

/// Where a build directory's file-api reply is.
pub open spec fn reply_dir_spec(root_path: Seq<char>, build_dir: Seq<char>) -> Seq<char> {
    path_join_spec(
        path_join_spec(path_join_spec(path_join_spec(path_join_spec(root_path, build_dir), ".cmake"@), "api"@), "v1"@),
        "reply"@,
    )
}

/// The file-system calls that made the reads, in order: whether the reply
/// directory is a directory; its entry names; the text of the latest index
/// file; the text of the codemodel file the index names; the text of each
/// target file the codemodel lists. Each call is made only when the
/// answers before it leave something to read.
pub open spec fn file_api_reads_asked(
    root_path: Seq<char>,
    build_dir: Seq<char>,
    before: Seq<FileCall>,
    after: Seq<FileCall>,
    reads: FileApiReadsView,
) -> bool {
    let n = before.len() as int;
    let reply = reply_dir_spec(root_path, build_dir);
    &&& after.len() > n
    &&& after.take(n) == before
    &&& after[n] == file_call(reply, FileAnswer::IsDir(reads.reply_is_dir))
    &&& if !reads.reply_is_dir {
        after.len() == n + 1
    } else {
        &&& after.len() > n + 1
        &&& after[n + 1] == file_call(reply, FileAnswer::Entries(reads.entry_names))
        &&& match reads.entry_names {
            Err(_) => after.len() == n + 2,
            Ok(names) => if !has_index_file(names) {
                after.len() == n + 2
            } else {
                &&& after.len() > n + 2
                &&& exists|index: Seq<char>|
                    #[trigger] is_latest_index(names, index) && after[n + 2] == file_call(
                        path_join_spec(reply, index),
                        FileAnswer::Text(reads.index_text),
                    )
                &&& if is_read_failure(reads.index_text) || codemodel_file_spec(
                    index_of_model(json_model_of(reads.index_text->Ok_0)->0),
                ) is None {
                    after.len() == n + 3
                } else {
                    &&& after.len() > n + 3
                    &&& after[n + 3] == file_call(
                        path_join_spec(
                            reply,
                            codemodel_file_spec(index_of_model(json_model_of(reads.index_text->Ok_0)->0))->0,
                        ),
                        FileAnswer::Text(reads.codemodel_text),
                    )
                    &&& if is_read_failure(reads.codemodel_text) {
                        after.len() == n + 4
                    } else {
                        let listed = target_files_of(codemodel_of_model(json_model_of(reads.codemodel_text->Ok_0)->0));
                        &&& after.len() == n + 4 + reads.target_texts.len()
                        &&& forall|k: int|
                            0 <= k < reads.target_texts.len() ==> after[n + 4 + k] == file_call(
                                path_join_spec(reply, listed[k]),
                                FileAnswer::Text(#[trigger] reads.target_texts[k]),
                            )
                    }
                }
            },
        }
    }
}

/// Reads a build directory's file-api reply as far as discovery needs:
/// the reply directory, the latest index file, the codemodel it names, and
/// the target files the codemodel lists, stopping at the first failed
/// read.
fn read_file_api_reply<F: LocalFiles>(root_path: &str, build_dir: &str, files: &mut RecordedFiles<F>) -> (r:
    FileApiReads)
    ensures
        reads_complete(r@),
        file_api_reads_asked(root_path@, build_dir@, old(files).transcript(), final(files).transcript(), r@),
{
    let ghost n = old(files).transcript().len() as int;
    let base = path_join(root_path, build_dir);
    let d1 = path_join(base.as_str(), ".cmake");
    let d2 = path_join(d1.as_str(), "api");
    let d3 = path_join(d2.as_str(), "v1");
    let reply_dir = path_join(d3.as_str(), "reply");
    let reply_is_dir = files.is_dir(reply_dir.as_str());
    let mut reads = FileApiReads {
        reply_is_dir,
        entry_names: Ok(Vec::new()),
        index_text: Ok(String::new()),
        codemodel_text: Ok(String::new()),
        target_texts: Vec::new(),
    };
    assert(files.transcript().take(n) =~= old(files).transcript());
    if !reply_is_dir {
        return reads;
    }
    let ghost t1 = files.transcript();
    let names = files.entry_names(reply_dir.as_str());
    assert(files.transcript()[n] == t1[n]);
    assert(files.transcript().take(n) =~= old(files).transcript());
    let ghost t2 = files.transcript();
    let index_name = match &names {
        Ok(nm) => latest_cmake_file_api_index(nm),
        Err(_) => None,
    };
    proof {
        if let Ok(nm) = &names {
            assert(nm@.map_values(|s: String| s@) =~= strs_view(nm@));
            if index_name is None && has_index_file(strs_view(nm@)) {
                let i = choose|i: int| 0 <= i < strs_view(nm@).len() && is_index_file_name(#[trigger] strs_view(nm@)[i]);
                assert(!is_index_file_name(nm@[i]@));
            }
            if let Some(ix) = &index_name {
                let ns = strs_view(nm@);
                let i = choose|i: int| 0 <= i < ns.len() && ns[i] == ix@;
                assert(is_index_file_name(ns[i]));
            }
        }
    }
    reads.entry_names = names;
    let index_name = match index_name {
        Some(nm) => nm,
        None => return reads,
    };
    let index_path = path_join(reply_dir.as_str(), index_name.as_str());
    let index_text = files.read_text(index_path.as_str());
    assert(files.transcript()[n] == t2[n] && files.transcript()[n + 1] == t2[n + 1]);
    assert(files.transcript().take(n) =~= old(files).transcript());
    let ghost t3 = files.transcript();
    let codemodel_file = match &index_text {
        Ok(t) => match file_api_index_from_text(t.as_str()) {
            Ok(index) => cmake_codemodel_file_name(&index),
            Err(_) => None,
        },
        Err(_) => None,
    };
    reads.index_text = index_text;
    assert(is_latest_index(strs_view(reads.entry_names->Ok_0@), index_name@));
    let codemodel_file = match codemodel_file {
        Some(f) => f,
        None => return reads,
    };
    let codemodel_path = path_join(reply_dir.as_str(), codemodel_file.as_str());
    let codemodel_text = files.read_text(codemodel_path.as_str());
    assert(files.transcript()[n] == t3[n] && files.transcript()[n + 1] == t3[n + 1] && files.transcript()[n + 2] == t3[n + 2]);
    assert(files.transcript().take(n) =~= old(files).transcript());
    let ghost t4 = files.transcript();
    let listed = match &codemodel_text {
        Ok(t) => match file_api_codemodel_from_text(t.as_str()) {
            Ok(codemodel) => Some(codemodel_target_files(&codemodel)),
            Err(_) => None,
        },
        Err(_) => None,
    };
    reads.codemodel_text = codemodel_text;
    let listed = match listed {
        Some(l) => l,
        None => return reads,
    };
    assert(listed_target_count(reads@) == Some(listed@.len()));
    let mut texts: Vec<ToolkitResult<String>> = Vec::new();
    let mut stopped = false;
    let mut i: usize = 0;
    while i < listed.len() && !stopped
        invariant
            0 <= n,
            i <= listed.len(),
            texts@.len() == i,
            !stopped ==> forall|j: int| 0 <= j < i ==> #[trigger] texts@[j] is Ok,
            stopped ==> i > 0 && texts@[i - 1] is Err && forall|j: int| 0 <= j < i - 1 ==> #[trigger] texts@[j] is Ok,
            files.transcript().len() == n + 4 + i,
            files.transcript().take(n + 4) == t4,
            forall|k: int|
                0 <= k < i ==> files.transcript()[n + 4 + k] == file_call(
                    path_join_spec(reply_dir@, strs_view(listed@)[k]),
                    FileAnswer::Text(string_result_view(#[trigger] texts@[k])),
                ),
        decreases listed.len() - i,
    {
        let ghost before = files.transcript();
        let target_path = path_join(reply_dir.as_str(), listed[i].as_str());
        let text = files.read_text(target_path.as_str());
        assert(files.transcript().take(n + 4) =~= before.take(n + 4));
        assert(strs_view(listed@)[i as int] == listed@[i as int]@);
        assert(files.transcript()[n + 4 + i] == file_call(
            path_join_spec(reply_dir@, strs_view(listed@)[i as int]),
            FileAnswer::Text(string_result_view(text)),
        ));
        stopped = text.is_err();
        let ghost prev = texts@;
        texts.push(text);
        assert(forall|k: int| 0 <= k < i ==> texts@[k] == prev[k]);
        i = i + 1;
    }
    reads.target_texts = texts;
    proof {
        let t = files.transcript();
        assert(t[n] == t4[n] && t[n + 1] == t4[n + 1] && t[n + 2] == t4[n + 2] && t[n + 3] == t4[n + 3]);
        assert(t.take(n) =~= t4.take(n));
        assert(reads@.target_texts == texts@.map_values(|x: ToolkitResult<String>| string_result_view(x)));
    }
    reads
}


/// The targets CMake's file-api reports for `<root>/<build_dir>`: the
/// reply is read as far as needed (`file_api_reads_asked`), and what those
/// reads give (`file_api_outcome`) is the result.
pub fn discover_cmake_targets_from_file_api<F: LocalFiles>(
    root_path: &str,
    build_dir: &str,
    files: &mut RecordedFiles<F>,
) -> (r: ToolkitResult<Option<Vec<CmakeTarget>>>)
    ensures
        exists|reads: FileApiReadsView|
            #![trigger file_api_outcome(reads, file_api_result_view(r))]
            {
                &&& reads_complete(reads)
                &&& file_api_reads_asked(root_path@, build_dir@, old(files).transcript(), final(files).transcript(), reads)
                &&& file_api_outcome(reads, file_api_result_view(r))
            },
{
    let reads = read_file_api_reply(root_path, build_dir, files);
    let ghost rv = reads@;
    let r = file_api_targets_from_reads(reads);
    assert(file_api_outcome(rv, file_api_result_view(r)));
    r
}

} // verus!
