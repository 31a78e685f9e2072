//! The local file system as the library sees it, and native path joining.
use crate::error::{ToolkitErrorView, ToolkitResult};
use crate::text::{append_str, chars_of, owned, strs_view};
use vstd::prelude::*;

verus! {

/// Read access to the files of the machine the extension runs on.
///
/// The library promises nothing about what these calls return: a file can
/// appear or vanish between two calls. It asks them through
/// `RecordedFiles`, which keeps the transcript of what was asked.
pub trait LocalFiles {
    /// Whether anything exists at `path`.
    fn path_exists(&self, path: &str) -> bool;

    /// Whether `path` is a directory.
    fn is_dir(&self, path: &str) -> bool;

    /// The names of the entries of the directory `dir`.
    fn entry_names(&self, dir: &str) -> ToolkitResult<Vec<String>>;

    /// The text of the file at `path`.
    fn read_text(&self, path: &str) -> ToolkitResult<String>;
}

/// What a file-system call asked and answered.
pub enum FileAnswer {
    /// `path_exists`, and its answer.
    Exists(bool),
    /// `is_dir`, and its answer.
    IsDir(bool),
    /// `entry_names`, and the names or the failure.
    Entries(Result<Seq<Seq<char>>, ToolkitErrorView>),
    /// `read_text`, and the text or the failure.
    Text(Result<Seq<char>, ToolkitErrorView>),
}

/// One file-system call: the path asked about and the answer.
pub struct FileCall {
    pub path: Seq<char>,
    pub answer: FileAnswer,
}

/// The record of one call.
pub open spec fn file_call(path: Seq<char>, answer: FileAnswer) -> FileCall {
    FileCall { path, answer }
}

/// A file system together with the transcript of what the library asked
/// it: each call with its path and answer, oldest first. The library reads
/// files only through one, so its contracts can say which paths were asked
/// about and what was made of the answers.
pub struct RecordedFiles<'a, F: LocalFiles> {
    files: &'a F,
    calls: Ghost<Seq<FileCall>>,
}

impl<'a, F: LocalFiles> RecordedFiles<'a, F> {
    /// The calls made so far, oldest first, each with its answer.
    pub closed spec fn transcript(&self) -> Seq<FileCall> {
        self.calls@
    }

    /// Starts an empty transcript for a file system.
    pub fn new(files: &'a F) -> (r: Self)
        ensures
            r.transcript() == Seq::<FileCall>::empty(),
    {
        RecordedFiles { files, calls: Ghost(Seq::empty()) }
    }

    /// Whether anything exists at `path`.
    pub fn path_exists(&mut self, path: &str) -> (r: bool)
        ensures
            final(self).transcript() == old(self).transcript().push(file_call(path@, FileAnswer::Exists(r))),
    {
        let r = self.files.path_exists(path);
        self.calls = Ghost(self.calls@.push(file_call(path@, FileAnswer::Exists(r))));
        r
    }

    /// Whether `path` is a directory.
    pub fn is_dir(&mut self, path: &str) -> (r: bool)
        ensures
            final(self).transcript() == old(self).transcript().push(file_call(path@, FileAnswer::IsDir(r))),
    {
        let r = self.files.is_dir(path);
        self.calls = Ghost(self.calls@.push(file_call(path@, FileAnswer::IsDir(r))));
        r
    }

    /// The names of the entries of the directory `dir`.
    pub fn entry_names(&mut self, dir: &str) -> (r: ToolkitResult<Vec<String>>)
        ensures
            final(self).transcript() == old(self).transcript().push(
                file_call(dir@, FileAnswer::Entries(names_result_view(r))),
            ),
    {
        let r = self.files.entry_names(dir);
        self.calls = Ghost(self.calls@.push(file_call(dir@, FileAnswer::Entries(names_result_view(r)))));
        r
    }

    /// The text of the file at `path`.
    pub fn read_text(&mut self, path: &str) -> (r: ToolkitResult<String>)
        ensures
            final(self).transcript() == old(self).transcript().push(
                file_call(path@, FileAnswer::Text(text_result_view(r))),
            ),
    {
        let r = self.files.read_text(path);
        self.calls = Ghost(self.calls@.push(file_call(path@, FileAnswer::Text(text_result_view(r)))));
        r
    }
}

/// The model of a list of names, or the failure.
pub open spec fn names_result_view(r: ToolkitResult<Vec<String>>) -> Result<Seq<Seq<char>>, ToolkitErrorView> {
    match r {
        Ok(names) => Ok(strs_view(names@)),
        Err(e) => Err(e@),
    }
}

/// The model of a text, or the failure.
pub open spec fn text_result_view(r: ToolkitResult<String>) -> Result<Seq<char>, ToolkitErrorView> {
    match r {
        Ok(t) => Ok(t@),
        Err(e) => Err(e@),
    }
}

/// `Path::join` on a Unix-like system: an absolute `child` replaces `base`;
/// otherwise a `/` is put between them unless `base` is empty or already
/// ends with one.
pub open spec fn path_join_spec(base: Seq<char>, child: Seq<char>) -> Seq<char> {
    if child.len() > 0 && child[0] == '/' {
        child
    } else if base.len() == 0 {
        child
    } else if base.last() == '/' {
        base + child
    } else {
        base + "/"@ + child
    }
}

/// `base` joined with `child` as a native path.
pub fn path_join(base: &str, child: &str) -> (r: String)
    ensures
        r@ == path_join_spec(base@, child@),
{
    let b = chars_of(base);
    let c = chars_of(child);
    if c.len() > 0 && c[0] == '/' {
        return owned(child);
    }
    if b.len() == 0 {
        return owned(child);
    }
    let mut r = owned(base);
    if b[b.len() - 1] != '/' {
        append_str(&mut r, "/");
    }
    append_str(&mut r, child);
    r
}

} // verus!
