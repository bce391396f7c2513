//! What a run asks of its caller, and what the caller reports back.

use vstd::prelude::*;
use crate::error::RunError;
use crate::text::texts;

verus! {

/// One entry of the listing of the documentation tree.
pub struct DirEntry {
    /// The entry's name, where it is valid text.
    pub name: Option<String>,
    /// Whether the entry is a directory.
    pub is_dir: bool,
}

/// The outcome of the action that the run asked for last.
pub enum Event {
    /// The names of the packages that the build manifest graph declares, or
    /// nothing where the manifest could not be read or parsed.
    Packages(Option<Vec<String>>),
    /// The canonical path of the source tree, or nothing where there is none.
    SourceRoot(Option<String>),
    /// The caller's current directory, or nothing where it cannot be told.
    WorkingDir(Option<String>),
    /// Whether the documentation generator left with success.
    GeneratorExit(bool),
    /// Whether the generator's output directory exists.
    OutputPresent(bool),
    /// Whether the content server has bound its address and accepts
    /// connections.
    ServerBound(bool),
    /// Whether the output directory exists now.
    OutputDirReady(bool),
    /// The entries of the documentation tree, or nothing where it could not
    /// be listed.
    DocTree(Option<Vec<DirEntry>>),
    /// The body of the fetched page, or nothing where the fetch failed: no
    /// connection, or a status outside 200 to 299.
    Fetched(Option<String>),
    /// Whether the artifact was written.
    Written(bool),
}

/// The next thing for the caller to do. Every action but the last two is
/// answered with the [`Event`] that reports its outcome.
pub enum Action {
    /// Read the package metadata of the manifest at `path`.
    ReadManifest { path: String },
    /// Make `path` absolute and canonical.
    Canonicalize { path: String },
    /// Tell the current directory.
    CurrentDir,
    /// Run `program` with `args` in the directory `dir` and wait for it.
    RunGenerator { dir: String, program: String, args: Vec<String> },
    /// Tell whether `path` is a directory.
    CheckOutput { path: String },
    /// Serve the files below `root` on `address`, in the background, and
    /// report once the address is bound.
    Serve { root: String, address: String },
    /// Create the directory `path` unless it exists.
    CreateOutputDir { path: String },
    /// List the entries of the directory `path`.
    ListDocTree { path: String },
    /// Fetch `url`.
    Fetch { url: String },
    /// Write `content` to the file `path`, replacing what it held.
    Write { path: String, content: String },
    /// The run is over: display `summary`.
    Done { summary: String },
    /// The run has failed with `error`.
    Fail { error: RunError },
}

/// An [`Action`] as the contracts see it.
pub enum ActionView {
    ReadManifest { path: Seq<char> },
    Canonicalize { path: Seq<char> },
    CurrentDir,
    RunGenerator { dir: Seq<char>, program: Seq<char>, args: Seq<Seq<char>> },
    CheckOutput { path: Seq<char> },
    Serve { root: Seq<char>, address: Seq<char> },
    CreateOutputDir { path: Seq<char> },
    ListDocTree { path: Seq<char> },
    Fetch { url: Seq<char> },
    Write { path: Seq<char>, content: Seq<char> },
    Done { summary: Seq<char> },
    Fail { error: RunError },
}

impl View for Action {
    type V = ActionView;

    open spec fn view(&self) -> ActionView {
        match *self {
            Action::ReadManifest { path } => ActionView::ReadManifest { path: path@ },
            Action::Canonicalize { path } => ActionView::Canonicalize { path: path@ },
            Action::CurrentDir => ActionView::CurrentDir,
            Action::RunGenerator { dir, program, args } => ActionView::RunGenerator {
                dir: dir@,
                program: program@,
                args: texts(args@),
            },
            Action::CheckOutput { path } => ActionView::CheckOutput { path: path@ },
            Action::Serve { root, address } => ActionView::Serve {
                root: root@,
                address: address@,
            },
            Action::CreateOutputDir { path } => ActionView::CreateOutputDir { path: path@ },
            Action::ListDocTree { path } => ActionView::ListDocTree { path: path@ },
            Action::Fetch { url } => ActionView::Fetch { url: url@ },
            Action::Write { path, content } => ActionView::Write {
                path: path@,
                content: content@,
            },
            Action::Done { summary } => ActionView::Done { summary: summary@ },
            Action::Fail { error } => ActionView::Fail { error },
        }
    }
}

} // verus!
