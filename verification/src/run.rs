//! The course of a run as a state machine: from each state and each reported
//! outcome to the next state and the next action. This is the mathematical
//! model that [`crate::pipeline::Pipeline`] implements.

use vstd::prelude::*;
use crate::artifact::{artifact_path, joined, rendered};
use crate::error::{BuildError, RunError};
use crate::event::{ActionView, DirEntry, Event};
use crate::html::{converted_page, index_links};
use crate::package::resolved_ids;
use crate::text::texts;

verus! {

/// Where a run stands: what it has asked for and waits to hear of.
#[derive(Clone, Copy, Debug)]
pub enum Stage {
    /// Waits for the declared packages.
    Resolving,
    /// Waits for the canonical path of the source tree.
    LocatingRoot,
    /// Waits for the current directory, the source tree having no canonical
    /// path.
    FallingBack,
    /// Waits for the documentation generator.
    Generating,
    /// Waits to hear whether the generator's output is there.
    CheckingOutput,
    /// Waits for the content server to bind.
    Binding,
    /// Waits for the output directory.
    PreparingOutput,
    /// Waits for the listing of the documentation tree.
    Listing,
    /// Waits for the index page of the current package.
    FetchingIndex,
    /// Waits for the current page of the current package.
    FetchingPage,
    /// Waits for the artifact of the current package to be written.
    Writing,
    /// The run is over and has reported its summary.
    Finished,
    /// The run has failed.
    Failed(RunError),
}

/// The file that declares the packages of the source tree `repo`.
pub open spec fn manifest_path(repo: Seq<char>) -> Seq<char> {
    repo + "/Cargo.toml"@
}

/// The directory in which the generator leaves the documentation of the
/// source tree at `root`.
pub open spec fn doc_tree_path(root: Seq<char>) -> Seq<char> {
    root + "/target/doc"@
}

/// The program that generates the documentation.
pub open spec fn generator_program() -> Seq<char> {
    "cargo"@
}

/// Its arguments: build documentation, without dependencies, private items
/// included.
pub open spec fn generator_args() -> Seq<Seq<char>> {
    seq!["doc"@, "--no-deps"@, "--document-private-items"@]
}

/// The address on which the content server listens: the loopback interface,
/// since the server hands out whatever path it is asked for.
pub open spec fn bind_address() -> Seq<char> {
    "127.0.0.1:8000"@
}

/// The address under which the crawler reaches the content server.
pub open spec fn base_url() -> Seq<char> {
    "http://localhost:8000"@
}

/// The directory that receives the artifacts.
pub open spec fn output_dir() -> Seq<char> {
    ".knowledgebase"@
}

/// The address of the index page of package `id`.
pub open spec fn index_url(id: Seq<char>) -> Seq<char> {
    base_url() + "/"@ + id + "/all.html"@
}

/// The address of the page `link` of package `id`.
pub open spec fn page_url(id: Seq<char>, link: Seq<char>) -> Seq<char> {
    base_url() + "/"@ + id + "/"@ + link
}

/// Whether an entry of the documentation tree is crawled: it is a directory
/// whose name is a resolved package.
pub open spec fn is_target(entry: DirEntry, packages: Set<Seq<char>>) -> bool {
    entry.is_dir && entry.name is Some && packages.contains(entry.name->0@)
}

/// The packages to crawl: the names of the entries that are crawled, in the
/// order of the listing. Every other entry is passed over.
pub open spec fn crawl_targets(entries: Seq<DirEntry>, packages: Set<Seq<char>>) -> Seq<Seq<char>>
    decreases entries.len(),
{
    if entries.len() == 0 {
        Seq::empty()
    } else if is_target(entries.last(), packages) {
        crawl_targets(entries.drop_last(), packages).push(entries.last().name->0@)
    } else {
        crawl_targets(entries.drop_last(), packages)
    }
}

/// The pages of an artifact after one more fetch: a fetched page with main
/// content adds its markdown, a failed fetch or a page without main content
/// adds nothing.
pub open spec fn pages_after(pages: Seq<Seq<char>>, body: Option<Seq<char>>) -> Seq<Seq<char>> {
    match body {
        Some(html) => match converted_page(html) {
            Some(markdown) => pages.push(markdown),
            None => pages,
        },
        None => pages,
    }
}

/// The state of a run.
#[verifier::ext_equal]
pub struct RunState {
    /// Where the run stands.
    pub stage: Stage,
    /// The source tree as the caller named it.
    pub repo: Seq<char>,
    /// The resolved packages.
    pub packages: Set<Seq<char>>,
    /// The directory in which the generator runs.
    pub root: Seq<char>,
    /// The packages to crawl, in crawl order.
    pub targets: Seq<Seq<char>>,
    /// How many of them are dealt with.
    pub target: int,
    /// The links of the current package's index page.
    pub links: Seq<Seq<char>>,
    /// How many of them are dealt with.
    pub link: int,
    /// The converted pages of the current package.
    pub pages: Seq<Seq<char>>,
    /// The artifacts written so far.
    pub written: Seq<Seq<char>>,
}

impl Stage {
    /// The run has not yet chosen the packages to crawl.
    pub open spec fn before_crawl(self) -> bool {
        self is Resolving || self is LocatingRoot || self is FallingBack || self is Generating
            || self is CheckingOutput || self is Binding || self is PreparingOutput
            || self is Listing
    }
}

impl RunState {
    /// The state of a run on the source tree `repo` that has asked for the
    /// declared packages.
    pub open spec fn initial(repo: Seq<char>) -> RunState {
        RunState {
            stage: Stage::Resolving,
            repo,
            packages: Set::empty(),
            root: Seq::empty(),
            targets: Seq::empty(),
            target: 0,
            links: Seq::empty(),
            link: 0,
            pages: Seq::empty(),
            written: Seq::empty(),
        }
    }

    /// What holds of every state a run can reach: the counters stay within
    /// their lists, a current package or page exists while one is waited for,
    /// and only resolved packages are crawled.
    pub open spec fn wf(self) -> bool {
        &&& 0 <= self.target <= self.targets.len()
        &&& 0 <= self.link <= self.links.len()
        &&& (self.stage is FetchingIndex || self.stage is FetchingPage || self.stage is Writing)
            ==> self.target < self.targets.len()
        &&& self.stage is FetchingPage ==> self.link < self.links.len()
        &&& self.stage.before_crawl() ==> self.targets.len() == 0
        &&& forall|i: int| 0 <= i < self.targets.len() ==> self.packages.contains(self.targets[i])
    }

    /// The run fails with `error`.
    pub open spec fn fail(self, error: RunError) -> (RunState, ActionView) {
        (RunState { stage: Stage::Failed(error), ..self }, ActionView::Fail { error })
    }

    /// The run has found its directory and starts the generator there.
    pub open spec fn generate(self, dir: Seq<char>) -> (RunState, ActionView) {
        (
            RunState { stage: Stage::Generating, root: dir, ..self },
            ActionView::RunGenerator {
                dir,
                program: generator_program(),
                args: generator_args(),
            },
        )
    }

    /// Turns to the package at `self.target`: its index page is fetched, or,
    /// where no package is left, the run ends with its summary.
    pub open spec fn next_package(self) -> (RunState, ActionView) {
        if 0 <= self.target < self.targets.len() {
            (
                RunState { stage: Stage::FetchingIndex, ..self },
                ActionView::Fetch { url: index_url(self.targets[self.target]) },
            )
        } else {
            (
                RunState { stage: Stage::Finished, ..self },
                ActionView::Done { summary: rendered(self.written) },
            )
        }
    }

    /// Turns to the link at `self.link`: its page is fetched, or, where no
    /// link is left, the artifact is written, whatever it holds.
    pub open spec fn next_page(self) -> (RunState, ActionView) {
        if 0 <= self.link < self.links.len() {
            (
                RunState { stage: Stage::FetchingPage, ..self },
                ActionView::Fetch { url: page_url(self.targets[self.target], self.links[self.link]) },
            )
        } else {
            (
                RunState { stage: Stage::Writing, ..self },
                ActionView::Write {
                    path: artifact_path(output_dir(), self.targets[self.target]),
                    content: joined(self.pages),
                },
            )
        }
    }

    /// The next state and the next action, given the outcome of the last
    /// action. An outcome that the stage does not wait for fails the run; a
    /// run that is over repeats its last word.
    pub open spec fn step(self, event: Event) -> (RunState, ActionView) {
        match self.stage {
            Stage::Finished => (self, ActionView::Done { summary: rendered(self.written) }),
            Stage::Failed(error) => (self, ActionView::Fail { error }),
            Stage::Resolving => match event {
                Event::Packages(Some(names)) => (
                    RunState {
                        stage: Stage::LocatingRoot,
                        packages: resolved_ids(texts(names@)),
                        ..self
                    },
                    ActionView::Canonicalize { path: self.repo },
                ),
                Event::Packages(None) => self.fail(RunError::Resolution),
                _ => self.fail(RunError::OutOfTurn),
            },
            Stage::LocatingRoot => match event {
                Event::SourceRoot(Some(dir)) => self.generate(dir@),
                Event::SourceRoot(None) => (
                    RunState { stage: Stage::FallingBack, ..self },
                    ActionView::CurrentDir,
                ),
                _ => self.fail(RunError::OutOfTurn),
            },
            Stage::FallingBack => match event {
                Event::WorkingDir(Some(dir)) => self.generate(dir@),
                Event::WorkingDir(None) => self.fail(RunError::Io),
                _ => self.fail(RunError::OutOfTurn),
            },
            Stage::Generating => match event {
                Event::GeneratorExit(true) => (
                    RunState { stage: Stage::CheckingOutput, ..self },
                    ActionView::CheckOutput { path: doc_tree_path(self.root) },
                ),
                Event::GeneratorExit(false) => self.fail(
                    RunError::Build(BuildError::GeneratorFailed),
                ),
                _ => self.fail(RunError::OutOfTurn),
            },
            Stage::CheckingOutput => match event {
                Event::OutputPresent(true) => (
                    RunState { stage: Stage::Binding, ..self },
                    ActionView::Serve { root: doc_tree_path(self.root), address: bind_address() },
                ),
                Event::OutputPresent(false) => self.fail(
                    RunError::Build(BuildError::OutputMissing),
                ),
                _ => self.fail(RunError::OutOfTurn),
            },
            Stage::Binding => match event {
                Event::ServerBound(true) => (
                    RunState { stage: Stage::PreparingOutput, ..self },
                    ActionView::CreateOutputDir { path: output_dir() },
                ),
                Event::ServerBound(false) => self.fail(RunError::Server),
                _ => self.fail(RunError::OutOfTurn),
            },
            Stage::PreparingOutput => match event {
                Event::OutputDirReady(true) => (
                    RunState { stage: Stage::Listing, ..self },
                    ActionView::ListDocTree { path: doc_tree_path(self.root) },
                ),
                Event::OutputDirReady(false) => self.fail(RunError::Io),
                _ => self.fail(RunError::OutOfTurn),
            },
            Stage::Listing => match event {
                Event::DocTree(Some(entries)) => RunState {
                    targets: crawl_targets(entries@, self.packages),
                    target: 0,
                    ..self
                }.next_package(),
                Event::DocTree(None) => self.fail(RunError::Io),
                _ => self.fail(RunError::OutOfTurn),
            },
            Stage::FetchingIndex => match event {
                Event::Fetched(Some(html)) => RunState {
                    links: index_links(html@),
                    link: 0,
                    pages: Seq::empty(),
                    ..self
                }.next_page(),
                Event::Fetched(None) => RunState { target: self.target + 1, ..self }.next_package(),
                _ => self.fail(RunError::OutOfTurn),
            },
            Stage::FetchingPage => match event {
                Event::Fetched(body) => RunState {
                    pages: pages_after(
                        self.pages,
                        match body {
                            Some(html) => Some(html@),
                            None => None,
                        },
                    ),
                    link: self.link + 1,
                    ..self
                }.next_page(),
                _ => self.fail(RunError::OutOfTurn),
            },
            Stage::Writing => match event {
                Event::Written(done) => RunState {
                    written: if done {
                        self.written.push(artifact_path(output_dir(), self.targets[self.target]))
                    } else {
                        self.written
                    },
                    target: self.target + 1,
                    ..self
                }.next_package(),
                _ => self.fail(RunError::OutOfTurn),
            },
        }
    }
}

} // verus!
