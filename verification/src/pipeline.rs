//! A run of the pipeline, driven by its caller: the caller performs the
//! action it is handed, reports the outcome, and is handed the next action,
//! until the run is over or has failed.

use vstd::prelude::*;
use vstd::string::StringExecFns;
use crate::artifact::{artifact_file_path, PackageArtifact, RunSummary};
use crate::error::{BuildError, RunError};
use crate::event::{Action, DirEntry, Event};
use crate::html::{convert_page, extract_links};
use crate::package::PackageSet;
use crate::run::{crawl_targets, generator_args, index_url, page_url, RunState, Stage};
use crate::text::texts;

verus! {

/// Chooses the packages to crawl from the listing of the documentation tree:
/// the directories named like a resolved package, in listing order. An entry
/// of any other name is passed over without a word.
pub fn select_targets(entries: &Vec<DirEntry>, packages: &PackageSet) -> (targets: Vec<String>)
    ensures
        texts(targets@) == crawl_targets(entries@, packages@),
        forall|i: int| 0 <= i < targets.len() ==> packages@.contains(#[trigger] targets[i]@),
{
    let mut targets: Vec<String> = Vec::new();
    let mut i: usize = 0;
    while i < entries.len()
        invariant
            i <= entries.len(),
            texts(targets@) == crawl_targets(entries@.take(i as int), packages@),
            forall|k: int| 0 <= k < targets.len() ==> packages@.contains(#[trigger] targets[k]@),
        decreases entries.len() - i,
    {
        proof {
            assert(entries@.take(i + 1).drop_last() == entries@.take(i as int));
            assert(entries@.take(i + 1).last() == entries[i as int]);
        }
        let ghost before = targets@;
        let entry = &entries[i];
        if entry.is_dir {
            match &entry.name {
                Some(name) => {
                    if packages.contains(name.as_str()) {
                        targets.push(name.clone());
                        assert(texts(targets@) == texts(before).push(name@));
                    }
                },
                None => {},
            }
        }
        i += 1;
    }
    assert(entries@.take(entries.len() as int) == entries@);
    targets
}

/// Addresses the index page of a package on the content server.
pub fn index_page_url(id: &str) -> (url: String)
    ensures
        url@ == index_url(id@),
{
    let mut url = String::from_str("http://localhost:8000");
    url.append("/");
    url.append(id);
    url.append("/all.html");
    url
}

/// Addresses one linked page of a package on the content server.
pub fn linked_page_url(id: &str, link: &str) -> (url: String)
    ensures
        url@ == page_url(id@, link@),
{
    let mut url = String::from_str("http://localhost:8000");
    url.append("/");
    url.append(id);
    url.append("/");
    url.append(link);
    url
}

/// The generator's arguments.
fn generator_arguments() -> (args: Vec<String>)
    ensures
        texts(args@) == generator_args(),
{
    let mut args: Vec<String> = Vec::new();
    args.push(String::from_str("doc"));
    args.push(String::from_str("--no-deps"));
    args.push(String::from_str("--document-private-items"));
    assert(texts(args@) =~= generator_args());
    args
}

/// One run of the pipeline on one source tree.
pub struct Pipeline {
    stage: Stage,
    repo: String,
    packages: PackageSet,
    root: String,
    targets: Vec<String>,
    target: usize,
    links: Vec<String>,
    link: usize,
    artifact: PackageArtifact,
    summary: RunSummary,
}

impl View for Pipeline {
    type V = RunState;

    closed spec fn view(&self) -> RunState {
        RunState {
            stage: self.stage,
            repo: self.repo@,
            packages: self.packages@,
            root: self.root@,
            targets: texts(self.targets@),
            target: self.target as int,
            links: texts(self.links@),
            link: self.link as int,
            pages: self.artifact.pages(),
            written: self.summary@,
        }
    }
}

impl Pipeline {
    /// The run is in a state that runs reach.
    pub closed spec fn wf(&self) -> bool {
        &&& self@.wf()
        &&& self.artifact.wf()
    }

    /// Begins a run on the source tree at `repo`. The first thing asked of
    /// the caller is the package metadata of its manifest.
    pub fn start(repo: &str) -> (begun: (Pipeline, Action))
        ensures
            begun.0.wf(),
            begun.0@ == RunState::initial(repo@),
            begun.1@ == (crate::event::ActionView::ReadManifest {
                path: crate::run::manifest_path(repo@),
            }),
    {
        let run = Pipeline {
            stage: Stage::Resolving,
            repo: String::from_str(repo),
            packages: PackageSet::empty(),
            root: String::new(),
            targets: Vec::new(),
            target: 0,
            links: Vec::new(),
            link: 0,
            artifact: PackageArtifact::new(),
            summary: RunSummary::new(),
        };
        let mut path = String::from_str(repo);
        path.append("/Cargo.toml");
        assert(run@ =~= RunState::initial(repo@));
        (run, Action::ReadManifest { path })
    }

    /// Whether the run is over, with a summary or with a failure.
    pub fn is_over(&self) -> (over: bool)
        ensures
            over == (self@.stage is Finished || self@.stage is Failed),
    {
        match self.stage {
            Stage::Finished => true,
            Stage::Failed(_) => true,
            _ => false,
        }
    }

    fn fail(&mut self, error: RunError) -> (action: Action)
        requires
            old(self).wf(),
        ensures
            final(self).wf(),
            (final(self)@, action@) == old(self)@.fail(error),
    {
        self.stage = Stage::Failed(error);
        assert(self@ =~= old(self)@.fail(error).0);
        Action::Fail { error }
    }

    fn generate(&mut self, dir: String) -> (action: Action)
        requires
            old(self).wf(),
            old(self)@.stage.before_crawl(),
        ensures
            final(self).wf(),
            (final(self)@, action@) == old(self)@.generate(dir@),
    {
        self.stage = Stage::Generating;
        self.root = dir.clone();
        assert(self@ =~= old(self)@.generate(dir@).0);
        Action::RunGenerator {
            dir,
            program: String::from_str("cargo"),
            args: generator_arguments(),
        }
    }

    fn doc_tree(&self) -> (path: String)
        ensures
            path@ == crate::run::doc_tree_path(self@.root),
    {
        let mut path = self.root.clone();
        path.append("/target/doc");
        path
    }

    fn next_package(&mut self) -> (action: Action)
        requires
            old(self).artifact.wf(),
            old(self)@.link <= old(self)@.links.len(),
            old(self)@.target <= old(self)@.targets.len(),
            forall|i: int|
                0 <= i < old(self)@.targets.len() ==> old(self)@.packages.contains(
                    old(self)@.targets[i],
                ),
        ensures
            final(self).wf(),
            (final(self)@, action@) == old(self)@.next_package(),
    {
        if self.target < self.targets.len() {
            self.stage = Stage::FetchingIndex;
            assert(self@ =~= old(self)@.next_package().0);
            Action::Fetch { url: index_page_url(self.targets[self.target].as_str()) }
        } else {
            self.stage = Stage::Finished;
            assert(self@ =~= old(self)@.next_package().0);
            Action::Done { summary: self.summary.render() }
        }
    }

    fn next_page(&mut self) -> (action: Action)
        requires
            old(self).artifact.wf(),
            old(self)@.link <= old(self)@.links.len(),
            old(self)@.target < old(self)@.targets.len(),
            forall|i: int|
                0 <= i < old(self)@.targets.len() ==> old(self)@.packages.contains(
                    old(self)@.targets[i],
                ),
        ensures
            final(self).wf(),
            (final(self)@, action@) == old(self)@.next_page(),
    {
        if self.link < self.links.len() {
            self.stage = Stage::FetchingPage;
            assert(self@ =~= old(self)@.next_page().0);
            Action::Fetch {
                url: linked_page_url(
                    self.targets[self.target].as_str(),
                    self.links[self.link].as_str(),
                ),
            }
        } else {
            self.stage = Stage::Writing;
            assert(self@ =~= old(self)@.next_page().0);
            Action::Write {
                path: artifact_file_path(".knowledgebase", self.targets[self.target].as_str()),
                content: self.artifact.content(),
            }
        }
    }

    fn on_resolving(&mut self, event: Event) -> (action: Action)
        requires
            old(self).wf(),
            old(self)@.stage is Resolving,
        ensures
            final(self).wf(),
            (final(self)@, action@) == old(self)@.step(event),
    {
        match event {
            Event::Packages(Some(names)) => {
                self.packages = PackageSet::resolve(&names);
                self.stage = Stage::LocatingRoot;
                assert(self@ =~= old(self)@.step(event).0);
                Action::Canonicalize { path: self.repo.clone() }
            },
            Event::Packages(None) => self.fail(RunError::Resolution),
            _ => self.fail(RunError::OutOfTurn),
        }
    }

    fn on_locating_root(&mut self, event: Event) -> (action: Action)
        requires
            old(self).wf(),
            old(self)@.stage is LocatingRoot,
        ensures
            final(self).wf(),
            (final(self)@, action@) == old(self)@.step(event),
    {
        match event {
            Event::SourceRoot(Some(dir)) => self.generate(dir),
            Event::SourceRoot(None) => {
                self.stage = Stage::FallingBack;
                assert(self@ =~= old(self)@.step(event).0);
                Action::CurrentDir
            },
            _ => self.fail(RunError::OutOfTurn),
        }
    }

    fn on_falling_back(&mut self, event: Event) -> (action: Action)
        requires
            old(self).wf(),
            old(self)@.stage is FallingBack,
        ensures
            final(self).wf(),
            (final(self)@, action@) == old(self)@.step(event),
    {
        match event {
            Event::WorkingDir(Some(dir)) => self.generate(dir),
            Event::WorkingDir(None) => self.fail(RunError::Io),
            _ => self.fail(RunError::OutOfTurn),
        }
    }

    fn on_generating(&mut self, event: Event) -> (action: Action)
        requires
            old(self).wf(),
            old(self)@.stage is Generating,
        ensures
            final(self).wf(),
            (final(self)@, action@) == old(self)@.step(event),
    {
        match event {
            Event::GeneratorExit(true) => {
                self.stage = Stage::CheckingOutput;
                assert(self@ =~= old(self)@.step(event).0);
                Action::CheckOutput { path: self.doc_tree() }
            },
            Event::GeneratorExit(false) => self.fail(RunError::Build(BuildError::GeneratorFailed)),
            _ => self.fail(RunError::OutOfTurn),
        }
    }

    fn on_checking_output(&mut self, event: Event) -> (action: Action)
        requires
            old(self).wf(),
            old(self)@.stage is CheckingOutput,
        ensures
            final(self).wf(),
            (final(self)@, action@) == old(self)@.step(event),
    {
        match event {
            Event::OutputPresent(true) => {
                self.stage = Stage::Binding;
                assert(self@ =~= old(self)@.step(event).0);
                Action::Serve { root: self.doc_tree(), address: String::from_str("127.0.0.1:8000") }
            },
            Event::OutputPresent(false) => self.fail(RunError::Build(BuildError::OutputMissing)),
            _ => self.fail(RunError::OutOfTurn),
        }
    }

    fn on_binding(&mut self, event: Event) -> (action: Action)
        requires
            old(self).wf(),
            old(self)@.stage is Binding,
        ensures
            final(self).wf(),
            (final(self)@, action@) == old(self)@.step(event),
    {
        match event {
            Event::ServerBound(true) => {
                self.stage = Stage::PreparingOutput;
                assert(self@ =~= old(self)@.step(event).0);
                Action::CreateOutputDir { path: String::from_str(".knowledgebase") }
            },
            Event::ServerBound(false) => self.fail(RunError::Server),
            _ => self.fail(RunError::OutOfTurn),
        }
    }

    fn on_preparing_output(&mut self, event: Event) -> (action: Action)
        requires
            old(self).wf(),
            old(self)@.stage is PreparingOutput,
        ensures
            final(self).wf(),
            (final(self)@, action@) == old(self)@.step(event),
    {
        match event {
            Event::OutputDirReady(true) => {
                self.stage = Stage::Listing;
                assert(self@ =~= old(self)@.step(event).0);
                Action::ListDocTree { path: self.doc_tree() }
            },
            Event::OutputDirReady(false) => self.fail(RunError::Io),
            _ => self.fail(RunError::OutOfTurn),
        }
    }

    fn on_listing(&mut self, event: Event) -> (action: Action)
        requires
            old(self).wf(),
            old(self)@.stage is Listing,
        ensures
            final(self).wf(),
            (final(self)@, action@) == old(self)@.step(event),
    {
        match event {
            Event::DocTree(Some(entries)) => {
                self.targets = select_targets(&entries, &self.packages);
                self.target = 0;
                self.next_package()
            },
            Event::DocTree(None) => self.fail(RunError::Io),
            _ => self.fail(RunError::OutOfTurn),
        }
    }

    fn on_fetching_index(&mut self, event: Event) -> (action: Action)
        requires
            old(self).wf(),
            old(self)@.stage is FetchingIndex,
        ensures
            final(self).wf(),
            (final(self)@, action@) == old(self)@.step(event),
    {
        assert(self.target < self.targets.len());
        match event {
            Event::Fetched(Some(html)) => {
                self.links = extract_links(html.as_str());
                self.link = 0;
                self.artifact = PackageArtifact::new();
                self.next_page()
            },
            Event::Fetched(None) => {
                self.target = self.target + 1;
                self.next_package()
            },
            _ => self.fail(RunError::OutOfTurn),
        }
    }

    fn on_fetching_page(&mut self, event: Event) -> (action: Action)
        requires
            old(self).wf(),
            old(self)@.stage is FetchingPage,
        ensures
            final(self).wf(),
            (final(self)@, action@) == old(self)@.step(event),
    {
        assert(self.target < self.targets.len());
        assert(self.link < self.links.len());
        match event {
            Event::Fetched(body) => {
                match body {
                    Some(html) => match convert_page(html.as_str()) {
                        Some(markdown) => self.artifact.push_page(markdown.as_str()),
                        None => {},
                    },
                    None => {},
                }
                self.link = self.link + 1;
                self.next_page()
            },
            _ => self.fail(RunError::OutOfTurn),
        }
    }

    fn on_writing(&mut self, event: Event) -> (action: Action)
        requires
            old(self).wf(),
            old(self)@.stage is Writing,
        ensures
            final(self).wf(),
            (final(self)@, action@) == old(self)@.step(event),
    {
        assert(self.target < self.targets.len());
        match event {
            Event::Written(done) => {
                if done {
                    self.summary.record(
                        artifact_file_path(".knowledgebase", self.targets[self.target].as_str()),
                    );
                }
                self.target = self.target + 1;
                self.next_package()
            },
            _ => self.fail(RunError::OutOfTurn),
        }
    }

    /// Takes the outcome of the action that the run asked for last, and
    /// answers with the next action. The run moves as [`RunState::step`]
    /// says: a failed resolution or build ends it before the server is
    /// started or anything is fetched; a failed fetch costs a page, a failed
    /// index fetch or write costs a package, and the run goes on.
    pub fn step(&mut self, event: Event) -> (action: Action)
        requires
            old(self).wf(),
        ensures
            final(self).wf(),
            (final(self)@, action@) == old(self)@.step(event),
    {
        match self.stage {
            Stage::Finished => Action::Done { summary: self.summary.render() },
            Stage::Failed(error) => Action::Fail { error },
            Stage::Resolving => self.on_resolving(event),
            Stage::LocatingRoot => self.on_locating_root(event),
            Stage::FallingBack => self.on_falling_back(event),
            Stage::Generating => self.on_generating(event),
            Stage::CheckingOutput => self.on_checking_output(event),
            Stage::Binding => self.on_binding(event),
            Stage::PreparingOutput => self.on_preparing_output(event),
            Stage::Listing => self.on_listing(event),
            Stage::FetchingIndex => self.on_fetching_index(event),
            Stage::FetchingPage => self.on_fetching_page(event),
            Stage::Writing => self.on_writing(event),
        }
    }
}

} // verus!
