//! Turns a generated API documentation tree into one markdown knowledge file
//! per package.
//!
//! The library holds the decisions of a documentation run: which packages are
//! documented, which pages are fetched in which order, what each page
//! contributes, where each artifact is written and what the final summary
//! says. Reading files, running the generator and talking HTTP are left to the
//! caller, which performs the [`event::Action`]s that the run asks for and
//! hands back what happened as [`event::Event`]s.
//!
//! - [`package`] resolves declared package names to identifiers.
//! - [`html`] extracts the main content and the links of a page and converts
//!   content to markdown.
//! - [`server`] answers the requests of the content server.
//! - [`artifact`] joins pages, names artifacts and renders the summary.
//! - [`run`] is the state machine of a run, [`pipeline`] its implementation,
//!   and [`laws`] what holds of every run.
//!
//! Beside the pipeline stand the rules of three small tools: [`prompt`]
//! assembles a prompt from the files of a code base, [`pricing`] reads and
//! writes the entries of a pricing table, and [`requirements`] reads the
//! precision of a model.

use vstd::prelude::*;

pub mod text;
pub mod numbers;
pub mod package;
pub mod html;
pub mod artifact;
pub mod server;
pub mod error;
pub mod event;
pub mod run;
pub mod pipeline;
pub mod crates_io;
pub mod laws;
pub mod pricing;
pub mod prompt;
pub mod requirements;

use crate::event::{Action, ActionView};
use crate::pipeline::Pipeline;
use crate::run::{manifest_path, RunState};

verus! {

/// The kinds of documentation source, one variant for each.
#[derive(Clone, Copy, Debug, PartialEq, Eq, Structural)]
pub enum KnowledgeType {
    /// The API documentation that the package manager generates for the
    /// packages of a source tree.
    CratesIo,
}

/// A request for the knowledge of one source tree.
pub struct Knowledge {
    /// The root of the source tree.
    pub repo_path: String,
    /// Where its documentation comes from.
    pub knowledge_type: KnowledgeType,
}

impl Knowledge {
    /// A request for the knowledge of the source tree at `repo_path`.
    pub fn new(repo_path: String, knowledge_type: KnowledgeType) -> (knowledge: Self)
        ensures
            knowledge.repo_path == repo_path,
            knowledge.knowledge_type == knowledge_type,
    {
        Knowledge { repo_path, knowledge_type }
    }
}

/// A source of knowledge that is gathered by a run of the pipeline.
pub trait KnowledgeTrait {
    /// Begins the run that gathers all knowledge of this source, and says
    /// what the caller is to do first.
    fn fetch_all(&self) -> (begun: (Pipeline, Action))
        ensures
            begun.0.wf(),
    ;
}

impl KnowledgeTrait for Knowledge {
    /// For a source tree the run begins with the packages that its manifest
    /// declares.
    fn fetch_all(&self) -> (begun: (Pipeline, Action))
        ensures
            begun.0@ == RunState::initial(self.repo_path@),
            begun.1@ == (ActionView::ReadManifest { path: manifest_path(self.repo_path@) }),
    {
        match self.knowledge_type {
            KnowledgeType::CratesIo => crates_io::fetch_docs(self.repo_path.as_str()),
        }
    }
}

} // verus!
