//! Knowledge from the API documentation that the package manager generates
//! for the packages of a source tree.

use vstd::prelude::*;
use crate::event::{Action, ActionView};
use crate::pipeline::Pipeline;
use crate::run::{manifest_path, RunState};

verus! {

/// Begins the run that documents the packages of the source tree at
/// `repo_path`: resolve the packages, build their documentation, serve it,
/// crawl it package by package and write one artifact for each. The caller
/// performs the action returned and every action that
/// [`Pipeline::step`] answers with, until the run is over.
pub fn fetch_docs(repo_path: &str) -> (begun: (Pipeline, Action))
    ensures
        begun.0.wf(),
        begun.0@ == RunState::initial(repo_path@),
        begun.1@ == (ActionView::ReadManifest { path: manifest_path(repo_path@) }),
{
    Pipeline::start(repo_path)
}

} // verus!
