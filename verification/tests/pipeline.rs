use docs_to_knowledge::error::{BuildError, RunError};
use docs_to_knowledge::event::{Action, DirEntry, Event};
use docs_to_knowledge::pipeline::Pipeline;
use docs_to_knowledge::{Knowledge, KnowledgeTrait, KnowledgeType};

fn dir(name: &str) -> DirEntry {
    DirEntry { name: Some(name.to_string()), is_dir: true }
}

fn names(list: &[&str]) -> Vec<String> {
    list.iter().map(|name| name.to_string()).collect()
}

fn page(body: &str) -> String {
    format!("<html><body><section id=\"main-content\">{}</section></body></html>", body)
}

fn index(links: &[&str]) -> String {
    let mut body = String::from("<html><body><ul>");
    for link in links {
        body.push_str(&format!("<li><a href=\"{}\">{}</a></li>", link, link));
    }
    body.push_str("</ul></body></html>");
    body
}

fn expect_fetch(action: Action, url: &str) {
    match action {
        Action::Fetch { url: asked } => assert_eq!(asked, url),
        _ => panic!("expected a fetch of {}", url),
    }
}

fn expect_write(action: Action, path: &str) -> String {
    match action {
        Action::Write { path: asked, content } => {
            assert_eq!(asked, path);
            content
        }
        _ => panic!("expected a write of {}", path),
    }
}

fn expect_done(action: Action) -> String {
    match action {
        Action::Done { summary } => summary,
        _ => panic!("expected the run to be over"),
    }
}

/// Drives a run up to the listing of the documentation tree.
fn run_to_listing(declared: &[&str]) -> Pipeline {
    let (mut run, first) = Pipeline::start("work/tree");
    assert!(matches!(first, Action::ReadManifest { ref path } if path == "work/tree/Cargo.toml"));
    let action = run.step(Event::Packages(Some(names(declared))));
    assert!(matches!(action, Action::Canonicalize { ref path } if path == "work/tree"));
    let action = run.step(Event::SourceRoot(Some("/abs/work/tree".to_string())));
    match action {
        Action::RunGenerator { dir, program, args } => {
            assert_eq!(dir, "/abs/work/tree");
            assert_eq!(program, "cargo");
            assert_eq!(args, names(&["doc", "--no-deps", "--document-private-items"]));
        }
        _ => panic!("expected the generator to be run"),
    }
    let action = run.step(Event::GeneratorExit(true));
    assert!(
        matches!(action, Action::CheckOutput { ref path } if path == "/abs/work/tree/target/doc")
    );
    let action = run.step(Event::OutputPresent(true));
    match action {
        Action::Serve { root, address } => {
            assert_eq!(root, "/abs/work/tree/target/doc");
            assert_eq!(address, "127.0.0.1:8000");
        }
        _ => panic!("expected the server to be started"),
    }
    let action = run.step(Event::ServerBound(true));
    assert!(matches!(action, Action::CreateOutputDir { ref path } if path == ".knowledgebase"));
    let action = run.step(Event::OutputDirReady(true));
    assert!(
        matches!(action, Action::ListDocTree { ref path } if path == "/abs/work/tree/target/doc")
    );
    run
}

#[test]
fn scenario_two_packages_and_a_stranger() {
    let mut run = run_to_listing(&["alpha", "beta-core"]);
    let action =
        run.step(Event::DocTree(Some(vec![dir("alpha"), dir("beta_core"), dir("extra_tool")])));
    expect_fetch(action, "http://localhost:8000/alpha/all.html");
    let action = run.step(Event::Fetched(Some(index(&["one.html"]))));
    expect_fetch(action, "http://localhost:8000/alpha/one.html");
    let action = run.step(Event::Fetched(Some(page("<p>Alpha text</p>"))));
    let content = expect_write(action, ".knowledgebase/alpha_knowledge.md");
    assert_eq!(content, "Alpha text\n\n");
    let action = run.step(Event::Written(true));
    expect_fetch(action, "http://localhost:8000/beta_core/all.html");
    let action = run.step(Event::Fetched(Some(index(&["two.html"]))));
    expect_fetch(action, "http://localhost:8000/beta_core/two.html");
    let action = run.step(Event::Fetched(Some(page("<p>Beta text</p>"))));
    let content = expect_write(action, ".knowledgebase/beta_core_knowledge.md");
    assert_eq!(content, "Beta text\n\n");
    let summary = expect_done(run.step(Event::Written(true)));
    assert_eq!(
        summary,
        "Created the following Markdown files in `.knowledgebase`:\n\n\
         - .knowledgebase/alpha_knowledge.md\n\
         - .knowledgebase/beta_core_knowledge.md\n"
    );
    assert!(run.is_over());
}

#[test]
fn scenario_failed_index_and_missing_page() {
    let mut run = run_to_listing(&["alpha", "beta-core"]);
    let action = run.step(Event::DocTree(Some(vec![dir("alpha"), dir("beta_core")])));
    expect_fetch(action, "http://localhost:8000/alpha/all.html");
    // The index page of alpha cannot be fetched: the package is passed over.
    let action = run.step(Event::Fetched(None));
    expect_fetch(action, "http://localhost:8000/beta_core/all.html");
    let action = run.step(Event::Fetched(Some(index(&["a.html", "b.html", "c.html"]))));
    expect_fetch(action, "http://localhost:8000/beta_core/a.html");
    let action = run.step(Event::Fetched(Some(page("<p>First page</p>"))));
    expect_fetch(action, "http://localhost:8000/beta_core/b.html");
    // The second page is not found: it is passed over.
    let action = run.step(Event::Fetched(None));
    expect_fetch(action, "http://localhost:8000/beta_core/c.html");
    let action = run.step(Event::Fetched(Some(page("<p>Third page</p>"))));
    let content = expect_write(action, ".knowledgebase/beta_core_knowledge.md");
    assert_eq!(content, "First page\n\nThird page\n\n");
    let summary = expect_done(run.step(Event::Written(true)));
    assert_eq!(
        summary,
        "Created the following Markdown files in `.knowledgebase`:\n\n\
         - .knowledgebase/beta_core_knowledge.md\n"
    );
}

#[test]
fn scenario_generator_fails() {
    let (mut run, _) = Pipeline::start("work/tree");
    run.step(Event::Packages(Some(names(&["alpha"]))));
    let action = run.step(Event::SourceRoot(Some("/abs/work/tree".to_string())));
    assert!(matches!(action, Action::RunGenerator { .. }));
    let action = run.step(Event::GeneratorExit(false));
    assert!(matches!(
        action,
        Action::Fail { error: RunError::Build(BuildError::GeneratorFailed) }
    ));
    assert!(run.is_over());
    // Whatever is reported afterwards, nothing is served, fetched or written.
    let action = run.step(Event::ServerBound(true));
    assert!(matches!(
        action,
        Action::Fail { error: RunError::Build(BuildError::GeneratorFailed) }
    ));
    let action = run.step(Event::Fetched(Some(page("<p>text</p>"))));
    assert!(matches!(
        action,
        Action::Fail { error: RunError::Build(BuildError::GeneratorFailed) }
    ));
}

#[test]
fn missing_output_directory_fails_the_build() {
    let (mut run, _) = Pipeline::start("work/tree");
    run.step(Event::Packages(Some(names(&["alpha"]))));
    run.step(Event::SourceRoot(Some("/abs".to_string())));
    run.step(Event::GeneratorExit(true));
    let action = run.step(Event::OutputPresent(false));
    assert!(matches!(action, Action::Fail { error: RunError::Build(BuildError::OutputMissing) }));
}

#[test]
fn unreadable_manifest_fails_before_generation() {
    let (mut run, _) = Pipeline::start("work/tree");
    let action = run.step(Event::Packages(None));
    assert!(matches!(action, Action::Fail { error: RunError::Resolution }));
    let action = run.step(Event::GeneratorExit(true));
    assert!(matches!(action, Action::Fail { error: RunError::Resolution }));
}

#[test]
fn source_tree_without_canonical_path_falls_back_to_current_directory() {
    let (mut run, _) = Pipeline::start("gone");
    run.step(Event::Packages(Some(names(&["alpha"]))));
    let action = run.step(Event::SourceRoot(None));
    assert!(matches!(action, Action::CurrentDir));
    let action = run.step(Event::WorkingDir(Some("/here".to_string())));
    assert!(matches!(action, Action::RunGenerator { ref dir, .. } if dir == "/here"));
    let action = run.step(Event::GeneratorExit(true));
    assert!(matches!(action, Action::CheckOutput { ref path } if path == "/here/target/doc"));
}

#[test]
fn unknown_current_directory_is_an_io_failure() {
    let (mut run, _) = Pipeline::start("gone");
    run.step(Event::Packages(Some(names(&["alpha"]))));
    run.step(Event::SourceRoot(None));
    let action = run.step(Event::WorkingDir(None));
    assert!(matches!(action, Action::Fail { error: RunError::Io }));
}

#[test]
fn server_that_cannot_bind_fails_the_run() {
    let (mut run, _) = Pipeline::start("work/tree");
    run.step(Event::Packages(Some(names(&["alpha"]))));
    run.step(Event::SourceRoot(Some("/abs".to_string())));
    run.step(Event::GeneratorExit(true));
    run.step(Event::OutputPresent(true));
    let action = run.step(Event::ServerBound(false));
    assert!(matches!(action, Action::Fail { error: RunError::Server }));
}

#[test]
fn output_directory_and_listing_failures_are_io_failures() {
    let (mut run, _) = Pipeline::start("work/tree");
    run.step(Event::Packages(Some(names(&["alpha"]))));
    run.step(Event::SourceRoot(Some("/abs".to_string())));
    run.step(Event::GeneratorExit(true));
    run.step(Event::OutputPresent(true));
    run.step(Event::ServerBound(true));
    let action = run.step(Event::OutputDirReady(false));
    assert!(matches!(action, Action::Fail { error: RunError::Io }));

    let mut run = run_to_listing(&["alpha"]);
    let action = run.step(Event::DocTree(None));
    assert!(matches!(action, Action::Fail { error: RunError::Io }));
}

#[test]
fn outcome_out_of_turn_fails_the_run() {
    let (mut run, _) = Pipeline::start("work/tree");
    let action = run.step(Event::Fetched(Some(String::new())));
    assert!(matches!(action, Action::Fail { error: RunError::OutOfTurn }));
    assert!(run.is_over());
}

#[test]
fn package_without_links_is_written_empty_and_listed() {
    let mut run = run_to_listing(&["alpha"]);
    let action = run.step(Event::DocTree(Some(vec![dir("alpha")])));
    expect_fetch(action, "http://localhost:8000/alpha/all.html");
    let action = run.step(Event::Fetched(Some("<html><body>no links</body></html>".to_string())));
    let content = expect_write(action, ".knowledgebase/alpha_knowledge.md");
    assert_eq!(content, "");
    let summary = expect_done(run.step(Event::Written(true)));
    assert_eq!(
        summary,
        "Created the following Markdown files in `.knowledgebase`:\n\n\
         - .knowledgebase/alpha_knowledge.md\n"
    );
}

#[test]
fn failed_write_drops_one_package_only() {
    let mut run = run_to_listing(&["alpha", "beta"]);
    run.step(Event::DocTree(Some(vec![dir("alpha"), dir("beta")])));
    let action = run.step(Event::Fetched(Some(index(&[]))));
    expect_write(action, ".knowledgebase/alpha_knowledge.md");
    let action = run.step(Event::Written(false));
    expect_fetch(action, "http://localhost:8000/beta/all.html");
    let action = run.step(Event::Fetched(Some(index(&[]))));
    expect_write(action, ".knowledgebase/beta_knowledge.md");
    let summary = expect_done(run.step(Event::Written(true)));
    assert_eq!(
        summary,
        "Created the following Markdown files in `.knowledgebase`:\n\n\
         - .knowledgebase/beta_knowledge.md\n"
    );
}

#[test]
fn run_without_artifacts_says_so() {
    let mut run = run_to_listing(&["alpha"]);
    let summary = expect_done(run.step(Event::DocTree(Some(vec![dir("extra_tool")]))));
    assert_eq!(summary, "No Markdown files were created.");
    // A run that is over repeats its summary.
    let summary = expect_done(run.step(Event::Written(true)));
    assert_eq!(summary, "No Markdown files were created.");
}

#[test]
fn files_and_unnamed_entries_of_the_tree_are_passed_over() {
    let mut run = run_to_listing(&["alpha", "beta"]);
    let entries = vec![
        DirEntry { name: Some("alpha".to_string()), is_dir: false },
        DirEntry { name: None, is_dir: true },
        dir("beta"),
    ];
    let action = run.step(Event::DocTree(Some(entries)));
    expect_fetch(action, "http://localhost:8000/beta/all.html");
}

#[test]
fn link_reached_twice_is_fetched_twice() {
    let mut run = run_to_listing(&["alpha"]);
    run.step(Event::DocTree(Some(vec![dir("alpha")])));
    let action = run.step(Event::Fetched(Some(index(&["p.html", "p.html"]))));
    expect_fetch(action, "http://localhost:8000/alpha/p.html");
    let action = run.step(Event::Fetched(Some(page("<p>Twice</p>"))));
    expect_fetch(action, "http://localhost:8000/alpha/p.html");
    let action = run.step(Event::Fetched(Some(page("<p>Twice</p>"))));
    let content = expect_write(action, ".knowledgebase/alpha_knowledge.md");
    assert_eq!(content, "Twice\n\nTwice\n\n");
}

#[test]
fn page_without_main_content_adds_nothing() {
    let mut run = run_to_listing(&["alpha"]);
    run.step(Event::DocTree(Some(vec![dir("alpha")])));
    run.step(Event::Fetched(Some(index(&["p.html", "q.html"]))));
    run.step(Event::Fetched(Some("<html><body><p>Elsewhere</p></body></html>".to_string())));
    let action = run.step(Event::Fetched(Some(page("<p>Inside</p>"))));
    let content = expect_write(action, ".knowledgebase/alpha_knowledge.md");
    assert_eq!(content, "Inside\n\n");
}

#[test]
fn distinct_directories_are_crawled_once_and_listed_once() {
    let mut run = run_to_listing(&["gamma", "alpha", "beta-core"]);
    let listing = vec![dir("beta_core"), dir("gamma"), dir("extra_tool"), dir("alpha")];
    let mut action = run.step(Event::DocTree(Some(listing)));
    let mut indexes = Vec::new();
    let mut writes = Vec::new();
    loop {
        action = match action {
            Action::Fetch { url } => {
                indexes.push(url);
                run.step(Event::Fetched(Some(index(&[]))))
            }
            Action::Write { path, .. } => {
                writes.push(path);
                run.step(Event::Written(true))
            }
            Action::Done { summary } => {
                assert_eq!(
                    summary,
                    "Created the following Markdown files in `.knowledgebase`:\n\n\
                     - .knowledgebase/beta_core_knowledge.md\n\
                     - .knowledgebase/gamma_knowledge.md\n\
                     - .knowledgebase/alpha_knowledge.md\n"
                );
                break;
            }
            _ => panic!("the crawl asked for something else"),
        };
    }
    assert_eq!(
        indexes,
        vec![
            "http://localhost:8000/beta_core/all.html",
            "http://localhost:8000/gamma/all.html",
            "http://localhost:8000/alpha/all.html",
        ]
    );
    assert_eq!(
        writes,
        vec![
            ".knowledgebase/beta_core_knowledge.md",
            ".knowledgebase/gamma_knowledge.md",
            ".knowledgebase/alpha_knowledge.md",
        ]
    );
}

#[test]
fn fetching_docs_begins_with_the_manifest() {
    let (run, first) = docs_to_knowledge::crates_io::fetch_docs("/work/tree");
    assert!(matches!(first, Action::ReadManifest { ref path } if path == "/work/tree/Cargo.toml"));
    assert!(!run.is_over());
}

#[test]
fn knowledge_begins_a_run_on_its_source_tree() {
    let knowledge = Knowledge::new("some/repo".to_string(), KnowledgeType::CratesIo);
    assert_eq!(knowledge.repo_path, "some/repo");
    assert_eq!(knowledge.knowledge_type, KnowledgeType::CratesIo);
    let (run, first) = knowledge.fetch_all();
    assert!(matches!(first, Action::ReadManifest { ref path } if path == "some/repo/Cargo.toml"));
    assert!(!run.is_over());
}
