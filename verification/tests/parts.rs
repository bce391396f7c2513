use docs_to_knowledge::artifact::{artifact_file_path, PackageArtifact, RunSummary};
use docs_to_knowledge::error::{BuildError, RunError};
use docs_to_knowledge::event::DirEntry;
use docs_to_knowledge::html::{
    convert_page, extract_links, extract_main_content, first_match, is_convertible,
    present_values,
};
use docs_to_knowledge::package::{normalize_package_name, PackageSet};
use docs_to_knowledge::pipeline::{index_page_url, linked_page_url, select_targets};
use docs_to_knowledge::server::{relative_request_path, respond, served_file, FileLookup};

#[test]
fn package_names_are_normalized() {
    assert_eq!(normalize_package_name("beta-core"), "beta_core");
    assert_eq!(normalize_package_name("alpha"), "alpha");
    assert_eq!(normalize_package_name("a-b-c"), "a_b_c");
    assert_eq!(normalize_package_name("-"), "_");
    assert_eq!(normalize_package_name(""), "");
    assert_eq!(normalize_package_name("Mixed-Case_x"), "Mixed_Case_x");
}

#[test]
fn resolved_set_holds_each_normalized_name() {
    let declared = vec!["alpha".to_string(), "beta-core".to_string(), "gamma".to_string()];
    let set = PackageSet::resolve(&declared);
    assert!(set.contains("alpha"));
    assert!(set.contains("beta_core"));
    assert!(set.contains("gamma"));
    assert!(!set.contains("beta-core"));
    assert!(!set.contains("Alpha"));
    assert!(!set.contains("extra_tool"));
    assert!(!PackageSet::empty().contains("alpha"));
}

#[test]
fn distinct_packages_are_all_counted() {
    let declared = vec!["alpha".to_string(), "beta-core".to_string(), "gamma".to_string()];
    assert_eq!(PackageSet::resolve(&declared).len(), 3);
    assert_eq!(PackageSet::resolve(&vec![]).len(), 0);
    assert_eq!(PackageSet::empty().len(), 0);
}

#[test]
fn names_with_one_normal_form_are_one_package() {
    let declared = vec!["a-b".to_string(), "a_b".to_string(), "a-b".to_string()];
    let set = PackageSet::resolve(&declared);
    assert_eq!(set.len(), 1);
    assert!(set.contains("a_b"));
    assert!(!set.contains("a-b"));
}

#[test]
fn main_content_is_the_inside_of_the_marked_element() {
    let html = "<html><body><h1>Site</h1><div id=\"main-content\"><p>Hello <b>you</b></p></div>\
                <div id=\"footer\">bye</div></body></html>";
    assert_eq!(extract_main_content(html), "<p>Hello <b>you</b></p>");
}

#[test]
fn first_marked_element_wins() {
    let html = "<div id=\"main-content\">first</div><div id=\"main-content\">second</div>";
    assert_eq!(extract_main_content(html), "first");
}

#[test]
fn page_without_marker_has_empty_content() {
    assert_eq!(extract_main_content("<html><body><p>Nothing marked</p></body></html>"), "");
    assert_eq!(extract_main_content(""), "");
    assert_eq!(extract_main_content("<div class=\"main-content\">by class</div>"), "");
    assert_eq!(extract_main_content("not html at all <<<>>>"), "");
}

#[test]
fn first_match_of_nothing_is_empty() {
    assert_eq!(first_match(None), "");
    assert_eq!(first_match(Some(vec![])), "");
    assert_eq!(first_match(Some(vec!["a".to_string(), "b".to_string()])), "a");
}

#[test]
fn links_come_in_document_order_with_repeats() {
    let html = "<a href=\"b.html\">b</a><p><a href=\"a.html\">a</a></p><a name=\"x\">no link</a>\
                <a href=\"b.html\">again</a>";
    assert_eq!(extract_links(html), vec!["b.html", "a.html", "b.html"]);
    assert!(extract_links("<p>no anchors</p>").is_empty());
}

#[test]
fn present_values_keeps_what_is_there() {
    let found = Some(vec![Some("x".to_string()), None, Some("y".to_string()), None]);
    assert_eq!(present_values(found), vec!["x", "y"]);
    assert!(present_values(None).is_empty());
    assert!(present_values(Some(vec![None, None])).is_empty());
}

#[test]
fn heading_and_paragraph_convert_to_markdown() {
    let html = "<div id=\"main-content\"><h3>Overview</h3><p>Plain words here.</p></div>";
    let markdown = convert_page(html).expect("the page has main content");
    assert!(markdown.contains("### Overview"));
    assert!(markdown.contains("Plain words here."));
    assert!(!markdown.contains("<h3>"));
    assert!(!markdown.contains("<p>"));
}

#[test]
fn conversion_is_the_same_each_time() {
    let html = "<div id=\"main-content\"><ul><li>one</li><li>two</li></ul>\
                <a href=\"x.html\">link</a> <em>soft</em></div>";
    assert_eq!(convert_page(html), convert_page(html));
}

#[test]
fn page_without_content_converts_to_nothing() {
    assert_eq!(convert_page("<html><body><p>text</p></body></html>"), None);
    assert_eq!(convert_page("<div id=\"main-content\"></div>"), None);
}

#[test]
fn lists_convert_to_markdown_items() {
    let html = "<div id=\"main-content\"><ul><li>one</li><li>two</li></ul>\
                <ol><li>first</li></ol></div>";
    let markdown = convert_page(html).expect("lists can be converted");
    assert!(markdown.contains("* one"));
    assert!(markdown.contains("* two"));
    assert!(markdown.contains("1. first"));
}

#[test]
fn stray_list_items_are_not_converted() {
    assert!(is_convertible("<p>text</p>"));
    assert!(is_convertible("<ul><li>in a list<ul><li>nested</li></ul></li></ul>"));
    assert!(is_convertible("<ol><li><blockquote>quoted</blockquote></li></ol>"));
    assert!(is_convertible("<menu><li>entry</li></menu>"));
    assert!(is_convertible("<table><tr><td>cell</td></tr></table>"));
    assert!(is_convertible("<table><tr><th><ul><li>x</li></ul></th></tr></table>"));
    assert!(is_convertible(""));
    assert!(!is_convertible("<blockquote><li></li></blockquote>"));
    assert!(!is_convertible("<li>alone</li>"));
    assert!(!is_convertible("<ul><blockquote><li>x</li></blockquote></ul>"));
    assert!(!is_convertible("<ul><li><table><tr><td><li>x</li></td></tr></table></li></ul>"));
    let page = "<div id=\"main-content\"><blockquote><li></li></blockquote></div>";
    assert_eq!(convert_page(page), None);
    let page = "<div id=\"main-content\"><p>\n</p><a href=\"x\"><li> </li></a></div>";
    assert_eq!(convert_page(page), None);
}

#[test]
fn lists_inside_table_cells_are_converted() {
    let page = "<div id=\"main-content\"><table><tr><th>Head</th></tr>\
                <tr><td><ul><li>item one</li><li>item two</li></ul></td></tr></table></div>";
    let markdown = convert_page(page).expect("a list in a cell can be converted");
    assert!(markdown.contains("Head"));
    assert!(markdown.contains("item one"));
    assert!(markdown.contains("item two"));
    let nested = "<div id=\"main-content\"><ul><li>outer<table><tr><td>\
                  <blockquote><ol><li>\n inner</li></ol></blockquote></td></tr></table></li></ul>\
                  </div>";
    let markdown = convert_page(nested).expect("nested lists and tables can be converted");
    assert!(markdown.contains("outer"));
    assert!(markdown.contains("inner"));
}

#[test]
fn artifact_joins_pages_with_blank_lines() {
    let mut artifact = PackageArtifact::new();
    assert_eq!(artifact.content(), "");
    artifact.push_page("# One");
    assert_eq!(artifact.content(), "# One\n\n");
    artifact.push_page("Two");
    artifact.push_page("");
    assert_eq!(artifact.content(), "# One\n\nTwo\n\n\n\n");
}

#[test]
fn artifact_is_named_after_its_package() {
    assert_eq!(artifact_file_path(".knowledgebase", "alpha"), ".knowledgebase/alpha_knowledge.md");
    assert_eq!(artifact_file_path("out", "beta_core"), "out/beta_core_knowledge.md");
}

#[test]
fn summary_lists_written_files_in_order() {
    let mut summary = RunSummary::new();
    assert_eq!(summary.len(), 0);
    assert_eq!(summary.render(), "No Markdown files were created.");
    summary.record("out/b.md".to_string());
    summary.record("out/a.md".to_string());
    assert_eq!(summary.len(), 2);
    assert_eq!(
        summary.render(),
        "Created the following Markdown files in `.knowledgebase`:\n\n- out/b.md\n- out/a.md\n"
    );
}

#[test]
fn addresses_of_index_and_pages() {
    assert_eq!(index_page_url("alpha"), "http://localhost:8000/alpha/all.html");
    assert_eq!(
        linked_page_url("beta_core", "struct.Thing.html"),
        "http://localhost:8000/beta_core/struct.Thing.html"
    );
    assert_eq!(linked_page_url("a", ""), "http://localhost:8000/a/");
}

#[test]
fn targets_are_resolved_directories_in_listing_order() {
    let set = PackageSet::resolve(&vec!["beta-core".to_string(), "alpha".to_string()]);
    let entries = vec![
        DirEntry { name: Some("static.files".to_string()), is_dir: true },
        DirEntry { name: Some("beta_core".to_string()), is_dir: true },
        DirEntry { name: Some("alpha".to_string()), is_dir: false },
        DirEntry { name: Some("extra_tool".to_string()), is_dir: true },
        DirEntry { name: None, is_dir: true },
        DirEntry { name: Some("alpha".to_string()), is_dir: true },
    ];
    assert_eq!(select_targets(&entries, &set), vec!["beta_core", "alpha"]);
    assert!(select_targets(&vec![], &set).is_empty());
}

#[test]
fn request_paths_lose_their_leading_slashes() {
    assert_eq!(relative_request_path("/alpha/all.html"), "alpha/all.html");
    assert_eq!(relative_request_path("///x"), "x");
    assert_eq!(relative_request_path("x/y/"), "x/y/");
    assert_eq!(relative_request_path("/"), "");
    assert_eq!(relative_request_path(""), "");
    assert_eq!(relative_request_path("/é/ü"), "é/ü");
    assert_eq!(served_file("/doc", "/alpha/all.html"), "/doc/alpha/all.html");
    assert_eq!(served_file("/doc", "/../secret"), "/doc/../secret");
}

#[test]
fn server_answers_with_200_404_and_500() {
    let found = respond(FileLookup::Text("<p>page</p>".to_string()));
    assert_eq!(found.status, 200);
    assert_eq!(found.body, "<p>page</p>");
    let missing = respond(FileLookup::Missing);
    assert_eq!(missing.status, 404);
    assert_eq!(missing.body, "404 Not Found");
    let unreadable = respond(FileLookup::Unreadable);
    assert_eq!(unreadable.status, 500);
    assert_eq!(unreadable.body, "500 Internal Server Error");
}

#[test]
fn failures_describe_themselves() {
    assert_eq!(
        RunError::Build(BuildError::GeneratorFailed).message(),
        "Failed to generate documentation with `cargo doc`."
    );
    assert_eq!(
        RunError::Build(BuildError::OutputMissing).message(),
        "Documentation directory not found."
    );
    assert_eq!(RunError::Resolution.message(), "Failed to read the package metadata.");
    assert_eq!(RunError::Server.message(), "Failed to start the documentation server.");
    assert_eq!(RunError::Io.message(), "Failed to access a directory of the run.");
    assert_eq!(RunError::OutOfTurn.message(), "Received a result that was not asked for.");
}
