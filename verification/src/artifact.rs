//! Artifacts and the summary of a run: how a package's pages are joined, where
//! the result is written, and how the list of written files is reported.

use vstd::prelude::*;
use vstd::string::StringExecFns;
use crate::text::texts;

verus! {

/// The text of an artifact: every page followed by a blank line, in the order
/// the pages were added.
pub open spec fn joined(pages: Seq<Seq<char>>) -> Seq<char>
    decreases pages.len(),
{
    if pages.len() == 0 {
        Seq::empty()
    } else {
        joined(pages.drop_last()) + pages.last() + "\n\n"@
    }
}

/// The name of the file that holds the artifact of package `id`.
pub open spec fn artifact_name(id: Seq<char>) -> Seq<char> {
    id + "_knowledge.md"@
}

/// The place of the artifact of package `id` below the directory `dir`.
pub open spec fn artifact_path(dir: Seq<char>, id: Seq<char>) -> Seq<char> {
    dir + "/"@ + artifact_name(id)
}

/// Names the output file of a package below the output directory.
pub fn artifact_file_path(dir: &str, id: &str) -> (path: String)
    ensures
        path@ == artifact_path(dir@, id@),
{
    let mut path = String::from_str(dir);
    path.append("/");
    path.append(id);
    path.append("_knowledge.md");
    assert(path@ == dir@ + "/"@ + (id@ + "_knowledge.md"@));
    path
}

/// The converted pages of one package, gathered in crawl order.
pub struct PackageArtifact {
    text: String,
    pages: Ghost<Seq<Seq<char>>>,
}

impl PackageArtifact {
    /// The pages gathered so far, oldest first.
    pub closed spec fn pages(&self) -> Seq<Seq<char>> {
        self.pages@
    }

    /// The text gathered so far.
    pub closed spec fn text(&self) -> Seq<char> {
        self.text@
    }

    /// The text is the pages joined, each closed by a blank line.
    pub closed spec fn wf(&self) -> bool {
        self.text@ == joined(self.pages@)
    }

    /// An artifact without pages. Its text is empty, and it is an artifact
    /// all the same: a package without pages is still written.
    pub fn new() -> (artifact: PackageArtifact)
        ensures
            artifact.wf(),
            artifact.pages() == Seq::<Seq<char>>::empty(),
            artifact.text() == Seq::<char>::empty(),
    {
        PackageArtifact { text: String::new(), pages: Ghost(Seq::empty()) }
    }

    /// Adds the markdown of one page behind the pages gathered before it.
    pub fn push_page(&mut self, page: &str)
        requires
            old(self).wf(),
        ensures
            final(self).wf(),
            final(self).pages() == old(self).pages().push(page@),
            final(self).text() == old(self).text() + page@ + "\n\n"@,
    {
        let ghost before = self.pages@;
        self.text.append(page);
        self.text.append("\n\n");
        self.pages = Ghost(before.push(page@));
        assert(before.push(page@).drop_last() =~= before);
    }

    /// The text to write: the pages joined in the order they were added.
    pub fn content(&self) -> (text: String)
        requires
            self.wf(),
        ensures
            text@ == joined(self.pages()),
            text@ == self.text(),
    {
        self.text.clone()
    }
}

/// One line of the summary for each written file.
pub open spec fn summary_lines(paths: Seq<Seq<char>>) -> Seq<char>
    decreases paths.len(),
{
    if paths.len() == 0 {
        Seq::empty()
    } else {
        summary_lines(paths.drop_last()) + "- "@ + paths.last() + "\n"@
    }
}

/// The report of a run: a fixed sentence where nothing was written, else a
/// heading and the written files, one per line, in the order of writing.
pub open spec fn rendered(paths: Seq<Seq<char>>) -> Seq<char> {
    if paths.len() == 0 {
        "No Markdown files were created."@
    } else {
        "Created the following Markdown files in `.knowledgebase`:\n\n"@ + summary_lines(paths)
    }
}

/// The artifacts written in one run, in the order of writing.
pub struct RunSummary {
    written: Vec<String>,
}

impl View for RunSummary {
    type V = Seq<Seq<char>>;

    closed spec fn view(&self) -> Seq<Seq<char>> {
        texts(self.written@)
    }
}

impl RunSummary {
    /// The summary of a run that has written nothing yet.
    pub fn new() -> (summary: RunSummary)
        ensures
            summary@ == Seq::<Seq<char>>::empty(),
    {
        let summary = RunSummary { written: Vec::new() };
        assert(texts(summary.written@) == Seq::<Seq<char>>::empty());
        summary
    }

    /// Lists one more written file, behind those listed before.
    pub fn record(&mut self, path: String)
        ensures
            final(self)@ == old(self)@.push(path@),
    {
        self.written.push(path);
        assert(texts(self.written@) == texts(old(self).written@).push(path@));
    }

    /// The number of files listed.
    pub fn len(&self) -> (n: usize)
        ensures
            n == self@.len(),
    {
        self.written.len()
    }

    /// Renders the summary for display.
    pub fn render(&self) -> (report: String)
        ensures
            report@ == rendered(self@),
    {
        if self.written.len() == 0 {
            return String::from_str("No Markdown files were created.");
        }
        let mut lines = String::new();
        let mut i: usize = 0;
        while i < self.written.len()
            invariant
                i <= self.written.len(),
                lines@ == summary_lines(texts(self.written@).take(i as int)),
            decreases self.written.len() - i,
        {
            proof {
                let all = texts(self.written@);
                assert(all.take(i + 1).drop_last() == all.take(i as int));
                assert(all.take(i + 1).last() == self.written[i as int]@);
            }
            lines.append("- ");
            lines.append(self.written[i].as_str());
            lines.append("\n");
            i += 1;
        }
        assert(texts(self.written@).take(self.written.len() as int) == texts(self.written@));
        let mut report = String::from_str(
            "Created the following Markdown files in `.knowledgebase`:\n\n",
        );
        report.append(lines.as_str());
        report
    }
}

} // verus!
