//! Assembling a prompt from the files of a code base: which files are
//! searched for, what each file contributes, and where a failure stops the
//! work. Finding and reading the files is the caller's part.

use vstd::prelude::*;
use vstd::string::StringExecFns;

verus! {

/// What the caller found for one path that the search gave.
pub enum FoundFile {
    /// The path is ignored by the rules of the code base.
    Ignored,
    /// The file at `path` holds `contents`.
    Read { path: String, contents: String },
    /// The file at `path` may not be read.
    Denied { path: String },
    /// The search or the reading failed, as `message` says.
    Failed { message: String },
}

/// An assembled prompt: the text to write, and the failure that ended the
/// work early, if one did.
pub struct Prompt {
    pub text: String,
    pub error: Option<String>,
}

/// The pattern that finds `pattern` in every directory below the current
/// one.
pub open spec fn search_pattern(pattern: Seq<char>) -> Seq<char> {
    "**/"@ + pattern
}

/// What one file contributes: a comment line with its path, its contents,
/// and a blank line.
pub open spec fn file_section(path: Seq<char>, contents: Seq<char>) -> Seq<char> {
    "// "@ + path + "\n"@ + contents + "\n\n"@
}

/// The closing lines of a prompt: the given context, or the default where
/// none is given, and a blank line.
pub open spec fn context_section(context: Option<Seq<char>>, default_context: Seq<char>) -> Seq<
    char,
> {
    match context {
        Some(given) => given + "\n\n"@,
        None => default_context + "\n\n"@,
    }
}

/// The text that the files contribute, in order, up to the first failure,
/// and that failure. Ignored files and files that may not be read
/// contribute nothing and stop nothing.
pub open spec fn sections(files: Seq<FoundFile>) -> (Seq<char>, Option<Seq<char>>)
    decreases files.len(),
{
    if files.len() == 0 {
        (Seq::empty(), None)
    } else {
        let (text, error) = sections(files.drop_last());
        if error is Some {
            (text, error)
        } else {
            match files.last() {
                FoundFile::Read { path, contents } => (text + file_section(path@, contents@), None),
                FoundFile::Failed { message } => (text, Some(message@)),
                FoundFile::Ignored => (text, None),
                FoundFile::Denied { path } => (text, None),
            }
        }
    }
}

/// The whole prompt: the files' sections and then the context, or, where a
/// file failed, the sections before it and the failure.
pub open spec fn prompt_of(
    files: Seq<FoundFile>,
    context: Option<Seq<char>>,
    default_context: Seq<char>,
) -> (Seq<char>, Option<Seq<char>>) {
    let (text, error) = sections(files);
    if error is Some {
        (text, error)
    } else {
        (text + context_section(context, default_context), None)
    }
}

/// Makes the search pattern for the files named by `pattern`.
pub fn recursive_pattern(pattern: &str) -> (full: String)
    ensures
        full@ == search_pattern(pattern@),
{
    let mut full = String::from_str("**/");
    full.append(pattern);
    full
}

/// Assembles the part of a prompt that one search contributes.
pub fn process_files(files: &Vec<FoundFile>, context: Option<&str>, default_context: &str) -> (prompt:
    Prompt)
    ensures
        (
            prompt.text@,
            match prompt.error {
                Some(message) => Some(message@),
                None => None,
            },
        ) == prompt_of(
            files@,
            match context {
                Some(given) => Some(given@),
                None => None,
            },
            default_context@,
        ),
{
    let mut text = String::new();
    let mut i: usize = 0;
    while i < files.len()
        invariant
            i <= files.len(),
            sections(files@.take(i as int)) == (text@, None::<Seq<char>>),
        decreases files.len() - i,
    {
        proof {
            assert(files@.take(i + 1).drop_last() =~= files@.take(i as int));
            assert(files@.take(i + 1).last() == files[i as int]);
        }
        let ghost before = text@;
        match &files[i] {
            FoundFile::Read { path, contents } => {
                text.append("// ");
                text.append(path.as_str());
                text.append("\n");
                text.append(contents.as_str());
                text.append("\n\n");
                assert(text@ =~= before + file_section(path@, contents@));
            },
            FoundFile::Failed { message } => {
                proof {
                    assert(files@.take(files.len() as int) =~= files@);
                    lemma_failure_stops(files@, i as int + 1);
                }
                return Prompt { text, error: Some(message.clone()) };
            },
            FoundFile::Ignored => {},
            FoundFile::Denied { path } => {},
        }
        i += 1;
    }
    assert(files@.take(files.len() as int) =~= files@);
    match context {
        Some(given) => text.append(given),
        None => text.append(default_context),
    }
    text.append("\n\n");
    Prompt { text, error: None }
}

/// Once a file has failed, the files behind it change nothing.
proof fn lemma_failure_stops(files: Seq<FoundFile>, k: int)
    requires
        0 <= k <= files.len(),
        sections(files.take(k)).1 is Some,
    ensures
        sections(files) == sections(files.take(k)),
    decreases files.len() - k,
{
    if k == files.len() {
        assert(files.take(k) =~= files);
    } else {
        assert(files.take(k + 1).drop_last() =~= files.take(k));
        lemma_failure_stops(files, k + 1);
    }
}

} // verus!
