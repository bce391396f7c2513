//! The content server's answers: which file a request names and what is sent
//! back for it. Listening and reading files are the caller's part.

use vstd::prelude::*;
use vstd::string::StringExecFns;
use vstd::string::StrSliceExecFns;

verus! {

/// A request path without the slashes it begins with.
pub open spec fn without_leading_slashes(url: Seq<char>) -> Seq<char>
    decreases url.len(),
{
    if url.len() > 0 && url[0] == '/' {
        without_leading_slashes(url.drop_first())
    } else {
        url
    }
}

/// The file that a request for `url` names below the served directory
/// `root`. The request path is taken as it is: nothing keeps it inside
/// `root`, so the server is for trusted local use only.
pub open spec fn served_path(root: Seq<char>, url: Seq<char>) -> Seq<char> {
    root + "/"@ + without_leading_slashes(url)
}

/// Dropping `n` slashes from the front leaves the same relative path.
proof fn lemma_skip_slashes(url: Seq<char>, n: int)
    requires
        0 <= n <= url.len(),
        forall|j: int| 0 <= j < n ==> url[j] == '/',
    ensures
        without_leading_slashes(url) == without_leading_slashes(url.skip(n)),
    decreases n,
{
    if n == 0 {
        assert(url.skip(0) == url);
    } else {
        let rest = url.drop_first();
        assert forall|j: int| 0 <= j < n - 1 implies rest[j] == '/' by {
            assert(rest[j] == url[j + 1]);
        }
        lemma_skip_slashes(rest, n - 1);
        assert(rest.skip(n - 1) == url.skip(n));
    }
}

/// Maps the path of a request onto a path relative to the served directory.
pub fn relative_request_path(url: &str) -> (path: String)
    ensures
        path@ == without_leading_slashes(url@),
{
    let len = url.unicode_len();
    let mut start: usize = 0;
    while start < len && url.get_char(start) == '/'
        invariant
            start <= len,
            len == url@.len(),
            forall|j: int| 0 <= j < start ==> url@[j] == '/',
        decreases len - start,
    {
        start += 1;
    }
    proof {
        lemma_skip_slashes(url@, start as int);
        assert(url@.skip(start as int) == url@.subrange(start as int, len as int));
    }
    String::from_str(url.substring_char(start, len))
}

/// Names the file to read for a request.
pub fn served_file(root: &str, url: &str) -> (path: String)
    ensures
        path@ == served_path(root@, url@),
{
    let relative = relative_request_path(url);
    let mut path = String::from_str(root);
    path.append("/");
    path.append(relative.as_str());
    path
}

/// What the caller found at the path of a request.
pub enum FileLookup {
    /// Nothing exists at the path.
    Missing,
    /// Something exists there and cannot be read as text.
    Unreadable,
    /// The text of the file at the path.
    Text(String),
}

/// An answer of the content server.
pub struct Response {
    pub status: u16,
    pub body: String,
}

/// The status of the answer to a lookup: 200, 500 or 404.
pub open spec fn response_status(lookup: FileLookup) -> u16 {
    match lookup {
        FileLookup::Text(_) => 200,
        FileLookup::Unreadable => 500,
        FileLookup::Missing => 404,
    }
}

/// The body of the answer to a lookup: the file's text, or a line that names
/// the failure.
pub open spec fn response_body(lookup: FileLookup) -> Seq<char> {
    match lookup {
        FileLookup::Text(text) => text@,
        FileLookup::Unreadable => "500 Internal Server Error"@,
        FileLookup::Missing => "404 Not Found"@,
    }
}

/// Answers a request from what was found at its path.
pub fn respond(lookup: FileLookup) -> (response: Response)
    ensures
        response.status == response_status(lookup),
        response.body@ == response_body(lookup),
{
    match lookup {
        FileLookup::Text(text) => Response { status: 200, body: text },
        FileLookup::Unreadable => Response {
            status: 500,
            body: String::from_str("500 Internal Server Error"),
        },
        FileLookup::Missing => Response { status: 404, body: String::from_str("404 Not Found") },
    }
}

} // verus!
