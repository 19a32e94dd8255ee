//! Fetching the subtitle file: the request for it, and where what comes back
//! is written.

use crate::error::OsdError;
use crate::http::{parse_absolute_url, parsed_url, Method, Request};
use crate::paths::{subtitle_path, subtitle_path_of};
use crate::text::{chars_of, string_of};
use vstd::prelude::*;

verus! {

/// A file to write: everything that is at `path` is replaced by `content`.
#[derive(Debug, Clone, PartialEq, Eq)]
pub struct FileWrite {
    pub path: String,
    pub content: Vec<u8>,
}

/// How many double quotes are taken off the front of `text`: one where it
/// starts with one.
pub open spec fn leading_quote(text: Seq<char>) -> int {
    if text.len() > 0 && text[0] == '"' {
        1
    } else {
        0
    }
}

/// `text` without one double quote at its front and one at its end, where
/// they are there. A quote that was taken off the front is not taken off the
/// end again.
pub open spec fn unquoted(text: Seq<char>) -> Seq<char> {
    let rest = text.subrange(leading_quote(text), text.len() as int);
    if rest.len() > 0 && rest.last() == '"' {
        rest.drop_last()
    } else {
        rest
    }
}

/// A text between two double quotes comes out as it went in.
pub proof fn lemma_unquoted_of_quoted(text: Seq<char>)
    ensures
        unquoted(seq!['"'] + text + seq!['"']) == text,
{
    let quoted = seq!['"'] + text + seq!['"'];
    assert(quoted.subrange(1, quoted.len() as int).drop_last() =~= text);
}

/// A text that neither starts nor ends with a double quote is left as it is.
pub proof fn lemma_unquoted_of_plain(text: Seq<char>)
    requires
        text.len() == 0 || (text[0] != '"' && text.last() != '"'),
    ensures
        unquoted(text) == text,
{
}

/// `text` without one double quote at its front and one at its end.
pub fn strip_quotes(text: &str) -> (bare: String)
    ensures
        bare@ == unquoted(text@),
{
    let chars = chars_of(text);
    let from: usize = if chars.len() > 0 && chars[0] == '"' {
        1
    } else {
        0
    };
    let to: usize = if chars.len() > from && chars[chars.len() - 1] == '"' {
        chars.len() - 1
    } else {
        chars.len()
    };
    let bare = string_of(&chars, from, to);
    bare
}

/// Whether `r` is the request that fetches the file behind `link`, or the
/// failure to make it.
pub open spec fn is_fetch_request(link: Seq<char>, r: Result<Request, OsdError>) -> bool {
    match parsed_url(unquoted(link)) {
        None => r == Err::<Request, OsdError>(OsdError::InvalidUrl),
        Some(url) => {
            &&& r is Ok
            &&& r->Ok_0.method == Method::Get
            &&& r->Ok_0.url@ == url
            &&& r->Ok_0.headers@.len() == 0
            &&& r->Ok_0.body@ == Seq::<char>::empty()
        },
    }
}

/// The request that fetches the file behind `link`. The link is signed, so
/// the request carries no header. Quotes round the link are taken off before
/// it is read as a URL.
pub fn fetch_request(link: &str) -> (r: Result<Request, OsdError>)
    ensures
        is_fetch_request(link@, r),
{
    let bare = strip_quotes(link);
    match parse_absolute_url(bare.as_str()) {
        Some(url) => Ok(
            Request { method: Method::Get, url, headers: Vec::new(), body: String::new() },
        ),
        None => Err(OsdError::InvalidUrl),
    }
}

/// Whether `r` is what is written when the fetch of the subtitle for the
/// video at `path` was answered with `status` and `content`.
pub open spec fn is_saved_file(
    path: Seq<char>,
    status: u16,
    content: Seq<u8>,
    r: Result<FileWrite, OsdError>,
) -> bool {
    if status != 200 {
        r is Err && r->Err_0.is_remote(status, Seq::empty())
    } else {
        r is Ok && r->Ok_0.path@ == subtitle_path_of(path) && r->Ok_0.content@ == content
    }
}

/// What is written when the fetch of the subtitle for the video at `path`
/// was answered with `status` and `content`: the content as it came, beside
/// the video, under its name with the extension `srt`. Any status but 200 is
/// a failure of the server, and nothing is written.
pub fn download_save_file(path: &str, status: u16, content: Vec<u8>) -> (r: Result<
    FileWrite,
    OsdError,
>)
    ensures
        is_saved_file(path@, status, content@, r),
{
    if status != 200 {
        return Err(OsdError::Remote { status, body: String::new() });
    }
    Ok(FileWrite { path: subtitle_path(path), content })
}

} // verus!
