//! Requests as plain values, and what `reqwest` knows of URLs and header
//! values. Nothing here talks to the network: a request is handed to the
//! caller, who sends it.

use vstd::prelude::*;

verus! {

/// The method of a request.
#[derive(Debug, Clone, Copy, PartialEq, Eq, Structural)]
pub enum Method {
    Get,
    Post,
}

/// A request that is ready to be sent.
#[derive(Debug, Clone, PartialEq, Eq)]
pub struct Request {
    pub method: Method,
    /// The absolute URL, with its query.
    pub url: String,
    /// The headers as pairs of name and value, in the order in which they
    /// are set.
    pub headers: Vec<(String, String)>,
    /// The body, empty where the request has none.
    pub body: String,
}

/// The contents of each pair of strings of a sequence.
pub open spec fn pair_texts(pairs: Seq<(String, String)>) -> Seq<(Seq<char>, Seq<char>)> {
    pairs.map_values(|p: (String, String)| (p.0@, p.1@))
}

/// Whether a header value may hold the character: any character but the
/// control characters of ASCII, of which only the tab is allowed.
pub open spec fn header_char_allowed(c: char) -> bool {
    (c as u32 >= 32 && c as u32 != 127) || c == '\t'
}

/// Whether `text` can be the value of a header.
pub open spec fn header_value_allowed(text: Seq<char>) -> bool {
    forall|i: int| 0 <= i < text.len() ==> header_char_allowed(#[trigger] text[i])
}

/// The URL that `base` and the pairs of a query make: `base` as an absolute
/// URL in its normal form, with each pair added to its query in the encoding
/// of HTML forms. Nothing where `base` is no absolute URL.
pub uninterp spec fn url_with_query(base: Seq<char>, pairs: Seq<(Seq<char>, Seq<char>)>) -> Option<
    Seq<char>,
>;

/// The normal form of the absolute URL `text`, and nothing where `text` is
/// none.
pub uninterp spec fn parsed_url(text: Seq<char>) -> Option<Seq<char>>;

/// `reqwest::header::HeaderValue::from_str` accepts a text if and only if
/// each of its bytes is 32 or more and not 127, or is the tab. The bytes of a
/// character from 128 on are all 128 or more, so the same holds character by
/// character.
#[verifier::external_body]
pub(crate) fn header_value_accepted(text: &str) -> (accepted: bool)
    ensures
        accepted == header_value_allowed(text@),
{
    reqwest::header::HeaderValue::from_str(text).is_ok()
}

/// `reqwest::Url::parse_with_params`, with the URL handed back as text. The
/// result depends on the base and the pairs alone.
#[verifier::external_body]
pub(crate) fn url_with_params(base: &str, pairs: &Vec<(String, String)>) -> (url: Option<String>)
    ensures
        match url {
            Some(text) => url_with_query(base@, pair_texts(pairs@)) == Some(text@),
            None => url_with_query(base@, pair_texts(pairs@)) is None,
        },
{
    reqwest::Url::parse_with_params(base, pairs).ok().map(String::from)
}

/// `reqwest::Url::parse`, with the URL handed back as text. The result
/// depends on the text alone.
#[verifier::external_body]
pub(crate) fn parse_absolute_url(text: &str) -> (url: Option<String>)
    ensures
        match url {
            Some(normal) => parsed_url(text@) == Some(normal@),
            None => parsed_url(text@) is None,
        },
{
    reqwest::Url::parse(text).ok().map(String::from)
}

/// Appends one pair.
pub fn push_pair(pairs: &mut Vec<(String, String)>, name: &str, value: &str)
    ensures
        pair_texts(final(pairs)@) == pair_texts(old(pairs)@).push((name@, value@)),
{
    pairs.push((name.to_owned(), value.to_owned()));
}

} // verus!
