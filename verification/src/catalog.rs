//! The three calls to the subtitle catalog: the request that each one sends,
//! and what its answer means.

use crate::error::OsdError;
use crate::http::{
    header_value_accepted, header_value_allowed, pair_texts, parse_absolute_url, parsed_url,
    push_pair, url_with_params, url_with_query, Method, Request,
};
use crate::json::{json_string_literal, parsed_json, push_json_string, Json};
use crate::resolver::{is_resolution, resolve, ChooserOutcome, SubtitleCandidate};
use crate::text::{integer_text, push_integer, push_text};
use vstd::prelude::*;

verus! {

/// Where subtitles are searched.
pub open spec fn search_endpoint() -> Seq<char> {
    "https://api.opensubtitles.com/api/v1/subtitles"@
}

/// Where a session is opened.
pub open spec fn login_endpoint() -> Seq<char> {
    "https://api.opensubtitles.com/api/v1/login"@
}

/// Where the link to a subtitle file is asked for.
pub open spec fn download_endpoint() -> Seq<char> {
    "https://api.opensubtitles.com/api/v1/download"@
}

/// What is searched for. The title and the fingerprint are two inputs of
/// their own: a search may go by both, or by the title alone.
#[derive(Debug, Clone, PartialEq, Eq)]
pub struct SearchQuery {
    /// The title of the video.
    pub title: String,
    /// The fingerprint of the video, where the search shall go by it.
    pub fingerprint: Option<String>,
    /// The language of the subtitles.
    pub language: String,
}

/// The pairs that a query adds to the URL of the search.
pub open spec fn query_pairs(query: SearchQuery) -> Seq<(Seq<char>, Seq<char>)> {
    seq![("languages"@, query.language@), ("query"@, query.title@)] + (match query.fingerprint {
        Some(hash) => seq![("moviehash"@, hash@)],
        None => Seq::empty(),
    })
}

/// The headers that every call carries.
pub open spec fn common_headers(key: Seq<char>, user_agent: Seq<char>) -> Seq<
    (Seq<char>, Seq<char>),
> {
    seq![
        ("User-Agent"@, user_agent),
        ("Content-Type"@, "application/json"@),
        ("Api-Key"@, key),
    ]
}

/// The headers of a call that sends a body.
pub open spec fn post_headers(key: Seq<char>, user_agent: Seq<char>) -> Seq<
    (Seq<char>, Seq<char>),
> {
    seq![
        ("User-Agent"@, user_agent),
        ("Content-Type"@, "application/json"@),
        ("Accept"@, "application/json"@),
        ("Api-Key"@, key),
    ]
}

/// The value of the header that carries the token of the session.
pub open spec fn bearer(token: Seq<char>) -> Seq<char> {
    "Bearer "@ + token
}

/// The body of the call that opens a session.
pub open spec fn login_body(user: Seq<char>, password: Seq<char>) -> Seq<char> {
    "{\"username\":"@ + json_string_literal(user) + ",\"password\":"@ + json_string_literal(
        password,
    ) + "}"@
}

/// The body of the call that asks for the link to a file.
pub open spec fn download_body(file_id: i64) -> Seq<char> {
    "{\"file_id\":"@ + integer_text(file_id as int) + "}"@
}

/// Whether `r` is the request that searches the catalog for `query`, or the
/// failure to make it.
pub open spec fn is_search_request(
    query: SearchQuery,
    key: Seq<char>,
    user_agent: Seq<char>,
    r: Result<Request, OsdError>,
) -> bool {
    match url_with_query(search_endpoint(), query_pairs(query)) {
        None => r == Err::<Request, OsdError>(OsdError::InvalidUrl),
        Some(url) => if header_value_allowed(user_agent) && header_value_allowed(key) {
            &&& r is Ok
            &&& r->Ok_0.method == Method::Get
            &&& r->Ok_0.url@ == url
            &&& pair_texts(r->Ok_0.headers@) == common_headers(key, user_agent)
            &&& r->Ok_0.body@ == Seq::<char>::empty()
        } else {
            r == Err::<Request, OsdError>(OsdError::InvalidHeader)
        },
    }
}

/// The request that searches the catalog.
///
/// It fails with `InvalidUrl` where the URL cannot be made, and with
/// `InvalidHeader` where the user agent or the key cannot be a header value.
pub fn search_request(query: &SearchQuery, key: &str, user_agent: &str) -> (r: Result<
    Request,
    OsdError,
>)
    ensures
        is_search_request(*query, key@, user_agent@, r),
{
    let mut pairs: Vec<(String, String)> = Vec::new();
    push_pair(&mut pairs, "languages", query.language.as_str());
    push_pair(&mut pairs, "query", query.title.as_str());
    match &query.fingerprint {
        Some(hash) => {
            push_pair(&mut pairs, "moviehash", hash.as_str());
        },
        None => {},
    }
    assert(pair_texts(pairs@) =~= query_pairs(*query));
    let url = match url_with_params("https://api.opensubtitles.com/api/v1/subtitles", &pairs) {
        Some(url) => url,
        None => {
            return Err(OsdError::InvalidUrl);
        },
    };
    if !header_value_accepted(user_agent) || !header_value_accepted(key) {
        return Err(OsdError::InvalidHeader);
    }
    let mut headers: Vec<(String, String)> = Vec::new();
    push_pair(&mut headers, "User-Agent", user_agent);
    push_pair(&mut headers, "Content-Type", "application/json");
    push_pair(&mut headers, "Api-Key", key);
    assert(pair_texts(headers@) =~= common_headers(key@, user_agent@));
    Ok(Request { method: Method::Get, url, headers, body: String::new() })
}

/// Whether `r` is the request that opens a session for the user, or the
/// failure to make it.
pub open spec fn is_login_request(
    key: Seq<char>,
    user: Seq<char>,
    password: Seq<char>,
    user_agent: Seq<char>,
    r: Result<Request, OsdError>,
) -> bool {
    if !(header_value_allowed(user_agent) && header_value_allowed(key)) {
        r == Err::<Request, OsdError>(OsdError::InvalidHeader)
    } else {
        match parsed_url(login_endpoint()) {
            None => r == Err::<Request, OsdError>(OsdError::InvalidUrl),
            Some(url) => {
                &&& r is Ok
                &&& r->Ok_0.method == Method::Post
                &&& r->Ok_0.url@ == url
                &&& pair_texts(r->Ok_0.headers@) == post_headers(key, user_agent)
                &&& r->Ok_0.body@ == login_body(user, password)
            },
        }
    }
}

/// The request that opens a session for the user.
///
/// It fails with `InvalidHeader` where the user agent or the key cannot be a
/// header value, and with `InvalidUrl` where the URL cannot be made.
pub fn login_request(key: &str, user: &str, password: &str, user_agent: &str) -> (r: Result<
    Request,
    OsdError,
>)
    ensures
        is_login_request(key@, user@, password@, user_agent@, r),
{
    if !header_value_accepted(user_agent) || !header_value_accepted(key) {
        return Err(OsdError::InvalidHeader);
    }
    let mut headers: Vec<(String, String)> = Vec::new();
    push_pair(&mut headers, "User-Agent", user_agent);
    push_pair(&mut headers, "Content-Type", "application/json");
    push_pair(&mut headers, "Accept", "application/json");
    push_pair(&mut headers, "Api-Key", key);
    assert(pair_texts(headers@) =~= post_headers(key@, user_agent@));
    let url = match parse_absolute_url("https://api.opensubtitles.com/api/v1/login") {
        Some(url) => url,
        None => {
            return Err(OsdError::InvalidUrl);
        },
    };
    let mut body = String::new();
    push_text(&mut body, "{\"username\":");
    push_json_string(&mut body, user);
    push_text(&mut body, ",\"password\":");
    push_json_string(&mut body, password);
    push_text(&mut body, "}");
    Ok(Request { method: Method::Post, url, headers, body })
}

/// Whether `r` is the request that asks for the link to the file `file_id`,
/// or the failure to make it.
pub open spec fn is_download_request(
    file_id: i64,
    token: Seq<char>,
    key: Seq<char>,
    user_agent: Seq<char>,
    r: Result<Request, OsdError>,
) -> bool {
    if !(header_value_allowed(user_agent) && header_value_allowed(key) && header_value_allowed(
        bearer(token),
    )) {
        r == Err::<Request, OsdError>(OsdError::InvalidHeader)
    } else {
        match parsed_url(download_endpoint()) {
            None => r == Err::<Request, OsdError>(OsdError::InvalidUrl),
            Some(url) => {
                &&& r is Ok
                &&& r->Ok_0.method == Method::Post
                &&& r->Ok_0.url@ == url
                &&& pair_texts(r->Ok_0.headers@) == post_headers(key, user_agent).push(
                    ("Authorization"@, bearer(token)),
                )
                &&& r->Ok_0.body@ == download_body(file_id)
            },
        }
    }
}

/// The request that asks for the link to the file `file_id`, in the session
/// of `token`.
///
/// It fails with `InvalidHeader` where the user agent, the key or the token
/// cannot be a header value, and with `InvalidUrl` where the URL cannot be
/// made.
pub fn download_request(file_id: i64, token: &str, key: &str, user_agent: &str) -> (r: Result<
    Request,
    OsdError,
>)
    ensures
        is_download_request(file_id, token@, key@, user_agent@, r),
{
    let mut authorization = "Bearer ".to_owned();
    push_text(&mut authorization, token);
    if !header_value_accepted(user_agent) || !header_value_accepted(key) || !header_value_accepted(
        authorization.as_str(),
    ) {
        return Err(OsdError::InvalidHeader);
    }
    let mut headers: Vec<(String, String)> = Vec::new();
    push_pair(&mut headers, "User-Agent", user_agent);
    push_pair(&mut headers, "Content-Type", "application/json");
    push_pair(&mut headers, "Accept", "application/json");
    push_pair(&mut headers, "Api-Key", key);
    push_pair(&mut headers, "Authorization", authorization.as_str());
    assert(pair_texts(headers@) =~= post_headers(key@, user_agent@).push(
        ("Authorization"@, bearer(token@)),
    ));
    let url = match parse_absolute_url("https://api.opensubtitles.com/api/v1/download") {
        Some(url) => url,
        None => {
            return Err(OsdError::InvalidUrl);
        },
    };
    let mut body = String::new();
    push_text(&mut body, "{\"file_id\":");
    push_integer(&mut body, file_id);
    push_text(&mut body, "}");
    Ok(Request { method: Method::Post, url, headers, body })
}

/// The first file of a record of the search, where the record has one.
pub open spec fn first_file(record: Json) -> Option<Json> {
    match record.member("attributes"@) {
        Some(attributes) => match attributes.member("files"@) {
            Some(files) => files.item(0),
            None => None,
        },
        None => None,
    }
}

/// Whether a record of the search was found by the fingerprint.
pub open spec fn record_matched(record: Json) -> bool {
    match record.member("attributes"@) {
        Some(attributes) => match attributes.member("moviehash_match"@) {
            Some(flag) => flag.is_true(),
            None => false,
        },
        None => false,
    }
}

/// The name of a file of a record, empty where the file has none.
pub open spec fn file_name_of(file: Json) -> Seq<char> {
    match file.member("file_name"@) {
        Some(name) => match name.text() {
            Some(text) => text,
            None => Seq::empty(),
        },
        None => Seq::empty(),
    }
}

/// The identifier of a file of a record, where it is an integer.
pub open spec fn file_id_of(file: Json) -> Option<i64> {
    match file.member("file_id"@) {
        Some(id) => id.integer(),
        None => None,
    }
}

/// Whether a record of the search makes a candidate: it has a first file,
/// and that file has an integer as its identifier.
pub open spec fn record_decodes(record: Json) -> bool {
    first_file(record) is Some && file_id_of(first_file(record)->Some_0) is Some
}

/// Whether `candidate` is the candidate that `record` makes.
pub open spec fn is_candidate_of(candidate: SubtitleCandidate, record: Json) -> bool {
    &&& record_decodes(record)
    &&& candidate.display_name@ == file_name_of(first_file(record)->Some_0)
    &&& candidate.remote_file_id == file_id_of(first_file(record)->Some_0)->Some_0
    &&& candidate.fingerprint_matched == record_matched(record)
}

/// Whether each of the records makes a candidate.
pub open spec fn all_decode(records: Seq<Json>) -> bool {
    forall|i: int| 0 <= i < records.len() ==> record_decodes(#[trigger] records[i])
}

/// The number of subtitles that the answer to a search counts, where it
/// names one.
pub open spec fn total_count_of(document: Json) -> Option<i64> {
    match document.member("total_count"@) {
        Some(count) => count.integer(),
        None => None,
    }
}

/// The records of the answer to a search, where it has any.
pub open spec fn records_of(document: Json) -> Option<Seq<Json>> {
    match document.member("data"@) {
        Some(data) => data.items(),
        None => None,
    }
}

/// Why the answer to a search gives no candidates, where it gives none.
///
/// An answer without a count, without records, or with a record that makes
/// no candidate is of the wrong shape. A count below one says that the
/// catalog found nothing.
pub open spec fn search_failure(document: Json) -> Option<OsdError> {
    match total_count_of(document) {
        None => Some(OsdError::Decode),
        Some(count) => if count < 1 {
            Some(OsdError::NoResults)
        } else {
            match records_of(document) {
                None => Some(OsdError::Decode),
                Some(records) => if all_decode(records) {
                    None
                } else {
                    Some(OsdError::Decode)
                },
            }
        },
    }
}

/// Whether `r` is what the answer `document` to a search gives: the failure
/// that `search_failure` names, or one candidate for each record, in the
/// order of the records.
pub open spec fn is_search_result(document: Json, r: Result<Vec<SubtitleCandidate>, OsdError>) -> bool {
    match search_failure(document) {
        Some(e) => r == Err::<Vec<SubtitleCandidate>, OsdError>(e),
        None => {
            &&& r is Ok
            &&& r->Ok_0@.len() == records_of(document)->Some_0.len()
            &&& forall|i: int|
                0 <= i < r->Ok_0@.len() ==> is_candidate_of(
                    #[trigger] r->Ok_0@[i],
                    records_of(document)->Some_0[i],
                )
        },
    }
}

/// The candidate that a record of the search makes.
fn decode_record(record: &Json) -> (r: Option<SubtitleCandidate>)
    ensures
        r is Some <==> record_decodes(*record),
        r is Some ==> is_candidate_of(r->Some_0, *record),
{
    let attributes = match record.get("attributes") {
        Some(attributes) => attributes,
        None => {
            return None;
        },
    };
    let files = match attributes.get("files") {
        Some(files) => files,
        None => {
            return None;
        },
    };
    let file = match files.at(0) {
        Some(file) => file,
        None => {
            return None;
        },
    };
    let id = match file.get("file_id") {
        Some(id) => match id.as_i64() {
            Some(id) => id,
            None => {
                return None;
            },
        },
        None => {
            return None;
        },
    };
    let name = match file.get("file_name") {
        Some(name) => match name.as_str() {
            Some(text) => text.clone(),
            None => String::new(),
        },
        None => String::new(),
    };
    let matched = match attributes.get("moviehash_match") {
        Some(flag) => flag.is_bool_true(),
        None => false,
    };
    Some(SubtitleCandidate { display_name: name, remote_file_id: id, fingerprint_matched: matched })
}

/// One candidate for each record, where every record makes one.
fn decode_records(records: &Vec<Json>) -> (r: Option<Vec<SubtitleCandidate>>)
    ensures
        r is Some <==> all_decode(records@),
        r is Some ==> r->Some_0@.len() == records@.len() && forall|i: int|
            0 <= i < records@.len() ==> is_candidate_of(#[trigger] r->Some_0@[i], records@[i]),
{
    let mut candidates: Vec<SubtitleCandidate> = Vec::new();
    let mut i: usize = 0;
    while i < records.len()
        invariant
            i <= records.len(),
            candidates@.len() == i,
            forall|j: int| 0 <= j < i ==> record_decodes(#[trigger] records@[j]),
            forall|j: int| 0 <= j < i ==> is_candidate_of(#[trigger] candidates@[j], records@[j]),
        decreases records.len() - i,
    {
        match decode_record(&records[i]) {
            Some(candidate) => {
                candidates.push(candidate);
            },
            None => {
                return None;
            },
        }
        i = i + 1;
    }
    Some(candidates)
}

/// The candidates that the answer to a search holds.
pub fn decode_search(document: &Json) -> (r: Result<Vec<SubtitleCandidate>, OsdError>)
    ensures
        is_search_result(*document, r),
{
    let count = match document.get("total_count") {
        Some(count) => match count.as_i64() {
            Some(count) => count,
            None => {
                return Err(OsdError::Decode);
            },
        },
        None => {
            return Err(OsdError::Decode);
        },
    };
    if count < 1 {
        return Err(OsdError::NoResults);
    }
    let records = match document.get("data") {
        Some(Json::Array(records)) => records,
        _ => {
            return Err(OsdError::Decode);
        },
    };
    match decode_records(records) {
        Some(candidates) => Ok(candidates),
        None => Err(OsdError::Decode),
    }
}

/// Whether `r` is what an answer to a search with the given status and body
/// gives. Any status but 200 is a failure of the catalog, and a body that is
/// no JSON is of the wrong shape.
pub open spec fn is_search_answer(
    status: u16,
    body: Seq<char>,
    r: Result<Vec<SubtitleCandidate>, OsdError>,
) -> bool {
    if status != 200 {
        r is Err && r->Err_0.is_remote(status, body)
    } else {
        match parsed_json(body) {
            None => r == Err::<Vec<SubtitleCandidate>, OsdError>(OsdError::Decode),
            Some(document) => is_search_result(document, r),
        }
    }
}

/// The candidates that the catalog found, from the status and the body of
/// its answer to a search.
///
/// Any status but 200 is a failure of the catalog, and a body that is no
/// JSON is of the wrong shape.
pub fn search_results(status: u16, body: &str) -> (r: Result<Vec<SubtitleCandidate>, OsdError>)
    ensures
        is_search_answer(status, body@, r),
{
    if status != 200 {
        return Err(OsdError::Remote { status, body: body.to_owned() });
    }
    match Json::parse(body) {
        Some(document) => decode_search(&document),
        None => Err(OsdError::Decode),
    }
}

/// Whether `r` is what the answer `document` to a search leads to: the
/// failure of the answer, or what is taken from its candidates.
pub open spec fn is_search_resolution(
    document: Json,
    interactive: bool,
    answer: ChooserOutcome,
    r: Result<i64, OsdError>,
) -> bool {
    match search_failure(document) {
        Some(e) => r == Err::<i64, OsdError>(e),
        None => exists|found: Vec<SubtitleCandidate>|
            is_search_result(document, Ok(found)) && is_resolution(found@, interactive, answer, r),
    }
}

/// The identifier of the subtitle to fetch, from the status and the body of
/// the answer to a search.
///
/// With `use_gui` unset the automatic pick is taken and `answer` is not
/// looked at. With it set, `answer` is what the dialog gave when it showed
/// the candidates of this same answer.
pub fn search_for_subtitle_id_key(status: u16, body: &str, use_gui: bool, answer: ChooserOutcome) -> (r:
    Result<i64, OsdError>)
    ensures
        if status != 200 {
            r is Err && r->Err_0.is_remote(status, body@)
        } else {
            match parsed_json(body@) {
                None => r == Err::<i64, OsdError>(OsdError::Decode),
                Some(document) => is_search_resolution(document, use_gui, answer, r),
            }
        },
{
    match search_results(status, body) {
        Ok(candidates) => {
            let r = resolve(&candidates, use_gui, answer);
            proof {
                let document = parsed_json(body@)->Some_0;
                assert(is_search_result(document, Ok(candidates)));
            }
            r
        },
        Err(e) => Err(e),
    }
}

/// The token of the session in the answer to a login, where it has one.
pub open spec fn token_of(document: Json) -> Option<Seq<char>> {
    match document.member("token"@) {
        Some(token) => token.text(),
        None => None,
    }
}

/// Whether `r` is what the answer `document` to a login gives: its token, or
/// the failure of an answer of the wrong shape.
pub open spec fn is_login_result(document: Json, r: Result<String, OsdError>) -> bool {
    match token_of(document) {
        Some(token) => r is Ok && r->Ok_0@ == token,
        None => r == Err::<String, OsdError>(OsdError::Decode),
    }
}

/// The token of the session that the answer to a login holds.
pub fn decode_login(document: &Json) -> (r: Result<String, OsdError>)
    ensures
        is_login_result(*document, r),
{
    match document.get("token") {
        Some(token) => match token.as_str() {
            Some(text) => Ok(text.clone()),
            None => Err(OsdError::Decode),
        },
        None => Err(OsdError::Decode),
    }
}

/// Whether `r` is what an answer to a login with the given status and body
/// gives.
pub open spec fn is_login_answer(status: u16, body: Seq<char>, r: Result<String, OsdError>) -> bool {
    if status != 200 {
        r is Err && r->Err_0.is_remote(status, body)
    } else {
        match parsed_json(body) {
            None => r == Err::<String, OsdError>(OsdError::Decode),
            Some(document) => is_login_result(document, r),
        }
    }
}

/// The token of the session, from the status and the body of the answer to
/// a login.
pub fn login(status: u16, body: &str) -> (r: Result<String, OsdError>)
    ensures
        is_login_answer(status, body@, r),
{
    if status != 200 {
        return Err(OsdError::Remote { status, body: body.to_owned() });
    }
    match Json::parse(body) {
        Some(document) => decode_login(&document),
        None => Err(OsdError::Decode),
    }
}

/// The link to a subtitle file, and what the catalog says of the quota.
#[derive(Debug, Clone, PartialEq, Eq)]
pub struct Url {
    /// Where the file can be fetched.
    pub link: String,
    /// The downloads that were made today.
    pub requests: u16,
    /// The downloads that are left for today.
    pub remaining: u16,
    /// What the catalog has to say.
    pub message: String,
    /// In how long the quota is reset.
    pub reset_time: String,
    /// When the quota is reset.
    pub reset_time_utc: String,
}

/// A count of the answer: zero where the answer does not name it, and
/// nothing where what it names is no integer from 0 to 65535.
pub open spec fn count_of(document: Json, name: Seq<char>) -> Option<u16> {
    match document.member(name) {
        None => Some(0),
        Some(value) => match value.integer() {
            Some(n) => if 0 <= n <= 65535 {
                Some(n as u16)
            } else {
                None
            },
            None => None,
        },
    }
}

/// A text of the answer: empty where the answer does not name it, and
/// nothing where what it names is no string.
pub open spec fn text_of(document: Json, name: Seq<char>) -> Option<Seq<char>> {
    match document.member(name) {
        None => Some(Seq::empty()),
        Some(value) => value.text(),
    }
}

/// The link of the answer, where the answer names one that is a string.
pub open spec fn link_of(document: Json) -> Option<Seq<char>> {
    match document.member("link"@) {
        Some(link) => link.text(),
        None => None,
    }
}

/// Whether the answer to the request for a link is of the right shape: it
/// has a link, and each of the other members is of its type or is left out.
pub open spec fn grant_decodes(document: Json) -> bool {
    &&& link_of(document) is Some
    &&& count_of(document, "requests"@) is Some
    &&& count_of(document, "remaining"@) is Some
    &&& text_of(document, "message"@) is Some
    &&& text_of(document, "reset_time"@) is Some
    &&& text_of(document, "reset_time_utc"@) is Some
}

/// Whether `r` is what the answer `document` to the request for a link
/// gives. An answer that holds the link alone is taken too: its counts are
/// zero and its texts are empty.
pub open spec fn is_download_result(document: Json, r: Result<Url, OsdError>) -> bool {
    if grant_decodes(document) {
        &&& r is Ok
        &&& r->Ok_0.link@ == link_of(document)->Some_0
        &&& r->Ok_0.requests == count_of(document, "requests"@)->Some_0
        &&& r->Ok_0.remaining == count_of(document, "remaining"@)->Some_0
        &&& r->Ok_0.message@ == text_of(document, "message"@)->Some_0
        &&& r->Ok_0.reset_time@ == text_of(document, "reset_time"@)->Some_0
        &&& r->Ok_0.reset_time_utc@ == text_of(document, "reset_time_utc"@)->Some_0
    } else {
        r == Err::<Url, OsdError>(OsdError::Decode)
    }
}

/// A count of the answer.
fn decode_count(document: &Json, name: &str) -> (r: Option<u16>)
    ensures
        r == count_of(*document, name@),
{
    match document.get(name) {
        None => Some(0),
        Some(value) => match value.as_i64() {
            Some(n) => if 0 <= n && n <= 65535 {
                Some(n as u16)
            } else {
                None
            },
            None => None,
        },
    }
}

/// A text of the answer.
fn decode_text(document: &Json, name: &str) -> (r: Option<String>)
    ensures
        r is Some <==> text_of(*document, name@) is Some,
        r is Some ==> r->Some_0@ == text_of(*document, name@)->Some_0,
{
    match document.get(name) {
        None => Some(String::new()),
        Some(value) => match value.as_str() {
            Some(text) => Some(text.clone()),
            None => None,
        },
    }
}

/// The link and the quota that the answer to the request for a link holds.
pub fn decode_download(document: &Json) -> (r: Result<Url, OsdError>)
    ensures
        is_download_result(*document, r),
{
    let link = match document.get("link") {
        Some(link) => match link.as_str() {
            Some(text) => text.clone(),
            None => {
                return Err(OsdError::Decode);
            },
        },
        None => {
            return Err(OsdError::Decode);
        },
    };
    let requests = match decode_count(document, "requests") {
        Some(n) => n,
        None => {
            return Err(OsdError::Decode);
        },
    };
    let remaining = match decode_count(document, "remaining") {
        Some(n) => n,
        None => {
            return Err(OsdError::Decode);
        },
    };
    let message = match decode_text(document, "message") {
        Some(text) => text,
        None => {
            return Err(OsdError::Decode);
        },
    };
    let reset_time = match decode_text(document, "reset_time") {
        Some(text) => text,
        None => {
            return Err(OsdError::Decode);
        },
    };
    let reset_time_utc = match decode_text(document, "reset_time_utc") {
        Some(text) => text,
        None => {
            return Err(OsdError::Decode);
        },
    };
    Ok(Url { link, requests, remaining, message, reset_time, reset_time_utc })
}

/// Whether `r` is what an answer to the request for a link with the given
/// status and body gives.
pub open spec fn is_download_answer(status: u16, body: Seq<char>, r: Result<Url, OsdError>) -> bool {
    if status != 200 {
        r is Err && r->Err_0.is_remote(status, body)
    } else {
        match parsed_json(body) {
            None => r == Err::<Url, OsdError>(OsdError::Decode),
            Some(document) => is_download_result(document, r),
        }
    }
}

/// The link to the file and the quota, from the status and the body of the
/// answer to the request for a link.
pub fn download_link(status: u16, body: &str) -> (r: Result<Url, OsdError>)
    ensures
        is_download_answer(status, body@, r),
{
    if status != 200 {
        return Err(OsdError::Remote { status, body: body.to_owned() });
    }
    match Json::parse(body) {
        Some(document) => decode_download(&document),
        None => Err(OsdError::Decode),
    }
}

} // verus!
