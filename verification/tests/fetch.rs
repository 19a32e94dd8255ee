use osd::error::OsdError;
use osd::fetch::{download_save_file, fetch_request, strip_quotes, FileWrite};
use osd::http::{Method, Request};

#[test]
fn quotes_round_a_link_are_taken_off() {
    assert_eq!(strip_quotes("\"https://x/y.srt\""), "https://x/y.srt");
}

#[test]
fn one_quote_is_taken_off_each_end() {
    assert_eq!(strip_quotes("\"\"a\"\""), "\"a\"");
    assert_eq!(strip_quotes("\"a"), "a");
    assert_eq!(strip_quotes("a\""), "a");
    assert_eq!(strip_quotes("a\"b"), "a\"b");
    assert_eq!(strip_quotes("https://x/y.srt"), "https://x/y.srt");
}

#[test]
fn quotes_alone_leave_nothing() {
    assert_eq!(strip_quotes(""), "");
    assert_eq!(strip_quotes("\""), "");
    assert_eq!(strip_quotes("\"\""), "");
    assert_eq!(strip_quotes("\"\"\""), "\"");
}

#[test]
fn fetch_request_reads_a_quoted_link() {
    assert_eq!(
        fetch_request("\"https://x/y.srt\""),
        Ok(Request {
            method: Method::Get,
            url: "https://x/y.srt".to_string(),
            headers: Vec::new(),
            body: String::new(),
        })
    );
}

#[test]
fn fetch_request_brings_the_link_into_its_normal_form() {
    assert_eq!(fetch_request("HTTPS://CDN.example/a b.srt").unwrap().url, "https://cdn.example/a%20b.srt");
    assert_eq!(fetch_request("https://cdn").unwrap().url, "https://cdn/");
}

#[test]
fn fetch_request_refuses_what_is_no_absolute_url() {
    assert_eq!(fetch_request(""), Err(OsdError::InvalidUrl));
    assert_eq!(fetch_request("x.srt"), Err(OsdError::InvalidUrl));
    assert_eq!(fetch_request("/dl/x.srt"), Err(OsdError::InvalidUrl));
    assert_eq!(fetch_request("\"\"https://x/y.srt\"\""), Err(OsdError::InvalidUrl));
}

#[test]
fn content_is_written_beside_the_video() {
    assert_eq!(
        download_save_file("/home/u/movie.mkv", 200, vec![1, 2, 3]),
        Ok(FileWrite { path: "/home/u/movie.srt".to_string(), content: vec![1, 2, 3] })
    );
    assert_eq!(
        download_save_file("movie", 200, Vec::new()),
        Ok(FileWrite { path: "movie.srt".to_string(), content: Vec::new() })
    );
}

#[test]
fn failed_fetch_writes_nothing() {
    assert_eq!(
        download_save_file("/home/u/movie.mkv", 404, vec![1, 2, 3]),
        Err(OsdError::Remote { status: 404, body: String::new() })
    );
    assert_eq!(
        download_save_file("/home/u/movie.mkv", 204, Vec::new()),
        Err(OsdError::Remote { status: 204, body: String::new() })
    );
}
