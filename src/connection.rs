use vstd::prelude::*;
use vstd::string::*;

use crate::connection_errors::{empty_request_message, empty_request_record, EmptyRequestError, ResponseError};

verus! {

/// What a request line is answered with: the file to send, the status line
/// to put before it, and how many seconds to wait first.
#[derive(Debug)]
pub struct Route {
    pub filename: String,
    pub status_line: String,
    pub delay_secs: u64,
}

pub open spec fn index_request() -> Seq<char> {
    "GET / HTTP/1.1"@
}

pub open spec fn sleep_request() -> Seq<char> {
    "GET /sleep HTTP/1.1"@
}

/// The route of a request line: the index page, the index page after a
/// five second wait, or the not-found page for anything else.
pub open spec fn route_spec(line: Seq<char>) -> (Seq<char>, Seq<char>, u64) {
    if line == index_request() {
        ("index.html"@, "HTTP/1.1 200 OK\r\n\r\n"@, 0)
    } else if line == sleep_request() {
        ("index.html"@, "HTTP/1.1 200 OK\r\n"@, 5)
    } else {
        ("404.html"@, "HTTP/1.1 404 Not Found\r\n\r\n"@, 0)
    }
}

/// Picks the answer to a request from its first line.
pub fn route(request_line: &str) -> (r: Route)
    ensures
        (r.filename@, r.status_line@, r.delay_secs) == route_spec(request_line@),
{
    let line = String::from_str(request_line);
    if line == String::from_str("GET / HTTP/1.1") {
        Route {
            filename: String::from_str("index.html"),
            status_line: String::from_str("HTTP/1.1 200 OK\r\n\r\n"),
            delay_secs: 0,
        }
    } else if line == String::from_str("GET /sleep HTTP/1.1") {
        Route {
            filename: String::from_str("index.html"),
            status_line: String::from_str("HTTP/1.1 200 OK\r\n"),
            delay_secs: 5,
        }
    } else {
        Route {
            filename: String::from_str("404.html"),
            status_line: String::from_str("HTTP/1.1 404 Not Found\r\n\r\n"),
            delay_secs: 0,
        }
    }
}

/// The response text: the status line, a blank line, then the contents.
pub fn compose_response(status_line: &str, contents: &str) -> (r: String)
    ensures
        r@ == status_line@ + "\r\n\r\n"@ + contents@,
{
    String::from_str(status_line).concat("\r\n\r\n").concat(contents)
}

/// The first line of a request, from what reading it gave: `None` when the
/// request had no line, else the line or the error met while reading it.
pub fn first_request_line(read: Option<Result<String, ResponseError>>) -> (r: Result<
    String,
    ResponseError,
>)
    ensures
        read is None ==> (r matches Err(e) && e.details_view() == empty_request_record(
            empty_request_message(),
        )),
        read matches Some(res) ==> r == res,
{
    match read {
        None => Err(ResponseError::from_empty_request(EmptyRequestError::new())),
        Some(line) => line,
    }
}

} // verus!
