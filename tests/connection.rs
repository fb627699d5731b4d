use multi_thread_server::connection::{compose_response, first_request_line, route};
use multi_thread_server::connection_errors::{EmptyRequestError, ResponseError};

#[test]
fn index_route() {
    let r = route("GET / HTTP/1.1");
    assert_eq!(r.filename, "index.html");
    assert_eq!(r.status_line, "HTTP/1.1 200 OK\r\n\r\n");
    assert_eq!(r.delay_secs, 0);
}

#[test]
fn sleep_route() {
    let r = route("GET /sleep HTTP/1.1");
    assert_eq!(r.filename, "index.html");
    assert_eq!(r.status_line, "HTTP/1.1 200 OK\r\n");
    assert_eq!(r.delay_secs, 5);
}

#[test]
fn unknown_route() {
    for line in ["GET /other HTTP/1.1", "", "GET / HTTP/1.0"] {
        let r = route(line);
        assert_eq!(r.filename, "404.html");
        assert_eq!(r.status_line, "HTTP/1.1 404 Not Found\r\n\r\n");
        assert_eq!(r.delay_secs, 0);
    }
}

#[test]
fn response_text() {
    assert_eq!(
        compose_response("HTTP/1.1 200 OK", "<p>hi</p>"),
        "HTTP/1.1 200 OK\r\n\r\n<p>hi</p>"
    );
    assert_eq!(compose_response("", ""), "\r\n\r\n");
}

#[test]
fn empty_request_is_an_error() {
    let e = first_request_line(None).unwrap_err();
    assert_eq!(
        e.details(),
        "EmptyRequestError { details: \"The request sent by the page was empty\" }"
    );
    assert_eq!(
        e.details(),
        format!("{:?}", EmptyRequestError::new())
    );
}

#[test]
fn request_line_passes_through() {
    let line = first_request_line(Some(Ok("GET / HTTP/1.1".to_string()))).unwrap();
    assert_eq!(line, "GET / HTTP/1.1");
    let e = first_request_line(Some(Err(ResponseError::new("broken pipe".to_string())))).unwrap_err();
    assert_eq!(e.details(), "broken pipe");
}

#[test]
fn response_error_from_string() {
    let e = ResponseError::from("bad request".to_string());
    assert_eq!(e.details(), "bad request");
    assert_eq!(EmptyRequestError::new().details(), "The request sent by the page was empty");
}
