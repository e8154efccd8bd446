use rustwebserver::media::{content_type, content_type_of_path, MediaType};
use rustwebserver::response::{FileOutcome, LogRecord, Response, ScriptOutcome, Status};

fn pair(name: &str, value: &str) -> (String, String) {
    (name.to_string(), value.to_string())
}

#[test]
fn status_codes_and_texts() {
    assert_eq!(Status::Success.code(), 200);
    assert_eq!(Status::Forbidden.code(), 403);
    assert_eq!(Status::NotFound.code(), 404);
    assert_eq!(Status::MethodNotAllowed.code(), 405);
    assert_eq!(Status::InternalServerError.code(), 500);
    assert_eq!(Status::Success.reason(), "OK");
    assert_eq!(Status::Forbidden.reason(), "Forbidden");
    assert_eq!(Status::NotFound.reason(), "Not Found");
    assert_eq!(Status::MethodNotAllowed.reason(), "Method Not Allowed");
    assert_eq!(Status::InternalServerError.reason(), "Internal Server Error");
}

#[test]
fn forbidden_is_a_small_page() {
    let response = Response::forbidden();
    assert_eq!(response.status, Status::Forbidden);
    assert_eq!(
        response.headers,
        vec![pair("Connection", "close"), pair("Content-Type", "text/html; charset=utf-8")]
    );
    assert_eq!(response.body, b"<html>403 Forbidden</html>".to_vec());
}

#[test]
fn not_found_is_a_small_page() {
    let response = Response::not_found();
    assert_eq!(response.status, Status::NotFound);
    assert_eq!(
        response.headers,
        vec![pair("Connection", "close"), pair("Content-Type", "text/html; charset=utf-8")]
    );
    assert_eq!(response.body, b"<html>404 Not Found</html>".to_vec());
}

#[test]
fn method_not_allowed_is_plain() {
    let response = Response::method_not_allowed();
    assert_eq!(response.status, Status::MethodNotAllowed);
    assert_eq!(response.headers, vec![pair("Connection", "close")]);
    assert_eq!(response.body, b"Method Not Allowed".to_vec());
}

#[test]
fn internal_errors_are_plain() {
    let response = Response::internal_error();
    assert_eq!(response.status, Status::InternalServerError);
    assert_eq!(response.headers, vec![pair("Connection", "close")]);
    assert_eq!(response.body, b"Internal Server Error".to_vec());
    let not_run = Response::script_not_run();
    assert_eq!(not_run.status, Status::InternalServerError);
    assert_eq!(not_run.headers, vec![pair("Connection", "close")]);
    assert_eq!(not_run.body, b"Failed to execute script".to_vec());
}

#[test]
fn html_and_plain_text_get_a_charset() {
    assert_eq!(content_type_of_path("/srv/www/index.html"), "text/html; charset=utf-8");
    assert_eq!(content_type_of_path("/srv/www/INDEX.HTM"), "text/html; charset=utf-8");
    assert_eq!(content_type_of_path("/srv/www/notes.txt"), "text/plain; charset=utf-8");
}

#[test]
fn other_media_types_pass_unchanged() {
    assert_eq!(content_type_of_path("/srv/www/logo.gif"), "image/gif");
    assert_eq!(content_type_of_path("/srv/www/logo.png"), "image/png");
    assert_eq!(content_type_of_path("/srv/www/style.css"), "text/css");
    assert_eq!(content_type_of_path("/srv/www/blob.zzzunknown"), "application/octet-stream");
    assert_eq!(content_type_of_path("/srv/www/noextension"), "application/octet-stream");
}

#[test]
fn content_type_goes_by_type_and_subtype() {
    let media = |kind: &str, subkind: &str, text: &str| MediaType {
        kind: kind.to_string(),
        subkind: subkind.to_string(),
        text: text.to_string(),
    };
    assert_eq!(content_type(&media("text", "html", "text/html")), "text/html; charset=utf-8");
    assert_eq!(content_type(&media("text", "plain", "text/plain")), "text/plain; charset=utf-8");
    assert_eq!(content_type(&media("text", "css", "text/css")), "text/css");
    assert_eq!(content_type(&media("application", "html", "application/html")), "application/html");
    assert_eq!(content_type(&media("image", "svg", "image/svg+xml")), "image/svg+xml");
}

#[test]
fn file_is_sent_with_type_and_length() {
    let response = Response::for_file(
        "/srv/www/index.html",
        FileOutcome::Contents(b"<p>hello</p>".to_vec()),
    );
    assert_eq!(response.status, Status::Success);
    assert_eq!(
        response.headers,
        vec![
            pair("Content-Type", "text/html; charset=utf-8"),
            pair("Content-Length", "12"),
            pair("Connection", "close"),
        ]
    );
    assert_eq!(response.body, b"<p>hello</p>".to_vec());
}

#[test]
fn empty_file_has_length_zero() {
    let response = Response::for_file("/srv/www/empty.bin", FileOutcome::Contents(Vec::new()));
    assert_eq!(response.status, Status::Success);
    assert_eq!(
        response.headers,
        vec![
            pair("Content-Type", "application/octet-stream"),
            pair("Content-Length", "0"),
            pair("Connection", "close"),
        ]
    );
    assert!(response.body.is_empty());
}

#[test]
fn unopened_file_is_not_found() {
    let response = Response::for_file("/srv/www/index.html", FileOutcome::Unopened);
    assert_eq!(response, Response::not_found());
}

#[test]
fn failed_read_is_an_internal_error_without_partial_body() {
    let response = Response::for_file("/srv/www/index.html", FileOutcome::Unreadable);
    assert_eq!(response, Response::internal_error());
}

#[test]
fn successful_script_sends_stdout() {
    let response = Response::for_script(ScriptOutcome::Exited {
        success: true,
        stdout: b"ok".to_vec(),
        stderr: b"ignored".to_vec(),
    });
    assert_eq!(response.status, Status::Success);
    assert_eq!(
        response.headers,
        vec![
            pair("Content-Type", "text/plain; charset=utf-8"),
            pair("Content-Length", "2"),
            pair("Connection", "close"),
        ]
    );
    assert_eq!(response.body, b"ok".to_vec());
}

#[test]
fn failed_script_sends_stderr() {
    let response = Response::for_script(ScriptOutcome::Exited {
        success: false,
        stdout: b"ignored".to_vec(),
        stderr: b"bad".to_vec(),
    });
    assert_eq!(response.status, Status::InternalServerError);
    assert_eq!(
        response.headers,
        vec![
            pair("Content-Type", "text/plain; charset=utf-8"),
            pair("Content-Length", "3"),
            pair("Connection", "close"),
        ]
    );
    assert_eq!(response.body, b"bad".to_vec());
}

#[test]
fn script_that_could_not_run_is_an_internal_error() {
    assert_eq!(Response::for_script(ScriptOutcome::Failed), Response::internal_error());
}

#[test]
fn log_line_has_the_documented_shape() {
    let record = LogRecord {
        method: "GET".to_string(),
        path: "/index.html".to_string(),
        status: Status::Success,
    };
    assert_eq!(record.line("127.0.0.1"), "GET 127.0.0.1 /index.html -> 200 (OK)");
    let refused = LogRecord {
        method: "POST".to_string(),
        path: "/a/../b".to_string(),
        status: Status::Forbidden,
    };
    assert_eq!(refused.line("::1"), "POST ::1 /a/../b -> 403 (Forbidden)");
    let broken = LogRecord {
        method: "GET".to_string(),
        path: "/scripts/x".to_string(),
        status: Status::InternalServerError,
    };
    assert_eq!(
        broken.line("10.0.0.7"),
        "GET 10.0.0.7 /scripts/x -> 500 (Internal Server Error)"
    );
}

#[test]
fn status_texts_are_the_canonical_reasons() {
    let all = [
        Status::Success,
        Status::Forbidden,
        Status::NotFound,
        Status::MethodNotAllowed,
        Status::InternalServerError,
    ];
    for status in all {
        let known = hyper::StatusCode::from_u16(status.code()).expect("a valid status code");
        assert_eq!(known.canonical_reason(), Some(status.reason()));
    }
}
