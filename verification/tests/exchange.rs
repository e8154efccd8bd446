use rustwebserver::dispatch::{Action, Event, Exchange, Invocation, Request, Stage, Step};
use rustwebserver::environment::Header;
use rustwebserver::resolve::{EntryKind, Probe};
use rustwebserver::response::{FileOutcome, LogRecord, Response, ScriptOutcome, Status};

const ROOT: &str = "/srv/www";

fn request(method: &str, path: &str, query: Option<&str>) -> Request {
    Request {
        method: method.to_string(),
        path: path.to_string(),
        query: query.map(|q| q.to_string()),
        headers: vec![Header { name: "host".to_string(), value: b"example.org".to_vec() }],
    }
}

fn found(kind: EntryKind) -> Event {
    Event::Probed(Probe { kind, real_path: None })
}

fn begin(method: &str, path: &str, query: Option<&str>) -> Exchange {
    match Exchange::begin(ROOT.to_string(), request(method, path, query)) {
        Step::Continue { exchange, action: Action::Probe { path: probed } } => {
            assert_eq!(exchange.stage(), Stage::Probing);
            assert_eq!(probed, format!("{}/{}", ROOT, path.trim_start_matches('/')));
            exchange
        }
        other => panic!("expected a probe, got {:?}", other),
    }
}

fn end(step: Step) -> (Response, LogRecord) {
    match step {
        Step::Done { response, record } => (response, record),
        other => panic!("expected the end, got {:?}", other),
    }
}

fn go_on(step: Step) -> (Exchange, Action) {
    match step {
        Step::Continue { exchange, action } => (exchange, action),
        other => panic!("expected more work, got {:?}", other),
    }
}

fn run_of(action: Action) -> Invocation {
    match action {
        Action::Run(invocation) => invocation,
        other => panic!("expected a run, got {:?}", other),
    }
}

fn exited(success: bool, stdout: &[u8], stderr: &[u8]) -> Event {
    Event::ScriptEnded(ScriptOutcome::Exited {
        success,
        stdout: stdout.to_vec(),
        stderr: stderr.to_vec(),
    })
}

#[test]
fn path_with_parent_segment_gets_403() {
    for method in ["GET", "POST", "DELETE"] {
        for kind in [EntryKind::File, EntryKind::Missing, EntryKind::Directory, EntryKind::Other] {
            let step = begin(method, "/a/../secret.txt", None).advance(found(kind));
            let (response, record) = end(step);
            assert_eq!(response, Response::forbidden());
            assert_eq!(response.status.code(), 403);
            assert_eq!(record.status, Status::Forbidden);
        }
    }
}

#[test]
fn target_resolved_outside_root_gets_403() {
    let step = begin("GET", "/link.txt", None).advance(Event::Probed(Probe {
        kind: EntryKind::File,
        real_path: Some("/etc/passwd".to_string()),
    }));
    let (response, _) = end(step);
    assert_eq!(response.status.code(), 403);
    assert_eq!(response.body, b"<html>403 Forbidden</html>".to_vec());
}

#[test]
fn directory_and_denied_path_get_403() {
    let (response, _) = end(begin("GET", "/docs", None).advance(found(EntryKind::Directory)));
    assert_eq!(response, Response::forbidden());
    let (response, _) = end(begin("GET", "/forbidden.html", None).advance(found(EntryKind::File)));
    assert_eq!(response, Response::forbidden());
    let (response, _) = end(begin("PUT", "/docs", None).advance(found(EntryKind::Directory)));
    assert_eq!(response, Response::forbidden());
}

#[test]
fn get_of_existing_file_sends_its_bytes() {
    let contents: Vec<u8> = vec![0, 159, 146, 150, 10, 13, 255];
    let (exchange, action) = go_on(begin("GET", "/data.bin", None).advance(Event::Probed(Probe {
        kind: EntryKind::File,
        real_path: Some("/srv/www/data.bin".to_string()),
    })));
    assert_eq!(exchange.stage(), Stage::Reading);
    match action {
        Action::ReadFile { path } => assert_eq!(path, "/srv/www/data.bin"),
        other => panic!("expected a read, got {:?}", other),
    }
    let step = exchange.advance(Event::FileRead(FileOutcome::Contents(contents.clone())));
    let (response, record) = end(step);
    assert_eq!(response.status.code(), 200);
    assert_eq!(response.body, contents);
    assert_eq!(record.line("192.0.2.1"), "GET 192.0.2.1 /data.bin -> 200 (OK)");
}

#[test]
fn get_of_missing_path_gets_404() {
    let (response, record) = end(begin("GET", "/nothing.txt", None).advance(found(EntryKind::Missing)));
    assert_eq!(response, Response::not_found());
    assert_eq!(response.status.code(), 404);
    assert_eq!(record.line("192.0.2.1"), "GET 192.0.2.1 /nothing.txt -> 404 (Not Found)");
    let (response, _) = end(begin("GET", "/scripts/none.sh", None).advance(found(EntryKind::Missing)));
    assert_eq!(response.status.code(), 404);
}

#[test]
fn file_that_vanished_before_opening_gets_404() {
    let (exchange, _) = go_on(begin("GET", "/gone.txt", None).advance(found(EntryKind::File)));
    let (response, _) = end(exchange.advance(Event::FileRead(FileOutcome::Unopened)));
    assert_eq!(response, Response::not_found());
}

#[test]
fn failed_read_gets_500() {
    let (exchange, _) = go_on(begin("GET", "/big.txt", None).advance(found(EntryKind::File)));
    let (response, record) = end(exchange.advance(Event::FileRead(FileOutcome::Unreadable)));
    assert_eq!(response, Response::internal_error());
    assert_eq!(record.status, Status::InternalServerError);
}

#[test]
fn other_methods_on_static_resource_get_405() {
    for method in ["POST", "PUT", "DELETE", "HEAD", "get"] {
        for kind in [EntryKind::File, EntryKind::Missing, EntryKind::Other] {
            let (response, record) = end(begin(method, "/index.html", None).advance(found(kind)));
            assert_eq!(response, Response::method_not_allowed());
            assert_eq!(response.status.code(), 405);
            assert_eq!(record.method, method);
        }
    }
    let (response, _) = end(begin("POST", "/scripts/none.sh", None).advance(found(EntryKind::Missing)));
    assert_eq!(response.status.code(), 405);
}

#[test]
fn script_exiting_zero_gets_200_with_stdout() {
    let (exchange, action) = go_on(begin("GET", "/scripts/ok.sh", None).advance(found(EntryKind::File)));
    assert_eq!(exchange.stage(), Stage::Running);
    let invocation = run_of(action);
    assert_eq!(invocation.script, "/srv/www/scripts/ok.sh");
    assert_eq!(invocation.input, None);
    let (response, record) = end(exchange.advance(exited(true, b"ok", b"")));
    assert_eq!(response.status.code(), 200);
    assert_eq!(response.body, b"ok".to_vec());
    assert_eq!(record.line("192.0.2.1"), "GET 192.0.2.1 /scripts/ok.sh -> 200 (OK)");
}

#[test]
fn script_exiting_one_gets_500_with_stderr() {
    let (exchange, _) = go_on(begin("GET", "/scripts/bad.sh", None).advance(found(EntryKind::File)));
    let (response, record) = end(exchange.advance(exited(false, b"", b"bad")));
    assert_eq!(response.status.code(), 500);
    assert_eq!(response.body, b"bad".to_vec());
    assert_eq!(
        record.line("192.0.2.1"),
        "GET 192.0.2.1 /scripts/bad.sh -> 500 (Internal Server Error)"
    );
}

#[test]
fn post_to_script_passes_query_and_body() {
    let (exchange, action) = go_on(
        begin("POST", "/scripts/echo.sh", Some("a=1&a=2")).advance(found(EntryKind::File)),
    );
    assert_eq!(exchange.stage(), Stage::Buffering);
    assert!(matches!(action, Action::ReadBody));
    let (exchange, action) = go_on(exchange.advance(Event::BodyRead(Some(b"payload".to_vec()))));
    assert_eq!(exchange.stage(), Stage::Running);
    let invocation = run_of(action);
    assert_eq!(invocation.script, "/srv/www/scripts/echo.sh");
    assert_eq!(invocation.input, Some(b"payload".to_vec()));
    assert_eq!(invocation.environment.get("Query_a"), Some("2".to_string()));
    assert_eq!(invocation.environment.get("Method"), Some("POST".to_string()));
    assert_eq!(invocation.environment.get("Path"), Some("/scripts/echo.sh".to_string()));
    assert_eq!(invocation.environment.get("host"), Some("example.org".to_string()));
    assert_eq!(invocation.environment.len(), 4);
    let (response, _) = end(exchange.advance(exited(true, b"payload", b"")));
    assert_eq!(response.body, b"payload".to_vec());
}

#[test]
fn other_methods_run_scripts_without_input() {
    for method in ["GET", "PUT", "DELETE"] {
        let (_, action) = go_on(begin(method, "/scripts/x.sh", Some("k=v")).advance(found(EntryKind::File)));
        let invocation = run_of(action);
        assert_eq!(invocation.input, None);
        assert_eq!(invocation.environment.get("Method"), Some(method.to_string()));
        assert_eq!(invocation.environment.get("Query_k"), Some("v".to_string()));
    }
}

#[test]
fn post_without_readable_body_gets_500() {
    let (exchange, _) = go_on(begin("POST", "/scripts/x.sh", None).advance(found(EntryKind::File)));
    let (response, _) = end(exchange.advance(Event::BodyRead(None)));
    assert_eq!(response, Response::script_not_run());
    assert_eq!(response.status.code(), 500);
}

#[test]
fn script_that_cannot_run_gets_500() {
    let (exchange, _) = go_on(begin("GET", "/scripts/x.sh", None).advance(found(EntryKind::File)));
    let (response, record) = end(exchange.advance(Event::ScriptEnded(ScriptOutcome::Failed)));
    assert_eq!(response, Response::internal_error());
    assert_eq!(record.status, Status::InternalServerError);
}

#[test]
fn repeated_get_sends_identical_bodies() {
    let contents = b"same bytes every time\n".to_vec();
    let mut bodies = Vec::new();
    for _ in 0..2 {
        let (exchange, _) = go_on(begin("GET", "/page.html", None).advance(found(EntryKind::File)));
        let (response, _) = end(exchange.advance(Event::FileRead(FileOutcome::Contents(contents.clone()))));
        bodies.push((response.status, response.headers, response.body));
    }
    assert_eq!(bodies[0], bodies[1]);
    assert_eq!(bodies[0].2, contents);
}

#[test]
fn unexpected_event_ends_with_500() {
    let (response, _) = end(begin("GET", "/index.html", None).advance(Event::BodyRead(None)));
    assert_eq!(response, Response::internal_error());
    let (exchange, _) = go_on(begin("GET", "/index.html", None).advance(found(EntryKind::File)));
    let (response, _) = end(exchange.advance(found(EntryKind::File)));
    assert_eq!(response, Response::internal_error());
    let (exchange, _) = go_on(begin("GET", "/scripts/x.sh", None).advance(found(EntryKind::File)));
    let (response, _) = end(exchange.advance(Event::FileRead(FileOutcome::Unopened)));
    assert_eq!(response, Response::internal_error());
}

#[test]
fn every_response_closes_the_connection() {
    let close = ("Connection".to_string(), "close".to_string());
    let responses = [
        Response::forbidden(),
        Response::not_found(),
        Response::method_not_allowed(),
        Response::internal_error(),
        Response::script_not_run(),
        Response::for_file("/a.txt", FileOutcome::Contents(b"x".to_vec())),
        Response::for_script(ScriptOutcome::Exited {
            success: true,
            stdout: Vec::new(),
            stderr: Vec::new(),
        }),
    ];
    for response in responses {
        assert!(response.headers.contains(&close));
    }
}
