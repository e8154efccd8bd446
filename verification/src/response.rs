//! The responses that the server gives and the record it logs for each.

use vstd::prelude::*;
use vstd::string::StringSliceAdditionalSpecFns;

use crate::media::{guessed_media, spec_content_type, content_type_of_path};
use crate::text::{decimal, pair_views, spec_decimal};

verus! {

/// The status of a response.
#[derive(Clone, Copy, Debug, PartialEq, Eq, Structural)]
pub enum Status {
    Success,
    Forbidden,
    NotFound,
    MethodNotAllowed,
    InternalServerError,
}

impl Status {
    /// The status code.
    pub open spec fn spec_code(self) -> u16 {
        match self {
            Status::Success => 200,
            Status::Forbidden => 403,
            Status::NotFound => 404,
            Status::MethodNotAllowed => 405,
            Status::InternalServerError => 500,
        }
    }

    /// The status text that goes with the code.
    pub open spec fn spec_reason(self) -> Seq<char> {
        match self {
            Status::Success => "OK"@,
            Status::Forbidden => "Forbidden"@,
            Status::NotFound => "Not Found"@,
            Status::MethodNotAllowed => "Method Not Allowed"@,
            Status::InternalServerError => "Internal Server Error"@,
        }
    }

    /// The status code.
    pub fn code(self) -> (code: u16)
        ensures
            code == self.spec_code(),
    {
        match self {
            Status::Success => 200,
            Status::Forbidden => 403,
            Status::NotFound => 404,
            Status::MethodNotAllowed => 405,
            Status::InternalServerError => 500,
        }
    }

    /// The status text that goes with the code.
    pub fn reason(self) -> (text: &'static str)
        ensures
            text@ == self.spec_reason(),
    {
        match self {
            Status::Success => "OK",
            Status::Forbidden => "Forbidden",
            Status::NotFound => "Not Found",
            Status::MethodNotAllowed => "Method Not Allowed",
            Status::InternalServerError => "Internal Server Error",
        }
    }
}

/// A response: status, headers in the order in which they are sent, body.
#[derive(Debug, PartialEq, Eq)]
pub struct Response {
    pub status: Status,
    pub headers: Vec<(String, String)>,
    pub body: Vec<u8>,
}

/// What a `Response` holds.
pub struct ResponseView {
    pub status: Status,
    pub headers: Seq<(Seq<char>, Seq<char>)>,
    pub body: Seq<u8>,
}

impl View for Response {
    type V = ResponseView;

    open spec fn view(&self) -> ResponseView {
        ResponseView { status: self.status, headers: pair_views(self.headers@), body: self.body@ }
    }
}

/// What became of reading a file that is to be served.
#[derive(Debug, PartialEq, Eq)]
pub enum FileOutcome {
    /// The file could not be opened.
    Unopened,
    /// The file was opened and reading it failed.
    Unreadable,
    /// The whole file.
    Contents(Vec<u8>),
}

/// What a `FileOutcome` holds.
pub enum FileOutcomeView {
    Unopened,
    Unreadable,
    Contents(Seq<u8>),
}

impl View for FileOutcome {
    type V = FileOutcomeView;

    open spec fn view(&self) -> FileOutcomeView {
        match self {
            FileOutcome::Unopened => FileOutcomeView::Unopened,
            FileOutcome::Unreadable => FileOutcomeView::Unreadable,
            FileOutcome::Contents(bytes) => FileOutcomeView::Contents(bytes@),
        }
    }
}

/// What became of running a script.
#[derive(Debug, PartialEq, Eq)]
pub enum ScriptOutcome {
    /// The script could not be started, fed or waited for.
    Failed,
    /// The script ran to its end.
    Exited { success: bool, stdout: Vec<u8>, stderr: Vec<u8> },
}

/// What a `ScriptOutcome` holds.
pub enum ScriptOutcomeView {
    Failed,
    Exited { success: bool, stdout: Seq<u8>, stderr: Seq<u8> },
}

impl View for ScriptOutcome {
    type V = ScriptOutcomeView;

    open spec fn view(&self) -> ScriptOutcomeView {
        match self {
            ScriptOutcome::Failed => ScriptOutcomeView::Failed,
            ScriptOutcome::Exited { success, stdout, stderr } => ScriptOutcomeView::Exited {
                success: *success,
                stdout: stdout@,
                stderr: stderr@,
            },
        }
    }
}

/// The header that every response carries.
pub open spec fn connection_close() -> (Seq<char>, Seq<char>) {
    ("Connection"@, "close"@)
}

/// A response that carries nothing but the closing header and a fixed text.
pub open spec fn spec_plain(status: Status, body: Seq<u8>) -> ResponseView {
    ResponseView { status, headers: seq![connection_close()], body }
}

/// A response whose body is a fixed HTML page.
pub open spec fn spec_page(status: Status, body: Seq<u8>) -> ResponseView {
    ResponseView {
        status,
        headers: seq![connection_close(), ("Content-Type"@, "text/html; charset=utf-8"@)],
        body,
    }
}

/// A response that carries a body of the given content type and length.
pub open spec fn spec_content(status: Status, content_type: Seq<char>, body: Seq<u8>)
    -> ResponseView {
    ResponseView {
        status,
        headers: seq![
            ("Content-Type"@, content_type),
            ("Content-Length"@, spec_decimal(body.len())),
            connection_close(),
        ],
        body,
    }
}

/// The answer to a request for what may not be served.
pub open spec fn spec_forbidden() -> ResponseView {
    spec_page(Status::Forbidden, "<html>403 Forbidden</html>".spec_bytes())
}

/// The answer to a request for what does not exist.
pub open spec fn spec_not_found() -> ResponseView {
    spec_page(Status::NotFound, "<html>404 Not Found</html>".spec_bytes())
}

/// The answer to a request whose method the resource does not take.
pub open spec fn spec_method_not_allowed() -> ResponseView {
    spec_plain(Status::MethodNotAllowed, "Method Not Allowed".spec_bytes())
}

/// The answer where serving the request failed inside the server.
pub open spec fn spec_internal_error() -> ResponseView {
    spec_plain(Status::InternalServerError, "Internal Server Error".spec_bytes())
}

/// The answer where the body of a request for a script could not be had.
pub open spec fn spec_script_not_run() -> ResponseView {
    spec_plain(Status::InternalServerError, "Failed to execute script".spec_bytes())
}

/// The answer to a request for the file at `path`, given what became of
/// reading it: the file's bytes under its content type, not found where it
/// could not be opened, an internal error where reading it failed.
pub open spec fn spec_file_response(path: Seq<char>, outcome: FileOutcomeView) -> ResponseView {
    match outcome {
        FileOutcomeView::Unopened => spec_not_found(),
        FileOutcomeView::Unreadable => spec_internal_error(),
        FileOutcomeView::Contents(bytes) => spec_content(
            Status::Success,
            spec_content_type(guessed_media(path)),
            bytes,
        ),
    }
}

/// The answer to a request for a script, given what became of running it:
/// its standard output where it succeeded, its standard error with an
/// internal error status where it did not, each as plain text.
pub open spec fn spec_script_response(outcome: ScriptOutcomeView) -> ResponseView {
    match outcome {
        ScriptOutcomeView::Failed => spec_internal_error(),
        ScriptOutcomeView::Exited { success, stdout, stderr } => if success {
            spec_content(Status::Success, "text/plain; charset=utf-8"@, stdout)
        } else {
            spec_content(Status::InternalServerError, "text/plain; charset=utf-8"@, stderr)
        },
    }
}

fn header(name: &str, value: &str) -> (pair: (String, String))
    ensures
        pair.0@ == name@,
        pair.1@ == value@,
{
    (name.to_owned(), value.to_owned())
}

fn plain(status: Status, body: &str) -> (response: Response)
    ensures
        response@ == spec_plain(status, body.spec_bytes()),
{
    let mut headers: Vec<(String, String)> = Vec::new();
    headers.push(header("Connection", "close"));
    let response = Response { status, headers, body: body.as_bytes_vec() };
    assert(response@.headers =~= seq![connection_close()]);
    response
}

fn page(status: Status, body: &str) -> (response: Response)
    ensures
        response@ == spec_page(status, body.spec_bytes()),
{
    let mut headers: Vec<(String, String)> = Vec::new();
    headers.push(header("Connection", "close"));
    headers.push(header("Content-Type", "text/html; charset=utf-8"));
    let response = Response { status, headers, body: body.as_bytes_vec() };
    assert(response@.headers =~= seq![
        connection_close(),
        ("Content-Type"@, "text/html; charset=utf-8"@),
    ]);
    response
}

fn content(status: Status, content_type: String, body: Vec<u8>) -> (response: Response)
    ensures
        response@ == spec_content(status, content_type@, body@),
{
    let mut headers: Vec<(String, String)> = Vec::new();
    let length = decimal(body.len());
    headers.push((String::from_str("Content-Type"), content_type));
    headers.push((String::from_str("Content-Length"), length));
    headers.push(header("Connection", "close"));
    let response = Response { status, headers, body };
    assert(response@.headers =~= seq![
        ("Content-Type"@, content_type@),
        ("Content-Length"@, spec_decimal(body@.len())),
        connection_close(),
    ]);
    response
}

impl Response {
    /// The answer to a request for what may not be served.
    pub fn forbidden() -> (response: Response)
        ensures
            response@ == spec_forbidden(),
    {
        page(Status::Forbidden, "<html>403 Forbidden</html>")
    }

    /// The answer to a request for what does not exist.
    pub fn not_found() -> (response: Response)
        ensures
            response@ == spec_not_found(),
    {
        page(Status::NotFound, "<html>404 Not Found</html>")
    }

    /// The answer to a request whose method the resource does not take.
    pub fn method_not_allowed() -> (response: Response)
        ensures
            response@ == spec_method_not_allowed(),
    {
        plain(Status::MethodNotAllowed, "Method Not Allowed")
    }

    /// The answer where serving the request failed inside the server.
    pub fn internal_error() -> (response: Response)
        ensures
            response@ == spec_internal_error(),
    {
        plain(Status::InternalServerError, "Internal Server Error")
    }

    /// The answer where the body of a request for a script could not be had.
    pub fn script_not_run() -> (response: Response)
        ensures
            response@ == spec_script_not_run(),
    {
        plain(Status::InternalServerError, "Failed to execute script")
    }

    /// The answer to a request for a file whose content type is known, given
    /// what became of reading it.
    pub fn for_file_of_type(content_type: String, outcome: FileOutcome) -> (response: Response)
        ensures
            response@ == match outcome@ {
                FileOutcomeView::Unopened => spec_not_found(),
                FileOutcomeView::Unreadable => spec_internal_error(),
                FileOutcomeView::Contents(bytes) => spec_content(Status::Success, content_type@, bytes),
            },
    {
        match outcome {
            FileOutcome::Unopened => Response::not_found(),
            FileOutcome::Unreadable => Response::internal_error(),
            FileOutcome::Contents(bytes) => content(Status::Success, content_type, bytes),
        }
    }

    /// The answer to a request for the file at `path`, given what became of
    /// reading it.
    pub fn for_file(path: &str, outcome: FileOutcome) -> (response: Response)
        ensures
            response@ == spec_file_response(path@, outcome@),
    {
        Response::for_file_of_type(content_type_of_path(path), outcome)
    }

    /// The answer to a request for a script, given what became of running it.
    pub fn for_script(outcome: ScriptOutcome) -> (response: Response)
        ensures
            response@ == spec_script_response(outcome@),
    {
        match outcome {
            ScriptOutcome::Failed => Response::internal_error(),
            ScriptOutcome::Exited { success, stdout, stderr } => {
                let content_type = String::from_str("text/plain; charset=utf-8");
                if success {
                    content(Status::Success, content_type, stdout)
                } else {
                    content(Status::InternalServerError, content_type, stderr)
                }
            },
        }
    }
}

/// What is logged of a served request.
#[derive(Debug, PartialEq, Eq)]
pub struct LogRecord {
    pub method: String,
    pub path: String,
    pub status: Status,
}

/// What a `LogRecord` holds.
pub struct LogRecordView {
    pub method: Seq<char>,
    pub path: Seq<char>,
    pub status: Status,
}

impl View for LogRecord {
    type V = LogRecordView;

    open spec fn view(&self) -> LogRecordView {
        LogRecordView { method: self.method@, path: self.path@, status: self.status }
    }
}

/// The line that is logged for a request from the client at `client`:
/// method, client, path, an arrow, and the status code with its text in
/// brackets.
pub open spec fn spec_log_line(record: LogRecordView, client: Seq<char>) -> Seq<char> {
    record.method + " "@ + client + " "@ + record.path + " -> "@ + spec_decimal(
        record.status.spec_code() as nat,
    ) + " ("@ + record.status.spec_reason() + ")"@
}

impl LogRecord {
    /// The line that is logged for a request from the client at `client`.
    pub fn line(&self, client: &str) -> (text: String)
        ensures
            text@ == spec_log_line(self@, client@),
    {
        let code = decimal(self.status.code() as usize);
        self.method.clone().concat(" ").concat(client).concat(" ").concat(self.path.as_str()).concat(
            " -> ",
        ).concat(code.as_str()).concat(" (").concat(self.status.reason()).concat(")")
    }
}

} // verus!
