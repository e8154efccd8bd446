//! The request dispatcher: one exchange from request to response, as a
//! sequence of steps. Each step either asks for one piece of outside work
//! (a look at the filesystem, a file's contents, the request body, a run of
//! a script) or ends the exchange with a response and its log record. The
//! caller does the work and reports what came of it.

use vstd::prelude::*;

use crate::environment::{
    environment_of, header_views, query_pairs, script_environment, Environment, Header,
};
use crate::path::{spec_has_parent_segment, spec_target_path, target_path};
use crate::resolve::{
    denied_path, is_script_path, lemma_target_below_root, names_root, resolve, spec_classify,
    Probe, ProbeView, TargetKind,
};
use crate::response::{
    spec_file_response, spec_forbidden, spec_internal_error, spec_method_not_allowed,
    spec_not_found, spec_script_not_run, spec_script_response, FileOutcome, FileOutcomeView,
    LogRecord, LogRecordView, Response, ResponseView, ScriptOutcome, ScriptOutcomeView,
};
use crate::text::{option_bytes, option_text, same_text};

verus! {

/// A request as the transport delivers it, without its body.
#[derive(Debug, PartialEq, Eq)]
pub struct Request {
    /// The method, as written on the request line.
    pub method: String,
    /// The path, with its leading slash.
    pub path: String,
    /// The query string, without the question mark, if there is one.
    pub query: Option<String>,
    /// The headers in the order received.
    pub headers: Vec<Header>,
}

/// What a `Request` holds.
pub struct RequestView {
    pub method: Seq<char>,
    pub path: Seq<char>,
    pub query: Option<Seq<char>>,
    pub headers: Seq<(Seq<char>, Seq<u8>)>,
}

impl View for Request {
    type V = RequestView;

    open spec fn view(&self) -> RequestView {
        RequestView {
            method: self.method@,
            path: self.path@,
            query: option_text(self.query),
            headers: header_views(self.headers@),
        }
    }
}

/// One run of a script: what to run, in which environment, on what input.
#[derive(Debug)]
pub struct Invocation {
    /// The filesystem path of the script.
    pub script: String,
    /// The variables that the script sees.
    pub environment: Environment,
    /// What the script reads from its standard input; `None` gives it none.
    pub input: Option<Vec<u8>>,
}

/// What an `Invocation` holds.
pub struct InvocationView {
    pub script: Seq<char>,
    pub environment: Map<Seq<char>, Seq<char>>,
    pub input: Option<Seq<u8>>,
}

impl View for Invocation {
    type V = InvocationView;

    open spec fn view(&self) -> InvocationView {
        InvocationView {
            script: self.script@,
            environment: self.environment@,
            input: option_bytes(self.input),
        }
    }
}

/// The outside work that an exchange is waiting for.
#[derive(Clone, Copy, Debug, PartialEq, Eq, Structural)]
pub enum Stage {
    /// A look at the filesystem.
    Probing,
    /// The contents of a file.
    Reading,
    /// The body of the request.
    Buffering,
    /// The end of a script.
    Running,
}

/// An exchange under way. One is made by `Exchange::begin` and taken on by
/// `Exchange::advance` alone, so that it waits for a file or a script only
/// where the path of its request may be served.
#[derive(Debug)]
pub struct Exchange {
    root: String,
    request: Request,
    stage: Stage,
}

/// What an `Exchange` holds.
pub struct ExchangeView {
    pub root: Seq<char>,
    pub request: RequestView,
    pub stage: Stage,
}

impl View for Exchange {
    type V = ExchangeView;

    closed spec fn view(&self) -> ExchangeView {
        ExchangeView { root: self.root@, request: self.request@, stage: self.stage }
    }
}

/// Outside work that the caller is asked to do.
#[derive(Debug)]
pub enum Action {
    /// Look at what the filesystem holds at `path`.
    Probe { path: String },
    /// Read the whole file at `path`.
    ReadFile { path: String },
    /// Read the whole body of the request.
    ReadBody,
    /// Run a script to its end.
    Run(Invocation),
}

/// What an `Action` holds.
pub enum ActionView {
    Probe { path: Seq<char> },
    ReadFile { path: Seq<char> },
    ReadBody,
    Run(InvocationView),
}

impl View for Action {
    type V = ActionView;

    open spec fn view(&self) -> ActionView {
        match self {
            Action::Probe { path } => ActionView::Probe { path: path@ },
            Action::ReadFile { path } => ActionView::ReadFile { path: path@ },
            Action::ReadBody => ActionView::ReadBody,
            Action::Run(invocation) => ActionView::Run(invocation@),
        }
    }
}

/// What came of the work that was asked for.
#[derive(Debug)]
pub enum Event {
    /// What the filesystem holds at the target.
    Probed(Probe),
    /// What became of reading the file.
    FileRead(FileOutcome),
    /// The body of the request, or `None` where it could not be read.
    BodyRead(Option<Vec<u8>>),
    /// What became of running the script.
    ScriptEnded(ScriptOutcome),
}

/// What an `Event` holds.
pub enum EventView {
    Probed(ProbeView),
    FileRead(FileOutcomeView),
    BodyRead(Option<Seq<u8>>),
    ScriptEnded(ScriptOutcomeView),
}

impl View for Event {
    type V = EventView;

    open spec fn view(&self) -> EventView {
        match self {
            Event::Probed(probe) => EventView::Probed(probe@),
            Event::FileRead(outcome) => EventView::FileRead(outcome@),
            Event::BodyRead(body) => EventView::BodyRead(option_bytes(*body)),
            Event::ScriptEnded(outcome) => EventView::ScriptEnded(outcome@),
        }
    }
}

/// One step of an exchange.
#[derive(Debug)]
pub enum Step {
    /// The exchange goes on once the caller has done `action`.
    Continue { exchange: Exchange, action: Action },
    /// The exchange is over: the response to send and the record to log.
    Done { response: Response, record: LogRecord },
}

/// What a `Step` holds.
pub enum StepView {
    Continue { exchange: ExchangeView, action: ActionView },
    Done { response: ResponseView, record: LogRecordView },
}

impl View for Step {
    type V = StepView;

    open spec fn view(&self) -> StepView {
        match self {
            Step::Continue { exchange, action } => StepView::Continue {
                exchange: exchange@,
                action: action@,
            },
            Step::Done { response, record } => StepView::Done {
                response: response@,
                record: record@,
            },
        }
    }
}

/// Whether `method` is GET.
pub open spec fn is_get(method: Seq<char>) -> bool {
    method == "GET"@
}

/// Whether `method` is POST.
pub open spec fn is_post(method: Seq<char>) -> bool {
    method == "POST"@
}

/// Whether a request path may be served at all, whatever the filesystem
/// holds: it has no `..` segment, is not the denied path and names
/// something below the root.
pub open spec fn may_be_served(request_path: Seq<char>) -> bool {
    !spec_has_parent_segment(request_path) && request_path != denied_path() && !names_root(
        request_path,
    )
}

/// Whether an exchange may be waiting where it is: for a file only under
/// GET and for a path that may be served, for a script only for such a path
/// below the scripts directory, for the body only under POST.
pub open spec fn is_admissible(x: ExchangeView) -> bool {
    match x.stage {
        Stage::Probing => true,
        Stage::Reading => is_get(x.request.method) && may_be_served(x.request.path),
        Stage::Buffering => is_post(x.request.method) && may_be_served(x.request.path)
            && is_script_path(x.root, x.request.path),
        Stage::Running => may_be_served(x.request.path) && is_script_path(
            x.root,
            x.request.path,
        ),
    }
}

/// The end of an exchange with `response`: the record names the request's
/// method and path and the status of the response.
pub open spec fn spec_finish(request: RequestView, response: ResponseView) -> StepView {
    StepView::Done {
        response,
        record: LogRecordView {
            method: request.method,
            path: request.path,
            status: response.status,
        },
    }
}

/// The exchange waiting at `stage` for the outcome of `action`.
pub open spec fn spec_wait(x: ExchangeView, stage: Stage, action: ActionView) -> StepView {
    StepView::Continue {
        exchange: ExchangeView { root: x.root, request: x.request, stage },
        action,
    }
}

/// The run of the script that a request names, on the given input.
pub open spec fn spec_invocation(x: ExchangeView, input: Option<Seq<u8>>) -> InvocationView {
    InvocationView {
        script: spec_target_path(x.root, x.request.path),
        environment: environment_of(
            x.request.headers,
            x.request.method,
            x.request.path,
            query_pairs(x.request.query),
        ),
        input,
    }
}

/// The first step of an exchange: a look at the target of the request.
pub open spec fn spec_begin(root: Seq<char>, request: RequestView) -> StepView {
    StepView::Continue {
        exchange: ExchangeView { root, request, stage: Stage::Probing },
        action: ActionView::Probe { path: spec_target_path(root, request.path) },
    }
}

/// The step after the look at the filesystem. What is refused is answered
/// at once. A script is run, after the body has been read where the method
/// is POST. Anything else takes GET alone: what exists is read, what does
/// not is not found.
pub open spec fn spec_after_probe(x: ExchangeView, probe: ProbeView) -> StepView {
    match spec_classify(x.root, x.request.path, probe) {
        TargetKind::Forbidden => spec_finish(x.request, spec_forbidden()),
        TargetKind::Script => if is_post(x.request.method) {
            spec_wait(x, Stage::Buffering, ActionView::ReadBody)
        } else {
            spec_wait(x, Stage::Running, ActionView::Run(spec_invocation(x, None)))
        },
        TargetKind::NotFound => if is_get(x.request.method) {
            spec_finish(x.request, spec_not_found())
        } else {
            spec_finish(x.request, spec_method_not_allowed())
        },
        TargetKind::Static => if is_get(x.request.method) {
            spec_wait(
                x,
                Stage::Reading,
                ActionView::ReadFile { path: spec_target_path(x.root, x.request.path) },
            )
        } else {
            spec_finish(x.request, spec_method_not_allowed())
        },
    }
}

/// The step after the body was read: the script is run on it, or the
/// exchange ends where there is no body to give.
pub open spec fn spec_after_body(x: ExchangeView, body: Option<Seq<u8>>) -> StepView {
    match body {
        Some(bytes) => spec_wait(
            x,
            Stage::Running,
            ActionView::Run(spec_invocation(x, Some(bytes))),
        ),
        None => spec_finish(x.request, spec_script_not_run()),
    }
}

/// The step that follows `event`. An event that is not the one the exchange
/// was waiting for ends it with an internal error.
pub open spec fn spec_advance(x: ExchangeView, event: EventView) -> StepView {
    match (x.stage, event) {
        (Stage::Probing, EventView::Probed(probe)) => spec_after_probe(x, probe),
        (Stage::Reading, EventView::FileRead(outcome)) => spec_finish(
            x.request,
            spec_file_response(spec_target_path(x.root, x.request.path), outcome),
        ),
        (Stage::Buffering, EventView::BodyRead(body)) => spec_after_body(x, body),
        (Stage::Running, EventView::ScriptEnded(outcome)) => spec_finish(
            x.request,
            spec_script_response(outcome),
        ),
        _ => spec_finish(x.request, spec_internal_error()),
    }
}

fn finish(request: Request, response: Response) -> (step: Step)
    ensures
        step@ == spec_finish(request@, response@),
{
    let record = LogRecord { method: request.method, path: request.path, status: response.status };
    Step::Done { response, record }
}

impl Exchange {
    #[verifier::type_invariant]
    spec fn admissible(&self) -> bool {
        is_admissible(self@)
    }

    /// The outside work that the exchange is waiting for.
    pub fn stage(&self) -> (stage: Stage)
        ensures
            stage == self@.stage,
    {
        self.stage
    }

    /// The request that the exchange answers.
    pub fn request(&self) -> (request: &Request)
        ensures
            request@ == self@.request,
    {
        &self.request
    }

    /// The root directory under which the exchange serves.
    pub fn root(&self) -> (root: &str)
        ensures
            root@ == self@.root,
    {
        self.root.as_str()
    }

    /// Begins the exchange for `request` under `root`.
    pub fn begin(root: String, request: Request) -> (step: Step)
        ensures
            step@ == spec_begin(root@, request@),
    {
        let path = target_path(root.as_str(), request.path.as_str());
        Step::Continue {
            exchange: Exchange { root, request, stage: Stage::Probing },
            action: Action::Probe { path },
        }
    }

    fn wait(self, stage: Stage, action: Action) -> (step: Step)
        requires
            is_admissible(ExchangeView { root: self@.root, request: self@.request, stage }),
        ensures
            step@ == spec_wait(self@, stage, action@),
    {
        Step::Continue {
            exchange: Exchange { root: self.root, request: self.request, stage },
            action,
        }
    }

    fn invocation(&self, input: Option<Vec<u8>>) -> (invocation: Invocation)
        ensures
            invocation@ == spec_invocation(self@, option_bytes(input)),
    {
        let script = target_path(self.root.as_str(), self.request.path.as_str());
        let environment = script_environment(
            &self.request.headers,
            self.request.method.as_str(),
            self.request.path.as_str(),
            &self.request.query,
        );
        Invocation { script, environment, input }
    }

    fn after_probe(self, probe: Probe) -> (step: Step)
        ensures
            step@ == spec_after_probe(self@, probe@),
    {
        let target = resolve(self.root.as_str(), self.request.path.as_str(), &probe);
        let get = same_text(self.request.method.as_str(), "GET");
        proof {
            lemma_target_below_root(self.root@, self.request.path@);
        }
        match target.kind {
            TargetKind::Forbidden => finish(self.request, Response::forbidden()),
            TargetKind::Script => {
                if same_text(self.request.method.as_str(), "POST") {
                    self.wait(Stage::Buffering, Action::ReadBody)
                } else {
                    let invocation = self.invocation(None);
                    self.wait(Stage::Running, Action::Run(invocation))
                }
            },
            TargetKind::NotFound => {
                if get {
                    finish(self.request, Response::not_found())
                } else {
                    finish(self.request, Response::method_not_allowed())
                }
            },
            TargetKind::Static => {
                if get {
                    self.wait(Stage::Reading, Action::ReadFile { path: target.path })
                } else {
                    finish(self.request, Response::method_not_allowed())
                }
            },
        }
    }

    fn after_body(self, body: Option<Vec<u8>>) -> (step: Step)
        requires
            self@.stage == Stage::Buffering,
        ensures
            step@ == spec_after_body(self@, option_bytes(body)),
    {
        proof {
            use_type_invariant(&self);
        }
        match body {
            Some(bytes) => {
                let invocation = self.invocation(Some(bytes));
                self.wait(Stage::Running, Action::Run(invocation))
            },
            None => finish(self.request, Response::script_not_run()),
        }
    }

    /// Takes the exchange one step on, given what came of the work that its
    /// last step asked for.
    pub fn advance(self, event: Event) -> (step: Step)
        ensures
            step@ == spec_advance(self@, event@),
    {
        match self.stage {
            Stage::Probing => match event {
                Event::Probed(probe) => self.after_probe(probe),
                _ => finish(self.request, Response::internal_error()),
            },
            Stage::Reading => match event {
                Event::FileRead(outcome) => {
                    let path = target_path(self.root.as_str(), self.request.path.as_str());
                    finish(self.request, Response::for_file(path.as_str(), outcome))
                },
                _ => finish(self.request, Response::internal_error()),
            },
            Stage::Buffering => match event {
                Event::BodyRead(body) => self.after_body(body),
                _ => finish(self.request, Response::internal_error()),
            },
            Stage::Running => match event {
                Event::ScriptEnded(outcome) => finish(self.request, Response::for_script(outcome)),
                _ => finish(self.request, Response::internal_error()),
            },
        }
    }
}

} // verus!
