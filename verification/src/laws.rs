//! What holds of every exchange, stated over the dispatcher's step
//! functions and proved from their definitions.

use vstd::prelude::*;

use crate::dispatch::{
    is_admissible, is_get, is_post, may_be_served, spec_advance, spec_begin, spec_finish,
    spec_invocation, spec_wait, ActionView, EventView, ExchangeView, RequestView, Stage, StepView,
};
use crate::environment::{
    lemma_last_query_value_wins, lemma_method_and_path_are_set, query_name, query_pairs,
    with_headers,
};
use crate::path::{spec_has_parent_segment, spec_is_within, spec_target_path};
use crate::resolve::{
    denied_path, escapes_root, is_denied, is_script_path, is_strictly_within,
    lemma_target_below_root, scripts_directory, EntryKind, ProbeView,
};
use crate::response::{
    connection_close, spec_forbidden, spec_method_not_allowed, spec_not_found, FileOutcomeView,
    ScriptOutcomeView, Status,
};

verus! {

/// The exchange for `request` under `root`, waiting at `stage`.
pub open spec fn exchange_at(root: Seq<char>, request: RequestView, stage: Stage) -> ExchangeView {
    ExchangeView { root, request, stage }
}

/// How far an exchange has come: no step leads back to an earlier stage.
pub open spec fn stage_rank(stage: Stage) -> nat {
    match stage {
        Stage::Probing => 0,
        Stage::Buffering => 1,
        Stage::Reading => 2,
        Stage::Running => 2,
    }
}

/// A request whose path holds a `..` segment, or whose target the filesystem
/// resolves to a place outside the root, is answered with status 403,
/// whatever its method and whatever else the filesystem holds.
pub proof fn lemma_traversal_is_forbidden(root: Seq<char>, request: RequestView, probe: ProbeView)
    requires
        spec_has_parent_segment(request.path) || escapes_root(root, probe),
    ensures
        spec_advance(exchange_at(root, request, Stage::Probing), EventView::Probed(probe))
            == spec_finish(request, spec_forbidden()),
        spec_forbidden().status.spec_code() == 403,
{
}

/// A directory and the denied path are answered with status 403 as well.
pub proof fn lemma_denied_is_forbidden(root: Seq<char>, request: RequestView, probe: ProbeView)
    requires
        is_denied(root, request.path, probe),
    ensures
        spec_advance(exchange_at(root, request, Stage::Probing), EventView::Probed(probe))
            == spec_finish(request, spec_forbidden()),
{
}

/// A GET for an existing entry that is not a directory, not under the
/// scripts directory and not refused is answered with status 200 and the
/// entry's exact bytes, once the entry has been read.
pub proof fn lemma_get_serves_file_bytes(
    root: Seq<char>,
    request: RequestView,
    probe: ProbeView,
    bytes: Seq<u8>,
)
    requires
        is_get(request.method),
        probe.kind == EntryKind::File || probe.kind == EntryKind::Other,
        !is_script_path(root, request.path),
        !is_denied(root, request.path, probe),
    ensures
        spec_advance(exchange_at(root, request, Stage::Probing), EventView::Probed(probe))
            == spec_wait(
            exchange_at(root, request, Stage::Probing),
            Stage::Reading,
            ActionView::ReadFile { path: spec_target_path(root, request.path) },
        ),
        spec_advance(
            exchange_at(root, request, Stage::Reading),
            EventView::FileRead(FileOutcomeView::Contents(bytes)),
        ) matches StepView::Done { response, record } && response.status == Status::Success
            && response.status.spec_code() == 200 && response.body == bytes && record.status
            == Status::Success,
{
}

/// A GET for a path at which nothing exists, and which is not refused, is
/// answered with status 404.
pub proof fn lemma_get_of_missing_is_not_found(
    root: Seq<char>,
    request: RequestView,
    probe: ProbeView,
)
    requires
        is_get(request.method),
        probe.kind == EntryKind::Missing,
        !spec_has_parent_segment(request.path),
        request.path != denied_path(),
        !escapes_root(root, probe),
    ensures
        spec_advance(exchange_at(root, request, Stage::Probing), EventView::Probed(probe))
            == spec_finish(request, spec_not_found()),
        spec_not_found().status.spec_code() == 404,
{
}

/// A request with another method than GET for what is not a script, and
/// which is not refused, is answered with status 405, whether or not
/// anything exists at its target.
pub proof fn lemma_other_methods_are_not_allowed(
    root: Seq<char>,
    request: RequestView,
    probe: ProbeView,
)
    requires
        !is_get(request.method),
        !(is_script_path(root, request.path) && probe.kind == EntryKind::File),
        !is_denied(root, request.path, probe),
    ensures
        spec_advance(exchange_at(root, request, Stage::Probing), EventView::Probed(probe))
            == spec_finish(request, spec_method_not_allowed()),
        spec_method_not_allowed().status.spec_code() == 405,
{
}

/// A script that ran to its end is answered with its standard output and
/// status 200 where it succeeded, and with its standard error and status
/// 500 where it did not, however it failed.
pub proof fn lemma_script_exit_decides_response(
    root: Seq<char>,
    request: RequestView,
    success: bool,
    stdout: Seq<u8>,
    stderr: Seq<u8>,
)
    ensures
        spec_advance(
            exchange_at(root, request, Stage::Running),
            EventView::ScriptEnded(ScriptOutcomeView::Exited { success, stdout, stderr }),
        ) matches StepView::Done { response, record } && record.status == response.status && (
        if success {
            response.status.spec_code() == 200 && response.body == stdout
        } else {
            response.status.spec_code() == 500 && response.body == stderr
        }),
{
}

/// The body of a POST to a script is what the script reads, byte for byte,
/// and the script sees the request's method and path and the last value of
/// every query parameter. Under any other method the script is run at once
/// and given no input.
pub proof fn lemma_script_gets_body_and_query(
    root: Seq<char>,
    request: RequestView,
    probe: ProbeView,
    body: Seq<u8>,
    i: int,
)
    requires
        is_script_path(root, request.path),
        probe.kind == EntryKind::File,
        !is_denied(root, request.path, probe),
        0 <= i < query_pairs(request.query).len(),
        forall|j: int|
            i < j < query_pairs(request.query).len() ==> query_pairs(request.query)[j].0
                != query_pairs(request.query)[i].0,
    ensures
        is_post(request.method) ==> spec_advance(
            exchange_at(root, request, Stage::Probing),
            EventView::Probed(probe),
        ) == spec_wait(
            exchange_at(root, request, Stage::Probing),
            Stage::Buffering,
            ActionView::ReadBody,
        ),
        spec_advance(exchange_at(root, request, Stage::Buffering), EventView::BodyRead(Some(body)))
            matches StepView::Continue { action: ActionView::Run(run), .. } && run.input == Some(
            body,
        ) && run.script == spec_target_path(root, request.path) && run.environment[query_name(
            query_pairs(request.query)[i].0,
        )] == query_pairs(request.query)[i].1 && run.environment["Method"@] == request.method
            && run.environment["Path"@] == request.path,
        !is_post(request.method) ==> spec_advance(
            exchange_at(root, request, Stage::Probing),
            EventView::Probed(probe),
        ) == spec_wait(
            exchange_at(root, request, Stage::Probing),
            Stage::Running,
            ActionView::Run(
                spec_invocation(exchange_at(root, request, Stage::Probing), None::<Seq<u8>>),
            ),
        ),
        spec_invocation(exchange_at(root, request, Stage::Probing), None::<Seq<u8>>).input
            == None::<Seq<u8>>,
{
    let pairs = query_pairs(request.query);
    let base = with_headers(Map::empty(), request.headers).insert(
        "Method"@,
        request.method,
    ).insert("Path"@, request.path);
    lemma_last_query_value_wins(base, pairs, i);
    lemma_method_and_path_are_set(request.headers, request.method, request.path, pairs);
}

/// Each piece of outside work is asked for at most once in an exchange: a
/// script that has been run, or a file that has been read, is followed by
/// the end of the exchange whatever comes back.
pub proof fn lemma_work_is_asked_once(x: ExchangeView, event: EventView, next: EventView)
    ensures
        match spec_advance(x, event) {
            StepView::Continue { exchange, action } => (action is Run || action is ReadFile)
                ==> spec_advance(exchange, next) is Done,
            StepView::Done { .. } => true,
        },
{
}

/// The body of the answer to a GET for a file depends on the file's bytes
/// alone: two exchanges that read the same bytes send the same body, and
/// two for the same path under the same root send the same response.
pub proof fn lemma_static_get_is_idempotent(
    root: Seq<char>,
    first: RequestView,
    second: RequestView,
    bytes: Seq<u8>,
)
    ensures
        spec_advance(
            exchange_at(root, first, Stage::Reading),
            EventView::FileRead(FileOutcomeView::Contents(bytes)),
        ) matches StepView::Done { response: one, .. } && spec_advance(
            exchange_at(root, second, Stage::Reading),
            EventView::FileRead(FileOutcomeView::Contents(bytes)),
        ) matches StepView::Done { response: other, .. } && one.body == other.body && (first.path
            == second.path ==> one == other),
{
}

/// An exchange begins admissible and every step keeps it so.
pub proof fn lemma_steps_keep_admissible(x: ExchangeView, event: EventView)
    requires
        is_admissible(x),
    ensures
        spec_begin(x.root, x.request) matches StepView::Continue { exchange, .. }
            && is_admissible(exchange),
        spec_advance(x, event) matches StepView::Continue { exchange, .. } ==> is_admissible(
            exchange,
        ),
{
}

/// Whatever an admissible exchange asks to be read or run lies strictly
/// within the root and was named without a `..` segment: a file is read
/// under GET alone, and what is run lies at or below the scripts directory.
pub proof fn lemma_work_stays_within_root(x: ExchangeView, event: EventView)
    requires
        is_admissible(x),
    ensures
        match spec_advance(x, event) {
            StepView::Continue { action: ActionView::ReadFile { path }, .. } => {
                &&& path == spec_target_path(x.root, x.request.path)
                &&& is_strictly_within(path, x.root)
                &&& may_be_served(x.request.path)
                &&& is_get(x.request.method)
            },
            StepView::Continue { action: ActionView::Run(run), .. } => {
                &&& run.script == spec_target_path(x.root, x.request.path)
                &&& is_strictly_within(run.script, x.root)
                &&& spec_is_within(run.script, scripts_directory(x.root))
                &&& may_be_served(x.request.path)
            },
            _ => true,
        },
{
    lemma_target_below_root(x.root, x.request.path);
}

/// Every step leaves the root and the request as they were and takes the
/// exchange to a later stage or to its end, so that no exchange takes more
/// than three events.
pub proof fn lemma_advance_makes_progress(x: ExchangeView, event: EventView)
    ensures
        match spec_advance(x, event) {
            StepView::Continue { exchange, .. } => exchange.root == x.root && exchange.request
                == x.request && stage_rank(exchange.stage) > stage_rank(x.stage),
            StepView::Done { .. } => true,
        },
{
}

/// Every exchange ends with one response and one record, and the record
/// names the request's method and path and the status of that response.
/// Every response carries the header that closes the connection.
pub proof fn lemma_every_end_is_recorded(x: ExchangeView, event: EventView)
    ensures
        match spec_advance(x, event) {
            StepView::Continue { .. } => true,
            StepView::Done { response, record } => record.method == x.request.method
                && record.path == x.request.path && record.status == response.status
                && response.headers.contains(connection_close()),
        },
{
    match spec_advance(x, event) {
        StepView::Continue { .. } => {},
        StepView::Done { response, record } => {
            if response.headers.len() == 1 {
                assert(response.headers[0] == connection_close());
            } else if response.headers.len() == 2 {
                assert(response.headers[0] == connection_close());
            } else {
                assert(response.headers[2] == connection_close());
            }
        },
    }
}

} // verus!
