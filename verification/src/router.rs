//! Runtime command routing: the connection responses that acknowledge
//! runtime start, input admission, sync and abort, and the service that
//! refuses every runtime command where none is configured.

use crate::teleport::RuntimeScope;
use crate::text::{copy_string, same_text};
use vstd::prelude::*;

verus! {

/// How the runtime disposed of one input.
#[derive(Clone, Copy, Debug, PartialEq, Eq)]
pub enum InputDisposition {
    Started,
    Queued,
    Rejected,
}

/// Wire disposition of an accepted input.
#[derive(Clone, Copy, Debug, PartialEq, Eq)]
pub enum AcceptedInputDisposition {
    Started,
    Queued,
}

/// The wire disposition of an input: none for a rejected one.
pub open spec fn wire_disposition(d: InputDisposition) -> Option<AcceptedInputDisposition> {
    match d {
        InputDisposition::Started => Some(AcceptedInputDisposition::Started),
        InputDisposition::Queued => Some(AcceptedInputDisposition::Queued),
        InputDisposition::Rejected => None,
    }
}

/// Executable [`wire_disposition`].
pub fn accepted_disposition(d: InputDisposition) -> (r: Option<AcceptedInputDisposition>)
    ensures
        r == wire_disposition(d),
{
    match d {
        InputDisposition::Started => Some(AcceptedInputDisposition::Started),
        InputDisposition::Queued => Some(AcceptedInputDisposition::Queued),
        InputDisposition::Rejected => None,
    }
}

/// Which resources a runtime start created.
#[derive(Clone, Copy, Debug, PartialEq, Eq)]
pub struct CreatedFlags {
    pub agent: bool,
    pub conversation: bool,
}

/// Result of an abort.
#[derive(Clone, Copy, Debug, PartialEq, Eq)]
pub struct AbortOutcome {
    pub aborted: bool,
}

/// Connection responses of runtime commands; `J` is a JSON body.
#[derive(Debug)]
#[allow(inconsistent_fields)]
pub enum ConnectionResponse<J> {
    RuntimeStart {
        request_id: String,
        success: bool,
        runtime: Option<RuntimeScope>,
        agent: Option<J>,
        conversation: Option<J>,
        created: CreatedFlags,
        error: Option<String>,
    },
    InputAccepted {
        request_id: String,
        runtime: RuntimeScope,
        accepted: bool,
        disposition: Option<AcceptedInputDisposition>,
        error: Option<String>,
    },
    SyncResponse { request_id: String, runtime: RuntimeScope, success: bool, error: Option<String> },
    AbortMessage {
        request_id: String,
        runtime: RuntimeScope,
        aborted: bool,
        success: bool,
        error: Option<String>,
    },
    Management { request_id: String, success: bool },
}

fn copy_scope(s: &RuntimeScope) -> (c: RuntimeScope)
    ensures
        c.agent_id@ == s.agent_id@,
        c.conversation_id@ == s.conversation_id@,
{
    RuntimeScope {
        agent_id: copy_string(s.agent_id.as_str()),
        conversation_id: copy_string(s.conversation_id.as_str()),
    }
}

/// Same scope value.
pub open spec fn same_scope(a: RuntimeScope, b: RuntimeScope) -> bool {
    a.agent_id@ == b.agent_id@ && a.conversation_id@ == b.conversation_id@
}

/// Response to a successful runtime start.
pub fn runtime_start_response<J>(
    request_id: &str,
    runtime: &RuntimeScope,
    created: CreatedFlags,
    agent: Option<J>,
    conversation: Option<J>,
) -> (r: ConnectionResponse<J>)
    ensures
        r matches ConnectionResponse::RuntimeStart {
            request_id: rid,
            success,
            runtime: Some(s),
            agent: a,
            conversation: c,
            created: f,
            error: None,
        } && rid@ == request_id@ && success && same_scope(s, *runtime) && a == agent && c == conversation
            && f == created,
{
    ConnectionResponse::RuntimeStart {
        request_id: copy_string(request_id),
        success: true,
        runtime: Some(copy_scope(runtime)),
        agent,
        conversation,
        created,
        error: None,
    }
}

/// Acknowledgement of an input, sent before anything the input caused, and
/// only when the input carried a request id: accepted unless rejected, with
/// the wire disposition and the runtime's detail.
pub fn input_response<J>(
    request_id: Option<&str>,
    runtime: &RuntimeScope,
    disposition: InputDisposition,
    error: Option<&str>,
) -> (r: Option<ConnectionResponse<J>>)
    ensures
        request_id is None ==> r is None,
        request_id matches Some(rid) ==> (r matches Some(
            ConnectionResponse::InputAccepted {
                request_id: q,
                runtime: s,
                accepted,
                disposition: d,
                error: e,
            },
        ) && q@ == rid@ && same_scope(s, *runtime) && accepted == (disposition
            != InputDisposition::Rejected) && d == wire_disposition(disposition) && crate::schedules::ov(e)
            == crate::settings::opt_view(error)),
{
    match request_id {
        None => None,
        Some(rid) => Some(
            ConnectionResponse::InputAccepted {
                request_id: copy_string(rid),
                runtime: copy_scope(runtime),
                accepted: !matches!(disposition, InputDisposition::Rejected),
                disposition: accepted_disposition(disposition),
                error: match error {
                    Some(e) => Some(copy_string(e)),
                    None => None,
                },
            },
        ),
    }
}

/// Response to a successful sync, when the command carried a request id.
pub fn sync_response<J>(request_id: Option<&str>, runtime: &RuntimeScope) -> (r: Option<ConnectionResponse<J>>)
    ensures
        request_id is None ==> r is None,
        request_id matches Some(rid) ==> (r matches Some(
            ConnectionResponse::SyncResponse { request_id: q, runtime: s, success, error: None },
        ) && q@ == rid@ && same_scope(s, *runtime) && success),
{
    match request_id {
        None => None,
        Some(rid) => Some(
            ConnectionResponse::SyncResponse {
                request_id: copy_string(rid),
                runtime: copy_scope(runtime),
                success: true,
                error: None,
            },
        ),
    }
}

/// Response to a successful abort, when the command carried a request id.
pub fn abort_response<J>(request_id: Option<&str>, runtime: &RuntimeScope, outcome: AbortOutcome) -> (r: Option<
    ConnectionResponse<J>,
>)
    ensures
        request_id is None ==> r is None,
        request_id matches Some(rid) ==> (r matches Some(
            ConnectionResponse::AbortMessage { request_id: q, runtime: s, aborted, success, error: None },
        ) && q@ == rid@ && same_scope(s, *runtime) && aborted == outcome.aborted && success),
{
    match request_id {
        None => None,
        Some(rid) => Some(
            ConnectionResponse::AbortMessage {
                request_id: copy_string(rid),
                runtime: copy_scope(runtime),
                aborted: outcome.aborted,
                success: true,
                error: None,
            },
        ),
    }
}

/// Whether a deferred input resumes a control continuation: its `kind` is
/// `approval_response` or `teleport_continue`.
pub open spec fn control_kind(kind: Option<Seq<char>>) -> bool {
    kind == Some("approval_response"@) || kind == Some("teleport_continue"@)
}

/// Executable [`control_kind`].
pub fn is_control_continuation(kind: Option<&str>) -> (b: bool)
    ensures
        b == control_kind(crate::settings::opt_view(kind)),
{
    match kind {
        Some(k) => same_text(k, "approval_response") || same_text(k, "teleport_continue"),
        None => false,
    }
}

/// Why a runtime command could not be served.
#[derive(Clone, Copy, Debug, PartialEq, Eq)]
pub enum ServiceFailure {
    Unavailable,
}

/// The runtime service where none is configured: every command is refused
/// as unavailable.
#[derive(Debug)]
pub struct UnsupportedRuntimeCommandService;

impl UnsupportedRuntimeCommandService {
    /// Refuses a runtime start.
    pub fn runtime_start<T>(&self) -> (r: Result<T, ServiceFailure>)
        ensures
            r == Err::<T, ServiceFailure>(ServiceFailure::Unavailable),
    {
        Err(ServiceFailure::Unavailable)
    }

    /// Refuses an input admission.
    pub fn admit_input<T>(&self) -> (r: Result<T, ServiceFailure>)
        ensures
            r == Err::<T, ServiceFailure>(ServiceFailure::Unavailable),
    {
        Err(ServiceFailure::Unavailable)
    }

    /// Refuses a continuation.
    pub fn continue_input(&self) -> (r: Result<(), ServiceFailure>)
        ensures
            r == Err::<(), ServiceFailure>(ServiceFailure::Unavailable),
    {
        Err(ServiceFailure::Unavailable)
    }

    /// Refuses a sync.
    pub fn sync<T>(&self) -> (r: Result<T, ServiceFailure>)
        ensures
            r == Err::<T, ServiceFailure>(ServiceFailure::Unavailable),
    {
        Err(ServiceFailure::Unavailable)
    }

    /// Refuses an abort.
    pub fn abort_message(&self) -> (r: Result<AbortOutcome, ServiceFailure>)
        ensures
            r == Err::<AbortOutcome, ServiceFailure>(ServiceFailure::Unavailable),
    {
        Err(ServiceFailure::Unavailable)
    }

    /// Refuses a device-state change.
    pub fn change_device_state<T>(&self) -> (r: Result<T, ServiceFailure>)
        ensures
            r == Err::<T, ServiceFailure>(ServiceFailure::Unavailable),
    {
        Err(ServiceFailure::Unavailable)
    }

    /// Refuses to submit a turn.
    pub fn submit_turn(&self) -> (r: Result<(), ServiceFailure>)
        ensures
            r == Err::<(), ServiceFailure>(ServiceFailure::Unavailable),
    {
        Err(ServiceFailure::Unavailable)
    }
}

// ── Outbound message groups ─────────────────────────────────────────────────

fn texts_of(items: &[&str]) -> (r: Vec<String>)
    ensures
        r@.len() == items@.len(),
        forall|i: int| 0 <= i < items@.len() ==> (#[trigger] r@[i])@ == items@[i]@,
{
    let mut r: Vec<String> = Vec::new();
    let mut i: usize = 0;
    while i < items.len()
        invariant
            i <= items@.len(),
            r@.len() == i,
            forall|k: int| 0 <= k < i ==> (#[trigger] r@[k])@ == items@[k]@,
        decreases items@.len() - i,
    {
        r.push(copy_string(items[i]));
        i = i + 1;
    }
    r
}

/// Members of the Control row.
pub fn control_row() -> (r: Vec<String>)
    ensures
        texts(r@) == seq!["control_request"@, "external_tool_call_request"@],
{
    let r = texts_of(&["control_request", "external_tool_call_request"]);
    assert(texts(r@) =~= seq!["control_request"@, "external_tool_call_request"@]);
    r
}

/// Members of the Admission row.
pub fn admission_row() -> (r: Vec<String>)
    ensures
        texts(r@) == seq![
            "input_accepted"@,
            "abort_message_response"@,
            "sync_response"@,
            "runtime_start_response"@,
        ],
{
    let r = texts_of(
        &[
            "input_accepted",
            "abort_message_response",
            "sync_response",
            "runtime_start_response",
        ],
    );
    assert(texts(r@) =~= seq![
            "input_accepted"@,
            "abort_message_response"@,
            "sync_response"@,
            "runtime_start_response"@,
        ]);
    r
}

/// Members of the State row.
pub fn state_row() -> (r: Vec<String>)
    ensures
        texts(r@) == seq![
            "update_device_status"@,
            "update_loop_status"@,
            "update_queue"@,
            "update_subagent_state"@,
            "memory_updated"@,
            "skills_updated"@,
            "crons_updated"@,
            "channels_updated"@,
            "channel_accounts_updated"@,
            "channel_pairings_updated"@,
            "channel_routes_updated"@,
            "channel_targets_updated"@,
        ],
{
    let r = texts_of(
        &[
            "update_device_status",
            "update_loop_status",
            "update_queue",
            "update_subagent_state",
            "memory_updated",
            "skills_updated",
            "crons_updated",
            "channels_updated",
            "channel_accounts_updated",
            "channel_pairings_updated",
            "channel_routes_updated",
            "channel_targets_updated",
        ],
    );
    assert(texts(r@) =~= seq![
            "update_device_status"@,
            "update_loop_status"@,
            "update_queue"@,
            "update_subagent_state"@,
            "memory_updated"@,
            "skills_updated"@,
            "crons_updated"@,
            "channels_updated"@,
            "channel_accounts_updated"@,
            "channel_pairings_updated"@,
            "channel_routes_updated"@,
            "channel_targets_updated"@,
        ]);
    r
}

/// Members of the Stream row.
pub fn stream_row() -> (r: Vec<String>)
    ensures
        texts(r@) == seq!["stream_delta"@],
{
    let r = texts_of(&["stream_delta"]);
    assert(texts(r@) =~= seq!["stream_delta"@]);
    r
}

/// Members of the Terminal row.
pub fn terminal_row() -> (r: Vec<String>)
    ensures
        texts(r@) == seq![
            "turn_finished"@,
            "terminal_spawned"@,
            "terminal_output"@,
            "terminal_exited"@,
        ],
{
    let r = texts_of(
        &[
            "turn_finished",
            "terminal_spawned",
            "terminal_output",
            "terminal_exited",
        ],
    );
    assert(texts(r@) =~= seq![
            "turn_finished"@,
            "terminal_spawned"@,
            "terminal_output"@,
            "terminal_exited"@,
        ]);
    r
}

/// Members of the Management row.
pub fn management_row() -> (r: Vec<String>)
    ensures
        texts(r@) == seq![
            "app_server_info_response"@,
            "agent_list_response"@,
            "agent_retrieve_response"@,
            "conversation_list_response"@,
            "list_models_response"@,
            "connect_provider_response"@,
            "disconnect_provider_response"@,
            "list_memory_response"@,
            "cron_list_response"@,
            "channels_list_response"@,
            "get_tree_response"@,
            "read_file_response"@,
            "search_branches_response"@,
            "secret_list_response"@,
        ],
{
    let r = texts_of(
        &[
            "app_server_info_response",
            "agent_list_response",
            "agent_retrieve_response",
            "conversation_list_response",
            "list_models_response",
            "connect_provider_response",
            "disconnect_provider_response",
            "list_memory_response",
            "cron_list_response",
            "channels_list_response",
            "get_tree_response",
            "read_file_response",
            "search_branches_response",
            "secret_list_response",
        ],
    );
    assert(texts(r@) =~= seq![
            "app_server_info_response"@,
            "agent_list_response"@,
            "agent_retrieve_response"@,
            "conversation_list_response"@,
            "list_models_response"@,
            "connect_provider_response"@,
            "disconnect_provider_response"@,
            "list_memory_response"@,
            "cron_list_response"@,
            "channels_list_response"@,
            "get_tree_response"@,
            "read_file_response"@,
            "search_branches_response"@,
            "secret_list_response"@,
        ]);
    r
}

/// Texts of a list of strings.
pub open spec fn texts(v: Seq<String>) -> Seq<Seq<char>> {
    v.map_values(|s: String| s@)
}

/// The row members that the fixture lists, in row order.
pub open spec fn resolved_members(row: Seq<Seq<char>>, fixture: Seq<Seq<char>>) -> Seq<Seq<char>>
    decreases row.len(),
{
    if row.len() == 0 {
        row
    } else if fixture.contains(row.last()) {
        resolved_members(row.drop_last(), fixture).push(row.last())
    } else {
        resolved_members(row.drop_last(), fixture)
    }
}

fn listed_in(fixture: &Vec<String>, member: &str) -> (b: bool)
    ensures
        b == texts(fixture@).contains(member@),
{
    let mut i: usize = 0;
    while i < fixture.len()
        invariant
            i <= fixture@.len(),
            forall|k: int| 0 <= k < i ==> (#[trigger] fixture@[k])@ != member@,
        decreases fixture@.len() - i,
    {
        if same_text(fixture[i].as_str(), member) {
            assert(texts(fixture@)[i as int] == member@);
            return true;
        }
        i = i + 1;
    }
    proof {
        if texts(fixture@).contains(member@) {
            let k = choose|k: int| 0 <= k < texts(fixture@).len() && texts(fixture@)[k] == member@;
            assert(fixture@[k]@ == member@);
        }
    }
    false
}

/// Intersects one row's members with the fixture's message list, keeping
/// the row's order. A row must resolve to at least one member.
pub fn members_in_fixture(row: &Vec<String>, fixture: &Vec<String>) -> (r: Vec<String>)
    requires
        exists|i: int| 0 <= i < row@.len() && texts(fixture@).contains(#[trigger] row@[i]@),
    ensures
        texts(r@) == resolved_members(texts(row@), texts(fixture@)),
        r@.len() > 0,
{
    let ghost all = texts(row@);
    let mut r: Vec<String> = Vec::new();
    let mut i: usize = 0;
    while i < row.len()
        invariant
            i <= row@.len(),
            all == texts(row@),
            texts(r@) == resolved_members(all.subrange(0, i as int), texts(fixture@)),
            (exists|k: int| 0 <= k < i && texts(fixture@).contains(#[trigger] row@[k]@)) ==> r@.len() > 0,
        decreases row@.len() - i,
    {
        let ghost prev = r@;
        if listed_in(fixture, row[i].as_str()) {
            r.push(copy_string(row[i].as_str()));
            proof {
                assert(texts(r@) =~= texts(prev).push(row@[i as int]@));
            }
        }
        proof {
            assert(all.subrange(0, i + 1).drop_last() =~= all.subrange(0, i as int));
            assert(all.subrange(0, i + 1).last() == row@[i as int]@);
        }
        i = i + 1;
    }
    proof {
        assert(all.subrange(0, row@.len() as int) =~= all);
    }
    r
}

} // verus!
