//! Teleport command group: per-scope pending teleports and the ready
//! outcomes they answer.
//!
//! One pending teleport is retained per runtime scope. A repeat request with
//! the same identifier replays the recorded outcome, a different identifier
//! while one is pending answers the conflict failure without displacing the
//! pending entry, and `teleport_failed` removes only a matching entry.

use crate::text::{copy_string, same_text};
use vstd::prelude::*;

verus! {

/// Agent and conversation a runtime command addresses.
#[derive(Debug)]
pub struct RuntimeScope {
    pub agent_id: String,
    pub conversation_id: String,
}

/// Value of a runtime scope.
pub type ScopeKey = (Seq<char>, Seq<char>);

impl RuntimeScope {
    /// The scope as a value.
    pub open spec fn key(&self) -> ScopeKey {
        (self.agent_id@, self.conversation_id@)
    }

    /// Copies the scope.
    pub fn duplicate(&self) -> (r: Self)
        ensures
            r.key() == self.key(),
    {
        RuntimeScope {
            agent_id: copy_string(self.agent_id.as_str()),
            conversation_id: copy_string(self.conversation_id.as_str()),
        }
    }

    /// Whether two scopes name the same runtime.
    pub fn same(&self, other: &Self) -> (b: bool)
        ensures
            b == (self.key() == other.key()),
    {
        same_text(self.agent_id.as_str(), other.agent_id.as_str()) && same_text(
            self.conversation_id.as_str(),
            other.conversation_id.as_str(),
        )
    }
}

/// `teleport_probe` payload.
#[derive(Debug)]
pub struct TeleportProbeCommand {
    pub request_id: String,
    pub runtime: RuntimeScope,
}

/// Destination device selected by a teleport request.
#[derive(Debug)]
pub struct TeleportTarget {
    pub connection_id: String,
    pub device_id: String,
    pub connection_name: String,
}

/// `teleport_request` payload.
#[derive(Debug)]
pub struct TeleportRequestCommand {
    pub request_id: String,
    pub teleport_id: String,
    pub runtime: RuntimeScope,
    pub target: TeleportTarget,
}

/// `teleport_failed` payload.
#[derive(Debug)]
pub struct TeleportFailedCommand {
    pub teleport_id: String,
    pub runtime: RuntimeScope,
    pub error: String,
}

/// Discriminant of a `teleport_continue` input.
#[derive(Clone, Copy, Debug, PartialEq, Eq)]
pub enum TeleportContinueKind {
    TeleportContinue,
}

/// Device a teleported turn came from.
#[derive(Debug)]
pub struct TeleportSource {
    pub device_id: String,
    pub connection_name: String,
}

/// `teleport_continue` input payload; `A` is one forwarded approval.
#[derive(Debug)]
pub struct TeleportContinuePayload<A> {
    pub kind: TeleportContinueKind,
    pub teleport_id: String,
    pub source: TeleportSource,
    pub continuation: Option<Vec<A>>,
}

/// How the runtime classified the admission of a teleport continuation.
#[derive(Clone, Copy, Debug, PartialEq, Eq)]
pub enum ContinuationAdmission {
    /// Admitted onto the current lease.
    Continue,
    /// Refused because the lease generation was superseded.
    StaleGeneration,
    /// A prior admission of the same item, with its disposition.
    Duplicate(crate::router::InputDisposition),
    /// Any other classification.
    Other,
}

/// Outcome of one teleport continuation.
#[derive(Clone, Copy, Debug, PartialEq, Eq)]
pub enum TeleportContinuationOutcome {
    /// The same turn continues on its lease; the queue is untouched.
    Continued,
    /// The lease was superseded; nothing changed and nothing is emitted.
    StaleLease,
    /// The prior disposition is replayed without running twice.
    Duplicate(crate::router::InputDisposition),
}

/// The outcome of a continuation from the runtime's admission
/// classification; any classification other than the three expected ones
/// is an error.
pub fn continuation_outcome(admission: ContinuationAdmission) -> (r: Result<TeleportContinuationOutcome, ()>)
    ensures
        match admission {
            ContinuationAdmission::Continue => r == Ok::<TeleportContinuationOutcome, ()>(
                TeleportContinuationOutcome::Continued,
            ),
            ContinuationAdmission::StaleGeneration => r == Ok::<TeleportContinuationOutcome, ()>(
                TeleportContinuationOutcome::StaleLease,
            ),
            ContinuationAdmission::Duplicate(d) => r == Ok::<TeleportContinuationOutcome, ()>(
                TeleportContinuationOutcome::Duplicate(d),
            ),
            ContinuationAdmission::Other => r is Err,
        },
{
    match admission {
        ContinuationAdmission::Continue => Ok(TeleportContinuationOutcome::Continued),
        ContinuationAdmission::StaleGeneration => Ok(TeleportContinuationOutcome::StaleLease),
        ContinuationAdmission::Duplicate(d) => Ok(TeleportContinuationOutcome::Duplicate(d)),
        ContinuationAdmission::Other => Err(()),
    }
}

/// The three teleport group commands.
#[derive(Debug)]
pub enum TeleportCommand {
    Probe(TeleportProbeCommand),
    Request(TeleportRequestCommand),
    Failed(TeleportFailedCommand),
}

/// `teleport_probe_response` message; all three flags are literal true.
#[derive(Debug)]
pub struct TeleportProbeResponseMessage {
    pub request_id: String,
    pub runtime: RuntimeScope,
    pub supported: bool,
    pub drains_accepted_inputs: bool,
    pub idempotent_continuation: bool,
}

/// `teleport_ready` message.
#[derive(Debug)]
pub struct TeleportReadyMessage {
    pub teleport_id: String,
    pub runtime: RuntimeScope,
    pub success: bool,
    pub active_turn: bool,
    pub error: Option<String>,
}

/// The two teleport group messages.
#[derive(Debug)]
pub enum TeleportMessage {
    ProbeResponse(TeleportProbeResponseMessage),
    Ready(TeleportReadyMessage),
}

/// Conflict failure text while another teleport owns the conversation.
pub open spec fn conflict_error() -> Seq<char> {
    "Conversation already has a teleport pending"@
}

/// Value of one pending teleport.
pub struct Pending {
    pub teleport_id: Seq<char>,
    pub ready: bool,
    pub success: bool,
    pub active_turn: bool,
    pub error: Option<Seq<char>>,
}

/// Value of one `teleport_ready` outcome.
pub struct Ready {
    pub teleport_id: Seq<char>,
    pub scope: ScopeKey,
    pub success: bool,
    pub active_turn: bool,
    pub error: Option<Seq<char>>,
}

/// Value of a message when it is a ready outcome.
pub open spec fn ready_view(m: TeleportMessage) -> Option<Ready> {
    match m {
        TeleportMessage::Ready(r) => Some(
            Ready {
                teleport_id: r.teleport_id@,
                scope: r.runtime.key(),
                success: r.success,
                active_turn: r.active_turn,
                error: match r.error {
                    Some(e) => Some(e@),
                    None => None,
                },
            },
        ),
        _ => None,
    }
}

/// Value of an optional outgoing message.
pub open spec fn outcome_view(m: Option<TeleportMessage>) -> Option<Ready> {
    match m {
        Some(x) => ready_view(x),
        None => None,
    }
}

/// Outcome a request answers, given the scope's pending teleport.
pub open spec fn request_outcome(
    pending: Option<Pending>,
    scope: ScopeKey,
    teleport_id: Seq<char>,
    processing: bool,
) -> Option<Ready> {
    match pending {
        Some(p) => if p.teleport_id == teleport_id {
            if p.ready {
                Some(
                    Ready {
                        teleport_id: p.teleport_id,
                        scope,
                        success: p.success,
                        active_turn: p.active_turn,
                        error: p.error,
                    },
                )
            } else {
                None
            }
        } else {
            Some(
                Ready {
                    teleport_id,
                    scope,
                    success: false,
                    active_turn: false,
                    error: Some(conflict_error()),
                },
            )
        },
        None => if processing {
            None
        } else {
            Some(
                Ready {
                    teleport_id,
                    scope,
                    success: true,
                    active_turn: false,
                    error: None,
                },
            )
        },
    }
}

/// The scope's pending teleport after a request: unchanged when one is
/// pending, else a fresh entry ready at once unless the scope is busy.
pub open spec fn request_pending(pending: Option<Pending>, teleport_id: Seq<char>, processing: bool) -> Option<
    Pending,
> {
    match pending {
        Some(p) => Some(p),
        None => Some(
            Pending {
                teleport_id,
                ready: !processing,
                success: !processing,
                active_turn: false,
                error: None,
            },
        ),
    }
}

/// The scope's pending teleport after a failure report naming `teleport_id`.
pub open spec fn failed_pending(pending: Option<Pending>, teleport_id: Seq<char>) -> Option<Pending> {
    match pending {
        Some(p) => if p.teleport_id == teleport_id {
            None
        } else {
            Some(p)
        },
        None => None,
    }
}

struct PendingEntry {
    scope: RuntimeScope,
    teleport_id: String,
    ready: bool,
    success: bool,
    active_turn: bool,
    error: Option<String>,
}

spec fn entry_value(e: PendingEntry) -> Pending {
    Pending {
        teleport_id: e.teleport_id@,
        ready: e.ready,
        success: e.success,
        active_turn: e.active_turn,
        error: match e.error {
            Some(x) => Some(x@),
            None => None,
        },
    }
}

spec fn pending_in(s: Seq<PendingEntry>, scope: ScopeKey) -> Option<Pending>
    decreases s.len(),
{
    if s.len() == 0 {
        None
    } else if s.last().scope.key() == scope {
        Some(entry_value(s.last()))
    } else {
        pending_in(s.drop_last(), scope)
    }
}

spec fn distinct_scopes(s: Seq<PendingEntry>) -> bool
    decreases s.len(),
{
    s.len() == 0 || (distinct_scopes(s.drop_last()) && pending_in(s.drop_last(), s.last().scope.key()) is None)
}

proof fn lemma_pending_push(s: Seq<PendingEntry>, e: PendingEntry, k: ScopeKey)
    ensures
        pending_in(s.push(e), k) == if e.scope.key() == k {
            Some(entry_value(e))
        } else {
            pending_in(s, k)
        },
{
    assert(s.push(e).drop_last() =~= s);
}

proof fn lemma_distinct_prefix(s: Seq<PendingEntry>, n: int)
    requires
        distinct_scopes(s),
        0 <= n <= s.len(),
    ensures
        distinct_scopes(s.subrange(0, n)),
    decreases s.len() - n,
{
    if n < s.len() {
        assert(s.drop_last() =~= s.subrange(0, s.len() - 1));
        lemma_distinct_prefix(s.drop_last(), n);
        assert(s.drop_last().subrange(0, n) =~= s.subrange(0, n));
    } else {
        assert(s.subrange(0, n) =~= s);
    }
}

/// Per-scope pending teleports.
pub struct TeleportBridge {
    entries: Vec<PendingEntry>,
}

fn copy_opt(o: &Option<String>) -> (r: Option<String>)
    ensures
        match o {
            Some(x) => r matches Some(y) && y@ == x@,
            None => r is None,
        },
{
    match o {
        Some(x) => Some(copy_string(x.as_str())),
        None => None,
    }
}

impl TeleportBridge {
    /// Pending teleport of one scope.
    pub closed spec fn pending(&self, scope: ScopeKey) -> Option<Pending> {
        pending_in(self.entries@, scope)
    }

    /// Number of scopes holding a pending teleport.
    pub closed spec fn count(&self) -> nat {
        self.entries@.len()
    }

    /// Each scope holds at most one pending teleport.
    pub closed spec fn wf(&self) -> bool {
        distinct_scopes(self.entries@)
    }

    /// No pending teleport anywhere.
    pub fn new() -> (b: Self)
        ensures
            b.wf(),
            b.count() == 0,
            forall|k: ScopeKey| #[trigger] b.pending(k) is None,
    {
        TeleportBridge { entries: Vec::new() }
    }

    /// Number of scopes currently holding a pending teleport.
    pub fn pending_len(&self) -> (n: usize)
        ensures
            n == self.count(),
    {
        self.entries.len()
    }

    fn find(&self, scope: &RuntimeScope) -> (r: Option<usize>)
        ensures
            match r {
                Some(i) => i < self.entries@.len() && self.entries@[i as int].scope.key()
                    == scope.key() && pending_in(self.entries@, scope.key()) == Some(
                    entry_value(self.entries@[i as int]),
                ),
                None => pending_in(self.entries@, scope.key()) is None,
            },
    {
        let ghost key = scope.key();
        let mut j = self.entries.len();
        assert(self.entries@.subrange(0, j as int) =~= self.entries@);
        while j > 0
            invariant
                key == scope.key(),
                j <= self.entries@.len(),
                pending_in(self.entries@, key) == pending_in(self.entries@.subrange(0, j as int), key),
            decreases j,
        {
            assert(self.entries@.subrange(0, j as int) =~= self.entries@.subrange(0, j - 1).push(
                self.entries@[j - 1],
            ));
            proof {
                lemma_pending_push(self.entries@.subrange(0, j - 1), self.entries@[j - 1], key);
            }
            if self.entries[j - 1].scope.same(scope) {
                return Some(j - 1);
            }
            j = j - 1;
        }
        assert(self.entries@.subrange(0, 0) =~= Seq::<PendingEntry>::empty());
        None
    }

    /// Answers a capability probe with the affirmative response; no pending
    /// state changes.
    pub fn probe(&self, command: &TeleportProbeCommand) -> (r: TeleportMessage)
        ensures
            r matches TeleportMessage::ProbeResponse(m) && m.request_id@ == command.request_id@
                && m.runtime.key() == command.runtime.key() && m.supported
                && m.drains_accepted_inputs && m.idempotent_continuation,
    {
        TeleportMessage::ProbeResponse(
            TeleportProbeResponseMessage {
                request_id: copy_string(command.request_id.as_str()),
                runtime: command.runtime.duplicate(),
                supported: true,
                drains_accepted_inputs: true,
                idempotent_continuation: true,
            },
        )
    }

    /// Registers a teleport request and returns its immediate outcome, if
    /// any. `processing` reports whether the scope's turn is busy.
    pub fn request(&mut self, command: &TeleportRequestCommand, processing: bool) -> (r: Option<
        TeleportMessage,
    >)
        requires
            old(self).wf(),
        ensures
            final(self).wf(),
            outcome_view(r) == request_outcome(
                old(self).pending(command.runtime.key()),
                command.runtime.key(),
                command.teleport_id@,
                processing,
            ),
            r matches Some(m) ==> m is Ready,
            r is None <==> request_outcome(
                old(self).pending(command.runtime.key()),
                command.runtime.key(),
                command.teleport_id@,
                processing,
            ) is None,
            final(self).pending(command.runtime.key()) == request_pending(
                old(self).pending(command.runtime.key()),
                command.teleport_id@,
                processing,
            ),
            forall|k: ScopeKey|
                k != command.runtime.key() ==> #[trigger] final(self).pending(k) == old(
                    self,
                ).pending(k),
            final(self).count() == old(self).count() + (if old(self).pending(
                command.runtime.key(),
            ) is None {
                1int
            } else {
                0int
            }),
    {
        match self.find(&command.runtime) {
            Some(i) => {
                let e = &self.entries[i];
                if same_text(e.teleport_id.as_str(), command.teleport_id.as_str()) {
                    if e.ready {
                        Some(
                            TeleportMessage::Ready(
                                TeleportReadyMessage {
                                    teleport_id: copy_string(e.teleport_id.as_str()),
                                    runtime: command.runtime.duplicate(),
                                    success: e.success,
                                    active_turn: e.active_turn,
                                    error: copy_opt(&e.error),
                                },
                            ),
                        )
                    } else {
                        None
                    }
                } else {
                    proof {
                        reveal_strlit("Conversation already has a teleport pending");
                    }
                    Some(
                        TeleportMessage::Ready(
                            TeleportReadyMessage {
                                teleport_id: copy_string(command.teleport_id.as_str()),
                                runtime: command.runtime.duplicate(),
                                success: false,
                                active_turn: false,
                                error: Some(copy_string("Conversation already has a teleport pending")),
                            },
                        ),
                    )
                }
            },
            None => {
                let entry = PendingEntry {
                    scope: command.runtime.duplicate(),
                    teleport_id: copy_string(command.teleport_id.as_str()),
                    ready: !processing,
                    success: !processing,
                    active_turn: false,
                    error: None,
                };
                let message = if !processing {
                    Some(
                        TeleportMessage::Ready(
                            TeleportReadyMessage {
                                teleport_id: copy_string(command.teleport_id.as_str()),
                                runtime: command.runtime.duplicate(),
                                success: true,
                                active_turn: false,
                                error: None,
                            },
                        ),
                    )
                } else {
                    None
                };
                let ghost before = self.entries@;
                self.entries.push(entry);
                assert(self.entries@.drop_last() =~= before);
                assert forall|k: ScopeKey| #[trigger] pending_in(self.entries@, k) == if k
                    == command.runtime.key() {
                    Some(entry_value(entry))
                } else {
                    pending_in(before, k)
                } by {
                    lemma_pending_push(before, entry, k);
                }
                message
            },
        }
    }

    /// Drops the pending teleport named by a failure report; unknown or
    /// mismatched identities change nothing. Returns whether one was removed.
    pub fn failed(&mut self, command: &TeleportFailedCommand) -> (b: bool)
        requires
            old(self).wf(),
        ensures
            final(self).wf(),
            b == (old(self).pending(command.runtime.key()) matches Some(p) && p.teleport_id
                == command.teleport_id@),
            final(self).pending(command.runtime.key()) == failed_pending(
                old(self).pending(command.runtime.key()),
                command.teleport_id@,
            ),
            forall|k: ScopeKey|
                k != command.runtime.key() ==> #[trigger] final(self).pending(k) == old(
                    self,
                ).pending(k),
            final(self).count() == old(self).count() - (if b { 1int } else { 0int }),
    {
        let matches = match self.find(&command.runtime) {
            Some(i) => same_text(self.entries[i].teleport_id.as_str(), command.teleport_id.as_str()),
            None => false,
        };
        if !matches {
            return false;
        }
        let ghost key = command.runtime.key();
        let ghost all = self.entries@;
        let n = self.entries.len();
        let mut kept: Vec<PendingEntry> = Vec::new();
        let mut rest: Vec<PendingEntry> = Vec::new();
        std::mem::swap(&mut rest, &mut self.entries);
        let mut i: usize = 0;
        let mut dropped: usize = 0;
        while rest.len() > 0
            invariant
                key == command.runtime.key(),
                distinct_scopes(all),
                all.len() == n,
                i + rest@.len() == all.len(),
                rest@ == all.subrange(i as int, all.len() as int),
                distinct_scopes(kept@),
                forall|k: ScopeKey|
                    #[trigger] pending_in(kept@, k) == if k == key {
                        None
                    } else {
                        pending_in(all.subrange(0, i as int), k)
                    },
                dropped <= 1,
                dropped == 1 <==> pending_in(all.subrange(0, i as int), key) is Some,
                kept@.len() + dropped == i,
            decreases rest@.len(),
        {
            let e = rest.remove(0);
            let ghost pre = all.subrange(0, i as int);
            let ghost post = all.subrange(0, i + 1);
            assert(post =~= pre.push(e));
            proof {
                lemma_distinct_prefix(all, i + 1);
                assert(post.drop_last() =~= pre);
            }
            assert(rest@ =~= all.subrange(i + 1, all.len() as int));
            if e.scope.same(&command.runtime) {
                assert forall|k: ScopeKey| k != key implies pending_in(post, k) == pending_in(pre, k) by {
                    lemma_pending_push(pre, e, k);
                }
                proof {
                    lemma_pending_push(pre, e, key);
                }
                dropped = dropped + 1;
            } else {
                let ghost old_kept = kept@;
                kept.push(e);
                assert(kept@.drop_last() =~= old_kept);
                assert forall|k: ScopeKey|
                    #[trigger] pending_in(kept@, k) == if k == key {
                        None
                    } else {
                        pending_in(post, k)
                    } by {
                    lemma_pending_push(pre, e, k);
                    lemma_pending_push(old_kept, e, k);
                }
                proof {
                    lemma_pending_push(pre, e, key);
                }
            }
            i = i + 1;
        }
        assert(all.subrange(0, i as int) =~= all);
        self.entries = kept;
        true
    }
}

/// Replay: once a request answered an outcome, repeating the same request
/// answers the very same outcome, whatever the scope's busy state.
pub proof fn law_repeat_request_replays(
    pending: Option<Pending>,
    scope: ScopeKey,
    teleport_id: Seq<char>,
    first_busy: bool,
    second_busy: bool,
)
    requires
        request_outcome(pending, scope, teleport_id, first_busy) is Some,
    ensures
        request_outcome(
            request_pending(pending, teleport_id, first_busy),
            scope,
            teleport_id,
            second_busy,
        ) == request_outcome(pending, scope, teleport_id, first_busy),
{
}

/// A conflicting request never displaces the pending teleport.
pub proof fn law_conflict_keeps_pending(
    pending: Option<Pending>,
    teleport_id: Seq<char>,
    processing: bool,
)
    requires
        pending is Some,
        pending->0.teleport_id != teleport_id,
    ensures
        request_pending(pending, teleport_id, processing) == pending,
{
}

/// After a failure naming the pending teleport, the scope is free again and
/// a new request registers afresh.
pub proof fn law_failure_frees_scope(p: Pending, other: Seq<char>, processing: bool)
    ensures
        failed_pending(Some(p), p.teleport_id) is None,
        request_pending(failed_pending(Some(p), p.teleport_id), other, processing)->0.teleport_id
            == other,
{
}

/// A failure naming another identity changes nothing.
pub proof fn law_unknown_failure_is_noop(pending: Option<Pending>, teleport_id: Seq<char>)
    requires
        !(pending matches Some(p) && p.teleport_id == teleport_id),
    ensures
        failed_pending(pending, teleport_id) == pending,
{
}

} // verus!
