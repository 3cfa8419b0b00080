//! Terminal command group: wire types, frame validation, the React Strict
//! Mode reuse window, and the per-(connection, `terminal_id`) session table.
//!
//! Sessions are scoped by connection: every operation resolves its record
//! through the pair `(connection, terminal_id)`, so commands naming another
//! connection's `terminal_id` never reach that connection's session.

use crate::errors::ProtocolErrorEnvelope;
use crate::text::{copy_string, same_text};
use crate::ConnectionId;
use vstd::prelude::*;
use vstd::utf8::encode_utf8;

verus! {

/// React Strict Mode tolerance window, in milliseconds.
pub const STRICT_MODE_REUSE_WINDOW_MS: i64 = 2_000;
/// Maximum `terminal_id` bytes accepted before the frame is rejected.
pub const TERMINAL_ID_BYTES_MAX: usize = 64;
/// Maximum `terminal_input` payload bytes accepted per command.
pub const TERMINAL_INPUT_BYTES_MAX: usize = 65_536;
/// Exit code reported by `terminal_exited` when the shell could not spawn.
pub const SPAWN_FAILURE_EXIT_CODE: i32 = 1;

/// `terminal_spawn` payload.
#[derive(Debug)]
pub struct TerminalSpawnCommand {
    pub terminal_id: String,
    pub cols: u16,
    pub rows: u16,
    pub cwd: Option<String>,
}

/// `terminal_input` payload.
#[derive(Debug)]
pub struct TerminalInputCommand {
    pub terminal_id: String,
    pub data: String,
}

/// `terminal_resize` payload.
#[derive(Debug)]
pub struct TerminalResizeCommand {
    pub terminal_id: String,
    pub cols: u16,
    pub rows: u16,
}

/// `terminal_kill` payload.
#[derive(Debug)]
pub struct TerminalKillCommand {
    pub terminal_id: String,
}

/// The four terminal group commands.
#[derive(Debug)]
pub enum TerminalCommand {
    Spawn(TerminalSpawnCommand),
    Input(TerminalInputCommand),
    Resize(TerminalResizeCommand),
    Kill(TerminalKillCommand),
}

/// `terminal_spawned` message.
#[derive(Debug)]
pub struct TerminalSpawnedMessage {
    pub terminal_id: String,
    pub pid: u32,
}

/// `terminal_output` message.
#[derive(Debug)]
pub struct TerminalOutputMessage {
    pub terminal_id: String,
    pub data: String,
}

/// `terminal_exited` message.
#[derive(Debug)]
pub struct TerminalExitedMessage {
    pub terminal_id: String,
    pub exit_code: i32,
    pub error: Option<String>,
}

/// The three terminal group messages.
#[derive(Debug)]
pub enum TerminalMessage {
    Spawned(TerminalSpawnedMessage),
    Output(TerminalOutputMessage),
    Exited(TerminalExitedMessage),
}

// ── Validation ──────────────────────────────────────────────────────────────

/// UTF-8 byte length of a text, as `str::len` reports it.
pub open spec fn byte_len(s: Seq<char>) -> usize {
    encode_utf8(s).len() as usize
}

/// Whether a terminal identity (and optional input payload length) exceeds
/// the frame limits.
pub open spec fn over_limit(terminal_id: Seq<char>, data_bytes: Option<usize>) -> bool {
    byte_len(terminal_id) > TERMINAL_ID_BYTES_MAX || match data_bytes {
        Some(b) => b > TERMINAL_INPUT_BYTES_MAX,
        None => false,
    }
}

/// Whether a decoded terminal command exceeds the frame limits.
pub open spec fn command_oversized(command: TerminalCommand) -> bool {
    match command {
        TerminalCommand::Spawn(p) => over_limit(p.terminal_id@, None),
        TerminalCommand::Input(p) => over_limit(p.terminal_id@, Some(byte_len(p.data@))),
        TerminalCommand::Resize(p) => over_limit(p.terminal_id@, None),
        TerminalCommand::Kill(p) => over_limit(p.terminal_id@, None),
    }
}

fn exceeds(terminal_id: &str, data_bytes: Option<usize>) -> (b: bool)
    ensures
        b == over_limit(terminal_id@, data_bytes),
{
    terminal_id.len() > TERMINAL_ID_BYTES_MAX || match data_bytes {
        Some(bytes) => bytes > TERMINAL_INPUT_BYTES_MAX,
        None => false,
    }
}

/// Rejects oversized terminal commands with the correlated
/// `terminal_command_invalid` envelope.
pub fn validate(command: &TerminalCommand, request_id: Option<String>) -> (r: Result<
    (),
    ProtocolErrorEnvelope,
>)
    ensures
        r is Ok <==> !command_oversized(*command),
        r matches Err(e) ==> e.code@ == "terminal_command_invalid"@ && e.message@
            == "invalid terminal command"@ && e.request_id == request_id,
{
    let oversized = match command {
        TerminalCommand::Spawn(p) => exceeds(p.terminal_id.as_str(), None),
        TerminalCommand::Input(p) => exceeds(p.terminal_id.as_str(), Some(p.data.as_str().len())),
        TerminalCommand::Resize(p) => exceeds(p.terminal_id.as_str(), None),
        TerminalCommand::Kill(p) => exceeds(p.terminal_id.as_str(), None),
    };
    if oversized {
        return Err(
            ProtocolErrorEnvelope::new(
                "terminal_command_invalid",
                "invalid terminal command",
                request_id,
            ),
        );
    }
    Ok(())
}

// ── Window and messages ─────────────────────────────────────────────────────

/// Whether `now` falls strictly inside the reuse window opened at
/// `spawned_at` (epoch milliseconds); a window end past the representable
/// range counts as outside.
pub open spec fn in_window(now: i64, spawned_at: i64) -> bool {
    spawned_at + STRICT_MODE_REUSE_WINDOW_MS <= i64::MAX && now < spawned_at
        + STRICT_MODE_REUSE_WINDOW_MS
}

/// Executable [`in_window`].
pub fn within_window(now: i64, spawned_at: i64) -> (b: bool)
    ensures
        b == in_window(now, spawned_at),
{
    match spawned_at.checked_add(STRICT_MODE_REUSE_WINDOW_MS) {
        Some(deadline) => now < deadline,
        None => false,
    }
}

/// Working directory of a spawn: the requested one, else the fallback.
pub fn resolve_cwd(default_cwd: &str, requested: &Option<String>) -> (r: String)
    ensures
        r@ == match requested {
            Some(c) => c@,
            None => default_cwd@,
        },
{
    match requested {
        Some(c) => copy_string(c.as_str()),
        None => copy_string(default_cwd),
    }
}

/// `terminal_spawned` for one identity and pid.
pub fn spawned_message(terminal_id: &str, pid: u32) -> (r: TerminalMessage)
    ensures
        r matches TerminalMessage::Spawned(m) && m.terminal_id@ == terminal_id@ && m.pid == pid,
{
    TerminalMessage::Spawned(TerminalSpawnedMessage { terminal_id: copy_string(terminal_id), pid })
}

/// `terminal_exited` answering a spawn failure with its scrubbed detail.
pub fn failure_message(terminal_id: &str, error: String) -> (r: TerminalMessage)
    ensures
        r matches TerminalMessage::Exited(m) && m.terminal_id@ == terminal_id@ && m.exit_code
            == SPAWN_FAILURE_EXIT_CODE && m.error == Some(error),
{
    TerminalMessage::Exited(
        TerminalExitedMessage {
            terminal_id: copy_string(terminal_id),
            exit_code: SPAWN_FAILURE_EXIT_CODE,
            error: Some(error),
        },
    )
}

/// `terminal_exited` for a natural exit.
pub fn exited_message(terminal_id: &str, exit_code: i32) -> (r: TerminalMessage)
    ensures
        r matches TerminalMessage::Exited(m) && m.terminal_id@ == terminal_id@ && m.exit_code
            == exit_code && m.error is None,
{
    TerminalMessage::Exited(
        TerminalExitedMessage { terminal_id: copy_string(terminal_id), exit_code, error: None },
    )
}

/// `terminal_output` for one output chunk.
pub fn output_message(terminal_id: &str, data: String) -> (r: TerminalMessage)
    ensures
        r matches TerminalMessage::Output(m) && m.terminal_id@ == terminal_id@ && m.data == data,
{
    TerminalMessage::Output(TerminalOutputMessage { terminal_id: copy_string(terminal_id), data })
}

// ── Session table ───────────────────────────────────────────────────────────

/// One retained session: its owner, identity, shell pid and spawn instant.
#[derive(Debug)]
pub struct SessionRecord {
    pub connection: ConnectionId,
    pub terminal_id: String,
    pub pid: u32,
    pub spawned_at: i64,
}

/// The scoped key of one session.
pub type SessionKey = (ConnectionId, Seq<char>);

/// Key of one record.
pub open spec fn key_of(r: SessionRecord) -> SessionKey {
    (r.connection, r.terminal_id@)
}

/// `(pid, spawned_at)` of the record retained under `key`, the latest one.
pub open spec fn lookup(s: Seq<SessionRecord>, key: SessionKey) -> Option<(u32, i64)>
    decreases s.len(),
{
    if s.len() == 0 {
        None
    } else if key_of(s.last()) == key {
        Some((s.last().pid, s.last().spawned_at))
    } else {
        lookup(s.drop_last(), key)
    }
}

/// No key is retained twice.
pub open spec fn unique_keys(s: Seq<SessionRecord>) -> bool
    decreases s.len(),
{
    s.len() == 0 || (unique_keys(s.drop_last()) && lookup(s.drop_last(), key_of(s.last())) is None)
}

proof fn lemma_lookup_push(s: Seq<SessionRecord>, r: SessionRecord, k: SessionKey)
    ensures
        lookup(s.push(r), k) == if key_of(r) == k {
            Some((r.pid, r.spawned_at))
        } else {
            lookup(s, k)
        },
{
    assert(s.push(r).drop_last() =~= s);
    assert(s.push(r).last() == r);
}

proof fn lemma_unique_prefix(s: Seq<SessionRecord>, n: int)
    requires
        unique_keys(s),
        0 <= n <= s.len(),
    ensures
        unique_keys(s.subrange(0, n)),
    decreases s.len() - n,
{
    if n < s.len() {
        assert(s.drop_last() =~= s.subrange(0, s.len() - 1));
        lemma_unique_prefix(s.drop_last(), n);
        assert(s.drop_last().subrange(0, n) =~= s.subrange(0, n));
    } else {
        assert(s.subrange(0, n) =~= s);
    }
}

/// Number of retained keys whose owner is `connection`.
pub open spec fn owned_count(s: Seq<SessionRecord>, connection: ConnectionId) -> nat
    decreases s.len(),
{
    if s.len() == 0 {
        0
    } else {
        owned_count(s.drop_last(), connection) + if s.last().connection == connection {
            1nat
        } else {
            0nat
        }
    }
}

/// Per-(connection, `terminal_id`) interactive sessions.
pub struct SessionTable {
    records: Vec<SessionRecord>,
}

/// Outcome of one kill.
#[derive(Debug)]
pub enum KillOutcome {
    /// The session is younger than the reuse window and stays.
    Protected,
    /// The session was removed; the host terminates it.
    Removed(SessionRecord),
    /// No session under this key.
    Absent,
}

impl SessionTable {
    /// Retained records, oldest first.
    pub closed spec fn records(&self) -> Seq<SessionRecord> {
        self.records@
    }

    /// `(pid, spawned_at)` retained under `key`.
    pub open spec fn session(&self, key: SessionKey) -> Option<(u32, i64)> {
        lookup(self.records(), key)
    }

    /// Every key is retained at most once.
    pub open spec fn wf(&self) -> bool {
        unique_keys(self.records())
    }

    /// An empty table.
    pub fn new() -> (t: Self)
        ensures
            t.wf(),
            t.records().len() == 0,
            forall|k: SessionKey| #[trigger] t.session(k) is None,
    {
        SessionTable { records: Vec::new() }
    }

    /// Number of retained sessions.
    pub fn len(&self) -> (n: usize)
        ensures
            n == self.records().len(),
    {
        self.records.len()
    }

    fn find(&self, connection: ConnectionId, terminal_id: &str) -> (r: Option<usize>)
        ensures
            match r {
                Some(i) => i < self.records().len() && key_of(self.records()[i as int]) == (
                    connection,
                    terminal_id@,
                ) && lookup(self.records(), (connection, terminal_id@)) == Some(
                    (self.records()[i as int].pid, self.records()[i as int].spawned_at),
                ),
                None => lookup(self.records(), (connection, terminal_id@)) is None,
            },
    {
        let ghost key = (connection, terminal_id@);
        let mut j = self.records.len();
        assert(self.records@.subrange(0, j as int) =~= self.records@);
        while j > 0
            invariant
                key == (connection, terminal_id@),
                j <= self.records@.len(),
                lookup(self.records@, key) == lookup(self.records@.subrange(0, j as int), key),
            decreases j,
        {
            let r = &self.records[j - 1];
            let ghost pre = self.records@.subrange(0, j as int);
            assert(pre =~= self.records@.subrange(0, j - 1).push(self.records@[j - 1]));
            proof {
                lemma_lookup_push(self.records@.subrange(0, j - 1), self.records@[j - 1], key);
            }
            if r.connection == connection && same_text(r.terminal_id.as_str(), terminal_id) {
                return Some(j - 1);
            }
            j = j - 1;
        }
        assert(self.records@.subrange(0, 0) =~= Seq::<SessionRecord>::empty());
        None
    }

    /// `(pid, spawned_at)` of the session under one key.
    pub fn get(&self, connection: ConnectionId, terminal_id: &str) -> (r: Option<(u32, i64)>)
        ensures
            r == self.session((connection, terminal_id@)),
    {
        match self.find(connection, terminal_id) {
            Some(i) => Some((self.records[i].pid, self.records[i].spawned_at)),
            None => None,
        }
    }

    /// Removes the session under `key`, returning it; every other key keeps
    /// its session.
    pub fn remove(&mut self, connection: ConnectionId, terminal_id: &str) -> (r: Option<
        SessionRecord,
    >)
        requires
            old(self).wf(),
        ensures
            final(self).wf(),
            match r {
                Some(rec) => key_of(rec) == (connection, terminal_id@) && old(self).session(
                    (connection, terminal_id@),
                ) == Some((rec.pid, rec.spawned_at)),
                None => old(self).session((connection, terminal_id@)) is None,
            },
            final(self).session((connection, terminal_id@)) is None,
            forall|k: SessionKey|
                k != (connection, terminal_id@) ==> #[trigger] final(self).session(k) == old(
                    self,
                ).session(k),
            final(self).records().len() == old(self).records().len() - (if r is Some {
                1int
            } else {
                0int
            }),
    {
        let ghost key = (connection, terminal_id@);
        let ghost all = self.records@;
        let n = self.records.len();
        let mut kept: Vec<SessionRecord> = Vec::new();
        let mut taken: Option<SessionRecord> = None;
        let mut rest: Vec<SessionRecord> = Vec::new();
        std::mem::swap(&mut rest, &mut self.records);
        let mut i: usize = 0;
        while rest.len() > 0
            invariant
                key == (connection, terminal_id@),
                unique_keys(all),
                all.len() == n,
                i + rest@.len() == all.len(),
                rest@ == all.subrange(i as int, all.len() as int),
                unique_keys(kept@),
                forall|k: SessionKey|
                    #[trigger] lookup(kept@, k) == if k == key {
                        None
                    } else {
                        lookup(all.subrange(0, i as int), k)
                    },
                match taken {
                    Some(rec) => key_of(rec) == key && lookup(all.subrange(0, i as int), key)
                        == Some((rec.pid, rec.spawned_at)),
                    None => lookup(all.subrange(0, i as int), key) is None,
                },
                kept@.len() == i - (if taken is Some { 1int } else { 0int }),
            decreases rest@.len(),
        {
            let rec = rest.remove(0);
            let ghost pre = all.subrange(0, i as int);
            let ghost post = all.subrange(0, i + 1);
            assert(post =~= pre.push(rec));
            assert(post.drop_last() =~= pre);
            proof {
                lemma_unique_prefix(all, i + 1);
            }
            assert(rest@ =~= all.subrange(i + 1, all.len() as int));
            if rec.connection == connection && same_text(rec.terminal_id.as_str(), terminal_id) {
                assert forall|k: SessionKey| k != key implies lookup(post, k) == lookup(pre, k) by {
                    lemma_lookup_push(pre, rec, k);
                }
                taken = Some(rec);
            } else {
                let ghost old_kept = kept@;
                kept.push(rec);
                assert(kept@.drop_last() =~= old_kept);
                assert(lookup(old_kept, key_of(rec)) is None);
                assert forall|k: SessionKey|
                    #[trigger] lookup(kept@, k) == if k == key {
                        None
                    } else {
                        lookup(post, k)
                    } by {
                    lemma_lookup_push(pre, rec, k);
                    lemma_lookup_push(old_kept, rec, k);
                }
            }
            i = i + 1;
        }
        assert(all.subrange(0, i as int) =~= all);
        self.records = kept;
        taken
    }

    /// Retains a freshly spawned session under `key`, replacing any record
    /// left under it.
    pub fn insert(&mut self, connection: ConnectionId, terminal_id: &str, pid: u32, now: i64)
        requires
            old(self).wf(),
        ensures
            final(self).wf(),
            final(self).session((connection, terminal_id@)) == Some((pid, now)),
            forall|k: SessionKey|
                k != (connection, terminal_id@) ==> #[trigger] final(self).session(k) == old(
                    self,
                ).session(k),
    {
        let _ = self.remove(connection, terminal_id);
        let ghost mid: SessionTable = *self;
        let rec = SessionRecord {
            connection,
            terminal_id: copy_string(terminal_id),
            pid,
            spawned_at: now,
        };
        let ghost before = self.records@;
        self.records.push(rec);
        assert(self.records@.drop_last() =~= before);
        assert(self.records@.last() == rec);
        assert forall|k: SessionKey| k != (connection, terminal_id@) implies #[trigger] lookup(
            self.records@,
            k,
        ) == old(self).session(k) by {
            lemma_lookup_push(before, rec, k);
            assert(mid.session(k) == old(self).session(k));
        }
    }

    /// Pid to resend when a repeat spawn may reuse the live session under
    /// `key`: one younger than the reuse window whose process has not
    /// exited. `exited` reports the retained process's state.
    pub fn reusable_pid(&self, connection: ConnectionId, terminal_id: &str, now: i64, exited: bool) -> (r:
        Option<u32>)
        ensures
            r == match self.session((connection, terminal_id@)) {
                Some((pid, at)) => if in_window(now, at) && !exited {
                    Some(pid)
                } else {
                    None
                },
                None => None,
            },
    {
        match self.get(connection, terminal_id) {
            Some((pid, at)) => if within_window(now, at) && !exited {
                Some(pid)
            } else {
                None
            },
            None => None,
        }
    }

    /// Applies one kill: a session younger than the window is protected and
    /// stays; an older one is removed for termination.
    pub fn kill(&mut self, connection: ConnectionId, terminal_id: &str, now: i64) -> (r:
        KillOutcome)
        requires
            old(self).wf(),
        ensures
            final(self).wf(),
            match old(self).session((connection, terminal_id@)) {
                None => r is Absent && final(self).records() == old(self).records(),
                Some((pid, at)) => if in_window(now, at) {
                    r is Protected && final(self).records() == old(self).records()
                } else {
                    r matches KillOutcome::Removed(rec) && rec.pid == pid && key_of(rec) == (
                        connection,
                        terminal_id@,
                    ) && final(self).session((connection, terminal_id@)) is None
                },
            },
            forall|k: SessionKey|
                k != (connection, terminal_id@) ==> #[trigger] final(self).session(k) == old(
                    self,
                ).session(k),
    {
        match self.get(connection, terminal_id) {
            None => KillOutcome::Absent,
            Some((_, at)) => {
                if within_window(now, at) {
                    KillOutcome::Protected
                } else {
                    match self.remove(connection, terminal_id) {
                        Some(rec) => KillOutcome::Removed(rec),
                        None => KillOutcome::Absent,
                    }
                }
            },
        }
    }

    /// Natural exit of the process `pid` under `key`: removes the record only
    /// when it still holds that pid, reporting whether an exit is emitted.
    pub fn take_matching(&mut self, connection: ConnectionId, terminal_id: &str, pid: u32) -> (b:
        bool)
        requires
            old(self).wf(),
        ensures
            final(self).wf(),
            b == (old(self).session((connection, terminal_id@)) matches Some((p, _)) && p == pid),
            b ==> final(self).session((connection, terminal_id@)) is None,
            !b ==> final(self).records() == old(self).records(),
            forall|k: SessionKey|
                k != (connection, terminal_id@) ==> #[trigger] final(self).session(k) == old(
                    self,
                ).session(k),
    {
        match self.get(connection, terminal_id) {
            Some((p, _)) => if p == pid {
                let _ = self.remove(connection, terminal_id);
                true
            } else {
                false
            },
            None => false,
        }
    }

    /// Removes every session the closing connection owns, returning them for
    /// cancellation; sessions of every other connection stay.
    pub fn disconnect(&mut self, connection: ConnectionId) -> (removed: Vec<SessionRecord>)
        requires
            old(self).wf(),
        ensures
            final(self).wf(),
            forall|k: SessionKey|
                #[trigger] final(self).session(k) == if k.0 == connection {
                    None
                } else {
                    old(self).session(k)
                },
            forall|i: int|
                0 <= i < removed@.len() ==> (#[trigger] removed@[i]).connection == connection,
            removed@.len() == owned_count(old(self).records(), connection),
            final(self).records().len() + removed@.len() == old(self).records().len(),
    {
        let ghost all = self.records@;
        let n = self.records.len();
        let mut kept: Vec<SessionRecord> = Vec::new();
        let mut removed: Vec<SessionRecord> = Vec::new();
        let mut rest: Vec<SessionRecord> = Vec::new();
        std::mem::swap(&mut rest, &mut self.records);
        let mut i: usize = 0;
        while rest.len() > 0
            invariant
                unique_keys(all),
                all.len() == n,
                i + rest@.len() == all.len(),
                rest@ == all.subrange(i as int, all.len() as int),
                unique_keys(kept@),
                forall|k: SessionKey|
                    #[trigger] lookup(kept@, k) == if k.0 == connection {
                        None
                    } else {
                        lookup(all.subrange(0, i as int), k)
                    },
                forall|m: int|
                    0 <= m < removed@.len() ==> (#[trigger] removed@[m]).connection == connection,
                removed@.len() == owned_count(all.subrange(0, i as int), connection),
                kept@.len() + removed@.len() == i,
            decreases rest@.len(),
        {
            let rec = rest.remove(0);
            let ghost pre = all.subrange(0, i as int);
            let ghost post = all.subrange(0, i + 1);
            assert(post =~= pre.push(rec));
            assert(post.drop_last() =~= pre);
            proof {
                lemma_unique_prefix(all, i + 1);
            }
            assert(rest@ =~= all.subrange(i + 1, all.len() as int));
            if rec.connection == connection {
                assert forall|k: SessionKey| k.0 != connection implies lookup(post, k) == lookup(
                    pre,
                    k,
                ) by {
                    lemma_lookup_push(pre, rec, k);
                }
                removed.push(rec);
            } else {
                let ghost old_kept = kept@;
                kept.push(rec);
                assert(kept@.drop_last() =~= old_kept);
                assert(lookup(old_kept, key_of(rec)) is None);
                assert forall|k: SessionKey|
                    #[trigger] lookup(kept@, k) == if k.0 == connection {
                        None
                    } else {
                        lookup(post, k)
                    } by {
                    lemma_lookup_push(pre, rec, k);
                    lemma_lookup_push(old_kept, rec, k);
                }
            }
            i = i + 1;
        }
        assert(all.subrange(0, i as int) =~= all);
        self.records = kept;
        removed
    }
}

/// Text of one output chunk: valid UTF-8 as it is, anything else with
/// replacement characters.
pub fn decode_chunk(bytes: &[u8]) -> (r: String)
    ensures
        r@ == crate::memory::utf8_lossy(bytes@),
        vstd::utf8::valid_utf8(bytes@) ==> r@ == vstd::utf8::decode_utf8(bytes@),
{
    crate::memory::lossy_text(bytes)
}

} // verus!
