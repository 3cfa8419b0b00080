//! Settings command group: scope keys, the scoped cwd state consumed by
//! subsequent turns, reflection settings resolution and write scopes, and
//! experiment resolution.

use crate::errors::ProtocolErrorEnvelope;
use crate::teleport::RuntimeScope;
use crate::text::{chars_of, copy_string, same_text, string_from, trim_chars, trimmed};
use crate::text_map::TextMap;
use vstd::prelude::*;

verus! {

/// Maximum persisted cwd-map entries before further changes reject.
pub const CWD_MAP_ENTRIES_MAX: usize = 4_096;
/// Default reflection step count.
pub const REFLECTION_STEP_COUNT_DEFAULT: u64 = 25;

// ── Scope keys ──────────────────────────────────────────────────────────────

/// Listener scope key of one cwd-map entry: `conversation:<id>`, or
/// `agent:<agent>::conversation:default` for the default conversation
/// (an absent conversation is the default one; an absent agent is
/// `__unknown__`).
pub open spec fn scope_key_spec(agent_id: Option<Seq<char>>, conversation_id: Option<Seq<char>>) -> Seq<
    char,
> {
    let conversation = match conversation_id {
        Some(c) => c,
        None => "default"@,
    };
    if conversation == "default"@ {
        "agent:"@ + (match agent_id {
            Some(a) => a,
            None => "__unknown__"@,
        }) + "::conversation:default"@
    } else {
        "conversation:"@ + conversation
    }
}

/// View of an optional text.
pub open spec fn opt_view(o: Option<&str>) -> Option<Seq<char>> {
    match o {
        Some(s) => Some(s@),
        None => None,
    }
}

/// Formats the listener scope key for one cwd-map entry.
pub fn scope_key(agent_id: Option<&str>, conversation_id: Option<&str>) -> (r: String)
    ensures
        r@ == scope_key_spec(opt_view(agent_id), opt_view(conversation_id)),
{
    let conversation = match conversation_id {
        Some(c) => c,
        None => "default",
    };
    proof {
        reveal_strlit("default");
    }
    if same_text(conversation, "default") {
        let mut r = copy_string("agent:");
        match agent_id {
            Some(a) => r.append(a),
            None => r.append("__unknown__"),
        }
        r.append("::conversation:default");
        r
    } else {
        let mut r = copy_string("conversation:");
        r.append(conversation);
        r
    }
}

// ── Cwd state ───────────────────────────────────────────────────────────────

/// Classification of one requested working directory.
#[derive(Debug, PartialEq, Eq)]
pub enum CwdResolution {
    /// The requested directory exists and is used.
    Requested(String),
    /// The requested directory is missing: the boot directory is used and the
    /// original path is retained for a reminder.
    DeletedFallback { original: String, fallback: String },
}

/// Whether a resolution is `Requested(path)`, or a fallback from `path` to
/// `boot`, according to `is_dir`.
pub open spec fn classified(r: CwdResolution, path: Seq<char>, boot: Seq<char>, is_dir: bool) -> bool {
    if is_dir {
        r matches CwdResolution::Requested(p) && p@ == path
    } else {
        r matches CwdResolution::DeletedFallback { original, fallback } && original@ == path
            && fallback@ == boot
    }
}

/// Classifies one requested cwd: an existing directory serves as requested,
/// anything else falls back to the boot directory. `is_dir` reports whether
/// `requested` names an existing directory.
pub fn classify_cwd(requested: &str, boot: &str, is_dir: bool) -> (r: CwdResolution)
    ensures
        classified(r, requested@, boot@, is_dir),
{
    if is_dir {
        CwdResolution::Requested(copy_string(requested))
    } else {
        CwdResolution::DeletedFallback {
            original: copy_string(requested),
            fallback: copy_string(boot),
        }
    }
}

/// One scoped cwd change awaiting application to subsequent turns.
#[derive(Debug)]
pub struct CwdChange {
    pub agent_id: Option<String>,
    pub conversation_id: String,
    pub cwd: String,
}

/// Key of one change's scope.
pub open spec fn change_key(change: CwdChange) -> Seq<char> {
    scope_key_spec(
        match change.agent_id {
            Some(a) => Some(a@),
            None => None,
        },
        Some(change.conversation_id@),
    )
}

/// Rejection when the cwd map is full.
pub open spec fn cwd_map_limit_text() -> Seq<char> {
    "cwd map limit reached"@
}

/// Scoped cwd overrides, pending missing-directory reminders, and the boot
/// working directory.
pub struct CwdState {
    cwd_map: TextMap,
    reminders: TextMap,
    boot: String,
}

impl CwdState {
    /// Override of one scope key.
    pub closed spec fn cwd(&self, key: Seq<char>) -> Option<Seq<char>> {
        self.cwd_map.get_spec(key)
    }

    /// Pending reminder of one scope key.
    pub closed spec fn reminder(&self, key: Seq<char>) -> Option<Seq<char>> {
        self.reminders.get_spec(key)
    }

    /// Number of overrides.
    pub closed spec fn cwd_count(&self) -> nat {
        self.cwd_map.size()
    }

    /// Boot working directory.
    pub closed spec fn boot_dir(&self) -> Seq<char> {
        self.boot@
    }

    /// Internal consistency.
    pub closed spec fn wf(&self) -> bool {
        self.cwd_map.wf() && self.reminders.wf()
    }

    /// Fresh state over the boot working directory.
    pub fn new(boot: &str) -> (s: Self)
        ensures
            s.wf(),
            s.boot_dir() == boot@,
            s.cwd_count() == 0,
            forall|k: Seq<char>| #[trigger] s.cwd(k) is None,
            forall|k: Seq<char>| #[trigger] s.reminder(k) is None,
    {
        CwdState { cwd_map: TextMap::new(), reminders: TextMap::new(), boot: copy_string(boot) }
    }

    /// Boot working directory.
    pub fn boot_directory(&self) -> (r: String)
        ensures
            r@ == self.boot_dir(),
    {
        copy_string(self.boot.as_str())
    }

    /// Overrides as `(scope key, cwd)` pairs.
    pub fn cwd_pairs(&self) -> (r: Vec<(String, String)>)
        requires
            self.wf(),
        ensures
            r@.len() == self.cwd_count(),
            forall|i: int| 0 <= i < r@.len() ==> self.cwd((#[trigger] r@[i]).0@) == Some(r@[i].1@),
            forall|i: int, j: int| 0 <= i < j < r@.len() ==> (#[trigger] r@[i]).0@ != (#[trigger] r@[j]).0@,
    {
        let r = self.cwd_map.pairs();
        proof {
            assert forall|i: int, j: int| 0 <= i < j < r@.len() implies (#[trigger] r@[i]).0@
                != (#[trigger] r@[j]).0@ by {
                crate::text_map::lemma_distinct_keys(self.cwd_map.entries(), i, j);
            }
            assert forall|i: int| 0 <= i < r@.len() implies self.cwd((#[trigger] r@[i]).0@) == Some(
                r@[i].1@,
            ) by {
                crate::text_map::lemma_lookup_entry(self.cwd_map.entries(), i);
            }
        }
        r
    }

    /// Applies one scoped cwd change to subsequent turns: the requested path
    /// becomes the scope's override; a missing directory (`is_dir` false)
    /// classifies as a fallback and records the original path as a one-time
    /// reminder, a usable one clears any reminder. A full map refuses a new
    /// scope and changes nothing.
    pub fn apply_cwd_change(&mut self, change: &CwdChange, is_dir: bool) -> (r: Result<
        CwdResolution,
        String,
    >)
        requires
            old(self).wf(),
        ensures
            final(self).wf(),
            final(self).boot_dir() == old(self).boot_dir(),
            old(self).cwd_count() >= CWD_MAP_ENTRIES_MAX && old(self).cwd(change_key(*change)) is None
                ==> (r matches Err(e) && e@ == cwd_map_limit_text() && *final(self) == *old(self)),
            !(old(self).cwd_count() >= CWD_MAP_ENTRIES_MAX && old(self).cwd(change_key(*change))
                is None) ==> {
                &&& r matches Ok(res) && classified(res, change.cwd@, old(self).boot_dir(), is_dir)
                &&& final(self).cwd(change_key(*change)) == Some(change.cwd@)
                &&& final(self).reminder(change_key(*change)) == if is_dir {
                    None
                } else {
                    Some(change.cwd@)
                }
                &&& forall|k: Seq<char>|
                    k != change_key(*change) ==> #[trigger] final(self).cwd(k) == old(self).cwd(k)
                        && final(self).reminder(k) == old(self).reminder(k)
            },
    {
        let agent = match &change.agent_id {
            Some(a) => Some(a.as_str()),
            None => None,
        };
        let key = scope_key(agent, Some(change.conversation_id.as_str()));
        let resolution = classify_cwd(change.cwd.as_str(), self.boot.as_str(), is_dir);
        if self.cwd_map.len() >= CWD_MAP_ENTRIES_MAX && !self.cwd_map.contains_key(key.as_str()) {
            return Err(copy_string("cwd map limit reached"));
        }
        self.cwd_map.insert(key.as_str(), change.cwd.as_str());
        if is_dir {
            let _ = self.reminders.remove(key.as_str());
        } else {
            self.reminders.insert(key.as_str(), change.cwd.as_str());
        }
        Ok(resolution)
    }

    /// Directory a subsequent turn in the scope requests: the override, else
    /// the boot directory.
    pub open spec fn requested_spec(&self, agent_id: Option<Seq<char>>, conversation_id: Seq<char>) -> Seq<
        char,
    > {
        match self.cwd(scope_key_spec(agent_id, Some(conversation_id))) {
            Some(c) => c,
            None => self.boot_dir(),
        }
    }

    /// Executable [`Self::requested_spec`]; also the working directory of
    /// project-scoped reflection reads and writes.
    pub fn requested_cwd(&self, agent_id: Option<&str>, conversation_id: &str) -> (r: String)
        ensures
            r@ == self.requested_spec(opt_view(agent_id), conversation_id@),
    {
        let key = scope_key(agent_id, Some(conversation_id));
        match self.cwd_map.get(key.as_str()) {
            Some(c) => c,
            None => copy_string(self.boot.as_str()),
        }
    }

    /// Cwd classification a subsequent turn receives; `is_dir` reports
    /// whether the requested directory exists.
    pub fn cwd_for_next_turn(&self, agent_id: Option<&str>, conversation_id: &str, is_dir: bool) -> (r:
        CwdResolution)
        ensures
            classified(
                r,
                self.requested_spec(opt_view(agent_id), conversation_id@),
                self.boot_dir(),
                is_dir,
            ),
    {
        let requested = self.requested_cwd(agent_id, conversation_id);
        classify_cwd(requested.as_str(), self.boot.as_str(), is_dir)
    }

    /// Recorded override of one scope.
    pub fn cwd_override(&self, agent_id: Option<&str>, conversation_id: &str) -> (r: Option<String>)
        ensures
            match r {
                Some(c) => self.cwd(scope_key_spec(opt_view(agent_id), Some(conversation_id@)))
                    == Some(c@),
                None => self.cwd(scope_key_spec(opt_view(agent_id), Some(conversation_id@))) is None,
            },
    {
        let key = scope_key(agent_id, Some(conversation_id));
        self.cwd_map.get(key.as_str())
    }

    /// Claims a recorded missing-directory reminder once: the first claim
    /// returns the original path and clears it.
    pub fn claim_missing_cwd_reminder(&mut self, agent_id: Option<&str>, conversation_id: &str) -> (r:
        Option<String>)
        requires
            old(self).wf(),
        ensures
            final(self).wf(),
            match r {
                Some(p) => old(self).reminder(scope_key_spec(opt_view(agent_id), Some(conversation_id@)))
                    == Some(p@),
                None => old(self).reminder(scope_key_spec(opt_view(agent_id), Some(conversation_id@)))
                    is None,
            },
            final(self).reminder(scope_key_spec(opt_view(agent_id), Some(conversation_id@))) is None,
            forall|k: Seq<char>| #[trigger] final(self).cwd(k) == old(self).cwd(k),
            forall|k: Seq<char>|
                k != scope_key_spec(opt_view(agent_id), Some(conversation_id@))
                    ==> #[trigger] final(self).reminder(k) == old(self).reminder(k),
            final(self).boot_dir() == old(self).boot_dir(),
            final(self).cwd_count() == old(self).cwd_count(),
    {
        let key = scope_key(agent_id, Some(conversation_id));
        self.reminders.remove(key.as_str())
    }
}

/// An applied cwd change is what the next turn of that scope requests.
pub proof fn law_change_applies_to_next_turn(state: CwdState, change: CwdChange)
    requires
        state.cwd(change_key(change)) == Some(change.cwd@),
    ensures
        state.requested_spec(
            match change.agent_id {
                Some(a) => Some(a@),
                None => None,
            },
            change.conversation_id@,
        ) == change.cwd@,
{
}

// ── Reflection settings ─────────────────────────────────────────────────────

/// When reflections fire.
#[derive(Clone, Copy, Debug, PartialEq, Eq)]
pub enum ReflectionTriggerMode {
    Off,
    StepCount,
    CompactionEvent,
}

/// How reflection merges run.
#[derive(Clone, Copy, Debug, PartialEq, Eq)]
pub enum ReflectionMergeMode {
    Auto,
    Explicit,
}

/// Persistence scope requested for one reflection write.
#[derive(Clone, Copy, Debug, PartialEq, Eq)]
pub enum ReflectionScope {
    LocalProject,
    Global,
    Both,
}

/// Reflection body of one set command.
#[derive(Debug)]
pub struct ReflectionSettingsBody {
    pub trigger: ReflectionTriggerMode,
    pub step_count: u64,
    pub merge: Option<ReflectionMergeMode>,
    pub merge_instructions: Option<String>,
}

/// `get_cwd_map` payload.
#[derive(Debug)]
pub struct GetCwdMapCommand {
    pub request_id: String,
}

/// `get_reflection_settings` payload.
#[derive(Debug)]
pub struct GetReflectionSettingsCommand {
    pub request_id: String,
    pub runtime: RuntimeScope,
}

/// `set_reflection_settings` payload.
#[derive(Debug)]
pub struct SetReflectionSettingsCommand {
    pub request_id: String,
    pub runtime: RuntimeScope,
    pub settings: ReflectionSettingsBody,
    pub scope: Option<ReflectionScope>,
}

/// `get_experiments` payload.
#[derive(Debug)]
pub struct GetExperimentsCommand {
    pub request_id: String,
}

/// `set_experiment` payload.
#[derive(Debug)]
pub struct SetExperimentCommand {
    pub request_id: String,
    pub experiment_id: ExperimentId,
    pub enabled: bool,
}

/// The five settings group commands.
#[derive(Debug)]
pub enum SettingsCommand {
    GetCwdMap(GetCwdMapCommand),
    GetReflectionSettings(GetReflectionSettingsCommand),
    SetReflectionSettings(SetReflectionSettingsCommand),
    GetExperiments(GetExperimentsCommand),
    SetExperiment(SetExperimentCommand),
}

/// One effective reflection snapshot.
#[derive(Debug)]
pub struct ReflectionSettingsSnapshot {
    pub agent_id: String,
    pub trigger: ReflectionTriggerMode,
    pub step_count: u64,
    pub merge: ReflectionMergeMode,
    pub merge_instructions: String,
}

/// One persisted per-agent reflection entry, each field as read from a
/// scoped settings document (`None` where absent or unreadable).
#[derive(Debug)]
pub struct PersistedReflection {
    pub trigger: Option<ReflectionTriggerMode>,
    pub step_count: Option<u64>,
    pub merge: Option<ReflectionMergeMode>,
    pub merge_instructions: Option<String>,
}

/// Value of one reflection snapshot.
pub struct Reflection {
    pub agent_id: Seq<char>,
    pub trigger: ReflectionTriggerMode,
    pub step_count: u64,
    pub merge: ReflectionMergeMode,
    pub merge_instructions: Seq<char>,
}

/// Value of a snapshot.
pub open spec fn reflection_view(s: ReflectionSettingsSnapshot) -> Reflection {
    Reflection {
        agent_id: s.agent_id@,
        trigger: s.trigger,
        step_count: s.step_count,
        merge: s.merge,
        merge_instructions: s.merge_instructions@,
    }
}

/// Default reflection settings of one agent.
pub open spec fn default_reflection_spec(agent_id: Seq<char>) -> Reflection {
    Reflection {
        agent_id,
        trigger: ReflectionTriggerMode::CompactionEvent,
        step_count: REFLECTION_STEP_COUNT_DEFAULT,
        merge: ReflectionMergeMode::Auto,
        merge_instructions: Seq::empty(),
    }
}

/// Default reflection settings of one agent.
pub fn default_reflection(agent_id: &str) -> (r: ReflectionSettingsSnapshot)
    ensures
        reflection_view(r) == default_reflection_spec(agent_id@),
{
    ReflectionSettingsSnapshot {
        agent_id: copy_string(agent_id),
        trigger: ReflectionTriggerMode::CompactionEvent,
        step_count: REFLECTION_STEP_COUNT_DEFAULT,
        merge: ReflectionMergeMode::Auto,
        merge_instructions: String::new(),
    }
}

/// Overlays one persisted entry: present fields replace the resolution, a
/// zero step count is ignored.
pub open spec fn overlay(r: Reflection, e: PersistedReflection) -> Reflection {
    Reflection {
        agent_id: r.agent_id,
        trigger: match e.trigger {
            Some(t) => t,
            None => r.trigger,
        },
        step_count: match e.step_count {
            Some(c) => if c > 0 { c } else { r.step_count },
            None => r.step_count,
        },
        merge: match e.merge {
            Some(m) => m,
            None => r.merge,
        },
        merge_instructions: match e.merge_instructions {
            Some(i) => i@,
            None => r.merge_instructions,
        },
    }
}

/// Overlays one scoped document's persisted agent entry onto the resolution.
pub fn apply_persisted_reflection(resolved: &mut ReflectionSettingsSnapshot, entry: &PersistedReflection)
    ensures
        reflection_view(*final(resolved)) == overlay(reflection_view(*old(resolved)), *entry),
{
    if let Some(trigger) = entry.trigger {
        resolved.trigger = trigger;
    }
    if let Some(step_count) = entry.step_count {
        if step_count > 0 {
            resolved.step_count = step_count;
        }
    }
    if let Some(merge) = entry.merge {
        resolved.merge = merge;
    }
    if let Some(instructions) = &entry.merge_instructions {
        resolved.merge_instructions = copy_string(instructions.as_str());
    }
}

/// Effective settings of one agent: defaults, then the global entry, then
/// the project-local entry.
pub open spec fn effective_reflection(
    agent_id: Seq<char>,
    global: Option<PersistedReflection>,
    local: Option<PersistedReflection>,
) -> Reflection {
    let g = match global {
        Some(e) => overlay(default_reflection_spec(agent_id), e),
        None => default_reflection_spec(agent_id),
    };
    match local {
        Some(e) => overlay(g, e),
        None => g,
    }
}

/// Resolves the effective reflection settings of one agent.
pub fn resolve_reflection(
    agent_id: &str,
    global: &Option<PersistedReflection>,
    local: &Option<PersistedReflection>,
) -> (r: ReflectionSettingsSnapshot)
    ensures
        reflection_view(r) == effective_reflection(agent_id@, *global, *local),
{
    let mut r = default_reflection(agent_id);
    if let Some(e) = global {
        apply_persisted_reflection(&mut r, e);
    }
    if let Some(e) = local {
        apply_persisted_reflection(&mut r, e);
    }
    r
}

/// Whether a persisted entry records every field of `r`.
pub open spec fn persisted_as(e: PersistedReflection, r: Reflection) -> bool {
    &&& e.trigger == Some(r.trigger)
    &&& e.step_count == Some(r.step_count)
    &&& e.merge == Some(r.merge)
    &&& e.merge_instructions matches Some(i) && i@ == r.merge_instructions
}

/// A read serves back what a write persisted: once an entry recording the
/// written settings (with a positive step count) sits in the project-local
/// document, the effective settings are exactly those, whatever the global
/// document holds; with no local entry, the same holds of the global one.
pub proof fn law_read_gives_back_write(
    r: Reflection,
    e: PersistedReflection,
    global: Option<PersistedReflection>,
)
    requires
        persisted_as(e, r),
        r.step_count > 0,
    ensures
        effective_reflection(r.agent_id, global, Some(e)) == r,
        effective_reflection(r.agent_id, Some(e), None) == r,
{
}

/// The written settings of a set command: the effective settings with the
/// body's trigger and step count, its merge mode when given, and its trimmed
/// merge instructions when given.
pub open spec fn written_reflection(effective: Reflection, body: ReflectionSettingsBody) -> Reflection {
    Reflection {
        agent_id: effective.agent_id,
        trigger: body.trigger,
        step_count: body.step_count,
        merge: match body.merge {
            Some(m) => m,
            None => effective.merge,
        },
        merge_instructions: match body.merge_instructions {
            Some(i) => trimmed(i@),
            None => effective.merge_instructions,
        },
    }
}

/// Applies a set command's body to the effective settings.
pub fn apply_reflection_body(resolved: &mut ReflectionSettingsSnapshot, body: &ReflectionSettingsBody)
    ensures
        reflection_view(*final(resolved)) == written_reflection(reflection_view(*old(resolved)), *body),
{
    if let Some(merge) = body.merge {
        resolved.merge = merge;
    }
    if let Some(instructions) = &body.merge_instructions {
        let t = trim_chars(&chars_of(instructions.as_str()));
        resolved.merge_instructions = string_from(&t);
    }
    resolved.trigger = body.trigger;
    resolved.step_count = body.step_count;
}

/// Scope a set command writes: the requested one, both when absent.
pub open spec fn normalized_scope(scope: Option<ReflectionScope>) -> ReflectionScope {
    match scope {
        Some(s) => s,
        None => ReflectionScope::Both,
    }
}

/// Whether a scope writes the workspace-local settings document.
pub open spec fn writes_local(scope: ReflectionScope) -> bool {
    scope == ReflectionScope::LocalProject || scope == ReflectionScope::Both
}

/// Whether a scope writes the global settings document.
pub open spec fn writes_global(scope: ReflectionScope) -> bool {
    scope == ReflectionScope::Global || scope == ReflectionScope::Both
}

/// Executable [`normalized_scope`].
pub fn normalize_scope(scope: Option<ReflectionScope>) -> (r: ReflectionScope)
    ensures
        r == normalized_scope(scope),
{
    match scope {
        Some(s) => s,
        None => ReflectionScope::Both,
    }
}

/// Executable [`writes_local`].
pub fn scope_writes_local(scope: ReflectionScope) -> (b: bool)
    ensures
        b == writes_local(scope),
{
    match scope {
        ReflectionScope::LocalProject | ReflectionScope::Both => true,
        ReflectionScope::Global => false,
    }
}

/// Executable [`writes_global`].
pub fn scope_writes_global(scope: ReflectionScope) -> (b: bool)
    ensures
        b == writes_global(scope),
{
    match scope {
        ReflectionScope::Global | ReflectionScope::Both => true,
        ReflectionScope::LocalProject => false,
    }
}

/// Catch-all detail of failed global writes.
pub open spec fn global_failure() -> Seq<char> {
    "Failed to update global settings"@
}

/// Catch-all detail of failed project-local writes.
pub open spec fn local_failure() -> Seq<char> {
    "Failed to update project local settings"@
}

/// Outcome of one scoped document write: `Err(Some(detail))` carries a
/// specific detail, `Err(None)` falls back to the scope's catch-all.
pub type WriteOutcome = Result<(), Option<String>>;

/// The failure detail of one write, or `None` on success.
pub open spec fn write_failure_text(outcome: WriteOutcome, catch_all: Seq<char>) -> Option<Seq<char>> {
    match outcome {
        Ok(()) => None,
        Err(Some(d)) => Some(d@),
        Err(None) => Some(catch_all),
    }
}

/// Whether the global write runs after the local one: only when the scope
/// writes globally and no local write failed.
pub fn should_write_global(scope: ReflectionScope, local: &Option<WriteOutcome>) -> (b: bool)
    ensures
        b == (writes_global(scope) && !(local matches Some(Err(_)))),
{
    scope_writes_global(scope) && match local {
        Some(Err(_)) => false,
        _ => true,
    }
}

/// Combined result of the scoped writes: the local failure first, else the
/// global failure, else success. `None` marks a write not attempted.
pub fn reflection_write_result(local: Option<WriteOutcome>, global: Option<WriteOutcome>) -> (r:
    Result<(), String>)
    ensures
        match r {
            Ok(()) => !(local matches Some(Err(_))) && !(global matches Some(Err(_))),
            Err(e) => match local {
                Some(l) if l is Err => Some(e@) == write_failure_text(l, local_failure()),
                _ => global is Some && Some(e@) == write_failure_text(global->0, global_failure()),
            },
        },
{
    match local {
        Some(Err(detail)) => {
            return Err(match detail {
                Some(d) => d,
                None => copy_string("Failed to update project local settings"),
            });
        },
        _ => {},
    }
    match global {
        Some(Err(detail)) => Err(match detail {
            Some(d) => d,
            None => copy_string("Failed to update global settings"),
        }),
        _ => Ok(()),
    }
}

/// Rejects a set command whose step count is zero, before any write.
pub fn validate_reflection_body(command: &SetReflectionSettingsCommand) -> (r: Result<
    (),
    ProtocolErrorEnvelope,
>)
    ensures
        r is Ok <==> command.settings.step_count > 0,
        r matches Err(e) ==> (e.code@ == "settings_command_invalid"@ && e.message@
            == "invalid settings command"@ && crate::memory::ov(e.request_id) == Some(command.request_id@)),
{
    if command.settings.step_count == 0 {
        return Err(
            ProtocolErrorEnvelope::new(
                "settings_command_invalid",
                "invalid settings command",
                Some(copy_string(command.request_id.as_str())),
            ),
        );
    }
    Ok(())
}

// ── Experiments ─────────────────────────────────────────────────────────────

/// Known experiment identifiers.
#[derive(Clone, Copy, Debug, PartialEq, Eq)]
pub enum ExperimentId {
    Artifacts,
    ConversationTitles,
    DesktopConversationBootstrap,
    Diffs,
    ReflectionArena,
    TuiCron,
}

/// Origin of one experiment's resolved state.
#[derive(Clone, Copy, Debug, PartialEq, Eq)]
pub enum ExperimentSource {
    Override,
    Env,
    Default,
}

/// One experiment definition plus its resolved state.
#[derive(Debug)]
pub struct ExperimentSnapshot {
    pub id: ExperimentId,
    pub label: String,
    pub description: String,
    pub env_var: Option<String>,
    pub enabled: bool,
    pub source: ExperimentSource,
    pub override_value: Option<bool>,
}

/// Definition order of the known experiments.
pub open spec fn experiment_order() -> Seq<ExperimentId> {
    seq![
        ExperimentId::Artifacts,
        ExperimentId::ConversationTitles,
        ExperimentId::DesktopConversationBootstrap,
        ExperimentId::Diffs,
        ExperimentId::ReflectionArena,
        ExperimentId::TuiCron,
    ]
}

/// Wire discriminant of one experiment.
pub open spec fn discriminant_spec(id: ExperimentId) -> Seq<char> {
    match id {
        ExperimentId::Artifacts => "artifacts"@,
        ExperimentId::ConversationTitles => "conversation_titles"@,
        ExperimentId::DesktopConversationBootstrap => "desktop_conversation_bootstrap"@,
        ExperimentId::Diffs => "diffs"@,
        ExperimentId::ReflectionArena => "reflection_arena"@,
        ExperimentId::TuiCron => "tui_cron"@,
    }
}

/// Executable [`discriminant_spec`].
pub fn experiment_discriminant(id: ExperimentId) -> (r: String)
    ensures
        r@ == discriminant_spec(id),
{
    match id {
        ExperimentId::Artifacts => copy_string("artifacts"),
        ExperimentId::ConversationTitles => copy_string("conversation_titles"),
        ExperimentId::DesktopConversationBootstrap => copy_string("desktop_conversation_bootstrap"),
        ExperimentId::Diffs => copy_string("diffs"),
        ExperimentId::ReflectionArena => copy_string("reflection_arena"),
        ExperimentId::TuiCron => copy_string("tui_cron"),
    }
}

/// Environment toggle of one experiment, if it has one.
pub open spec fn env_var_spec(id: ExperimentId) -> Option<Seq<char>> {
    match id {
        ExperimentId::Artifacts => Some("LETTA_ARTIFACTS"@),
        ExperimentId::ReflectionArena => Some("LETTA_REFLECTION_ARENA"@),
        _ => None,
    }
}

/// Executable [`env_var_spec`].
pub fn experiment_env_var(id: ExperimentId) -> (r: Option<String>)
    ensures
        match r {
            Some(v) => env_var_spec(id) == Some(v@),
            None => env_var_spec(id) is None,
        },
{
    match id {
        ExperimentId::Artifacts => Some(copy_string("LETTA_ARTIFACTS")),
        ExperimentId::ReflectionArena => Some(copy_string("LETTA_REFLECTION_ARENA")),
        _ => None,
    }
}

/// Display label of one experiment.
pub open spec fn label_spec(id: ExperimentId) -> Seq<char> {
    match id {
        ExperimentId::Artifacts => "artifacts"@,
        ExperimentId::ConversationTitles => "conversation titles"@,
        ExperimentId::DesktopConversationBootstrap => "conversation bootstrap"@,
        ExperimentId::Diffs => "diffs"@,
        ExperimentId::ReflectionArena => "reflection arena"@,
        ExperimentId::TuiCron => "TUI cron scheduler"@,
    }
}

/// Executable [`label_spec`].
fn experiment_label(id: ExperimentId) -> (r: String)
    ensures
        r@ == label_spec(id),
{
    match id {
        ExperimentId::Artifacts => copy_string("artifacts"),
        ExperimentId::ConversationTitles => copy_string("conversation titles"),
        ExperimentId::DesktopConversationBootstrap => copy_string("conversation bootstrap"),
        ExperimentId::Diffs => copy_string("diffs"),
        ExperimentId::ReflectionArena => copy_string("reflection arena"),
        ExperimentId::TuiCron => copy_string("TUI cron scheduler"),
    }
}

/// Description of one experiment.
pub open spec fn description_spec(id: ExperimentId) -> Seq<char> {
    match id {
        ExperimentId::Artifacts => "Expose Letta Code Desktop artifact creation tools and artifact UI surfaces."@,
        ExperimentId::ConversationTitles => "Generate AI conversation titles automatically when possible."@,
        ExperimentId::DesktopConversationBootstrap => "Inject lightweight prior-conversation context into the first turn of brand-new Letta Code conversations."@,
        ExperimentId::Diffs => "Open browser-based worktree diff previews powered by Diffs from Pierre."@,
        ExperimentId::ReflectionArena => "Run blind A/B comparisons between reflection models on the same transcript sample."@,
        ExperimentId::TuiCron => "Fire scheduled tasks from the CLI when the desktop app isn't running."@,
    }
}

/// Executable [`description_spec`].
fn experiment_description(id: ExperimentId) -> (r: String)
    ensures
        r@ == description_spec(id),
{
    match id {
        ExperimentId::Artifacts => copy_string(
            "Expose Letta Code Desktop artifact creation tools and artifact UI surfaces.",
        ),
        ExperimentId::ConversationTitles => copy_string(
            "Generate AI conversation titles automatically when possible.",
        ),
        ExperimentId::DesktopConversationBootstrap => copy_string(
            "Inject lightweight prior-conversation context into the first turn of brand-new Letta Code conversations.",
        ),
        ExperimentId::Diffs => copy_string(
            "Open browser-based worktree diff previews powered by Diffs from Pierre.",
        ),
        ExperimentId::ReflectionArena => copy_string(
            "Run blind A/B comparisons between reflection models on the same transcript sample.",
        ),
        ExperimentId::TuiCron => copy_string(
            "Fire scheduled tasks from the CLI when the desktop app isn't running.",
        ),
    }
}

/// Whether an environment value turns a toggle on: `1`, `true` or `yes`
/// after trimming, ASCII case-insensitively.
pub open spec fn env_value_enabled(value: Seq<char>) -> bool {
    let v = crate::memory_paths::ascii_lower_all(trimmed(value));
    v == "1"@ || v == "true"@ || v == "yes"@
}

/// Executable [`env_value_enabled`].
pub fn env_toggle_enabled(value: &str) -> (b: bool)
    ensures
        b == env_value_enabled(value@),
{
    let t = trim_chars(&chars_of(value));
    let v = crate::memory_paths::lower_all(&t);
    crate::text::same_chars(&v, &chars_of("1")) || crate::text::same_chars(&v, &chars_of("true"))
        || crate::text::same_chars(&v, &chars_of("yes"))
}

/// Resolution of one experiment: a persisted override wins, else an enabled
/// environment toggle, else the default (off).
pub open spec fn experiment_state(override_value: Option<bool>, env_enabled: bool) -> (bool, ExperimentSource) {
    match override_value {
        Some(v) => (v, ExperimentSource::Override),
        None => if env_enabled {
            (true, ExperimentSource::Env)
        } else {
            (false, ExperimentSource::Default)
        },
    }
}

/// Resolves every known experiment in definition order. `overrides[i]` and
/// `env_enabled[i]` belong to the `i`-th definition; an experiment without
/// an environment toggle is never enabled by the environment.
pub fn experiment_snapshots(overrides: &Vec<Option<bool>>, env_enabled: &Vec<bool>) -> (r: Vec<
    ExperimentSnapshot,
>)
    requires
        overrides@.len() == 6,
        env_enabled@.len() == 6,
    ensures
        r@.len() == 6,
        forall|i: int|
            0 <= i < 6 ==> {
                let s = #[trigger] r@[i];
                let id = experiment_order()[i];
                let env = env_enabled@[i] && env_var_spec(id) is Some;
                &&& s.id == id
                &&& s.label@ == label_spec(id)
                &&& s.description@ == description_spec(id)
                &&& (s.enabled, s.source) == experiment_state(overrides@[i], env)
                &&& s.override_value == overrides@[i]
                &&& match s.env_var {
                    Some(v) => env_var_spec(id) == Some(v@),
                    None => env_var_spec(id) is None,
                }
            },
        overrides@[4] is None && env_enabled@[4] ==> (r@[4].id == ExperimentId::ReflectionArena
            && r@[4].enabled && r@[4].source == ExperimentSource::Env && (r@[4].env_var matches Some(v)
            && v@ == "LETTA_REFLECTION_ARENA"@)),
        overrides@[0] is None && env_enabled@[0] ==> (r@[0].id == ExperimentId::Artifacts
            && r@[0].enabled && r@[0].source == ExperimentSource::Env && (r@[0].env_var matches Some(v)
            && v@ == "LETTA_ARTIFACTS"@)),
{
    proof {
        law_experiment_environment();
    }
    let ids: Vec<ExperimentId> = vec![
        ExperimentId::Artifacts,
        ExperimentId::ConversationTitles,
        ExperimentId::DesktopConversationBootstrap,
        ExperimentId::Diffs,
        ExperimentId::ReflectionArena,
        ExperimentId::TuiCron,
    ];
    assert(ids@ =~= experiment_order());
    let mut r: Vec<ExperimentSnapshot> = Vec::new();
    let mut i: usize = 0;
    while i < 6
        invariant
            i <= 6,
            ids@ == experiment_order(),
            overrides@.len() == 6,
            env_enabled@.len() == 6,
            r@.len() == i,
            forall|k: int|
                0 <= k < i ==> {
                    let s = #[trigger] r@[k];
                    let id = experiment_order()[k];
                    let env = env_enabled@[k] && env_var_spec(id) is Some;
                    &&& s.id == id
                    &&& s.label@ == label_spec(id)
                    &&& s.description@ == description_spec(id)
                    &&& (s.enabled, s.source) == experiment_state(overrides@[k], env)
                    &&& s.override_value == overrides@[k]
                    &&& match s.env_var {
                        Some(v) => env_var_spec(id) == Some(v@),
                        None => env_var_spec(id) is None,
                    }
                },
        decreases 6 - i,
    {
        let id = ids[i];
        let env_var = experiment_env_var(id);
        let env = env_enabled[i] && env_var.is_some();
        let (enabled, source) = match overrides[i] {
            Some(v) => (v, ExperimentSource::Override),
            None => if env {
                (true, ExperimentSource::Env)
            } else {
                (false, ExperimentSource::Default)
            },
        };
        r.push(
            ExperimentSnapshot {
                id,
                label: experiment_label(id),
                description: experiment_description(id),
                env_var,
                enabled,
                source,
                override_value: overrides[i],
            },
        );
        i = i + 1;
    }
    assert(r@[4].id == experiment_order()[4]);
    assert(r@[0].id == experiment_order()[0]);
    r
}

/// Environment toggles of the experiments: reflection arena answers to
/// `LETTA_REFLECTION_ARENA` and artifacts to `LETTA_ARTIFACTS`, the others
/// to none. With no persisted override an enabled toggle turns its
/// experiment on, from the environment; an override wins whatever the
/// environment says; otherwise the experiment is off by default.
pub proof fn law_experiment_environment()
    ensures
        env_var_spec(ExperimentId::ReflectionArena) == Some(
            seq!['L', 'E', 'T', 'T', 'A', '_', 'R', 'E', 'F', 'L', 'E', 'C', 'T', 'I', 'O', 'N', '_', 'A', 'R', 'E', 'N', 'A'],
        ),
        env_var_spec(ExperimentId::Artifacts) == Some(
            seq!['L', 'E', 'T', 'T', 'A', '_', 'A', 'R', 'T', 'I', 'F', 'A', 'C', 'T', 'S'],
        ),
        env_var_spec(ExperimentId::ConversationTitles) is None,
        env_var_spec(ExperimentId::DesktopConversationBootstrap) is None,
        env_var_spec(ExperimentId::Diffs) is None,
        env_var_spec(ExperimentId::TuiCron) is None,
        experiment_order()[0] == ExperimentId::Artifacts,
        experiment_order()[4] == ExperimentId::ReflectionArena,
        experiment_state(None, true) == (true, ExperimentSource::Env),
        experiment_state(None, false) == (false, ExperimentSource::Default),
        forall|v: bool, env: bool| experiment_state(Some(v), env) == (v, ExperimentSource::Override),
{
    reveal_strlit("LETTA_REFLECTION_ARENA");
    reveal_strlit("LETTA_ARTIFACTS");
    assert("LETTA_REFLECTION_ARENA"@ =~= seq![
        'L', 'E', 'T', 'T', 'A', '_', 'R', 'E', 'F', 'L', 'E', 'C', 'T', 'I', 'O', 'N', '_', 'A', 'R', 'E', 'N', 'A',
    ]);
    assert("LETTA_ARTIFACTS"@ =~= seq!['L', 'E', 'T', 'T', 'A', '_', 'A', 'R', 'T', 'I', 'F', 'A', 'C', 'T', 'S']);
}

/// Position of one experiment in definition order.
pub fn experiment_index(id: ExperimentId) -> (i: usize)
    ensures
        i < 6,
        experiment_order()[i as int] == id,
{
    match id {
        ExperimentId::Artifacts => 0,
        ExperimentId::ConversationTitles => 1,
        ExperimentId::DesktopConversationBootstrap => 2,
        ExperimentId::Diffs => 3,
        ExperimentId::ReflectionArena => 4,
        ExperimentId::TuiCron => 5,
    }
}


// ── Responses ───────────────────────────────────────────────────────────────

/// `get_cwd_map_response` payload; `cwd_map` holds `(scope key, cwd)` pairs.
#[derive(Debug)]
pub struct GetCwdMapResponseMessage {
    pub request_id: String,
    pub success: bool,
    pub cwd_map: Vec<(String, String)>,
    pub boot_working_directory: Option<String>,
    pub error: Option<String>,
}

/// `get_reflection_settings_response` payload.
#[derive(Debug)]
pub struct GetReflectionSettingsResponseMessage {
    pub request_id: String,
    pub success: bool,
    pub reflection_settings: Option<ReflectionSettingsSnapshot>,
    pub error: Option<String>,
}

/// `set_reflection_settings_response` payload.
#[derive(Debug)]
pub struct SetReflectionSettingsResponseMessage {
    pub request_id: String,
    pub success: bool,
    pub scope: ReflectionScope,
    pub reflection_settings: Option<ReflectionSettingsSnapshot>,
    pub error: Option<String>,
}

/// `get_experiments_response` payload.
#[derive(Debug)]
pub struct GetExperimentsResponseMessage {
    pub request_id: String,
    pub success: bool,
    pub experiments: Vec<ExperimentSnapshot>,
}

/// `set_experiment_response` payload.
#[derive(Debug)]
pub struct SetExperimentResponseMessage {
    pub request_id: String,
    pub success: bool,
    pub experiments: Vec<ExperimentSnapshot>,
    pub error: Option<String>,
}

/// Settings portion of the device-status snapshot sent after a mutation.
#[derive(Debug)]
pub struct SettingsStatusSnapshot {
    pub experiments: Vec<ExperimentSnapshot>,
    pub cwd_map: Vec<(String, String)>,
    pub boot_working_directory: String,
    pub reflection_settings: Option<ReflectionSettingsSnapshot>,
}

/// The six outbound settings group messages.
#[derive(Debug)]
pub enum SettingsMessage {
    CwdMapResponse(GetCwdMapResponseMessage),
    GetReflectionSettingsResponse(GetReflectionSettingsResponseMessage),
    SetReflectionSettingsResponse(SetReflectionSettingsResponseMessage),
    GetExperimentsResponse(GetExperimentsResponseMessage),
    SetExperimentResponse(SetExperimentResponseMessage),
    DeviceStatus { device_status: SettingsStatusSnapshot },
}

/// Copy of a snapshot.
pub fn copy_reflection(s: &ReflectionSettingsSnapshot) -> (r: ReflectionSettingsSnapshot)
    ensures
        reflection_view(r) == reflection_view(*s),
{
    ReflectionSettingsSnapshot {
        agent_id: copy_string(s.agent_id.as_str()),
        trigger: s.trigger,
        step_count: s.step_count,
        merge: s.merge,
        merge_instructions: copy_string(s.merge_instructions.as_str()),
    }
}

impl CwdState {
    /// Answer to `get_cwd_map`: every override and the boot directory.
    pub fn cwd_map_answer(&self, command: &GetCwdMapCommand) -> (m: SettingsMessage)
        requires
            self.wf(),
        ensures
            m matches SettingsMessage::CwdMapResponse(r) && {
                &&& r.request_id@ == command.request_id@
                &&& r.success
                &&& r.cwd_map@.len() == self.cwd_count()
                &&& forall|i: int|
                    0 <= i < r.cwd_map@.len() ==> self.cwd((#[trigger] r.cwd_map@[i]).0@) == Some(
                        r.cwd_map@[i].1@,
                    )
                &&& forall|i: int, j: int|
                    0 <= i < j < r.cwd_map@.len() ==> (#[trigger] r.cwd_map@[i]).0@ != (
                    #[trigger] r.cwd_map@[j]).0@
                &&& crate::memory::ov(r.boot_working_directory) == Some(self.boot_dir())
                &&& r.error is None
            },
    {
        SettingsMessage::CwdMapResponse(
            GetCwdMapResponseMessage {
                request_id: copy_string(command.request_id.as_str()),
                success: true,
                cwd_map: self.cwd_pairs(),
                boot_working_directory: Some(copy_string(self.boot.as_str())),
                error: None,
            },
        )
    }

    /// Device-status snapshot after a mutation.
    pub fn status_message(
        &self,
        experiments: Vec<ExperimentSnapshot>,
        reflection: Option<ReflectionSettingsSnapshot>,
    ) -> (m: SettingsMessage)
        requires
            self.wf(),
        ensures
            m matches SettingsMessage::DeviceStatus { device_status: d } && {
                &&& d.experiments == experiments
                &&& d.cwd_map@.len() == self.cwd_count()
                &&& forall|i: int|
                    0 <= i < d.cwd_map@.len() ==> self.cwd((#[trigger] d.cwd_map@[i]).0@) == Some(
                        d.cwd_map@[i].1@,
                    )
                &&& forall|i: int, j: int|
                    0 <= i < j < d.cwd_map@.len() ==> (#[trigger] d.cwd_map@[i]).0@ != (
                    #[trigger] d.cwd_map@[j]).0@
                &&& d.boot_working_directory@ == self.boot_dir()
                &&& d.reflection_settings == reflection
            },
    {
        SettingsMessage::DeviceStatus {
            device_status: SettingsStatusSnapshot {
                experiments,
                cwd_map: self.cwd_pairs(),
                boot_working_directory: copy_string(self.boot.as_str()),
                reflection_settings: reflection,
            },
        }
    }

    /// Messages answering `set_reflection_settings`, given the settings it
    /// wrote and the combined write result: on success the response carrying
    /// them and a status snapshot with them; on failure one failed response
    /// with the detail.
    pub fn set_reflection_answer(
        &self,
        command: &SetReflectionSettingsCommand,
        written: ReflectionSettingsSnapshot,
        result: Result<(), String>,
        experiments: Vec<ExperimentSnapshot>,
    ) -> (msgs: Vec<SettingsMessage>)
        requires
            self.wf(),
        ensures
            msgs@.len() == if result is Ok { 2int } else { 1int },
            msgs@[0] matches SettingsMessage::SetReflectionSettingsResponse(r) && {
                &&& r.request_id@ == command.request_id@
                &&& r.scope == normalized_scope(command.scope)
                &&& r.success == result is Ok
                &&& match result {
                    Ok(()) => r.reflection_settings matches Some(w) && reflection_view(w)
                        == reflection_view(written) && r.error is None,
                    Err(e) => r.reflection_settings is None && crate::memory::ov(r.error) == Some(
                        e@,
                    ),
                }
            },
            result is Ok ==> (msgs@[1] matches SettingsMessage::DeviceStatus { device_status: d }
                && d.experiments == experiments && d.reflection_settings == Some(written)
                && d.boot_working_directory@ == self.boot_dir() && d.cwd_map@.len()
                == self.cwd_count()),
    {
        let scope = normalize_scope(command.scope);
        let mut msgs: Vec<SettingsMessage> = Vec::new();
        match result {
            Ok(()) => {
                let echoed = copy_reflection(&written);
                msgs.push(
                    SettingsMessage::SetReflectionSettingsResponse(
                        SetReflectionSettingsResponseMessage {
                            request_id: copy_string(command.request_id.as_str()),
                            success: true,
                            scope,
                            reflection_settings: Some(echoed),
                            error: None,
                        },
                    ),
                );
                msgs.push(self.status_message(experiments, Some(written)));
            },
            Err(e) => {
                msgs.push(
                    SettingsMessage::SetReflectionSettingsResponse(
                        SetReflectionSettingsResponseMessage {
                            request_id: copy_string(command.request_id.as_str()),
                            success: false,
                            scope,
                            reflection_settings: None,
                            error: Some(e),
                        },
                    ),
                );
            },
        }
        msgs
    }

    /// Messages answering `set_experiment`, given the write outcome and the
    /// experiments resolved afterwards: on success the response and a status
    /// snapshot; on failure one failed response whose detail falls back to
    /// the global catch-all.
    pub fn set_experiment_answer(
        &self,
        command: &SetExperimentCommand,
        outcome: WriteOutcome,
        experiments: Vec<ExperimentSnapshot>,
        status_experiments: Vec<ExperimentSnapshot>,
    ) -> (msgs: Vec<SettingsMessage>)
        requires
            self.wf(),
        ensures
            msgs@.len() == if outcome is Ok { 2int } else { 1int },
            msgs@[0] matches SettingsMessage::SetExperimentResponse(r) && {
                &&& r.request_id@ == command.request_id@
                &&& r.success == outcome is Ok
                &&& r.experiments == experiments
                &&& crate::memory::ov(r.error) == write_failure_text(outcome, global_failure())
            },
            outcome is Ok ==> (msgs@[1] matches SettingsMessage::DeviceStatus { device_status: d }
                && d.experiments == status_experiments && d.reflection_settings is None),
    {
        let mut msgs: Vec<SettingsMessage> = Vec::new();
        match outcome {
            Ok(()) => {
                msgs.push(
                    SettingsMessage::SetExperimentResponse(
                        SetExperimentResponseMessage {
                            request_id: copy_string(command.request_id.as_str()),
                            success: true,
                            experiments,
                            error: None,
                        },
                    ),
                );
                msgs.push(self.status_message(status_experiments, None));
            },
            Err(detail) => {
                let text = match detail {
                    Some(d) => d,
                    None => copy_string("Failed to update global settings"),
                };
                msgs.push(
                    SettingsMessage::SetExperimentResponse(
                        SetExperimentResponseMessage {
                            request_id: copy_string(command.request_id.as_str()),
                            success: false,
                            experiments,
                            error: Some(text),
                        },
                    ),
                );
            },
        }
        msgs
    }
}

/// Answer to `get_reflection_settings`: the effective settings.
pub fn reflection_answer(command: &GetReflectionSettingsCommand, resolved: ReflectionSettingsSnapshot) -> (m:
    SettingsMessage)
    ensures
        m matches SettingsMessage::GetReflectionSettingsResponse(r) && r.request_id@
            == command.request_id@ && r.success && r.reflection_settings == Some(resolved)
            && r.error is None,
{
    SettingsMessage::GetReflectionSettingsResponse(
        GetReflectionSettingsResponseMessage {
            request_id: copy_string(command.request_id.as_str()),
            success: true,
            reflection_settings: Some(resolved),
            error: None,
        },
    )
}

/// Answer to `get_experiments`.
pub fn experiments_answer(command: &GetExperimentsCommand, experiments: Vec<ExperimentSnapshot>) -> (m:
    SettingsMessage)
    ensures
        m matches SettingsMessage::GetExperimentsResponse(r) && r.request_id@ == command.request_id@
            && r.success && r.experiments == experiments,
{
    SettingsMessage::GetExperimentsResponse(
        GetExperimentsResponseMessage {
            request_id: copy_string(command.request_id.as_str()),
            success: true,
            experiments,
        },
    )
}

} // verus!
