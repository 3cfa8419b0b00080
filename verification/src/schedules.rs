//! Schedules group: the canonical schedule list's queries and mutations, run
//! history paging, field validation order and the answers of every command.
//!
//! Parsing cron expressions, intervals, time zones and timestamps belongs to
//! the runtime's own types; the host hands their verdicts in, and this module
//! decides in which order they are consulted and what is answered.

use crate::settings::opt_view;
use crate::text::{copy_string, decimal, decimal_chars, same_text, string_from};
use vstd::prelude::*;

verus! {

/// Entries per runs page when the client names no limit.
pub const RUNS_PAGE_ENTRIES_DEFAULT: usize = 50;

/// Upper bound on the entries of one runs page.
pub const RUNS_PAGE_ENTRIES_MAX: usize = 200;

/// Run-log records considered for one page before paging.
pub const RUNS_SCAN_ENTRIES_MAX: usize = 5000;

/// Active schedules one agent may hold before adds are refused.
pub const ACTIVE_SCHEDULES_PER_AGENT_MAX: usize = 50;

/// Random bytes in one generated schedule identifier.
pub const SCHEDULE_ID_BYTES_MAX: usize = 4;

// ── Texts ───────────────────────────────────────────────────────────────────

pub open spec fn list_failure() -> Seq<char> { "Failed to list crons"@ }
pub open spec fn add_failure() -> Seq<char> { "Failed to add cron"@ }
pub open spec fn get_failure() -> Seq<char> { "Failed to get cron"@ }
pub open spec fn runs_failure() -> Seq<char> { "Failed to list cron run history"@ }
pub open spec fn trigger_failure() -> Seq<char> { "Failed to trigger cron"@ }
pub open spec fn update_failure() -> Seq<char> { "Failed to update cron"@ }
pub open spec fn delete_failure() -> Seq<char> { "Failed to delete cron"@ }
pub open spec fn update_not_found() -> Seq<char> { "Cron task not found"@ }
pub open spec fn trigger_not_found() -> Seq<char> { "Schedule not found"@ }
pub open spec fn trigger_inactive() -> Seq<char> { "Schedule is not active"@ }
pub open spec fn invalid_prompt() -> Seq<char> { "Schedule prompt cannot be empty"@ }
pub open spec fn invalid_conversation() -> Seq<char> { "Invalid conversation_id"@ }
pub open spec fn invalid_timezone() -> Seq<char> { "Unknown IANA timezone"@ }
pub open spec fn invalid_scheduled_for() -> Seq<char> { "Invalid scheduled_for timestamp"@ }
pub open spec fn invalid_agent() -> Seq<char> { "Invalid agent_id"@ }

/// Store operations whose failures answer a catch-all detail.
#[derive(Clone, Copy, Debug, PartialEq, Eq)]
pub enum StoreOp {
    List,
    Add,
    Get,
    Runs,
    Trigger,
    Update,
    Delete,
}

/// Catch-all detail of a failed store operation.
pub open spec fn store_failure_text(op: StoreOp) -> Seq<char> {
    match op {
        StoreOp::List => list_failure(),
        StoreOp::Add => add_failure(),
        StoreOp::Get => get_failure(),
        StoreOp::Runs => runs_failure(),
        StoreOp::Trigger => trigger_failure(),
        StoreOp::Update => update_failure(),
        StoreOp::Delete => delete_failure(),
    }
}

/// Executable [`store_failure_text`].
pub fn store_failure(op: StoreOp) -> (r: String)
    ensures
        r@ == store_failure_text(op),
{
    match op {
        StoreOp::List => text("Failed to list crons"),
        StoreOp::Add => text("Failed to add cron"),
        StoreOp::Get => text("Failed to get cron"),
        StoreOp::Runs => text("Failed to list cron run history"),
        StoreOp::Trigger => text("Failed to trigger cron"),
        StoreOp::Update => text("Failed to update cron"),
        StoreOp::Delete => text("Failed to delete cron"),
    }
}

/// Detail answered when the blocking store cannot be reached.
pub fn store_unavailable() -> (r: String)
    ensures
        r@ == "schedules store unavailable"@,
{
    text("schedules store unavailable")
}

/// Refusal of an add beyond the per-agent active limit.
pub open spec fn active_limit_text(agent_id: Seq<char>, active: nat) -> Seq<char> {
    "Agent "@ + agent_id + " has "@ + decimal(active)
        + " active schedules (max 50). Delete some before adding more."@
}

/// Refusal of an expression that is neither a cron nor an interval.
pub open spec fn invalid_expression_text(raw: Seq<char>) -> Seq<char> {
    "Invalid cron expression \""@ + raw + "\". Schedule was not saved."@
}

/// Executable [`active_limit_text`].
pub fn active_limit_rejection(agent_id: &str, active: usize) -> (r: String)
    ensures
        r@ == active_limit_text(agent_id@, active as nat),
{
    let mut r = copy_string("Agent ");
    r.append(agent_id);
    r.append(" has ");
    let digits = string_from(&decimal_chars(active as u64));
    r.append(digits.as_str());
    r.append(" active schedules (max 50). Delete some before adding more.");
    r
}

/// Executable [`invalid_expression_text`].
pub fn invalid_expression(raw: &str) -> (r: String)
    ensures
        r@ == invalid_expression_text(raw@),
{
    let mut r = copy_string("Invalid cron expression \"");
    r.append(raw);
    r.append("\". Schedule was not saved.");
    r
}

fn text(s: &str) -> (r: String)
    ensures
        r@ == s@,
{
    copy_string(s)
}

// ── Records ─────────────────────────────────────────────────────────────────

/// The fields of one canonical schedule that this group reads or writes.
#[derive(Debug)]
pub struct ScheduleRecord {
    pub id: String,
    pub agent_id: String,
    pub conversation_id: String,
    pub name: String,
    pub description: String,
    pub cron: String,
    pub timezone: String,
    pub recurring: bool,
    pub prompt: String,
    pub status: String,
    pub scheduled_for: Option<String>,
    pub lifecycle: ScheduleLifecycle,
}

/// Run bookkeeping of one schedule, which the scheduler advances and this
/// group only creates and carries.
#[derive(Debug)]
pub struct ScheduleLifecycle {
    pub created_at: String,
    pub expires_at: Option<String>,
    pub last_fired_at: Option<String>,
    pub fire_count: u64,
    pub cancel_reason: Option<String>,
    pub jitter_offset_ms: i64,
    pub last_run_at: Option<String>,
    pub last_run_outcome: Option<String>,
    pub last_run_reason: Option<String>,
    pub last_run_error: Option<String>,
    pub last_missed_at: Option<String>,
    pub missed_count: u64,
    pub failed_count: u64,
    pub fired_at: Option<String>,
    pub missed_at: Option<String>,
}

/// Value of one schedule's run bookkeeping.
pub struct Lifecycle {
    pub created_at: Seq<char>,
    pub expires_at: Option<Seq<char>>,
    pub last_fired_at: Option<Seq<char>>,
    pub fire_count: u64,
    pub cancel_reason: Option<Seq<char>>,
    pub jitter_offset_ms: i64,
    pub last_run_at: Option<Seq<char>>,
    pub last_run_outcome: Option<Seq<char>>,
    pub last_run_reason: Option<Seq<char>>,
    pub last_run_error: Option<Seq<char>>,
    pub last_missed_at: Option<Seq<char>>,
    pub missed_count: u64,
    pub failed_count: u64,
    pub fired_at: Option<Seq<char>>,
    pub missed_at: Option<Seq<char>>,
}

pub open spec fn lifecycle(l: ScheduleLifecycle) -> Lifecycle {
    Lifecycle {
        created_at: l.created_at@,
        expires_at: ov(l.expires_at),
        last_fired_at: ov(l.last_fired_at),
        fire_count: l.fire_count,
        cancel_reason: ov(l.cancel_reason),
        jitter_offset_ms: l.jitter_offset_ms,
        last_run_at: ov(l.last_run_at),
        last_run_outcome: ov(l.last_run_outcome),
        last_run_reason: ov(l.last_run_reason),
        last_run_error: ov(l.last_run_error),
        last_missed_at: ov(l.last_missed_at),
        missed_count: l.missed_count,
        failed_count: l.failed_count,
        fired_at: ov(l.fired_at),
        missed_at: ov(l.missed_at),
    }
}

/// Bookkeeping of a schedule created at `now`: never fired, missed or
/// failed, no jitter, nothing recorded yet.
pub open spec fn fresh_lifecycle(now: Seq<char>) -> Lifecycle {
    Lifecycle {
        created_at: now,
        expires_at: None,
        last_fired_at: None,
        fire_count: 0,
        cancel_reason: None,
        jitter_offset_ms: 0,
        last_run_at: None,
        last_run_outcome: None,
        last_run_reason: None,
        last_run_error: None,
        last_missed_at: None,
        missed_count: 0,
        failed_count: 0,
        fired_at: None,
        missed_at: None,
    }
}

/// Value of one schedule record.
pub struct Sched {
    pub id: Seq<char>,
    pub agent_id: Seq<char>,
    pub conversation_id: Seq<char>,
    pub name: Seq<char>,
    pub description: Seq<char>,
    pub cron: Seq<char>,
    pub timezone: Seq<char>,
    pub recurring: bool,
    pub prompt: Seq<char>,
    pub status: Seq<char>,
    pub scheduled_for: Option<Seq<char>>,
    pub lifecycle: Lifecycle,
}

pub open spec fn ov(o: Option<String>) -> Option<Seq<char>> {
    match o {
        Some(s) => Some(s@),
        None => None,
    }
}

pub open spec fn sched(r: ScheduleRecord) -> Sched {
    Sched {
        id: r.id@,
        agent_id: r.agent_id@,
        conversation_id: r.conversation_id@,
        name: r.name@,
        description: r.description@,
        cron: r.cron@,
        timezone: r.timezone@,
        recurring: r.recurring,
        prompt: r.prompt@,
        status: r.status@,
        scheduled_for: ov(r.scheduled_for),
        lifecycle: lifecycle(r.lifecycle),
    }
}

pub open spec fn scheds(s: Seq<ScheduleRecord>) -> Seq<Sched> {
    s.map_values(|r: ScheduleRecord| sched(r))
}

/// Whether a schedule is active.
pub open spec fn is_active(t: Sched) -> bool {
    t.status == "active"@
}

fn copy_opt(o: &Option<String>) -> (r: Option<String>)
    ensures
        ov(r) == ov(*o),
{
    match o {
        Some(s) => Some(copy_string(s.as_str())),
        None => None,
    }
}

/// Copy of a record.
pub fn copy_record(r: &ScheduleRecord) -> (c: ScheduleRecord)
    ensures
        sched(c) == sched(*r),
{
    ScheduleRecord {
        id: copy_string(r.id.as_str()),
        agent_id: copy_string(r.agent_id.as_str()),
        conversation_id: copy_string(r.conversation_id.as_str()),
        name: copy_string(r.name.as_str()),
        description: copy_string(r.description.as_str()),
        cron: copy_string(r.cron.as_str()),
        timezone: copy_string(r.timezone.as_str()),
        recurring: r.recurring,
        prompt: copy_string(r.prompt.as_str()),
        status: copy_string(r.status.as_str()),
        scheduled_for: copy_opt(&r.scheduled_for),
        lifecycle: ScheduleLifecycle {
            created_at: copy_string(r.lifecycle.created_at.as_str()),
            expires_at: copy_opt(&r.lifecycle.expires_at),
            last_fired_at: copy_opt(&r.lifecycle.last_fired_at),
            fire_count: r.lifecycle.fire_count,
            cancel_reason: copy_opt(&r.lifecycle.cancel_reason),
            jitter_offset_ms: r.lifecycle.jitter_offset_ms,
            last_run_at: copy_opt(&r.lifecycle.last_run_at),
            last_run_outcome: copy_opt(&r.lifecycle.last_run_outcome),
            last_run_reason: copy_opt(&r.lifecycle.last_run_reason),
            last_run_error: copy_opt(&r.lifecycle.last_run_error),
            last_missed_at: copy_opt(&r.lifecycle.last_missed_at),
            missed_count: r.lifecycle.missed_count,
            failed_count: r.lifecycle.failed_count,
            fired_at: copy_opt(&r.lifecycle.fired_at),
            missed_at: copy_opt(&r.lifecycle.missed_at),
        },
    }
}

// ── Queries ─────────────────────────────────────────────────────────────────

/// An unset filter matches everything; a set one only the same value.
pub open spec fn filter_matches(filter: Option<Seq<char>>, value: Option<Seq<char>>) -> bool {
    match filter {
        None => true,
        Some(w) => value == Some(w),
    }
}

/// Executable [`filter_matches`].
pub fn matches_filter(filter: Option<&str>, value: Option<&str>) -> (b: bool)
    ensures
        b == filter_matches(opt_view(filter), opt_view(value)),
{
    match filter {
        None => true,
        Some(w) => match value {
            Some(v) => same_text(v, w),
            None => false,
        },
    }
}

/// Whether a schedule passes a listing's agent and conversation filters.
pub open spec fn listed(t: Sched, agent: Option<Seq<char>>, conversation: Option<Seq<char>>) -> bool {
    filter_matches(agent, Some(t.agent_id)) && filter_matches(conversation, Some(t.conversation_id))
}

/// The schedules a listing returns, in stored order.
pub open spec fn listed_tasks(s: Seq<Sched>, agent: Option<Seq<char>>, conversation: Option<Seq<char>>) -> Seq<
    Sched,
>
    decreases s.len(),
{
    if s.len() == 0 {
        s
    } else {
        let p = listed_tasks(s.drop_last(), agent, conversation);
        if listed(s.last(), agent, conversation) {
            p.push(s.last())
        } else {
            p
        }
    }
}

/// Schedules passing both filters, copied in stored order.
pub fn list_tasks(tasks: &Vec<ScheduleRecord>, agent: Option<&str>, conversation: Option<&str>) -> (r:
    Vec<ScheduleRecord>)
    ensures
        scheds(r@) == listed_tasks(scheds(tasks@), opt_view(agent), opt_view(conversation)),
{
    let ghost all = scheds(tasks@);
    let mut r: Vec<ScheduleRecord> = Vec::new();
    let mut i: usize = 0;
    while i < tasks.len()
        invariant
            i <= tasks@.len(),
            all == scheds(tasks@),
            scheds(r@) == listed_tasks(all.subrange(0, i as int), opt_view(agent), opt_view(conversation)),
        decreases tasks@.len() - i,
    {
        let t = &tasks[i];
        let keep = matches_filter(agent, Some(t.agent_id.as_str())) && matches_filter(
            conversation,
            Some(t.conversation_id.as_str()),
        );
        let ghost prev = r@;
        if keep {
            r.push(copy_record(t));
            proof {
                assert(scheds(r@) =~= scheds(prev).push(sched(*t)));
            }
        }
        proof {
            assert(all.subrange(0, i + 1).drop_last() =~= all.subrange(0, i as int));
            assert(all.subrange(0, i + 1).last() == sched(*t));
        }
        i = i + 1;
    }
    proof {
        assert(all.subrange(0, tasks@.len() as int) =~= all);
    }
    r
}

/// First position holding a schedule with `id`.
pub fn find_task(tasks: &Vec<ScheduleRecord>, id: &str) -> (r: Option<usize>)
    ensures
        match r {
            Some(p) => p < tasks@.len() && tasks@[p as int].id@ == id@ && forall|k: int|
                0 <= k < p ==> #[trigger] tasks@[k].id@ != id@,
            None => forall|k: int| 0 <= k < tasks@.len() ==> #[trigger] tasks@[k].id@ != id@,
        },
{
    let mut i: usize = 0;
    while i < tasks.len()
        invariant
            i <= tasks@.len(),
            forall|k: int| 0 <= k < i ==> #[trigger] tasks@[k].id@ != id@,
        decreases tasks@.len() - i,
    {
        if same_text(tasks[i].id.as_str(), id) {
            return Some(i);
        }
        i = i + 1;
    }
    None
}

/// Active schedules owned by `agent`.
pub open spec fn active_count(s: Seq<Sched>, agent: Seq<char>) -> nat
    decreases s.len(),
{
    if s.len() == 0 {
        0
    } else {
        active_count(s.drop_last(), agent) + if s.last().agent_id == agent && is_active(s.last()) {
            1nat
        } else {
            0nat
        }
    }
}

proof fn lemma_active_count_bound(s: Seq<Sched>, agent: Seq<char>)
    ensures
        active_count(s, agent) <= s.len(),
    decreases s.len(),
{
    if s.len() > 0 {
        lemma_active_count_bound(s.drop_last(), agent);
    }
}

/// Number of active schedules owned by `agent`.
pub fn count_active(tasks: &Vec<ScheduleRecord>, agent: &str) -> (n: usize)
    ensures
        n == active_count(scheds(tasks@), agent@),
{
    let ghost all = scheds(tasks@);
    let mut n: usize = 0;
    let mut i: usize = 0;
    while i < tasks.len()
        invariant
            i <= tasks@.len(),
            all == scheds(tasks@),
            n == active_count(all.subrange(0, i as int), agent@),
            n <= i,
        decreases tasks@.len() - i,
    {
        proof {
            assert(all.subrange(0, i + 1).drop_last() =~= all.subrange(0, i as int));
            assert(all.subrange(0, i + 1).last() == sched(tasks@[i as int]));
        }
        if same_text(tasks[i].agent_id.as_str(), agent) && same_text(tasks[i].status.as_str(), "active") {
            n = n + 1;
        }
        i = i + 1;
    }
    proof {
        assert(all.subrange(0, tasks@.len() as int) =~= all);
    }
    n
}

// ── Mutations ───────────────────────────────────────────────────────────────

/// Appends a draft unless its agent already holds the maximum of active
/// schedules, which refuses and changes nothing.
pub fn insert_task(tasks: &mut Vec<ScheduleRecord>, draft: ScheduleRecord) -> (r: Result<
    ScheduleRecord,
    String,
>)
    ensures
        ({
            let active = active_count(scheds(old(tasks)@), draft.agent_id@);
            if active >= 50 {
                &&& r matches Err(e) && e@ == active_limit_text(draft.agent_id@, active)
                &&& final(tasks)@ == old(tasks)@
            } else {
                &&& r matches Ok(t) && sched(t) == sched(draft)
                &&& scheds(final(tasks)@) == scheds(old(tasks)@).push(sched(draft))
            }
        }),
{
    let active = count_active(tasks, draft.agent_id.as_str());
    if active >= ACTIVE_SCHEDULES_PER_AGENT_MAX {
        return Err(active_limit_rejection(draft.agent_id.as_str(), active));
    }
    let echoed = copy_record(&draft);
    tasks.push(draft);
    proof {
        assert(scheds(tasks@) =~= scheds(old(tasks)@).push(sched(echoed)));
    }
    Ok(echoed)
}

/// Validated replacement fields of one update; `scheduled_for` is
/// `Some(None)` to clear the one-shot instant.
#[derive(Debug)]
pub struct ScheduleUpdate {
    pub name: Option<String>,
    pub description: Option<String>,
    pub conversation_id: Option<String>,
    pub cron: Option<String>,
    pub timezone: Option<String>,
    pub recurring: Option<bool>,
    pub prompt: Option<String>,
    pub scheduled_for: Option<Option<String>>,
}

pub open spec fn or_text(o: Option<String>, d: Seq<char>) -> Seq<char> {
    match o {
        Some(s) => s@,
        None => d,
    }
}

/// A schedule with every supplied field of an update replaced.
pub open spec fn updated(t: Sched, u: ScheduleUpdate) -> Sched {
    Sched {
        id: t.id,
        agent_id: t.agent_id,
        conversation_id: or_text(u.conversation_id, t.conversation_id),
        name: or_text(u.name, t.name),
        description: or_text(u.description, t.description),
        cron: or_text(u.cron, t.cron),
        timezone: or_text(u.timezone, t.timezone),
        recurring: match u.recurring {
            Some(b) => b,
            None => t.recurring,
        },
        prompt: or_text(u.prompt, t.prompt),
        status: t.status,
        scheduled_for: match u.scheduled_for {
            Some(s) => ov(s),
            None => t.scheduled_for,
        },
        lifecycle: t.lifecycle,
    }
}

fn replace_text(target: &mut String, value: &Option<String>)
    ensures
        final(target)@ == or_text(*value, old(target)@),
{
    if let Some(v) = value {
        *target = copy_string(v.as_str());
    }
}

/// Applies validated replacement fields onto one schedule.
pub fn apply_fields(task: &mut ScheduleRecord, update: &ScheduleUpdate)
    ensures
        sched(*final(task)) == updated(sched(*old(task)), *update),
{
    replace_text(&mut task.name, &update.name);
    replace_text(&mut task.description, &update.description);
    replace_text(&mut task.conversation_id, &update.conversation_id);
    replace_text(&mut task.cron, &update.cron);
    replace_text(&mut task.timezone, &update.timezone);
    if let Some(recurring) = update.recurring {
        task.recurring = recurring;
    }
    replace_text(&mut task.prompt, &update.prompt);
    if let Some(scheduled_for) = &update.scheduled_for {
        task.scheduled_for = copy_opt(scheduled_for);
    }
}

/// Applies an update to the first schedule with `id`, answering a copy of
/// the updated schedule; without one nothing changes.
pub fn update_task(tasks: &mut Vec<ScheduleRecord>, id: &str, update: &ScheduleUpdate) -> (r: Option<
    ScheduleRecord,
>)
    ensures
        match r {
            Some(t) => exists|p: int|
                #![trigger old(tasks)@[p]]
                0 <= p < old(tasks)@.len() && old(tasks)@[p].id@ == id@ && (forall|k: int|
                    0 <= k < p ==> #[trigger] old(tasks)@[k].id@ != id@) && sched(t) == updated(
                    sched(old(tasks)@[p]),
                    *update,
                ) && scheds(final(tasks)@) == scheds(old(tasks)@).update(p, sched(t)),
            None => final(tasks)@ == old(tasks)@ && forall|k: int|
                0 <= k < old(tasks)@.len() ==> #[trigger] old(tasks)@[k].id@ != id@,
        },
{
    match find_task(tasks, id) {
        None => None,
        Some(p) => {
            let mut t = tasks.remove(p);
            apply_fields(&mut t, update);
            let echoed = copy_record(&t);
            tasks.insert(p, t);
            proof {
                assert(scheds(tasks@) =~= scheds(old(tasks)@).update(p as int, sched(echoed)));
            }
            Some(echoed)
        },
    }
}

/// Removes the first schedule with `id`, answering it.
pub fn remove_task(tasks: &mut Vec<ScheduleRecord>, id: &str) -> (r: Option<ScheduleRecord>)
    ensures
        match r {
            Some(t) => exists|p: int|
                #![trigger old(tasks)@[p]]
                0 <= p < old(tasks)@.len() && old(tasks)@[p].id@ == id@ && (forall|k: int|
                    0 <= k < p ==> #[trigger] old(tasks)@[k].id@ != id@) && t == old(tasks)@[p]
                    && final(tasks)@ == old(tasks)@.remove(p),
            None => final(tasks)@ == old(tasks)@ && forall|k: int|
                0 <= k < old(tasks)@.len() ==> #[trigger] old(tasks)@[k].id@ != id@,
        },
{
    match find_task(tasks, id) {
        None => None,
        Some(p) => Some(tasks.remove(p)),
    }
}

/// The schedules that survive removing every schedule of `agent`.
pub open spec fn kept_tasks(s: Seq<Sched>, agent: Seq<char>) -> Seq<Sched>
    decreases s.len(),
{
    if s.len() == 0 {
        s
    } else {
        let p = kept_tasks(s.drop_last(), agent);
        if s.last().agent_id != agent {
            p.push(s.last())
        } else {
            p
        }
    }
}

/// Removes every schedule owned by `agent`, in order, answering how many
/// went.
pub fn remove_agent_tasks(tasks: &mut Vec<ScheduleRecord>, agent: &str) -> (n: u64)
    ensures
        scheds(final(tasks)@) == kept_tasks(scheds(old(tasks)@), agent@),
        n == old(tasks)@.len() - final(tasks)@.len(),
{
    let ghost all = scheds(tasks@);
    let total_len = tasks.len();
    let ghost total = total_len as nat;
    let mut kept: Vec<ScheduleRecord> = Vec::new();
    let mut i: usize = 0;
    while tasks.len() > 0
        invariant
            all.len() == total,
            total <= usize::MAX,
            i + tasks@.len() == total,
            scheds(tasks@) == all.subrange(i as int, total as int),
            scheds(kept@) == kept_tasks(all.subrange(0, i as int), agent@),
            kept@.len() <= i,
        decreases tasks@.len(),
    {
        let ghost before = tasks@;
        let t = tasks.remove(0);
        proof {
            assert(sched(t) == all[i as int]) by {
                assert(scheds(before)[0] == sched(before[0]));
            }
            assert(tasks@ =~= before.subrange(1, before.len() as int));
            assert(scheds(tasks@) =~= scheds(before).subrange(1, before.len() as int));
            assert(scheds(tasks@) =~= all.subrange(i + 1, total as int));
            assert(all.subrange(0, i + 1).drop_last() =~= all.subrange(0, i as int));
            assert(all.subrange(0, i + 1).last() == all[i as int]);
        }
        if !same_text(t.agent_id.as_str(), agent) {
            let ghost prev = kept@;
            kept.push(t);
            proof {
                assert(scheds(kept@) =~= scheds(prev).push(all[i as int]));
            }
        }
        i = i + 1;
    }
    proof {
        assert(all.subrange(0, total as int) =~= all);
    }
    let removed = (i - kept.len()) as u64;
    std::mem::swap(tasks, &mut kept);
    removed
}

/// After removing an agent's schedules none of its schedules remains, and
/// removing them again removes nothing.
pub proof fn law_remove_agent_tasks(s: Seq<Sched>, agent: Seq<char>)
    ensures
        forall|k: int| 0 <= k < kept_tasks(s, agent).len() ==> (#[trigger] kept_tasks(s, agent)[k]).agent_id
            != agent,
        kept_tasks(kept_tasks(s, agent), agent) == kept_tasks(s, agent),
    decreases s.len(),
{
    if s.len() > 0 {
        law_remove_agent_tasks(s.drop_last(), agent);
        let p = kept_tasks(s.drop_last(), agent);
        if s.last().agent_id != agent {
            assert(p.push(s.last()).drop_last() =~= p);
            assert forall|k: int| 0 <= k < p.push(s.last()).len() implies (#[trigger] p.push(
                s.last(),
            )[k]).agent_id != agent by {
                if k < p.len() {
                    assert(p.push(s.last())[k] == p[k]);
                }
            }
        }
    }
}

/// An update never changes a schedule's identity, owner or status.
pub proof fn law_update_keeps_identity(t: Sched, u: ScheduleUpdate)
    ensures
        updated(t, u).id == t.id,
        updated(t, u).agent_id == t.agent_id,
        updated(t, u).status == t.status,
{
}

// ── Run history paging ──────────────────────────────────────────────────────

/// What paging reads of one run-log entry.
#[derive(Debug)]
pub struct RunKey {
    pub ts: i64,
    pub run_id: Option<String>,
}

/// Page size of a runs request: the given limit or the default, clamped to
/// `1..=200`.
pub open spec fn page_limit_spec(limit: Option<usize>) -> usize {
    let l = match limit {
        Some(l) => l,
        None => RUNS_PAGE_ENTRIES_DEFAULT,
    };
    if l < 1 {
        1
    } else if l > RUNS_PAGE_ENTRIES_MAX {
        RUNS_PAGE_ENTRIES_MAX
    } else {
        l
    }
}

/// Executable [`page_limit_spec`].
pub fn page_limit(limit: Option<usize>) -> (r: usize)
    ensures
        r == page_limit_spec(limit),
        1 <= r <= RUNS_PAGE_ENTRIES_MAX,
{
    let l = match limit {
        Some(l) => l,
        None => RUNS_PAGE_ENTRIES_DEFAULT,
    };
    if l < 1 {
        1
    } else if l > RUNS_PAGE_ENTRIES_MAX {
        RUNS_PAGE_ENTRIES_MAX
    } else {
        l
    }
}

/// Positions of the entries whose run id passes the filter, in order.
pub open spec fn run_positions(s: Seq<RunKey>, run_id: Option<Seq<char>>, n: int) -> Seq<usize>
    decreases n,
{
    if n <= 0 {
        Seq::empty()
    } else {
        let p = run_positions(s, run_id, n - 1);
        if filter_matches(run_id, ov(s[n - 1].run_id)) {
            p.push((n - 1) as usize)
        } else {
            p
        }
    }
}

proof fn lemma_run_positions(s: Seq<RunKey>, run_id: Option<Seq<char>>, n: int)
    requires
        0 <= n <= s.len(),
        s.len() <= usize::MAX,
    ensures
        forall|a: int, b: int|
            0 <= a < b < run_positions(s, run_id, n).len() ==> run_positions(s, run_id, n)[a]
                < run_positions(s, run_id, n)[b],
        forall|a: int| 0 <= a < run_positions(s, run_id, n).len() ==> run_positions(s, run_id, n)[a] < n,
        run_positions(s, run_id, n).len() <= n,
    decreases n,
{
    if n > 0 {
        lemma_run_positions(s, run_id, n - 1);
        let p = run_positions(s, run_id, n - 1);
        let q = run_positions(s, run_id, n);
        if filter_matches(run_id, ov(s[n - 1].run_id)) {
            assert(q == p.push((n - 1) as usize));
            assert forall|a: int, b: int| 0 <= a < b < q.len() implies q[a] < q[b] by {
                if b == q.len() - 1 {
                    assert(q[a] == p[a]);
                    assert(q[b] == (n - 1) as usize);
                    assert(p[a] < n - 1);
                } else {
                    assert(q[a] == p[a] && q[b] == p[b]);
                }
            }
            assert forall|a: int| 0 <= a < q.len() implies q[a] < n by {
                if a < p.len() {
                    assert(q[a] == p[a]);
                }
            }
        }
    }
}

/// Newest-first order: a later timestamp first, equal timestamps in their
/// log order.
pub open spec fn newer(s: Seq<RunKey>, a: usize, b: usize) -> bool {
    s[a as int].ts > s[b as int].ts || (s[a as int].ts == s[b as int].ts && a < b)
}

/// Whether positions are in newest-first order.
pub open spec fn newest_first(s: Seq<RunKey>, r: Seq<usize>) -> bool {
    forall|a: int, b: int| 0 <= a < b < r.len() ==> newer(s, #[trigger] r[a], #[trigger] r[b])
}

/// The entries considered for a page: those passing the run-id filter, at
/// most the first 5000 of them.
pub open spec fn scanned(s: Seq<RunKey>, run_id: Option<Seq<char>>) -> Seq<usize> {
    let p = run_positions(s, run_id, s.len() as int);
    if p.len() > RUNS_SCAN_ENTRIES_MAX {
        p.subrange(0, RUNS_SCAN_ENTRIES_MAX as int)
    } else {
        p
    }
}

/// Positions of the entries passing the run-id filter, at most the first
/// 5000, ordered newest first.
pub fn runs_order(entries: &Vec<RunKey>, run_id: Option<&str>) -> (r: Vec<usize>)
    ensures
        r@.len() == scanned(entries@, opt_view(run_id)).len(),
        forall|x: usize| r@.contains(x) <==> scanned(entries@, opt_view(run_id)).contains(x),
        newest_first(entries@, r@),
{
    let ghost s = entries@;
    let ghost f = opt_view(run_id);
    let mut filtered: Vec<usize> = Vec::new();
    let mut i: usize = 0;
    while i < entries.len()
        invariant
            i <= s.len(),
            s == entries@,
            f == opt_view(run_id),
            filtered@ == run_positions(s, f, i as int),
        decreases s.len() - i,
    {
        let keep = match &entries[i].run_id {
            Some(v) => matches_filter(run_id, Some(v.as_str())),
            None => matches_filter(run_id, None),
        };
        if keep {
            filtered.push(i);
        }
        i = i + 1;
    }
    proof {
        lemma_run_positions(s, f, s.len() as int);
    }
    if filtered.len() > RUNS_SCAN_ENTRIES_MAX {
        filtered.truncate(RUNS_SCAN_ENTRIES_MAX);
    }
    let ghost scan = filtered@;
    assert(scan == scanned(s, f));
    // Stable insertion by timestamp, newest first.
    let mut r: Vec<usize> = Vec::new();
    let mut j: usize = 0;
    while j < filtered.len()
        invariant
            filtered@ == scan,
            j <= scan.len(),
            forall|a: int, b: int| 0 <= a < b < scan.len() ==> scan[a] < scan[b],
            forall|a: int| 0 <= a < scan.len() ==> scan[a] < s.len(),
            s == entries@,
            r@.len() == j,
            forall|a: int| 0 <= a < r@.len() ==> r@[a] < s.len(),
            newest_first(s, r@),
            forall|x: usize| r@.contains(x) <==> scan.subrange(0, j as int).contains(x),
        decreases scan.len() - j,
    {
        let e = filtered[j];
        let mut k: usize = 0;
        while k < r.len() && entries[r[k]].ts >= entries[e].ts
            invariant
                k <= r@.len(),
                e == scan[j as int],
                forall|a: int| 0 <= a < r@.len() ==> r@[a] < s.len(),
                e < s.len(),
                s == entries@,
                forall|a: int| 0 <= a < k ==> s[r@[a] as int].ts >= s[e as int].ts,
            decreases r@.len() - k,
        {
            k = k + 1;
        }
        proof {
            assert forall|a: int| 0 <= a < r@.len() implies r@[a] < e by {
                assert(r@.contains(r@[a]));
                assert(scan.subrange(0, j as int).contains(r@[a]));
                let q = choose|q: int| 0 <= q < j && scan.subrange(0, j as int)[q] == r@[a];
                assert(scan[q] == r@[a]);
            }
        }
        let ghost prev = r@;
        r.insert(k, e);
        proof {
            assert(r@ =~= prev.subrange(0, k as int).push(e) + prev.subrange(k as int, prev.len() as int));
            assert forall|a: int, b: int| 0 <= a < b < r@.len() implies newer(s, #[trigger] r@[a], #[trigger] r@[b]) by {
                if b < k {
                    assert(r@[a] == prev[a] && r@[b] == prev[b]);
                } else if b == k {
                    assert(r@[a] == prev[a]);
                } else if a == k {
                    assert(r@[b] == prev[b - 1]);
                    assert(s[prev[k as int] as int].ts < s[e as int].ts || !(k < prev.len()));
                    if b - 1 > k {
                        assert(newer(s, prev[k as int], prev[b - 1]));
                    }
                } else if a < k {
                    assert(r@[a] == prev[a] && r@[b] == prev[b - 1]);
                } else {
                    assert(r@[a] == prev[a - 1] && r@[b] == prev[b - 1]);
                }
            }
            let ghost old_pre = scan.subrange(0, j as int);
            let ghost new_pre = scan.subrange(0, j + 1);
            assert(new_pre =~= old_pre.push(e));
            assert forall|x: usize| r@.contains(x) <==> new_pre.contains(x) by {
                if r@.contains(x) {
                    let q = choose|q: int| 0 <= q < r@.len() && r@[q] == x;
                    if q < k {
                        assert(prev[q] == x);
                    } else if q > k {
                        assert(prev[q - 1] == x);
                    }
                    if x != e {
                        assert(prev.contains(x));
                        let w = choose|w: int| 0 <= w < old_pre.len() && old_pre[w] == x;
                        assert(new_pre[w] == x);
                    } else {
                        assert(new_pre[j as int] == x);
                    }
                }
                if new_pre.contains(x) {
                    let w = choose|w: int| 0 <= w < new_pre.len() && new_pre[w] == x;
                    if w == j {
                        assert(r@[k as int] == x);
                    } else {
                        assert(old_pre[w] == x);
                        assert(prev.contains(x));
                        let q = choose|q: int| 0 <= q < prev.len() && prev[q] == x;
                        if q < k {
                            assert(r@[q] == x);
                        } else {
                            assert(r@[q + 1] == x);
                        }
                    }
                }
            }
        }
        j = j + 1;
    }
    proof {
        assert(scan.subrange(0, scan.len() as int) =~= scan);
    }
    r
}

/// One page of run history: `entries` are positions into the entries read.
#[derive(Debug)]
pub struct RunsPage {
    pub entries: Vec<usize>,
    pub total: usize,
    pub offset: usize,
    pub limit: usize,
    pub has_more: bool,
    pub next_offset: Option<usize>,
}

/// First position of the page window in the ordered entries.
pub open spec fn window_start(total: usize, offset: usize) -> int {
    if offset < total { offset as int } else { total as int }
}

/// One past the last position of the page window.
pub open spec fn window_end(total: usize, offset: usize, limit: usize) -> int {
    let start = window_start(total, offset);
    if start + limit < total { start + limit } else { total as int }
}

/// The page of a runs request over the ordered positions, keeping its first
/// `kept` entries (`kept` at most the window), with the continuation the
/// kept entries imply.
pub fn runs_page(order: &Vec<usize>, offset: usize, limit: usize, kept: usize) -> (p: RunsPage)
    requires
        kept <= window_end(order@.len() as usize, offset, limit) - window_start(order@.len() as usize, offset),
    ensures
        p.total == order@.len(),
        p.offset == offset,
        p.limit == limit,
        p.entries@ == order@.subrange(
            window_start(order@.len() as usize, offset),
            window_start(order@.len() as usize, offset) + kept,
        ),
        ({
            let next = if offset + kept > usize::MAX { usize::MAX as int } else { offset + kept };
            &&& p.has_more == (next < order@.len())
            &&& p.next_offset == if next < order@.len() { Some(next as usize) } else { None::<usize> }
        }),
{
    let total = order.len();
    let start = if offset < total { offset } else { total };
    let mut entries: Vec<usize> = Vec::new();
    let mut i: usize = 0;
    while i < kept
        invariant
            i <= kept,
            start + kept <= total,
            total == order@.len(),
            entries@ == order@.subrange(start as int, start + i),
        decreases kept - i,
    {
        entries.push(order[start + i]);
        proof {
            assert(entries@ =~= order@.subrange(start as int, start + i + 1));
        }
        i = i + 1;
    }
    let next = offset.saturating_add(kept);
    let has_more = next < total;
    RunsPage {
        entries,
        total,
        offset,
        limit,
        has_more,
        next_offset: if has_more { Some(next) } else { None },
    }
}

/// How many entries of a page one frame carries: `sizes[k]` is the encoded
/// length of the page keeping its first `k` entries. The page shrinks from
/// the full window until its encoding fits `bound`; the empty page is sent
/// whatever its size.
pub fn fit_kept(sizes: &Vec<usize>, bound: usize) -> (kept: usize)
    requires
        sizes@.len() >= 1,
    ensures
        kept < sizes@.len(),
        kept == 0 || sizes@[kept as int] <= bound,
        forall|k: int| kept < k < sizes@.len() ==> #[trigger] sizes@[k] > bound,
{
    let mut kept: usize = sizes.len() - 1;
    while kept > 0 && sizes[kept] > bound
        invariant
            kept < sizes@.len(),
            forall|k: int| kept < k < sizes@.len() ==> #[trigger] sizes@[k] > bound,
        decreases kept,
    {
        kept = kept - 1;
    }
    kept
}

/// Number of entries in the full window of a request.
pub fn window_len(total: usize, offset: usize, limit: usize) -> (n: usize)
    ensures
        n == window_end(total, offset, limit) - window_start(total, offset),
{
    let start = if offset < total { offset } else { total };
    if limit < total - start { limit } else { total - start }
}

// ── Field validation ────────────────────────────────────────────────────────

/// A usable schedule expression and the note of an interval's rounding.
#[derive(Debug)]
pub struct ExpressionResolution {
    pub cron: String,
    pub warning: Option<String>,
}

/// Resolves one raw expression: a valid five-field cron is kept verbatim; else
/// an interval form's canonical cron (and its rounding note) is used; else
/// it is refused. `cron_parses` and `interval` are the runtime parsers'
/// verdicts on `raw`.
pub fn resolve_expression(raw: &str, cron_parses: bool, interval: Option<ExpressionResolution>) -> (r:
    Result<ExpressionResolution, String>)
    ensures
        match r {
            Ok(e) => if cron_parses {
                e.cron@ == raw@ && e.warning is None && raw@.len() > 0
            } else {
                interval matches Some(i) && e.cron@ == i.cron@ && ov(e.warning) == ov(i.warning)
                    && i.cron@.len() > 0
            },
            Err(m) => m@ == invalid_expression_text(raw@),
        },
        (cron_parses && raw@.len() > 0) ==> r is Ok,
        (!cron_parses && (interval matches Some(i) && i.cron@.len() > 0)) ==> r is Ok,
{
    if cron_parses {
        if raw.unicode_len() == 0 {
            return Err(invalid_expression(raw));
        }
        return Ok(ExpressionResolution { cron: copy_string(raw), warning: None });
    }
    match interval {
        Some(i) => {
            if i.cron.as_str().unicode_len() == 0 {
                Err(invalid_expression(raw))
            } else {
                Ok(i)
            }
        },
        None => Err(invalid_expression(raw)),
    }
}

/// The raw mutation fields of an add or update; `scheduled_for` is absent,
/// null (`Some(None)`) or a value.
#[derive(Debug)]
pub struct FieldInputs {
    pub cron: Option<String>,
    pub prompt: Option<String>,
    pub conversation_id: Option<String>,
    pub timezone: Option<String>,
    pub recurring: Option<bool>,
    pub scheduled_for: Option<Option<String>>,
}

/// The runtime's verdicts on the supplied fields: whether the expression
/// parses as a cron, its interval reading, whether the prompt and the
/// conversation target are accepted, the canonical zone name of the time
/// zone, the canonical form of the one-shot instant.
#[derive(Debug)]
pub struct FieldChecks {
    pub cron_parses: bool,
    pub interval: Option<ExpressionResolution>,
    pub prompt_accepted: bool,
    pub conversation_accepted: bool,
    pub timezone: Option<String>,
    pub scheduled_for: Option<String>,
}

/// Fields ready to apply.
#[derive(Debug)]
pub struct ValidatedFields {
    pub expression: Option<ExpressionResolution>,
    pub prompt: Option<String>,
    pub conversation_id: Option<String>,
    pub timezone: Option<String>,
    pub recurring: Option<bool>,
    pub scheduled_for: Option<Option<String>>,
}

/// The refusal of the first failing field, in the order expression, prompt,
/// conversation, time zone, one-shot instant; `None` when all pass.
pub open spec fn first_field_error(i: FieldInputs, c: FieldChecks) -> Option<Seq<char>> {
    let expr_ok = match i.cron {
        None => true,
        Some(raw) => if c.cron_parses {
            raw@.len() > 0
        } else {
            c.interval matches Some(iv) && iv.cron@.len() > 0
        },
    };
    if !expr_ok {
        Some(invalid_expression_text(i.cron->0@))
    } else if i.prompt is Some && !c.prompt_accepted {
        Some(invalid_prompt())
    } else if i.conversation_id is Some && !c.conversation_accepted {
        Some(invalid_conversation())
    } else if i.timezone is Some && c.timezone is None {
        Some(invalid_timezone())
    } else if (i.scheduled_for matches Some(Some(_))) && c.scheduled_for is None {
        Some(invalid_scheduled_for())
    } else {
        None
    }
}

/// Validates every supplied field before any store access, refusing with
/// the first failing field's text.
pub fn validate_fields(inputs: FieldInputs, checks: FieldChecks) -> (r: Result<ValidatedFields, String>)
    ensures
        match first_field_error(inputs, checks) {
            Some(e) => r matches Err(m) && m@ == e,
            None => r matches Ok(v) && {
                &&& (v.expression is Some <==> inputs.cron is Some)
                &&& (inputs.cron matches Some(raw) ==> (v.expression matches Some(x) && if checks.cron_parses {
                    x.cron@ == raw@ && x.warning is None
                } else {
                    checks.interval matches Some(iv) && x.cron@ == iv.cron@ && ov(x.warning) == ov(
                        iv.warning,
                    )
                }))
                &&& ov(v.prompt) == ov(inputs.prompt)
                &&& ov(v.conversation_id) == ov(inputs.conversation_id)
                &&& (v.timezone is Some <==> inputs.timezone is Some)
                &&& (inputs.timezone is Some ==> ov(v.timezone) == ov(checks.timezone))
                &&& v.recurring == inputs.recurring
                &&& match inputs.scheduled_for {
                    None => v.scheduled_for is None,
                    Some(None) => v.scheduled_for == Some(None::<String>),
                    Some(Some(_)) => v.scheduled_for matches Some(Some(t)) && ov(checks.scheduled_for)
                        == Some(t@),
                }
            },
        },
{
    let FieldInputs { cron, prompt, conversation_id, timezone, recurring, scheduled_for } = inputs;
    let FieldChecks {
        cron_parses,
        interval,
        prompt_accepted,
        conversation_accepted,
        timezone: canonical_zone,
        scheduled_for: canonical_instant,
    } = checks;
    let expression = match &cron {
        Some(raw) => match resolve_expression(raw.as_str(), cron_parses, interval) {
            Ok(e) => Some(e),
            Err(m) => return Err(m),
        },
        None => None,
    };
    if prompt.is_some() && !prompt_accepted {
        return Err(text("Schedule prompt cannot be empty"));
    }
    if conversation_id.is_some() && !conversation_accepted {
        return Err(text("Invalid conversation_id"));
    }
    let zone = match timezone {
        Some(_) => match canonical_zone {
            Some(z) => Some(z),
            None => return Err(text("Unknown IANA timezone")),
        },
        None => None,
    };
    let instant = match scheduled_for {
        None => None,
        Some(None) => Some(None),
        Some(Some(_)) => match canonical_instant {
            Some(t) => Some(Some(t)),
            None => return Err(text("Invalid scheduled_for timestamp")),
        },
    };
    Ok(
        ValidatedFields {
            expression,
            prompt,
            conversation_id,
            timezone: zone,
            recurring,
            scheduled_for: instant,
        },
    )
}

// ── Identifiers ─────────────────────────────────────────────────────────────

/// Lower-case hexadecimal digit of `d < 16`.
pub open spec fn hex_digit(d: nat) -> char {
    if d < 10 {
        crate::text::digit_char(d)
    } else if d == 10 { 'a' }
    else if d == 11 { 'b' }
    else if d == 12 { 'c' }
    else if d == 13 { 'd' }
    else if d == 14 { 'e' }
    else { 'f' }
}

/// Two lower-case hex digits per byte, high nibble first.
pub open spec fn hex_text(b: Seq<u8>) -> Seq<char>
    decreases b.len(),
{
    if b.len() == 0 {
        Seq::empty()
    } else {
        hex_text(b.drop_last()) + seq![hex_digit((b.last() / 16) as nat), hex_digit((b.last() % 16) as nat)]
    }
}

fn hex(d: u8) -> (c: char)
    requires
        d < 16,
    ensures
        c == hex_digit(d as nat),
{
    if d == 0 { '0' }
    else if d == 1 { '1' }
    else if d == 2 { '2' }
    else if d == 3 { '3' }
    else if d == 4 { '4' }
    else if d == 5 { '5' }
    else if d == 6 { '6' }
    else if d == 7 { '7' }
    else if d == 8 { '8' }
    else if d == 9 { '9' }
    else if d == 10 { 'a' }
    else if d == 11 { 'b' }
    else if d == 12 { 'c' }
    else if d == 13 { 'd' }
    else if d == 14 { 'e' }
    else { 'f' }
}

/// Hexadecimal rendering of bytes.
pub fn hex_encode(bytes: &Vec<u8>) -> (r: String)
    ensures
        r@ == hex_text(bytes@),
{
    let mut v: Vec<char> = Vec::new();
    let mut i: usize = 0;
    while i < bytes.len()
        invariant
            i <= bytes@.len(),
            v@ == hex_text(bytes@.subrange(0, i as int)),
        decreases bytes@.len() - i,
    {
        let b = bytes[i];
        v.push(hex(b / 16));
        v.push(hex(b % 16));
        proof {
            let s = bytes@.subrange(0, i + 1);
            assert(s.drop_last() =~= bytes@.subrange(0, i as int));
            assert(s.last() == b);
            assert(v@ =~= hex_text(s));
        }
        i = i + 1;
    }
    proof {
        assert(bytes@.subrange(0, bytes@.len() as int) =~= bytes@);
    }
    string_from(&v)
}

/// Draws `SCHEDULE_ID_BYTES_MAX` bytes from the system's random source with
/// `getrandom::fill`; `None` when the source fails. Of the bytes nothing is
/// known but their number.
#[verifier::external_body]
fn random_bytes() -> (r: Option<Vec<u8>>)
    ensures
        r matches Some(b) ==> b@.len() == SCHEDULE_ID_BYTES_MAX,
{
    let mut bytes = [0u8; SCHEDULE_ID_BYTES_MAX];
    match getrandom::fill(&mut bytes) {
        Ok(()) => Some(bytes.to_vec()),
        Err(_) => None,
    }
}

/// A fresh eight-character lower-case hex schedule identifier, or `None`
/// when no randomness is available.
pub fn random_schedule_id() -> (r: Option<String>)
    ensures
        r matches Some(id) ==> exists|b: Seq<u8>| b.len() == SCHEDULE_ID_BYTES_MAX && id@ == hex_text(b),
{
    match random_bytes() {
        Some(b) => {
            let id = hex_encode(&b);
            proof {
                assert(b@.len() == SCHEDULE_ID_BYTES_MAX && id@ == hex_text(b@));
            }
            Some(id)
        },
        None => None,
    }
}


// ── Commands ────────────────────────────────────────────────────────────────

/// `cron_list` payload.
#[derive(Debug)]
pub struct CronListCommand {
    pub request_id: String,
    pub agent_id: Option<String>,
    pub conversation_id: Option<String>,
}

/// `cron_add` payload.
#[derive(Debug)]
pub struct CronAddCommand {
    pub request_id: String,
    pub agent_id: String,
    pub conversation_id: Option<String>,
    pub name: String,
    pub description: String,
    pub cron: String,
    pub timezone: Option<String>,
    pub recurring: bool,
    pub prompt: String,
    pub scheduled_for: Option<Option<String>>,
}

/// `cron_get` payload.
#[derive(Debug)]
pub struct CronGetCommand {
    pub request_id: String,
    pub task_id: String,
}

/// `cron_runs` payload.
#[derive(Debug)]
pub struct CronRunsCommand {
    pub request_id: String,
    pub task_id: String,
    pub limit: Option<usize>,
    pub offset: Option<usize>,
    pub run_id: Option<String>,
}

/// `cron_trigger` payload.
#[derive(Debug)]
pub struct CronTriggerCommand {
    pub request_id: String,
    pub task_id: String,
}

/// `cron_update` payload.
#[derive(Debug)]
pub struct CronUpdateCommand {
    pub request_id: String,
    pub task_id: String,
    pub name: Option<String>,
    pub description: Option<String>,
    pub conversation_id: Option<String>,
    pub cron: Option<String>,
    pub timezone: Option<String>,
    pub recurring: Option<bool>,
    pub prompt: Option<String>,
    pub scheduled_for: Option<Option<String>>,
}

/// `cron_delete` payload.
#[derive(Debug)]
pub struct CronDeleteCommand {
    pub request_id: String,
    pub task_id: String,
}

/// `cron_delete_all` payload.
#[derive(Debug)]
pub struct CronDeleteAllCommand {
    pub request_id: String,
    pub agent_id: String,
}

/// The eight schedules group commands.
#[derive(Debug)]
pub enum SchedulesCommand {
    List(CronListCommand),
    Add(CronAddCommand),
    Get(CronGetCommand),
    Runs(CronRunsCommand),
    Trigger(CronTriggerCommand),
    Update(CronUpdateCommand),
    Delete(CronDeleteCommand),
    DeleteAll(CronDeleteAllCommand),
}

/// The fields an add supplies for validation.
pub fn add_inputs(command: &CronAddCommand) -> (i: FieldInputs)
    ensures
        ov(i.cron) == Some(command.cron@),
        ov(i.prompt) == Some(command.prompt@),
        ov(i.conversation_id) == ov(command.conversation_id),
        ov(i.timezone) == ov(command.timezone),
        i.recurring is None,
        match command.scheduled_for {
            None => i.scheduled_for is None,
            Some(inner) => i.scheduled_for matches Some(x) && ov(x) == ov(inner),
        },
{
    FieldInputs {
        cron: Some(copy_string(command.cron.as_str())),
        prompt: Some(copy_string(command.prompt.as_str())),
        conversation_id: copy_opt(&command.conversation_id),
        timezone: copy_opt(&command.timezone),
        recurring: None,
        scheduled_for: match &command.scheduled_for {
            None => None,
            Some(inner) => Some(copy_opt(inner)),
        },
    }
}

/// The fields an update supplies for validation.
pub fn update_inputs(command: &CronUpdateCommand) -> (i: FieldInputs)
    ensures
        ov(i.cron) == ov(command.cron),
        ov(i.prompt) == ov(command.prompt),
        ov(i.conversation_id) == ov(command.conversation_id),
        ov(i.timezone) == ov(command.timezone),
        i.recurring == command.recurring,
        match command.scheduled_for {
            None => i.scheduled_for is None,
            Some(inner) => i.scheduled_for matches Some(x) && ov(x) == ov(inner),
        },
{
    FieldInputs {
        cron: copy_opt(&command.cron),
        prompt: copy_opt(&command.prompt),
        conversation_id: copy_opt(&command.conversation_id),
        timezone: copy_opt(&command.timezone),
        recurring: command.recurring,
        scheduled_for: match &command.scheduled_for {
            None => None,
            Some(inner) => Some(copy_opt(inner)),
        },
    }
}

/// The replacement fields of an update: its name and description with the
/// validated fields.
pub fn update_fields(command: &CronUpdateCommand, fields: ValidatedFields) -> (u: ScheduleUpdate)
    ensures
        ov(u.name) == ov(command.name),
        ov(u.description) == ov(command.description),
        ov(u.conversation_id) == ov(fields.conversation_id),
        u.cron is Some <==> fields.expression is Some,
        fields.expression matches Some(x) ==> ov(u.cron) == Some(x.cron@),
        ov(u.timezone) == ov(fields.timezone),
        u.recurring == fields.recurring,
        ov(u.prompt) == ov(fields.prompt),
        u.scheduled_for == fields.scheduled_for,
{
    ScheduleUpdate {
        name: copy_opt(&command.name),
        description: copy_opt(&command.description),
        conversation_id: fields.conversation_id,
        cron: match fields.expression {
            Some(x) => Some(x.cron),
            None => None,
        },
        timezone: fields.timezone,
        recurring: fields.recurring,
        prompt: fields.prompt,
        scheduled_for: fields.scheduled_for,
    }
}

/// The draft an add creates from validated fields: the agent must be
/// accepted (`agent_accepted`, the runtime's verdict), the conversation
/// defaults to `new`, the time zone to `UTC`, the status is `active`, and
/// `id` is the drawn identifier (`None` when none could be drawn), and the
/// bookkeeping starts fresh at `now`.
pub fn prepare_draft(
    command: &CronAddCommand,
    fields: ValidatedFields,
    agent_accepted: bool,
    id: Option<String>,
    now: &str,
) -> (r: Result<ScheduleRecord, String>)
    ensures
        !agent_accepted ==> (r matches Err(e) && e@ == invalid_agent()),
        agent_accepted && fields.prompt is None ==> (r matches Err(e) && e@ == invalid_prompt()),
        agent_accepted && fields.prompt is Some && fields.expression is None ==> (r matches Err(e)
            && e@ == invalid_expression_text(command.cron@)),
        agent_accepted && fields.prompt is Some && fields.expression is Some && id is None ==> (
        r matches Err(e) && e@ == add_failure()),
        agent_accepted && fields.prompt is Some && fields.expression is Some && id is Some ==> r is Ok,
        r matches Ok(t) ==> {
            &&& agent_accepted
            &&& id matches Some(i) && t.id@ == i@
            &&& t.agent_id@ == command.agent_id@
            &&& t.conversation_id@ == or_text(fields.conversation_id, "new"@)
            &&& t.name@ == command.name@
            &&& t.description@ == command.description@
            &&& fields.expression matches Some(x) && t.cron@ == x.cron@
            &&& t.timezone@ == or_text(fields.timezone, "UTC"@)
            &&& t.recurring == command.recurring
            &&& ov(fields.prompt) == Some(t.prompt@)
            &&& t.status@ == "active"@
            &&& ov(t.scheduled_for) == match fields.scheduled_for {
                Some(Some(v)) => Some(v@),
                _ => None,
            }
            &&& lifecycle(t.lifecycle) == fresh_lifecycle(now@)
        },
{
    if !agent_accepted {
        return Err(text("Invalid agent_id"));
    }
    let conversation = match fields.conversation_id {
        Some(c) => c,
        None => text("new"),
    };
    let prompt = match fields.prompt {
        Some(p) => p,
        None => return Err(text("Schedule prompt cannot be empty")),
    };
    let expression = match fields.expression {
        Some(x) => x,
        None => return Err(invalid_expression(command.cron.as_str())),
    };
    let timezone = match fields.timezone {
        Some(z) => z,
        None => text("UTC"),
    };
    let scheduled_for = match fields.scheduled_for {
        Some(Some(v)) => Some(v),
        _ => None,
    };
    let id = match id {
        Some(i) => i,
        None => return Err(text("Failed to add cron")),
    };
    Ok(
        ScheduleRecord {
            id,
            agent_id: copy_string(command.agent_id.as_str()),
            conversation_id: conversation,
            name: copy_string(command.name.as_str()),
            description: copy_string(command.description.as_str()),
            cron: expression.cron,
            timezone,
            recurring: command.recurring,
            prompt,
            status: text("active"),
            scheduled_for,
            lifecycle: ScheduleLifecycle {
                created_at: copy_string(now),
                expires_at: None,
                last_fired_at: None,
                fire_count: 0,
                cancel_reason: None,
                jitter_offset_ms: 0,
                last_run_at: None,
                last_run_outcome: None,
                last_run_reason: None,
                last_run_error: None,
                last_missed_at: None,
                missed_count: 0,
                failed_count: 0,
                fired_at: None,
                missed_at: None,
            },
        },
    )
}

// ── Messages ────────────────────────────────────────────────────────────────

#[derive(Debug)]
pub struct CronListResponseMessage {
    pub request_id: String,
    pub tasks: Vec<ScheduleRecord>,
    pub success: bool,
    pub error: Option<String>,
}

#[derive(Debug)]
pub struct CronAddResponseMessage {
    pub request_id: String,
    pub success: bool,
    pub task: Option<ScheduleRecord>,
    pub warning: Option<String>,
    pub error: Option<String>,
}

#[derive(Debug)]
pub struct CronGetResponseMessage {
    pub request_id: String,
    pub success: bool,
    pub found: bool,
    pub task: Option<ScheduleRecord>,
    pub error: Option<String>,
}

#[derive(Debug)]
pub struct CronRunsResponseMessage {
    pub request_id: String,
    pub success: bool,
    pub page: Option<RunsPage>,
    pub error: Option<String>,
}

#[derive(Debug)]
pub struct CronTriggerResponseMessage {
    pub request_id: String,
    pub success: bool,
    pub found: bool,
    pub task: Option<ScheduleRecord>,
    pub error: Option<String>,
}

#[derive(Debug)]
pub struct CronUpdateResponseMessage {
    pub request_id: String,
    pub success: bool,
    pub task: Option<ScheduleRecord>,
    pub error: Option<String>,
}

#[derive(Debug)]
pub struct CronDeleteResponseMessage {
    pub request_id: String,
    pub success: bool,
    pub found: bool,
    pub error: Option<String>,
}

#[derive(Debug)]
pub struct CronDeleteAllResponseMessage {
    pub request_id: String,
    pub success: bool,
    pub agent_id: String,
    pub deleted: u64,
    pub error: Option<String>,
}

/// `crons_updated` notice; `conversation_id` is absent, null or a value.
#[derive(Debug)]
pub struct CronsUpdatedMessage {
    pub timestamp: i64,
    pub agent_id: Option<String>,
    pub conversation_id: Option<Option<String>>,
}

/// The nine outbound schedules group messages.
#[derive(Debug)]
pub enum SchedulesMessage {
    ListResponse(CronListResponseMessage),
    AddResponse(CronAddResponseMessage),
    GetResponse(CronGetResponseMessage),
    RunsResponse(CronRunsResponseMessage),
    TriggerResponse(CronTriggerResponseMessage),
    UpdateResponse(CronUpdateResponseMessage),
    DeleteResponse(CronDeleteResponseMessage),
    DeleteAllResponse(CronDeleteAllResponseMessage),
    Updated(CronsUpdatedMessage),
}

/// The `crons_updated` notice of a mutation of one schedule.
pub open spec fn notice_of(m: SchedulesMessage, t: Sched, now_ms: i64) -> bool {
    m matches SchedulesMessage::Updated(u) && u.timestamp == now_ms && ov(u.agent_id) == Some(
        t.agent_id,
    ) && (u.conversation_id matches Some(Some(c)) && c@ == t.conversation_id)
}

fn notice(t: &ScheduleRecord, now_ms: i64) -> (m: SchedulesMessage)
    ensures
        notice_of(m, sched(*t), now_ms),
{
    SchedulesMessage::Updated(
        CronsUpdatedMessage {
            timestamp: now_ms,
            agent_id: Some(copy_string(t.agent_id.as_str())),
            conversation_id: Some(Some(copy_string(t.conversation_id.as_str()))),
        },
    )
}

/// Answer to `cron_list`: `Err(())` when the store could not be read,
/// `Ok(None)` when no schedule file exists yet, else the filtered schedules.
pub fn list_answer(command: &CronListCommand, loaded: Result<Option<&Vec<ScheduleRecord>>, ()>) -> (m:
    SchedulesMessage)
    ensures
        m matches SchedulesMessage::ListResponse(r) && r.request_id@ == command.request_id@ && match loaded {
            Err(()) => !r.success && r.tasks@.len() == 0 && ov(r.error) == Some(list_failure()),
            Ok(None) => r.success && r.tasks@.len() == 0 && r.error is None,
            Ok(Some(tasks)) => r.success && r.error is None && scheds(r.tasks@) == listed_tasks(
                scheds(tasks@),
                ov(command.agent_id),
                ov(command.conversation_id),
            ),
        },
{
    let agent = match &command.agent_id {
        Some(a) => Some(a.as_str()),
        None => None,
    };
    let conversation = match &command.conversation_id {
        Some(c) => Some(c.as_str()),
        None => None,
    };
    let (tasks, success, error) = match loaded {
        Err(()) => (Vec::new(), false, Some(text("Failed to list crons"))),
        Ok(None) => (Vec::new(), true, None),
        Ok(Some(all)) => (list_tasks(all, agent, conversation), true, None),
    };
    SchedulesMessage::ListResponse(
        CronListResponseMessage {
            request_id: copy_string(command.request_id.as_str()),
            tasks,
            success,
            error,
        },
    )
}

/// Answer to `cron_get` from the lookup: the schedule when found, a
/// successful miss otherwise, the failure detail when the store failed.
pub fn get_answer(command: &CronGetCommand, found: Result<Option<ScheduleRecord>, String>) -> (m:
    SchedulesMessage)
    ensures
        m matches SchedulesMessage::GetResponse(r) && r.request_id@ == command.request_id@ && match found {
            Ok(Some(t)) => r.success && r.found && r.task == Some(t) && r.error is None,
            Ok(None) => r.success && !r.found && r.task is None && r.error is None,
            Err(e) => !r.success && !r.found && r.task is None && ov(r.error) == Some(e@),
        },
{
    let (success, is_found, task, error) = match found {
        Ok(Some(t)) => (true, true, Some(t), None),
        Ok(None) => (true, false, None, None),
        Err(e) => (false, false, None, Some(e)),
    };
    SchedulesMessage::GetResponse(
        CronGetResponseMessage {
            request_id: copy_string(command.request_id.as_str()),
            success,
            found: is_found,
            task,
            error,
        },
    )
}

/// Answer to `cron_runs`: the page, or the runs failure when the log could
/// not be read.
pub fn runs_answer(command: &CronRunsCommand, page: Result<RunsPage, ()>) -> (m: SchedulesMessage)
    ensures
        m matches SchedulesMessage::RunsResponse(r) && r.request_id@ == command.request_id@ && match page {
            Ok(p) => r.success && r.page == Some(p) && r.error is None,
            Err(()) => !r.success && r.page is None && ov(r.error) == Some(runs_failure()),
        },
{
    let (success, page, error) = match page {
        Ok(p) => (true, Some(p), None),
        Err(()) => (false, None, Some(text("Failed to list cron run history"))),
    };
    SchedulesMessage::RunsResponse(
        CronRunsResponseMessage {
            request_id: copy_string(command.request_id.as_str()),
            success,
            page,
            error,
        },
    )
}

/// Refusal of an add.
pub fn add_rejected(command: &CronAddCommand, message: String) -> (m: SchedulesMessage)
    ensures
        m matches SchedulesMessage::AddResponse(r) && r.request_id@ == command.request_id@ && !r.success
            && r.task is None && r.warning is None && ov(r.error) == Some(message@),
{
    SchedulesMessage::AddResponse(
        CronAddResponseMessage {
            request_id: copy_string(command.request_id.as_str()),
            success: false,
            task: None,
            warning: None,
            error: Some(message),
        },
    )
}

/// Answer to `cron_add` from the insert: the stored schedule with the
/// expression's warning, then a notice; or the refusal.
pub fn add_answer(
    command: &CronAddCommand,
    inserted: Result<ScheduleRecord, String>,
    warning: Option<String>,
    now_ms: i64,
) -> (msgs: Vec<SchedulesMessage>)
    ensures
        msgs@.len() == if inserted is Ok { 2int } else { 1int },
        msgs@[0] matches SchedulesMessage::AddResponse(r) && r.request_id@ == command.request_id@ && match inserted {
            Ok(t) => r.success && (r.task matches Some(x) && sched(x) == sched(t)) && ov(r.warning) == ov(warning)
                && r.error is None,
            Err(e) => !r.success && r.task is None && r.warning is None && ov(r.error) == Some(e@),
        },
        inserted matches Ok(t) ==> notice_of(msgs@[1], sched(t), now_ms),
{
    let mut msgs: Vec<SchedulesMessage> = Vec::new();
    match inserted {
        Ok(t) => {
            let n = notice(&t, now_ms);
            msgs.push(
                SchedulesMessage::AddResponse(
                    CronAddResponseMessage {
                        request_id: copy_string(command.request_id.as_str()),
                        success: true,
                        task: Some(t),
                        warning,
                        error: None,
                    },
                ),
            );
            msgs.push(n);
        },
        Err(e) => msgs.push(add_rejected(command, e)),
    }
    msgs
}

/// Answer to `cron_update` from the mutation: the updated schedule then a
/// notice; a missing target answers `Cron task not found`; a store failure
/// its detail.
pub fn update_answer(command: &CronUpdateCommand, updated: Result<Option<ScheduleRecord>, String>, now_ms: i64)
    -> (msgs: Vec<SchedulesMessage>)
    ensures
        msgs@.len() == if updated matches Ok(Some(_)) { 2int } else { 1int },
        msgs@[0] matches SchedulesMessage::UpdateResponse(r) && r.request_id@ == command.request_id@ && match updated {
            Ok(Some(t)) => r.success && (r.task matches Some(x) && sched(x) == sched(t)) && r.error is None,
            Ok(None) => !r.success && r.task is None && ov(r.error) == Some(update_not_found()),
            Err(e) => !r.success && r.task is None && ov(r.error) == Some(e@),
        },
        updated matches Ok(Some(t)) ==> notice_of(msgs@[1], sched(t), now_ms),
{
    let mut msgs: Vec<SchedulesMessage> = Vec::new();
    let rid = copy_string(command.request_id.as_str());
    match updated {
        Ok(Some(t)) => {
            let n = notice(&t, now_ms);
            msgs.push(
                SchedulesMessage::UpdateResponse(
                    CronUpdateResponseMessage { request_id: rid, success: true, task: Some(t), error: None },
                ),
            );
            msgs.push(n);
        },
        Ok(None) => msgs.push(
            SchedulesMessage::UpdateResponse(
                CronUpdateResponseMessage {
                    request_id: rid,
                    success: false,
                    task: None,
                    error: Some(text("Cron task not found")),
                },
            ),
        ),
        Err(e) => msgs.push(
            SchedulesMessage::UpdateResponse(
                CronUpdateResponseMessage { request_id: rid, success: false, task: None, error: Some(e) },
            ),
        ),
    }
    msgs
}

/// Answer to `cron_delete`: a removal succeeds with `found` then a notice, a
/// miss succeeds without one, a store failure answers its detail.
pub fn delete_answer(command: &CronDeleteCommand, removed: Result<Option<ScheduleRecord>, String>, now_ms: i64)
    -> (msgs: Vec<SchedulesMessage>)
    ensures
        msgs@.len() == if removed matches Ok(Some(_)) { 2int } else { 1int },
        msgs@[0] matches SchedulesMessage::DeleteResponse(r) && r.request_id@ == command.request_id@ && match removed {
            Ok(Some(_)) => r.success && r.found && r.error is None,
            Ok(None) => r.success && !r.found && r.error is None,
            Err(e) => !r.success && !r.found && ov(r.error) == Some(e@),
        },
        removed matches Ok(Some(t)) ==> notice_of(msgs@[1], sched(t), now_ms),
{
    let mut msgs: Vec<SchedulesMessage> = Vec::new();
    let rid = copy_string(command.request_id.as_str());
    match removed {
        Ok(Some(t)) => {
            msgs.push(
                SchedulesMessage::DeleteResponse(
                    CronDeleteResponseMessage { request_id: rid, success: true, found: true, error: None },
                ),
            );
            msgs.push(notice(&t, now_ms));
        },
        Ok(None) => msgs.push(
            SchedulesMessage::DeleteResponse(
                CronDeleteResponseMessage { request_id: rid, success: true, found: false, error: None },
            ),
        ),
        Err(e) => msgs.push(
            SchedulesMessage::DeleteResponse(
                CronDeleteResponseMessage { request_id: rid, success: false, found: false, error: Some(e) },
            ),
        ),
    }
    msgs
}

/// Answer to `cron_delete_all`: the count removed, then an agent-wide
/// notice only when something went; any failure answers the delete failure
/// with a count of zero.
pub fn delete_all_answer(command: &CronDeleteAllCommand, deleted: Result<u64, ()>, now_ms: i64) -> (msgs: Vec<
    SchedulesMessage,
>)
    ensures
        msgs@.len() == if deleted matches Ok(n) && n > 0 { 2int } else { 1int },
        msgs@[0] matches SchedulesMessage::DeleteAllResponse(r) && r.request_id@ == command.request_id@
            && r.agent_id@ == command.agent_id@ && match deleted {
            Ok(n) => r.success && r.deleted == n && r.error is None,
            Err(()) => !r.success && r.deleted == 0 && ov(r.error) == Some(delete_failure()),
        },
        (deleted matches Ok(n) && n > 0) ==> (msgs@[1] matches SchedulesMessage::Updated(u) && u.timestamp
            == now_ms && ov(u.agent_id) == Some(command.agent_id@) && u.conversation_id is None),
{
    let mut msgs: Vec<SchedulesMessage> = Vec::new();
    match deleted {
        Ok(n) => {
            msgs.push(
                SchedulesMessage::DeleteAllResponse(
                    CronDeleteAllResponseMessage {
                        request_id: copy_string(command.request_id.as_str()),
                        success: true,
                        agent_id: copy_string(command.agent_id.as_str()),
                        deleted: n,
                        error: None,
                    },
                ),
            );
            if n > 0 {
                msgs.push(
                    SchedulesMessage::Updated(
                        CronsUpdatedMessage {
                            timestamp: now_ms,
                            agent_id: Some(copy_string(command.agent_id.as_str())),
                            conversation_id: None,
                        },
                    ),
                );
            }
        },
        Err(()) => msgs.push(
            SchedulesMessage::DeleteAllResponse(
                CronDeleteAllResponseMessage {
                    request_id: copy_string(command.request_id.as_str()),
                    success: false,
                    agent_id: copy_string(command.agent_id.as_str()),
                    deleted: 0,
                    error: Some(text("Failed to delete cron")),
                },
            ),
        ),
    }
    msgs
}

/// What the scheduler reported of a manual fire.
#[derive(Clone, Copy, Debug, PartialEq, Eq)]
pub struct TriggerOutcome {
    pub found: bool,
    pub active: bool,
}

/// Answer to `cron_trigger` from the scheduler's outcome (`Err(())` when it
/// failed) and the schedule reloaded afterwards: a missing schedule answers
/// `Schedule not found`, an inactive one `Schedule is not active`; a fire
/// succeeds. A trigger emits no notice.
pub fn trigger_answer(command: &CronTriggerCommand, outcome: Result<TriggerOutcome, ()>, reloaded: Option<
    ScheduleRecord,
>) -> (m: SchedulesMessage)
    ensures
        m matches SchedulesMessage::TriggerResponse(r) && r.request_id@ == command.request_id@ && match outcome {
            Err(()) => !r.success && !r.found && r.task is None && ov(r.error) == Some(trigger_failure()),
            Ok(o) => if !o.found {
                !r.success && !r.found && r.task is None && ov(r.error) == Some(trigger_not_found())
            } else if !o.active {
                !r.success && r.found && r.task == reloaded && ov(r.error) == Some(trigger_inactive())
            } else {
                r.success && r.found && r.task == reloaded && r.error is None
            },
        },
{
    let rid = copy_string(command.request_id.as_str());
    let (success, found, task, error) = match outcome {
        Err(()) => (false, false, None, Some(text("Failed to trigger cron"))),
        Ok(o) => if !o.found {
            (false, false, None, Some(text("Schedule not found")))
        } else if !o.active {
            (false, true, reloaded, Some(text("Schedule is not active")))
        } else {
            (true, true, reloaded, None)
        },
    };
    SchedulesMessage::TriggerResponse(CronTriggerResponseMessage { request_id: rid, success, found, task, error })
}

} // verus!
