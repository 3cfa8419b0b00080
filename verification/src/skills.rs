//! Skills group: the runtime's selected skill sources and the decisions
//! behind `skill_enable` / `skill_disable`.
//!
//! The host observes the filesystem (whether a path exists, whether it holds
//! `SKILL.md`, what sits at the link location) and performs the link and
//! unlink itself; this module decides from those observations what is done
//! and what is answered.

use crate::text::{copy_string, same_text};
use vstd::prelude::*;

verus! {

// ── Selection ───────────────────────────────────────────────────────────────

/// Identifiers selected for subsequent turns, in selection order, each once.
pub struct SkillSelection {
    ids: Vec<String>,
}

/// Text values of a list of strings.
pub open spec fn texts(v: Seq<String>) -> Seq<Seq<char>> {
    v.map_values(|s: String| s@)
}

/// Selection after adding `id`: appended unless already present.
pub open spec fn added(sel: Seq<Seq<char>>, id: Seq<char>) -> Seq<Seq<char>> {
    if sel.contains(id) {
        sel
    } else {
        sel.push(id)
    }
}

/// Selection after removing `id`: every occurrence dropped, order kept.
pub open spec fn removed(sel: Seq<Seq<char>>, id: Seq<char>) -> Seq<Seq<char>>
    decreases sel.len(),
{
    if sel.len() == 0 {
        sel
    } else if sel.last() == id {
        removed(sel.drop_last(), id)
    } else {
        removed(sel.drop_last(), id).push(sel.last())
    }
}

/// Removing an absent value changes nothing.
proof fn lemma_remove_absent(s: Seq<Seq<char>>, id: Seq<char>)
    requires
        !s.contains(id),
    ensures
        removed(s, id) == s,
    decreases s.len(),
{
    if s.len() > 0 {
        assert(!s.drop_last().contains(id)) by {
            if s.drop_last().contains(id) {
                let k = choose|k: int| 0 <= k < s.drop_last().len() && s.drop_last()[k] == id;
                assert(s[k] == id);
            }
        }
        lemma_remove_absent(s.drop_last(), id);
        assert(s.last() != id) by {
            assert(s[s.len() - 1] == s.last());
        }
        assert(s.drop_last().push(s.last()) =~= s);
    }
}

impl SkillSelection {
    /// Selected identifiers.
    pub closed spec fn view(&self) -> Seq<Seq<char>> {
        texts(self.ids@)
    }

    /// No identifier is selected twice.
    pub open spec fn wf(&self) -> bool {
        self.view().no_duplicates()
    }

    /// Empty selection.
    pub fn new() -> (s: Self)
        ensures
            s.view() == Seq::<Seq<char>>::empty(),
            s.wf(),
    {
        let s = SkillSelection { ids: Vec::new() };
        assert(s.view() =~= Seq::<Seq<char>>::empty());
        s
    }

    fn position(&self, id: &str) -> (r: Option<usize>)
        ensures
            match r {
                Some(i) => i < self.view().len() && self.view()[i as int] == id@,
                None => !self.view().contains(id@),
            },
    {
        let mut i: usize = 0;
        while i < self.ids.len()
            invariant
                i <= self.ids@.len(),
                forall|k: int| 0 <= k < i ==> self.view()[k] != id@,
            decreases self.ids@.len() - i,
        {
            if same_text(self.ids[i].as_str(), id) {
                return Some(i);
            }
            i = i + 1;
        }
        None
    }

    /// Adds one identifier unless already selected.
    pub fn add(&mut self, id: &str)
        requires
            old(self).wf(),
        ensures
            final(self).wf(),
            final(self).view() == added(old(self).view(), id@),
    {
        if self.position(id).is_none() {
            self.ids.push(copy_string(id));
            proof {
                assert(self.view() =~= old(self).view().push(id@));
            }
        }
    }

    /// Removes one identifier, reporting whether it was selected.
    pub fn remove(&mut self, id: &str) -> (b: bool)
        requires
            old(self).wf(),
        ensures
            final(self).wf(),
            b == old(self).view().contains(id@),
            final(self).view() == removed(old(self).view(), id@),
    {
        let ghost before = self.view();
        match self.position(id) {
            None => {
                proof {
                    lemma_remove_absent(before, id@);
                }
                false
            },
            Some(p) => {
                self.ids.remove(p);
                proof {
                    assert(self.view() =~= before.remove(p as int));
                    lemma_remove_unique(before, p as int);
                }
                true
            },
        }
    }

    /// Selected identifiers in selection order.
    pub fn ids(&self) -> (r: Vec<String>)
        ensures
            texts(r@) == self.view(),
    {
        let mut r: Vec<String> = Vec::new();
        let mut i: usize = 0;
        while i < self.ids.len()
            invariant
                i <= self.ids@.len(),
                texts(r@) == self.view().subrange(0, i as int),
            decreases self.ids@.len() - i,
        {
            let ghost prev = r@;
            r.push(copy_string(self.ids[i].as_str()));
            proof {
                assert(texts(r@) =~= texts(prev).push(self.ids@[i as int]@));
                assert(self.view()[i as int] == self.ids@[i as int]@);
                assert(texts(r@) =~= self.view().subrange(0, i + 1));
            }
            i = i + 1;
        }
        proof {
            assert(self.view().subrange(0, self.ids@.len() as int) =~= self.view());
        }
        r
    }
}

/// Removing the only occurrence of a value drops it from a duplicate-free
/// sequence and keeps it duplicate-free.
proof fn lemma_remove_unique(s: Seq<Seq<char>>, p: int)
    requires
        s.no_duplicates(),
        0 <= p < s.len(),
    ensures
        s.remove(p) == removed(s, s[p]),
        s.remove(p).no_duplicates(),
    decreases s.len(),
{
    let id = s[p];
    if p == s.len() - 1 {
        assert(s.remove(p) =~= s.drop_last());
        assert(!s.drop_last().contains(id)) by {
            if s.drop_last().contains(id) {
                let k = choose|k: int| 0 <= k < s.drop_last().len() && s.drop_last()[k] == id;
                assert(s[k] == s[p]);
            }
        }
        lemma_remove_absent(s.drop_last(), id);
    } else {
        assert(s.drop_last().no_duplicates());
        assert(s.drop_last()[p] == id);
        lemma_remove_unique(s.drop_last(), p);
        assert(s.remove(p) =~= s.drop_last().remove(p).push(s.last()));
        assert(s.last() != id) by {
            assert(s[s.len() - 1] == s.last());
        }
        let t = s.remove(p);
        assert forall|a: int, b: int| 0 <= a < t.len() && 0 <= b < t.len() && a != b implies t[a]
            != t[b] by {
            let ia = if a < p { a } else { a + 1 };
            let ib = if b < p { b } else { b + 1 };
            assert(t[a] == s[ia]);
            assert(t[b] == s[ib]);
        }
    }
}

/// Adding twice selects the same as adding once.
pub proof fn law_add_idempotent(sel: Seq<Seq<char>>, id: Seq<char>)
    ensures
        added(added(sel, id), id) == added(sel, id),
{
    if !sel.contains(id) {
        assert(sel.push(id).contains(id)) by {
            assert(sel.push(id)[sel.len() as int] == id);
        }
    }
}

/// Removing what was just added restores a selection that lacked it.
pub proof fn law_remove_undoes_add(sel: Seq<Seq<char>>, id: Seq<char>)
    requires
        !sel.contains(id),
    ensures
        removed(added(sel, id), id) == sel,
{
    assert(sel.push(id).drop_last() =~= sel);
    lemma_remove_absent(sel, id);
}

// ── Enable / disable decisions ──────────────────────────────────────────────

/// What the host found at a link location inside the global skills directory.
#[derive(Clone, Copy, Debug, PartialEq, Eq)]
pub enum LinkEntry {
    /// Nothing there.
    Absent,
    /// A symbolic link.
    Symlink,
    /// A file or directory that is not a link.
    Other,
    /// The entry could not be inspected.
    Unreadable,
}

/// What the host does at the link location before linking.
#[derive(Clone, Copy, Debug, PartialEq, Eq)]
pub enum LinkStep {
    /// Create the link.
    Create,
    /// Remove the old link, then create the new one.
    Replace,
}

/// Detail of an enable whose path is missing or has no name.
pub open spec fn path_missing_text(path: Seq<char>) -> Seq<char> {
    "Path does not exist: "@ + path
}

/// Detail of an enable whose directory lacks a manifest.
pub open spec fn manifest_missing_text(path: Seq<char>) -> Seq<char> {
    "No SKILL.md found in "@ + path
}

/// Detail of an enable whose link location holds something else.
pub open spec fn link_conflict_text(link: Seq<char>) -> Seq<char> {
    link + " already exists and is not a symlink — refusing to overwrite"@
}

/// Detail of a disable naming no entry.
pub open spec fn not_found_text(name: Seq<char>) -> Seq<char> {
    "Skill not found: "@ + name
}

/// Detail of a disable naming an entry that is not a link.
pub open spec fn not_symlink_text(name: Seq<char>) -> Seq<char> {
    name + " is not a symlink — refusing to delete. Remove it manually if intended."@
}

/// Detail of an enable whose global skills directory cannot be created.
pub open spec fn skills_dir_failure_text() -> Seq<char> {
    "Failed to enable skill: global skills directory"@
}

/// Catch-all detail of failed enables.
pub open spec fn enable_failure_text() -> Seq<char> {
    "Failed to enable skill"@
}

/// Catch-all detail of failed disables.
pub open spec fn disable_failure_text() -> Seq<char> {
    "Failed to disable skill"@
}

/// Link location of a skill name inside a directory, as `Path::join` forms
/// it for a plain name.
pub open spec fn link_path_spec(dir: Seq<char>, name: Seq<char>) -> Seq<char> {
    if dir.len() == 0 {
        name
    } else if dir.last() == '/' {
        dir + name
    } else {
        dir + seq!['/'] + name
    }
}

/// Executable [`link_path_spec`].
pub fn link_path(dir: &str, name: &str) -> (r: String)
    ensures
        r@ == link_path_spec(dir@, name@),
{
    let d = crate::text::chars_of(dir);
    let mut r = copy_string(dir);
    if d.len() == 0 {
        return copy_string(name);
    }
    if d[d.len() - 1] != '/' {
        r.append("/");
        proof {
            reveal_strlit("/");
        }
    }
    r.append(name);
    r
}

/// Enable checks before any filesystem change, in order: the path exists,
/// it holds `SKILL.md`, it has a final name. Success yields that name.
pub fn enable_precheck(skill_path: &str, path_exists: bool, manifest_exists: bool, file_name: Option<&str>)
    -> (r: Result<String, String>)
    ensures
        match r {
            Ok(n) => path_exists && manifest_exists && crate::settings::opt_view(file_name) == Some(n@),
            Err(e) => if !path_exists {
                e@ == path_missing_text(skill_path@)
            } else if !manifest_exists {
                e@ == manifest_missing_text(skill_path@)
            } else {
                file_name is None && e@ == path_missing_text(skill_path@)
            },
        },
        (path_exists && manifest_exists && file_name is Some) ==> r is Ok,
{
    if !path_exists {
        let mut e = copy_string("Path does not exist: ");
        e.append(skill_path);
        return Err(e);
    }
    if !manifest_exists {
        let mut e = copy_string("No SKILL.md found in ");
        e.append(skill_path);
        return Err(e);
    }
    match file_name {
        Some(n) => Ok(copy_string(n)),
        None => {
            let mut e = copy_string("Path does not exist: ");
            e.append(skill_path);
            Err(e)
        },
    }
}

/// What happens at the link location: an absent entry is created, an old
/// link replaced; anything else refuses (with a detail for a non-link,
/// without one for an unreadable entry).
pub fn enable_link_step(link: &str, entry: LinkEntry) -> (r: Result<LinkStep, Option<String>>)
    ensures
        match entry {
            LinkEntry::Absent => r == Ok::<LinkStep, Option<String>>(LinkStep::Create),
            LinkEntry::Symlink => r == Ok::<LinkStep, Option<String>>(LinkStep::Replace),
            LinkEntry::Other => r matches Err(Some(e)) && e@ == link_conflict_text(link@),
            LinkEntry::Unreadable => r matches Err(None),
        },
{
    match entry {
        LinkEntry::Absent => Ok(LinkStep::Create),
        LinkEntry::Symlink => Ok(LinkStep::Replace),
        LinkEntry::Other => {
            let mut e = copy_string(link);
            e.append(" already exists and is not a symlink — refusing to overwrite");
            Err(Some(e))
        },
        LinkEntry::Unreadable => Err(None),
    }
}

/// Whether a disable may remove the entry: only a link; a missing entry or
/// a non-link refuses with its detail, an unreadable one without.
pub fn disable_check(name: &str, entry: LinkEntry) -> (r: Result<(), Option<String>>)
    ensures
        match entry {
            LinkEntry::Symlink => r is Ok,
            LinkEntry::Absent => r matches Err(Some(e)) && e@ == not_found_text(name@),
            LinkEntry::Other => r matches Err(Some(e)) && e@ == not_symlink_text(name@),
            LinkEntry::Unreadable => r matches Err(None),
        },
{
    match entry {
        LinkEntry::Symlink => Ok(()),
        LinkEntry::Absent => {
            let mut e = copy_string("Skill not found: ");
            e.append(name);
            Err(Some(e))
        },
        LinkEntry::Other => {
            let mut e = copy_string(name);
            e.append(" is not a symlink — refusing to delete. Remove it manually if intended.");
            Err(Some(e))
        },
        LinkEntry::Unreadable => Err(None),
    }
}

/// Detail of a failed global skills directory creation.
pub fn skills_dir_failure() -> (r: Option<String>)
    ensures
        r matches Some(e) && e@ == skills_dir_failure_text(),
{
    Some(copy_string("Failed to enable skill: global skills directory"))
}

// ── Commands and messages ───────────────────────────────────────────────────

/// `skill_enable` payload.
#[derive(Debug)]
pub struct SkillEnableCommand {
    pub request_id: String,
    pub skill_path: String,
}

/// `skill_disable` payload.
#[derive(Debug)]
pub struct SkillDisableCommand {
    pub request_id: String,
    pub name: String,
}

/// The two skills group commands.
#[derive(Debug)]
pub enum SkillsCommand {
    Enable(SkillEnableCommand),
    Disable(SkillDisableCommand),
}

/// `skill_enable_response` payload.
#[derive(Debug)]
pub struct SkillEnableResponseMessage {
    pub request_id: String,
    pub success: bool,
    pub skill_name: Option<String>,
    pub error: Option<String>,
}

/// `skill_disable_response` payload.
#[derive(Debug)]
pub struct SkillDisableResponseMessage {
    pub request_id: String,
    pub success: bool,
    pub skill_name: Option<String>,
    pub error: Option<String>,
}

/// `skills_updated` notice.
#[derive(Debug)]
pub struct SkillsUpdatedMessage {
    pub timestamp: i64,
}

/// The three outbound skills group messages.
#[derive(Debug)]
pub enum SkillsMessage {
    EnableResponse(SkillEnableResponseMessage),
    DisableResponse(SkillDisableResponseMessage),
    Updated(SkillsUpdatedMessage),
}

/// Text of an optional string.
pub open spec fn opt_text(o: Option<String>) -> Option<Seq<char>> {
    match o {
        Some(s) => Some(s@),
        None => None,
    }
}

/// Failure detail answered for an outcome's error, or the catch-all.
pub open spec fn failure_detail(e: Option<String>, catch_all: Seq<char>) -> Seq<char> {
    match e {
        Some(d) => d@,
        None => catch_all,
    }
}

fn detail_or(e: Option<String>, catch_all: &str) -> (r: String)
    ensures
        r@ == failure_detail(e, catch_all@),
{
    match e {
        Some(d) => d,
        None => copy_string(catch_all),
    }
}

/// Completes a `skill_enable` from the link outcome: a linked skill joins
/// the selection and is answered with its name, then a `skills_updated`
/// notice stamped `now_ms`; a failure answers its detail (or the catch-all)
/// and leaves the selection as it was.
pub fn enable_answer(
    command: &SkillEnableCommand,
    outcome: Result<String, Option<String>>,
    selection: &mut SkillSelection,
    now_ms: i64,
) -> (msgs: Vec<SkillsMessage>)
    requires
        old(selection).wf(),
    ensures
        final(selection).wf(),
        msgs@.len() == if outcome is Ok { 2int } else { 1int },
        msgs@[0] matches SkillsMessage::EnableResponse(r) && r.request_id@ == command.request_id@
            && r.success == outcome is Ok && match outcome {
            Ok(n) => opt_text(r.skill_name) == Some(n@) && r.error is None,
            Err(e) => r.skill_name is None && opt_text(r.error) == Some(
                failure_detail(e, enable_failure_text()),
            ),
        },
        match outcome {
            Ok(n) => final(selection).view() == added(old(selection).view(), n@) && (
            msgs@[1] matches SkillsMessage::Updated(u) && u.timestamp == now_ms),
            Err(_) => final(selection).view() == old(selection).view(),
        },
{
    let mut msgs: Vec<SkillsMessage> = Vec::new();
    match outcome {
        Ok(name) => {
            selection.add(name.as_str());
            msgs.push(
                SkillsMessage::EnableResponse(
                    SkillEnableResponseMessage {
                        request_id: copy_string(command.request_id.as_str()),
                        success: true,
                        skill_name: Some(name),
                        error: None,
                    },
                ),
            );
            msgs.push(SkillsMessage::Updated(SkillsUpdatedMessage { timestamp: now_ms }));
        },
        Err(e) => {
            msgs.push(
                SkillsMessage::EnableResponse(
                    SkillEnableResponseMessage {
                        request_id: copy_string(command.request_id.as_str()),
                        success: false,
                        skill_name: None,
                        error: Some(detail_or(e, "Failed to enable skill")),
                    },
                ),
            );
        },
    }
    msgs
}

/// Completes a `skill_disable` from the unlink outcome: the name leaves the
/// selection and is answered, then a `skills_updated` notice; a failure
/// answers its detail (or the catch-all) and leaves the selection as it was.
pub fn disable_answer(
    command: &SkillDisableCommand,
    outcome: Result<(), Option<String>>,
    selection: &mut SkillSelection,
    now_ms: i64,
) -> (msgs: Vec<SkillsMessage>)
    requires
        old(selection).wf(),
    ensures
        final(selection).wf(),
        msgs@.len() == if outcome is Ok { 2int } else { 1int },
        msgs@[0] matches SkillsMessage::DisableResponse(r) && r.request_id@ == command.request_id@
            && r.success == outcome is Ok && match outcome {
            Ok(()) => opt_text(r.skill_name) == Some(command.name@) && r.error is None,
            Err(e) => r.skill_name is None && opt_text(r.error) == Some(
                failure_detail(e, disable_failure_text()),
            ),
        },
        match outcome {
            Ok(()) => final(selection).view() == removed(old(selection).view(), command.name@) && (
            msgs@[1] matches SkillsMessage::Updated(u) && u.timestamp == now_ms),
            Err(_) => final(selection).view() == old(selection).view(),
        },
{
    let mut msgs: Vec<SkillsMessage> = Vec::new();
    match outcome {
        Ok(()) => {
            let _ = selection.remove(command.name.as_str());
            msgs.push(
                SkillsMessage::DisableResponse(
                    SkillDisableResponseMessage {
                        request_id: copy_string(command.request_id.as_str()),
                        success: true,
                        skill_name: Some(copy_string(command.name.as_str())),
                        error: None,
                    },
                ),
            );
            msgs.push(SkillsMessage::Updated(SkillsUpdatedMessage { timestamp: now_ms }));
        },
        Err(e) => {
            msgs.push(
                SkillsMessage::DisableResponse(
                    SkillDisableResponseMessage {
                        request_id: copy_string(command.request_id.as_str()),
                        success: false,
                        skill_name: None,
                        error: Some(detail_or(e, "Failed to disable skill")),
                    },
                ),
            );
        },
    }
    msgs
}

} // verus!
