//! Memory command group: wire types and every decision of the eight memory
//! handlers.
//!
//! The host performs the repository work (status, tree walk, reads, commits,
//! history, diffs) and feeds each observation to the functions here, which
//! decide the exact frames to emit and in which order.

use crate::memory_paths::{confine, confinement, image_mime, image_mime_of, is_markdown, markdown_path, views, PathRejection};
use crate::memory_refs::{split_frontmatter, split_frontmatter_of, wiki_reference_list, wiki_references};
use crate::text::{
    chars_of, copy_string, has_prefix, is_white_space, lemma_trim_end_bounds, lemma_trim_start_bounds,
    starts_with, string_from, trim_chars, trimmed,
};
use base64::Engine;
use vstd::prelude::*;
use vstd::string::*;
use vstd::utf8::{decode_utf8, encode_utf8, valid_utf8};

verus! {

/// History commits returned when a client omits `limit`.
pub const HISTORY_COMMITS_DEFAULT: usize = 50;
/// Upper bound on history commits accepted from one request.
pub const HISTORY_COMMITS_MAX: usize = 200;
/// Entries per `list_memory_response` chunk.
pub const LIST_CHUNK_ENTRIES: usize = 5;
/// Revisions scanned to locate one commit's parent for its diff.
pub const HISTORY_SCAN_MAX: usize = 10_000;

// ── Wire commands ───────────────────────────────────────────────────────────

/// `list_memory` payload.
#[derive(Debug)]
pub struct ListMemoryCommand {
    pub agent_id: String,
    pub include_references: Option<bool>,
    pub request_id: String,
}

/// `memory_history` payload.
#[derive(Debug)]
pub struct MemoryHistoryCommand {
    pub agent_id: String,
    pub file_path: Option<String>,
    pub limit: Option<usize>,
    pub request_id: String,
}

/// `memory_file_at_ref` payload.
#[derive(Debug)]
pub struct MemoryFileAtRefCommand {
    pub agent_id: String,
    pub file_path: String,
    pub reference: String,
    pub request_id: String,
}

/// `memory_commit_diff` payload.
#[derive(Debug)]
pub struct MemoryCommitDiffCommand {
    pub agent_id: String,
    pub sha: String,
    pub request_id: String,
}

/// `read_memory_file` payload.
#[derive(Debug)]
pub struct ReadMemoryFileCommand {
    pub agent_id: String,
    pub path: String,
    pub encoding: Option<MemoryEncoding>,
    pub request_id: String,
}

/// `write_memory_file` payload.
#[derive(Debug)]
pub struct WriteMemoryFileCommand {
    pub agent_id: String,
    pub path: String,
    pub content: String,
    pub encoding: Option<MemoryEncoding>,
    pub commit_message: Option<String>,
    pub request_id: String,
}

/// `delete_memory_file` payload.
#[derive(Debug)]
pub struct DeleteMemoryFileCommand {
    pub agent_id: String,
    pub path: String,
    pub commit_message: Option<String>,
    pub request_id: String,
}

/// `enable_memfs` payload.
#[derive(Debug)]
pub struct EnableMemfsCommand {
    pub agent_id: String,
    pub request_id: String,
}

/// Content transfer encoding shared by reads and writes.
#[derive(Clone, Copy, Debug, PartialEq, Eq)]
pub enum MemoryEncoding {
    /// Lossily decoded UTF-8 text.
    Utf8,
    /// Standard-alphabet base64 bytes.
    Base64,
}

/// The eight memory group commands.
#[derive(Debug)]
pub enum MemoryCommand {
    List(ListMemoryCommand),
    History(MemoryHistoryCommand),
    FileAtRef(MemoryFileAtRefCommand),
    CommitDiff(MemoryCommitDiffCommand),
    ReadFile(ReadMemoryFileCommand),
    WriteFile(WriteMemoryFileCommand),
    DeleteFile(DeleteMemoryFileCommand),
    EnableMemfs(EnableMemfsCommand),
}

// ── Wire messages ───────────────────────────────────────────────────────────

/// One listed memory file entry.
#[derive(Debug)]
pub struct MemoryFileEntry {
    pub relative_path: String,
    pub is_system: bool,
    pub description: Option<String>,
    pub content: String,
    pub size: usize,
    pub references: Option<Vec<String>>,
    pub kind: MemoryEntryKind,
    pub mime_type: String,
}

/// Kind of one [`MemoryFileEntry`].
#[derive(Clone, Copy, Debug, PartialEq, Eq)]
pub enum MemoryEntryKind {
    Markdown,
    Image,
}

/// One history row of `memory_history_response`.
#[derive(Debug)]
pub struct MemoryHistoryCommit {
    pub sha: String,
    pub message: String,
    pub timestamp: String,
    pub author_name: Option<String>,
}

/// `list_memory_response` payload.
#[derive(Debug)]
pub struct ListMemoryResponseMessage {
    pub request_id: String,
    pub entries: Vec<MemoryFileEntry>,
    pub done: bool,
    pub total: usize,
    pub success: bool,
    pub error: Option<String>,
    pub memfs_enabled: Option<bool>,
    pub memfs_initialized: Option<bool>,
}

/// `memory_history_response` payload.
#[derive(Debug)]
pub struct MemoryHistoryResponseMessage {
    pub request_id: String,
    pub file_path: String,
    pub commits: Vec<MemoryHistoryCommit>,
    pub success: bool,
    pub error: Option<String>,
}

/// `memory_file_at_ref_response` payload.
#[derive(Debug)]
pub struct MemoryFileAtRefResponseMessage {
    pub request_id: String,
    pub file_path: String,
    pub reference: String,
    pub content: Option<String>,
    pub success: bool,
    pub error: Option<String>,
}

/// `memory_commit_diff_response` payload.
#[derive(Debug)]
pub struct MemoryCommitDiffResponseMessage {
    pub request_id: String,
    pub sha: String,
    pub diff: Option<String>,
    pub success: bool,
    pub error: Option<String>,
}

/// `read_memory_file_response` payload.
#[derive(Debug)]
pub struct ReadMemoryFileResponseMessage {
    pub request_id: String,
    pub agent_id: String,
    pub path: String,
    pub content: Option<String>,
    pub encoding: MemoryEncoding,
    pub success: bool,
    pub error: Option<String>,
}

/// Shared shape of the write and delete responses.
#[derive(Debug)]
pub struct MutationFileResponseMessage {
    pub request_id: String,
    pub agent_id: String,
    pub path: String,
    pub success: bool,
    pub committed: Option<bool>,
    pub commit_sha: Option<String>,
    pub error: Option<String>,
}

/// `enable_memfs_response` payload.
#[derive(Debug)]
pub struct EnableMemfsResponseMessage {
    pub request_id: String,
    pub success: bool,
    pub memory_directory: Option<String>,
    pub error: Option<String>,
}

/// `memory_updated` refresh notice.
#[derive(Debug)]
pub struct MemoryUpdatedMessage {
    pub affected_paths: Vec<String>,
    pub timestamp: i64,
}

/// The nine outbound memory group messages.
#[derive(Debug)]
pub enum MemoryMessage {
    ListResponse(ListMemoryResponseMessage),
    HistoryResponse(MemoryHistoryResponseMessage),
    FileAtRefResponse(MemoryFileAtRefResponseMessage),
    CommitDiffResponse(MemoryCommitDiffResponseMessage),
    ReadFileResponse(ReadMemoryFileResponseMessage),
    WriteFileResponse(MutationFileResponseMessage),
    DeleteFileResponse(MutationFileResponseMessage),
    EnableMemfsResponse(EnableMemfsResponseMessage),
    Updated(MemoryUpdatedMessage),
}

/// View of an optional string.
pub open spec fn ov(o: Option<String>) -> Option<Seq<char>> {
    match o {
        Some(s) => Some(s@),
        None => None,
    }
}

/// Views of a vector of strings.
pub open spec fn string_views(v: Seq<String>) -> Seq<Seq<char>> {
    v.map_values(|s: String| s@)
}

fn strings_of(v: &Vec<Vec<char>>) -> (r: Vec<String>)
    ensures
        string_views(r@) == views(v@),
{
    let mut r: Vec<String> = Vec::new();
    let mut i: usize = 0;
    while i < v.len()
        invariant
            i <= v@.len(),
            string_views(r@) == views(v@.subrange(0, i as int)),
        decreases v@.len() - i,
    {
        let s = string_from(&v[i]);
        let ghost old_r = r@;
        r.push(s);
        assert(string_views(r@) =~= string_views(old_r).push(v@[i as int]@));
        assert(views(v@.subrange(0, i + 1)) =~= views(v@.subrange(0, i as int)).push(v@[i as int]@));
        i = i + 1;
    }
    assert(v@.subrange(0, v@.len() as int) =~= v@);
    r
}

fn char_vecs_of(v: &Vec<String>) -> (r: Vec<Vec<char>>)
    ensures
        views(r@) == string_views(v@),
{
    let mut r: Vec<Vec<char>> = Vec::new();
    let mut i: usize = 0;
    while i < v.len()
        invariant
            i <= v@.len(),
            views(r@) == string_views(v@.subrange(0, i as int)),
        decreases v@.len() - i,
    {
        let c = chars_of(v[i].as_str());
        let ghost old_r = r@;
        r.push(c);
        assert(views(r@) =~= views(old_r).push(v@[i as int]@));
        assert(string_views(v@.subrange(0, i + 1)) =~= string_views(v@.subrange(0, i as int)).push(v@[i as int]@));
        i = i + 1;
    }
    assert(v@.subrange(0, v@.len() as int) =~= v@);
    r
}

// ── Outside encodings ───────────────────────────────────────────────────────

/// Text `String::from_utf8_lossy` gives for a byte sequence.
pub uninterp spec fn utf8_lossy(bytes: Seq<u8>) -> Seq<char>;

/// `String::from_utf8_lossy` from std.
///
/// The std documentation states that valid UTF-8 is returned unchanged; the
/// contract states that, and names the result on every other input.
#[verifier::external_body]
pub(crate) fn lossy_text(bytes: &[u8]) -> (r: String)
    ensures
        r@ == utf8_lossy(bytes@),
        valid_utf8(bytes@) ==> r@ == decode_utf8(bytes@),
{
    String::from_utf8_lossy(bytes).into_owned()
}

/// Standard-alphabet padded base64 text of a byte sequence.
pub uninterp spec fn base64_encoding(bytes: Seq<u8>) -> Seq<char>;

/// Bytes a standard-alphabet padded base64 text decodes to, or `None` when
/// the text is not valid base64.
pub uninterp spec fn base64_decoding(text: Seq<char>) -> Option<Seq<u8>>;

/// `base64::engine::general_purpose::STANDARD.encode` from the base64 crate.
///
/// The crate panics when the encoded length overflows `usize`; the
/// `requires` keeps inputs far below that bound. The result is named; the
/// standard engine pads on encode and requires that padding on decode, so
/// decoding the text gives the bytes back.
#[verifier::external_body]
fn base64_encode(bytes: &[u8]) -> (r: String)
    requires
        bytes@.len() <= usize::MAX / 2,
    ensures
        r@ == base64_encoding(bytes@),
        base64_decoding(r@) == Some(bytes@),
{
    base64::engine::general_purpose::STANDARD.encode(bytes)
}

/// `base64::engine::general_purpose::STANDARD.decode` from the base64 crate.
///
/// Any decode error maps to `None`; the result is named.
#[verifier::external_body]
fn base64_decode(text: &str) -> (r: Option<Vec<u8>>)
    ensures
        match r {
            Some(b) => base64_decoding(text@) == Some(b@),
            None => base64_decoding(text@) is None,
        },
{
    base64::engine::general_purpose::STANDARD.decode(text).ok()
}

/// Wire content of stored bytes under one encoding.
pub open spec fn encoded_content(bytes: Seq<u8>, encoding: MemoryEncoding) -> Seq<char> {
    match encoding {
        MemoryEncoding::Utf8 => utf8_lossy(bytes),
        MemoryEncoding::Base64 => base64_encoding(bytes),
    }
}

/// Encodes stored bytes for the wire.
///
/// Decoding the text under the same encoding gives the bytes back, within
/// any limit they fit, for base64 always and for UTF-8 when the bytes are
/// valid UTF-8.
pub fn encode_content(bytes: &[u8], encoding: MemoryEncoding) -> (r: String)
    requires
        bytes@.len() <= usize::MAX / 2,
    ensures
        r@ == encoded_content(bytes@, encoding),
        (encoding == MemoryEncoding::Base64 || valid_utf8(bytes@)) ==> forall|limit: nat|
            limit >= bytes@.len() ==> #[trigger] decoded_content(r@, encoding, limit) == Ok::<
                Seq<u8>,
                Seq<char>,
            >(bytes@),
{
    match encoding {
        MemoryEncoding::Utf8 => {
            let r = lossy_text(bytes);
            proof {
                if valid_utf8(bytes@) {
                    vstd::utf8::decode_utf8_encode_utf8(bytes@);
                }
            }
            r
        },
        MemoryEncoding::Base64 => base64_encode(bytes),
    }
}

/// Rejection text for content that is not valid base64.
pub open spec fn invalid_base64_text() -> Seq<char> {
    "content is not valid base64"@
}

/// Rejection text for content above the memory file limit.
pub open spec fn too_large_text() -> Seq<char> {
    "content exceeds the memory file limit"@
}

/// Bytes a write stores for its wire content, or the rejection reason.
pub open spec fn decoded_content(raw: Seq<char>, encoding: MemoryEncoding, limit: nat) -> Result<
    Seq<u8>,
    Seq<char>,
> {
    let bytes = match encoding {
        MemoryEncoding::Utf8 => Some(encode_utf8(raw)),
        MemoryEncoding::Base64 => base64_decoding(raw),
    };
    match bytes {
        None => Err(invalid_base64_text()),
        Some(b) => if b.len() > limit {
            Err(too_large_text())
        } else {
            Ok(b)
        },
    }
}

/// Decodes one write payload and bounds it by `limit` bytes.
pub fn decode_content(raw: &str, encoding: MemoryEncoding, limit: usize) -> (r: Result<
    Vec<u8>,
    String,
>)
    ensures
        match r {
            Ok(b) => decoded_content(raw@, encoding, limit as nat) == Ok::<Seq<u8>, Seq<char>>(b@),
            Err(e) => decoded_content(raw@, encoding, limit as nat) == Err::<Seq<u8>, Seq<char>>(e@),
        },
{
    let bytes = match encoding {
        MemoryEncoding::Utf8 => raw.as_bytes_vec(),
        MemoryEncoding::Base64 => match base64_decode(raw) {
            Some(b) => b,
            None => {
                return Err(copy_string("content is not valid base64"));
            },
        },
    };
    if bytes.len() > limit {
        return Err(copy_string("content exceeds the memory file limit"));
    }
    Ok(bytes)
}

// ── Listing ─────────────────────────────────────────────────────────────────

/// The entry one listed path becomes, or `None` for paths the viewer skips.
///
/// Images carry their MIME type, empty content and the whole-file size;
/// markdown carries its frontmatter description, body, body size in UTF-8
/// bytes and (when requested) its resolved wiki-link references.
pub open spec fn entry_matches(
    e: MemoryFileEntry,
    path: Seq<char>,
    bytes: Seq<u8>,
    include_references: bool,
    known: Seq<Seq<char>>,
) -> bool {
    &&& e.relative_path@ == path
    &&& e.is_system == has_prefix(path, "system/"@)
    &&& match image_mime(path) {
        Some(m) => {
            &&& e.kind == MemoryEntryKind::Image
            &&& e.mime_type@ == m
            &&& e.description is None
            &&& e.content@ == Seq::<char>::empty()
            &&& e.size == bytes.len()
            &&& e.references is None
        },
        None => {
            let text = utf8_lossy(bytes);
            let split = split_frontmatter(text);
            &&& is_markdown(path)
            &&& e.kind == MemoryEntryKind::Markdown
            &&& e.mime_type@ == "text/markdown"@
            &&& e.content@ == split.1
            &&& e.size == encode_utf8(split.1).len() as usize
            &&& match e.description {
                Some(d) => split.0 == Some(d@),
                None => split.0 is None,
            }
            &&& match e.references {
                Some(r) => include_references && string_views(r@) == wiki_references(
                    split.1,
                    path,
                    known,
                ),
                None => !include_references,
            }
        },
    }
}

/// Whether a listed path is shown at all: images and markdown files.
pub open spec fn listed(path: Seq<char>) -> bool {
    image_mime(path) is Some || is_markdown(path)
}

/// Builds the listing entry for one path from its stored bytes; `known`
/// holds every markdown path of the listing.
pub fn build_entry(
    path: &str,
    bytes: &[u8],
    include_references: bool,
    known: &Vec<String>,
) -> (r: Option<MemoryFileEntry>)
    requires
        bytes@.len() <= usize::MAX / 2,
    ensures
        match r {
            Some(e) => listed(path@) && entry_matches(
                e,
                path@,
                bytes@,
                include_references,
                string_views(known@),
            ),
            None => !listed(path@),
        },
{
    let p = chars_of(path);
    let system = starts_with(&p, &chars_of("system/"));
    match image_mime_of(&p) {
        Some(mime) => {
            return Some(
                MemoryFileEntry {
                    relative_path: copy_string(path),
                    is_system: system,
                    description: None,
                    content: String::new(),
                    size: bytes.len(),
                    references: None,
                    kind: MemoryEntryKind::Image,
                    mime_type: mime,
                },
            );
        },
        None => {},
    }
    if !markdown_path(&p) {
        return None;
    }
    let text = lossy_text(bytes);
    let chars = chars_of(text.as_str());
    let (description, body) = split_frontmatter_of(&chars);
    let content = string_from(&body);
    let references = if include_references {
        let known_chars = char_vecs_of(known);
        let refs = wiki_reference_list(&body, &p, &known_chars);
        Some(strings_of(&refs))
    } else {
        None
    };
    let size = content.as_str().len();
    proof {
        reveal_strlit("text/markdown");
    }
    Some(
        MemoryFileEntry {
            relative_path: copy_string(path),
            is_system: system,
            description: match description {
                Some(d) => Some(string_from(&d)),
                None => None,
            },
            content,
            size,
            references,
            kind: MemoryEntryKind::Markdown,
            mime_type: copy_string("text/markdown"),
        },
    )
}

/// Whether `chunks` is the chunked listing of `entries`: consecutive runs of
/// [`LIST_CHUNK_ENTRIES`] entries (the last possibly shorter), each carrying
/// the total, only the last marked done; an empty listing is one empty done
/// chunk.
pub open spec fn chunked_listing(
    chunks: Seq<ListMemoryResponseMessage>,
    request_id: Seq<char>,
    entries: Seq<MemoryFileEntry>,
) -> bool {
    let n = entries.len();
    let count = if n == 0 { 1 } else { (n + 4) / 5 };
    &&& chunks.len() == count
    &&& forall|k: int|
        0 <= k < chunks.len() ==> {
            let c = #[trigger] chunks[k];
            let from = 5 * k;
            let to = if 5 * k + 5 < n { 5 * k + 5 } else { n as int };
            &&& c.request_id@ == request_id
            &&& c.entries@ == entries.subrange(from, to)
            &&& c.done == (k == chunks.len() - 1)
            &&& c.total == n
            &&& c.success
            &&& c.error is None
            &&& c.memfs_enabled == Some(true)
            &&& c.memfs_initialized == Some(true)
        }
}

/// Splits an enabled listing into its response chunks.
pub fn list_chunks(request_id: &str, entries: Vec<MemoryFileEntry>) -> (r: Vec<
    ListMemoryResponseMessage,
>)
    ensures
        chunked_listing(r@, request_id@, entries@),
{
    let total = entries.len();
    let mut r: Vec<ListMemoryResponseMessage> = Vec::new();
    if total == 0 {
        let ghost all = entries@;
        r.push(
            ListMemoryResponseMessage {
                request_id: copy_string(request_id),
                entries: Vec::new(),
                done: true,
                total: 0,
                success: true,
                error: None,
                memfs_enabled: Some(true),
                memfs_initialized: Some(true),
            },
        );
        assert(r@[0].entries@ =~= all.subrange(0, 0));
        return r;
    }
    let ghost all = entries@;
    let mut remaining = entries;
    let mut sent: usize = 0;
    while sent < total
        invariant
            total == all.len(),
            remaining@ == all.subrange(sent as int, total as int),
            total > 0,
            sent <= total,
            sent < total ==> sent == 5 * r@.len(),
            r@.len() <= (total + 4) / 5,
            sent < total ==> r@.len() < (total + 4) / 5,
            sent == total ==> r@.len() == (total + 4) / 5,
            forall|k: int|
                0 <= k < r@.len() ==> {
                    let c = #[trigger] r@[k];
                    let from = 5 * k;
                    let to = if 5 * k + 5 < total { 5 * k + 5 } else { total as int };
                    &&& c.request_id@ == request_id@
                    &&& c.entries@ == all.subrange(from, to)
                    &&& c.done == (k == (total + 4) / 5 - 1)
                    &&& c.total == total
                    &&& c.success
                    &&& c.error is None
                    &&& c.memfs_enabled == Some(true)
                    &&& c.memfs_initialized == Some(true)
                },
        decreases total - sent,
    {
        let end = if total - sent > LIST_CHUNK_ENTRIES { sent + LIST_CHUNK_ENTRIES } else { total };
        let mut chunk: Vec<MemoryFileEntry> = Vec::new();
        let mut i = sent;
        while i < end
            invariant
                sent <= i <= end <= total == all.len(),
                chunk@ == all.subrange(sent as int, i as int),
                remaining@ == all.subrange(i as int, total as int),
            decreases end - i,
        {
            let e = remaining.remove(0);
            chunk.push(e);
            assert(chunk@ =~= all.subrange(sent as int, i + 1));
            assert(remaining@ =~= all.subrange(i + 1, total as int));
            i = i + 1;
        }
        let ghost k = r@.len();
        proof {
            assert((total + 4) / 5 >= k + 1);
            if end == total {
                assert(k == (total + 4) / 5 - 1) by (nonlinear_arith)
                    requires
                        sent == 5 * k,
                        sent < total,
                        total <= sent + 5,
                ;
            } else {
                assert(k != (total + 4) / 5 - 1) by (nonlinear_arith)
                    requires
                        sent == 5 * k,
                        sent + 5 < total,
                ;
            }
        }
        r.push(
            ListMemoryResponseMessage {
                request_id: copy_string(request_id),
                entries: chunk,
                done: end == total,
                total,
                success: true,
                error: None,
                memfs_enabled: Some(true),
                memfs_initialized: Some(true),
            },
        );
        proof {
            if end < total {
                assert(r@.len() < (total + 4) / 5) by (nonlinear_arith)
                    requires
                        r@.len() == k + 1,
                        5 * k + 5 < total,
                ;
            } else {
                assert(r@.len() == (total + 4) / 5) by (nonlinear_arith)
                    requires
                        r@.len() == k + 1,
                        5 * k < total,
                        total <= 5 * k + 5,
                ;
            }
        }
        sent = end;
    }
    r
}


// ── Scrubbed failure texts ──────────────────────────────────────────────────

/// Failure detail of listings.
pub open spec fn list_failure() -> Seq<char> { "Failed to list memory"@ }
/// Failure detail of history fetches.
pub open spec fn history_failure() -> Seq<char> { "Failed to fetch memory history"@ }
/// Failure detail of read-at-ref requests.
pub open spec fn at_ref_failure() -> Seq<char> { "Failed to read file at ref"@ }
/// Failure detail of commit diffs.
pub open spec fn diff_failure() -> Seq<char> { "Failed to get commit diff"@ }
/// Failure detail of working-tree reads.
pub open spec fn read_failure() -> Seq<char> { "Failed to read memory file"@ }
/// Failure detail of writes.
pub open spec fn write_failure() -> Seq<char> { "Failed to write memory file"@ }
/// Failure detail of deletes.
pub open spec fn delete_failure() -> Seq<char> { "Failed to delete memory file"@ }
/// Failure detail of enables.
pub open spec fn enable_failure() -> Seq<char> { "Failed to enable memfs"@ }
/// Rejection detail while memfs is off for the agent.
pub open spec fn memfs_disabled() -> Seq<char> { "memfs is not enabled for this agent"@ }

// ── list_memory ─────────────────────────────────────────────────────────────

/// Failed listing frame.
pub fn failed_list(request_id: &str, error: &str) -> (r: MemoryMessage)
    ensures
        r is ListResponse,
        ({
            let m = list_payload(r);
            &&& m.request_id@ == request_id@
            &&& m.entries@.len() == 0
            &&& m.done
            &&& m.total == 0
            &&& !m.success
            &&& ov(m.error) == Some(error@)
            &&& m.memfs_enabled is None
            &&& m.memfs_initialized is None
        }),
{
    MemoryMessage::ListResponse(
        ListMemoryResponseMessage {
            request_id: copy_string(request_id),
            entries: Vec::new(),
            done: true,
            total: 0,
            success: false,
            error: Some(copy_string(error)),
            memfs_enabled: None,
            memfs_initialized: None,
        },
    )
}

/// Success-shaped terminal frame of a listing whose memfs is off.
pub fn disabled_list(request_id: &str) -> (r: MemoryMessage)
    ensures
        r is ListResponse,
        ({
            let m = list_payload(r);
            &&& m.request_id@ == request_id@
            &&& m.entries@.len() == 0
            &&& m.done
            &&& m.total == 0
            &&& m.success
            &&& m.error is None
            &&& m.memfs_enabled == Some(false)
            &&& m.memfs_initialized == Some(false)
        }),
{
    MemoryMessage::ListResponse(
        ListMemoryResponseMessage {
            request_id: copy_string(request_id),
            entries: Vec::new(),
            done: true,
            total: 0,
            success: true,
            error: None,
            memfs_enabled: Some(false),
            memfs_initialized: Some(false),
        },
    )
}

/// What a listing does before walking the tree: `Some` frame to answer at
/// once (invalid agent: failure; memfs off: disabled), or `None` to list.
pub fn list_precheck(command: &ListMemoryCommand, agent_valid: bool, initialized: bool) -> (r:
    Option<MemoryMessage>)
    ensures
        !agent_valid ==> r is Some && r->0 is ListResponse && !list_payload(r->0).success
            && list_payload(r->0).request_id@ == command.request_id@ && ov(
            list_payload(r->0).error,
        ) == Some(list_failure()) && list_payload(r->0).entries@.len() == 0 && list_payload(
            r->0,
        ).done,
        agent_valid && !initialized ==> r is Some && r->0 is ListResponse && list_payload(
            r->0,
        ).success && list_payload(r->0).memfs_enabled == Some(false) && list_payload(
            r->0,
        ).memfs_initialized == Some(false) && list_payload(r->0).request_id@
            == command.request_id@ && list_payload(r->0).entries@.len() == 0 && list_payload(
            r->0,
        ).done,
        agent_valid && initialized ==> r is None,
{
    if !agent_valid {
        return Some(failed_list(command.request_id.as_str(), "Failed to list memory"));
    }
    if !initialized {
        return Some(disabled_list(command.request_id.as_str()));
    }
    None
}

/// Frames answering a listing once the entries were collected (or the walk
/// failed).
pub fn list_answer(command: &ListMemoryCommand, collected: Result<Vec<MemoryFileEntry>, ()>) -> (r:
    Vec<MemoryMessage>)
    ensures
        match collected {
            Ok(entries) => r@.len() >= 1 && forall|k: int|
                0 <= k < r@.len() ==> #[trigger] r@[k] matches MemoryMessage::ListResponse(_),
            Err(_) => r@.len() == 1 && r@[0] is ListResponse && !list_payload(r@[0]).success
                && ov(list_payload(r@[0]).error) == Some(list_failure()) && list_payload(
                r@[0],
            ).request_id@ == command.request_id@,
        },
        match collected {
            Ok(entries) => chunked_listing(
                r@.map_values(|m: MemoryMessage| list_payload(m)),
                command.request_id@,
                entries@,
            ),
            Err(_) => true,
        },
{
    match collected {
        Err(_) => {
            let mut r = Vec::new();
            r.push(failed_list(command.request_id.as_str(), "Failed to list memory"));
            r
        },
        Ok(entries) => {
            let chunks = list_chunks(command.request_id.as_str(), entries);
            let mut r: Vec<MemoryMessage> = Vec::new();
            let ghost cs = chunks@;
            let n = chunks.len();
            let mut rest = chunks;
            let mut i: usize = 0;
            while rest.len() > 0
                invariant
                    i + rest@.len() == cs.len(),
                    cs.len() == n,
                    rest@ == cs.subrange(i as int, cs.len() as int),
                    r@.len() == i,
                    forall|k: int|
                        0 <= k < i ==> #[trigger] r@[k] == MemoryMessage::ListResponse(cs[k]),
                decreases rest@.len(),
            {
                let c = rest.remove(0);
                r.push(MemoryMessage::ListResponse(c));
                assert(rest@ =~= cs.subrange(i + 1, cs.len() as int));
                i = i + 1;
            }
            assert(r@.map_values(|m: MemoryMessage| list_payload(m)) =~= cs);
            r
        },
    }
}

/// History payload of a history response (an arbitrary value otherwise).
pub open spec fn history_payload(m: MemoryMessage) -> MemoryHistoryResponseMessage {
    match m {
        MemoryMessage::HistoryResponse(p) => p,
        _ => arbitrary(),
    }
}

/// Listing payload of a list response (an arbitrary value otherwise).
pub open spec fn list_payload(m: MemoryMessage) -> ListMemoryResponseMessage {
    match m {
        MemoryMessage::ListResponse(p) => p,
        _ => arbitrary(),
    }
}

// ── memory_history ──────────────────────────────────────────────────────────

/// Commits served for a requested limit: the default when absent, capped.
pub open spec fn history_limit_of(limit: Option<usize>) -> nat {
    let l = match limit {
        Some(l) => l as nat,
        None => HISTORY_COMMITS_DEFAULT as nat,
    };
    if l < HISTORY_COMMITS_MAX { l } else { HISTORY_COMMITS_MAX as nat }
}

/// Executable [`history_limit_of`].
pub fn history_limit(limit: Option<usize>) -> (r: usize)
    ensures
        r as nat == history_limit_of(limit),
{
    let l = match limit {
        Some(l) => l,
        None => HISTORY_COMMITS_DEFAULT,
    };
    if l < HISTORY_COMMITS_MAX { l } else { HISTORY_COMMITS_MAX }
}

/// One revision streamed by the repository history: revision and summary.
#[derive(Debug)]
pub struct HistoryEntry {
    pub revision: String,
    pub summary: String,
}

/// History answer: the newest commits, at most the requested limit (the
/// default when absent, capped), newest-first (timestamps empty and authors
/// null, which the repository does not expose), or the scrubbed failure
/// when the agent is invalid or the walk failed (`None`).
pub fn history_answer(command: &MemoryHistoryCommand, entries: Option<Vec<HistoryEntry>>) -> (r:
    MemoryMessage)
    ensures
        r is HistoryResponse,
        ({
            let m = history_payload(r);
            &&& m.request_id@ == command.request_id@
            &&& m.file_path@ == (match command.file_path {
                Some(p) => p@,
                None => Seq::<char>::empty(),
            })
            &&& match entries {
                None => !m.success && m.commits@.len() == 0 && ov(m.error) == Some(
                    history_failure(),
                ),
                Some(es) => m.success && m.error is None && m.commits@.len() == (if es@.len()
                    < history_limit_of(command.limit) {
                    es@.len()
                } else {
                    history_limit_of(command.limit)
                }) && forall|k: int|
                    0 <= k < m.commits@.len() ==> {
                        let c = #[trigger] m.commits@[k];
                        &&& c.sha@ == es@[k].revision@
                        &&& c.message@ == es@[k].summary@
                        &&& c.timestamp@ == Seq::<char>::empty()
                        &&& c.author_name is None
                    },
            }
        }),
{
    let file_path = match &command.file_path {
        Some(p) => copy_string(p.as_str()),
        None => String::new(),
    };
    match entries {
        None => MemoryMessage::HistoryResponse(
            MemoryHistoryResponseMessage {
                request_id: copy_string(command.request_id.as_str()),
                file_path,
                commits: Vec::new(),
                success: false,
                error: Some(copy_string("Failed to fetch memory history")),
            },
        ),
        Some(es) => {
            let limit = history_limit(command.limit);
            let n = if es.len() < limit {
                es.len()
            } else {
                limit
            };
            let mut commits: Vec<MemoryHistoryCommit> = Vec::new();
            let mut i: usize = 0;
            while i < n
                invariant
                    n <= es@.len(),
                    i <= n,
                    commits@.len() == i,
                    forall|k: int|
                        0 <= k < i ==> {
                            let c = #[trigger] commits@[k];
                            &&& c.sha@ == es@[k].revision@
                            &&& c.message@ == es@[k].summary@
                            &&& c.timestamp@ == Seq::<char>::empty()
                            &&& c.author_name is None
                        },
                decreases n - i,
            {
                commits.push(
                    MemoryHistoryCommit {
                        sha: copy_string(es[i].revision.as_str()),
                        message: copy_string(es[i].summary.as_str()),
                        timestamp: String::new(),
                        author_name: None,
                    },
                );
                i = i + 1;
            }
            MemoryMessage::HistoryResponse(
                MemoryHistoryResponseMessage {
                    request_id: copy_string(command.request_id.as_str()),
                    file_path,
                    commits,
                    success: true,
                    error: None,
                },
            )
        },
    }
}

/// Parent of `revision` in a newest-first history: the next older entry, or
/// `None` for the root commit; `Err` when the revision is not in history.
pub open spec fn parent_in(history: Seq<Seq<char>>, revision: Seq<char>) -> Result<
    Option<Seq<char>>,
    (),
> {
    let p = position_of(history, revision, 0);
    if p >= history.len() {
        Err(())
    } else if p + 1 < history.len() {
        Ok(Some(history[p + 1]))
    } else {
        Ok(None)
    }
}

/// Least index `k >= i` holding `x`, or `s.len()`.
pub open spec fn position_of(s: Seq<Seq<char>>, x: Seq<char>, i: int) -> int
    decreases s.len() - i,
{
    if i < 0 || i >= s.len() {
        s.len() as int
    } else if s[i] == x {
        i
    } else {
        position_of(s, x, i + 1)
    }
}

/// Locates the parent of `revision` in a newest-first revision history.
pub fn parent_revision(history: &Vec<String>, revision: &str) -> (r: Result<Option<String>, ()>)
    ensures
        match r {
            Ok(Some(p)) => parent_in(string_views(history@), revision@) == Ok::<
                Option<Seq<char>>,
                (),
            >(Some(p@)),
            Ok(None) => parent_in(string_views(history@), revision@) == Ok::<
                Option<Seq<char>>,
                (),
            >(None),
            Err(_) => parent_in(string_views(history@), revision@) is Err,
        },
{
    let ghost hv = string_views(history@);
    let mut i: usize = 0;
    while i < history.len()
        invariant
            i <= history@.len(),
            hv == string_views(history@),
            position_of(hv, revision@, 0) == position_of(hv, revision@, i as int),
        decreases history@.len() - i,
    {
        if crate::text::same_text(history[i].as_str(), revision) {
            assert(hv[i as int] == revision@);
            if i + 1 < history.len() {
                return Ok(Some(copy_string(history[i + 1].as_str())));
            } else {
                return Ok(None);
            }
        }
        i = i + 1;
    }
    Err(())
}


// ── memory_file_at_ref ──────────────────────────────────────────────────────

/// Payload of a read-at-ref response (arbitrary otherwise).
pub open spec fn at_ref_payload(m: MemoryMessage) -> MemoryFileAtRefResponseMessage {
    match m {
        MemoryMessage::FileAtRefResponse(p) => p,
        _ => arbitrary(),
    }
}

fn at_ref_frame(command: &MemoryFileAtRefCommand, content: Option<String>, error: Option<String>) -> (r:
    MemoryMessage)
    ensures
        r is FileAtRefResponse,
        at_ref_payload(r).request_id@ == command.request_id@,
        at_ref_payload(r).file_path@ == command.file_path@,
        at_ref_payload(r).reference@ == command.reference@,
        at_ref_payload(r).content == content,
        at_ref_payload(r).success == content is Some,
        at_ref_payload(r).error == error,
{
    MemoryMessage::FileAtRefResponse(
        MemoryFileAtRefResponseMessage {
            request_id: copy_string(command.request_id.as_str()),
            file_path: copy_string(command.file_path.as_str()),
            reference: copy_string(command.reference.as_str()),
            success: content.is_some(),
            content,
            error,
        },
    )
}

/// Read-at-ref before the repository read: the failure frame to answer
/// (invalid agent or revision: scrubbed detail; unconfined path: its class
/// text), or the confined path to read.
pub fn file_at_ref_precheck(
    command: &MemoryFileAtRefCommand,
    agent_valid: bool,
    revision_valid: bool,
) -> (r: Result<String, MemoryMessage>)
    ensures
        !agent_valid ==> r is Err && at_ref_payload(r->Err_0).content is None && ov(
            at_ref_payload(r->Err_0).error,
        ) == Some(at_ref_failure()),
        agent_valid ==> match confinement(command.file_path@) {
            Err(rej) => r is Err && ov(at_ref_payload(r->Err_0).error) == Some(
                rej.spec_text(Seq::empty()),
            ),
            Ok(path) => if revision_valid {
                r is Ok && r->Ok_0@ == path
            } else {
                r is Err && ov(at_ref_payload(r->Err_0).error) == Some(at_ref_failure())
            },
        },
        r is Err ==> r->Err_0 is FileAtRefResponse && at_ref_payload(r->Err_0).request_id@
            == command.request_id@ && at_ref_payload(r->Err_0).file_path@ == command.file_path@
            && at_ref_payload(r->Err_0).reference@ == command.reference@ && !at_ref_payload(
            r->Err_0,
        ).success && at_ref_payload(r->Err_0).content is None,
{
    if !agent_valid {
        return Err(at_ref_frame(command, None, Some(copy_string("Failed to read file at ref"))));
    }
    let path = match confine(command.file_path.as_str()) {
        Ok(p) => p,
        Err(rejection) => {
            proof { reveal_strlit(""); }
            assert(""@ =~= Seq::<char>::empty());
            return Err(at_ref_frame(command, None, Some(rejection.text(""))));
        },
    };
    if !revision_valid {
        return Err(at_ref_frame(command, None, Some(copy_string("Failed to read file at ref"))));
    }
    Ok(string_from(&path))
}

/// Read-at-ref answer from the revision read: the lossily decoded content,
/// or a failure without detail (unknown revisions land here).
pub fn file_at_ref_answer(command: &MemoryFileAtRefCommand, read: Result<Vec<u8>, ()>) -> (r:
    MemoryMessage)
    ensures
        r is FileAtRefResponse,
        at_ref_payload(r).request_id@ == command.request_id@,
        at_ref_payload(r).file_path@ == command.file_path@,
        at_ref_payload(r).reference@ == command.reference@,
        match read {
            Ok(b) => at_ref_payload(r).success && ov(at_ref_payload(r).content) == Some(
                utf8_lossy(b@),
            ) && at_ref_payload(r).error is None,
            Err(_) => !at_ref_payload(r).success && at_ref_payload(r).content is None
                && at_ref_payload(r).error is None,
        },
{
    match read {
        Ok(bytes) => at_ref_frame(command, Some(lossy_text(bytes.as_slice())), None),
        Err(_) => at_ref_frame(command, None, None),
    }
}

// ── memory_commit_diff ──────────────────────────────────────────────────────

/// Payload of a commit-diff response (arbitrary otherwise).
pub open spec fn diff_payload(m: MemoryMessage) -> MemoryCommitDiffResponseMessage {
    match m {
        MemoryMessage::CommitDiffResponse(p) => p,
        _ => arbitrary(),
    }
}

fn diff_frame(command: &MemoryCommitDiffCommand, diff: Option<String>, error: Option<String>) -> (r:
    MemoryMessage)
    ensures
        r is CommitDiffResponse,
        diff_payload(r).request_id@ == command.request_id@,
        diff_payload(r).sha@ == command.sha@,
        diff_payload(r).diff == diff,
        diff_payload(r).success == diff is Some,
        diff_payload(r).error == error,
{
    MemoryMessage::CommitDiffResponse(
        MemoryCommitDiffResponseMessage {
            request_id: copy_string(command.request_id.as_str()),
            sha: copy_string(command.sha.as_str()),
            success: diff.is_some(),
            diff,
            error,
        },
    )
}

/// Commit diff before any repository work: the scrubbed failure when the
/// agent or the revision is invalid.
pub fn commit_diff_precheck(
    command: &MemoryCommitDiffCommand,
    agent_valid: bool,
    revision_valid: bool,
) -> (r: Option<MemoryMessage>)
    ensures
        agent_valid && revision_valid <==> r is None,
        r is Some ==> r->0 is CommitDiffResponse && diff_payload(r->0).request_id@
            == command.request_id@ && diff_payload(r->0).sha@ == command.sha@ && !diff_payload(
            r->0,
        ).success && diff_payload(r->0).diff is None && ov(diff_payload(r->0).error) == Some(
            diff_failure(),
        ),
{
    if !agent_valid || !revision_valid {
        return Some(diff_frame(command, None, Some(copy_string("Failed to get commit diff"))));
    }
    None
}

/// What a commit diff needs after the parent lookup.
pub enum DiffPlan {
    /// The revision is unknown: answer this failure.
    Answer(MemoryMessage),
    /// The root commit: its introduced patch is empty.
    Empty(MemoryMessage),
    /// Diff the parent against the revision.
    Diff(String),
}

/// Decides the diff work from the parent lookup.
pub fn commit_diff_plan(command: &MemoryCommitDiffCommand, parent: Result<Option<String>, ()>) -> (r:
    DiffPlan)
    ensures
        match parent {
            Err(_) => r is Answer && r->Answer_0 is CommitDiffResponse && !diff_payload(
                r->Answer_0,
            ).success && diff_payload(r->Answer_0).error is None && diff_payload(
                r->Answer_0,
            ).request_id@ == command.request_id@,
            Ok(None) => r is Empty && r->Empty_0 is CommitDiffResponse && diff_payload(
                r->Empty_0,
            ).success && ov(diff_payload(r->Empty_0).diff) == Some(Seq::<char>::empty())
                && diff_payload(r->Empty_0).request_id@ == command.request_id@,
            Ok(Some(p)) => r is Diff && r->Diff_0@ == p@,
        },
{
    match parent {
        Err(_) => DiffPlan::Answer(diff_frame(command, None, None)),
        Ok(None) => DiffPlan::Empty(diff_frame(command, Some(String::new()), None)),
        Ok(Some(p)) => DiffPlan::Diff(p),
    }
}

/// Commit diff answer from the patch text (or its failure).
pub fn commit_diff_answer(command: &MemoryCommitDiffCommand, diff: Result<String, ()>) -> (r:
    MemoryMessage)
    ensures
        r is CommitDiffResponse,
        diff_payload(r).request_id@ == command.request_id@,
        diff_payload(r).sha@ == command.sha@,
        diff_payload(r).error is None,
        match diff {
            Ok(d) => diff_payload(r).success && ov(diff_payload(r).diff) == Some(d@),
            Err(_) => !diff_payload(r).success && diff_payload(r).diff is None,
        },
{
    match diff {
        Ok(d) => diff_frame(command, Some(d), None),
        Err(_) => diff_frame(command, None, None),
    }
}

// ── read_memory_file ────────────────────────────────────────────────────────

/// Payload of a read response (arbitrary otherwise).
pub open spec fn read_payload(m: MemoryMessage) -> ReadMemoryFileResponseMessage {
    match m {
        MemoryMessage::ReadFileResponse(p) => p,
        _ => arbitrary(),
    }
}

/// Encoding a read or write uses: UTF-8 unless base64 is requested.
pub open spec fn encoding_of(e: Option<MemoryEncoding>) -> MemoryEncoding {
    match e {
        Some(x) => x,
        None => MemoryEncoding::Utf8,
    }
}

fn read_frame(command: &ReadMemoryFileCommand, path: &str, content: Option<String>, error: Option<String>) -> (r:
    MemoryMessage)
    ensures
        r is ReadFileResponse,
        read_payload(r).request_id@ == command.request_id@,
        read_payload(r).agent_id@ == command.agent_id@,
        read_payload(r).path@ == path@,
        read_payload(r).encoding == encoding_of(command.encoding),
        read_payload(r).content == content,
        read_payload(r).success == content is Some,
        read_payload(r).error == error,
{
    MemoryMessage::ReadFileResponse(
        ReadMemoryFileResponseMessage {
            request_id: copy_string(command.request_id.as_str()),
            agent_id: copy_string(command.agent_id.as_str()),
            path: copy_string(path),
            encoding: match command.encoding {
                Some(e) => e,
                None => MemoryEncoding::Utf8,
            },
            success: content.is_some(),
            content,
            error,
        },
    )
}

/// Working-tree read before the repository read, checked in order: agent
/// (scrubbed failure), confinement (class text), memfs enabled (disabled
/// text); or the confined path to read.
pub fn read_precheck(command: &ReadMemoryFileCommand, agent_valid: bool, initialized: bool) -> (r:
    Result<String, MemoryMessage>)
    ensures
        r is Err ==> r->Err_0 is ReadFileResponse && !read_payload(r->Err_0).success
            && read_payload(r->Err_0).content is None && read_payload(r->Err_0).path@
            == command.path@ && read_payload(r->Err_0).request_id@ == command.request_id@,
        !agent_valid ==> r is Err && ov(read_payload(r->Err_0).error) == Some(read_failure()),
        agent_valid ==> match confinement(command.path@) {
            Err(rej) => r is Err && ov(read_payload(r->Err_0).error) == Some(
                rej.spec_text(Seq::empty()),
            ),
            Ok(path) => if initialized {
                r is Ok && r->Ok_0@ == path
            } else {
                r is Err && ov(read_payload(r->Err_0).error) == Some(memfs_disabled())
            },
        },
{
    if !agent_valid {
        return Err(read_frame(command, command.path.as_str(), None, Some(copy_string("Failed to read memory file"))));
    }
    let path = match confine(command.path.as_str()) {
        Ok(p) => p,
        Err(rejection) => {
            proof { reveal_strlit(""); }
            assert(""@ =~= Seq::<char>::empty());
            return Err(read_frame(command, command.path.as_str(), None, Some(rejection.text(""))));
        },
    };
    if !initialized {
        return Err(read_frame(command, command.path.as_str(), None, Some(copy_string("memfs is not enabled for this agent"))));
    }
    Ok(string_from(&path))
}

/// Working-tree read answer: the stored bytes encoded as requested, or a
/// failure without detail.
pub fn read_answer(command: &ReadMemoryFileCommand, path: &str, read: Result<Vec<u8>, ()>) -> (r:
    MemoryMessage)
    requires
        read matches Ok(b) ==> b@.len() <= usize::MAX / 2,
    ensures
        r is ReadFileResponse,
        read_payload(r).request_id@ == command.request_id@,
        read_payload(r).path@ == path@,
        read_payload(r).encoding == encoding_of(command.encoding),
        read_payload(r).error is None,
        match read {
            Ok(b) => read_payload(r).success && ov(read_payload(r).content) == Some(
                encoded_content(b@, encoding_of(command.encoding)),
            ),
            Err(_) => !read_payload(r).success && read_payload(r).content is None,
        },
{
    let encoding = match command.encoding {
        Some(e) => e,
        None => MemoryEncoding::Utf8,
    };
    match read {
        Ok(bytes) => read_frame(command, path, Some(encode_content(bytes.as_slice(), encoding)), None),
        Err(_) => read_frame(command, path, None, None),
    }
}

// ── write_memory_file / delete_memory_file ──────────────────────────────────

/// Which mutation response wraps the shared mutation shape.
#[derive(Clone, Copy, Debug, PartialEq, Eq)]
pub enum MutationKind {
    Write,
    Delete,
}

/// Everything one write or delete needs to answer.
#[derive(Debug)]
pub struct MutationRequest {
    pub which: MutationKind,
    pub request_id: String,
    pub agent_id: String,
    pub path: String,
    pub commit_message: Option<String>,
}

/// Failure prefix naming the mutating command.
pub open spec fn mutation_prefix(which: MutationKind) -> Seq<char> {
    match which {
        MutationKind::Write => "write_memory_file: "@,
        MutationKind::Delete => "delete_memory_file: "@,
    }
}

/// Payload of a write or delete response (arbitrary otherwise).
pub open spec fn mutation_payload(m: MemoryMessage) -> MutationFileResponseMessage {
    match m {
        MemoryMessage::WriteFileResponse(p) => p,
        MemoryMessage::DeleteFileResponse(p) => p,
        _ => arbitrary(),
    }
}

/// Whether `m` is the response frame of this mutation kind.
pub open spec fn is_mutation_response(m: MemoryMessage, which: MutationKind) -> bool {
    match which {
        MutationKind::Write => m is WriteFileResponse,
        MutationKind::Delete => m is DeleteFileResponse,
    }
}

fn mutation_frame(
    request: &MutationRequest,
    path: &str,
    success: bool,
    committed: Option<bool>,
    commit_sha: Option<String>,
    error: Option<String>,
) -> (r: MemoryMessage)
    ensures
        is_mutation_response(r, request.which),
        mutation_payload(r).request_id@ == request.request_id@,
        mutation_payload(r).agent_id@ == request.agent_id@,
        mutation_payload(r).path@ == path@,
        mutation_payload(r).success == success,
        mutation_payload(r).committed == committed,
        mutation_payload(r).commit_sha == commit_sha,
        mutation_payload(r).error == error,
{
    let message = MutationFileResponseMessage {
        request_id: copy_string(request.request_id.as_str()),
        agent_id: copy_string(request.agent_id.as_str()),
        path: copy_string(path),
        success,
        committed,
        commit_sha,
        error,
    };
    match request.which {
        MutationKind::Write => MemoryMessage::WriteFileResponse(message),
        MutationKind::Delete => MemoryMessage::DeleteFileResponse(message),
    }
}

fn prefixed(which: MutationKind, text: &str) -> (r: String)
    ensures
        r@ == mutation_prefix(which) + text@,
{
    let mut r = match which {
        MutationKind::Write => copy_string("write_memory_file: "),
        MutationKind::Delete => copy_string("delete_memory_file: "),
    };
    r.append(text);
    r
}

/// Mutation checks before any repository write, in order: agent, path
/// confinement, memfs enabled. Failures answer the prefixed reason; success
/// yields the confined path.
pub fn mutation_precheck(request: &MutationRequest, agent_valid: bool, initialized: bool) -> (r:
    Result<String, MemoryMessage>)
    ensures
        r is Err ==> is_mutation_response(r->Err_0, request.which) && !mutation_payload(
            r->Err_0,
        ).success && mutation_payload(r->Err_0).committed is None && mutation_payload(
            r->Err_0,
        ).commit_sha is None && mutation_payload(r->Err_0).path@ == request.path@
            && mutation_payload(r->Err_0).request_id@ == request.request_id@,
        !agent_valid ==> r is Err && ov(mutation_payload(r->Err_0).error) == Some(
            mutation_prefix(request.which) + "invalid agent identifier"@,
        ),
        agent_valid ==> match confinement(request.path@) {
            Err(rej) => r is Err && ov(mutation_payload(r->Err_0).error) == Some(
                rej.spec_text(mutation_prefix(request.which)),
            ),
            Ok(path) => if initialized {
                r is Ok && r->Ok_0@ == path
            } else {
                r is Err && ov(mutation_payload(r->Err_0).error) == Some(
                    mutation_prefix(request.which) + memfs_disabled(),
                )
            },
        },
{
    if !agent_valid {
        let e = prefixed(request.which, "invalid agent identifier");
        return Err(mutation_frame(request, request.path.as_str(), false, None, None, Some(e)));
    }
    let path = match confine(request.path.as_str()) {
        Ok(p) => p,
        Err(rejection) => {
            let e = match request.which {
                MutationKind::Write => rejection.text("write_memory_file: "),
                MutationKind::Delete => rejection.text("delete_memory_file: "),
            };
            return Err(mutation_frame(request, request.path.as_str(), false, None, None, Some(e)));
        },
    };
    if !initialized {
        let e = prefixed(request.which, "memfs is not enabled for this agent");
        return Err(mutation_frame(request, request.path.as_str(), false, None, None, Some(e)));
    }
    Ok(string_from(&path))
}

/// A mutation refused before the repository is touched: one failure frame
/// of the request's kind carrying `error`.
pub open spec fn mutation_refusal(m: MemoryMessage, request: MutationRequest, error: Seq<char>) -> bool {
    &&& is_mutation_response(m, request.which)
    &&& mutation_payload(m).request_id@ == request.request_id@
    &&& !mutation_payload(m).success
    &&& mutation_payload(m).committed is None
    &&& mutation_payload(m).commit_sha is None
    &&& mutation_payload(m).path@ == request.path@
    &&& ov(mutation_payload(m).error) == Some(error)
}

/// Write payload decoding failure, answered with the prefixed reason.
pub fn content_rejection(request: &MutationRequest, reason: &str) -> (r: MemoryMessage)
    ensures
        mutation_refusal(r, *request, mutation_prefix(request.which) + reason@),
{
    let e = prefixed(request.which, reason);
    mutation_frame(request, request.path.as_str(), false, None, None, Some(e))
}

/// The first step of a write or delete.
#[derive(Debug)]
pub enum MutationStep {
    /// Refused before the repository is touched: these frames are the answer.
    Answered(Vec<MemoryMessage>),
    /// A delete: the confined path is read first, and [`delete_plan`]
    /// decides on what the read finds.
    ReadBeforeDelete(String),
    /// A write: these bytes are committed at the confined path.
    Commit(String, Vec<u8>),
}

fn refused(m: MemoryMessage) -> (r: MutationStep)
    ensures
        r matches MutationStep::Answered(f) && f@ == seq![m],
{
    let mut frames: Vec<MemoryMessage> = Vec::new();
    frames.push(m);
    proof {
        assert(frames@ =~= seq![m]);
    }
    MutationStep::Answered(frames)
}

/// Order of a mutation's steps: the agent, the path's confinement and memfs
/// being enabled are checked first; then a write's content (`content`, with
/// its `encoding`) is decoded within `limit` bytes and committed, while a
/// delete (no content) reads the path before anything is removed. Each
/// refusal answers one prefixed failure and touches nothing.
pub fn mutation_start(
    request: &MutationRequest,
    content: Option<&str>,
    encoding: MemoryEncoding,
    limit: usize,
    agent_valid: bool,
    initialized: bool,
) -> (r: MutationStep)
    ensures
        !agent_valid ==> (r matches MutationStep::Answered(f) && f@.len() == 1 && mutation_refusal(
            f@[0],
            *request,
            mutation_prefix(request.which) + "invalid agent identifier"@,
        )),
        agent_valid ==> match confinement(request.path@) {
            Err(rej) => r matches MutationStep::Answered(f) && f@.len() == 1 && mutation_refusal(
                f@[0],
                *request,
                rej.spec_text(mutation_prefix(request.which)),
            ),
            Ok(path) => if !initialized {
                r matches MutationStep::Answered(f) && f@.len() == 1 && mutation_refusal(
                    f@[0],
                    *request,
                    mutation_prefix(request.which) + memfs_disabled(),
                )
            } else {
                match content {
                    None => r matches MutationStep::ReadBeforeDelete(p) && p@ == path,
                    Some(raw) => match decoded_content(raw@, encoding, limit as nat) {
                        Ok(b) => r matches MutationStep::Commit(p, bytes) && p@ == path && bytes@ == b,
                        Err(e) => r matches MutationStep::Answered(f) && f@.len() == 1
                            && mutation_refusal(f@[0], *request, mutation_prefix(request.which) + e),
                    },
                }
            },
        },
{
    let path = match mutation_precheck(request, agent_valid, initialized) {
        Ok(p) => p,
        Err(m) => return refused(m),
    };
    match content {
        None => MutationStep::ReadBeforeDelete(path),
        Some(raw) => match decode_content(raw, encoding, limit) {
            Ok(bytes) => MutationStep::Commit(path, bytes),
            Err(reason) => refused(content_rejection(request, reason.as_str())),
        },
    }
}

/// Idempotent delete of an absent file: success without a commit.
pub fn absent_delete_answer(request: &MutationRequest, path: &str) -> (r: MemoryMessage)
    ensures
        is_mutation_response(r, request.which),
        mutation_payload(r).success,
        mutation_payload(r).committed == Some(false),
        mutation_payload(r).commit_sha is None,
        mutation_payload(r).error is None,
        mutation_payload(r).path@ == path@,
        mutation_payload(r).request_id@ == request.request_id@,
{
    mutation_frame(request, path, true, Some(false), None, None)
}

/// A delete answered without touching the repository: one success frame of
/// the request's kind for `path`, with no commit.
pub open spec fn no_change_answer(m: MemoryMessage, request: MutationRequest, path: Seq<char>) -> bool {
    &&& is_mutation_response(m, request.which)
    &&& mutation_payload(m).request_id@ == request.request_id@
    &&& mutation_payload(m).success
    &&& mutation_payload(m).committed == Some(false)
    &&& mutation_payload(m).commit_sha is None
    &&& mutation_payload(m).error is None
    &&& mutation_payload(m).path@ == path
}

/// What a delete does once its checks pass.
#[derive(Debug)]
pub enum DeletePlan {
    /// Nothing to remove: these frames are the whole answer.
    Answered(Vec<MemoryMessage>),
    /// The file is there: it is removed in a commit.
    Remove,
}

/// Delete decision on the read of the confined path: a file the read does
/// not find is answered at once by a single no-change success (no commit, no
/// refresh notice); a file that is there goes to the commit transaction.
pub fn delete_plan(request: &MutationRequest, path: &str, not_found: bool) -> (r: DeletePlan)
    ensures
        not_found <==> r is Answered,
        r matches DeletePlan::Answered(frames) ==> frames@.len() == 1 && no_change_answer(
            frames@[0],
            *request,
            path@,
        ),
{
    if not_found {
        let mut frames: Vec<MemoryMessage> = Vec::new();
        frames.push(absent_delete_answer(request, path));
        DeletePlan::Answered(frames)
    } else {
        DeletePlan::Remove
    }
}

/// The working tree's paths after a committed delete of `path`.
pub open spec fn tree_without(tree: Set<Seq<char>>, path: Seq<char>) -> Set<Seq<char>> {
    tree.remove(path)
}

/// Deleting one path twice: after the first delete the path is gone from
/// the tree, so the second delete's read does not find it and
/// [`delete_plan`] answers it with the single no-change success; and a
/// second removal would leave the tree as the first left it.
pub proof fn lemma_second_delete_changes_nothing(tree: Set<Seq<char>>, path: Seq<char>)
    ensures
        !tree_without(tree, path).contains(path),
        tree_without(tree_without(tree, path), path) == tree_without(tree, path),
{
    assert(tree_without(tree_without(tree, path), path) =~= tree_without(tree, path));
}

/// Commit summary of one mutation: the trimmed custom message when it is
/// non-empty, else `"<verb> memory file <path>"`.
pub open spec fn commit_summary(custom: Option<Seq<char>>, which: MutationKind, path: Seq<char>) -> Seq<char> {
    match custom {
        Some(c) if trimmed(c).len() != 0 => trimmed(c),
        _ => (match which {
            MutationKind::Write => "Update"@,
            MutationKind::Delete => "Delete"@,
        }) + " memory file "@ + path,
    }
}

/// A custom commit message names the commit: a message holding any
/// non-white-space character gives the summary, stripped of its surrounding
/// white space (a message with none to strip is used exactly, and the
/// summary is never empty); only an absent or blank message falls back to
/// `"<verb> memory file <path>"`.
pub proof fn law_custom_commit_message(c: Seq<char>, which: MutationKind, path: Seq<char>)
    ensures
        (exists|k: int| 0 <= k < c.len() && !is_white_space(#[trigger] c[k])) ==> (commit_summary(
            Some(c),
            which,
            path,
        ) == trimmed(c) && trimmed(c).len() > 0),
        (c.len() > 0 && !is_white_space(c[0]) && !is_white_space(c[c.len() - 1])) ==> commit_summary(
            Some(c),
            which,
            path,
        ) == c,
        (forall|k: int| 0 <= k < c.len() ==> is_white_space(#[trigger] c[k])) ==> commit_summary(
            Some(c),
            which,
            path,
        ) == commit_summary(None, which, path),
        commit_summary(None, which, path) == (match which {
            MutationKind::Write => seq!['U', 'p', 'd', 'a', 't', 'e'],
            MutationKind::Delete => seq!['D', 'e', 'l', 'e', 't', 'e'],
        }) + seq![' ', 'm', 'e', 'm', 'o', 'r', 'y', ' ', 'f', 'i', 'l', 'e', ' '] + path,
{
    reveal_strlit("Update");
    reveal_strlit("Delete");
    reveal_strlit(" memory file ");
    lemma_trim_start_bounds(c, 0);
    lemma_trim_end_bounds(c, c.len() as int);
    let a = crate::text::trim_start_index(c, 0);
    let b = crate::text::trim_end_index(c, c.len() as int);
    if exists|k: int| 0 <= k < c.len() && !is_white_space(#[trigger] c[k]) {
        let k = choose|k: int| 0 <= k < c.len() && !is_white_space(#[trigger] c[k]);
        assert(a <= k) by {
            if a > k {
                assert(is_white_space(c[k]));
            }
        }
        assert(k < b) by {
            if b <= k {
                assert(is_white_space(c[k]));
            }
        }
    }
    if c.len() > 0 && !is_white_space(c[0]) && !is_white_space(c[c.len() - 1]) {
        assert(a == 0);
        assert(b == c.len());
        assert(trimmed(c) =~= c);
    }
    if forall|k: int| 0 <= k < c.len() ==> is_white_space(#[trigger] c[k]) {
        if a < b {
            assert(is_white_space(c[a]));
        }
    }
}

/// Executable [`commit_summary`] for one request and its confined path.
pub fn commit_summary_of(request: &MutationRequest, path: &str) -> (r: String)
    ensures
        r@ == commit_summary(ov(request.commit_message), request.which, path@),
{
    match &request.commit_message {
        Some(c) => {
            let t = trim_chars(&chars_of(c.as_str()));
            if t.len() != 0 {
                return string_from(&t);
            }
        },
        None => {},
    }
    let mut r = match request.which {
        MutationKind::Write => copy_string("Update"),
        MutationKind::Delete => copy_string("Delete"),
    };
    r.append(" memory file ");
    r.append(path);
    r
}

/// Outcome of the commit transaction: whether a commit was created, and the
/// new head revision when it was.
#[derive(Debug)]
pub struct MutationOutcome {
    pub committed: bool,
    pub revision: Option<String>,
}

/// Payload of a refresh notice (arbitrary otherwise).
pub open spec fn updated_payload(m: MemoryMessage) -> MemoryUpdatedMessage {
    match m {
        MemoryMessage::Updated(p) => p,
        _ => arbitrary(),
    }
}

fn updated_frame(paths: Vec<String>, timestamp: i64) -> (r: MemoryMessage)
    ensures
        r is Updated,
        updated_payload(r).affected_paths@ == paths@,
        updated_payload(r).timestamp == timestamp,
{
    MemoryMessage::Updated(MemoryUpdatedMessage { affected_paths: paths, timestamp })
}

/// Terminal frames of one mutation: a committed change emits the
/// `memory_updated` snapshot of its path strictly before the success
/// response; a no-change mutation answers success alone; a failed
/// transaction answers the scrubbed failure alone.
pub fn mutation_answer(
    request: &MutationRequest,
    path: &str,
    outcome: Result<MutationOutcome, ()>,
    timestamp: i64,
) -> (r: Vec<MemoryMessage>)
    ensures
        match outcome {
            Err(_) => r@.len() == 1 && is_mutation_response(r@[0], request.which)
                && !mutation_payload(r@[0]).success && mutation_payload(r@[0]).path@
                == request.path@ && ov(mutation_payload(r@[0]).error) == Some(
                match request.which {
                    MutationKind::Write => write_failure(),
                    MutationKind::Delete => delete_failure(),
                },
            ),
            Ok(o) => {
                let resp = r@.last();
                &&& r@.len() == (if o.committed { 2int } else { 1int })
                &&& is_mutation_response(resp, request.which)
                &&& mutation_payload(resp).success
                &&& mutation_payload(resp).committed == Some(o.committed)
                &&& ov(mutation_payload(resp).commit_sha) == ov(o.revision)
                &&& mutation_payload(resp).error is None
                &&& mutation_payload(resp).path@ == path@
                &&& o.committed ==> r@[0] is Updated && string_views(
                    updated_payload(r@[0]).affected_paths@,
                ) == seq![path@] && updated_payload(r@[0]).timestamp == timestamp
            },
        },
{
    let mut r: Vec<MemoryMessage> = Vec::new();
    match outcome {
        Err(_) => {
            let scrubbed = match request.which {
                MutationKind::Write => copy_string("Failed to write memory file"),
                MutationKind::Delete => copy_string("Failed to delete memory file"),
            };
            r.push(mutation_frame(request, request.path.as_str(), false, None, None, Some(scrubbed)));
        },
        Ok(o) => {
            if o.committed {
                let mut paths: Vec<String> = Vec::new();
                paths.push(copy_string(path));
                assert(string_views(paths@) =~= seq![path@]);
                r.push(updated_frame(paths, timestamp));
            }
            r.push(mutation_frame(request, path, true, Some(o.committed), o.revision, None));
        },
    }
    r
}

// ── enable_memfs ────────────────────────────────────────────────────────────

/// Payload of an enable response (arbitrary otherwise).
pub open spec fn enable_payload(m: MemoryMessage) -> EnableMemfsResponseMessage {
    match m {
        MemoryMessage::EnableMemfsResponse(p) => p,
        _ => arbitrary(),
    }
}

/// Agent memory repository directory under the backend root.
pub open spec fn memory_root(backend_root: Seq<char>, agent_id: Seq<char>) -> Seq<char> {
    backend_root + "/memfs/"@ + agent_id + "/memory"@
}

/// Executable [`memory_root`].
pub fn memory_root_of(backend_root: &str, agent_id: &str) -> (r: String)
    ensures
        r@ == memory_root(backend_root@, agent_id@),
{
    let mut r = copy_string(backend_root);
    r.append("/memfs/");
    r.append(agent_id);
    r.append("/memory");
    r
}

/// Enable frames. `ready` is whether the repository is (now) initialized:
/// already enabled, or freshly initialized. Success answers the memory
/// directory first and then a whole-list `["*"]` refresh; failure answers
/// the scrubbed detail alone.
pub fn enable_answer(
    command: &EnableMemfsCommand,
    agent_valid: bool,
    ready: bool,
    backend_root: &str,
    timestamp: i64,
) -> (r: Vec<MemoryMessage>)
    ensures
        r@.len() >= 1,
        r@[0] is EnableMemfsResponse,
        enable_payload(r@[0]).request_id@ == command.request_id@,
        agent_valid && ready ==> {
            &&& r@.len() == 2
            &&& enable_payload(r@[0]).success
            &&& ov(enable_payload(r@[0]).memory_directory) == Some(
                memory_root(backend_root@, command.agent_id@),
            )
            &&& enable_payload(r@[0]).error is None
            &&& r@[1] is Updated
            &&& string_views(updated_payload(r@[1]).affected_paths@) == seq!["*"@]
            &&& updated_payload(r@[1]).timestamp == timestamp
        },
        !(agent_valid && ready) ==> r@.len() == 1 && !enable_payload(r@[0]).success
            && enable_payload(r@[0]).memory_directory is None && ov(enable_payload(r@[0]).error)
            == Some(enable_failure()),
{
    let mut r: Vec<MemoryMessage> = Vec::new();
    if !agent_valid || !ready {
        r.push(
            MemoryMessage::EnableMemfsResponse(
                EnableMemfsResponseMessage {
                    request_id: copy_string(command.request_id.as_str()),
                    success: false,
                    memory_directory: None,
                    error: Some(copy_string("Failed to enable memfs")),
                },
            ),
        );
        return r;
    }
    r.push(
        MemoryMessage::EnableMemfsResponse(
            EnableMemfsResponseMessage {
                request_id: copy_string(command.request_id.as_str()),
                success: true,
                memory_directory: Some(memory_root_of(backend_root, command.agent_id.as_str())),
                error: None,
            },
        ),
    );
    let mut paths: Vec<String> = Vec::new();
    paths.push(copy_string("*"));
    assert(string_views(paths@) =~= seq!["*"@]);
    r.push(updated_frame(paths, timestamp));
    r
}

} // verus!
