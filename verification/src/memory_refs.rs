//! Wiki-link reference resolution and frontmatter splitting for memory
//! listings.

use crate::memory_paths::{
    find_char_from, is_markdown, join_path, join_with, last_index_of, lemma_next_index_bounds, lit,
    markdown_path, next_index_of, normalize_path, parent_directory, parent_of, posix_join,
    posix_normalize, views,
};
use crate::text::{
    append_chars, chars_of, concat_chars, has_prefix, matches_at, same_chars, slice_chars,
    starts_with, string_from, trim_chars, trimmed,
};
use vstd::prelude::*;

verus! {

// ── Substring search ────────────────────────────────────────────────────────

/// Least `j >= i` at which `p` occurs in `s`, or `-1`.
pub open spec fn find_from(s: Seq<char>, p: Seq<char>, i: int) -> int
    decreases s.len() + 1 - i,
{
    if i < 0 || i + p.len() > s.len() {
        -1
    } else if crate::text::occurs_at(s, p, i) {
        i
    } else {
        find_from(s, p, i + 1)
    }
}

pub proof fn lemma_find_from_bounds(s: Seq<char>, p: Seq<char>, i: int)
    requires
        0 <= i,
    ensures
        find_from(s, p, i) == -1 || (i <= find_from(s, p, i) && find_from(s, p, i) + p.len()
            <= s.len()),
    decreases s.len() + 1 - i,
{
    if i + p.len() <= s.len() && !crate::text::occurs_at(s, p, i) {
        lemma_find_from_bounds(s, p, i + 1);
    }
}

/// Executable [`find_from`].
pub fn find_seq_from(s: &Vec<char>, p: &Vec<char>, i: usize) -> (r: Option<usize>)
    requires
        i <= s@.len(),
    ensures
        match r {
            Some(j) => j as int == find_from(s@, p@, i as int),
            None => find_from(s@, p@, i as int) == -1,
        },
{
    let mut j = i;
    proof { lemma_find_from_bounds(s@, p@, i as int); }
    loop
        invariant
            i <= j <= s@.len(),
            find_from(s@, p@, i as int) == find_from(s@, p@, j as int),
        decreases s@.len() - j,
    {
        if p.len() > s.len() - j {
            return None;
        }
        if p.len() == 0 {
            assert(s@.subrange(j as int, j as int) =~= p@);
            return Some(j);
        }
        if matches_at(s, p, j) {
            return Some(j);
        }
        j = j + 1;
    }
}

// ── Wiki-link targets ───────────────────────────────────────────────────────

/// Trimmed `[[target]]` bodies found from index `i` on, left to right.
pub open spec fn targets_from(s: Seq<char>, i: int) -> Seq<Seq<char>>
    decreases s.len() + 1 - i,
{
    if i < 0 || i > s.len() {
        Seq::empty()
    } else {
        let st = find_from(s, seq!['[', '['], i);
        proof {
            lemma_find_from_bounds(s, seq!['[', '['], i);
        }
        if st < 0 {
            Seq::empty()
        } else {
            let en = find_from(s, seq![']', ']'], st + 2);
            proof {
                lemma_find_from_bounds(s, seq![']', ']'], st + 2);
            }
            if en < 0 {
                Seq::empty()
            } else {
                seq![trimmed(s.subrange(st + 2, en))] + targets_from(s, en + 2)
            }
        }
    }
}

/// Every wiki-link target of a markdown body.
pub open spec fn wiki_targets(body: Seq<char>) -> Seq<Seq<char>> {
    targets_from(body, 0)
}

/// Extracts every wiki-link target of a markdown body.
pub fn wiki_target_list(body: &Vec<char>) -> (r: Vec<Vec<char>>)
    ensures
        views(r@) == wiki_targets(body@),
{
    let open: Vec<char> = vec!['[', '['];
    let close: Vec<char> = vec![']', ']'];
    let mut r: Vec<Vec<char>> = Vec::new();
    let mut i: usize = 0;
    let n = body.len();
    assert(views(r@) =~= Seq::<Seq<char>>::empty());
    loop
        invariant
            i <= body@.len(),
            body@.len() <= usize::MAX,
            open@ == seq!['[', '['],
            close@ == seq![']', ']'],
            wiki_targets(body@) == views(r@) + targets_from(body@, i as int),
        decreases body@.len() - i,
    {
        let ghost before = views(r@);
        proof { lemma_find_from_bounds(body@, seq!['[', '['], i as int); }
        let st = match find_seq_from(body, &open, i) {
            None => {
                assert(views(r@) + targets_from(body@, i as int) =~= views(r@));
                return r;
            },
            Some(st) => st,
        };
        proof { lemma_find_from_bounds(body@, seq![']', ']'], st + 2); }
        let en = match find_seq_from(body, &close, st + 2) {
            None => {
                assert(views(r@) + targets_from(body@, i as int) =~= views(r@));
                return r;
            },
            Some(en) => en,
        };
        let inner = slice_chars(body, st + 2, en);
        let t = trim_chars(&inner);
        r.push(t);
        assert(views(r@) =~= before.push(trimmed(body@.subrange(st + 2, en as int))));
        assert(targets_from(body@, i as int) =~= seq![trimmed(body@.subrange(st + 2, en as int))]
            + targets_from(body@, en + 2));
        i = en + 2;
    }
}

// ── Reference resolution ────────────────────────────────────────────────────

/// Least `j >= i` holding `#` or `?`, or `s.len()`.
pub open spec fn next_fragment(s: Seq<char>, i: int) -> int
    decreases s.len() - i,
{
    if i >= s.len() {
        s.len() as int
    } else if s[i] == '#' || s[i] == '?' {
        i
    } else {
        next_fragment(s, i + 1)
    }
}

/// `\` replaced by `/`.
pub open spec fn forward_slashes(s: Seq<char>) -> Seq<char> {
    s.map_values(|c: char| if c == '\\' { '/' } else { c })
}

/// Index of the first character that is not `/`, at or after `i`.
pub open spec fn skip_slashes(s: Seq<char>, i: int) -> int
    decreases s.len() - i,
{
    if i >= s.len() {
        s.len() as int
    } else if s[i] == '/' {
        skip_slashes(s, i + 1)
    } else {
        i
    }
}

/// Whether the target points outside the memory (web or mail links).
pub open spec fn is_external(t: Seq<char>) -> bool {
    has_prefix(t, "http://"@) || has_prefix(t, "https://"@) || has_prefix(t, "mailto:"@)
}

/// The memory-relative markdown path a raw wiki target names, before it is
/// matched against the known files, or `None` when it names nothing.
pub open spec fn reference_path(raw: Seq<char>, source: Seq<char>) -> Option<Seq<char>> {
    let target = trimmed(raw.subrange(0, next_index_of(raw, '|', 0)));
    if target.len() == 0 || is_external(target) || has_prefix(target, "#"@) {
        None
    } else {
        let t = forward_slashes(target.subrange(0, next_fragment(target, 0)));
        let normalized = if has_prefix(t, "./"@) || has_prefix(t, "../"@) {
            posix_normalize(posix_join(parent_directory(source), t))
        } else {
            posix_normalize(t.subrange(skip_slashes(t, 0), t.len() as int))
        };
        if normalized.len() == 0 {
            None
        } else if is_markdown(normalized) {
            Some(normalized)
        } else {
            Some(normalized + ".md"@)
        }
    }
}

/// Candidate known paths for one resolved target, in preference order:
/// as written, beside the source, then under `system/`.
pub open spec fn reference_candidates(path: Seq<char>, source: Seq<char>) -> Seq<Seq<char>> {
    let dir = parent_directory(source);
    let beside = if dir.len() != 0 { seq![posix_join(dir, path)] } else { Seq::empty() };
    let system = if !has_prefix(path, "system/"@) {
        seq![posix_join("system"@, path)]
    } else {
        Seq::empty()
    };
    seq![path] + beside + system
}

/// First candidate contained in `known`.
pub open spec fn first_known(candidates: Seq<Seq<char>>, known: Seq<Seq<char>>) -> Option<
    Seq<char>,
>
    decreases candidates.len(),
{
    if candidates.len() == 0 {
        None
    } else if known.contains(candidates[0]) {
        Some(candidates[0])
    } else {
        first_known(candidates.drop_first(), known)
    }
}

/// The known memory file one raw wiki target resolves to.
pub open spec fn resolve_reference(raw: Seq<char>, source: Seq<char>, known: Seq<Seq<char>>) -> Option<
    Seq<char>,
> {
    match reference_path(raw, source) {
        None => None,
        Some(path) => first_known(reference_candidates(path, source), known),
    }
}

fn fragment_cut(s: &Vec<char>) -> (r: usize)
    ensures
        r as int == next_fragment(s@, 0),
        r <= s@.len(),
{
    let mut j: usize = 0;
    while j < s.len() && s[j] != '#' && s[j] != '?'
        invariant
            j <= s@.len(),
            next_fragment(s@, 0) == next_fragment(s@, j as int),
        decreases s@.len() - j,
    {
        j = j + 1;
    }
    j
}

fn slashes_end(s: &Vec<char>) -> (r: usize)
    ensures
        r as int == skip_slashes(s@, 0),
        r <= s@.len(),
{
    let mut j: usize = 0;
    while j < s.len() && s[j] == '/'
        invariant
            j <= s@.len(),
            skip_slashes(s@, 0) == skip_slashes(s@, j as int),
        decreases s@.len() - j,
    {
        j = j + 1;
    }
    j
}

fn forward_slash_copy(s: &Vec<char>, to: usize) -> (r: Vec<char>)
    requires
        to <= s@.len(),
    ensures
        r@ == forward_slashes(s@.subrange(0, to as int)),
{
    let mut r: Vec<char> = Vec::new();
    let mut i: usize = 0;
    while i < to
        invariant
            i <= to <= s@.len(),
            r@ == forward_slashes(s@.subrange(0, i as int)),
        decreases to - i,
    {
        let c = s[i];
        r.push(if c == '\\' { '/' } else { c });
        assert(forward_slashes(s@.subrange(0, i + 1)) =~= forward_slashes(
            s@.subrange(0, i as int),
        ).push(if c == '\\' { '/' } else { c }));
        i = i + 1;
    }
    r
}

fn external_target(t: &Vec<char>) -> (b: bool)
    ensures
        b == is_external(t@),
{
    starts_with(t, &lit("http://")) || starts_with(t, &lit("https://")) || starts_with(
        t,
        &lit("mailto:"),
    )
}

/// Executable [`reference_path`].
pub fn reference_path_of(raw: &Vec<char>, source: &Vec<char>) -> (r: Option<Vec<char>>)
    ensures
        match r {
            Some(p) => reference_path(raw@, source@) == Some(p@),
            None => reference_path(raw@, source@) is None,
        },
{
    let bar = find_char_from(raw, '|', 0);
    let head = slice_chars(raw, 0, bar);
    let target = trim_chars(&head);
    if target.len() == 0 || external_target(&target) || starts_with(&target, &lit("#")) {
        return None;
    }
    let cut = fragment_cut(&target);
    let t = forward_slash_copy(&target, cut);
    let normalized = if starts_with(&t, &lit("./")) || starts_with(&t, &lit("../")) {
        let parent = parent_of(source);
        let joined = join_path(&parent, &t);
        normalize_path(&joined)
    } else {
        let start = slashes_end(&t);
        let rest = slice_chars(&t, start, t.len());
        normalize_path(&rest)
    };
    if normalized.len() == 0 {
        None
    } else if markdown_path(&normalized) {
        Some(normalized)
    } else {
        Some(concat_chars(&normalized, &lit(".md")))
    }
}

fn known_contains(known: &Vec<Vec<char>>, candidate: &Vec<char>) -> (b: bool)
    ensures
        b == views(known@).contains(candidate@),
{
    let mut i: usize = 0;
    while i < known.len()
        invariant
            i <= known@.len(),
            forall|k: int| 0 <= k < i ==> known@[k]@ != candidate@,
        decreases known@.len() - i,
    {
        if same_chars(&known[i], candidate) {
            assert(views(known@)[i as int] == candidate@);
            return true;
        }
        i = i + 1;
    }
    assert forall|k: int| 0 <= k < views(known@).len() implies views(known@)[k] != candidate@ by {
        assert(known@[k]@ != candidate@);
    }
    false
}

/// Executable [`resolve_reference`] against the views of `known`.
pub fn resolve_reference_of(raw: &Vec<char>, source: &Vec<char>, known: &Vec<Vec<char>>) -> (r:
    Option<Vec<char>>)
    ensures
        match r {
            Some(p) => resolve_reference(raw@, source@, views(known@)) == Some(p@),
            None => resolve_reference(raw@, source@, views(known@)) is None,
        },
{
    let path = match reference_path_of(raw, source) {
        None => return None,
        Some(p) => p,
    };
    let ghost cands = reference_candidates(path@, source@);
    let ghost kv = views(known@);
    if known_contains(known, &path) {
        assert(first_known(cands, kv) == Some(path@));
        return Some(path);
    }
    assert(first_known(cands, kv) == first_known(cands.drop_first(), kv));
    let dir = parent_of(source);
    let system_dir = lit("system/");
    let ghost rest = cands.drop_first();
    if dir.len() != 0 {
        let beside = join_path(&dir, &path);
        assert(rest[0] == beside@);
        if known_contains(known, &beside) {
            return Some(beside);
        }
        assert(first_known(rest, kv) == first_known(rest.drop_first(), kv));
        if !starts_with(&path, &system_dir) {
            let system = join_path(&lit("system"), &path);
            assert(rest.drop_first() =~= seq![system@]);
            if known_contains(known, &system) {
                return Some(system);
            }
            assert(first_known(rest.drop_first().drop_first(), kv) is None);
        } else {
            assert(rest.drop_first() =~= Seq::<Seq<char>>::empty());
        }
        None
    } else {
        if !starts_with(&path, &system_dir) {
            let system = join_path(&lit("system"), &path);
            assert(rest =~= seq![system@]);
            if known_contains(known, &system) {
                return Some(system);
            }
            assert(first_known(rest.drop_first(), kv) is None);
        } else {
            assert(rest =~= Seq::<Seq<char>>::empty());
        }
        None
    }
}

proof fn lemma_last_slash_at(s: Seq<char>, at: int, j: int)
    requires
        0 <= at < j <= s.len(),
        s[at] == '/',
        forall|k: int| at < k < s.len() ==> s[k] != '/',
    ensures
        last_index_of(s, '/', j) == at,
    decreases j,
{
    if j - 1 > at {
        lemma_last_slash_at(s, at, j - 1);
    }
}

proof fn lemma_no_slash(s: Seq<char>, j: int)
    requires
        0 <= j <= s.len(),
        forall|k: int| 0 <= k < s.len() ==> s[k] != '/',
    ensures
        last_index_of(s, '/', j) == -1,
    decreases j,
{
    if j > 0 {
        lemma_no_slash(s, j - 1);
    }
}

/// Where a wiki link from a note inside a folder `dir` resolves, `p` being
/// the memory path the link names: the path as written when it is a known
/// file, else the same path beside the note (`dir/p`), else under `system/`
/// (unless it already starts there), else nowhere.
pub proof fn law_reference_from_folder(raw: Seq<char>, dir: Seq<char>, name: Seq<char>, known: Seq<Seq<char>>)
    requires
        dir.len() > 0,
        forall|k: int| 0 <= k < name.len() ==> name[k] != '/',
        reference_path(raw, dir + seq!['/'] + name) is Some,
    ensures
        ({
            let source = dir + seq!['/'] + name;
            let p = reference_path(raw, source)->Some_0;
            let beside = dir + seq!['/'] + p;
            let system = seq!['s', 'y', 's', 't', 'e', 'm', '/'] + p;
            let r = resolve_reference(raw, source, known);
            &&& known.contains(p) ==> r == Some(p)
            &&& !known.contains(p) && known.contains(beside) ==> r == Some(beside)
            &&& (!known.contains(p) && !known.contains(beside) && !has_prefix(p, "system/"@)
                && known.contains(system)) ==> r == Some(system)
            &&& (!known.contains(p) && !known.contains(beside) && (has_prefix(p, "system/"@)
                || !known.contains(system))) ==> r is None
        }),
{
    let source = dir + seq!['/'] + name;
    let p = reference_path(raw, source)->Some_0;
    let beside = dir + seq!['/'] + p;
    let system = seq!['s', 'y', 's', 't', 'e', 'm', '/'] + p;
    assert forall|k: int| dir.len() < k < source.len() implies source[k] != '/' by {
        assert(source[k] == name[k - dir.len() - 1]);
    }
    lemma_last_slash_at(source, dir.len() as int, source.len() as int);
    assert(parent_directory(source) =~= dir);
    reveal_strlit("system");
    assert(posix_join("system"@, p) =~= system);
    let sys = if !has_prefix(p, "system/"@) { seq![system] } else { Seq::<Seq<char>>::empty() };
    assert(reference_candidates(p, source) =~= seq![p, beside] + sys);
    reveal_with_fuel(first_known, 4);
    let cands = seq![p, beside] + sys;
    assert(cands.drop_first() =~= seq![beside] + sys);
    assert(cands.drop_first().drop_first() =~= sys);
    if sys.len() > 0 {
        assert(sys.drop_first() =~= Seq::<Seq<char>>::empty());
    }
}

/// Where a wiki link from a note at the top of the memory resolves, `p`
/// being the memory path the link names: the path as written when it is a
/// known file, else under `system/` (unless it already starts there), else
/// nowhere.
pub proof fn law_reference_from_top(raw: Seq<char>, name: Seq<char>, known: Seq<Seq<char>>)
    requires
        forall|k: int| 0 <= k < name.len() ==> name[k] != '/',
        reference_path(raw, name) is Some,
    ensures
        ({
            let p = reference_path(raw, name)->Some_0;
            let system = seq!['s', 'y', 's', 't', 'e', 'm', '/'] + p;
            let r = resolve_reference(raw, name, known);
            &&& known.contains(p) ==> r == Some(p)
            &&& (!known.contains(p) && !has_prefix(p, "system/"@) && known.contains(system)) ==> r
                == Some(system)
            &&& (!known.contains(p) && (has_prefix(p, "system/"@) || !known.contains(system))) ==> r
                is None
        }),
{
    let p = reference_path(raw, name)->Some_0;
    let system = seq!['s', 'y', 's', 't', 'e', 'm', '/'] + p;
    lemma_no_slash(name, name.len() as int);
    assert(parent_directory(name) =~= Seq::<char>::empty());
    reveal_strlit("system");
    assert(posix_join("system"@, p) =~= system);
    let sys = if !has_prefix(p, "system/"@) { seq![system] } else { Seq::<Seq<char>>::empty() };
    assert(reference_candidates(p, name) =~= seq![p] + sys);
    reveal_with_fuel(first_known, 3);
    let cands = seq![p] + sys;
    assert(cands.drop_first() =~= sys);
    if sys.len() > 0 {
        assert(sys.drop_first() =~= Seq::<Seq<char>>::empty());
    }
}

/// Resolved references of a body, in first-mention order, without repeats
/// and without the source itself, after processing `targets[0..k]`.
pub open spec fn references_upto(
    targets: Seq<Seq<char>>,
    source: Seq<char>,
    known: Seq<Seq<char>>,
    k: int,
) -> Seq<Seq<char>>
    decreases k,
{
    if k <= 0 || k > targets.len() {
        Seq::empty()
    } else {
        let acc = references_upto(targets, source, known, k - 1);
        match resolve_reference(targets[k - 1], source, known) {
            Some(r) => if r != source && !acc.contains(r) {
                acc.push(r)
            } else {
                acc
            },
            None => acc,
        }
    }
}

/// Resolved wiki-link references of one markdown body.
pub open spec fn wiki_references(body: Seq<char>, source: Seq<char>, known: Seq<Seq<char>>) -> Seq<
    Seq<char>,
> {
    let t = wiki_targets(body);
    references_upto(t, source, known, t.len() as int)
}

/// Resolves the wiki-link references of one markdown body against the known
/// markdown paths of the listing.
pub fn wiki_reference_list(body: &Vec<char>, source: &Vec<char>, known: &Vec<Vec<char>>) -> (r:
    Vec<Vec<char>>)
    ensures
        views(r@) == wiki_references(body@, source@, views(known@)),
{
    let targets = wiki_target_list(body);
    let mut r: Vec<Vec<char>> = Vec::new();
    let mut k: usize = 0;
    assert(views(r@) =~= Seq::<Seq<char>>::empty());
    while k < targets.len()
        invariant
            k <= targets@.len(),
            views(targets@) == wiki_targets(body@),
            views(r@) == references_upto(views(targets@), source@, views(known@), k as int),
        decreases targets@.len() - k,
    {
        let ghost before = views(r@);
        assert(views(targets@)[k as int] == targets@[k as int]@);
        match resolve_reference_of(&targets[k], source, known) {
            None => {},
            Some(resolved) => {
                if !same_chars(&resolved, source) && !known_contains(&r, &resolved) {
                    r.push(resolved);
                    assert(views(r@) =~= before.push(resolved@));
                }
            },
        }
        k = k + 1;
    }
    r
}

// ── Frontmatter ─────────────────────────────────────────────────────────────

/// Decoded value of a JSON string literal, as `serde_json` reads one.
pub uninterp spec fn json_string_literal(text: Seq<char>) -> Option<Seq<char>>;

/// Parses one JSON string literal through `serde_json::from_str::<String>`.
///
/// The contract names the result; it claims nothing about which texts
/// `serde_json` accepts.
#[verifier::external_body]
fn parse_json_string(text: &str) -> (r: Option<String>)
    ensures
        match r {
            Some(v) => json_string_literal(text@) == Some(v@),
            None => json_string_literal(text@) is None,
        },
{
    serde_json::from_str::<String>(text).ok()
}

/// Lines of `s` from index `i`, as `str::lines` yields them: split at `\n`,
/// one `\r` before each `\n` removed, no empty final line.
pub open spec fn lines_from(s: Seq<char>, i: int) -> Seq<Seq<char>>
    decreases s.len() + 1 - i,
{
    if i < 0 || i >= s.len() {
        Seq::empty()
    } else {
        let j = next_index_of(s, '\n', i);
        proof {
            lemma_next_index_bounds(s, '\n', i);
        }
        let line = s.subrange(i, j);
        let stripped = if j < s.len() && line.len() > 0 && line.last() == '\r' {
            line.drop_last()
        } else {
            line
        };
        seq![stripped] + lines_from(s, j + 1)
    }
}

/// `s` without any trailing `\r`.
pub open spec fn strip_trailing_cr(s: Seq<char>) -> Seq<char>
    decreases s.len(),
{
    if s.len() > 0 && s.last() == '\r' {
        strip_trailing_cr(s.drop_last())
    } else {
        s
    }
}

/// `s` without leading and trailing `"`.
pub open spec fn strip_quotes(s: Seq<char>) -> Seq<char>
    decreases s.len(),
{
    if s.len() > 0 && s[0] == '"' {
        strip_quotes(s.drop_first())
    } else if s.len() > 0 && s.last() == '"' {
        strip_quotes(s.drop_last())
    } else {
        s
    }
}

/// Frontmatter `description:` value: trimmed, and a quoted value decoded as
/// a JSON string (falling back to the text without its quotes).
pub open spec fn description_value(value: Seq<char>) -> Seq<char> {
    let t = trimmed(value);
    if t.len() >= 2 && t[0] == '"' && t.last() == '"' {
        match json_string_literal(t) {
            Some(d) => d,
            None => strip_quotes(t),
        }
    } else {
        t
    }
}

/// Frontmatter scanner state: description so far, whether the closing
/// fence was seen, and the body lines after it.
pub struct FrontmatterScan {
    pub description: Option<Seq<char>>,
    pub closed: bool,
    pub body: Seq<Seq<char>>,
}

/// One line of the frontmatter scan.
pub open spec fn scan_line(st: FrontmatterScan, line: Seq<char>) -> FrontmatterScan {
    if st.closed {
        FrontmatterScan { body: st.body.push(line), ..st }
    } else if strip_trailing_cr(line) == "---"@ {
        FrontmatterScan { closed: true, ..st }
    } else if has_prefix(line, "description:"@) {
        FrontmatterScan {
            description: Some(description_value(line.subrange(12, line.len() as int))),
            ..st
        }
    } else {
        st
    }
}

/// Scan state after the first `k` lines.
pub open spec fn scan_upto(lines: Seq<Seq<char>>, k: int) -> FrontmatterScan
    decreases k,
{
    if k <= 0 || k > lines.len() {
        FrontmatterScan { description: None, closed: false, body: Seq::empty() }
    } else {
        scan_line(scan_upto(lines, k - 1), lines[k - 1])
    }
}

/// `(description, body)` of a memory markdown text: text opening with a
/// `---` fence line and closed by another yields the fence's description
/// and the following lines joined by `\n`; any other text is all body.
pub open spec fn split_frontmatter(text: Seq<char>) -> (Option<Seq<char>>, Seq<char>) {
    let start = if has_prefix(text, "---\n"@) {
        4int
    } else if has_prefix(text, "---\r\n"@) {
        5int
    } else {
        -1int
    };
    if start < 0 {
        (None, text)
    } else {
        let lines = lines_from(text, start);
        let st = scan_upto(lines, lines.len() as int);
        if !st.closed {
            (None, text)
        } else {
            (st.description, join_with(st.body, '\n'))
        }
    }
}

fn line_list(s: &Vec<char>, start: usize) -> (r: Vec<Vec<char>>)
    requires
        start <= s@.len(),
    ensures
        views(r@) == lines_from(s@, start as int),
{
    let mut r: Vec<Vec<char>> = Vec::new();
    let mut i = start;
    assert(views(r@) =~= Seq::<Seq<char>>::empty());
    while i < s.len()
        invariant
            start <= i <= s@.len(),
            lines_from(s@, start as int) == views(r@) + lines_from(s@, i as int),
        decreases s@.len() - i,
    {
        let ghost before = views(r@);
        let j = find_char_from(s, '\n', i);
        let line = slice_chars(s, i, j);
        let stripped = if j < s.len() && line.len() > 0 && line[line.len() - 1] == '\r' {
            slice_chars(&line, 0, line.len() - 1)
        } else {
            line
        };
        proof {
            if j < s@.len() && line@.len() > 0 && line@.last() == '\r' {
                assert(stripped@ =~= line@.drop_last());
            }
        }
        r.push(stripped);
        assert(views(r@) =~= before.push(stripped@));
        assert(lines_from(s@, i as int) =~= seq![stripped@] + lines_from(s@, j + 1));
        if j == s.len() {
            i = j;
        } else {
            i = j + 1;
        }
    }
    assert(views(r@) + lines_from(s@, i as int) =~= views(r@));
    r
}

fn strip_cr_all(s: &Vec<char>) -> (r: Vec<char>)
    ensures
        r@ == strip_trailing_cr(s@),
{
    let mut b = s.len();
    assert(s@.subrange(0, b as int) =~= s@);
    while b > 0 && s[b - 1] == '\r'
        invariant
            b <= s@.len(),
            strip_trailing_cr(s@) == strip_trailing_cr(s@.subrange(0, b as int)),
        decreases b,
    {
        assert(s@.subrange(0, b as int).drop_last() =~= s@.subrange(0, b - 1));
        b = b - 1;
    }
    assert(s@.subrange(0, b as int).len() == 0 || s@.subrange(0, b as int).last() != '\r');
    slice_chars(s, 0, b)
}

fn strip_quotes_all(s: &Vec<char>) -> (r: Vec<char>)
    ensures
        r@ == strip_quotes(s@),
{
    let mut a: usize = 0;
    let mut b: usize = s.len();
    assert(s@.subrange(0, b as int) =~= s@);
    while a < b && (s[a] == '"' || s[b - 1] == '"')
        invariant
            a <= b <= s@.len(),
            strip_quotes(s@) == strip_quotes(s@.subrange(a as int, b as int)),
        decreases b - a,
    {
        if s[a] == '"' {
            assert(s@.subrange(a as int, b as int).drop_first() =~= s@.subrange(a + 1, b as int));
            a = a + 1;
        } else {
            assert(s@.subrange(a as int, b as int).drop_last() =~= s@.subrange(a as int, b - 1));
            b = b - 1;
        }
    }
    slice_chars(s, a, b)
}

/// Executable [`description_value`].
pub fn description_of(value: &Vec<char>) -> (r: Vec<char>)
    ensures
        r@ == description_value(value@),
{
    let t = trim_chars(value);
    if t.len() >= 2 && t[0] == '"' && t[t.len() - 1] == '"' {
        let text = string_from(&t);
        match parse_json_string(text.as_str()) {
            Some(d) => chars_of(d.as_str()),
            None => strip_quotes_all(&t),
        }
    } else {
        t
    }
}

/// Splits a memory markdown text into `(description, body)`.
pub fn split_frontmatter_of(text: &Vec<char>) -> (r: (Option<Vec<char>>, Vec<char>))
    ensures
        ({
            let expected = split_frontmatter(text@);
            &&& r.1@ == expected.1
            &&& match r.0 {
                Some(d) => expected.0 == Some(d@),
                None => expected.0 is None,
            }
        }),
{
    let start: usize = if starts_with(text, &lit("---\n")) {
        4
    } else if starts_with(text, &lit("---\r\n")) {
        5
    } else {
        return (None, slice_chars(text, 0, text.len()));
    };
    proof {
        reveal_strlit("---\n");
        reveal_strlit("---\r\n");
    }
    let lines = line_list(text, start);
    let fence = lit("---");
    let key = lit("description:");
    proof {
        reveal_strlit("description:");
    }
    let mut description: Option<Vec<char>> = None;
    let mut closed = false;
    let mut body: Vec<Vec<char>> = Vec::new();
    let mut k: usize = 0;
    assert(views(body@) =~= Seq::<Seq<char>>::empty());
    while k < lines.len()
        invariant
            k <= lines@.len(),
            fence@ == "---"@,
            key@ == "description:"@,
            key@.len() == 12,
            ({
                let st = scan_upto(views(lines@), k as int);
                &&& st.closed == closed
                &&& views(body@) == st.body
                &&& match description {
                    Some(d) => st.description == Some(d@),
                    None => st.description is None,
                }
            }),
        decreases lines@.len() - k,
    {
        let line = &lines[k];
        assert(views(lines@)[k as int] == line@);
        let ghost before = views(body@);
        if closed {
            body.push(slice_chars(line, 0, line.len()));
            assert(line@.subrange(0, line@.len() as int) =~= line@);
            assert(views(body@) =~= before.push(line@));
        } else if same_chars(&strip_cr_all(line), &fence) {
            closed = true;
        } else if starts_with(line, &key) {
            let value = slice_chars(line, 12, line.len());
            description = Some(description_of(&value));
        }
        k = k + 1;
    }
    assert(text@.subrange(0, text@.len() as int) =~= text@);
    if !closed {
        return (None, slice_chars(text, 0, text.len()));
    }
    (description, join_parts_nl(&body))
}

fn join_parts_nl(parts: &Vec<Vec<char>>) -> (r: Vec<char>)
    ensures
        r@ == join_with(views(parts@), '\n'),
{
    crate::memory_paths::join_parts(parts, '\n')
}

} // verus!
