//! Memory path confinement, POSIX path arithmetic, listing classification,
//! wiki-link reference resolution and frontmatter splitting.

use crate::text::{append_chars, chars_of, copy_string, same_chars, slice_chars};
use vstd::prelude::*;

verus! {

/// Lexical confinement classification shared with the memory tools.
#[derive(Clone, Copy, Debug, PartialEq, Eq)]
pub enum PathRejection {
    /// Empty or absolute input.
    NotRelative,
    /// Traversal (or a non-normal component) escaping the agent memory root.
    EscapesRoot,
}

/// Confinement class text for empty or absolute paths.
pub open spec fn not_relative_text() -> Seq<char> {
    "path must be a non-empty relative path"@
}

/// Confinement class text for escaping paths.
pub open spec fn escapes_root_text() -> Seq<char> {
    "path must resolve inside the memory root"@
}

impl PathRejection {
    /// The class text behind an optional prefix.
    pub open spec fn spec_text(self, prefix: Seq<char>) -> Seq<char> {
        match self {
            PathRejection::NotRelative => prefix + not_relative_text(),
            PathRejection::EscapesRoot => prefix + escapes_root_text(),
        }
    }

    /// Renders the rejection behind `prefix`.
    pub fn text(self, prefix: &str) -> (r: String)
        ensures
            r@ == self.spec_text(prefix@),
    {
        let mut r = copy_string(prefix);
        proof {
            reveal_strlit("path must be a non-empty relative path");
            reveal_strlit("path must resolve inside the memory root");
        }
        match self {
            PathRejection::NotRelative => r.append("path must be a non-empty relative path"),
            PathRejection::EscapesRoot => r.append("path must resolve inside the memory root"),
        }
        r
    }
}

// ── Slash-separated components ─────────────────────────────────────────────

/// Least index `j >= i` holding `c`, or `s.len()` when there is none.
pub open spec fn next_index_of(s: Seq<char>, c: char, i: int) -> int
    decreases s.len() - i,
{
    if i >= s.len() {
        s.len() as int
    } else if s[i] == c {
        i
    } else {
        next_index_of(s, c, i + 1)
    }
}

/// Greatest index `k < j` holding `c`, or `-1` when there is none.
pub open spec fn last_index_of(s: Seq<char>, c: char, j: int) -> int
    decreases j,
{
    if j <= 0 {
        -1
    } else if s[j - 1] == c {
        j - 1
    } else {
        last_index_of(s, c, j - 1)
    }
}

pub proof fn lemma_next_index_bounds(s: Seq<char>, c: char, i: int)
    requires
        0 <= i <= s.len(),
    ensures
        i <= next_index_of(s, c, i) <= s.len(),
        next_index_of(s, c, i) < s.len() ==> s[next_index_of(s, c, i)] == c,
        forall|k: int| i <= k < next_index_of(s, c, i) ==> s[k] != c,
    decreases s.len() - i,
{
    if i < s.len() && s[i] != c {
        lemma_next_index_bounds(s, c, i + 1);
    }
}

pub proof fn lemma_last_index_bounds(s: Seq<char>, c: char, j: int)
    requires
        0 <= j <= s.len(),
    ensures
        -1 <= last_index_of(s, c, j) < j,
        last_index_of(s, c, j) >= 0 ==> s[last_index_of(s, c, j)] == c,
        forall|k: int| last_index_of(s, c, j) < k < j ==> s[k] != c,
    decreases j,
{
    if j > 0 && s[j - 1] != c {
        lemma_last_index_bounds(s, c, j - 1);
    }
}

/// Executable [`next_index_of`].
pub fn find_char_from(s: &Vec<char>, c: char, i: usize) -> (r: usize)
    requires
        i <= s@.len(),
    ensures
        r as int == next_index_of(s@, c, i as int),
        i <= r <= s@.len(),
{
    let mut j = i;
    proof { lemma_next_index_bounds(s@, c, i as int); }
    while j < s.len() && s[j] != c
        invariant
            i <= j <= s@.len(),
            next_index_of(s@, c, i as int) == next_index_of(s@, c, j as int),
        decreases s@.len() - j,
    {
        j = j + 1;
    }
    j
}

/// Executable [`last_index_of`] over the whole sequence, or `None` for `-1`.
pub fn rfind_char(s: &Vec<char>, c: char) -> (r: Option<usize>)
    ensures
        match r {
            Some(k) => k as int == last_index_of(s@, c, s@.len() as int) && k < s@.len(),
            None => last_index_of(s@, c, s@.len() as int) == -1,
        },
{
    let mut j = s.len();
    proof { lemma_last_index_bounds(s@, c, s@.len() as int); }
    while j > 0 && s[j - 1] != c
        invariant
            j <= s@.len(),
            last_index_of(s@, c, s@.len() as int) == last_index_of(s@, c, j as int),
        decreases j,
    {
        j = j - 1;
    }
    if j == 0 {
        None
    } else {
        Some(j - 1)
    }
}

// ── POSIX path arithmetic ──────────────────────────────────────────────────

/// Directory part of a POSIX path: everything before the last `/`.
pub open spec fn parent_directory(s: Seq<char>) -> Seq<char> {
    let k = last_index_of(s, '/', s.len() as int);
    if k < 0 {
        Seq::empty()
    } else {
        s.subrange(0, k)
    }
}

/// Joins a parent directory and a child with `/` unless the parent is empty.
pub open spec fn posix_join(parent: Seq<char>, child: Seq<char>) -> Seq<char> {
    if parent.len() == 0 {
        child
    } else {
        parent + seq!['/'] + child
    }
}

/// Applies one component to the lexical normalization stack.
pub open spec fn push_component(stack: Seq<Seq<char>>, part: Seq<char>) -> Seq<Seq<char>> {
    if part.len() == 0 || part == seq!['.'] {
        stack
    } else if part == seq!['.', '.'] {
        if stack.len() == 0 {
            stack
        } else {
            stack.drop_last()
        }
    } else {
        stack.push(part)
    }
}

/// Normalization stack after processing every component starting at `i`.
pub open spec fn normalize_from(s: Seq<char>, i: int, stack: Seq<Seq<char>>) -> Seq<Seq<char>>
    decreases s.len() + 1 - i,
{
    if i < 0 || i > s.len() {
        stack
    } else {
        let j = next_index_of(s, '/', i);
        proof {
            lemma_next_index_bounds(s, '/', i);
        }
        normalize_from(s, j + 1, push_component(stack, s.subrange(i, j)))
    }
}

/// Parts joined by one separator character.
pub open spec fn join_with(parts: Seq<Seq<char>>, sep: char) -> Seq<char>
    decreases parts.len(),
{
    if parts.len() == 0 {
        Seq::empty()
    } else if parts.len() == 1 {
        parts[0]
    } else {
        join_with(parts.drop_last(), sep) + seq![sep] + parts.last()
    }
}

/// Lexically normalized POSIX path: empty and `.` components dropped, `..`
/// popping the previous component (never above the root).
pub open spec fn posix_normalize(s: Seq<char>) -> Seq<char> {
    join_with(normalize_from(s, 0, Seq::empty()), '/')
}

/// Views of a vector of character vectors.
pub open spec fn views(v: Seq<Vec<char>>) -> Seq<Seq<char>> {
    v.map_values(|x: Vec<char>| x@)
}

/// Joins character vectors with one separator character.
pub fn join_parts(parts: &Vec<Vec<char>>, sep: char) -> (r: Vec<char>)
    ensures
        r@ == join_with(views(parts@), sep),
{
    let mut r: Vec<char> = Vec::new();
    let mut i: usize = 0;
    while i < parts.len()
        invariant
            i <= parts@.len(),
            r@ == join_with(views(parts@.subrange(0, i as int)), sep),
        decreases parts@.len() - i,
    {
        let ghost before = views(parts@.subrange(0, i as int));
        if i > 0 {
            r.push(sep);
        }
        append_chars(&mut r, &parts[i]);
        proof {
            let after = views(parts@.subrange(0, i + 1));
            assert(after.drop_last() =~= before);
            assert(after.last() == parts@[i as int]@);
            if i == 0 {
                assert(after =~= seq![parts@[0]@]);
                assert(r@ =~= parts@[0]@);
            }
        }
        i = i + 1;
    }
    assert(parts@.subrange(0, parts@.len() as int) =~= parts@);
    r
}

pub fn is_dot(part: &Vec<char>) -> (b: bool)
    ensures
        b == (part@ == seq!['.']),
{
    let r = part.len() == 1 && part[0] == '.';
    proof {
        if r {
            assert(part@ =~= seq!['.']);
        }
    }
    r
}

pub fn is_dot_dot(part: &Vec<char>) -> (b: bool)
    ensures
        b == (part@ == seq!['.', '.']),
{
    let r = part.len() == 2 && part[0] == '.' && part[1] == '.';
    proof {
        if r {
            assert(part@ =~= seq!['.', '.']);
        }
    }
    r
}

/// Lexically normalizes a POSIX path.
pub fn normalize_path(s: &Vec<char>) -> (r: Vec<char>)
    ensures
        r@ == posix_normalize(s@),
{
    let mut stack: Vec<Vec<char>> = Vec::new();
    let mut i: usize = 0;
    let mut done = false;
    assert(views(stack@) =~= Seq::<Seq<char>>::empty());
    while !done
        invariant
            i <= s@.len(),
            !done ==> normalize_from(s@, 0, Seq::empty()) == normalize_from(
                s@,
                i as int,
                views(stack@),
            ),
            done ==> normalize_from(s@, 0, Seq::empty()) == views(stack@),
        decreases s@.len() + 1 - i, if done { 0int } else { 1int },
    {
        let j = find_char_from(s, '/', i);
        let part = slice_chars(s, i, j);
        let ghost before = views(stack@);
        if part.len() == 0 || is_dot(&part) {
        } else if is_dot_dot(&part) {
            if stack.len() > 0 {
                stack.pop();
                assert(views(stack@) =~= before.drop_last());
            }
        } else {
            stack.push(part);
            assert(views(stack@) =~= before.push(s@.subrange(i as int, j as int)));
        }
        assert(views(stack@) == push_component(before, s@.subrange(i as int, j as int)));
        if j == s.len() {
            done = true;
            assert(normalize_from(s@, j + 1, views(stack@)) == views(stack@));
        } else {
            i = j + 1;
        }
    }
    join_parts(&stack, '/')
}

/// Executable [`posix_join`].
pub fn join_path(parent: &Vec<char>, child: &Vec<char>) -> (r: Vec<char>)
    ensures
        r@ == posix_join(parent@, child@),
{
    if parent.len() == 0 {
        slice_chars(child, 0, child.len())
    } else {
        let mut r = slice_chars(parent, 0, parent.len());
        r.push('/');
        append_chars(&mut r, child);
        r
    }
}

/// Executable [`parent_directory`].
pub fn parent_of(s: &Vec<char>) -> (r: Vec<char>)
    ensures
        r@ == parent_directory(s@),
{
    proof { lemma_last_index_bounds(s@, '/', s@.len() as int); }
    match rfind_char(s, '/') {
        None => Vec::new(),
        Some(k) => slice_chars(s, 0, k),
    }
}

// ── Extensions and listing classification ───────────────────────────────────

/// Final path component: everything after the last `/`.
pub open spec fn file_name(s: Seq<char>) -> Seq<char> {
    s.subrange(last_index_of(s, '/', s.len() as int) + 1, s.len() as int)
}

/// Extension of the final component, as `Path::extension` reads it: the
/// text after the last `.` of a name that does not start with that dot.
pub open spec fn extension(s: Seq<char>) -> Option<Seq<char>> {
    let name = file_name(s);
    let d = last_index_of(name, '.', name.len() as int);
    if name == seq!['.', '.'] || d <= 0 {
        None
    } else {
        Some(name.subrange(d + 1, name.len() as int))
    }
}

/// ASCII lower-casing of one character.
pub open spec fn ascii_lower(c: char) -> char {
    if 'A' <= c && c <= 'Z' {
        ((c as u32) + 32) as char
    } else {
        c
    }
}

/// ASCII lower-casing of every character.
pub open spec fn ascii_lower_all(s: Seq<char>) -> Seq<char> {
    s.map_values(|c: char| ascii_lower(c))
}

/// Whether the path names a markdown file (`.md`, ASCII case-insensitive).
pub open spec fn is_markdown(s: Seq<char>) -> bool {
    match extension(s) {
        Some(e) => ascii_lower_all(e) == "md"@,
        None => false,
    }
}

/// Image MIME type the memory viewer renders inline, by lower-cased extension.
pub open spec fn image_mime(s: Seq<char>) -> Option<Seq<char>> {
    match extension(s) {
        Some(e) => {
            let l = ascii_lower_all(e);
            if l == "gif"@ {
                Some("image/gif"@)
            } else if l == "jpeg"@ || l == "jpg"@ {
                Some("image/jpeg"@)
            } else if l == "png"@ {
                Some("image/png"@)
            } else if l == "webp"@ {
                Some("image/webp"@)
            } else {
                None
            }
        },
        None => None,
    }
}

fn lower_char(c: char) -> (r: char)
    ensures
        r == ascii_lower(c),
{
    if 'A' <= c && c <= 'Z' {
        let b = (c as u8) + 32;
        assert((c as u8) as u32 == c as u32);
        b as char
    } else {
        c
    }
}

pub fn lower_all(s: &Vec<char>) -> (r: Vec<char>)
    ensures
        r@ == ascii_lower_all(s@),
{
    let mut r: Vec<char> = Vec::new();
    let mut i: usize = 0;
    while i < s.len()
        invariant
            i <= s@.len(),
            r@ == ascii_lower_all(s@.subrange(0, i as int)),
        decreases s@.len() - i,
    {
        r.push(lower_char(s[i]));
        assert(ascii_lower_all(s@.subrange(0, i + 1)) =~= ascii_lower_all(
            s@.subrange(0, i as int),
        ).push(ascii_lower(s@[i as int])));
        i = i + 1;
    }
    assert(s@.subrange(0, s@.len() as int) =~= s@);
    r
}

/// Executable [`extension`].
pub fn extension_of(s: &Vec<char>) -> (r: Option<Vec<char>>)
    ensures
        match r {
            Some(e) => extension(s@) == Some(e@),
            None => extension(s@) is None,
        },
{
    proof { lemma_last_index_bounds(s@, '/', s@.len() as int); }
    let n = s.len();
    let start = match rfind_char(s, '/') {
        None => 0,
        Some(k) => k + 1,
    };
    let name = slice_chars(s, start, s.len());
    assert(name@ == file_name(s@));
    proof { lemma_last_index_bounds(name@, '.', name@.len() as int); }
    if is_dot_dot(&name) {
        return None;
    }
    match rfind_char(&name, '.') {
        None => None,
        Some(d) => {
            if d == 0 {
                None
            } else {
                Some(slice_chars(&name, d + 1, name.len()))
            }
        },
    }
}

pub fn lit(s: &str) -> (r: Vec<char>)
    ensures
        r@ == s@,
{
    chars_of(s)
}

/// Executable [`is_markdown`].
pub fn markdown_path(s: &Vec<char>) -> (b: bool)
    ensures
        b == is_markdown(s@),
{
    match extension_of(s) {
        None => false,
        Some(e) => {
            let l = lower_all(&e);
            let md = lit("md");
            same_chars(&l, &md)
        },
    }
}

/// Executable [`image_mime`].
pub fn image_mime_of(s: &Vec<char>) -> (r: Option<String>)
    ensures
        match r {
            Some(m) => image_mime(s@) == Some(m@),
            None => image_mime(s@) is None,
        },
{
    match extension_of(s) {
        None => None,
        Some(e) => {
            let l = lower_all(&e);
            if same_chars(&l, &lit("gif")) {
                Some(copy_string("image/gif"))
            } else if same_chars(&l, &lit("jpeg")) || same_chars(&l, &lit("jpg")) {
                Some(copy_string("image/jpeg"))
            } else if same_chars(&l, &lit("png")) {
                Some(copy_string("image/png"))
            } else if same_chars(&l, &lit("webp")) {
                Some(copy_string("image/webp"))
            } else {
                None
            }
        },
    }
}

// ── Confinement ──────────────────────────────────────────────────────────────

/// Whether every `/`-separated component starting at `i` is a normal name:
/// non-empty, and neither `.` nor `..`.
pub open spec fn normal_components_from(s: Seq<char>, i: int) -> bool
    decreases s.len() + 1 - i,
{
    if i < 0 || i > s.len() {
        true
    } else {
        let j = next_index_of(s, '/', i);
        proof {
            lemma_next_index_bounds(s, '/', i);
        }
        let part = s.subrange(i, j);
        part.len() != 0 && part != seq!['.'] && part != seq!['.', '.'] && normal_components_from(
            s,
            j + 1,
        )
    }
}

/// The confinement verdict on one requested memory path.
pub open spec fn confinement(s: Seq<char>) -> Result<Seq<char>, PathRejection> {
    if s.len() == 0 || s[0] == '/' {
        Err(PathRejection::NotRelative)
    } else if !normal_components_from(s, 0) {
        Err(PathRejection::EscapesRoot)
    } else {
        Ok(s)
    }
}

/// Confines one requested memory path to the agent memory root.
///
/// Empty and absolute paths are not relative; any empty, `.` or `..`
/// component escapes (or is not in normal form under) the root.
pub fn confine(value: &str) -> (r: Result<Vec<char>, PathRejection>)
    ensures
        match r {
            Ok(p) => confinement(value@) == Ok::<Seq<char>, PathRejection>(p@),
            Err(e) => confinement(value@) == Err::<Seq<char>, PathRejection>(e),
        },
{
    let s = chars_of(value);
    if s.len() == 0 || s[0] == '/' {
        return Err(PathRejection::NotRelative);
    }
    let mut i: usize = 0;
    loop
        invariant
            i <= s@.len(),
            s@ == value@,
            s@.len() > 0 && s@[0] != '/',
            normal_components_from(s@, 0) == normal_components_from(s@, i as int),
        decreases s@.len() + 1 - i,
    {
        let j = find_char_from(&s, '/', i);
        let part = slice_chars(&s, i, j);
        if part.len() == 0 || is_dot(&part) || is_dot_dot(&part) {
            assert(!normal_components_from(s@, i as int));
            assert(value@.len() != 0 && value@[0] != '/');
            return Err(PathRejection::EscapesRoot);
        }
        if j == s.len() {
            assert(normal_components_from(s@, j + 1));
            return Ok(s);
        }
        i = j + 1;
    }
}

/// Normalizing from component `i` with `stack` holding the (normal)
/// components before it rebuilds the whole path when every remaining
/// component is normal.
proof fn lemma_normal_rebuilds(s: Seq<char>, i: int, stack: Seq<Seq<char>>)
    requires
        0 <= i <= s.len(),
        normal_components_from(s, i),
        (i == 0 && stack.len() == 0) || (i > 0 && stack.len() > 0 && s[i - 1] == '/' && join_with(
            stack,
            '/',
        ) == s.subrange(0, i - 1)),
    ensures
        join_with(normalize_from(s, i, stack), '/') == s,
    decreases s.len() + 1 - i,
{
    let j = next_index_of(s, '/', i);
    lemma_next_index_bounds(s, '/', i);
    let part = s.subrange(i, j);
    let next = stack.push(part);
    assert(part.len() != 0 && part != seq!['.'] && part != seq!['.', '.'] && normal_components_from(
        s,
        j + 1,
    ));
    assert(push_component(stack, part) == next);
    assert(normalize_from(s, i, stack) == normalize_from(s, j + 1, next));
    assert(next.drop_last() =~= stack);
    if stack.len() == 0 {
        assert(join_with(next, '/') == part);
        assert(part =~= s.subrange(0, j));
    } else {
        assert(join_with(next, '/') == join_with(stack, '/') + seq!['/'] + part);
        assert(join_with(next, '/') =~= s.subrange(0, j));
    }
    if j == s.len() {
        assert(normalize_from(s, j + 1, next) == next);
        assert(s.subrange(0, j) =~= s);
    } else {
        assert(s[j] == '/');
        lemma_normal_rebuilds(s, j + 1, next);
    }
}

/// A path that passes confinement is already in normal form: lexical
/// normalization gives it back unchanged.
pub proof fn law_confined_paths_are_normal(s: Seq<char>)
    requires
        confinement(s) is Ok,
    ensures
        posix_normalize(s) == s,
{
    lemma_normal_rebuilds(s, 0, Seq::empty());
}

} // verus!
