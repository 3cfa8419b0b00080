//! A small map from text keys to text values, in insertion order.

use crate::text::{copy_string, same_text};
use vstd::prelude::*;

verus! {

/// Value held under `key`, the latest entry with that key.
pub open spec fn lookup_text(s: Seq<(String, String)>, key: Seq<char>) -> Option<Seq<char>>
    decreases s.len(),
{
    if s.len() == 0 {
        None
    } else if s.last().0@ == key {
        Some(s.last().1@)
    } else {
        lookup_text(s.drop_last(), key)
    }
}

/// No key occurs twice.
pub open spec fn unique_text_keys(s: Seq<(String, String)>) -> bool
    decreases s.len(),
{
    s.len() == 0 || (unique_text_keys(s.drop_last()) && lookup_text(s.drop_last(), s.last().0@) is None)
}

proof fn lemma_lookup_text_push(s: Seq<(String, String)>, e: (String, String), k: Seq<char>)
    ensures
        lookup_text(s.push(e), k) == if e.0@ == k {
            Some(e.1@)
        } else {
            lookup_text(s, k)
        },
{
    assert(s.push(e).drop_last() =~= s);
}

proof fn lemma_unique_text_prefix(s: Seq<(String, String)>, n: int)
    requires
        unique_text_keys(s),
        0 <= n <= s.len(),
    ensures
        unique_text_keys(s.subrange(0, n)),
    decreases s.len() - n,
{
    if n < s.len() {
        assert(s.drop_last() =~= s.subrange(0, s.len() - 1));
        lemma_unique_text_prefix(s.drop_last(), n);
        assert(s.drop_last().subrange(0, n) =~= s.subrange(0, n));
    } else {
        assert(s.subrange(0, n) =~= s);
    }
}

/// With unique keys, every entry is what a lookup of its key finds.
pub proof fn lemma_lookup_entry(s: Seq<(String, String)>, i: int)
    requires
        unique_text_keys(s),
        0 <= i < s.len(),
    ensures
        lookup_text(s, s[i].0@) == Some(s[i].1@),
    decreases s.len(),
{
    if i < s.len() - 1 {
        lemma_lookup_entry(s.drop_last(), i);
        assert(s.drop_last()[i] == s[i]);
    }
}

/// With unique keys, no two entries share a key.
pub proof fn lemma_distinct_keys(s: Seq<(String, String)>, i: int, j: int)
    requires
        unique_text_keys(s),
        0 <= i < j < s.len(),
    ensures
        s[i].0@ != s[j].0@,
    decreases s.len(),
{
    assert(s.drop_last()[i] == s[i]);
    if j == s.len() - 1 {
        lemma_lookup_entry(s.drop_last(), i);
    } else {
        assert(s.drop_last()[j] == s[j]);
        lemma_distinct_keys(s.drop_last(), i, j);
    }
}

/// Text-keyed map of text values.
#[derive(Debug)]
pub struct TextMap {
    entries: Vec<(String, String)>,
}

impl TextMap {
    /// Entries in insertion order.
    pub closed spec fn entries(&self) -> Seq<(String, String)> {
        self.entries@
    }

    /// Value under one key.
    pub open spec fn get_spec(&self, key: Seq<char>) -> Option<Seq<char>> {
        lookup_text(self.entries(), key)
    }

    /// Number of keys.
    pub open spec fn size(&self) -> nat {
        self.entries().len()
    }

    /// Keys are unique.
    pub open spec fn wf(&self) -> bool {
        unique_text_keys(self.entries())
    }

    /// The empty map.
    pub fn new() -> (m: Self)
        ensures
            m.wf(),
            m.size() == 0,
            forall|k: Seq<char>| #[trigger] m.get_spec(k) is None,
    {
        TextMap { entries: Vec::new() }
    }

    /// Number of keys.
    pub fn len(&self) -> (n: usize)
        ensures
            n == self.size(),
    {
        self.entries.len()
    }

    /// Entries in insertion order, copied.
    pub fn pairs(&self) -> (r: Vec<(String, String)>)
        ensures
            r@.len() == self.entries().len(),
            forall|i: int|
                0 <= i < r@.len() ==> (#[trigger] r@[i]).0@ == self.entries()[i].0@ && r@[i].1@
                    == self.entries()[i].1@,
    {
        let mut r: Vec<(String, String)> = Vec::new();
        let mut i: usize = 0;
        while i < self.entries.len()
            invariant
                i <= self.entries@.len(),
                r@.len() == i,
                forall|j: int|
                    0 <= j < i ==> (#[trigger] r@[j]).0@ == self.entries@[j].0@ && r@[j].1@
                        == self.entries@[j].1@,
            decreases self.entries@.len() - i,
        {
            let e = &self.entries[i];
            r.push((copy_string(e.0.as_str()), copy_string(e.1.as_str())));
            i = i + 1;
        }
        r
    }

    fn find(&self, key: &str) -> (r: Option<usize>)
        ensures
            match r {
                Some(i) => i < self.entries@.len() && self.entries@[i as int].0@ == key@
                    && lookup_text(self.entries@, key@) == Some(self.entries@[i as int].1@),
                None => lookup_text(self.entries@, key@) is None,
            },
    {
        let mut j = self.entries.len();
        assert(self.entries@.subrange(0, j as int) =~= self.entries@);
        while j > 0
            invariant
                j <= self.entries@.len(),
                lookup_text(self.entries@, key@) == lookup_text(
                    self.entries@.subrange(0, j as int),
                    key@,
                ),
            decreases j,
        {
            assert(self.entries@.subrange(0, j as int) =~= self.entries@.subrange(0, j - 1).push(
                self.entries@[j - 1],
            ));
            proof {
                lemma_lookup_text_push(self.entries@.subrange(0, j - 1), self.entries@[j - 1], key@);
            }
            if same_text(self.entries[j - 1].0.as_str(), key) {
                return Some(j - 1);
            }
            j = j - 1;
        }
        assert(self.entries@.subrange(0, 0) =~= Seq::<(String, String)>::empty());
        None
    }

    /// Whether a key is present.
    pub fn contains_key(&self, key: &str) -> (b: bool)
        ensures
            b == self.get_spec(key@) is Some,
    {
        self.find(key).is_some()
    }

    /// Value under one key, copied.
    pub fn get(&self, key: &str) -> (r: Option<String>)
        ensures
            match r {
                Some(v) => self.get_spec(key@) == Some(v@),
                None => self.get_spec(key@) is None,
            },
    {
        match self.find(key) {
            Some(i) => Some(copy_string(self.entries[i].1.as_str())),
            None => None,
        }
    }

    /// Removes one key, returning its value; every other key keeps its value.
    pub fn remove(&mut self, key: &str) -> (r: Option<String>)
        requires
            old(self).wf(),
        ensures
            final(self).wf(),
            match r {
                Some(v) => old(self).get_spec(key@) == Some(v@),
                None => old(self).get_spec(key@) is None,
            },
            final(self).get_spec(key@) is None,
            forall|k: Seq<char>|
                k != key@ ==> #[trigger] final(self).get_spec(k) == old(self).get_spec(k),
            final(self).size() == old(self).size() - (if r is Some { 1int } else { 0int }),
    {
        let ghost all = self.entries@;
        let n = self.entries.len();
        let mut kept: Vec<(String, String)> = Vec::new();
        let mut taken: Option<String> = None;
        let mut rest: Vec<(String, String)> = Vec::new();
        std::mem::swap(&mut rest, &mut self.entries);
        let mut i: usize = 0;
        while rest.len() > 0
            invariant
                unique_text_keys(all),
                all.len() == n,
                i + rest@.len() == all.len(),
                rest@ == all.subrange(i as int, all.len() as int),
                unique_text_keys(kept@),
                forall|k: Seq<char>|
                    #[trigger] lookup_text(kept@, k) == if k == key@ {
                        None
                    } else {
                        lookup_text(all.subrange(0, i as int), k)
                    },
                match taken {
                    Some(v) => lookup_text(all.subrange(0, i as int), key@) == Some(v@),
                    None => lookup_text(all.subrange(0, i as int), key@) is None,
                },
                kept@.len() == i - (if taken is Some { 1int } else { 0int }),
            decreases rest@.len(),
        {
            let e = rest.remove(0);
            let ghost pre = all.subrange(0, i as int);
            let ghost post = all.subrange(0, i + 1);
            assert(post =~= pre.push(e));
            proof {
                lemma_unique_text_prefix(all, i + 1);
                assert(post.drop_last() =~= pre);
                lemma_lookup_text_push(pre, e, key@);
            }
            assert(rest@ =~= all.subrange(i + 1, all.len() as int));
            if same_text(e.0.as_str(), key) {
                assert forall|k: Seq<char>| k != key@ implies lookup_text(post, k) == lookup_text(
                    pre,
                    k,
                ) by {
                    lemma_lookup_text_push(pre, e, k);
                }
                taken = Some(e.1);
            } else {
                let ghost old_kept = kept@;
                kept.push(e);
                assert(kept@.drop_last() =~= old_kept);
                assert forall|k: Seq<char>|
                    #[trigger] lookup_text(kept@, k) == if k == key@ {
                        None
                    } else {
                        lookup_text(post, k)
                    } by {
                    lemma_lookup_text_push(pre, e, k);
                    lemma_lookup_text_push(old_kept, e, k);
                }
            }
            i = i + 1;
        }
        assert(all.subrange(0, i as int) =~= all);
        self.entries = kept;
        taken
    }

    /// Sets the value under one key; every other key keeps its value.
    pub fn insert(&mut self, key: &str, value: &str)
        requires
            old(self).wf(),
        ensures
            final(self).wf(),
            final(self).get_spec(key@) == Some(value@),
            forall|k: Seq<char>|
                k != key@ ==> #[trigger] final(self).get_spec(k) == old(self).get_spec(k),
            final(self).size() == old(self).size() + (if old(self).get_spec(key@) is None {
                1int
            } else {
                0int
            }),
    {
        let _ = self.remove(key);
        let ghost mid: TextMap = *self;
        let e = (copy_string(key), copy_string(value));
        let ghost before = self.entries@;
        self.entries.push(e);
        assert(self.entries@.drop_last() =~= before);
        assert forall|k: Seq<char>| #[trigger] lookup_text(self.entries@, k) == if k == key@ {
            Some(value@)
        } else {
            old(self).get_spec(k)
        } by {
            lemma_lookup_text_push(before, e, k);
            assert(mid.get_spec(k) == lookup_text(before, k));
        }
    }
}

} // verus!
