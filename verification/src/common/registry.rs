//! Topic registry: which channel patterns carry which stream kinds.
//!
//! A pattern is the exchange's channel name in which `*` stands for any run
//! of characters (possibly empty), e.g. `book.*.100ms`.

use vstd::prelude::*;
use crate::common::types::{AccountType, StreamKind, KindV, kind_view};
use crate::common::text::chars_of;

verus! {

/// Whether `topic` matches `pattern` (`*` matches any run of characters).
pub open spec fn glob_match(pattern: Seq<char>, topic: Seq<char>) -> bool
    decreases pattern.len() + topic.len(),
{
    if pattern.len() == 0 {
        topic.len() == 0
    } else if pattern[0] == '*' {
        glob_match(pattern.drop_first(), topic) || (topic.len() > 0 && glob_match(
            pattern,
            topic.drop_first(),
        ))
    } else {
        topic.len() > 0 && topic[0] == pattern[0] && glob_match(
            pattern.drop_first(),
            topic.drop_first(),
        )
    }
}

/// `s` holds no wildcard.
pub open spec fn star_free(s: Seq<char>) -> bool {
    !s.contains('*')
}

/// A star-free prefix common to pattern and topic can be matched away.
pub proof fn lemma_glob_common_prefix(a: Seq<char>, p: Seq<char>, t: Seq<char>)
    requires
        star_free(a),
    ensures
        glob_match(a + p, a + t) == glob_match(p, t),
    decreases a.len(),
{
    if a.len() > 0 {
        assert(a[0] != '*') by {
            assert(a.contains(a[0]));
        }
        assert((a + p)[0] == a[0]);
        assert((a + t)[0] == a[0]);
        assert((a + p).drop_first() =~= a.drop_first() + p);
        assert((a + t).drop_first() =~= a.drop_first() + t);
        assert(star_free(a.drop_first())) by {
            if a.drop_first().contains('*') {
                let k = choose|k: int| 0 <= k < a.drop_first().len() && a.drop_first()[k] == '*';
                assert(a[k + 1] == '*');
                assert(a.contains('*'));
            }
        }
        lemma_glob_common_prefix(a.drop_first(), p, t);
    } else {
        assert(a + p =~= p);
        assert(a + t =~= t);
    }
}


/// A star-free text matches itself.
pub proof fn lemma_glob_self(a: Seq<char>)
    requires
        star_free(a),
    ensures
        glob_match(a, a),
{
    lemma_glob_common_prefix(a, Seq::empty(), Seq::empty());
    assert(a + Seq::<char>::empty() =~= a);
}

/// `*` followed by a star-free suffix `b` matches any text ending in `b`.
pub proof fn lemma_glob_star_suffix(x: Seq<char>, b: Seq<char>)
    requires
        star_free(b),
    ensures
        glob_match(seq!['*'] + b, x + b),
    decreases x.len(),
{
    let p = seq!['*'] + b;
    assert(p[0] == '*');
    assert(p.drop_first() =~= b);
    if x.len() == 0 {
        assert(x + b =~= b);
        lemma_glob_self(b);
    } else {
        assert((x + b).drop_first() =~= x.drop_first() + b);
        lemma_glob_star_suffix(x.drop_first(), b);
    }
}

/// `a*b` (with `a`, `b` star-free) matches `a`, then anything, then `b`.
pub proof fn lemma_glob_one_star(a: Seq<char>, x: Seq<char>, b: Seq<char>)
    requires
        star_free(a),
        star_free(b),
    ensures
        glob_match(a + seq!['*'] + b, a + x + b),
{
    lemma_glob_star_suffix(x, b);
    lemma_glob_common_prefix(a, seq!['*'] + b, x + b);
    assert(a + seq!['*'] + b =~= a + (seq!['*'] + b));
    assert(a + x + b =~= a + (x + b));
}

/// Concatenating star-free texts gives a star-free text.
pub proof fn lemma_star_free_concat(a: Seq<char>, b: Seq<char>)
    requires
        star_free(a),
        star_free(b),
    ensures
        star_free(a + b),
{
    if (a + b).contains('*') {
        let j = choose|j: int| 0 <= j < (a + b).len() && (a + b)[j] == '*';
        if j < a.len() {
            assert(a[j] == '*');
            assert(a.contains('*'));
        } else {
            assert(b[j - a.len()] == '*');
            assert(b.contains('*'));
        }
    }
}

/// A pattern `a*b` matches `a + x + b` (`a`, `b` star-free).
pub proof fn lemma_glob_split(pattern: Seq<char>, a: Seq<char>, x: Seq<char>, b: Seq<char>)
    requires
        pattern == a + seq!['*'] + b,
        star_free(a),
        star_free(b),
    ensures
        glob_match(pattern, a + x + b),
{
    lemma_glob_one_star(a, x, b);
}

fn glob_from(p: &Vec<char>, i: usize, t: &Vec<char>, j: usize) -> (r: bool)
    requires
        i <= p.len(),
        j <= t.len(),
    ensures
        r == glob_match(p@.subrange(i as int, p@.len() as int), t@.subrange(j as int, t@.len() as int)),
    decreases p.len() - i + t.len() - j,
{
    let ghost ps = p@.subrange(i as int, p@.len() as int);
    let ghost ts = t@.subrange(j as int, t@.len() as int);
    if i == p.len() {
        j == t.len()
    } else if p[i] == '*' {
        assert(ps.drop_first() =~= p@.subrange(i + 1, p@.len() as int));
        if glob_from(p, i + 1, t, j) {
            true
        } else if j < t.len() {
            assert(ts.drop_first() =~= t@.subrange(j + 1, t@.len() as int));
            glob_from(p, i, t, j + 1)
        } else {
            false
        }
    } else {
        if j < t.len() && t[j] == p[i] {
            assert(ps.drop_first() =~= p@.subrange(i + 1, p@.len() as int));
            assert(ts.drop_first() =~= t@.subrange(j + 1, t@.len() as int));
            glob_from(p, i + 1, t, j + 1)
        } else {
            false
        }
    }
}

/// Whether `topic` matches `pattern`.
pub fn topic_matches(pattern: &str, topic: &str) -> (r: bool)
    ensures
        r == glob_match(pattern@, topic@),
{
    let p = chars_of(pattern);
    let t = chars_of(topic);
    assert(p@.subrange(0, p@.len() as int) =~= p@);
    assert(t@.subrange(0, t@.len() as int) =~= t@);
    glob_from(&p, 0, &t, 0)
}

/// One registration: frames on channels matching `pattern` carry `kind`.
#[derive(Debug)]
pub struct RegistryEntry {
    pub kind: StreamKind,
    pub account_type: AccountType,
    pub pattern: String,
}

/// All channel patterns an exchange connection understands.
#[derive(Debug)]
pub struct TopicRegistry {
    pub entries: Vec<RegistryEntry>,
}

/// Collects registrations; `build` finishes the registry.
#[derive(Debug)]
pub struct TopicRegistryBuilder {
    pub entries: Vec<RegistryEntry>,
}

/// The view of one entry: (kind, account type, pattern).
pub type EntryV = (KindV, AccountType, Seq<char>);

/// The views of a registry's entries, in registration order.
pub open spec fn entries_view(es: Seq<RegistryEntry>) -> Seq<EntryV> {
    es.map_values(|e: RegistryEntry| (kind_view(e.kind), e.account_type, e.pattern@))
}

/// Some entry registers `kind` for `account_type`.
pub open spec fn registers(ev: Seq<EntryV>, kind: KindV, account_type: AccountType) -> bool {
    exists|i: int| 0 <= i < ev.len() && (#[trigger] ev[i]).0 == kind && ev[i].1 == account_type
}

/// Some entry of kind `kind` has a pattern matching `topic`.
pub open spec fn routes_kind(ev: Seq<EntryV>, kind: KindV, topic: Seq<char>) -> bool {
    exists|i: int| 0 <= i < ev.len() && (#[trigger] ev[i]).0 == kind && glob_match(ev[i].2, topic)
}

/// Some entry has a pattern matching `topic`.
pub open spec fn routes(ev: Seq<EntryV>, topic: Seq<char>) -> bool {
    exists|i: int| 0 <= i < ev.len() && glob_match((#[trigger] ev[i]).2, topic)
}

impl TopicRegistry {
    pub open spec fn view_entries(&self) -> Seq<EntryV> {
        entries_view(self.entries@)
    }

    pub fn builder() -> (b: TopicRegistryBuilder)
        ensures
            entries_view(b.entries@) == Seq::<EntryV>::empty(),
    {
        let b = TopicRegistryBuilder { entries: Vec::new() };
        assert(entries_view(b.entries@) =~= Seq::<EntryV>::empty());
        b
    }

    /// Whether some entry registers `kind` for `account_type`.
    pub fn supports(&self, kind: &StreamKind, account_type: AccountType) -> (r: bool)
        ensures
            r == registers(self.view_entries(), kind_view(*kind), account_type),
    {
        let ghost ev = self.view_entries();
        for i in 0..self.entries.len()
            invariant
                ev == entries_view(self.entries@),
                forall|k: int|
                    0 <= k < i ==> !((#[trigger] ev[k]).0 == kind_view(*kind) && ev[k].1
                        == account_type),
        {
            assert(ev[i as int] == (
                kind_view(self.entries@[i as int].kind),
                self.entries@[i as int].account_type,
                self.entries@[i as int].pattern@,
            ));
            if self.entries[i].kind.same_as(kind) && self.entries[i].account_type == account_type {
                return true;
            }
        }
        false
    }

    /// Whether some entry's pattern matches `topic`.
    pub fn routes_topic(&self, topic: &str) -> (r: bool)
        ensures
            r == routes(self.view_entries(), topic@),
    {
        let ghost ev = self.view_entries();
        for i in 0..self.entries.len()
            invariant
                ev == entries_view(self.entries@),
                forall|k: int| 0 <= k < i ==> !glob_match((#[trigger] ev[k]).2, topic@),
        {
            assert(ev[i as int].2 == self.entries@[i as int].pattern@);
            if topic_matches(self.entries[i].pattern.as_str(), topic) {
                return true;
            }
        }
        false
    }

    /// The (kind, account type) of every entry, in registration order.
    pub fn native_pairs(&self) -> (r: Vec<(StreamKind, AccountType)>)
        ensures
            r@.len() == self.entries@.len(),
            forall|i: int|
                0 <= i < r@.len() ==> kind_view((#[trigger] r@[i]).0) == self.view_entries()[i].0
                    && r@[i].1 == self.view_entries()[i].1,
    {
        let mut r: Vec<(StreamKind, AccountType)> = Vec::new();
        for i in 0..self.entries.len()
            invariant
                r@.len() == i,
                forall|k: int|
                    0 <= k < i ==> kind_view((#[trigger] r@[k]).0) == kind_view(
                        self.entries@[k].kind,
                    ) && r@[k].1 == self.entries@[k].account_type,
        {
            let k = self.entries[i].kind.duplicate();
            r.push((k, self.entries[i].account_type));
        }
        r
    }

    pub fn len(&self) -> (r: usize)
        ensures
            r == self.view_entries().len(),
    {
        self.entries.len()
    }
}

impl TopicRegistryBuilder {
    /// Adds the entry (kind, account_type, pattern).
    pub fn register(self, kind: StreamKind, account_type: AccountType, pattern: &str) -> (b: Self)
        ensures
            entries_view(b.entries@) == entries_view(self.entries@).push(
                (kind_view(kind), account_type, pattern@),
            ),
    {
        let mut entries = self.entries;
        let ghost old_entries = entries@;
        entries.push(RegistryEntry { kind, account_type, pattern: pattern.to_owned() });
        assert(entries_view(entries@) =~= entries_view(old_entries).push(
            (kind_view(kind), account_type, pattern@),
        ));
        TopicRegistryBuilder { entries }
    }

    pub fn build(self) -> (r: TopicRegistry)
        ensures
            r.view_entries() == entries_view(self.entries@),
    {
        TopicRegistry { entries: self.entries }
    }
}

} // verus!
