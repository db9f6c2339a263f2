//! Name/value parameter lists kept sorted by name: later values replace
//! earlier ones for the same name, and names come out in ascending
//! character order.

use vstd::prelude::*;
use crate::common::encoding::pairs_view;
use crate::common::text::{chars_of, str_eq};

verus! {

/// Character-wise lexicographic order: a proper prefix comes first.
pub open spec fn text_less(a: Seq<char>, b: Seq<char>) -> bool
    decreases a.len(),
{
    if a.len() == 0 {
        b.len() > 0
    } else if b.len() == 0 {
        false
    } else if a[0] != b[0] {
        a[0] < b[0]
    } else {
        text_less(a.drop_first(), b.drop_first())
    }
}

/// No text is before itself.
pub proof fn lemma_text_less_irreflexive(a: Seq<char>)
    ensures
        !text_less(a, a),
    decreases a.len(),
{
    if a.len() > 0 {
        lemma_text_less_irreflexive(a.drop_first());
    }
}

/// The order is transitive.
pub proof fn lemma_text_less_transitive(a: Seq<char>, b: Seq<char>, c: Seq<char>)
    requires
        text_less(a, b),
        text_less(b, c),
    ensures
        text_less(a, c),
    decreases a.len(),
{
    if a.len() > 0 && b.len() > 0 && c.len() > 0 && a[0] == b[0] && b[0] == c[0] {
        lemma_text_less_transitive(a.drop_first(), b.drop_first(), c.drop_first());
    }
}

/// Of two different texts, one is before the other.
pub proof fn lemma_text_less_total(a: Seq<char>, b: Seq<char>)
    requires
        a != b,
    ensures
        text_less(a, b) || text_less(b, a),
    decreases a.len(),
{
    if a.len() == 0 && b.len() == 0 {
        assert(a =~= b);
    }
    if a.len() > 0 && b.len() > 0 && a[0] == b[0] {
        if a.drop_first() == b.drop_first() {
            assert(a =~= seq![a[0]] + a.drop_first());
            assert(b =~= seq![b[0]] + b.drop_first());
        }
        lemma_text_less_total(a.drop_first(), b.drop_first());
    }
}

proof fn lemma_text_less_skip(a: Seq<char>, b: Seq<char>, i: int)
    requires
        0 <= i <= a.len(),
        i <= b.len(),
        forall|j: int| 0 <= j < i ==> a[j] == b[j],
    ensures
        text_less(a, b) == text_less(a.skip(i), b.skip(i)),
    decreases i,
{
    if i == 0 {
        assert(a.skip(0) =~= a);
        assert(b.skip(0) =~= b);
    } else {
        lemma_text_less_skip(a.drop_first(), b.drop_first(), i - 1);
        assert(a.drop_first().skip(i - 1) =~= a.skip(i));
        assert(b.drop_first().skip(i - 1) =~= b.skip(i));
    }
}

/// Whether `a` comes before `b` in character order.
pub fn text_lt(a: &str, b: &str) -> (r: bool)
    ensures
        r == text_less(a@, b@),
{
    let x = chars_of(a);
    let y = chars_of(b);
    let mut i: usize = 0;
    while i < x.len() && i < y.len() && x[i] == y[i]
        invariant
            x@ == a@,
            y@ == b@,
            i <= x.len(),
            i <= y.len(),
            forall|j: int| 0 <= j < i ==> x@[j] == y@[j],
        decreases x.len() - i,
    {
        i = i + 1;
    }
    proof {
        lemma_text_less_skip(a@, b@, i as int);
    }
    if i == x.len() {
        i < y.len()
    } else if i == y.len() {
        false
    } else {
        x[i] < y[i]
    }
}

/// The map a pair list builds when inserted front to back: a later value
/// replaces an earlier one for the same name.
pub open spec fn pairs_map(ps: Seq<(Seq<char>, Seq<char>)>) -> Map<Seq<char>, Seq<char>>
    decreases ps.len(),
{
    if ps.len() == 0 {
        Map::empty()
    } else {
        pairs_map(ps.drop_last()).insert(ps.last().0, ps.last().1)
    }
}

/// Names strictly ascending (so each name occurs once).
pub open spec fn strictly_sorted(ps: Seq<(Seq<char>, Seq<char>)>) -> bool {
    forall|i: int, j: int| 0 <= i < j < ps.len() ==> text_less(#[trigger] ps[i].0, #[trigger] ps[j].0)
}

/// No name occurs twice.
pub open spec fn distinct_names(ps: Seq<(Seq<char>, Seq<char>)>) -> bool {
    forall|i: int, j: int| 0 <= i < j < ps.len() ==> #[trigger] ps[i].0 != #[trigger] ps[j].0
}

/// The sorted list holding exactly the entries of `m`.
pub open spec fn sorted_entries(m: Map<Seq<char>, Seq<char>>) -> Seq<(Seq<char>, Seq<char>)> {
    choose|s: Seq<(Seq<char>, Seq<char>)>| strictly_sorted(s) && pairs_map(s) == m
}

proof fn lemma_sorted_distinct(ps: Seq<(Seq<char>, Seq<char>)>)
    requires
        strictly_sorted(ps),
    ensures
        distinct_names(ps),
{
    assert forall|i: int, j: int| 0 <= i < j < ps.len() implies #[trigger] ps[i].0 != #[trigger] ps[j].0 by {
        lemma_text_less_irreflexive(ps[i].0);
    }
}

/// With distinct names, the map holds exactly the listed names, each with its value.
proof fn lemma_pairs_map_distinct(ps: Seq<(Seq<char>, Seq<char>)>)
    requires
        distinct_names(ps),
    ensures
        forall|k: Seq<char>| #[trigger] pairs_map(ps).contains_key(k) <==> exists|i: int|
            0 <= i < ps.len() && ps[i].0 == k,
        forall|i: int| 0 <= i < ps.len() ==> pairs_map(ps)[#[trigger] ps[i].0] == ps[i].1,
    decreases ps.len(),
{
    if ps.len() > 0 {
        let init = ps.drop_last();
        assert(distinct_names(init));
        lemma_pairs_map_distinct(init);
        assert forall|k: Seq<char>| #[trigger] pairs_map(ps).contains_key(k) <==> exists|i: int|
            0 <= i < ps.len() && ps[i].0 == k by {
            if pairs_map(ps).contains_key(k) {
                if k == ps.last().0 {
                    assert(ps[ps.len() - 1].0 == k);
                } else {
                    assert(pairs_map(init).contains_key(k));
                    let i = choose|i: int| 0 <= i < init.len() && init[i].0 == k;
                    assert(init[i] == ps[i]);
                    assert(ps[i].0 == k);
                }
            }
            if exists|i: int| 0 <= i < ps.len() && ps[i].0 == k {
                let i = choose|i: int| 0 <= i < ps.len() && ps[i].0 == k;
                if i < ps.len() - 1 {
                    assert(init[i] == ps[i]);
                    assert(init[i].0 == k);
                    assert(pairs_map(init).contains_key(k));
                }
            }
        }
        assert forall|i: int| 0 <= i < ps.len() implies pairs_map(ps)[#[trigger] ps[i].0] == ps[i].1 by {
            if i < ps.len() - 1 {
                assert(init[i] == ps[i]);
                assert(ps[i].0 != ps[ps.len() - 1].0);
            }
        }
    }
}

/// Two distinct-name lists with the same entries, in any order, build the same map.
proof fn lemma_pairs_map_same_entries(a: Seq<(Seq<char>, Seq<char>)>, b: Seq<(Seq<char>, Seq<char>)>)
    requires
        distinct_names(a),
        distinct_names(b),
        forall|i: int| 0 <= i < a.len() ==> #[trigger] b.contains(a[i]),
        forall|i: int| 0 <= i < b.len() ==> #[trigger] a.contains(b[i]),
    ensures
        pairs_map(a) == pairs_map(b),
{
    lemma_pairs_map_distinct(a);
    lemma_pairs_map_distinct(b);
    assert forall|k: Seq<char>| pairs_map(a).contains_key(k) implies pairs_map(b).contains_key(k)
        && pairs_map(a)[k] == pairs_map(b)[k] by {
        let i = choose|i: int| 0 <= i < a.len() && a[i].0 == k;
        assert(b.contains(a[i]));
        let j = choose|j: int| 0 <= j < b.len() && b[j] == a[i];
        assert(pairs_map(b)[b[j].0] == b[j].1);
        assert(pairs_map(a)[a[i].0] == a[i].1);
    }
    assert forall|k: Seq<char>| pairs_map(b).contains_key(k) implies pairs_map(a).contains_key(k) by {
        let j = choose|j: int| 0 <= j < b.len() && b[j].0 == k;
        assert(a.contains(b[j]));
        let i = choose|i: int| 0 <= i < a.len() && a[i] == b[j];
        assert(a[i].0 == k);
    }
    assert(pairs_map(a) =~= pairs_map(b));
}

/// `m` with the pairs of `b` set over it, front to back.
pub open spec fn insert_all(m: Map<Seq<char>, Seq<char>>, b: Seq<(Seq<char>, Seq<char>)>) -> Map<
    Seq<char>,
    Seq<char>,
>
    decreases b.len(),
{
    if b.len() == 0 {
        m
    } else {
        insert_all(m, b.drop_last()).insert(b.last().0, b.last().1)
    }
}

/// The map built by `a` then `b` is the map of `a` with `b` set over it.
pub proof fn lemma_pairs_map_append(a: Seq<(Seq<char>, Seq<char>)>, b: Seq<(Seq<char>, Seq<char>)>)
    ensures
        pairs_map(a + b) == insert_all(pairs_map(a), b),
    decreases b.len(),
{
    if b.len() == 0 {
        assert(a + b =~= a);
    } else {
        lemma_pairs_map_append(a, b.drop_last());
        assert((a + b).drop_last() =~= a + b.drop_last());
        assert((a + b).last() == b.last());
    }
}

/// Two strictly sorted lists that build the same map are the same list:
/// sorting a parameter set has exactly one outcome.
pub proof fn lemma_sorted_entries_unique(a: Seq<(Seq<char>, Seq<char>)>, b: Seq<(Seq<char>, Seq<char>)>)
    requires
        strictly_sorted(a),
        strictly_sorted(b),
        pairs_map(a) == pairs_map(b),
    ensures
        a == b,
    decreases a.len(),
{
    lemma_sorted_distinct(a);
    lemma_sorted_distinct(b);
    lemma_pairs_map_distinct(a);
    lemma_pairs_map_distinct(b);
    if a.len() == 0 {
        if b.len() > 0 {
            assert(pairs_map(b).contains_key(b[0].0));
        }
        assert(a =~= b);
    } else if b.len() == 0 {
        assert(pairs_map(a).contains_key(a[0].0));
    } else {
        // The first names agree: each is the least name of the shared map.
        let ka = a[0].0;
        let kb = b[0].0;
        assert(pairs_map(a).contains_key(ka));
        assert(pairs_map(b).contains_key(kb));
        let j = choose|j: int| 0 <= j < b.len() && b[j].0 == ka;
        let i = choose|i: int| 0 <= i < a.len() && a[i].0 == kb;
        if ka != kb {
            assert(j > 0);
            assert(i > 0);
            assert(text_less(kb, ka));
            assert(text_less(ka, kb));
            lemma_text_less_transitive(ka, kb, ka);
            lemma_text_less_irreflexive(ka);
        }
        assert(a[0].1 == pairs_map(a)[ka]);
        assert(b[0].1 == pairs_map(b)[kb]);
        assert(a[0] == b[0]);
        let ta = a.drop_first();
        let tb = b.drop_first();
        assert(strictly_sorted(ta));
        assert(strictly_sorted(tb));
        lemma_sorted_distinct(ta);
        lemma_sorted_distinct(tb);
        // The tails hold the same entries.
        assert forall|x: int| 0 <= x < ta.len() implies #[trigger] tb.contains(ta[x]) by {
            let k = ta[x].0;
            assert(a[x + 1] == ta[x]);
            assert(pairs_map(b).contains_key(k));
            let y = choose|y: int| 0 <= y < b.len() && b[y].0 == k;
            if y == 0 {
                assert(text_less(a[0].0, a[x + 1].0));
                lemma_text_less_irreflexive(k);
            }
            assert(b[y].1 == pairs_map(b)[k]);
            assert(a[x + 1].1 == pairs_map(a)[k]);
            assert(tb[y - 1] == ta[x]);
        }
        assert forall|y: int| 0 <= y < tb.len() implies #[trigger] ta.contains(tb[y]) by {
            let k = tb[y].0;
            assert(b[y + 1] == tb[y]);
            assert(pairs_map(a).contains_key(k));
            let x = choose|x: int| 0 <= x < a.len() && a[x].0 == k;
            if x == 0 {
                assert(text_less(b[0].0, b[y + 1].0));
                lemma_text_less_irreflexive(k);
            }
            assert(a[x].1 == pairs_map(a)[k]);
            assert(b[y + 1].1 == pairs_map(b)[k]);
            assert(ta[x - 1] == tb[y]);
        }
        lemma_pairs_map_same_entries(ta, tb);
        lemma_sorted_entries_unique(ta, tb);
        assert(a =~= seq![a[0]] + ta);
        assert(b =~= seq![b[0]] + tb);
    }
}

/// A strictly sorted list is the one `sorted_entries` names for its own map.
pub proof fn lemma_sorted_entries_of(s: Seq<(Seq<char>, Seq<char>)>)
    requires
        strictly_sorted(s),
    ensures
        sorted_entries(pairs_map(s)) == s,
{
    let m = pairs_map(s);
    assert(strictly_sorted(s) && pairs_map(s) == m);
    let t = sorted_entries(m);
    lemma_sorted_entries_unique(s, t);
}

/// Replacing one entry's value, or adding an entry under a new name, acts on
/// the built map as one insertion.
proof fn lemma_pairs_map_put(
    old_s: Seq<(Seq<char>, Seq<char>)>,
    new_s: Seq<(Seq<char>, Seq<char>)>,
    name: Seq<char>,
    value: Seq<char>,
)
    requires
        distinct_names(old_s),
        distinct_names(new_s),
        new_s.contains((name, value)),
        forall|i: int| 0 <= i < old_s.len() && old_s[i].0 != name ==> #[trigger] new_s.contains(old_s[i]),
        forall|j: int| 0 <= j < new_s.len() ==> new_s[j] == (name, value) || (#[trigger] old_s.contains(
            new_s[j]) && new_s[j].0 != name),
    ensures
        pairs_map(new_s) == pairs_map(old_s).insert(name, value),
{
    lemma_pairs_map_distinct(old_s);
    lemma_pairs_map_distinct(new_s);
    let m = pairs_map(old_s).insert(name, value);
    let jn = choose|j: int| 0 <= j < new_s.len() && new_s[j] == (name, value);
    assert(new_s[jn].0 == name);
    assert forall|k: Seq<char>| #[trigger] pairs_map(new_s).contains_key(k) implies m.contains_key(k)
        && pairs_map(new_s)[k] == m[k] by {
        let j = choose|j: int| 0 <= j < new_s.len() && new_s[j].0 == k;
        assert(pairs_map(new_s)[new_s[j].0] == new_s[j].1);
        if new_s[j] == (name, value) {
        } else {
            assert(old_s.contains(new_s[j]));
            let i = choose|i: int| 0 <= i < old_s.len() && old_s[i] == new_s[j];
            assert(pairs_map(old_s)[old_s[i].0] == old_s[i].1);
            if k == name {
                assert(new_s[j].0 != name);
            }
        }
    }
    assert forall|k: Seq<char>| m.contains_key(k) implies #[trigger] pairs_map(new_s).contains_key(k) by {
        if k != name {
            assert(pairs_map(old_s).contains_key(k));
            let i = choose|i: int| 0 <= i < old_s.len() && old_s[i].0 == k;
            assert(new_s.contains(old_s[i]));
            let j = choose|j: int| 0 <= j < new_s.len() && new_s[j] == old_s[i];
            assert(new_s[j].0 == k);
        }
    }
    assert(pairs_map(new_s) =~= m);
}

proof fn lemma_replace_sorted(old_v: Seq<(Seq<char>, Seq<char>)>, i: int, name: Seq<char>, value: Seq<char>)
    requires
        strictly_sorted(old_v),
        0 <= i < old_v.len(),
        old_v[i].0 == name,
    ensures
        strictly_sorted(old_v.update(i, (name, value))),
        pairs_map(old_v.update(i, (name, value))) == pairs_map(old_v).insert(name, value),
{
    let new_v = old_v.update(i, (name, value));
    lemma_sorted_distinct(old_v);
    assert forall|a: int, b: int| 0 <= a < b < new_v.len() implies text_less(
        #[trigger] new_v[a].0,
        #[trigger] new_v[b].0,
    ) by {
        assert(new_v[a].0 == old_v[a].0);
        assert(new_v[b].0 == old_v[b].0);
    }
    lemma_sorted_distinct(new_v);
    assert(new_v[i] == (name, value));
    assert forall|x: int| 0 <= x < old_v.len() && old_v[x].0 != name implies #[trigger] new_v.contains(
        old_v[x],
    ) by {
        assert(new_v[x] == old_v[x]);
    }
    assert forall|y: int| 0 <= y < new_v.len() implies new_v[y] == (name, value) || (
    #[trigger] old_v.contains(new_v[y]) && new_v[y].0 != name) by {
        if y != i {
            assert(new_v[y] == old_v[y]);
            assert(old_v[y].0 != old_v[i].0);
            assert(old_v.contains(old_v[y]));
        }
    }
    lemma_pairs_map_put(old_v, new_v, name, value);
}

proof fn lemma_insert_sorted(old_v: Seq<(Seq<char>, Seq<char>)>, i: int, name: Seq<char>, value: Seq<char>)
    requires
        strictly_sorted(old_v),
        0 <= i <= old_v.len(),
        forall|j: int| 0 <= j < i ==> text_less(#[trigger] old_v[j].0, name),
        i < old_v.len() ==> text_less(name, old_v[i].0),
    ensures
        strictly_sorted(old_v.insert(i, (name, value))),
        pairs_map(old_v.insert(i, (name, value))) == pairs_map(old_v).insert(name, value),
{
    let new_v = old_v.insert(i, (name, value));
    lemma_sorted_distinct(old_v);
    lemma_text_less_irreflexive(name);
    // Every name after position `i` comes after `name`.
    assert forall|b: int| i < b < new_v.len() implies text_less(name, #[trigger] new_v[b].0) by {
        assert(new_v[b] == old_v[b - 1]);
        if b - 1 > i {
            assert(text_less(old_v[i].0, old_v[b - 1].0));
            lemma_text_less_transitive(name, old_v[i].0, old_v[b - 1].0);
        }
    }
    assert forall|a: int, b: int| 0 <= a < b < new_v.len() implies text_less(
        #[trigger] new_v[a].0,
        #[trigger] new_v[b].0,
    ) by {
        if b < i {
        } else if b == i {
        } else if a < i {
            assert(new_v[a] == old_v[a]);
            assert(text_less(old_v[a].0, name));
            assert(text_less(name, new_v[b].0));
            lemma_text_less_transitive(old_v[a].0, name, new_v[b].0);
        } else if a == i {
        } else {
            assert(new_v[a] == old_v[a - 1]);
            assert(new_v[b] == old_v[b - 1]);
        }
    }
    lemma_sorted_distinct(new_v);
    assert(new_v[i] == (name, value));
    assert forall|x: int| 0 <= x < old_v.len() && old_v[x].0 != name implies #[trigger] new_v.contains(
        old_v[x],
    ) by {
        if x < i {
            assert(new_v[x] == old_v[x]);
        } else {
            assert(new_v[x + 1] == old_v[x]);
        }
    }
    assert forall|y: int| 0 <= y < new_v.len() implies new_v[y] == (name, value) || (
    #[trigger] old_v.contains(new_v[y]) && new_v[y].0 != name) by {
        if y < i {
            assert(new_v[y] == old_v[y]);
            assert(text_less(old_v[y].0, name));
            assert(old_v.contains(old_v[y]));
        } else if y > i {
            assert(new_v[y] == old_v[y - 1]);
            assert(text_less(name, new_v[y].0));
            assert(old_v.contains(old_v[y - 1]));
        }
    }
    lemma_pairs_map_put(old_v, new_v, name, value);
}

/// Where `k` goes in a sorted list: past every name before it.
pub open spec fn insert_pos(s: Seq<(Seq<char>, Seq<char>)>, k: Seq<char>) -> int
    decreases s.len(),
{
    if s.len() == 0 {
        0
    } else if text_less(s[0].0, k) {
        1 + insert_pos(s.drop_first(), k)
    } else {
        0
    }
}

proof fn lemma_insert_pos(s: Seq<(Seq<char>, Seq<char>)>, k: Seq<char>)
    ensures
        0 <= insert_pos(s, k) <= s.len(),
        forall|j: int| 0 <= j < insert_pos(s, k) ==> text_less(#[trigger] s[j].0, k),
        insert_pos(s, k) < s.len() ==> !text_less(s[insert_pos(s, k)].0, k),
    decreases s.len(),
{
    if s.len() > 0 && text_less(s[0].0, k) {
        let t = s.drop_first();
        lemma_insert_pos(t, k);
        assert forall|j: int| 0 <= j < insert_pos(s, k) implies text_less(#[trigger] s[j].0, k) by {
            if j > 0 {
                assert(s[j] == t[j - 1]);
            }
        }
        if insert_pos(s, k) < s.len() {
            assert(s[insert_pos(s, k)] == t[insert_pos(t, k)]);
        }
    }
}

/// Setting `k` to `v` in a sorted list: replace the entry of that name, or
/// insert a new one where the order puts it.
pub open spec fn put_sorted_spec(s: Seq<(Seq<char>, Seq<char>)>, k: Seq<char>, v: Seq<char>) -> Seq<
    (Seq<char>, Seq<char>),
> {
    let p = insert_pos(s, k);
    if p < s.len() && s[p].0 == k {
        s.update(p, (k, v))
    } else {
        s.insert(p, (k, v))
    }
}

/// The sorted list built by setting each pair of `ps` in turn.
pub open spec fn sorted_build(ps: Seq<(Seq<char>, Seq<char>)>) -> Seq<(Seq<char>, Seq<char>)>
    decreases ps.len(),
{
    if ps.len() == 0 {
        Seq::empty()
    } else {
        put_sorted_spec(sorted_build(ps.drop_last()), ps.last().0, ps.last().1)
    }
}

proof fn lemma_sorted_build(ps: Seq<(Seq<char>, Seq<char>)>)
    ensures
        strictly_sorted(sorted_build(ps)),
        pairs_map(sorted_build(ps)) == pairs_map(ps),
    decreases ps.len(),
{
    if ps.len() > 0 {
        let s = sorted_build(ps.drop_last());
        let k = ps.last().0;
        let v = ps.last().1;
        lemma_sorted_build(ps.drop_last());
        lemma_insert_pos(s, k);
        let p = insert_pos(s, k);
        if p < s.len() && s[p].0 == k {
            lemma_replace_sorted(s, p, k, v);
        } else {
            if p < s.len() {
                lemma_text_less_total(s[p].0, k);
            }
            lemma_insert_sorted(s, p, k, v);
        }
    }
}

/// In a strictly sorted list, each name its map holds is listed, with the
/// value the map gives it.
pub proof fn lemma_sorted_lookup(ps: Seq<(Seq<char>, Seq<char>)>, k: Seq<char>)
    requires
        strictly_sorted(ps),
        pairs_map(ps).contains_key(k),
    ensures
        ps.contains((k, pairs_map(ps)[k])),
{
    lemma_sorted_distinct(ps);
    lemma_pairs_map_distinct(ps);
    let i = choose|i: int| 0 <= i < ps.len() && ps[i].0 == k;
    assert(ps[i] == (k, pairs_map(ps)[k]));
}

/// Every list of pairs has its sorted arrangement: `sorted_entries` of the
/// map it builds is strictly sorted and builds the same map.
pub proof fn lemma_sorted_entries_exist(ps: Seq<(Seq<char>, Seq<char>)>)
    ensures
        strictly_sorted(sorted_entries(pairs_map(ps))),
        pairs_map(sorted_entries(pairs_map(ps))) == pairs_map(ps),
{
    lemma_sorted_build(ps);
    lemma_sorted_entries_of(sorted_build(ps));
}

/// Sets `name` to `value` in a list kept strictly sorted by name: the entry
/// of that name is replaced, or a new entry goes where the order puts it.
pub fn put_sorted(ps: &mut Vec<(String, String)>, name: &str, value: &str)
    requires
        strictly_sorted(pairs_view(old(ps)@)),
    ensures
        strictly_sorted(pairs_view(final(ps)@)),
        pairs_map(pairs_view(final(ps)@)) == pairs_map(pairs_view(old(ps)@)).insert(name@, value@),
{
    let ghost old_v = pairs_view(ps@);
    let mut i: usize = 0;
    while i < ps.len() && text_lt(ps[i].0.as_str(), name)
        invariant
            i <= ps.len(),
            pairs_view(ps@) == old_v,
            strictly_sorted(old_v),
            forall|j: int| 0 <= j < i ==> text_less(#[trigger] old_v[j].0, name@),
        decreases ps.len() - i,
    {
        i = i + 1;
    }
    let entry = (name.to_owned(), value.to_owned());
    if i < ps.len() && str_eq(ps[i].0.as_str(), name) {
        ps.set(i, entry);
        proof {
            assert(pairs_view(ps@) =~= old_v.update(i as int, (name@, value@)));
            lemma_replace_sorted(old_v, i as int, name@, value@);
        }
    } else {
        proof {
            if i < old_v.len() {
                assert(!text_less(old_v[i as int].0, name@));
                lemma_text_less_total(old_v[i as int].0, name@);
            }
        }
        ps.insert(i, entry);
        proof {
            assert(pairs_view(ps@) =~= old_v.insert(i as int, (name@, value@)));
            lemma_insert_sorted(old_v, i as int, name@, value@);
        }
    }
}

/// `params` followed by `extra`, merged by name (a later value wins) and
/// sorted by name: the one strictly sorted list holding that map.
pub fn sorted_merge(params: &Vec<(String, String)>, extra: &Vec<(String, String)>) -> (r: Vec<
    (String, String),
>)
    ensures
        pairs_view(r@) == sorted_entries(pairs_map(pairs_view(params@) + pairs_view(extra@))),
{
    let ghost all = pairs_view(params@) + pairs_view(extra@);
    let mut out: Vec<(String, String)> = Vec::new();
    let mut i: usize = 0;
    assert(pairs_view(out@) =~= Seq::<(Seq<char>, Seq<char>)>::empty());
    assert(all.take(0) =~= Seq::<(Seq<char>, Seq<char>)>::empty());
    while i < params.len()
        invariant
            i <= params.len(),
            all == pairs_view(params@) + pairs_view(extra@),
            strictly_sorted(pairs_view(out@)),
            pairs_map(pairs_view(out@)) == pairs_map(all.take(i as int)),
        decreases params.len() - i,
    {
        put_sorted(&mut out, params[i].0.as_str(), params[i].1.as_str());
        proof {
            assert(all.take(i + 1).drop_last() =~= all.take(i as int));
            assert(all[i as int] == (params@[i as int].0@, params@[i as int].1@));
        }
        i = i + 1;
    }
    let mut j: usize = 0;
    while j < extra.len()
        invariant
            i == params.len(),
            j <= extra.len(),
            all == pairs_view(params@) + pairs_view(extra@),
            strictly_sorted(pairs_view(out@)),
            pairs_map(pairs_view(out@)) == pairs_map(all.take(i + j)),
        decreases extra.len() - j,
    {
        put_sorted(&mut out, extra[j].0.as_str(), extra[j].1.as_str());
        proof {
            assert(all.take(i + j + 1).drop_last() =~= all.take(i + j));
            assert(all[i + j] == (extra@[j as int].0@, extra@[j as int].1@));
        }
        j = j + 1;
    }
    proof {
        assert(all.take(i + j) =~= all);
        lemma_sorted_entries_of(pairs_view(out@));
    }
    out
}

} // verus!
