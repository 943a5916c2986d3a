//! Parameter maps that keep their entries sorted by key.
use vstd::prelude::*;
use vstd::string::*;

verus! {

/// Whether two texts agree on their first `i` characters.
pub open spec fn agree_before(a: Seq<char>, b: Seq<char>, i: int) -> bool {
    &&& 0 <= i <= a.len()
    &&& i <= b.len()
    &&& forall|j: int| 0 <= j < i ==> a[j] == b[j]
}

/// Whether `a` comes before `b` because of what stands at position `i`.
pub open spec fn before_at(a: Seq<char>, b: Seq<char>, i: int) -> bool {
    &&& agree_before(a, b, i)
    &&& i < b.len()
    &&& (i == a.len() || a[i] < b[i])
}

/// The lexicographic order of texts by code point.
pub open spec fn text_less(a: Seq<char>, b: Seq<char>) -> bool {
    exists|i: int| before_at(a, b, i)
}

/// Nothing comes before itself.
pub proof fn lemma_text_less_irreflexive(a: Seq<char>)
    ensures
        !text_less(a, a),
{
}

/// The order of texts is transitive.
pub proof fn lemma_text_less_transitive(a: Seq<char>, b: Seq<char>, c: Seq<char>)
    requires
        text_less(a, b),
        text_less(b, c),
    ensures
        text_less(a, c),
{
    let i = choose|i: int| before_at(a, b, i);
    let j = choose|j: int| before_at(b, c, j);
    let k = if i < j { i } else { j };
    assert(before_at(a, c, k));
}

/// Two texts that agree on `i` characters are equal or ordered one way or the other.
proof fn lemma_text_order_from(a: Seq<char>, b: Seq<char>, i: int)
    requires
        agree_before(a, b, i),
    ensures
        a == b || text_less(a, b) || text_less(b, a),
    decreases a.len() - i,
{
    if i < a.len() && i < b.len() && a[i] == b[i] {
        lemma_text_order_from(a, b, i + 1);
    } else if i == a.len() && i == b.len() {
        assert(a =~= b);
    } else if i == a.len() || (i < b.len() && a[i] < b[i]) {
        assert(before_at(a, b, i));
    } else {
        assert(before_at(b, a, i));
    }
}

/// Any two texts are equal or ordered one way or the other.
pub proof fn lemma_text_less_total(a: Seq<char>, b: Seq<char>)
    ensures
        a == b || text_less(a, b) || text_less(b, a),
{
    lemma_text_order_from(a, b, 0);
}

/// Texts are ordered by the first character in which they differ, and a text comes before those
/// that it begins.
pub proof fn lemma_text_order(front: Seq<char>, c: char, d: char, a: Seq<char>, b: Seq<char>)
    ensures
        c < d ==> text_less(front.push(c) + a, front.push(d) + b),
        text_less(front, front.push(c) + a),
{
    let x = front.push(c) + a;
    let y = front.push(d) + b;
    let n = front.len() as int;
    assert(forall|j: int| 0 <= j < n ==> x[j] == front[j] && y[j] == front[j]);
    assert(x[n] == c && y[n] == d);
    if c < d {
        assert(before_at(x, y, n));
    }
    assert(before_at(front, x, n));
}

/// How one text stands to another in the lexicographic order.
pub enum Place {
    Before,
    Same,
    After,
}

/// Compares two texts by code point.
pub fn compare_text(a: &str, b: &str) -> (r: Place)
    ensures
        match r {
            Place::Before => text_less(a@, b@),
            Place::Same => a@ == b@,
            Place::After => text_less(b@, a@),
        },
{
    let mut rest_a = a.chars();
    let mut rest_b = b.chars();
    let ghost mut i: int = 0;
    loop
        invariant
            agree_before(a@, b@, i),
            vstd::std_specs::iter::IteratorSpec::remaining(&rest_a) == a@.skip(i),
            vstd::std_specs::iter::IteratorSpec::remaining(&rest_b) == b@.skip(i),
        decreases a@.len() - i,
    {
        match (rest_a.next(), rest_b.next()) {
            (None, None) => {
                assert(a@ =~= b@);
                return Place::Same;
            },
            (None, Some(_)) => {
                assert(before_at(a@, b@, i));
                return Place::Before;
            },
            (Some(_), None) => {
                assert(before_at(b@, a@, i));
                return Place::After;
            },
            (Some(x), Some(y)) => {
                if x < y {
                    assert(before_at(a@, b@, i));
                    return Place::Before;
                }
                if y < x {
                    assert(before_at(b@, a@, i));
                    return Place::After;
                }
                proof {
                    assert(a@.skip(i).drop_first() =~= a@.skip(i + 1));
                    assert(b@.skip(i).drop_first() =~= b@.skip(i + 1));
                    i = i + 1;
                }
            },
        }
    }
}

/// A key with its value.
pub type Entry = (Seq<char>, Seq<char>);

/// The texts that a list of pairs holds.
pub open spec fn entries_of(pairs: Seq<(String, String)>) -> Seq<Entry> {
    Seq::new(pairs.len(), |i: int| (pairs[i].0@, pairs[i].1@))
}

/// Whether the keys ascend strictly, so that none occurs twice.
pub open spec fn sorted(entries: Seq<Entry>) -> bool {
    forall|i: int, j: int|
        0 <= i < j < entries.len() ==> text_less(#[trigger] entries[i].0, #[trigger] entries[j].0)
}

/// The entries whose key comes before `key`.
pub open spec fn below(entries: Seq<Entry>, key: Seq<char>) -> Seq<Entry> {
    entries.filter(|e: Entry| text_less(e.0, key))
}

/// The entries whose key comes after `key`.
pub open spec fn above(entries: Seq<Entry>, key: Seq<char>) -> Seq<Entry> {
    entries.filter(|e: Entry| text_less(key, e.0))
}

/// The entries with the value of `key` set, at the place that belongs to the key.
pub open spec fn insert_entry(entries: Seq<Entry>, key: Seq<char>, value: Seq<char>) -> Seq<Entry> {
    below(entries, key) + seq![(key, value)] + above(entries, key)
}

/// The value of `key`: that of its last occurrence, where the list holds it more than once.
pub open spec fn lookup(entries: Seq<Entry>, key: Seq<char>) -> Option<Seq<char>>
    decreases entries.len(),
{
    if entries.len() == 0 {
        None
    } else if entries.last().0 == key {
        Some(entries.last().1)
    } else {
        lookup(entries.drop_last(), key)
    }
}

/// An entry that is added at the end of a list gives its key the value, whatever the key had
/// before, and leaves every other key as it was. An empty list holds no key.
pub proof fn lemma_lookup_push(entries: Seq<Entry>, key: Seq<char>, value: Seq<char>, other: Seq<char>)
    ensures
        lookup(entries.push((key, value)), key) == Some(value),
        other != key ==> lookup(entries.push((key, value)), other) == lookup(entries, other),
        lookup(Seq::<Entry>::empty(), key) is None,
{
    assert(entries.push((key, value)).drop_last() =~= entries);
}

/// The map that results from inserting the pairs of a list one after the other.
pub open spec fn sorted_entries(pairs: Seq<Entry>) -> Seq<Entry>
    decreases pairs.len(),
{
    if pairs.len() == 0 {
        seq![]
    } else {
        insert_entry(sorted_entries(pairs.drop_last()), pairs.last().0, pairs.last().1)
    }
}

/// A filter that keeps the first `p` entries and no other is `take(p)`.
proof fn lemma_filter_prefix(entries: Seq<Entry>, keep: spec_fn(Entry) -> bool, p: int)
    requires
        0 <= p <= entries.len(),
        forall|i: int| 0 <= i < p ==> keep(#[trigger] entries[i]),
        forall|i: int| p <= i < entries.len() ==> !keep(#[trigger] entries[i]),
    ensures
        entries.filter(keep) == entries.take(p),
    decreases entries.len(),
{
    reveal(Seq::filter);
    if entries.len() > 0 {
        let front = entries.drop_last();
        if p == entries.len() {
            lemma_filter_prefix(front, keep, p - 1);
            assert(front.take(p - 1).push(entries.last()) =~= entries.take(p));
        } else {
            lemma_filter_prefix(front, keep, p);
            assert(front.take(p) =~= entries.take(p));
        }
    }
}

/// A filter that drops the first `p` entries and no other is `skip(p)`.
proof fn lemma_filter_suffix(entries: Seq<Entry>, keep: spec_fn(Entry) -> bool, p: int)
    requires
        0 <= p <= entries.len(),
        forall|i: int| 0 <= i < p ==> !keep(#[trigger] entries[i]),
        forall|i: int| p <= i < entries.len() ==> keep(#[trigger] entries[i]),
    ensures
        entries.filter(keep) == entries.skip(p),
    decreases entries.len(),
{
    reveal(Seq::filter);
    if entries.len() > 0 {
        let front = entries.drop_last();
        if p == entries.len() {
            lemma_filter_suffix(front, keep, p - 1);
            assert(front.skip(p - 1) =~= seq![]);
            assert(entries.skip(p) =~= seq![]);
        } else {
            lemma_filter_suffix(front, keep, p);
            assert(front.skip(p).push(entries.last()) =~= entries.skip(p));
        }
    }
}

/// Where a new key stands at position `p`, inserting it splits the entries there.
pub proof fn lemma_insert_new(entries: Seq<Entry>, key: Seq<char>, value: Seq<char>, p: int)
    requires
        0 <= p <= entries.len(),
        forall|i: int| 0 <= i < p ==> text_less(#[trigger] entries[i].0, key),
        forall|i: int| p <= i < entries.len() ==> text_less(key, #[trigger] entries[i].0),
    ensures
        insert_entry(entries, key, value) == entries.take(p) + seq![(key, value)] + entries.skip(p),
{
    assert forall|i: int| 0 <= i < p implies !text_less(key, #[trigger] entries[i].0) by {
        if text_less(key, entries[i].0) {
            lemma_text_less_transitive(key, entries[i].0, key);
            lemma_text_less_irreflexive(key);
        }
    }
    assert forall|i: int| p <= i < entries.len() implies !text_less(#[trigger] entries[i].0, key) by {
        if text_less(entries[i].0, key) {
            lemma_text_less_transitive(key, entries[i].0, key);
            lemma_text_less_irreflexive(key);
        }
    }
    lemma_filter_prefix(entries, |e: Entry| text_less(e.0, key), p);
    lemma_filter_suffix(entries, |e: Entry| text_less(key, e.0), p);
}

/// Where a key comes after its left neighbour and before its right one, inserting it splits the
/// entries between them.
pub proof fn lemma_insert_between(entries: Seq<Entry>, key: Seq<char>, value: Seq<char>, p: int)
    requires
        sorted(entries),
        0 <= p <= entries.len(),
        p > 0 ==> text_less(entries[p - 1].0, key),
        p < entries.len() ==> text_less(key, entries[p].0),
    ensures
        insert_entry(entries, key, value) == entries.take(p) + seq![(key, value)] + entries.skip(p),
{
    assert forall|i: int| 0 <= i < p implies text_less(#[trigger] entries[i].0, key) by {
        if i < p - 1 {
            lemma_text_less_transitive(entries[i].0, entries[p - 1].0, key);
        }
    }
    assert forall|i: int| p <= i < entries.len() implies text_less(key, #[trigger] entries[i].0) by {
        if i > p {
            lemma_text_less_transitive(key, entries[p].0, entries[i].0);
        }
    }
    lemma_insert_new(entries, key, value, p);
}

/// Inserting a key that comes after all others appends it.
pub proof fn lemma_insert_last(entries: Seq<Entry>, key: Seq<char>, value: Seq<char>)
    requires
        sorted(entries),
        entries.len() > 0 ==> text_less(entries.last().0, key),
    ensures
        insert_entry(entries, key, value) == entries.push((key, value)),
{
    let n = entries.len() as int;
    lemma_insert_between(entries, key, value, n);
    assert(entries.take(n) + seq![(key, value)] + entries.skip(n) =~= entries.push((key, value)));
}

/// Where a key stands at position `p` already, inserting it replaces the value there.
pub proof fn lemma_insert_present(entries: Seq<Entry>, key: Seq<char>, value: Seq<char>, p: int)
    requires
        sorted(entries),
        0 <= p < entries.len(),
        entries[p].0 == key,
    ensures
        insert_entry(entries, key, value) == entries.update(p, (key, value)),
{
    assert forall|i: int| 0 <= i < entries.len() implies {
        &&& text_less(#[trigger] entries[i].0, key) <==> i < p
        &&& text_less(key, entries[i].0) <==> i > p
    } by {
        lemma_text_less_irreflexive(key);
        if i < p && text_less(key, entries[i].0) {
            lemma_text_less_transitive(key, entries[i].0, key);
        }
        if i > p && text_less(entries[i].0, key) {
            lemma_text_less_transitive(key, entries[i].0, key);
        }
    }
    lemma_filter_prefix(entries, |e: Entry| text_less(e.0, key), p);
    lemma_filter_suffix(entries, |e: Entry| text_less(key, e.0), p + 1);
    assert(entries.take(p) + seq![(key, value)] + entries.skip(p + 1) =~= entries.update(
        p,
        (key, value),
    ));
}

/// A key that is found stands in the list with the value found.
pub proof fn lemma_lookup_found(entries: Seq<Entry>, key: Seq<char>)
    ensures
        lookup(entries, key) is Some ==> entries.contains((key, lookup(entries, key)->0)),
        lookup(entries, key) is None ==> forall|i: int|
            0 <= i < entries.len() ==> (#[trigger] entries[i]).0 != key,
    decreases entries.len(),
{
    if entries.len() > 0 {
        let front = entries.drop_last();
        lemma_lookup_found(front, key);
        if entries.last().0 == key {
            assert(entries[entries.len() - 1] == (key, entries.last().1));
        } else if lookup(front, key) is Some {
            let i = choose|i: int| 0 <= i < front.len() && front[i] == (key, lookup(front, key)->0);
            assert(entries[i] == front[i]);
        } else {
            assert forall|i: int| 0 <= i < entries.len() implies (#[trigger] entries[i]).0 != key by {
                if i < front.len() {
                    assert(entries[i] == front[i]);
                }
            }
        }
    }
}

/// In a sorted list every key has the value that stands with it.
pub proof fn lemma_lookup_sorted(entries: Seq<Entry>, i: int)
    requires
        sorted(entries),
        0 <= i < entries.len(),
    ensures
        lookup(entries, entries[i].0) == Some(entries[i].1),
{
    let key = entries[i].0;
    lemma_lookup_found(entries, key);
    let value = lookup(entries, key)->0;
    assert(entries[i].0 == key);
    let k = choose|k: int| 0 <= k < entries.len() && entries[k] == (key, value);
    assert(entries[k].0 == key);
    lemma_text_less_irreflexive(key);
    assert(i == k);
}

/// The position at which a key stands, or would stand, in a sorted list.
proof fn lemma_position(entries: Seq<Entry>, key: Seq<char>) -> (p: int)
    requires
        sorted(entries),
    ensures
        0 <= p <= entries.len(),
        forall|i: int| 0 <= i < p ==> text_less(#[trigger] entries[i].0, key),
        p < entries.len() ==> entries[p].0 == key || text_less(key, entries[p].0),
    decreases entries.len(),
{
    if entries.len() == 0 {
        0
    } else {
        let front = entries.drop_last();
        let p = lemma_position(front, key);
        assert forall|i: int| 0 <= i < p implies text_less(#[trigger] entries[i].0, key) by {
            assert(entries[i] == front[i]);
        }
        if p < front.len() {
            assert(entries[p] == front[p]);
            p
        } else {
            lemma_text_less_total(entries.last().0, key);
            if text_less(entries.last().0, key) {
                p + 1
            } else {
                p
            }
        }
    }
}

/// Inserting into a sorted list leaves it sorted, gives the key its new value, and leaves the
/// value of every other key as it was.
pub proof fn lemma_insert(entries: Seq<Entry>, key: Seq<char>, value: Seq<char>)
    requires
        sorted(entries),
    ensures
        sorted(insert_entry(entries, key, value)),
        lookup(insert_entry(entries, key, value), key) == Some(value),
        forall|other: Seq<char>|
            other != key ==> #[trigger] lookup(insert_entry(entries, key, value), other) == lookup(
                entries,
                other,
            ),
{
    let p = lemma_position(entries, key);
    let result = insert_entry(entries, key, value);
    let present = p < entries.len() && entries[p].0 == key;
    let shift: int = if present { 0 } else { 1 };
    if present {
        lemma_insert_present(entries, key, value, p);
    } else {
        assert forall|i: int| p <= i < entries.len() implies text_less(key, #[trigger] entries[i].0) by {
            if i > p {
                lemma_text_less_transitive(key, entries[p].0, entries[i].0);
            }
        }
        lemma_insert_new(entries, key, value, p);
    }
    assert(result[p] == (key, value));
    assert forall|i: int| 0 <= i < result.len() && i != p implies #[trigger] result[i] == (if i < p {
        entries[i]
    } else {
        entries[i - shift]
    }) by {}
    assert forall|i: int, j: int| 0 <= i < j < result.len() implies text_less(
        #[trigger] result[i].0,
        #[trigger] result[j].0,
    ) by {
        if i == p && !present {
            assert(text_less(key, entries[j - shift].0));
        }
    }
    lemma_lookup_sorted(result, p);
    assert forall|other: Seq<char>| other != key implies #[trigger] lookup(result, other) == lookup(
        entries,
        other,
    ) by {
        lemma_lookup_found(entries, other);
        lemma_lookup_found(result, other);
        if lookup(entries, other) is Some {
            let e = (other, lookup(entries, other)->0);
            let i = choose|i: int| 0 <= i < entries.len() && entries[i] == e;
            let k = if i < p { i } else { i + shift };
            assert(result[k] == e);
            lemma_lookup_sorted(result, k);
        } else if lookup(result, other) is Some {
            let e = (other, lookup(result, other)->0);
            let k = choose|k: int| 0 <= k < result.len() && result[k] == e;
            let i = if k < p { k } else { k - shift };
            assert(entries[i] == e);
        }
    }
}

/// Collecting pairs gives a sorted list in which every key has its last value.
pub proof fn lemma_sorted_entries(pairs: Seq<Entry>)
    ensures
        sorted(sorted_entries(pairs)),
        forall|key: Seq<char>| #[trigger]
            lookup(sorted_entries(pairs), key) == lookup(pairs, key),
    decreases pairs.len(),
{
    if pairs.len() > 0 {
        lemma_sorted_entries(pairs.drop_last());
        lemma_insert(sorted_entries(pairs.drop_last()), pairs.last().0, pairs.last().1);
    }
}

/// A sorted list is determined by the values of its keys.
pub proof fn lemma_sorted_unique(a: Seq<Entry>, b: Seq<Entry>)
    requires
        sorted(a),
        sorted(b),
        forall|key: Seq<char>| #[trigger] lookup(a, key) == lookup(b, key),
    ensures
        a == b,
    decreases a.len(),
{
    if a.len() == 0 {
        if b.len() > 0 {
            assert(lookup(a, b.last().0) is None);
        }
        assert(a =~= b);
    } else {
        lemma_last_in_other(a, b);
        lemma_last_in_other(b, a);
        lemma_text_less_irreflexive(a.last().0);
        if text_less(a.last().0, b.last().0) && text_less(b.last().0, a.last().0) {
            lemma_text_less_transitive(a.last().0, b.last().0, a.last().0);
        }
        assert(a.last() == b.last()) by {
            assert(lookup(a, a.last().0) == lookup(b, a.last().0));
        }
        assert forall|key: Seq<char>| #[trigger] lookup(a.drop_last(), key) == lookup(
            b.drop_last(),
            key,
        ) by {
            assert(lookup(a, key) == lookup(b, key));
            if key == a.last().0 {
                lemma_last_is_new(a);
                lemma_last_is_new(b);
            }
        }
        lemma_sorted_unique(a.drop_last(), b.drop_last());
        assert(a =~= a.drop_last().push(a.last()));
        assert(b =~= b.drop_last().push(b.last()));
    }
}

/// Where two sorted lists hold the same keys, no last key comes after the other.
proof fn lemma_last_in_other(a: Seq<Entry>, b: Seq<Entry>)
    requires
        sorted(b),
        a.len() > 0,
        forall|key: Seq<char>| #[trigger] lookup(a, key) == lookup(b, key),
    ensures
        b.len() > 0,
        a.last().0 == b.last().0 || text_less(a.last().0, b.last().0),
{
    let key = a.last().0;
    assert(lookup(a, key) == lookup(b, key));
    lemma_lookup_found(b, key);
    let i = choose|i: int| 0 <= i < b.len() && b[i] == (key, lookup(b, key)->0);
    assert(b[i].0 == key);
    if i < b.len() - 1 {
        assert(text_less(b[i].0, b[b.len() - 1].0));
    }
}

/// The last key of a sorted list does not occur before.
proof fn lemma_last_is_new(a: Seq<Entry>)
    requires
        sorted(a),
        a.len() > 0,
    ensures
        lookup(a.drop_last(), a.last().0) is None,
{
    let key = a.last().0;
    lemma_lookup_found(a.drop_last(), key);
    lemma_text_less_irreflexive(key);
    if lookup(a.drop_last(), key) is Some {
        let e = (key, lookup(a.drop_last(), key)->0);
        let i = choose|i: int| 0 <= i < a.drop_last().len() && a.drop_last()[i] == e;
        assert(text_less(a[i].0, a[a.len() - 1].0));
    }
}

/// Inserting a key that a sorted list does not hold adds an entry at some position.
proof fn lemma_insert_absent(entries: Seq<Entry>, key: Seq<char>, value: Seq<char>) -> (p: int)
    requires
        sorted(entries),
        lookup(entries, key) is None,
    ensures
        0 <= p <= entries.len(),
        insert_entry(entries, key, value) == entries.take(p) + seq![(key, value)] + entries.skip(p),
{
    let p = lemma_position(entries, key);
    lemma_lookup_found(entries, key);
    assert forall|i: int| p <= i < entries.len() implies text_less(key, #[trigger] entries[i].0) by {
        if i > p {
            assert(entries[p].0 != key);
            lemma_text_less_transitive(key, entries[p].0, entries[i].0);
        }
    }
    lemma_insert_new(entries, key, value, p);
    p
}

/// Taking a key out again after it was inserted gives the list back that did not hold it.
pub proof fn lemma_insert_without(
    entries: Seq<Entry>,
    key: Seq<char>,
    value: Seq<char>,
    other: Seq<char>,
)
    requires
        sorted(entries),
        lookup(entries, key) is None,
        lookup(entries, other) is None,
    ensures
        without(insert_entry(entries, key, value), key, other) == entries,
{
    let p = lemma_insert_absent(entries, key, value);
    lemma_lookup_found(entries, key);
    lemma_lookup_found(entries, other);
    lemma_filter_but_one(entries, (key, value), neither(key, other), p);
}

/// A filter that keeps all entries but one takes that one out.
proof fn lemma_filter_but_one(entries: Seq<Entry>, odd: Entry, keep: spec_fn(Entry) -> bool, p: int)
    requires
        0 <= p <= entries.len(),
        !keep(odd),
        forall|i: int| 0 <= i < entries.len() ==> keep(#[trigger] entries[i]),
    ensures
        (entries.take(p) + seq![odd] + entries.skip(p)).filter(keep) == entries,
    decreases entries.len(),
{
    let all = entries.take(p) + seq![odd] + entries.skip(p);
    reveal(Seq::filter);
    if p == entries.len() {
        assert(all.drop_last() =~= entries);
        assert(all.last() == odd);
        lemma_filter_prefix(entries, keep, p);
        assert(entries.take(p) =~= entries);
    } else {
        let front = entries.drop_last();
        lemma_filter_but_one(front, odd, keep, p);
        assert(all.drop_last() =~= front.take(p) + seq![odd] + front.skip(p));
        assert(all.last() == entries[entries.len() - 1]);
        assert(front.push(all.last()) =~= entries);
    }
}

/// The test for an entry that has neither of two keys.
pub open spec fn neither(first: Seq<char>, second: Seq<char>) -> spec_fn(Entry) -> bool {
    |e: Entry| e.0 != first && e.0 != second
}

/// The entries without those of two keys.
pub open spec fn without(entries: Seq<Entry>, first: Seq<char>, second: Seq<char>) -> Seq<Entry> {
    entries.filter(neither(first, second))
}

/// A filter keeps entries of the list, and keeps them sorted.
proof fn lemma_filter_sorted(entries: Seq<Entry>, keep: spec_fn(Entry) -> bool)
    requires
        sorted(entries),
    ensures
        sorted(entries.filter(keep)),
        forall|i: int|
            0 <= i < entries.filter(keep).len() ==> keep(#[trigger] entries.filter(keep)[i])
                && entries.contains(entries.filter(keep)[i]),
    decreases entries.len(),
{
    reveal(Seq::filter);
    if entries.len() > 0 {
        let front = entries.drop_last();
        let last = entries.last();
        lemma_filter_sorted(front, keep);
        assert forall|i: int| 0 <= i < front.filter(keep).len() implies {
            &&& text_less(#[trigger] front.filter(keep)[i].0, last.0)
            &&& entries.contains(front.filter(keep)[i])
        } by {
            let k = choose|k: int| 0 <= k < front.len() && front[k] == front.filter(keep)[i];
            assert(front.contains(front.filter(keep)[i]));
            assert(entries[k] == front[k]);
            assert(text_less(entries[k].0, entries[entries.len() - 1].0));
        }
        if keep(last) {
            assert(entries.filter(keep) == front.filter(keep).push(last));
            assert(entries[entries.len() - 1] == last);
            assert forall|i: int, j: int| 0 <= i < j < entries.filter(keep).len() implies text_less(
                #[trigger] entries.filter(keep)[i].0,
                #[trigger] entries.filter(keep)[j].0,
            ) by {
                assert(entries.filter(keep)[i] == front.filter(keep)[i]);
                if j < front.filter(keep).len() {
                    assert(entries.filter(keep)[j] == front.filter(keep)[j]);
                }
            }
            assert forall|i: int| 0 <= i < entries.filter(keep).len() implies {
                &&& keep(#[trigger] entries.filter(keep)[i])
                &&& entries.contains(entries.filter(keep)[i])
            } by {
                if i < front.filter(keep).len() {
                    assert(entries.filter(keep)[i] == front.filter(keep)[i]);
                }
            }
        }
    }
}

/// A sorted list stays sorted when an entry is added at its end whose key comes after the
/// others.
pub proof fn lemma_push_sorted(entries: Seq<Entry>, key: Seq<char>, value: Seq<char>)
    requires
        sorted(entries),
        entries.len() > 0 ==> text_less(entries.last().0, key),
    ensures
        sorted(entries.push((key, value))),
{
    lemma_insert_last(entries, key, value);
    lemma_insert(entries, key, value);
}

/// Taking two keys out leaves the value of every other key as it was.
pub proof fn lemma_without(entries: Seq<Entry>, first: Seq<char>, second: Seq<char>)
    requires
        sorted(entries),
    ensures
        sorted(without(entries, first, second)),
        lookup(without(entries, first, second), first) is None,
        lookup(without(entries, first, second), second) is None,
        forall|key: Seq<char>|
            key != first && key != second ==> #[trigger] lookup(
                without(entries, first, second),
                key,
            ) == lookup(entries, key),
{
    lemma_filter_sorted(entries, neither(first, second));
    assert forall|key: Seq<char>| #[trigger]
        lookup(without(entries, first, second), key) == if key == first || key == second {
            None
        } else {
            lookup(entries, key)
        } by {
        lemma_lookup_without(entries, first, second, key);
    }
}

proof fn lemma_lookup_without(
    entries: Seq<Entry>,
    first: Seq<char>,
    second: Seq<char>,
    key: Seq<char>,
)
    ensures
        lookup(without(entries, first, second), key) == if key == first || key == second {
            None
        } else {
            lookup(entries, key)
        },
    decreases entries.len(),
{
    reveal(Seq::filter);
    if entries.len() > 0 {
        let front = entries.drop_last();
        lemma_lookup_without(front, first, second, key);
        if neither(first, second)(entries.last()) {
            assert(without(entries, first, second) == without(front, first, second).push(
                entries.last(),
            ));
            assert(without(entries, first, second).drop_last() =~= without(front, first, second));
        }
    }
}

/// Collecting the entries of a sorted list gives the list back.
pub proof fn lemma_sorted_entries_of_sorted(entries: Seq<Entry>)
    requires
        sorted(entries),
    ensures
        sorted_entries(entries) == entries,
{
    lemma_sorted_entries(entries);
    lemma_sorted_unique(sorted_entries(entries), entries);
}

/// A map of text parameters, kept in the order of the keys.
pub struct ParamMap {
    pairs: Vec<(String, String)>,
}

impl ParamMap {
    /// The entries in the order in which they are kept.
    pub closed spec fn entries(&self) -> Seq<Entry> {
        entries_of(self.pairs@)
    }

    /// Whether the entries ascend by key.
    pub open spec fn wf(&self) -> bool {
        sorted(self.entries())
    }

    /// A map without entries.
    pub fn new() -> (r: ParamMap)
        ensures
            r.wf(),
            r.entries() == Seq::<Entry>::empty(),
    {
        let r = ParamMap { pairs: Vec::new() };
        assert(r.entries() =~= Seq::<Entry>::empty());
        r
    }

    /// The number of entries.
    pub fn len(&self) -> (r: usize)
        ensures
            r == self.entries().len(),
    {
        self.pairs.len()
    }

    /// The key of the entry at position `i`.
    pub fn key(&self, i: usize) -> (r: &String)
        requires
            i < self.entries().len(),
        ensures
            r@ == self.entries()[i as int].0,
    {
        &self.pairs[i].0
    }

    /// The value of the entry at position `i`.
    pub fn value(&self, i: usize) -> (r: &String)
        requires
            i < self.entries().len(),
        ensures
            r@ == self.entries()[i as int].1,
    {
        &self.pairs[i].1
    }

    /// Sets the value of a key, whether or not the map holds the key already.
    pub fn insert(&mut self, key: String, value: String)
        requires
            old(self).wf(),
        ensures
            final(self).wf(),
            final(self).entries() == insert_entry(old(self).entries(), key@, value@),
    {
        let ghost before = self.entries();
        let mut p: usize = 0;
        while p < self.pairs.len()
            invariant
                *self == *old(self),
                before == self.entries(),
                before == entries_of(self.pairs@),
                p <= self.pairs.len(),
                sorted(before),
                forall|i: int| 0 <= i < p ==> text_less(#[trigger] before[i].0, key@),
            ensures
                *self == *old(self),
                p <= self.pairs.len(),
                forall|i: int| 0 <= i < p ==> text_less(#[trigger] before[i].0, key@),
                p < self.pairs.len() ==> text_less(key@, before[p as int].0),
            decreases self.pairs.len() - p,
        {
            match compare_text(self.pairs[p].0.as_str(), key.as_str()) {
                Place::Before => {
                    p = p + 1;
                },
                Place::Same => {
                    proof {
                        lemma_insert_present(before, key@, value@, p as int);
                    }
                    self.pairs.set(p, (key, value));
                    assert(self.entries() =~= before.update(p as int, (key@, value@)));
                    return ;
                },
                Place::After => {
                    break ;
                },
            }
        }
        proof {
            assert forall|i: int| p <= i < before.len() implies text_less(
                key@,
                #[trigger] before[i].0,
            ) by {
                if i > p {
                    lemma_text_less_transitive(key@, before[p as int].0, before[i].0);
                }
            }
            lemma_insert_new(before, key@, value@, p as int);
        }
        self.pairs.insert(p, (key, value));
        assert(self.entries() =~= before.take(p as int) + seq![(key@, value@)] + before.skip(p as int));
    }

    /// The value of a key.
    pub fn get(&self, key: &str) -> (r: Option<&String>)
        ensures
            r is Some <==> lookup(self.entries(), key@) is Some,
            r matches Some(value) ==> lookup(self.entries(), key@) == Some(value@),
    {
        let mut n: usize = self.pairs.len();
        assert(self.entries().take(n as int) =~= self.entries());
        while n > 0
            invariant
                n <= self.pairs.len(),
                self.entries() == entries_of(self.pairs@),
                lookup(self.entries(), key@) == lookup(self.entries().take(n as int), key@),
            decreases n,
        {
            n = n - 1;
            assert(self.entries().take(n + 1).drop_last() =~= self.entries().take(n as int));
            if crate::text::same_text(&self.pairs[n].0, key) {
                return Some(&self.pairs[n].1);
            }
        }
        None
    }

    /// Collects pairs into a map; of the pairs with one key, the last one stays.
    pub fn from_pairs(pairs: Vec<(String, String)>) -> (r: ParamMap)
        ensures
            r.wf(),
            r.entries() == sorted_entries(entries_of(pairs@)),
    {
        let mut map = ParamMap::new();
        let ghost all = entries_of(pairs@);
        let mut i: usize = 0;
        assert(all.take(0) =~= seq![]);
        while i < pairs.len()
            invariant
                i <= pairs.len(),
                all == entries_of(pairs@),
                map.wf(),
                map.entries() == sorted_entries(all.take(i as int)),
            decreases pairs.len() - i,
        {
            assert(all.take(i + 1).drop_last() =~= all.take(i as int));
            map.insert(pairs[i].0.clone(), pairs[i].1.clone());
            i = i + 1;
        }
        assert(all.take(i as int) =~= all);
        map
    }

    /// The map without the entries of two keys.
    pub fn without_keys(&self, first: &str, second: &str) -> (r: ParamMap)
        requires
            self.wf(),
        ensures
            r.wf(),
            r.entries() == without(self.entries(), first@, second@),
    {
        let ghost all = self.entries();
        let ghost keep = neither(first@, second@);
        let mut map = ParamMap::new();
        let mut i: usize = 0;
        proof {
            reveal(Seq::filter);
            assert(all.take(0) =~= seq![]);
        }
        while i < self.pairs.len()
            invariant
                i <= self.pairs.len(),
                all == entries_of(self.pairs@),
                keep == neither(first@, second@),
                entries_of(map.pairs@) == all.take(i as int).filter(keep),
            decreases self.pairs.len() - i,
        {
            proof {
                reveal(Seq::filter);
                assert(all.take(i + 1).drop_last() =~= all.take(i as int));
            }
            let ghost before = entries_of(map.pairs@);
            if !crate::text::same_text(&self.pairs[i].0, first) && !crate::text::same_text(
                &self.pairs[i].0,
                second,
            ) {
                map.pairs.push((self.pairs[i].0.clone(), self.pairs[i].1.clone()));
                assert(entries_of(map.pairs@) =~= before.push(all[i as int]));
            }
            i = i + 1;
        }
        proof {
            assert(all.take(i as int) =~= all);
            lemma_filter_sorted(all, keep);
        }
        map
    }
}

} // verus!
