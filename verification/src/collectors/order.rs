//! Lists in the order of a text.

use crate::text;
use vstd::prelude::*;

verus! {

/// `a` stands before `b` or is the same: the first character that differs decides, and a text
/// stands before those that continue it.
pub open spec fn text_le(a: Seq<char>, b: Seq<char>) -> bool
    decreases a.len(),
{
    a.len() == 0 || b.len() > 0 && (a[0] < b[0] || a[0] == b[0] && text_le(
        a.drop_first(),
        b.drop_first(),
    ))
}

/// Of any two texts one stands before the other or is the same.
pub proof fn lemma_text_le_total(a: Seq<char>, b: Seq<char>)
    ensures
        text_le(a, b) || text_le(b, a),
    decreases a.len(),
{
    if a.len() > 0 && b.len() > 0 {
        lemma_text_le_total(a.drop_first(), b.drop_first());
    }
}

proof fn lemma_text_le_transitive(a: Seq<char>, b: Seq<char>, c: Seq<char>)
    requires
        text_le(a, b),
        text_le(b, c),
    ensures
        text_le(a, c),
    decreases a.len(),
{
    if a.len() > 0 && b.len() > 0 && c.len() > 0 && a[0] == b[0] && b[0] == c[0] {
        lemma_text_le_transitive(a.drop_first(), b.drop_first(), c.drop_first());
    }
}

/// Whether `a` stands before `b` or is the same.
pub fn stands_before(a: &str, b: &str) -> (r: bool)
    ensures
        r == text_le(a@, b@),
{
    let a_chars = text::to_chars(a);
    let b_chars = text::to_chars(b);
    let mut i: usize = 0;
    assert(a@.skip(0) =~= a@);
    assert(b@.skip(0) =~= b@);
    while i < a_chars.len()
        invariant
            i <= a_chars@.len(),
            i <= b_chars@.len(),
            a_chars@ == a@,
            b_chars@ == b@,
            text_le(a@, b@) == text_le(a@.skip(i as int), b@.skip(i as int)),
        decreases a_chars@.len() - i,
    {
        if i >= b_chars.len() {
            return false;
        }
        if a_chars[i] != b_chars[i] {
            return a_chars[i] < b_chars[i];
        }
        proof {
            assert(a@.skip(i as int).drop_first() =~= a@.skip(i + 1));
            assert(b@.skip(i as int).drop_first() =~= b@.skip(i + 1));
        }
        i += 1;
    }
    true
}

/// What has a text that it is ordered by.
pub trait Keyed: Sized {
    /// The text that the value is ordered by.
    spec fn key(&self) -> Seq<char>;

    /// The text that the value is ordered by.
    fn key_text(&self) -> (r: &str)
        ensures
            r@ == self.key(),
    ;
}

/// An ordered list with one value more, behind those that it does not stand before.
pub open spec fn inserted<T: Keyed>(s: Seq<T>, value: T) -> Seq<T>
    decreases s.len(),
{
    if s.len() == 0 || text_le(s.last().key(), value.key()) {
        s.push(value)
    } else {
        inserted(s.drop_last(), value).push(s.last())
    }
}

/// The list in order; values of one key stay as they stood.
pub open spec fn sorted<T: Keyed>(s: Seq<T>) -> Seq<T>
    decreases s.len(),
{
    if s.len() == 0 {
        s
    } else {
        inserted(sorted(s.drop_last()), s.last())
    }
}

proof fn lemma_inserted_at<T: Keyed>(s: Seq<T>, value: T, at: int)
    requires
        0 <= at <= s.len(),
        at > 0 ==> text_le(s[at - 1].key(), value.key()),
        forall|k: int| at <= k < s.len() ==> !text_le((#[trigger] s[k]).key(), value.key()),
    ensures
        inserted(s, value) == s.insert(at, value),
    decreases s.len(),
{
    if at == s.len() {
        assert(s.insert(at, value) =~= s.push(value));
    } else {
        assert(!text_le(s[s.len() - 1].key(), value.key()));
        assert forall|k: int| at <= k < s.drop_last().len() implies !text_le(
            (#[trigger] s.drop_last()[k]).key(),
            value.key(),
        ) by {
            assert(s.drop_last()[k] == s[k]);
        }
        lemma_inserted_at(s.drop_last(), value, at);
        assert(s.insert(at, value) =~= s.drop_last().insert(at, value).push(s.last()));
    }
}

/// Put a value into an ordered list.
fn insert_sorted<T: Keyed>(list: &mut Vec<T>, value: T)
    ensures
        final(list)@ == inserted(old(list)@, value),
{
    let mut at: usize = list.len();
    while at > 0 && !stands_before(list[at - 1].key_text(), value.key_text())
        invariant
            at <= list@.len(),
            list@ == old(list)@,
            forall|k: int| at <= k < list@.len() ==> !text_le(
                (#[trigger] list@[k]).key(),
                value.key(),
            ),
        decreases at,
    {
        at -= 1;
    }
    proof {
        lemma_inserted_at(list@, value, at as int);
    }
    list.insert(at, value);
}

/// Put a list in order; values of one key stay as they stood.
pub fn sort<T: Keyed>(list: Vec<T>) -> (r: Vec<T>)
    ensures
        r@ == sorted(list@),
{
    let ghost given = list@;
    let mut rest = list;
    let mut out: Vec<T> = Vec::new();
    let ghost mut n: int = 0;
    assert(given.skip(0) =~= given);
    assert(given.take(0) =~= out@);
    while rest.len() > 0
        invariant
            0 <= n <= given.len(),
            rest@ == given.skip(n),
            out@ == sorted(given.take(n)),
        decreases rest@.len(),
    {
        let value = rest.remove(0);
        insert_sorted(&mut out, value);
        proof {
            assert(given.take(n + 1).drop_last() =~= given.take(n));
            assert(given.take(n + 1).last() == value);
            assert(rest@ =~= given.skip(n + 1));
            n = n + 1;
        }
    }
    proof {
        assert(given.take(n) =~= given);
    }
    out
}

/// The list is in order.
pub open spec fn in_order<T: Keyed>(s: Seq<T>) -> bool {
    forall|i: int, j: int|
        0 <= i < j < s.len() ==> text_le((#[trigger] s[i]).key(), (#[trigger] s[j]).key())
}

proof fn lemma_insert_keeps_order<T: Keyed>(s: Seq<T>, value: T)
    requires
        in_order(s),
    ensures
        in_order(inserted(s, value)),
        inserted(s, value).to_multiset() == s.to_multiset().insert(value),
        inserted(s, value).len() == s.len() + 1,
        forall|k: int|
            0 <= k < s.len() + 1 ==> (#[trigger] inserted(s, value)[k]) == value || s.contains(
                inserted(s, value)[k],
            ),
    decreases s.len(),
{
    s.to_multiset_ensures();
    if s.len() == 0 || text_le(s.last().key(), value.key()) {
        let r = s.push(value);
        assert(inserted(s, value) == r);
        assert forall|i: int, j: int| 0 <= i < j < r.len() implies text_le(
            (#[trigger] r[i]).key(),
            (#[trigger] r[j]).key(),
        ) by {
            if j < s.len() {
                assert(text_le(s[i].key(), s[j].key()));
            } else if i < s.len() - 1 {
                lemma_text_le_transitive(s[i].key(), s.last().key(), value.key());
            }
        }
        assert forall|k: int| 0 <= k < s.len() + 1 implies (#[trigger] r[k]) == value || s.contains(
            r[k],
        ) by {
            if k < s.len() {
                assert(s[k] == r[k]);
            }
        }
    } else {
        let shorter = s.drop_last();
        lemma_insert_keeps_order(shorter, value);
        let inner = inserted(shorter, value);
        let r = inner.push(s.last());
        assert(inserted(s, value) == r);
        lemma_text_le_total(s.last().key(), value.key());
        assert forall|i: int, j: int| 0 <= i < j < r.len() implies text_le(
            (#[trigger] r[i]).key(),
            (#[trigger] r[j]).key(),
        ) by {
            if j < inner.len() {
                assert(text_le(inner[i].key(), inner[j].key()));
            } else {
                assert(inner[i] == value || shorter.contains(inner[i]));
                if shorter.contains(inner[i]) {
                    let k = choose|k: int| 0 <= k < shorter.len() && shorter[k] == inner[i];
                    assert(s[k] == inner[i]);
                    assert(text_le(s[k].key(), s[s.len() - 1].key()));
                }
            }
        }
        assert forall|k: int| 0 <= k < s.len() + 1 implies (#[trigger] r[k]) == value || s.contains(
            r[k],
        ) by {
            if k < inner.len() {
                assert(r[k] == inner[k]);
                if shorter.contains(inner[k]) {
                    let m = choose|m: int| 0 <= m < shorter.len() && shorter[m] == inner[k];
                    assert(s[m] == inner[k]);
                }
            } else {
                assert(r[k] == s[s.len() - 1]);
            }
        }
        inner.to_multiset_ensures();
        shorter.to_multiset_ensures();
        assert(shorter.push(s.last()) =~= s);
        assert(r.to_multiset() =~= s.to_multiset().insert(value));
    }
}

/// A list that was put in order is in order, and holds what it held.
pub proof fn sorting_orders_and_keeps<T: Keyed>(s: Seq<T>)
    ensures
        in_order(sorted(s)),
        sorted(s).to_multiset() == s.to_multiset(),
    decreases s.len(),
{
    if s.len() > 0 {
        sorting_orders_and_keeps(s.drop_last());
        lemma_insert_keeps_order(sorted(s.drop_last()), s.last());
        s.drop_last().to_multiset_ensures();
        assert(s.drop_last().push(s.last()) =~= s);
        assert(sorted(s).to_multiset() =~= s.to_multiset());
    }
}

/// Some value of the list has this key.
pub open spec fn has_key<T: Keyed>(s: Seq<T>, key: Seq<char>) -> bool {
    exists|i: int| 0 <= i < s.len() && (#[trigger] s[i]).key() == key
}

/// The list with the first value of each key alone.
pub open spec fn distinct<T: Keyed>(s: Seq<T>) -> Seq<T>
    decreases s.len(),
{
    if s.len() == 0 {
        s
    } else if has_key(s.drop_last(), s.last().key()) {
        distinct(s.drop_last())
    } else {
        distinct(s.drop_last()).push(s.last())
    }
}

proof fn lemma_distinct_keeps_keys<T: Keyed>(s: Seq<T>, key: Seq<char>)
    ensures
        has_key(distinct(s), key) == has_key(s, key),
    decreases s.len(),
{
    if s.len() > 0 {
        let shorter = s.drop_last();
        lemma_distinct_keeps_keys(shorter, key);
        let d = distinct(shorter);
        if has_key(s, key) {
            let i = choose|i: int| 0 <= i < s.len() && (#[trigger] s[i]).key() == key;
            if i < s.len() - 1 {
                assert(shorter[i].key() == key);
                assert(has_key(d, key));
            }
        }
        if has_key(shorter, key) {
            let i = choose|i: int| 0 <= i < shorter.len() && (#[trigger] shorter[i]).key() == key;
            assert(s[i].key() == key);
        }
        if has_key(shorter, s.last().key()) {
            if s.last().key() == key {
                assert(has_key(d, key));
            }
        } else {
            let r = d.push(s.last());
            if has_key(d, key) {
                let i = choose|i: int| 0 <= i < d.len() && (#[trigger] d[i]).key() == key;
                assert(r[i].key() == key);
            }
            if s.last().key() == key {
                assert(r[r.len() - 1].key() == key);
                assert(s[s.len() - 1].key() == key);
            }
            if has_key(r, key) {
                let i = choose|i: int| 0 <= i < r.len() && (#[trigger] r[i]).key() == key;
                if i < d.len() {
                    assert(d[i].key() == key);
                }
            }
        }
    }
}

fn holds_key<T: Keyed>(list: &Vec<T>, key: &str) -> (r: bool)
    ensures
        r == has_key(list@, key@),
{
    let mut i: usize = 0;
    while i < list.len()
        invariant
            i <= list@.len(),
            forall|k: int| 0 <= k < i ==> (#[trigger] list@[k]).key() != key@,
        decreases list@.len() - i,
    {
        if text::same(list[i].key_text(), key) {
            return true;
        }
        i += 1;
    }
    false
}

/// Keep the first value of each key alone.
pub fn keep_first<T: Keyed>(list: Vec<T>) -> (r: Vec<T>)
    ensures
        r@ == distinct(list@),
{
    let ghost given = list@;
    let mut rest = list;
    let mut out: Vec<T> = Vec::new();
    let ghost mut n: int = 0;
    assert(given.skip(0) =~= given);
    assert(given.take(0) =~= out@);
    while rest.len() > 0
        invariant
            0 <= n <= given.len(),
            rest@ == given.skip(n),
            out@ == distinct(given.take(n)),
        decreases rest@.len(),
    {
        let value = rest.remove(0);
        proof {
            assert(given.take(n + 1).drop_last() =~= given.take(n));
            assert(given.take(n + 1).last() == value);
            lemma_distinct_keeps_keys(given.take(n), value.key());
        }
        if !holds_key(&out, value.key_text()) {
            out.push(value);
        }
        proof {
            assert(rest@ =~= given.skip(n + 1));
            n = n + 1;
        }
    }
    proof {
        assert(given.take(n) =~= given);
    }
    out
}

/// No two values of the list that is left have one key, and every key is left.
pub proof fn the_first_of_each_is_left<T: Keyed>(s: Seq<T>, key: Seq<char>)
    ensures
        has_key(distinct(s), key) == has_key(s, key),
        forall|i: int, j: int|
            0 <= i < j < distinct(s).len() ==> (#[trigger] distinct(s)[i]).key() != (
            #[trigger] distinct(s)[j]).key(),
    decreases s.len(),
{
    lemma_distinct_keeps_keys(s, key);
    if s.len() > 0 {
        the_first_of_each_is_left(s.drop_last(), key);
        let d = distinct(s.drop_last());
        if !has_key(s.drop_last(), s.last().key()) {
            lemma_distinct_keeps_keys(s.drop_last(), s.last().key());
            assert forall|i: int, j: int| 0 <= i < j < distinct(s).len() implies (
            #[trigger] distinct(s)[i]).key() != (#[trigger] distinct(s)[j]).key() by {
                assert(distinct(s)[i] == d[i]);
                if j < d.len() {
                    assert(distinct(s)[j] == d[j]);
                }
            }
        }
    }
}

/// Of the values of one key the first is left, and nothing is left that was not there.
pub proof fn the_first_one_is_left<T: Keyed>(s: Seq<T>, i: int)
    requires
        0 <= i < s.len(),
        forall|j: int| 0 <= j < i ==> (#[trigger] s[j]).key() != s[i].key(),
    ensures
        distinct(s).contains(s[i]),
    decreases s.len(),
{
    let before = s.drop_last();
    if i < s.len() - 1 {
        assert(before[i] == s[i]);
        the_first_one_is_left(before, i);
        let d = distinct(before);
        let k = choose|k: int| 0 <= k < d.len() && d[k] == s[i];
        assert(distinct(s)[k] == s[i]);
    } else {
        assert(!has_key(before, s[i].key())) by {
            if has_key(before, s[i].key()) {
                let j = choose|j: int| 0 <= j < before.len() && (#[trigger] before[j]).key()
                    == s[i].key();
                assert(s[j].key() == s[i].key());
            }
        }
        assert(distinct(s).last() == s[i]);
    }
}

/// What is left of a list was in it.
pub proof fn nothing_is_added<T: Keyed>(s: Seq<T>, value: T)
    requires
        distinct(s).contains(value),
    ensures
        s.contains(value),
    decreases s.len(),
{
    if s.len() > 0 {
        let before = s.drop_last();
        let k = choose|k: int| 0 <= k < distinct(s).len() && distinct(s)[k] == value;
        let d = distinct(before);
        if k < d.len() {
            assert(d[k] == value);
            assert(d.contains(value));
            nothing_is_added(before, value);
            let j = choose|j: int| 0 <= j < before.len() && before[j] == value;
            assert(s[j] == value);
        } else {
            assert(s.last() == value);
        }
    }
}

/// The values of the list with this key, as they stand.
pub open spec fn of_key<T: Keyed>(s: Seq<T>, key: Seq<char>) -> Seq<T>
    decreases s.len(),
{
    if s.len() == 0 {
        s
    } else if s.last().key() == key {
        of_key(s.drop_last(), key).push(s.last())
    } else {
        of_key(s.drop_last(), key)
    }
}

proof fn lemma_inserted_last<T: Keyed>(s: Seq<T>, value: T, key: Seq<char>)
    ensures
        of_key(inserted(s, value), key) == if value.key() == key {
            of_key(s, key).push(value)
        } else {
            of_key(s, key)
        },
    decreases s.len(),
{
    let after = inserted(s, value);
    if s.len() == 0 || text_le(s.last().key(), value.key()) {
        assert(after.drop_last() == s);
    } else {
        let before = s.drop_last();
        lemma_inserted_last(before, value, key);
        assert(after.drop_last() == inserted(before, value));
        assert(after.last() == s.last());
        if s.last().key() == key && value.key() == key {
            lemma_text_le_total(key, key);
        }
    }
}

/// Values of one key keep their order when a list is put in order.
pub proof fn sorting_keeps_the_order_of_equals<T: Keyed>(s: Seq<T>, key: Seq<char>)
    ensures
        of_key(sorted(s), key) == of_key(s, key),
    decreases s.len(),
{
    if s.len() > 0 {
        sorting_keeps_the_order_of_equals(s.drop_last(), key);
        lemma_inserted_last(sorted(s.drop_last()), s.last(), key);
    }
}

/// Texts are ordered by their first difference; a text stands before every longer one that begins
/// with it.
pub proof fn texts_are_ordered_by_their_first_difference(a: Seq<char>, b: Seq<char>, i: int)
    requires
        0 <= i <= a.len(),
        i <= b.len(),
        a.take(i) == b.take(i),
    ensures
        i == a.len() ==> text_le(a, b),
        i == b.len() && i < a.len() ==> !text_le(a, b),
        i < a.len() && i < b.len() && a[i] < b[i] ==> text_le(a, b) && !text_le(b, a),
    decreases i,
{
    if i > 0 {
        assert(a[0] == a.take(i)[0]);
        assert(b[0] == b.take(i)[0]);
        assert(a.drop_first().take(i - 1) == a.take(i).drop_first());
        assert(b.drop_first().take(i - 1) == b.take(i).drop_first());
        texts_are_ordered_by_their_first_difference(a.drop_first(), b.drop_first(), i - 1);
    }
}

/// What is left of an ordered list is in order.
pub proof fn what_is_left_stays_in_order<T: Keyed>(s: Seq<T>)
    requires
        in_order(s),
    ensures
        in_order(distinct(s)),
    decreases s.len(),
{
    if s.len() > 0 {
        let before = s.drop_last();
        assert(in_order(before)) by {
            assert forall|i: int, j: int| 0 <= i < j < before.len() implies text_le(
                (#[trigger] before[i]).key(),
                (#[trigger] before[j]).key(),
            ) by {
                assert(text_le(s[i].key(), s[j].key()));
            }
        }
        what_is_left_stays_in_order(before);
        let d = distinct(before);
        let all = distinct(s);
        assert forall|i: int, j: int| 0 <= i < j < all.len() implies text_le(
            (#[trigger] all[i]).key(),
            (#[trigger] all[j]).key(),
        ) by {
            assert(all[i] == d[i]);
            if j < d.len() {
                assert(all[j] == d[j]);
            } else {
                assert(d.contains(d[i]));
                nothing_is_added(before, d[i]);
                let k = choose|k: int| 0 <= k < before.len() && before[k] == d[i];
                assert(text_le(s[k].key(), s[s.len() - 1].key()));
            }
        }
    }
}

/// Whatever stands in a list stands in it once it is in order, and the other way round.
pub proof fn sorting_loses_nothing<T: Keyed>(s: Seq<T>, value: T)
    ensures
        sorted(s).contains(value) <==> s.contains(value),
        sorted(s).len() == s.len(),
{
    sorting_orders_and_keeps(s);
    s.to_multiset_ensures();
    sorted(s).to_multiset_ensures();
    assert(s.contains(value) <==> s.to_multiset().count(value) > 0);
    assert(sorted(s).contains(value) <==> sorted(s).to_multiset().count(value) > 0);
}

} // verus!
