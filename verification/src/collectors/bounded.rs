//! Lists that hold one element more than a report may carry, so that the report can tell that it
//! was cut.

use vstd::prelude::*;
use vstd::std_specs::iter::IteratorSpec;

verus! {

/// How many elements a list may hold that a report cuts at `maximum`.
pub open spec fn limit_of(maximum: usize) -> nat {
    if maximum == usize::MAX {
        usize::MAX as nat
    } else {
        (maximum + 1) as nat
    }
}

/// How many elements a list may hold that a report cuts at `maximum`.
pub fn producer_collection_limit(maximum: usize) -> (r: usize)
    ensures
        r == limit_of(maximum),
{
    match maximum.checked_add(1) {
        Some(limit) => limit,
        None => maximum,
    }
}

/// The first elements of `s`, as many as a list may hold.
pub open spec fn bounded<T>(s: Seq<T>, maximum: usize) -> Seq<T> {
    if s.len() <= limit_of(maximum) {
        s
    } else {
        s.take(limit_of(maximum) as int)
    }
}

/// The first values, as many as a list may hold; no more are asked for.
pub fn collect_bounded<I: Iterator>(values: I, maximum: usize) -> (r: Vec<I::Item>)
    ensures
        r@.len() <= limit_of(maximum),
        values.obeys_prophetic_iter_laws() ==> r@ == bounded(values.remaining(), maximum),
{
    let mut source = values;
    let limit: usize = producer_collection_limit(maximum);
    let mut out: Vec<I::Item> = Vec::new();
    let ghost all = source.remaining();
    let ghost lawful = source.obeys_prophetic_iter_laws();
    assert(all.skip(0) =~= all);
    assert(all.take(0) =~= Seq::empty());
    while out.len() < limit
        invariant
            out@.len() <= limit,
            limit == limit_of(maximum),
            lawful == source.obeys_prophetic_iter_laws(),
            lawful == values.obeys_prophetic_iter_laws(),
            all == values.remaining(),
            lawful ==> out@.len() <= all.len() && out@ == all.take(out@.len() as int)
                && source.remaining() == all.skip(out@.len() as int),
        decreases limit - out@.len(),
    {
        let ghost n = out@.len() as int;
        match source.next() {
            Some(value) => {
                out.push(value);
                assert(lawful ==> out@ =~= all.take(n + 1));
                assert(lawful ==> source.remaining() =~= all.skip(n + 1));
            },
            None => {
                assert(lawful ==> all.take(n) =~= all);
                return out;
            },
        }
    }
    assert(lawful && all.len() == limit ==> all.take(limit as int) =~= all);
    out
}

/// The list after a value was offered to it.
pub open spec fn pushed<T>(values: Seq<T>, value: T, maximum: usize) -> Seq<T> {
    if values.len() >= limit_of(maximum) {
        values
    } else {
        values.push(value)
    }
}

/// Put a value behind the others, unless the list holds all it may; whether it was put there.
pub fn push_bounded<T>(values: &mut Vec<T>, value: T, maximum: usize) -> (r: bool)
    ensures
        final(values)@ == pushed(old(values)@, value, maximum),
        r == (old(values)@.len() < limit_of(maximum)),
{
    if values.len() >= producer_collection_limit(maximum) {
        return false;
    }
    values.push(value);
    true
}

/// The list after more values were offered to it: as many of them as it may still hold.
pub open spec fn extended<T>(values: Seq<T>, additional: Seq<T>, maximum: usize) -> Seq<T> {
    let room = limit_of(maximum) - values.len();
    if room <= 0 {
        values
    } else if additional.len() <= room {
        values + additional
    } else {
        values + additional.take(room)
    }
}

/// Put values behind the others, as many as the list may still hold.
pub fn extend_bounded<T>(values: &mut Vec<T>, additional: Vec<T>, maximum: usize)
    ensures
        final(values)@ == extended(old(values)@, additional@, maximum),
{
    let limit: usize = producer_collection_limit(maximum);
    let ghost before = values@;
    let ghost given = additional@;
    let mut rest = additional;
    let ghost mut n: int = 0;
    assert(given.take(0) =~= Seq::empty());
    assert(given.skip(0) =~= given);
    while rest.len() > 0 && values.len() < limit
        invariant
            limit == limit_of(maximum),
            0 <= n <= given.len(),
            rest@ == given.skip(n),
            values@ == before + given.take(n),
            n == 0 || values@.len() <= limit,
        decreases rest@.len(),
    {
        let value = rest.remove(0);
        values.push(value);
        proof {
            assert(values@ =~= before + given.take(n + 1));
            assert(rest@ =~= given.skip(n + 1));
            n = n + 1;
        }
    }
    proof {
        if rest@.len() == 0 {
            assert(given.take(n) =~= given);
        }
        if n == 0 {
            assert(before + given.take(0) =~= before);
        }
    }
}

/// No list outgrows its limit, whatever it is offered.
pub proof fn lists_stay_bounded<T>(values: Seq<T>, additional: Seq<T>, value: T, maximum: usize)
    requires
        values.len() <= limit_of(maximum),
    ensures
        extended(values, additional, maximum).len() <= limit_of(maximum),
        pushed(values, value, maximum).len() <= limit_of(maximum),
        bounded(additional, maximum).len() <= limit_of(maximum),
        values.is_prefix_of(extended(values, additional, maximum)),
{
}

/// A list that was cut shows it: where more was offered than a report may carry, the list holds
/// more than that too.
pub proof fn a_cut_shows<T>(s: Seq<T>, maximum: usize)
    requires
        maximum < usize::MAX,
    ensures
        s.len() > maximum <==> bounded(s, maximum).len() > maximum,
{
}

/// A list takes what it is offered, in order, while it holds no more than one beyond what a report
/// may carry; from there on it takes nothing.
pub proof fn a_list_takes_what_it_has_room_for<T>(
    values: Seq<T>,
    additional: Seq<T>,
    value: T,
    maximum: usize,
)
    requires
        maximum < usize::MAX,
    ensures
        values.len() <= maximum ==> pushed(values, value, maximum) == values.push(value),
        values.len() > maximum ==> pushed(values, value, maximum) == values,
        values.len() + additional.len() <= maximum + 1 ==> extended(values, additional, maximum)
            == values + additional,
        values.len() <= maximum + 1 && values.len() + additional.len() > maximum + 1 ==> extended(
            values,
            additional,
            maximum,
        ) == (values + additional).take(maximum + 1),
        bounded(additional, maximum) == if additional.len() <= maximum + 1 {
            additional
        } else {
            additional.take(maximum + 1)
        },
{
    if values.len() <= maximum + 1 && values.len() + additional.len() > maximum + 1 {
        assert(extended(values, additional, maximum) =~= (values + additional).take(maximum + 1));
    }
    if values.len() + additional.len() <= maximum + 1 && values.len() == maximum + 1 {
        assert(values + additional =~= values);
    }
}

} // verus!
