//! The secrets by which a browser proves that the tray opened it.

use crate::text;
use vstd::prelude::*;
use vstd::utf8::encode_utf8_decode_utf8;

verus! {

/// A secret and the instant at which it ceases to be good.
#[derive(Debug)]
pub struct Ticket {
    pub secret: String,
    pub expires: u128,
}

/// How many tickets of a kind may be outstanding.
pub const MAX_TICKETS: usize = 32;

/// How long a browser has to turn in the ticket that it was opened with, in nanoseconds.
pub const BOOTSTRAP_LIFETIME: u64 = 300_000_000_000;

/// How long a browser session lasts, in nanoseconds.
pub const SESSION_LIFETIME: u64 = 28_800_000_000_000;

/// The tickets of `tickets` that are still good at `now`.
pub open spec fn live(tickets: Seq<Ticket>, now: u64) -> Seq<Ticket> {
    tickets.filter(|ticket: Ticket| ticket.expires > now)
}

/// Some ticket holds `secret`.
pub open spec fn known(tickets: Seq<Ticket>, secret: Seq<char>) -> bool {
    exists|i: int| 0 <= i < tickets.len() && (#[trigger] tickets[i]).secret@ == secret
}

/// The first ticket that holds `secret`.
pub open spec fn first_known(tickets: Seq<Ticket>, secret: Seq<char>, at: int) -> bool {
    &&& 0 <= at < tickets.len()
    &&& tickets[at].secret@ == secret
    &&& forall|i: int| 0 <= i < at ==> (#[trigger] tickets[i]).secret@ != secret
}

/// A ticket that is no longer good is not among the good ones.
proof fn lemma_drop_dead(tickets: Seq<Ticket>, at: int, now: u64)
    requires
        0 <= at < tickets.len(),
        tickets[at].expires <= now,
    ensures
        live(tickets.remove(at), now) == live(tickets, now),
{
    let good = |ticket: Ticket| ticket.expires > now;
    let front = tickets.take(at);
    let back = tickets.skip(at + 1);
    let one = seq![tickets[at]];
    assert(tickets == front + one + back);
    assert(tickets.remove(at) == front + back);
    Seq::filter_distributes_over_add(front, back, good);
    Seq::filter_distributes_over_add(front + one, back, good);
    Seq::filter_distributes_over_add(front, one, good);
    assert(one.filter(good) == Seq::<Ticket>::empty()) by {
        reveal_with_fuel(Seq::filter, 2);
        assert(one.drop_last() == Seq::<Ticket>::empty());
    }
    assert(front.filter(good) + Seq::<Ticket>::empty() == front.filter(good));
}

/// Where all tickets are good, they are the good ones.
proof fn lemma_all_live(tickets: Seq<Ticket>, now: u64)
    requires
        forall|i: int| 0 <= i < tickets.len() ==> (#[trigger] tickets[i]).expires > now,
    ensures
        live(tickets, now) == tickets,
    decreases tickets.len(),
{
    reveal(Seq::filter);
    if tickets.len() > 0 {
        let rest = tickets.drop_last();
        assert forall|i: int| 0 <= i < rest.len() implies (#[trigger] rest[i]).expires > now by {
            assert(rest[i] == tickets[i]);
        }
        lemma_all_live(rest, now);
        assert(rest.push(tickets.last()) == tickets);
    } else {
        assert(tickets == Seq::<Ticket>::empty());
    }
}

/// Forget the tickets that are no longer good at `now`.
pub fn retain_valid_tokens(tickets: &mut Vec<Ticket>, now: u64)
    ensures
        final(tickets)@ == live(old(tickets)@, now),
{
    let mut i: usize = 0;
    while i < tickets.len()
        invariant
            i <= tickets@.len(),
            live(tickets@, now) == live(old(tickets)@, now),
            forall|j: int| 0 <= j < i ==> (#[trigger] tickets@[j]).expires > now,
        decreases tickets@.len() - i,
    {
        if tickets[i].expires > now as u128 {
            i += 1;
        } else {
            proof {
                lemma_drop_dead(tickets@, i as int, now);
            }
            let _ = tickets.remove(i);
        }
    }
    proof {
        lemma_all_live(tickets@, now);
    }
}

/// Whether two byte strings are equal, in time that depends on their lengths alone.
pub fn constant_time_eq(a: &Vec<u8>, b: &Vec<u8>) -> (r: bool)
    ensures
        r == (a@ == b@),
{
    if a.len() != b.len() {
        return false;
    }
    let mut difference: u8 = 0;
    let mut i: usize = 0;
    while i < a.len()
        invariant
            i <= a@.len(),
            a@.len() == b@.len(),
            difference == 0 <==> forall|j: int| 0 <= j < i ==> a@[j] == b@[j],
        decreases a@.len() - i,
    {
        let x: u8 = a[i];
        let y: u8 = b[i];
        let before: u8 = difference;
        difference = before | (x ^ y);
        assert((before | (x ^ y)) == 0 <==> before == 0 && x == y) by (bit_vector);
        i += 1;
    }
    assert(difference == 0 ==> a@ =~= b@);
    difference == 0
}

/// Whether two texts are equal, in time that depends on their lengths alone.
pub fn same_secret(a: &str, b: &str) -> (r: bool)
    ensures
        r == (a@ == b@),
{
    proof {
        encode_utf8_decode_utf8(a@);
        encode_utf8_decode_utf8(b@);
    }
    constant_time_eq(&text::to_bytes(a), &text::to_bytes(b))
}

/// The position of the first ticket that holds `secret`.
fn position(tickets: &Vec<Ticket>, secret: &str) -> (r: Option<usize>)
    ensures
        match r {
            Some(at) => first_known(tickets@, secret@, at as int),
            None => !known(tickets@, secret@),
        },
{
    let mut i: usize = 0;
    while i < tickets.len()
        invariant
            i <= tickets@.len(),
            forall|j: int| 0 <= j < i ==> (#[trigger] tickets@[j]).secret@ != secret@,
        decreases tickets@.len() - i,
    {
        if same_secret(tickets[i].secret.as_str(), secret) {
            return Some(i);
        }
        i += 1;
    }
    None
}

/// `after` is `before` with a new ticket behind those that are still good; there is none where
/// as many as may be outstanding are.
pub open spec fn issued(
    before: Seq<Ticket>,
    secret: Seq<char>,
    now: u64,
    lifetime: u64,
    after: Seq<Ticket>,
) -> bool {
    let good = live(before, now);
    if good.len() >= MAX_TICKETS {
        after == good
    } else {
        &&& after.len() == good.len() + 1
        &&& after.drop_last() == good
        &&& after.last().secret@ == secret
        &&& after.last().expires == now + lifetime
    }
}

/// Issue a ticket, unless as many as may be outstanding are.
pub fn issue(tickets: &mut Vec<Ticket>, secret: String, now: u64, lifetime: u64) -> (r: bool)
    ensures
        r == (live(old(tickets)@, now).len() < MAX_TICKETS),
        issued(old(tickets)@, secret@, now, lifetime, final(tickets)@),
{
    retain_valid_tokens(tickets, now);
    if tickets.len() >= MAX_TICKETS {
        return false;
    }
    let ghost good = tickets@;
    tickets.push(Ticket { secret, expires: (now as u128) + (lifetime as u128) });
    assert(tickets@.drop_last() == good);
    true
}

/// Take back the ticket that holds `secret`.
pub fn withdraw(tickets: &mut Vec<Ticket>, secret: &str)
    ensures
        known(old(tickets)@, secret@) ==> exists|at: int| #[trigger]
            first_known(old(tickets)@, secret@, at) && final(tickets)@ == old(tickets)@.remove(at),
        !known(old(tickets)@, secret@) ==> final(tickets)@ == old(tickets)@,
{
    match position(tickets, secret) {
        Some(at) => {
            assert(first_known(old(tickets)@, secret@, at as int));
            let _ = tickets.remove(at);
        },
        None => {},
    }
}

/// Turn in the ticket that holds `secret`: it must be good, and it is good only once.
pub fn redeem(tickets: &mut Vec<Ticket>, secret: &str, now: u64) -> (r: bool)
    ensures
        r == known(live(old(tickets)@, now), secret@),
        r ==> exists|at: int| #[trigger]
            first_known(live(old(tickets)@, now), secret@, at) && final(tickets)@ == live(
                old(tickets)@,
                now,
            ).remove(at),
        !r ==> final(tickets)@ == live(old(tickets)@, now),
{
    retain_valid_tokens(tickets, now);
    let ghost good = tickets@;
    match position(tickets, secret) {
        Some(at) => {
            assert(first_known(good, secret@, at as int));
            assert(known(good, secret@)) by {
                assert(good[at as int].secret@ == secret@);
            }
            let _ = tickets.remove(at);
            true
        },
        None => false,
    }
}

/// Whether some ticket that is still good holds `secret`; the others are forgotten.
pub fn admits(tickets: &mut Vec<Ticket>, secret: &str, now: u64) -> (r: bool)
    ensures
        r == known(live(old(tickets)@, now), secret@),
        final(tickets)@ == live(old(tickets)@, now),
{
    retain_valid_tokens(tickets, now);
    let ghost good = tickets@;
    match position(tickets, secret) {
        Some(at) => {
            assert(known(good, secret@)) by {
                assert(good[at as int].secret@ == secret@);
            }
            true
        },
        None => false,
    }
}

/// No two tickets hold the same secret.
pub open spec fn distinct(tickets: Seq<Ticket>) -> bool {
    forall|i: int, j: int|
        0 <= i < j < tickets.len() ==> (#[trigger] tickets[i]).secret@ != (
        #[trigger] tickets[j]).secret@
}

/// A ticket is good only once: where secrets do not repeat, none of the tickets left holds the
/// one that was turned in.
pub proof fn a_redeemed_ticket_is_spent(tickets: Seq<Ticket>, secret: Seq<char>, at: int)
    requires
        distinct(tickets),
        first_known(tickets, secret, at),
    ensures
        !known(tickets.remove(at), secret),
{
    let left = tickets.remove(at);
    assert forall|i: int| 0 <= i < left.len() implies (#[trigger] left[i]).secret@ != secret by {
        if i < at {
            assert(left[i] == tickets[i]);
        } else {
            assert(left[i] == tickets[i + 1]);
            assert(tickets[at].secret@ != tickets[i + 1].secret@);
        }
    }
}

/// A ticket that is no longer good opens nothing.
pub proof fn an_expired_ticket_opens_nothing(tickets: Seq<Ticket>, secret: Seq<char>, now: u64)
    requires
        forall|i: int|
            0 <= i < tickets.len() && (#[trigger] tickets[i]).secret@ == secret
                ==> tickets[i].expires <= now,
    ensures
        !known(live(tickets, now), secret),
    decreases tickets.len(),
{
    reveal(Seq::filter);
    if tickets.len() > 0 {
        let rest = tickets.drop_last();
        assert forall|i: int|
            0 <= i < rest.len() && (#[trigger] rest[i]).secret@ == secret implies rest[i].expires
            <= now by {
            assert(rest[i] == tickets[i]);
        }
        an_expired_ticket_opens_nothing(rest, secret, now);
        let good = live(tickets, now);
        let before = live(rest, now);
        assert forall|i: int| 0 <= i < good.len() implies (#[trigger] good[i]).secret@
            != secret by {
            if i < before.len() {
                assert(good[i] == before[i]);
            } else {
                assert(good[i] == tickets.last());
            }
        }
    }
}

/// A ticket is good exactly until its time: of the tickets that are there those whose time has not
/// come are left, and no others.
pub proof fn which_tickets_are_good(tickets: Seq<Ticket>, now: u64)
    ensures
        forall|i: int| 0 <= i < tickets.len() && (#[trigger] tickets[i]).expires > now ==> live(
            tickets,
            now,
        ).contains(tickets[i]),
        forall|ticket: Ticket| #[trigger] live(tickets, now).contains(ticket) ==> tickets.contains(
            ticket,
        ) && ticket.expires > now,
        live(tickets, now).len() <= tickets.len(),
    decreases tickets.len(),
{
    reveal(Seq::filter);
    if tickets.len() > 0 {
        let rest = tickets.drop_last();
        which_tickets_are_good(rest, now);
        let good = live(tickets, now);
        let before = live(rest, now);
        assert forall|i: int| 0 <= i < tickets.len() && (#[trigger] tickets[i]).expires
            > now implies good.contains(tickets[i]) by {
            if i < rest.len() {
                assert(rest[i] == tickets[i]);
                let k = choose|k: int| 0 <= k < before.len() && before[k] == tickets[i];
                assert(good[k] == tickets[i]);
            } else {
                assert(good.last() == tickets[i]);
            }
        }
        assert forall|ticket: Ticket| #[trigger] good.contains(ticket) implies tickets.contains(
            ticket,
        ) && ticket.expires > now by {
            let k = choose|k: int| 0 <= k < good.len() && good[k] == ticket;
            if k < before.len() {
                assert(before[k] == ticket);
                assert(before.contains(ticket));
                let j = choose|j: int| 0 <= j < rest.len() && rest[j] == ticket;
                assert(tickets[j] == ticket);
            } else {
                assert(tickets.last() == ticket);
            }
        }
    }
}

/// A ticket that is issued opens something until its lifetime is over, unless there are already
/// thirty-two good ones; the good ones stay, and the others go.
pub proof fn how_a_ticket_is_issued(
    before: Seq<Ticket>,
    secret: Seq<char>,
    now: u64,
    lifetime: u64,
    after: Seq<Ticket>,
)
    requires
        issued(before, secret, now, lifetime, after),
    ensures
        live(before, now).len() < 32 ==> known(after, secret) && after.len() == live(
            before,
            now,
        ).len() + 1 && after.last().expires == now + lifetime,
        live(before, now).len() >= 32 ==> after == live(before, now),
        forall|other: Seq<char>| known(live(before, now), other) ==> #[trigger] known(after, other),
{
    let good = live(before, now);
    if good.len() < 32 {
        assert(after[after.len() - 1].secret@ == secret);
    }
    assert forall|other: Seq<char>| known(good, other) implies #[trigger] known(after, other) by {
        let i = choose|i: int| 0 <= i < good.len() && (#[trigger] good[i]).secret@ == other;
        if good.len() < 32 {
            assert(after.drop_last()[i] == after[i]);
        }
        assert(after[i].secret@ == other);
    }
}

/// A ticket is redeemed exactly where a live one has its secret; it is then gone, and nothing else
/// is but what had expired.
pub proof fn how_a_ticket_is_redeemed()
    ensures
        forall|tickets: &mut Vec<Ticket>, secret: &str, now: u64, r: bool| #[trigger]
            call_ensures(redeem, (tickets, secret, now), r) ==> {
                let good = live((*tickets)@, now);
                let left = (*final(tickets))@;
                &&& r <==> exists|i: int|
                    0 <= i < good.len() && (#[trigger] good[i]).secret@ == secret@
                &&& !r ==> left == good
                &&& r ==> left.len() == good.len() - 1
                &&& r ==> exists|at: int|
                    0 <= at < good.len() && (#[trigger] good[at]).secret@ == secret@ && left
                        == good.remove(at)
            },
{
}

/// A ticket that is withdrawn is gone, and nothing else is.
pub proof fn how_a_ticket_is_withdrawn()
    ensures
        forall|tickets: &mut Vec<Ticket>, secret: &str| #[trigger]
            call_ensures(withdraw, (tickets, secret), ()) ==> {
                let before = (*tickets)@;
                let left = (*final(tickets))@;
                &&& !known(before, secret@) ==> left == before
                &&& known(before, secret@) ==> exists|at: int|
                    0 <= at < before.len() && (#[trigger] before[at]).secret@ == secret@ && left
                        == before.remove(at)
            },
{
}

} // verus!
