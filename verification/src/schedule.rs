//! Delays, retry backoff and the sampling cadence.
//!
//! A duration is a number of nanoseconds. An instant is a number of nanoseconds since the
//! process started; it is kept wider than a duration so that adding the two cannot overflow.

use vstd::arithmetic::power2::{lemma2_to64, lemma_pow2_unfold, pow2};
use vstd::prelude::*;

verus! {

/// Nanoseconds in a second.
pub const SECOND: u64 = 1_000_000_000;

/// The shortest delay that a jittered wait may have: fifty milliseconds.
pub const JITTER_FLOOR: u64 = 50_000_000;

/// The number of values that a draw may take.
pub const DRAW_RANGE: u64 = 9_007_199_254_740_992;

/// The longest delay that may be jittered.
pub const LONGEST_JITTERED: u64 = 4_000_000_000_000_000_000;

/// `rand::random::<u64>()`: any value at all.
#[verifier::external_body]
fn random_bits() -> (bits: u64) {
    rand::random::<u64>()
}

/// A random draw below `DRAW_RANGE`.
pub fn jitter_draw() -> (draw: u64)
    ensures
        draw < DRAW_RANGE,
{
    random_bits() / 2048
}

/// The factor, in units of one `100 * DRAW_RANGE`th, by which a draw stretches a delay: it runs
/// evenly from `100 - percent` hundredths to `100 + percent` hundredths.
pub open spec fn jitter_factor(percent: u8, draw: u64) -> int {
    (100 - percent) * DRAW_RANGE + 2 * percent * draw
}

/// `base` stretched by the factor of `draw`, but never under the floor. Without jitter the
/// delay is exact.
pub open spec fn jittered(base: u64, percent: u8, draw: u64) -> int {
    let factor = jitter_factor(percent, draw);
    if percent == 0 {
        base as int
    } else if factor <= 0 || base * factor / (100 * DRAW_RANGE) < JITTER_FLOOR {
        JITTER_FLOOR as int
    } else {
        base * factor / (100 * DRAW_RANGE)
    }
}

/// `base` spread by `percent`, for a given draw.
pub fn jitter_with(base: u64, percent: u8, draw: u64) -> (r: u64)
    requires
        base <= LONGEST_JITTERED,
        draw < DRAW_RANGE,
    ensures
        r == jittered(base, percent, draw),
{
    if percent == 0 {
        return base;
    }
    assert(0 <= 2 * percent * draw <= 510 * DRAW_RANGE) by (nonlinear_arith)
        requires
            percent <= 255,
            draw < DRAW_RANGE,
    ;
    let up: i128 = 2 * (percent as i128) * (draw as i128);
    let factor: i128 = (100 - (percent as i128)) * (DRAW_RANGE as i128) + up;
    if factor <= 0 {
        return JITTER_FLOOR;
    }
    assert(factor <= 355 * DRAW_RANGE) by (nonlinear_arith)
        requires
            factor == (100 - percent) * DRAW_RANGE + 2 * percent * draw,
            percent <= 255,
            draw < DRAW_RANGE,
    ;
    assert(0 <= base * factor <= LONGEST_JITTERED * 355 * DRAW_RANGE) by (nonlinear_arith)
        requires
            0 < factor <= 355 * DRAW_RANGE,
            base <= LONGEST_JITTERED,
    ;
    let scaled: i128 = (base as i128) * factor / (100 * (DRAW_RANGE as i128));
    if scaled < JITTER_FLOOR as i128 {
        JITTER_FLOOR
    } else {
        scaled as u64
    }
}

/// A jittered delay stays within `percent` of its base, unless the floor lifts it.
pub proof fn jitter_stays_in_its_band(base: u64, percent: u8, draw: u64)
    requires
        draw < DRAW_RANGE,
        0 < percent <= 100,
    ensures
        jittered(base, percent, draw) >= JITTER_FLOOR,
        jittered(base, percent, draw) >= base * (100 - percent) / 100,
        jittered(base, percent, draw) <= base * (100 + percent) / 100 || jittered(
            base,
            percent,
            draw,
        ) == JITTER_FLOOR,
{
    let factor = jitter_factor(percent, draw);
    let unit = 100 * DRAW_RANGE;
    assert(0 <= 2 * percent * draw <= 2 * percent * DRAW_RANGE) by (nonlinear_arith)
        requires
            draw < DRAW_RANGE,
    ;
    assert(base * factor >= base * (100 - percent) * DRAW_RANGE) by (nonlinear_arith)
        requires
            factor >= (100 - percent) * DRAW_RANGE,
    ;
    assert(base * factor <= base * (100 + percent) * DRAW_RANGE) by (nonlinear_arith)
        requires
            factor <= (100 + percent) * DRAW_RANGE,
    ;
    assert(base * (100 - percent) >= 0) by (nonlinear_arith)
        requires
            percent <= 100,
    ;
    assert(base * (100 + percent) >= 0) by (nonlinear_arith);
    lemma_scaled_quotient(base * (100 - percent));
    lemma_scaled_quotient(base * (100 + percent));
    vstd::arithmetic::div_mod::lemma_div_is_ordered(
        base * (100 - percent) * DRAW_RANGE,
        base * factor,
        unit as int,
    );
    vstd::arithmetic::div_mod::lemma_div_is_ordered(
        base * factor,
        base * (100 + percent) * DRAW_RANGE,
        unit as int,
    );
    if factor <= 0 {
        assert(percent == 100);
        assert(base * (100 - percent) / 100 == 0) by {
            assert(base * 0 == 0) by (nonlinear_arith);
        }
    }
}

/// A jittered delay fits the type of delays.
pub proof fn lemma_jittered_fits(base: u64, percent: u8, draw: u64)
    requires
        base <= LONGEST_JITTERED,
        draw < DRAW_RANGE,
    ensures
        0 <= jittered(base, percent, draw) <= u64::MAX,
{
    let factor = jitter_factor(percent, draw);
    if percent > 0 && factor > 0 {
        assert(factor <= 355 * DRAW_RANGE) by (nonlinear_arith)
            requires
                factor == (100 - percent) * DRAW_RANGE + 2 * percent * draw,
                percent <= 255,
                draw < DRAW_RANGE,
        ;
        assert(0 <= base * factor <= LONGEST_JITTERED * 355 * DRAW_RANGE) by (nonlinear_arith)
            requires
                0 < factor <= 355 * DRAW_RANGE,
                base <= LONGEST_JITTERED,
        ;
        let unit = 100 * DRAW_RANGE;
        lemma_scaled_quotient(LONGEST_JITTERED * 355);
        vstd::arithmetic::div_mod::lemma_div_is_ordered(
            base * factor,
            LONGEST_JITTERED * 355 * DRAW_RANGE,
            unit as int,
        );
    }
}

/// A common factor cancels out of a quotient.
proof fn lemma_scaled_quotient(n: int)
    requires
        n >= 0,
    ensures
        n * DRAW_RANGE / (100 * DRAW_RANGE) == n / 100,
{
    vstd::arithmetic::div_mod::lemma_div_multiples_vanish_quotient(DRAW_RANGE as int, n, 100);
    assert(n * DRAW_RANGE == DRAW_RANGE * n) by (nonlinear_arith);
}

/// `base` spread by `percent` with a random draw.
pub fn jitter(base: u64, percent: u8) -> (r: u64)
    requires
        base <= LONGEST_JITTERED,
    ensures
        percent == 0 ==> r == base,
        exists|draw: u64| draw < DRAW_RANGE && r == #[trigger] jittered(base, percent, draw),
{
    let draw: u64 = jitter_draw();
    jitter_with(base, percent, draw)
}

// ---------------------------------------------------------------------------
// Backoff
// ---------------------------------------------------------------------------
/// The next delay of a backoff that doubles up to `cap`.
pub open spec fn doubled(backoff: int, cap: int) -> int {
    if 2 * backoff < cap {
        2 * backoff
    } else {
        cap
    }
}

/// The next delay of a backoff that doubles up to `cap`.
pub fn double_backoff(backoff: u64, cap: u64) -> (r: u64)
    ensures
        r == doubled(backoff as int, cap as int),
{
    if backoff < cap && backoff < cap - backoff {
        backoff + backoff
    } else {
        cap
    }
}

/// The delay after `n` doublings.
pub open spec fn doubled_times(backoff: int, cap: int, n: nat) -> int
    decreases n,
{
    if n == 0 {
        backoff
    } else {
        doubled(doubled_times(backoff, cap, (n - 1) as nat), cap)
    }
}

/// Repeated doubling grows as a power of two until it reaches its cap, and stays there.
pub proof fn backoff_doubles_until_its_cap(backoff: int, cap: int, n: nat)
    requires
        0 < backoff <= cap,
    ensures
        doubled_times(backoff, cap, n) == if backoff * pow2(n) < cap {
            backoff * pow2(n)
        } else {
            cap
        },
    decreases n,
{
    lemma2_to64();
    if n == 0 {
        assert(backoff * 1 == backoff) by (nonlinear_arith);
    } else {
        let m = (n - 1) as nat;
        backoff_doubles_until_its_cap(backoff, cap, m);
        lemma_pow2_unfold(n);
        let p = pow2(m);
        assert(backoff * (2 * p) == 2 * (backoff * p)) by (nonlinear_arith);
    }
}

// ---------------------------------------------------------------------------
// Cadence
// ---------------------------------------------------------------------------
/// A cadence is anchored to its previous deadline, not to the end of sampling. If collection
/// itself overruns a full interval, missed ticks are skipped instead of emitted in a burst.
pub struct SamplingCadence {
    pub deadline: u128,
}

/// The deadline that follows `deadline`.
pub open spec fn next_deadline(deadline: int, interval: int, now: int) -> int {
    if deadline + interval > now {
        deadline + interval
    } else {
        now + interval
    }
}

impl SamplingCadence {
    /// A cadence whose first tick is due at once.
    pub fn starting_now(now: u64) -> (r: Self)
        ensures
            r.deadline == now,
    {
        SamplingCadence { deadline: now as u128 }
    }

    /// When the next tick is due.
    pub fn deadline(&self) -> (r: u128)
        ensures
            r == self.deadline,
    {
        self.deadline
    }

    /// Plan the tick after this one.
    pub fn schedule_next(&mut self, interval: u64, now: u64)
        requires
            old(self).deadline + interval <= u128::MAX,
        ensures
            final(self).deadline == next_deadline(
                old(self).deadline as int,
                interval as int,
                now as int,
            ),
    {
        let anchored: u128 = self.deadline + (interval as u128);
        self.deadline = if anchored > now as u128 {
            anchored
        } else {
            (now as u128) + (interval as u128)
        };
    }
}

/// The next tick always lies ahead, by no more than one interval from the later of the old
/// deadline and the present; and while no tick is missed, ticks keep to the grid of the first.
pub proof fn cadence_never_bursts(deadline: int, interval: int, now: int)
    requires
        0 < interval,
    ensures
        next_deadline(deadline, interval, now) > now,
        next_deadline(deadline, interval, now) <= if deadline < now {
            now + interval
        } else {
            deadline + interval
        },
        now < deadline + interval ==> next_deadline(deadline, interval, now) == deadline + interval,
{
}

/// Jitter spreads a delay evenly: without it the delay is exact; the lowest draw takes `percent`
/// off, the middle one leaves the delay as it is, and a higher draw never makes it shorter. No
/// spread delay is under the floor.
pub proof fn jitter_spreads_evenly(base: u64, percent: u8, low: u64, high: u64)
    requires
        0 < percent <= 100,
        low <= high < DRAW_RANGE,
    ensures
        jittered(base, 0, low) == base,
        jittered(base, percent, low) <= jittered(base, percent, high),
        jittered(base, percent, 0) == if base * (100 - percent) / 100 < 50_000_000 {
            50_000_000
        } else {
            base * (100 - percent) / 100
        },
        jittered(base, percent, 4_503_599_627_370_496) == if base < 50_000_000 {
            50_000_000
        } else {
            base as int
        },
{
    let unit = 100 * DRAW_RANGE;
    let f = jitter_factor(percent, low);
    let g = jitter_factor(percent, high);
    assert(f <= g) by (nonlinear_arith)
        requires
            f == (100 - percent) * DRAW_RANGE + 2 * percent * low,
            g == (100 - percent) * DRAW_RANGE + 2 * percent * high,
            low <= high,
            percent > 0,
    ;
    assert(base * f <= base * g) by (nonlinear_arith)
        requires
            f <= g,
    ;
    vstd::arithmetic::div_mod::lemma_div_is_ordered(base * f, base * g, unit as int);
    let least = jitter_factor(percent, 0);
    assert(least == (100 - percent) * DRAW_RANGE) by (nonlinear_arith)
        requires
            least == (100 - percent) * DRAW_RANGE + 2 * percent * 0,
    ;
    assert(base * least == base * (100 - percent) * DRAW_RANGE) by (nonlinear_arith)
        requires
            least == (100 - percent) * DRAW_RANGE,
    ;
    assert(base * (100 - percent) >= 0) by (nonlinear_arith)
        requires
            percent <= 100,
    ;
    lemma_scaled_quotient(base * (100 - percent));
    if percent == 100 {
        assert(base * 0 == 0) by (nonlinear_arith);
    }
    let middle = jitter_factor(percent, 4_503_599_627_370_496);
    assert(middle == 100 * DRAW_RANGE) by (nonlinear_arith)
        requires
            middle == (100 - percent) * DRAW_RANGE + 2 * percent * 4_503_599_627_370_496,
            DRAW_RANGE == 9_007_199_254_740_992,
    ;
    assert(base * middle == (base * 100) * DRAW_RANGE) by (nonlinear_arith)
        requires
            middle == 100 * DRAW_RANGE,
    ;
    lemma_scaled_quotient(base * 100);
}

/// A backoff doubles until it would pass its cap.
pub proof fn a_backoff_doubles(backoff: int, cap: int)
    ensures
        2 * backoff < cap ==> doubled(backoff, cap) == 2 * backoff,
        2 * backoff >= cap ==> doubled(backoff, cap) == cap,
{
}

} // verus!
