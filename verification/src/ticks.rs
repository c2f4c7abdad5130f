use vstd::prelude::*;
use vstd::arithmetic::div_mod::{
    lemma_fundamental_div_mod, lemma_div_multiples_vanish_fancy, lemma_mod_bound,
};
use vstd::arithmetic::mul::lemma_mul_inequality;

verus! {

/// Lowest tick index of the pool's price domain.
pub const MIN_TICK: i64 = -443636;
/// Highest tick index of the pool's price domain.
pub const MAX_TICK: i64 = 443636;
/// Number of consecutive ticks stored in one on-chain tick-array account.
pub const TICKS_PER_ARRAY: i64 = 60;
/// How many tick arrays the adapter tracks on each side of the current price.
pub const NEIGHBORHOOD_SIZE: usize = 5;

/// Ticks spanned by one tick array for a pool with the given tick spacing.
pub open spec fn step_of(spacing: u16) -> int {
    spacing as int * TICKS_PER_ARRAY as int
}

/// First tick of the array that contains `tick`: the greatest multiple of
/// `step` that is at most `tick` (integer division here rounds toward
/// negative infinity, since `step` is positive).
pub open spec fn array_start(tick: int, step: int) -> int {
    (tick / step) * step
}

/// Start index of the highest tick array the domain admits.
pub open spec fn max_start(spacing: u16) -> int {
    array_start(MAX_TICK as int, step_of(spacing))
}

/// Start index of the lowest tick array the domain admits.
pub open spec fn min_start(spacing: u16) -> int {
    array_start(MIN_TICK as int, step_of(spacing))
}

/// Start index of the `i`-th tracked array at or above the current price.
pub open spec fn up_start(tick: int, spacing: u16, i: int) -> int {
    array_start(tick, step_of(spacing)) + i * step_of(spacing)
}

/// Start index of the `i`-th tracked array below the current price.
pub open spec fn down_start(tick: int, spacing: u16, i: int) -> int {
    array_start(tick, step_of(spacing)) - (i + 1) * step_of(spacing)
}

/// How many upward arrays exist: the full neighborhood, truncated where the
/// domain boundary cuts it short. The array holding the current price always
/// counts, so this is at least 1.
pub open spec fn up_count(tick: int, spacing: u16) -> int {
    let s = step_of(spacing);
    let st = array_start(tick, s);
    let m = max_start(spacing);
    if st + 4 * s <= m {
        5
    } else if st + 3 * s <= m {
        4
    } else if st + 2 * s <= m {
        3
    } else if st + 1 * s <= m {
        2
    } else {
        1
    }
}

/// How many downward arrays exist; 0 when the current array is already the
/// lowest one.
pub open spec fn down_count(tick: int, spacing: u16) -> int {
    let s = step_of(spacing);
    let st = array_start(tick, s);
    let mn = min_start(spacing);
    if st - 5 * s >= mn {
        5
    } else if st - 4 * s >= mn {
        4
    } else if st - 3 * s >= mn {
        3
    } else if st - 2 * s >= mn {
        2
    } else if st - 1 * s >= mn {
        1
    } else {
        0
    }
}

/// A tick and spacing the mirror accepts as a price state.
pub open spec fn price_state_ok(tick: int, spacing: u16) -> bool {
    &&& 1 <= spacing
    &&& MIN_TICK as int <= tick <= MAX_TICK as int
}

/// The exec computation of `array_start`, done on a value shifted into the
/// nonnegative range so that machine division rounds the same way as the
/// mathematical one.
pub fn array_start_exec(tick: i64, spacing: u16) -> (r: i64)
    requires
        1 <= spacing,
        MIN_TICK <= tick <= MAX_TICK,
    ensures
        r == array_start(tick as int, step_of(spacing)),
        tick - spacing as i64 * TICKS_PER_ARRAY < r <= tick,
{
    let s: i64 = spacing as i64 * TICKS_PER_ARRAY;
    proof {
        lemma_fundamental_div_mod(tick as int, s as int);
        lemma_mod_bound(tick as int, s as int);
        lemma_div_multiples_vanish_fancy(
            tick as int / (s as int) + 443636,
            tick as int % (s as int),
            s as int,
        );
        assert(s as int * (tick as int / (s as int) + 443636)
            == s as int * (tick as int / (s as int)) + s as int * 443636) by {
            vstd::arithmetic::mul::lemma_mul_is_distributive_add(
                s as int,
                tick as int / (s as int),
                443636,
            );
        }
        lemma_mul_inequality(1, spacing as int, TICKS_PER_ARRAY as int);
    }
    let shifted: i64 = tick + 443636 * s;
    let q_shifted: u64 = (shifted as u64) / (s as u64);
    let q: i64 = (q_shifted as i64) - 443636;
    proof {
        assert(q == tick as int / (s as int));
        assert(s as int * q == tick as int - tick as int % (s as int));
        assert(q * s == s as int * q) by {
            vstd::arithmetic::mul::lemma_mul_is_commutative(q as int, s as int);
        }
    }
    q * s
}

/// The exec mirror of `up_count`.
pub fn up_count_exec(tick: i64, spacing: u16) -> (n: usize)
    requires
        price_state_ok(tick as int, spacing),
    ensures
        n == up_count(tick as int, spacing),
        1 <= n <= NEIGHBORHOOD_SIZE,
{
    let s: i64 = spacing as i64 * TICKS_PER_ARRAY;
    let st = array_start_exec(tick, spacing);
    let m = array_start_exec(MAX_TICK, spacing);
    if st + 4 * s <= m {
        5
    } else if st + 3 * s <= m {
        4
    } else if st + 2 * s <= m {
        3
    } else if st + 1 * s <= m {
        2
    } else {
        1
    }
}

/// The exec mirror of `down_count`.
pub fn down_count_exec(tick: i64, spacing: u16) -> (n: usize)
    requires
        price_state_ok(tick as int, spacing),
    ensures
        n == down_count(tick as int, spacing),
        n <= NEIGHBORHOOD_SIZE,
{
    let s: i64 = spacing as i64 * TICKS_PER_ARRAY;
    let st = array_start_exec(tick, spacing);
    let mn = array_start_exec(MIN_TICK, spacing);
    if st - 5 * s >= mn {
        5
    } else if st - 4 * s >= mn {
        4
    } else if st - 3 * s >= mn {
        3
    } else if st - 2 * s >= mn {
        2
    } else if st - 1 * s >= mn {
        1
    } else {
        0
    }
}

} // verus!
