use vstd::prelude::*;
use vstd::arithmetic::mul::{lemma_mul_inequality, lemma_mul_nonnegative};
use crate::addr::Addr;
use crate::errs::AdapterError;
use crate::ticks::{
    price_state_ok, step_of, array_start, up_start, down_start, up_count, down_count,
    array_start_exec, up_count_exec, down_count_exec, TICKS_PER_ARRAY, NEIGHBORHOOD_SIZE,
};
use crate::pda::{
    tick_array_key, bitmap_extension_key, derive_tick_array_key,
};

verus! {

/// Every tick-array address in the neighborhood of this price state can be
/// derived.
pub open spec fn arrays_ok(program: Seq<u8>, pool: Seq<u8>, tick: int, spacing: u16) -> bool {
    &&& (forall|i: int|
        0 <= i < up_count(tick, spacing)
            ==> (#[trigger] tick_array_key(program, pool, up_start(tick, spacing, i))) is Some)
    &&& (forall|i: int|
        0 <= i < down_count(tick, spacing)
            ==> (#[trigger] tick_array_key(program, pool, down_start(tick, spacing, i))) is Some)
}

/// Every address the mirror must track at this price state can be derived.
pub open spec fn derivation_ok(program: Seq<u8>, pool: Seq<u8>, tick: int, spacing: u16) -> bool {
    &&& bitmap_extension_key(program, pool) is Some
    &&& arrays_ok(program, pool, tick, spacing)
}

/// Derive the tick-array neighborhood of a price state: the addresses of the
/// tracked arrays at or above the price, then below it, in order of distance.
/// A pure function of its arguments; the bounded search inside the address
/// derivation can fail, which surfaces as `DecodeError`.
pub fn derive_neighborhood(program: &Addr, pool: &Addr, tick: i32, spacing: u16) -> (r: Result<
    (Vec<Addr>, Vec<Addr>),
    AdapterError,
>)
    requires
        price_state_ok(tick as int, spacing),
    ensures
        (match r {
            Ok(nb) => {
                &&& arrays_ok(program@, pool@, tick as int, spacing)
                &&& nb.0@.len() == up_count(tick as int, spacing)
                &&& nb.1@.len() == down_count(tick as int, spacing)
                &&& (forall|i: int|
                    0 <= i < nb.0@.len() ==> tick_array_key(
                        program@,
                        pool@,
                        #[trigger] up_start(tick as int, spacing, i),
                    ) == Some(nb.0@[i]@))
                &&& (forall|i: int|
                    0 <= i < nb.1@.len() ==> tick_array_key(
                        program@,
                        pool@,
                        #[trigger] down_start(tick as int, spacing, i),
                    ) == Some(nb.1@[i]@))
            },
            Err(e) => {
                &&& e == AdapterError::DecodeError
                &&& !arrays_ok(program@, pool@, tick as int, spacing)
            },
        }),
{
    let s: i64 = spacing as i64 * TICKS_PER_ARRAY;
    let st = array_start_exec(tick as i64, spacing);
    let n_up = up_count_exec(tick as i64, spacing);
    let n_down = down_count_exec(tick as i64, spacing);

    let mut up: Vec<Addr> = Vec::new();
    let mut i: usize = 0;
    while i < n_up
        invariant
            0 <= i <= n_up,
            n_up == up_count(tick as int, spacing),
            1 <= n_up <= NEIGHBORHOOD_SIZE,
            s == step_of(spacing),
            1 <= spacing,
            st == array_start(tick as int, step_of(spacing)),
            tick - s < st <= tick,
            price_state_ok(tick as int, spacing),
            up@.len() == i,
            forall|j: int|
                0 <= j < i ==> tick_array_key(
                    program@,
                    pool@,
                    #[trigger] up_start(tick as int, spacing, j),
                ) == Some(up@[j]@),
        decreases n_up - i,
    {
        proof {
            lemma_mul_nonnegative(i as int, s as int);
            lemma_mul_inequality(i as int, 4, s as int);
        }
        let cand: i64 = st + (i as i64) * s;
        match derive_tick_array_key(program, pool, cand) {
            Some(a) => {
                up.push(a);
            },
            None => {
                proof {
                    assert(cand == up_start(tick as int, spacing, i as int));
                    assert(!arrays_ok(program@, pool@, tick as int, spacing));
                }
                return Err(AdapterError::DecodeError);
            },
        }
        i += 1;
    }

    let mut down: Vec<Addr> = Vec::new();
    let mut k: usize = 0;
    while k < n_down
        invariant
            0 <= k <= n_down,
            n_down == down_count(tick as int, spacing),
            n_down <= NEIGHBORHOOD_SIZE,
            s == step_of(spacing),
            1 <= spacing,
            st == array_start(tick as int, step_of(spacing)),
            tick - s < st <= tick,
            price_state_ok(tick as int, spacing),
            down@.len() == k,
            forall|j: int|
                0 <= j < k ==> tick_array_key(
                    program@,
                    pool@,
                    #[trigger] down_start(tick as int, spacing, j),
                ) == Some(down@[j]@),
        decreases n_down - k,
    {
        proof {
            lemma_mul_nonnegative(k as int + 1, s as int);
            lemma_mul_inequality(k as int + 1, 5, s as int);
        }
        let cand: i64 = st - ((k as i64) + 1) * s;
        match derive_tick_array_key(program, pool, cand) {
            Some(a) => {
                down.push(a);
            },
            None => {
                proof {
                    assert(cand == down_start(tick as int, spacing, k as int));
                    assert(!arrays_ok(program@, pool@, tick as int, spacing));
                }
                return Err(AdapterError::DecodeError);
            },
        }
        k += 1;
    }

    Ok((up, down))
}

} // verus!
