use vstd::prelude::*;
use crate::addr::Addr;

verus! {

/// Seed tag under which a pool's tick-array accounts are derived
/// (the ASCII bytes of `tick_array`).
pub const TICK_ARRAY_SEED: [u8; 10] = [116, 105, 99, 107, 95, 97, 114, 114, 97, 121];

/// Seed tag under which a pool's tick-array bitmap extension account is
/// derived (the ASCII bytes of `pool_tick_array_bitmap_extension`).
pub const BITMAP_EXTENSION_SEED: [u8; 32] = [
    112, 111, 111, 108, 95, 116, 105, 99, 107, 95, 97, 114, 114, 97, 121, 95, 98, 105, 116, 109,
    97, 112, 95, 101, 120, 116, 101, 110, 115, 105, 111, 110,
];

/// The address that program-derived-address search yields for these seeds
/// under this program, or `None` in the statistically improbable case that
/// no bump seed produces an off-curve point. The search hashes nothing but
/// its arguments, so the result is a function of them alone.
pub uninterp spec fn pda_of(seeds: Seq<Seq<u8>>, program: Seq<u8>) -> Option<Seq<u8>>;

/// Relies on `solana_sdk::pubkey::Pubkey::try_find_program_address`: a
/// deterministic search over bump seeds that returns a 32-byte derived
/// address, or `None` when every bump fails.
#[verifier::external_body]
fn find_pda(seeds: &Vec<Vec<u8>>, program: &Addr) -> (r: Option<Addr>)
    ensures
        (match r {
            Some(a) => pda_of(seeds.deep_view(), program@) == Some(a@),
            None => pda_of(seeds.deep_view(), program@) is None,
        }),
{
    let refs: Vec<&[u8]> = seeds.iter().map(|s| s.as_slice()).collect();
    let program_id = solana_sdk::pubkey::Pubkey::new_from_array(program.bytes);
    solana_sdk::pubkey::Pubkey::try_find_program_address(&refs, &program_id)
        .map(|(key, _bump)| Addr { bytes: key.to_bytes() })
}

/// The four big-endian bytes of a tick index, as the derivation seeds them.
pub open spec fn be4_of_i32(x: i32) -> Seq<u8> {
    seq![
        ((x as u32) >> 24) as u8,
        ((x as u32) >> 16) as u8,
        ((x as u32) >> 8) as u8,
        (x as u32) as u8,
    ]
}

fn be4_bytes(x: i32) -> (r: Vec<u8>)
    ensures
        r@ == be4_of_i32(x),
{
    let u: u32 = #[verifier::truncate] (x as u32);
    let b0: u8 = #[verifier::truncate] ((u >> 24) as u8);
    let b1: u8 = #[verifier::truncate] ((u >> 16) as u8);
    let b2: u8 = #[verifier::truncate] ((u >> 8) as u8);
    let b3: u8 = #[verifier::truncate] (u as u8);
    let r = vec![b0, b1, b2, b3];
    proof {
        assert(r@ =~= be4_of_i32(x));
    }
    r
}

fn arr_to_vec<const N: usize>(a: &[u8; N]) -> (v: Vec<u8>)
    ensures
        v@ == a@,
{
    let mut v: Vec<u8> = Vec::new();
    let mut i: usize = 0;
    while i < N
        invariant
            0 <= i <= N,
            v@ =~= a@.subrange(0, i as int),
        decreases N - i,
    {
        v.push(a[i]);
        i += 1;
    }
    proof {
        assert(v@ =~= a@);
    }
    v
}

/// The derived address of the tick-array account whose first tick is `start`.
pub open spec fn tick_array_key(program: Seq<u8>, pool: Seq<u8>, start: int) -> Option<Seq<u8>> {
    pda_of(seq![TICK_ARRAY_SEED@, pool, be4_of_i32(start as i32)], program)
}

/// The derived address of the pool's tick-array bitmap extension account.
pub open spec fn bitmap_extension_key(program: Seq<u8>, pool: Seq<u8>) -> Option<Seq<u8>> {
    pda_of(seq![BITMAP_EXTENSION_SEED@, pool], program)
}

pub fn derive_tick_array_key(program: &Addr, pool: &Addr, start: i64) -> (r: Option<Addr>)
    requires
        i32::MIN as int <= start <= i32::MAX as int,
    ensures
        (match r {
            Some(a) => tick_array_key(program@, pool@, start as int) == Some(a@),
            None => tick_array_key(program@, pool@, start as int) is None,
        }),
{
    let start32: i32 = start as i32;
    let mut seeds: Vec<Vec<u8>> = Vec::new();
    seeds.push(arr_to_vec(&TICK_ARRAY_SEED));
    seeds.push(arr_to_vec(&pool.bytes));
    seeds.push(be4_bytes(start32));
    proof {
        assert(seeds.deep_view() =~~= seq![TICK_ARRAY_SEED@, pool@, be4_of_i32(start as i32)]);
    }
    find_pda(&seeds, program)
}

pub fn derive_bitmap_extension_key(program: &Addr, pool: &Addr) -> (r: Option<Addr>)
    ensures
        (match r {
            Some(a) => bitmap_extension_key(program@, pool@) == Some(a@),
            None => bitmap_extension_key(program@, pool@) is None,
        }),
{
    let mut seeds: Vec<Vec<u8>> = Vec::new();
    seeds.push(arr_to_vec(&BITMAP_EXTENSION_SEED));
    seeds.push(arr_to_vec(&pool.bytes));
    proof {
        assert(seeds.deep_view() =~~= seq![BITMAP_EXTENSION_SEED@, pool@]);
    }
    find_pda(&seeds, program)
}

} // verus!
