use vstd::prelude::*;
use crate::addr::Addr;
use crate::pool::PoolManager;
use crate::adapter::{SwapIoClmmAdapter, SWAP_BASE_ACCOUNTS};
use crate::ticks::{up_start, down_start, NEIGHBORHOOD_SIZE};
use crate::pda::tick_array_key;

verus! {

/// Determinism of the neighborhood resolution: two mirrors that agree on
/// pool identity and price state, each in step with its own price, hold
/// byte-identical neighborhood address sequences and the same bitmap
/// extension address. There is no hidden input: the addresses are a
/// function of (program, pool, tick, spacing) alone.
pub proof fn lemma_neighborhood_deterministic(a: &PoolManager, b: &PoolManager)
    requires
        a.program_id@ == b.program_id@,
        a.pool_key@ == b.pool_key@,
        a.tick() == b.tick(),
        a.spacing() == b.spacing(),
        a.wf(),
        b.wf(),
        a.synced(),
        b.synced(),
    ensures
        a.up_tick_array_keys@.map_values(|x: Addr| x@) == b.up_tick_array_keys@.map_values(
            |x: Addr| x@,
        ),
        a.down_tick_array_keys@.map_values(|x: Addr| x@) == b.down_tick_array_keys@.map_values(
            |x: Addr| x@,
        ),
        a.bitmap_extension_key@ == b.bitmap_extension_key@,
{
    assert forall|i: int| 0 <= i < a.up_tick_array_keys@.len() implies a.up_tick_array_keys@[i]@
        == b.up_tick_array_keys@[i]@ by {
        assert(tick_array_key(a.program_id@, a.pool_key@, up_start(a.tick(), a.spacing(), i))
            == Some(a.up_tick_array_keys@[i]@));
        assert(tick_array_key(b.program_id@, b.pool_key@, up_start(b.tick(), b.spacing(), i))
            == Some(b.up_tick_array_keys@[i]@));
    }
    assert forall|i: int|
        0 <= i < a.down_tick_array_keys@.len() implies a.down_tick_array_keys@[i]@
        == b.down_tick_array_keys@[i]@ by {
        assert(tick_array_key(a.program_id@, a.pool_key@, down_start(a.tick(), a.spacing(), i))
            == Some(a.down_tick_array_keys@[i]@));
        assert(tick_array_key(b.program_id@, b.pool_key@, down_start(b.tick(), b.spacing(), i))
            == Some(b.down_tick_array_keys@[i]@));
    }
    assert(a.up_tick_array_keys@.map_values(|x: Addr| x@) =~= b.up_tick_array_keys@.map_values(
        |x: Addr| x@,
    ));
    assert(a.down_tick_array_keys@.map_values(|x: Addr| x@) =~= b.down_tick_array_keys@.map_values(
        |x: Addr| x@,
    ));
}

/// Dependency completeness: the declared dependency set contains the config
/// address, both mints, the bitmap extension, and every address of the
/// current tick-array neighborhood — it may over-declare, but nothing the
/// next refresh needs is omitted.
pub proof fn lemma_dependency_completeness(m: &PoolManager)
    ensures
        m.declared_addrs().contains(m.fields.amm_config),
        m.declared_addrs().contains(m.fields.token_mint_0),
        m.declared_addrs().contains(m.fields.token_mint_1),
        m.declared_addrs().contains(m.bitmap_extension_key),
        forall|i: int|
            0 <= i < m.up_tick_array_keys@.len() ==> m.declared_addrs().contains(
                #[trigger] m.up_tick_array_keys@[i],
            ),
        forall|i: int|
            0 <= i < m.down_tick_array_keys@.len() ==> m.declared_addrs().contains(
                #[trigger] m.down_tick_array_keys@[i],
            ),
{
    assert(m.declared_addrs()[0] == m.fields.amm_config);
    assert(m.declared_addrs()[1] == m.fields.token_mint_0);
    assert(m.declared_addrs()[2] == m.fields.token_mint_1);
    assert(m.declared_addrs()[3] == m.bitmap_extension_key);
    assert forall|i: int| 0 <= i < m.up_tick_array_keys@.len() implies m.declared_addrs().contains(
        #[trigger] m.up_tick_array_keys@[i],
    ) by {
        assert(m.declared_addrs()[4 + i] == m.up_tick_array_keys@[i]);
    }
    assert forall|i: int|
        0 <= i < m.down_tick_array_keys@.len() implies m.declared_addrs().contains(
        #[trigger] m.down_tick_array_keys@[i],
    ) by {
        assert(m.declared_addrs()[4 + m.up_tick_array_keys@.len() + i]
            == m.down_tick_array_keys@[i]);
    }
}

/// Account-count consistency: whenever the neighborhood is full on both
/// sides (no domain boundary truncated it), the account list a swap
/// instruction references has exactly the fixed length the adapter reports
/// as its account budget.
pub proof fn lemma_account_count(
    a: &SwapIoClmmAdapter,
    payer: Addr,
    input_mint: Addr,
    output_mint: Addr,
    source_token_account: Addr,
    destination_token_account: Addr,
)
    requires
        a.pool_manager.up_tick_array_keys@.len() == NEIGHBORHOOD_SIZE,
        a.pool_manager.down_tick_array_keys@.len() == NEIGHBORHOOD_SIZE,
    ensures
        a.swap_accounts_spec(
            payer,
            input_mint,
            output_mint,
            source_token_account,
            destination_token_account,
        ).len() == SWAP_BASE_ACCOUNTS + 1 + 2 * NEIGHBORHOOD_SIZE,
{
}

} // verus!
