use vstd::prelude::*;
use crate::addr::Addr;
use crate::errs::AdapterError;
use crate::batch::AccountBatch;
use crate::pool::{PoolManager, PoolFields, FetchedAccounts, copy_bytes, TickArrayContent};
use crate::ticks::{price_state_ok, NEIGHBORHOOD_SIZE};
use crate::resolver::derivation_ok;

verus! {

/// Which reserve is being paid in: token 0 for token 1, or the reverse.
#[derive(Clone, Copy, Debug, PartialEq, Eq, Structural)]
pub enum SwapDirection {
    ZeroForOne,
    OneForZero,
}

/// The numeric outcome of a quote, as plain values: amounts in native token
/// units, the fee-collecting mint, and the fee percentage as a decimal
/// mantissa with scale.
#[derive(Clone, Copy, Debug, PartialEq, Eq)]
pub struct QuoteNumbers {
    pub in_amount: u64,
    pub out_amount: u64,
    pub fee_amount: u64,
    pub fee_mint: Addr,
    pub fee_pct_mantissa: u128,
    pub fee_pct_scale: u32,
}

/// Accounts a swap instruction references besides the bitmap extension and
/// the tick arrays, the paying signer included.
pub const SWAP_BASE_ACCOUNTS: usize = 13;

/// The token program's address.
pub const TOKEN_PROGRAM: [u8; 32] = [
    6, 221, 246, 225, 215, 101, 161, 147, 217, 203, 225, 70, 206, 235, 121, 172, 28, 180, 133,
    237, 95, 91, 55, 145, 58, 140, 245, 133, 126, 255, 0, 169,
];

/// The 2022 token program's address.
pub const TOKEN_2022_PROGRAM: [u8; 32] = [
    6, 221, 246, 225, 238, 117, 143, 222, 24, 66, 93, 188, 228, 108, 205, 218, 182, 26, 252, 77,
    131, 185, 13, 39, 254, 189, 249, 40, 216, 161, 139, 252,
];

/// The memo program's address.
pub const MEMO_PROGRAM: [u8; 32] = [
    5, 74, 83, 90, 153, 41, 33, 6, 77, 36, 232, 113, 96, 218, 56, 124, 124, 53, 181, 221, 188,
    146, 187, 129, 228, 31, 168, 64, 65, 5, 68, 141,
];

fn push_all(dst: &mut Vec<Addr>, src: &Vec<Addr>)
    ensures
        final(dst)@ == old(dst)@ + src@,
{
    let mut i: usize = 0;
    while i < src.len()
        invariant
            0 <= i <= src@.len(),
            dst@ =~= old(dst)@ + src@.subrange(0, i as int),
        decreases src@.len() - i,
    {
        dst.push(src[i]);
        i += 1;
    }
    proof {
        assert(dst@ =~= old(dst)@ + src@);
    }
}

fn copy_addrs(v: &Vec<Addr>) -> (r: Vec<Addr>)
    ensures
        r@ == v@,
{
    let mut r: Vec<Addr> = Vec::new();
    push_all(&mut r, v);
    proof {
        assert(r@ =~= v@);
    }
    r
}

/// Two mirrored tick-array contents hold the same snapshot.
pub open spec fn content_eq(a: TickArrayContent, b: TickArrayContent) -> bool {
    match a {
        TickArrayContent::Uninitialized => b is Uninitialized,
        TickArrayContent::Fetched(x) => b matches TickArrayContent::Fetched(y) && x@ == y@,
    }
}

fn copy_content(c: &TickArrayContent) -> (r: TickArrayContent)
    ensures
        content_eq(*c, r),
{
    match c {
        TickArrayContent::Uninitialized => TickArrayContent::Uninitialized,
        TickArrayContent::Fetched(d) => TickArrayContent::Fetched(copy_bytes(d)),
    }
}

/// The plugin-facing adapter for one concentrated-liquidity pool: a thin
/// facade over the mirror that declares dependencies, synchronizes state,
/// and answers quote and swap-assembly queries.
#[derive(Debug)]
pub struct SwapIoClmmAdapter {
    pub pool_manager: PoolManager,
}

impl SwapIoClmmAdapter {
    pub open spec fn wf(&self) -> bool {
        self.pool_manager.wf()
    }

    /// The request trades the pool's two reserves, input against output.
    pub open spec fn trades(&self, input: Seq<u8>, output: Seq<u8>) -> bool {
        ||| (input == self.pool_manager.fields.token_mint_0@ && output
            == self.pool_manager.fields.token_mint_1@)
        ||| (input == self.pool_manager.fields.token_mint_1@ && output
            == self.pool_manager.fields.token_mint_0@)
    }

    /// Construction gate for the raw pool account: the buffer must at least
    /// hold the 8-byte format discriminator.
    pub fn validate_pool_account(data: &Vec<u8>) -> (r: Result<(), AdapterError>)
        ensures
            r is Ok <==> data@.len() >= 8,
            (r matches Err(e) ==> e == AdapterError::MalformedAccount),
    {
        if data.len() < 8 {
            Err(AdapterError::MalformedAccount)
        } else {
            Ok(())
        }
    }

    /// Build the adapter around a freshly constructed mirror.
    pub fn new(pool_key: Addr, program_id: Addr, epoch: u64, fields: PoolFields) -> (r: Result<
        SwapIoClmmAdapter,
        AdapterError,
    >)
        ensures
            (match r {
                Ok(a) => {
                    &&& a.wf()
                    &&& a.pool_manager.synced()
                    &&& a.pool_manager.pool_key == pool_key
                    &&& a.pool_manager.program_id == program_id
                    &&& a.pool_manager.epoch == epoch
                    &&& a.pool_manager.fields == fields
                    &&& a.pool_manager.tick_array_contents@.len() == 0
                },
                Err(e) => {
                    &&& e == AdapterError::DecodeError
                    &&& !(price_state_ok(fields.tick_current as int, fields.tick_spacing)
                        && derivation_ok(
                        program_id@,
                        pool_key@,
                        fields.tick_current as int,
                        fields.tick_spacing,
                    ))
                },
            }),
    {
        match PoolManager::from_parts(pool_key, program_id, epoch, fields) {
            Ok(m) => Ok(SwapIoClmmAdapter { pool_manager: m }),
            Err(e) => Err(e),
        }
    }

    pub fn get_up_tick_array_keys(&self) -> (r: &Vec<Addr>)
        ensures
            r@ == self.pool_manager.up_tick_array_keys@,
    {
        &self.pool_manager.up_tick_array_keys
    }

    pub fn get_down_tick_array_keys(&self) -> (r: &Vec<Addr>)
        ensures
            r@ == self.pool_manager.down_tick_array_keys@,
    {
        &self.pool_manager.down_tick_array_keys
    }

    pub fn pool_manager(&self) -> (r: &PoolManager)
        ensures
            *r == self.pool_manager,
    {
        &self.pool_manager
    }

    /// The human-readable label of the underlying exchange.
    pub fn label(&self) -> (r: &'static str)
        ensures
            r@ == "SWAP_IO_CLMM"@,
    {
        "SWAP_IO_CLMM"
    }

    pub fn program_id(&self) -> (r: Addr)
        ensures
            r == self.pool_manager.program_id,
    {
        self.pool_manager.program_id
    }

    pub fn key(&self) -> (r: Addr)
        ensures
            r == self.pool_manager.pool_key,
    {
        self.pool_manager.pool_key
    }

    pub fn epoch(&self) -> (r: u64)
        ensures
            r == self.pool_manager.epoch,
    {
        self.pool_manager.epoch
    }

    pub fn get_reserve_mints(&self) -> (r: Vec<Addr>)
        ensures
            r@ == seq![
                self.pool_manager.fields.token_mint_0,
                self.pool_manager.fields.token_mint_1,
            ],
    {
        self.pool_manager.get_reserve_mints()
    }

    /// The ordered dependency declaration for the surrounding scheduler:
    /// config, both mints, the bitmap extension, then the whole current
    /// neighborhood, up then down.
    pub fn get_accounts_to_update(&self) -> (r: Vec<Addr>)
        ensures
            r@ == self.pool_manager.declared_addrs(),
    {
        let mut r: Vec<Addr> = Vec::new();
        r.push(self.pool_manager.fields.amm_config);
        r.push(self.pool_manager.fields.token_mint_0);
        r.push(self.pool_manager.fields.token_mint_1);
        r.push(self.pool_manager.bitmap_extension_key);
        push_all(&mut r, &self.pool_manager.up_tick_array_keys);
        push_all(&mut r, &self.pool_manager.down_tick_array_keys);
        proof {
            assert(r@ =~= self.pool_manager.declared_addrs());
        }
        r
    }

    /// Validate an update batch against the declared dependencies, without
    /// touching the mirror.
    pub fn prepare_update(&self, batch: &AccountBatch) -> (r: Result<
        FetchedAccounts,
        AdapterError,
    >)
        ensures
            (match r {
                Ok(f) => {
                    &&& (forall|i: int|
                        0 <= i < self.pool_manager.required_addrs().len() ==> batch.contains_addr(
                            #[trigger] self.pool_manager.required_addrs()[i],
                        ))
                    &&& f.up_tick_array_data@.len()
                        == self.pool_manager.up_tick_array_keys@.len()
                    &&& f.down_tick_array_data@.len()
                        == self.pool_manager.down_tick_array_keys@.len()
                },
                Err(e) => {
                    &&& e matches AdapterError::MissingAccount(a) && !batch.contains_addr(a@)
                        && self.pool_manager.required_addrs().contains(a@)
                },
            }),
    {
        self.pool_manager.prepare_update(batch)
    }

    /// One full synchronization cycle against a fetched batch: check the
    /// batch holds every declared dependency, then atomically swap the new
    /// contents and the re-decoded price state into the mirror and re-derive
    /// the neighborhood for the next cycle. On any failure the mirror is
    /// left exactly as it was.
    pub fn update(&mut self, batch: &AccountBatch, new_tick: i32) -> (r: Result<(), AdapterError>)
        requires
            old(self).wf(),
        ensures
            (match r {
                Ok(()) => {
                    &&& (forall|i: int|
                        0 <= i < old(self).pool_manager.required_addrs().len()
                            ==> batch.contains_addr(
                            #[trigger] old(self).pool_manager.required_addrs()[i],
                        ))
                    &&& price_state_ok(new_tick as int, old(self).pool_manager.spacing())
                    &&& final(self).wf()
                    &&& final(self).pool_manager.synced()
                    &&& final(self).pool_manager.pool_key == old(self).pool_manager.pool_key
                    &&& final(self).pool_manager.program_id == old(self).pool_manager.program_id
                    &&& final(self).pool_manager.epoch == old(self).pool_manager.epoch
                    &&& final(self).pool_manager.fields == (PoolFields {
                        tick_current: new_tick,
                        ..old(self).pool_manager.fields
                    })
                    &&& final(self).pool_manager.amm_config_data@ == batch.data_at(
                        old(self).pool_manager.fields.amm_config@,
                    )
                    &&& final(self).pool_manager.mint_0_data@ == batch.data_at(
                        old(self).pool_manager.fields.token_mint_0@,
                    )
                    &&& final(self).pool_manager.mint_1_data@ == batch.data_at(
                        old(self).pool_manager.fields.token_mint_1@,
                    )
                    &&& final(self).pool_manager.bitmap_extension_data@ == batch.data_at(
                        old(self).pool_manager.bitmap_extension_key@,
                    )
                    &&& final(self).pool_manager.tick_array_contents@.len() == old(
                        self,
                    ).pool_manager.up_tick_array_keys@.len() + old(
                        self,
                    ).pool_manager.down_tick_array_keys@.len()
                },
                Err(e) => {
                    &&& *final(self) == *old(self)
                    &&& (e matches AdapterError::MissingAccount(a) ==> !batch.contains_addr(a@)
                        && old(self).pool_manager.required_addrs().contains(a@))
                    &&& (e == AdapterError::DecodeError ==> !(price_state_ok(
                        new_tick as int,
                        old(self).pool_manager.spacing(),
                    ) && derivation_ok(
                        old(self).pool_manager.program_id@,
                        old(self).pool_manager.pool_key@,
                        new_tick as int,
                        old(self).pool_manager.spacing(),
                    )))
                    &&& (e matches AdapterError::MissingAccount(_) || e
                        == AdapterError::DecodeError)
                },
            }),
    {
        let fetched = match self.pool_manager.prepare_update(batch) {
            Ok(f) => f,
            Err(e) => {
                return Err(e);
            },
        };
        match self.pool_manager.commit_update(&fetched, new_tick) {
            Ok(()) => Ok(()),
            Err(e) => Err(e),
        }
    }

    /// Directional mapping of a requested pair onto the pool's token order.
    /// Fails with `UnknownMint` exactly when the pair is not the two
    /// reserves, one each way; in particular a same-mint request fails.
    pub fn swap_direction(&self, input_mint: &Addr, output_mint: &Addr) -> (r: Result<
        SwapDirection,
        AdapterError,
    >)
        ensures
            (match r {
                Ok(d) => {
                    &&& self.trades(input_mint@, output_mint@)
                    &&& ((input_mint@ == self.pool_manager.fields.token_mint_0@ && output_mint@
                        == self.pool_manager.fields.token_mint_1@) ==> d
                        == SwapDirection::ZeroForOne)
                    &&& (!(input_mint@ == self.pool_manager.fields.token_mint_0@ && output_mint@
                        == self.pool_manager.fields.token_mint_1@) ==> d
                        == SwapDirection::OneForZero)
                    &&& (d == SwapDirection::OneForZero ==> (input_mint@
                        == self.pool_manager.fields.token_mint_1@ && output_mint@
                        == self.pool_manager.fields.token_mint_0@))
                },
                Err(e) => {
                    &&& e == AdapterError::UnknownMint
                    &&& !self.trades(input_mint@, output_mint@)
                },
            }),
    {
        let m0 = self.pool_manager.fields.token_mint_0;
        let m1 = self.pool_manager.fields.token_mint_1;
        if *input_mint == m0 && *output_mint == m1 {
            Ok(SwapDirection::ZeroForOne)
        } else if *input_mint == m1 && *output_mint == m0 {
            Ok(SwapDirection::OneForZero)
        } else {
            Err(AdapterError::UnknownMint)
        }
    }

    /// The quote facade: validate the requested pair against the reserves,
    /// then surface the collaborator's numbers verbatim — the adapter never
    /// recomputes or adjusts them.
    pub fn quote(&self, input_mint: &Addr, output_mint: &Addr, calc: &QuoteNumbers) -> (r: Result<
        QuoteNumbers,
        AdapterError,
    >)
        ensures
            (match r {
                Ok(q) => {
                    &&& self.trades(input_mint@, output_mint@)
                    &&& q == *calc
                },
                Err(e) => {
                    &&& e == AdapterError::UnknownMint
                    &&& !self.trades(input_mint@, output_mint@)
                },
            }),
    {
        match self.swap_direction(input_mint, output_mint) {
            Ok(_) => Ok(*calc),
            Err(e) => Err(e),
        }
    }

    /// The ordered account set a swap instruction references, built from the
    /// request and the current mirror.
    pub open spec fn swap_accounts_spec(
        &self,
        payer: Addr,
        input_mint: Addr,
        output_mint: Addr,
        source_token_account: Addr,
        destination_token_account: Addr,
    ) -> Seq<Addr> {
        let zero_for_one = input_mint@ == self.pool_manager.fields.token_mint_0@;
        let in_vault = if zero_for_one {
            self.pool_manager.fields.token_vault_0
        } else {
            self.pool_manager.fields.token_vault_1
        };
        let out_vault = if zero_for_one {
            self.pool_manager.fields.token_vault_1
        } else {
            self.pool_manager.fields.token_vault_0
        };
        seq![
            payer,
            self.pool_manager.fields.amm_config,
            self.pool_manager.pool_key,
            source_token_account,
            destination_token_account,
            in_vault,
            out_vault,
            self.pool_manager.fields.observation_key,
            Addr { bytes: TOKEN_PROGRAM },
            Addr { bytes: TOKEN_2022_PROGRAM },
            Addr { bytes: MEMO_PROGRAM },
            input_mint,
            output_mint,
            self.pool_manager.bitmap_extension_key,
        ] + self.pool_manager.up_tick_array_keys@ + self.pool_manager.down_tick_array_keys@
    }

    /// Assemble the accounts of a swap instruction: the fixed base accounts
    /// in instruction order, the bitmap extension, then the whole current
    /// neighborhood. Fails with `UnknownMint` exactly as `quote` does.
    pub fn swap_account_keys(
        &self,
        payer: &Addr,
        input_mint: &Addr,
        output_mint: &Addr,
        source_token_account: &Addr,
        destination_token_account: &Addr,
    ) -> (r: Result<Vec<Addr>, AdapterError>)
        ensures
            (match r {
                Ok(v) => {
                    &&& self.trades(input_mint@, output_mint@)
                    &&& v@ == self.swap_accounts_spec(
                        *payer,
                        *input_mint,
                        *output_mint,
                        *source_token_account,
                        *destination_token_account,
                    )
                    &&& v@.len() == SWAP_BASE_ACCOUNTS + 1
                        + self.pool_manager.up_tick_array_keys@.len()
                        + self.pool_manager.down_tick_array_keys@.len()
                },
                Err(e) => {
                    &&& e == AdapterError::UnknownMint
                    &&& !self.trades(input_mint@, output_mint@)
                },
            }),
    {
        let dir = match self.swap_direction(input_mint, output_mint) {
            Ok(d) => d,
            Err(e) => {
                return Err(e);
            },
        };
        let zero_for_one = match dir {
            SwapDirection::ZeroForOne => true,
            SwapDirection::OneForZero => false,
        };
        let in_vault = if zero_for_one {
            self.pool_manager.fields.token_vault_0
        } else {
            self.pool_manager.fields.token_vault_1
        };
        let out_vault = if zero_for_one {
            self.pool_manager.fields.token_vault_1
        } else {
            self.pool_manager.fields.token_vault_0
        };
        let mut v: Vec<Addr> = Vec::new();
        v.push(*payer);
        v.push(self.pool_manager.fields.amm_config);
        v.push(self.pool_manager.pool_key);
        v.push(*source_token_account);
        v.push(*destination_token_account);
        v.push(in_vault);
        v.push(out_vault);
        v.push(self.pool_manager.fields.observation_key);
        v.push(Addr { bytes: TOKEN_PROGRAM });
        v.push(Addr { bytes: TOKEN_2022_PROGRAM });
        v.push(Addr { bytes: MEMO_PROGRAM });
        v.push(*input_mint);
        v.push(*output_mint);
        v.push(self.pool_manager.bitmap_extension_key);
        push_all(&mut v, &self.pool_manager.up_tick_array_keys);
        push_all(&mut v, &self.pool_manager.down_tick_array_keys);
        proof {
            assert(v@ =~= self.swap_accounts_spec(
                *payer,
                *input_mint,
                *output_mint,
                *source_token_account,
                *destination_token_account,
            ));
        }
        Ok(v)
    }

    /// The fixed account budget of a swap instruction: the base accounts,
    /// the bitmap extension, and one account per tracked tick array.
    pub fn get_accounts_len(&self) -> (r: usize)
        ensures
            r == SWAP_BASE_ACCOUNTS + 1 + 2 * NEIGHBORHOOD_SIZE,
    {
        SWAP_BASE_ACCOUNTS + 1 + 2 * NEIGHBORHOOD_SIZE
    }

    /// An independent copy of the adapter: same identity, same mirrored
    /// state, no sharing — refreshing one copy never touches the other.
    pub fn clone_amm(&self) -> (r: SwapIoClmmAdapter)
        ensures
            r.pool_manager.pool_key == self.pool_manager.pool_key,
            r.pool_manager.program_id == self.pool_manager.program_id,
            r.pool_manager.epoch == self.pool_manager.epoch,
            r.pool_manager.fields == self.pool_manager.fields,
            r.pool_manager.bitmap_extension_key == self.pool_manager.bitmap_extension_key,
            r.pool_manager.amm_config_data@ == self.pool_manager.amm_config_data@,
            r.pool_manager.mint_0_data@ == self.pool_manager.mint_0_data@,
            r.pool_manager.mint_1_data@ == self.pool_manager.mint_1_data@,
            r.pool_manager.bitmap_extension_data@ == self.pool_manager.bitmap_extension_data@,
            r.pool_manager.up_tick_array_keys@ == self.pool_manager.up_tick_array_keys@,
            r.pool_manager.down_tick_array_keys@ == self.pool_manager.down_tick_array_keys@,
            r.pool_manager.tick_array_contents@.len()
                == self.pool_manager.tick_array_contents@.len(),
            forall|i: int|
                0 <= i < self.pool_manager.tick_array_contents@.len() ==> (
                #[trigger] r.pool_manager.tick_array_contents@[i]).0
                    == self.pool_manager.tick_array_contents@[i].0 && content_eq(
                    r.pool_manager.tick_array_contents@[i].1,
                    self.pool_manager.tick_array_contents@[i].1,
                ),
    {
        let m = &self.pool_manager;
        let mut contents: Vec<(Addr, TickArrayContent)> = Vec::new();
        let n = m.tick_array_contents.len();
        let mut i: usize = 0;
        while i < n
            invariant
                0 <= i <= n,
                n == m.tick_array_contents@.len(),
                contents@.len() == i,
                forall|j: int|
                    0 <= j < i ==> (#[trigger] contents@[j]).0 == m.tick_array_contents@[j].0
                        && content_eq(contents@[j].1, m.tick_array_contents@[j].1),
            decreases n - i,
        {
            let c = copy_content(&m.tick_array_contents[i].1);
            contents.push((m.tick_array_contents[i].0, c));
            i += 1;
        }
        SwapIoClmmAdapter {
            pool_manager: PoolManager {
                pool_key: m.pool_key,
                program_id: m.program_id,
                epoch: m.epoch,
                fields: m.fields,
                bitmap_extension_key: m.bitmap_extension_key,
                amm_config_data: copy_bytes(&m.amm_config_data),
                mint_0_data: copy_bytes(&m.mint_0_data),
                mint_1_data: copy_bytes(&m.mint_1_data),
                bitmap_extension_data: copy_bytes(&m.bitmap_extension_data),
                up_tick_array_keys: copy_addrs(&m.up_tick_array_keys),
                down_tick_array_keys: copy_addrs(&m.down_tick_array_keys),
                tick_array_contents: contents,
            },
        }
    }

    /// This pool type declares a fixed dependency set per price state.
    pub fn has_dynamic_accounts(&self) -> (r: bool)
        ensures
            r == false,
    {
        false
    }

    /// Reserve mints are fixed at construction; no refresh is needed first.
    pub fn requires_update_for_reserve_mints(&self) -> (r: bool)
        ensures
            r == false,
    {
        false
    }

    /// Exact-output quoting is supported.
    pub fn supports_exact_out(&self) -> (r: bool)
        ensures
            r == true,
    {
        true
    }

    /// The pool trades in both directions.
    pub fn unidirectional(&self) -> (r: bool)
        ensures
            r == false,
    {
        false
    }

    /// No paused or frozen state is tracked; the pool is always quotable.
    pub fn is_active(&self) -> (r: bool)
        ensures
            r == true,
    {
        true
    }

    /// No dependency programs beyond the pool's own program.
    pub fn program_dependencies(&self) -> (r: Vec<Addr>)
        ensures
            r@.len() == 0,
    {
        Vec::new()
    }
}

} // verus!
