use vstd::prelude::*;
use crate::addr::Addr;
use crate::errs::AdapterError;
use crate::batch::AccountBatch;
use crate::ticks::{price_state_ok, up_count, down_count, up_start, down_start, MIN_TICK, MAX_TICK};
use crate::pda::{tick_array_key, bitmap_extension_key, derive_bitmap_extension_key};
use crate::resolver::{derivation_ok, derive_neighborhood};

verus! {

/// The plain fields of a decoded pool account that the adapter reads: the
/// fixed configuration and vault addresses, and the current price state.
#[derive(Clone, Copy, Debug)]
pub struct PoolFields {
    pub amm_config: Addr,
    pub token_mint_0: Addr,
    pub token_mint_1: Addr,
    pub token_vault_0: Addr,
    pub token_vault_1: Addr,
    pub observation_key: Addr,
    pub tick_current: i32,
    pub tick_spacing: u16,
}

/// The mirrored content of one tick-array account after a refresh.
#[derive(Debug)]
pub enum TickArrayContent {
    /// Fetched and found absent on-chain: an array nobody has initialized
    /// yet. A valid state, distinct from an array that was never fetched
    /// (one the mirror holds no entry for).
    Uninitialized,
    /// Fetched with this raw account state.
    Fetched(Vec<u8>),
}

/// `c` is the mirrored form of a fetched snapshot whose bytes are `data`.
pub open spec fn snapshot_matches(c: TickArrayContent, data: Seq<u8>) -> bool {
    if data.len() == 0 {
        c is Uninitialized
    } else {
        &&& c matches TickArrayContent::Fetched(d)
        &&& d@ == data
    }
}

/// The raw snapshots of one complete update batch, pulled out of the batch
/// in declaration order, ready to be decoded and committed.
#[derive(Debug)]
pub struct FetchedAccounts {
    pub amm_config_data: Vec<u8>,
    pub mint_0_data: Vec<u8>,
    pub mint_1_data: Vec<u8>,
    pub bitmap_extension_data: Vec<u8>,
    pub up_tick_array_data: Vec<Vec<u8>>,
    pub down_tick_array_data: Vec<Vec<u8>>,
}

/// The local mirror of the on-chain pool state a quote depends on: the
/// pool's identity, its fixed configuration addresses, the last
/// synchronized price state, and the tick-array neighborhood that price
/// makes relevant.
#[derive(Debug)]
pub struct PoolManager {
    pub pool_key: Addr,
    pub program_id: Addr,
    pub epoch: u64,
    pub fields: PoolFields,
    pub bitmap_extension_key: Addr,
    pub amm_config_data: Vec<u8>,
    pub mint_0_data: Vec<u8>,
    pub mint_1_data: Vec<u8>,
    pub bitmap_extension_data: Vec<u8>,
    pub up_tick_array_keys: Vec<Addr>,
    pub down_tick_array_keys: Vec<Addr>,
    pub tick_array_contents: Vec<(Addr, TickArrayContent)>,
}

pub(crate) fn copy_bytes(v: &Vec<u8>) -> (r: Vec<u8>)
    ensures
        r@ == v@,
{
    let mut r: Vec<u8> = Vec::new();
    let mut i: usize = 0;
    while i < v.len()
        invariant
            0 <= i <= v@.len(),
            r@ =~= v@.subrange(0, i as int),
        decreases v@.len() - i,
    {
        r.push(v[i]);
        i += 1;
    }
    proof {
        assert(r@ =~= v@);
    }
    r
}

fn content_of_data(data: &Vec<u8>) -> (c: TickArrayContent)
    ensures
        snapshot_matches(c, data@),
{
    if data.len() == 0 {
        TickArrayContent::Uninitialized
    } else {
        TickArrayContent::Fetched(copy_bytes(data))
    }
}

impl PoolManager {
    /// The current tick, as a mathematical integer.
    pub open spec fn tick(&self) -> int {
        self.fields.tick_current as int
    }

    pub open spec fn spacing(&self) -> u16 {
        self.fields.tick_spacing
    }

    /// Basic well-formedness: an accepted price state, and neighborhood
    /// bookkeeping of the sizes that price state dictates.
    pub open spec fn wf(&self) -> bool {
        &&& price_state_ok(self.tick(), self.spacing())
        &&& self.up_tick_array_keys@.len() == up_count(self.tick(), self.spacing())
        &&& self.down_tick_array_keys@.len() == down_count(self.tick(), self.spacing())
    }

    /// The stored neighborhood and bitmap-extension keys are exactly the
    /// ones derived from the mirror's own current price state — never from a
    /// price of a partially applied update.
    pub open spec fn synced(&self) -> bool {
        &&& bitmap_extension_key(self.program_id@, self.pool_key@) == Some(
            self.bitmap_extension_key@,
        )
        &&& (forall|i: int|
            0 <= i < self.up_tick_array_keys@.len() ==> tick_array_key(
                self.program_id@,
                self.pool_key@,
                #[trigger] up_start(self.tick(), self.spacing(), i),
            ) == Some(self.up_tick_array_keys@[i]@))
        &&& (forall|i: int|
            0 <= i < self.down_tick_array_keys@.len() ==> tick_array_key(
                self.program_id@,
                self.pool_key@,
                #[trigger] down_start(self.tick(), self.spacing(), i),
            ) == Some(self.down_tick_array_keys@[i]@))
    }

    /// The complete address set the next update must refresh, in declaration
    /// order: config, the two mints, the bitmap extension, then the upward
    /// and downward neighborhoods.
    pub open spec fn declared_addrs(&self) -> Seq<Addr> {
        seq![
            self.fields.amm_config,
            self.fields.token_mint_0,
            self.fields.token_mint_1,
            self.bitmap_extension_key,
        ] + self.up_tick_array_keys@ + self.down_tick_array_keys@
    }

    /// The same declared set, as byte views.
    pub open spec fn required_addrs(&self) -> Seq<Seq<u8>> {
        self.declared_addrs().map_values(|a: Addr| a@)
    }

    /// Build the mirror from the plain fields decoded out of a pool account.
    /// Fails with `DecodeError` when the decoded price state is unusable or
    /// an address of the neighborhood cannot be derived; succeeds otherwise,
    /// with an empty content mirror awaiting its first refresh.
    pub fn from_parts(pool_key: Addr, program_id: Addr, epoch: u64, fields: PoolFields) -> (r:
        Result<PoolManager, AdapterError>)
        ensures
            (match r {
                Ok(m) => {
                    &&& price_state_ok(fields.tick_current as int, fields.tick_spacing)
                    &&& derivation_ok(
                        program_id@,
                        pool_key@,
                        fields.tick_current as int,
                        fields.tick_spacing,
                    )
                    &&& m.wf()
                    &&& m.synced()
                    &&& m.pool_key == pool_key
                    &&& m.program_id == program_id
                    &&& m.epoch == epoch
                    &&& m.fields == fields
                    &&& m.amm_config_data@.len() == 0
                    &&& m.mint_0_data@.len() == 0
                    &&& m.mint_1_data@.len() == 0
                    &&& m.bitmap_extension_data@.len() == 0
                    &&& m.tick_array_contents@.len() == 0
                },
                Err(e) => {
                    &&& e == AdapterError::DecodeError
                    &&& !(price_state_ok(fields.tick_current as int, fields.tick_spacing)
                        && derivation_ok(
                        program_id@,
                        pool_key@,
                        fields.tick_current as int,
                        fields.tick_spacing,
                    ))
                },
            }),
    {
        if fields.tick_spacing == 0 {
            return Err(AdapterError::DecodeError);
        }
        let t = fields.tick_current as i64;
        if t < MIN_TICK || t > MAX_TICK {
            return Err(AdapterError::DecodeError);
        }
        let ext = match derive_bitmap_extension_key(&program_id, &pool_key) {
            Some(a) => a,
            None => {
                return Err(AdapterError::DecodeError);
            },
        };
        let nb = match derive_neighborhood(
            &program_id,
            &pool_key,
            fields.tick_current,
            fields.tick_spacing,
        ) {
            Ok(nb) => nb,
            Err(_) => {
                return Err(AdapterError::DecodeError);
            },
        };
        Ok(
            PoolManager {
                pool_key,
                program_id,
                epoch,
                fields,
                bitmap_extension_key: ext,
                amm_config_data: Vec::new(),
                mint_0_data: Vec::new(),
                mint_1_data: Vec::new(),
                bitmap_extension_data: Vec::new(),
                up_tick_array_keys: nb.0,
                down_tick_array_keys: nb.1,
                tick_array_contents: Vec::new(),
            },
        )
    }

    /// The two reserve-mint addresses, in token order.
    pub fn get_reserve_mints(&self) -> (r: Vec<Addr>)
        ensures
            r@ == seq![self.fields.token_mint_0, self.fields.token_mint_1],
    {
        let mut r: Vec<Addr> = Vec::new();
        r.push(self.fields.token_mint_0);
        r.push(self.fields.token_mint_1);
        proof {
            assert(r@ =~= seq![self.fields.token_mint_0, self.fields.token_mint_1]);
        }
        r
    }

    /// The derived address of the pool's tick-array bitmap extension.
    pub fn tick_array_bitmap_extension(&self) -> (r: Addr)
        ensures
            r == self.bitmap_extension_key,
    {
        self.bitmap_extension_key
    }

    /// Validate an update batch against the declared dependency set and pull
    /// the raw snapshots out. Read-only: a failed check mutates nothing.
    /// Fails with `MissingAccount(a)` exactly when some declared dependency
    /// `a` has no snapshot in the batch.
    pub fn prepare_update(&self, batch: &AccountBatch) -> (r: Result<FetchedAccounts, AdapterError>)
        ensures
            (match r {
                Ok(f) => {
                    &&& (forall|i: int|
                        0 <= i < self.required_addrs().len() ==> batch.contains_addr(
                            #[trigger] self.required_addrs()[i],
                        ))
                    &&& f.amm_config_data@ == batch.data_at(self.fields.amm_config@)
                    &&& f.mint_0_data@ == batch.data_at(self.fields.token_mint_0@)
                    &&& f.mint_1_data@ == batch.data_at(self.fields.token_mint_1@)
                    &&& f.bitmap_extension_data@ == batch.data_at(self.bitmap_extension_key@)
                    &&& f.up_tick_array_data@.len() == self.up_tick_array_keys@.len()
                    &&& f.down_tick_array_data@.len() == self.down_tick_array_keys@.len()
                    &&& (forall|i: int|
                        0 <= i < self.up_tick_array_keys@.len() ==> (
                        #[trigger] f.up_tick_array_data@[i])@ == batch.data_at(
                            self.up_tick_array_keys@[i]@,
                        ))
                    &&& (forall|i: int|
                        0 <= i < self.down_tick_array_keys@.len() ==> (
                        #[trigger] f.down_tick_array_data@[i])@ == batch.data_at(
                            self.down_tick_array_keys@[i]@,
                        ))
                },
                Err(e) => {
                    &&& e matches AdapterError::MissingAccount(a) && !batch.contains_addr(a@)
                        && self.required_addrs().contains(a@)
                },
            }),
    {
        let cfg = match batch.get(&self.fields.amm_config) {
            Some(d) => copy_bytes(d),
            None => {
                proof {
                    assert(self.required_addrs()[0] == self.fields.amm_config@);
                }
                return Err(AdapterError::MissingAccount(self.fields.amm_config));
            },
        };
        let m0 = match batch.get(&self.fields.token_mint_0) {
            Some(d) => copy_bytes(d),
            None => {
                proof {
                    assert(self.required_addrs()[1] == self.fields.token_mint_0@);
                }
                return Err(AdapterError::MissingAccount(self.fields.token_mint_0));
            },
        };
        let m1 = match batch.get(&self.fields.token_mint_1) {
            Some(d) => copy_bytes(d),
            None => {
                proof {
                    assert(self.required_addrs()[2] == self.fields.token_mint_1@);
                }
                return Err(AdapterError::MissingAccount(self.fields.token_mint_1));
            },
        };
        let ext = match batch.get(&self.bitmap_extension_key) {
            Some(d) => copy_bytes(d),
            None => {
                proof {
                    assert(self.required_addrs()[3] == self.bitmap_extension_key@);
                }
                return Err(AdapterError::MissingAccount(self.bitmap_extension_key));
            },
        };
        let mut up_data: Vec<Vec<u8>> = Vec::new();
        let n_up = self.up_tick_array_keys.len();
        let mut i: usize = 0;
        while i < n_up
            invariant
                0 <= i <= n_up,
                n_up == self.up_tick_array_keys@.len(),
                up_data@.len() == i,
                forall|j: int|
                    0 <= j < i ==> batch.contains_addr(
                        (#[trigger] self.up_tick_array_keys@[j])@,
                    ),
                forall|j: int|
                    0 <= j < i ==> (#[trigger] up_data@[j])@ == batch.data_at(
                        self.up_tick_array_keys@[j]@,
                    ),
            decreases n_up - i,
        {
            let key = self.up_tick_array_keys[i];
            match batch.get(&key) {
                Some(d) => {
                    up_data.push(copy_bytes(d));
                },
                None => {
                    proof {
                        assert(self.required_addrs()[4 + i as int]
                            == self.up_tick_array_keys@.map_values(|a: Addr| a@)[i as int]);
                    }
                    return Err(AdapterError::MissingAccount(key));
                },
            }
            i += 1;
        }
        let mut down_data: Vec<Vec<u8>> = Vec::new();
        let n_down = self.down_tick_array_keys.len();
        let mut k: usize = 0;
        while k < n_down
            invariant
                0 <= k <= n_down,
                n_up == self.up_tick_array_keys@.len(),
                n_down == self.down_tick_array_keys@.len(),
                down_data@.len() == k,
                forall|j: int|
                    0 <= j < k ==> batch.contains_addr(
                        (#[trigger] self.down_tick_array_keys@[j])@,
                    ),
                forall|j: int|
                    0 <= j < k ==> (#[trigger] down_data@[j])@ == batch.data_at(
                        self.down_tick_array_keys@[j]@,
                    ),
            decreases n_down - k,
        {
            let key = self.down_tick_array_keys[k];
            match batch.get(&key) {
                Some(d) => {
                    down_data.push(copy_bytes(d));
                },
                None => {
                    proof {
                        assert(self.required_addrs()[4 + n_up as int + k as int]
                            == self.down_tick_array_keys@.map_values(|a: Addr| a@)[k as int]);
                    }
                    return Err(AdapterError::MissingAccount(key));
                },
            }
            k += 1;
        }
        proof {
            assert forall|i0: int|
                0 <= i0 < self.required_addrs().len() implies batch.contains_addr(
                #[trigger] self.required_addrs()[i0],
            ) by {
                let nu = self.up_tick_array_keys@.len() as int;
                let nd = self.down_tick_array_keys@.len() as int;
                if i0 < 4 {
                    assert(self.required_addrs()[0] == self.fields.amm_config@);
                    assert(self.required_addrs()[1] == self.fields.token_mint_0@);
                    assert(self.required_addrs()[2] == self.fields.token_mint_1@);
                    assert(self.required_addrs()[3] == self.bitmap_extension_key@);
                } else if i0 < 4 + nu {
                    assert(self.required_addrs()[i0] == self.up_tick_array_keys@.map_values(
                        |a: Addr| a@,
                    )[i0 - 4]);
                } else {
                    assert(self.required_addrs()[i0] == self.down_tick_array_keys@.map_values(
                        |a: Addr| a@,
                    )[i0 - 4 - nu]);
                }
            }
        }
        Ok(
            FetchedAccounts {
                amm_config_data: cfg,
                mint_0_data: m0,
                mint_1_data: m1,
                bitmap_extension_data: ext,
                up_tick_array_data: up_data,
                down_tick_array_data: down_data,
            },
        )
    }

    /// Atomically swap a validated, decoded refresh into the mirror and
    /// re-derive the neighborhood for the new price, so the next dependency
    /// declaration reflects it. On any failure the mirror is untouched.
    pub fn commit_update(&mut self, fetched: &FetchedAccounts, new_tick: i32) -> (r: Result<
        (),
        AdapterError,
    >)
        requires
            old(self).wf(),
            fetched.up_tick_array_data@.len() == old(self).up_tick_array_keys@.len(),
            fetched.down_tick_array_data@.len() == old(self).down_tick_array_keys@.len(),
        ensures
            (match r {
                Ok(()) => {
                    &&& price_state_ok(new_tick as int, old(self).spacing())
                    &&& derivation_ok(
                        old(self).program_id@,
                        old(self).pool_key@,
                        new_tick as int,
                        old(self).spacing(),
                    )
                    &&& final(self).wf()
                    &&& final(self).synced()
                    &&& final(self).pool_key == old(self).pool_key
                    &&& final(self).program_id == old(self).program_id
                    &&& final(self).epoch == old(self).epoch
                    &&& final(self).fields == (PoolFields {
                        tick_current: new_tick,
                        ..old(self).fields
                    })
                    &&& final(self).amm_config_data@ == fetched.amm_config_data@
                    &&& final(self).mint_0_data@ == fetched.mint_0_data@
                    &&& final(self).mint_1_data@ == fetched.mint_1_data@
                    &&& final(self).bitmap_extension_data@ == fetched.bitmap_extension_data@
                    &&& final(self).tick_array_contents@.len() == old(
                        self,
                    ).up_tick_array_keys@.len() + old(self).down_tick_array_keys@.len()
                    &&& (forall|i: int|
                        0 <= i < old(self).up_tick_array_keys@.len() ==> (
                        #[trigger] final(self).tick_array_contents@[i]).0 == old(
                            self,
                        ).up_tick_array_keys@[i] && snapshot_matches(
                            final(self).tick_array_contents@[i].1,
                            fetched.up_tick_array_data@[i]@,
                        ))
                    &&& (forall|i: int|
                        0 <= i < old(self).down_tick_array_keys@.len() ==> (
                        #[trigger] final(self).tick_array_contents@[old(
                            self,
                        ).up_tick_array_keys@.len() + i]).0 == old(self).down_tick_array_keys@[i]
                            && snapshot_matches(
                            final(self).tick_array_contents@[old(
                                self,
                            ).up_tick_array_keys@.len() + i].1,
                            fetched.down_tick_array_data@[i]@,
                        ))
                },
                Err(e) => {
                    &&& e == AdapterError::DecodeError
                    &&& *final(self) == *old(self)
                    &&& !(price_state_ok(new_tick as int, old(self).spacing()) && derivation_ok(
                        old(self).program_id@,
                        old(self).pool_key@,
                        new_tick as int,
                        old(self).spacing(),
                    ))
                },
            }),
    {
        let t = new_tick as i64;
        if t < MIN_TICK || t > MAX_TICK {
            return Err(AdapterError::DecodeError);
        }
        let ext = match derive_bitmap_extension_key(&self.program_id, &self.pool_key) {
            Some(a) => a,
            None => {
                return Err(AdapterError::DecodeError);
            },
        };
        let nb = match derive_neighborhood(
            &self.program_id,
            &self.pool_key,
            new_tick,
            self.fields.tick_spacing,
        ) {
            Ok(nb) => nb,
            Err(_) => {
                return Err(AdapterError::DecodeError);
            },
        };
        let mut contents: Vec<(Addr, TickArrayContent)> = Vec::new();
        let n_up = self.up_tick_array_keys.len();
        let mut i: usize = 0;
        while i < n_up
            invariant
                0 <= i <= n_up,
                n_up == self.up_tick_array_keys@.len(),
                fetched.up_tick_array_data@.len() == n_up,
                contents@.len() == i,
                forall|j: int|
                    0 <= j < i ==> (#[trigger] contents@[j]).0 == self.up_tick_array_keys@[j]
                        && snapshot_matches(contents@[j].1, fetched.up_tick_array_data@[j]@),
            decreases n_up - i,
        {
            let c = content_of_data(&fetched.up_tick_array_data[i]);
            contents.push((self.up_tick_array_keys[i], c));
            i += 1;
        }
        let n_down = self.down_tick_array_keys.len();
        let mut k: usize = 0;
        while k < n_down
            invariant
                0 <= k <= n_down,
                n_up == self.up_tick_array_keys@.len(),
                n_down == self.down_tick_array_keys@.len(),
                fetched.down_tick_array_data@.len() == n_down,
                contents@.len() == n_up + k,
                forall|j: int|
                    0 <= j < n_up ==> (#[trigger] contents@[j]).0 == self.up_tick_array_keys@[j]
                        && snapshot_matches(contents@[j].1, fetched.up_tick_array_data@[j]@),
                forall|j: int|
                    0 <= j < k ==> (#[trigger] contents@[n_up + j]).0
                        == self.down_tick_array_keys@[j] && snapshot_matches(
                        contents@[n_up + j].1,
                        fetched.down_tick_array_data@[j]@,
                    ),
            decreases n_down - k,
        {
            let c = content_of_data(&fetched.down_tick_array_data[k]);
            contents.push((self.down_tick_array_keys[k], c));
            k += 1;
        }
        self.fields.tick_current = new_tick;
        self.bitmap_extension_key = ext;
        self.amm_config_data = copy_bytes(&fetched.amm_config_data);
        self.mint_0_data = copy_bytes(&fetched.mint_0_data);
        self.mint_1_data = copy_bytes(&fetched.mint_1_data);
        self.bitmap_extension_data = copy_bytes(&fetched.bitmap_extension_data);
        self.up_tick_array_keys = nb.0;
        self.down_tick_array_keys = nb.1;
        self.tick_array_contents = contents;
        Ok(())
    }
}

} // verus!
