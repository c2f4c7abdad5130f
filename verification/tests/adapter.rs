use swap_io_clmm_adapter::{
    AccountBatch, AdapterError, Addr, PoolFields, QuoteNumbers, SwapDirection, SwapIoClmmAdapter,
    TickArrayContent,
};

fn addr(tag: u8) -> Addr {
    Addr { bytes: [tag; 32] }
}

fn fields(tick_current: i32, tick_spacing: u16) -> PoolFields {
    PoolFields {
        amm_config: addr(10),
        token_mint_0: addr(11),
        token_mint_1: addr(12),
        token_vault_0: addr(13),
        token_vault_1: addr(14),
        observation_key: addr(15),
        tick_current,
        tick_spacing,
    }
}

fn adapter(tick_current: i32, tick_spacing: u16) -> SwapIoClmmAdapter {
    SwapIoClmmAdapter::new(addr(1), addr(2), 640, fields(tick_current, tick_spacing)).unwrap()
}

fn full_batch(a: &SwapIoClmmAdapter) -> AccountBatch {
    let mut batch = AccountBatch::new();
    for key in a.get_accounts_to_update() {
        batch.insert(key, vec![7, 7, 7]);
    }
    batch
}

fn quote_numbers() -> QuoteNumbers {
    QuoteNumbers {
        in_amount: 1_000,
        out_amount: 987,
        fee_amount: 3,
        fee_mint: addr(11),
        fee_pct_mantissa: 25,
        fee_pct_scale: 2,
    }
}

#[test]
fn neighborhood_is_deterministic() {
    let a = adapter(100, 10);
    let b = adapter(100, 10);
    assert_eq!(a.get_up_tick_array_keys(), b.get_up_tick_array_keys());
    assert_eq!(a.get_down_tick_array_keys(), b.get_down_tick_array_keys());
    assert_eq!(a.get_accounts_to_update(), b.get_accounts_to_update());
}

#[test]
fn dependency_declaration_is_complete_and_ordered() {
    let a = adapter(100, 10);
    let deps = a.get_accounts_to_update();
    let up = a.get_up_tick_array_keys();
    let down = a.get_down_tick_array_keys();
    assert_eq!(deps.len(), 4 + up.len() + down.len());
    assert_eq!(deps[0], addr(10));
    assert_eq!(deps[1], addr(11));
    assert_eq!(deps[2], addr(12));
    assert_eq!(deps[3], a.pool_manager().tick_array_bitmap_extension());
    for (i, k) in up.iter().enumerate() {
        assert_eq!(deps[4 + i], *k);
    }
    for (i, k) in down.iter().enumerate() {
        assert_eq!(deps[4 + up.len() + i], *k);
    }
}

#[test]
fn scenario_mid_range_pool_declares_full_neighborhood() {
    let a = adapter(100, 10);
    assert_eq!(a.get_up_tick_array_keys().len(), 5);
    assert_eq!(a.get_down_tick_array_keys().len(), 5);
    assert_eq!(a.get_accounts_to_update().len(), 14);
    assert_eq!(a.get_accounts_len(), 24);
    assert_eq!(a.get_accounts_len(), 13 + 1 + 2 * 5);
}

#[test]
fn boundary_truncates_upward_neighborhood() {
    let a = adapter(443_630, 1);
    assert_eq!(a.get_up_tick_array_keys().len(), 1);
    assert_eq!(a.get_down_tick_array_keys().len(), 5);
    assert_eq!(a.get_accounts_to_update().len(), 4 + 1 + 5);
}

#[test]
fn boundary_truncates_downward_neighborhood() {
    let a = adapter(-443_630, 1);
    assert_eq!(a.get_down_tick_array_keys().len(), 0);
    assert_eq!(a.get_up_tick_array_keys().len(), 5);
}

#[test]
fn update_with_missing_dependency_is_atomic() {
    let mut a = adapter(100, 10);
    let deps = a.get_accounts_to_update();
    let missing = deps[7];
    let mut batch = AccountBatch::new();
    for key in &deps {
        if *key != missing {
            batch.insert(*key, vec![7, 7, 7]);
        }
    }
    let mints_before = a.get_reserve_mints();
    let deps_before = a.get_accounts_to_update();
    let quote_before = a.quote(&addr(11), &addr(12), &quote_numbers()).unwrap();

    let err = a.update(&batch, 700).unwrap_err();
    assert_eq!(err, AdapterError::MissingAccount(missing));

    assert_eq!(a.get_reserve_mints(), mints_before);
    assert_eq!(a.get_accounts_to_update(), deps_before);
    let quote_after = a.quote(&addr(11), &addr(12), &quote_numbers()).unwrap();
    assert_eq!(quote_after, quote_before);
    assert_eq!(a.pool_manager().fields.tick_current, 100);
}

#[test]
fn update_replaces_state_and_rederives_neighborhood() {
    let mut a = adapter(100, 10);
    let batch = full_batch(&a);
    let old_up = a.get_up_tick_array_keys().clone();
    a.update(&batch, 1_300).unwrap();
    assert_eq!(a.pool_manager().fields.tick_current, 1_300);
    assert_eq!(a.pool_manager().amm_config_data, vec![7, 7, 7]);
    assert_eq!(a.get_up_tick_array_keys().len(), 5);
    assert_ne!(*a.get_up_tick_array_keys(), old_up);
    let b = adapter(1_300, 10);
    assert_eq!(a.get_up_tick_array_keys(), b.get_up_tick_array_keys());
    assert_eq!(a.get_down_tick_array_keys(), b.get_down_tick_array_keys());
}

#[test]
fn update_keeps_uninitialized_arrays_distinct() {
    let mut a = adapter(100, 10);
    let deps = a.get_accounts_to_update();
    let empty_one = deps[4];
    let mut batch = AccountBatch::new();
    for key in &deps {
        if *key == empty_one {
            batch.insert(*key, vec![]);
        } else {
            batch.insert(*key, vec![9]);
        }
    }
    a.update(&batch, 100).unwrap();
    let contents = &a.pool_manager().tick_array_contents;
    assert_eq!(contents.len(), 10);
    assert_eq!(contents[0].0, empty_one);
    assert!(matches!(contents[0].1, TickArrayContent::Uninitialized));
    assert!(matches!(contents[1].1, TickArrayContent::Fetched(ref d) if d == &vec![9]));
}

#[test]
fn update_rejects_out_of_range_tick() {
    let mut a = adapter(100, 10);
    let batch = full_batch(&a);
    let err = a.update(&batch, 500_000).unwrap_err();
    assert_eq!(err, AdapterError::DecodeError);
    assert_eq!(a.pool_manager().fields.tick_current, 100);
}

#[test]
fn quote_rejects_unknown_and_identical_mints() {
    let a = adapter(100, 10);
    let calc = quote_numbers();
    assert_eq!(
        a.quote(&addr(90), &addr(91), &calc).unwrap_err(),
        AdapterError::UnknownMint
    );
    assert_eq!(
        a.quote(&addr(11), &addr(91), &calc).unwrap_err(),
        AdapterError::UnknownMint
    );
    assert_eq!(
        a.quote(&addr(11), &addr(11), &calc).unwrap_err(),
        AdapterError::UnknownMint
    );
    assert_eq!(
        a.quote(&addr(12), &addr(12), &calc).unwrap_err(),
        AdapterError::UnknownMint
    );
    assert!(a.quote(&addr(11), &addr(12), &calc).is_ok());
    assert!(a.quote(&addr(12), &addr(11), &calc).is_ok());
}

#[test]
fn quote_passes_collaborator_numbers_through_verbatim() {
    let a = adapter(100, 10);
    let calc = quote_numbers();
    let q = a.quote(&addr(11), &addr(12), &calc).unwrap();
    assert_eq!(q, calc);
    assert_eq!(q.in_amount, 1_000);
    assert_eq!(q.out_amount, 987);
    assert_eq!(q.fee_amount, 3);
    assert_eq!(q.fee_pct_mantissa, 25);
    assert_eq!(q.fee_pct_scale, 2);
}

#[test]
fn swap_direction_maps_pairs_onto_token_order() {
    let a = adapter(100, 10);
    assert_eq!(
        a.swap_direction(&addr(11), &addr(12)).unwrap(),
        SwapDirection::ZeroForOne
    );
    assert_eq!(
        a.swap_direction(&addr(12), &addr(11)).unwrap(),
        SwapDirection::OneForZero
    );
    assert_eq!(
        a.swap_direction(&addr(12), &addr(13)).unwrap_err(),
        AdapterError::UnknownMint
    );
}

#[test]
fn account_count_matches_swap_account_list() {
    let a = adapter(100, 10);
    let keys = a
        .swap_account_keys(&addr(50), &addr(11), &addr(12), &addr(51), &addr(52))
        .unwrap();
    assert_eq!(keys.len(), a.get_accounts_len());
    assert_eq!(keys.len(), 24);
    assert_eq!(keys[0], addr(50));
    assert_eq!(keys[1], addr(10));
    assert_eq!(keys[2], addr(1));
    assert_eq!(keys[5], addr(13));
    assert_eq!(keys[6], addr(14));
    assert_eq!(keys[11], addr(11));
    assert_eq!(keys[12], addr(12));
}

#[test]
fn swap_account_list_follows_direction() {
    let a = adapter(100, 10);
    let keys = a
        .swap_account_keys(&addr(50), &addr(12), &addr(11), &addr(51), &addr(52))
        .unwrap();
    assert_eq!(keys[5], addr(14));
    assert_eq!(keys[6], addr(13));
    assert_eq!(keys[11], addr(12));
    assert_eq!(keys[12], addr(11));
    let err = a
        .swap_account_keys(&addr(50), &addr(90), &addr(11), &addr(51), &addr(52))
        .unwrap_err();
    assert_eq!(err, AdapterError::UnknownMint);
}

#[test]
fn cloned_adapter_is_independent() {
    let a = adapter(100, 10);
    let mut clone = a.clone_amm();
    let batch = full_batch(&clone);
    let mints_before = a.get_reserve_mints();
    let deps_before = a.get_accounts_to_update();
    clone.update(&batch, 1_300).unwrap();
    assert_eq!(clone.pool_manager().fields.tick_current, 1_300);
    assert_eq!(a.pool_manager().fields.tick_current, 100);
    assert_eq!(a.get_reserve_mints(), mints_before);
    assert_eq!(a.get_accounts_to_update(), deps_before);
}

#[test]
fn construction_rejects_short_buffer() {
    assert_eq!(
        SwapIoClmmAdapter::validate_pool_account(&vec![0; 7]).unwrap_err(),
        AdapterError::MalformedAccount
    );
    assert!(SwapIoClmmAdapter::validate_pool_account(&vec![0; 8]).is_ok());
}

#[test]
fn construction_rejects_unusable_price_state() {
    let err = SwapIoClmmAdapter::new(addr(1), addr(2), 640, fields(100, 0)).unwrap_err();
    assert_eq!(err, AdapterError::DecodeError);
    let err = SwapIoClmmAdapter::new(addr(1), addr(2), 640, fields(500_000, 10)).unwrap_err();
    assert_eq!(err, AdapterError::DecodeError);
}

#[test]
fn derived_addresses_are_real_derivations() {
    let a = adapter(100, 10);
    let up = a.get_up_tick_array_keys();
    assert_ne!(up[0], up[1]);
    assert_ne!(up[0], a.key());
    assert_ne!(a.pool_manager().tick_array_bitmap_extension(), a.key());
    assert_ne!(a.pool_manager().tick_array_bitmap_extension(), up[0]);
}

#[test]
fn identity_and_flags_are_fixed() {
    let a = adapter(100, 10);
    assert_eq!(a.key(), addr(1));
    assert_eq!(a.program_id(), addr(2));
    assert_eq!(a.epoch(), 640);
    assert_eq!(a.label(), "SWAP_IO_CLMM");
    assert_eq!(a.get_reserve_mints(), vec![addr(11), addr(12)]);
    assert!(!a.has_dynamic_accounts());
    assert!(!a.requires_update_for_reserve_mints());
    assert!(a.supports_exact_out());
    assert!(!a.unidirectional());
    assert!(a.is_active());
    assert!(a.program_dependencies().is_empty());
}

#[test]
fn batch_lookup_finds_inserted_snapshots() {
    let mut batch = AccountBatch::new();
    batch.insert(addr(3), vec![1, 2]);
    batch.insert(addr(4), vec![3]);
    assert_eq!(batch.get(&addr(3)), Some(&vec![1, 2]));
    assert_eq!(batch.get(&addr(4)), Some(&vec![3]));
    assert_eq!(batch.get(&addr(5)), None);
}

#[test]
fn prepare_and_commit_apply_fetched_snapshots() {
    let mut a = adapter(100, 10);
    let deps = a.get_accounts_to_update();
    let mut batch = AccountBatch::new();
    for (i, key) in deps.iter().enumerate() {
        batch.insert(*key, vec![i as u8; 3]);
    }
    let fetched = a.prepare_update(&batch).unwrap();
    assert_eq!(fetched.amm_config_data, vec![0u8; 3]);
    assert_eq!(fetched.mint_0_data, vec![1u8; 3]);
    assert_eq!(fetched.mint_1_data, vec![2u8; 3]);
    assert_eq!(fetched.bitmap_extension_data, vec![3u8; 3]);
    assert_eq!(fetched.up_tick_array_data.len(), 5);
    assert_eq!(fetched.up_tick_array_data[0], vec![4u8; 3]);
    assert_eq!(fetched.down_tick_array_data.len(), 5);
    assert_eq!(fetched.down_tick_array_data[4], vec![13u8; 3]);
    a.pool_manager.commit_update(&fetched, 160).unwrap();
    assert_eq!(a.pool_manager().fields.tick_current, 160);
    assert_eq!(a.pool_manager().amm_config_data, vec![0u8; 3]);
    assert_eq!(a.pool_manager().bitmap_extension_data, vec![3u8; 3]);
}

#[test]
fn error_descriptions_are_stable() {
    assert_eq!(AdapterError::MalformedAccount.describe(), "account data too short");
    assert_eq!(
        AdapterError::MissingAccount(addr(9)).describe(),
        "required account not found"
    );
    assert_eq!(
        AdapterError::DecodeError.describe(),
        "account state could not be decoded"
    );
    assert_eq!(
        AdapterError::UnknownMint.describe(),
        "mint is not traded by this pool"
    );
}
