use staking_hook::pda::{
    derive_side_table_address, derive_staking_record_address, validate_record_address,
    validate_table_address,
};
use staking_hook::{
    fallback, initialize_extra_account_meta_list, stake, transfer_hook,
    InitializeExtraAccountMetaList, Stake, StakingData, StakingErr, StakingStore, TransferHook,
};

fn mint_a() -> Vec<u8> {
    vec![7u8; 32]
}

fn mint_b() -> Vec<u8> {
    vec![8u8; 32]
}

fn program_id() -> Vec<u8> {
    vec![9u8; 32]
}

fn stake_ctx(mint: &[u8]) -> Stake {
    let record = derive_staking_record_address(&mint.to_vec(), &program_id()).unwrap();
    Stake {
        staker: vec![1u8; 32],
        mint: mint.to_vec(),
        token: vec![2u8; 32],
        staking_account: record,
    }
}

fn hook_ctx(mint: &[u8]) -> TransferHook {
    let record = derive_staking_record_address(&mint.to_vec(), &program_id()).unwrap();
    let table = derive_side_table_address(&mint.to_vec(), &program_id()).unwrap();
    TransferHook {
        source_token: vec![3u8; 32],
        mint: mint.to_vec(),
        destination_token: vec![4u8; 32],
        owner: vec![5u8; 32],
        extra_account_meta_list: table,
        staking_account: record,
    }
}

fn init_ctx(mint: &[u8]) -> InitializeExtraAccountMetaList {
    let table = derive_side_table_address(&mint.to_vec(), &program_id()).unwrap();
    InitializeExtraAccountMetaList {
        payer: vec![6u8; 32],
        extra_account_meta_list: table,
        mint: mint.to_vec(),
    }
}

#[test]
fn begin_staking_on_fresh_identity() {
    let mut store = StakingStore::new();
    let ctx = stake_ctx(&mint_a());
    assert_eq!(stake(&mut store, &ctx, &program_id(), 1000), Ok(()));
    assert_eq!(
        store.get_record(&mint_a()),
        Some(StakingData { starting_time: 1000, time: 0 })
    );
}

#[test]
fn settle_on_transfer_folds_interval() {
    let mut store = StakingStore::new();
    let sctx = stake_ctx(&mint_a());
    let hctx = hook_ctx(&mint_a());
    assert_eq!(stake(&mut store, &sctx, &program_id(), 1000), Ok(()));
    assert_eq!(transfer_hook(&mut store, &hctx, &program_id(), 5, 1500), Ok(()));
    assert_eq!(
        store.get_record(&mint_a()),
        Some(StakingData { starting_time: 0, time: 500 })
    );
}

#[test]
fn settle_twice_is_idempotent() {
    let mut store = StakingStore::new();
    let sctx = stake_ctx(&mint_a());
    let hctx = hook_ctx(&mint_a());
    assert_eq!(stake(&mut store, &sctx, &program_id(), 1000), Ok(()));
    assert_eq!(transfer_hook(&mut store, &hctx, &program_id(), 5, 1500), Ok(()));
    assert_eq!(transfer_hook(&mut store, &hctx, &program_id(), 5, 1600), Ok(()));
    assert_eq!(
        store.get_record(&mint_a()),
        Some(StakingData { starting_time: 0, time: 500 })
    );
}

#[test]
fn begin_twice_fails_and_preserves_record() {
    let mut store = StakingStore::new();
    let ctx = stake_ctx(&mint_a());
    assert_eq!(stake(&mut store, &ctx, &program_id(), 1000), Ok(()));
    assert_eq!(
        stake(&mut store, &ctx, &program_id(), 1200),
        Err(StakingErr::AlreadyStaked)
    );
    assert_eq!(
        store.get_record(&mint_a()),
        Some(StakingData { starting_time: 1000, time: 0 })
    );
}

#[test]
fn settle_never_creates_a_record() {
    let mut store = StakingStore::new();
    let hctx = hook_ctx(&mint_a());
    assert_eq!(transfer_hook(&mut store, &hctx, &program_id(), 1, 1500), Ok(()));
    assert_eq!(store.get_record(&mint_a()), None);
}

#[test]
fn restake_keeps_accumulated_total() {
    let mut store = StakingStore::new();
    let sctx = stake_ctx(&mint_a());
    let hctx = hook_ctx(&mint_a());
    assert_eq!(stake(&mut store, &sctx, &program_id(), 1000), Ok(()));
    assert_eq!(transfer_hook(&mut store, &hctx, &program_id(), 5, 1500), Ok(()));
    assert_eq!(stake(&mut store, &sctx, &program_id(), 1600), Ok(()));
    assert_eq!(
        store.get_record(&mint_a()),
        Some(StakingData { starting_time: 1600, time: 500 })
    );
    assert_eq!(transfer_hook(&mut store, &hctx, &program_id(), 5, 1900), Ok(()));
    assert_eq!(
        store.get_record(&mint_a()),
        Some(StakingData { starting_time: 0, time: 800 })
    );
}

#[test]
fn records_of_two_identities_are_independent() {
    let mut store = StakingStore::new();
    let ctx_a = stake_ctx(&mint_a());
    let ctx_b = stake_ctx(&mint_b());
    assert_eq!(stake(&mut store, &ctx_a, &program_id(), 100), Ok(()));
    assert_eq!(stake(&mut store, &ctx_b, &program_id(), 200), Ok(()));
    let hctx_a = hook_ctx(&mint_a());
    assert_eq!(transfer_hook(&mut store, &hctx_a, &program_id(), 1, 150), Ok(()));
    assert_eq!(
        store.get_record(&mint_a()),
        Some(StakingData { starting_time: 0, time: 50 })
    );
    assert_eq!(
        store.get_record(&mint_b()),
        Some(StakingData { starting_time: 200, time: 0 })
    );
}

#[test]
fn tampered_record_address_is_rejected_before_any_effect() {
    let mut store = StakingStore::new();
    let mut ctx = stake_ctx(&mint_a());
    ctx.staking_account[0] = ctx.staking_account[0].wrapping_add(1);
    assert_eq!(
        stake(&mut store, &ctx, &program_id(), 1000),
        Err(StakingErr::AddressMismatch)
    );
    assert_eq!(store.get_record(&mint_a()), None);

    let good = stake_ctx(&mint_a());
    assert_eq!(stake(&mut store, &good, &program_id(), 1000), Ok(()));
    let mut hctx = hook_ctx(&mint_a());
    hctx.staking_account[5] = hctx.staking_account[5].wrapping_add(1);
    assert_eq!(
        transfer_hook(&mut store, &hctx, &program_id(), 1, 1500),
        Err(StakingErr::AddressMismatch)
    );
    assert_eq!(
        store.get_record(&mint_a()),
        Some(StakingData { starting_time: 1000, time: 0 })
    );
}

#[test]
fn derivation_is_deterministic_and_namespaced() {
    let rec1 = derive_staking_record_address(&mint_a(), &program_id()).unwrap();
    let rec2 = derive_staking_record_address(&mint_a(), &program_id()).unwrap();
    assert_eq!(rec1, rec2);
    assert_eq!(rec1.len(), 32);
    let tab = derive_side_table_address(&mint_a(), &program_id()).unwrap();
    assert_ne!(rec1, tab);
    assert_ne!(rec1, mint_a());
    let other = derive_staking_record_address(&mint_b(), &program_id()).unwrap();
    assert_ne!(rec1, other);
}

#[test]
fn validation_accepts_derived_and_rejects_tampered() {
    let rec = derive_staking_record_address(&mint_a(), &program_id()).unwrap();
    assert!(validate_record_address(&rec, &mint_a(), &program_id()));
    let mut bad = rec.clone();
    bad[31] = bad[31].wrapping_add(1);
    assert!(!validate_record_address(&bad, &mint_a(), &program_id()));
    let tab = derive_side_table_address(&mint_a(), &program_id()).unwrap();
    assert!(validate_table_address(&tab, &mint_a(), &program_id()));
    assert!(!validate_table_address(&rec, &mint_a(), &program_id()));
}

#[test]
fn init_side_table_once_then_already_exists() {
    let mut store = StakingStore::new();
    let ctx = init_ctx(&mint_a());
    assert_eq!(
        initialize_extra_account_meta_list(&mut store, &ctx, &program_id()),
        Ok(())
    );
    let table = store.get_side_table(&mint_a()).unwrap();
    assert!(!table.is_empty());
    assert!(table.iter().any(|&b| b != 0));
    assert_eq!(
        initialize_extra_account_meta_list(&mut store, &ctx, &program_id()),
        Err(StakingErr::AccountAlreadyExists)
    );
    assert_eq!(store.get_side_table(&mint_a()).unwrap(), table);
}

#[test]
fn side_table_holds_the_genuine_one_entry_list() {
    let mut store = StakingStore::new();
    let ctx = init_ctx(&mint_a());
    assert_eq!(
        initialize_extra_account_meta_list(&mut store, &ctx, &program_id()),
        Ok(())
    );
    let stored = store.get_side_table(&mint_a()).unwrap();

    let meta = spl_tlv_account_resolution::account::ExtraAccountMeta::new_with_seeds(
        &[
            spl_tlv_account_resolution::seeds::Seed::Literal { bytes: b"staking".to_vec() },
            spl_tlv_account_resolution::seeds::Seed::AccountKey { index: 1 },
        ],
        false,
        true,
    )
    .unwrap();
    let size = spl_tlv_account_resolution::state::ExtraAccountMetaList::size_of(1).unwrap();
    let mut expected = vec![0u8; size];
    spl_tlv_account_resolution::state::ExtraAccountMetaList::init::<
        spl_transfer_hook_interface::instruction::ExecuteInstruction,
    >(&mut expected, &[meta])
    .unwrap();

    assert_eq!(stored, expected);
    assert_eq!(
        staking_hook::metas::build_side_table_bytes().unwrap(),
        expected
    );
}

#[test]
fn init_side_table_rejects_tampered_address() {
    let mut store = StakingStore::new();
    let mut ctx = init_ctx(&mint_a());
    ctx.extra_account_meta_list[0] = ctx.extra_account_meta_list[0].wrapping_add(1);
    assert_eq!(
        initialize_extra_account_meta_list(&mut store, &ctx, &program_id()),
        Err(StakingErr::AddressMismatch)
    );
    assert_eq!(store.get_side_table(&mint_a()), None);
}

#[test]
fn fallback_routes_execute_to_settle() {
    let mut store = StakingStore::new();
    let sctx = stake_ctx(&mint_a());
    let hctx = hook_ctx(&mint_a());
    assert_eq!(stake(&mut store, &sctx, &program_id(), 1000), Ok(()));
    let data =
        spl_transfer_hook_interface::instruction::TransferHookInstruction::Execute { amount: 42 }
            .pack();
    assert_eq!(fallback(&mut store, &hctx, &program_id(), &data, 1600), Ok(()));
    assert_eq!(
        store.get_record(&mint_a()),
        Some(StakingData { starting_time: 0, time: 600 })
    );
}

#[test]
fn fallback_rejects_other_tags() {
    let mut store = StakingStore::new();
    let hctx = hook_ctx(&mint_a());
    let short = vec![1u8, 2u8, 3u8];
    assert_eq!(
        fallback(&mut store, &hctx, &program_id(), &short, 1600),
        Err(StakingErr::InvalidInstruction)
    );
    let wrong_tag = vec![0u8; 16];
    assert_eq!(
        fallback(&mut store, &hctx, &program_id(), &wrong_tag, 1600),
        Err(StakingErr::InvalidInstruction)
    );
    let update =
        spl_transfer_hook_interface::instruction::TransferHookInstruction::UpdateExtraAccountMetaList {
            extra_account_metas: Vec::new(),
        }
        .pack();
    assert_eq!(
        fallback(&mut store, &hctx, &program_id(), &update, 1600),
        Err(StakingErr::InvalidInstruction)
    );
    assert_eq!(store.get_record(&mint_a()), None);
}
