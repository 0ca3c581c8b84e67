use vstd::prelude::*;
use crate::metas::{build_side_table_bytes, side_table_contents};
use crate::pda::{pda_of, staking_seed, table_seed, validate_record_address, validate_table_address};
use crate::record::{record_or_idle, settle_fits, spec_begin, spec_settle, StakingData, StakingErr};
use crate::store::StakingStore;

verus! {

/// The accounts a caller hands to the side-table initialization: the payer,
/// the side table's address, and the token identity.
pub struct InitializeExtraAccountMetaList {
    pub payer: Vec<u8>,
    pub extra_account_meta_list: Vec<u8>,
    pub mint: Vec<u8>,
}

/// The accounts the transfer runtime hands to the hook: the two token
/// accounts of the transfer, the token identity, the owning authority, and
/// the two derived addresses.
pub struct TransferHook {
    pub source_token: Vec<u8>,
    pub mint: Vec<u8>,
    pub destination_token: Vec<u8>,
    pub owner: Vec<u8>,
    pub extra_account_meta_list: Vec<u8>,
    pub staking_account: Vec<u8>,
}

/// The accounts a caller hands to begin-staking: the staker, the token
/// identity, the staker's token account, and the record's address.
pub struct Stake {
    pub staker: Vec<u8>,
    pub mint: Vec<u8>,
    pub token: Vec<u8>,
    pub staking_account: Vec<u8>,
}

/// Both addresses the transfer runtime supplied match their derivations.
pub open spec fn hook_addresses_valid(ctx: TransferHook, program: Seq<u8>) -> bool {
    &&& pda_of(staking_seed(), ctx.mint@, program) == Some(ctx.staking_account@)
    &&& pda_of(table_seed(), ctx.mint@, program) == Some(ctx.extra_account_meta_list@)
}

/// Begin staking for a token identity: validates the supplied record
/// address, lazily creates the record in the idle state, and opens a
/// staking interval at `now`; fails with `AlreadyStaked` if one is open.
pub fn stake(store: &mut StakingStore, ctx: &Stake, program_id: &Vec<u8>, now: i64) -> (r:
    Result<(), StakingErr>)
    requires
        old(store).wf(),
        program_id@.len() == 32,
    ensures
        final(store).wf(),
        final(store).side_tables@ == old(store).side_tables@,
        pda_of(staking_seed(), ctx.mint@, program_id@) != Some(ctx.staking_account@)
            ==> r == Err::<(), StakingErr>(StakingErr::AddressMismatch)
                && *final(store) == *old(store),
        pda_of(staking_seed(), ctx.mint@, program_id@) == Some(ctx.staking_account@)
            ==> match spec_begin(record_or_idle(old(store).record_of(ctx.mint@)), now) {
                Ok(r2) => r is Ok && final(store).record_of(ctx.mint@) == Some(r2)
                    && (forall|k: Seq<u8>| k != ctx.mint@
                        ==> final(store).record_of(k) == old(store).record_of(k)),
                Err(e) => r == Err::<(), StakingErr>(e) && *final(store) == *old(store),
            },
{
    if !validate_record_address(&ctx.staking_account, &ctx.mint, program_id) {
        return Err(StakingErr::AddressMismatch);
    }
    let mut rec = match store.get_record(&ctx.mint) {
        Some(r0) => r0,
        None => StakingData { starting_time: 0, time: 0 },
    };
    match rec.begin(now) {
        Ok(()) => {
            store.set_record(&ctx.mint, rec);
            Ok(())
        },
        Err(e) => Err(e),
    }
}

/// The transfer-settle callback: validates both supplied addresses, then
/// settles the open staking interval of the token identity, if any. A token
/// identity whose record was never created transfers unhindered: nothing is
/// created and no error is raised.
pub fn transfer_hook(store: &mut StakingStore, ctx: &TransferHook, program_id: &Vec<u8>, amount:
    u64, now: i64) -> (r: Result<(), StakingErr>)
    requires
        old(store).wf(),
        program_id@.len() == 32,
        settle_fits(record_or_idle(old(store).record_of(ctx.mint@)), now),
    ensures
        final(store).wf(),
        final(store).side_tables@ == old(store).side_tables@,
        old(store).record_of(ctx.mint@) is None ==> *final(store) == *old(store),
        !hook_addresses_valid(*ctx, program_id@) ==> r == Err::<(), StakingErr>(
            StakingErr::AddressMismatch,
        ) && *final(store) == *old(store),
        hook_addresses_valid(*ctx, program_id@) ==> r is Ok && match old(store).record_of(
            ctx.mint@,
        ) {
            None => *final(store) == *old(store),
            Some(rec) => final(store).record_of(ctx.mint@) == Some(spec_settle(rec, now))
                && (forall|k: Seq<u8>| k != ctx.mint@
                    ==> final(store).record_of(k) == old(store).record_of(k)),
        },
{
    let _ = amount;
    if !validate_record_address(&ctx.staking_account, &ctx.mint, program_id) {
        return Err(StakingErr::AddressMismatch);
    }
    if !validate_table_address(&ctx.extra_account_meta_list, &ctx.mint, program_id) {
        return Err(StakingErr::AddressMismatch);
    }
    match store.get_record(&ctx.mint) {
        None => Ok(()),
        Some(rec) => {
            if rec.starting_time != 0 {
                let mut settled = rec;
                settled.settle(now);
                store.set_record(&ctx.mint, settled);
            }
            Ok(())
        },
    }
}

/// One-time bootstrap of the extra-accounts side table of a token identity:
/// validates the supplied side-table address, then creates and fills the
/// table that tells the transfer runtime to attach the staking record to
/// every future transfer. A second call for the same token identity fails
/// with `AccountAlreadyExists` and preserves the stored contents.
pub fn initialize_extra_account_meta_list(store: &mut StakingStore, ctx:
    &InitializeExtraAccountMetaList, program_id: &Vec<u8>) -> (r: Result<(), StakingErr>)
    requires
        old(store).wf(),
        program_id@.len() == 32,
    ensures
        final(store).wf(),
        final(store).records@ == old(store).records@,
        pda_of(table_seed(), ctx.mint@, program_id@) != Some(ctx.extra_account_meta_list@)
            ==> r == Err::<(), StakingErr>(StakingErr::AddressMismatch)
                && *final(store) == *old(store),
        pda_of(table_seed(), ctx.mint@, program_id@) == Some(ctx.extra_account_meta_list@)
            ==> match old(store).table_of(ctx.mint@) {
                Some(_) => r == Err::<(), StakingErr>(StakingErr::AccountAlreadyExists)
                    && *final(store) == *old(store),
                None => r is Ok
                    && final(store).table_of(ctx.mint@) == Some(side_table_contents())
                    && (forall|k: Seq<u8>| k != ctx.mint@
                        ==> final(store).table_of(k) == old(store).table_of(k)),
            },
{
    if !validate_table_address(&ctx.extra_account_meta_list, &ctx.mint, program_id) {
        return Err(StakingErr::AddressMismatch);
    }
    let bytes = match build_side_table_bytes() {
        Ok(b) => b,
        Err(e) => {
            return Err(e);
        },
    };
    store.insert_side_table(&ctx.mint, bytes)
}

} // verus!
