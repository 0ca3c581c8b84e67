use vstd::prelude::*;
use spl_transfer_hook_interface::instruction::TransferHookInstruction;
use crate::entry::{hook_addresses_valid, transfer_hook, TransferHook};
use crate::record::{record_or_idle, settle_fits, spec_settle, StakingErr};
use crate::store::StakingStore;

verus! {

/// The transfer amount carried by an interface-tagged instruction, if the
/// bytes decode to the execute tag; `None` for every other tag and for
/// undecodable bytes.
pub uninterp spec fn unpack_execute(data: Seq<u8>) -> Option<u64>;

/// Relies on TransferHookInstruction::unpack: the decoded instruction is a
/// pure function of the instruction bytes; an execute instruction carries
/// the transfer amount; bytes shorter than the eight-byte tag never decode.
#[verifier::external_body]
fn unpack_execute_amount(data: &Vec<u8>) -> (r: Option<u64>)
    ensures
        r == unpack_execute(data@),
        data@.len() < 8 ==> r is None,
{
    match TransferHookInstruction::unpack(data.as_slice()) {
        Ok(TransferHookInstruction::Execute { amount }) => Some(amount),
        Ok(TransferHookInstruction::InitializeExtraAccountMetaList { .. }) => None,
        Ok(TransferHookInstruction::UpdateExtraAccountMetaList { .. }) => None,
        Err(_) => None,
    }
}

/// The opaque dispatch entry point: the transfer runtime cannot address the
/// hook by name and instead routes an interface-tagged instruction through
/// this adapter. The execute tag is decoded and forwarded to the
/// transfer-settle callback with its amount; every other tag is rejected
/// with `InvalidInstruction` and leaves the state untouched.
pub fn fallback(store: &mut StakingStore, ctx: &TransferHook, program_id: &Vec<u8>, data:
    &Vec<u8>, now: i64) -> (r: Result<(), StakingErr>)
    requires
        old(store).wf(),
        program_id@.len() == 32,
        settle_fits(record_or_idle(old(store).record_of(ctx.mint@)), now),
    ensures
        final(store).wf(),
        final(store).side_tables@ == old(store).side_tables@,
        old(store).record_of(ctx.mint@) is None ==> *final(store) == *old(store),
        unpack_execute(data@) is None ==> r == Err::<(), StakingErr>(
            StakingErr::InvalidInstruction,
        ) && *final(store) == *old(store),
        unpack_execute(data@) is Some ==> {
            &&& !hook_addresses_valid(*ctx, program_id@) ==> r == Err::<(), StakingErr>(
                StakingErr::AddressMismatch,
            ) && *final(store) == *old(store)
            &&& hook_addresses_valid(*ctx, program_id@) ==> r is Ok && match old(
                store,
            ).record_of(ctx.mint@) {
                None => *final(store) == *old(store),
                Some(rec) => final(store).record_of(ctx.mint@) == Some(spec_settle(rec, now))
                    && (forall|k: Seq<u8>| k != ctx.mint@
                        ==> final(store).record_of(k) == old(store).record_of(k)),
            }
        },
{
    match unpack_execute_amount(data) {
        Some(amount) => transfer_hook(store, ctx, program_id, amount, now),
        None => Err(StakingErr::InvalidInstruction),
    }
}

} // verus!
