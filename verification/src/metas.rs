use vstd::prelude::*;
use spl_tlv_account_resolution::account::ExtraAccountMeta;
use spl_tlv_account_resolution::seeds::Seed;
use spl_tlv_account_resolution::state::ExtraAccountMetaList;
use spl_transfer_hook_interface::instruction::ExecuteInstruction;
use crate::record::StakingErr;

verus! {

/// The packed 35-byte form of an extra-account entry built from one literal
/// seed and one account-key seed: the entry's kind tag, its 32-byte seed
/// configuration, and its two flags.
pub uninterp spec fn meta_packed(lit: Seq<u8>, index: u8, is_signer: bool, is_writable:
    bool) -> Seq<u8>;

/// The serialized one-entry extra-accounts list holding the entry whose
/// packed form is `meta`.
pub uninterp spec fn table_encoding(meta: Seq<u8>) -> Seq<u8>;

/// The byte size of an initialized extra-accounts list holding `n` entries.
pub uninterp spec fn meta_list_span(n: nat) -> nat;

/// Relies on ExtraAccountMeta::new_with_seeds: packing one literal seed and
/// one account-key seed into the 32-byte seed configuration is
/// deterministic, and succeeds exactly when the literal's packed form (two
/// header bytes plus the literal) leaves room for the account-key pair. The
/// entry is plain data of 35 bytes, handed out here in its packed form.
#[verifier::external_body]
fn meta_bytes_for_literal_and_account_key(lit: &Vec<u8>, index: u8, is_signer: bool, is_writable:
    bool) -> (r: Option<Vec<u8>>)
    requires
        lit@.len() <= 32,
    ensures
        r matches Some(v) ==> v@ == meta_packed(lit@, index, is_signer, is_writable)
            && v@.len() == 35,
        r is Some <==> lit@.len() + 4 <= 32,
{
    let seeds = [Seed::Literal { bytes: lit.clone() }, Seed::AccountKey { index }];
    let m = match ExtraAccountMeta::new_with_seeds(&seeds, is_signer, is_writable) {
        Ok(m) => m,
        Err(_) => return None,
    };
    let mut v: Vec<u8> = Vec::with_capacity(35);
    v.push(m.discriminator);
    v.extend_from_slice(&m.address_config);
    v.push(m.is_signer.0);
    v.push(m.is_writable.0);
    Some(v)
}

/// Relies on ExtraAccountMetaList::size_of: the required byte size is a
/// pure function of the entry count, and is available for any small count.
#[verifier::external_body]
fn meta_list_size(n: usize) -> (r: Option<usize>)
    ensures
        r matches Some(s) ==> s as nat == meta_list_span(n as nat),
        n <= 1024 ==> r is Some,
{
    ExtraAccountMetaList::size_of(n).ok()
}

/// Relies on ExtraAccountMetaList::init: writing a one-entry list into a
/// zeroed buffer of exactly the required size succeeds, keeps the buffer's
/// length, and fills it with bytes determined by the entry alone (the
/// instruction tag, the entry count, and the entry's packed form).
#[verifier::external_body]
fn init_one_entry_list(data: &mut Vec<u8>, meta: &Vec<u8>) -> (r: Result<(), StakingErr>)
    requires
        meta@.len() == 35,
        old(data)@.len() == meta_list_span(1),
        forall|i: int| 0 <= i < old(data)@.len() ==> old(data)@[i] == 0,
    ensures
        r is Ok,
        final(data)@.len() == old(data)@.len(),
        final(data)@ == table_encoding(meta@),
{
    let arr: [u8; 32] = meta[1..33].try_into().unwrap();
    let m = ExtraAccountMeta {
        discriminator: meta[0],
        address_config: arr,
        is_signer: (meta[33] != 0).into(),
        is_writable: (meta[34] != 0).into(),
    };
    ExtraAccountMetaList::init::<ExecuteInstruction>(data.as_mut_slice(), &[m])
        .map_err(|_| StakingErr::AccountAlreadyExists)
}

/// A zeroed byte buffer of the given length.
fn zero_bytes(n: usize) -> (v: Vec<u8>)
    ensures
        v@.len() == n,
        forall|i: int| 0 <= i < n ==> v@[i] == 0,
{
    let mut v: Vec<u8> = Vec::new();
    let mut i: usize = 0;
    while i < n
        invariant
            i <= n,
            v@.len() == i,
            forall|j: int| 0 <= j < i ==> v@[j] == 0,
        decreases n - i,
    {
        v.push(0u8);
        i = i + 1;
    }
    v
}

/// The side-table contents this program creates for every token identity:
/// the serialized one-entry list declaring the staking record (derived from
/// the "staking" tag and the mint, which the transfer runtime hands to the
/// hook at accounts index 1) as a required writable, non-signer account of
/// every transfer callback.
pub open spec fn side_table_contents() -> Seq<u8> {
    table_encoding(meta_packed(crate::pda::staking_seed(), 1u8, false, true))
}

/// Build the side-table contents: the one-entry list of
/// `side_table_contents`, and nothing else.
pub fn build_side_table_bytes() -> (r: Result<Vec<u8>, StakingErr>)
    ensures
        r matches Ok(v) ==> v@ == side_table_contents() && v@.len() == meta_list_span(1),
        r is Ok,
{
    let lit = crate::pda::staking_seed_bytes();
    let meta = match meta_bytes_for_literal_and_account_key(&lit, 1u8, false, true) {
        Some(m) => m,
        None => {
            // not reachable: the seven-byte tag and the account key fit
            return Err(StakingErr::AddressMismatch);
        },
    };
    let size = match meta_list_size(1) {
        Some(s) => s,
        None => {
            // not reachable: the size of a one-entry list is available
            return Err(StakingErr::AddressMismatch);
        },
    };
    let mut buf = zero_bytes(size);
    match init_one_entry_list(&mut buf, &meta) {
        Ok(()) => Ok(buf),
        Err(e) => Err(e),
    }
}

} // verus!
