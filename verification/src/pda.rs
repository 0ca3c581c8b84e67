use vstd::prelude::*;

verus! {

/// The address (if any) that the namespace-tagged hash-to-address scheme
/// derives from two seeds and a program id.
pub uninterp spec fn pda_of(seed0: Seq<u8>, seed1: Seq<u8>, program: Seq<u8>) -> Option<Seq<u8>>;

/// The namespace tag under which staking records live: the bytes of
/// "staking".
pub open spec fn staking_seed() -> Seq<u8> {
    seq![115u8, 116u8, 97u8, 107u8, 105u8, 110u8, 103u8]
}

/// The namespace tag under which side tables live: the bytes of
/// "extra-account-metas".
pub open spec fn table_seed() -> Seq<u8> {
    seq![
        101u8, 120u8, 116u8, 114u8, 97u8, 45u8, 97u8, 99u8, 99u8, 111u8, 117u8, 110u8, 116u8,
        45u8, 109u8, 101u8, 116u8, 97u8, 115u8,
    ]
}

/// The namespace tag of staking records, as bytes.
pub fn staking_seed_bytes() -> (v: Vec<u8>)
    ensures
        v@ == staking_seed(),
{
    let mut v: Vec<u8> = Vec::new();
    v.push(115u8);
    v.push(116u8);
    v.push(97u8);
    v.push(107u8);
    v.push(105u8);
    v.push(110u8);
    v.push(103u8);
    proof {
        assert(v@ =~= staking_seed());
    }
    v
}

/// The namespace tag of side tables, as bytes.
pub fn table_seed_bytes() -> (v: Vec<u8>)
    ensures
        v@ == table_seed(),
{
    let mut v: Vec<u8> = Vec::new();
    v.push(101u8);
    v.push(120u8);
    v.push(116u8);
    v.push(114u8);
    v.push(97u8);
    v.push(45u8);
    v.push(97u8);
    v.push(99u8);
    v.push(99u8);
    v.push(111u8);
    v.push(117u8);
    v.push(110u8);
    v.push(116u8);
    v.push(45u8);
    v.push(109u8);
    v.push(101u8);
    v.push(116u8);
    v.push(97u8);
    v.push(115u8);
    proof {
        assert(v@ =~= table_seed());
    }
    v
}

/// Relies on solana_pubkey::Pubkey::try_find_program_address: the derived
/// address is a pure function of the seeds and the program id; `None` comes
/// for a seed longer than 32 bytes, and otherwise only in the statistically
/// improbable case that no bump seed yields an off-curve address. The
/// address of a pubkey is 32 bytes.
#[verifier::external_body]
fn find_pda(seed0: &Vec<u8>, seed1: &Vec<u8>, program: &Vec<u8>) -> (r: Option<Vec<u8>>)
    requires
        program@.len() == 32,
    ensures
        match r {
            Some(a) => pda_of(seed0@, seed1@, program@) == Some(a@) && a@.len() == 32,
            None => pda_of(seed0@, seed1@, program@) is None,
        },
{
    let arr: [u8; 32] = program.as_slice().try_into().unwrap();
    let pk = solana_pubkey::Pubkey::new_from_array(arr);
    solana_pubkey::Pubkey::try_find_program_address(
        &[seed0.as_slice(), seed1.as_slice()],
        &pk,
    ).map(|(a, _bump)| a.to_bytes().to_vec())
}

/// The derived address of the staking record of a token identity.
pub fn derive_staking_record_address(mint: &Vec<u8>, program_id: &Vec<u8>) -> (r: Option<Vec<u8>>)
    requires
        program_id@.len() == 32,
    ensures
        match r {
            Some(a) => pda_of(staking_seed(), mint@, program_id@) == Some(a@),
            None => pda_of(staking_seed(), mint@, program_id@) is None,
        },
{
    let seed = staking_seed_bytes();
    find_pda(&seed, mint, program_id)
}

/// The derived address of the extra-accounts side table of a token identity.
pub fn derive_side_table_address(mint: &Vec<u8>, program_id: &Vec<u8>) -> (r: Option<Vec<u8>>)
    requires
        program_id@.len() == 32,
    ensures
        match r {
            Some(a) => pda_of(table_seed(), mint@, program_id@) == Some(a@),
            None => pda_of(table_seed(), mint@, program_id@) is None,
        },
{
    let seed = table_seed_bytes();
    find_pda(&seed, mint, program_id)
}

/// Recompute the staking record address and compare: true exactly when the
/// supplied address is the derived one.
pub fn validate_record_address(supplied: &Vec<u8>, mint: &Vec<u8>, program_id: &Vec<u8>) -> (r:
    bool)
    requires
        program_id@.len() == 32,
    ensures
        r == (pda_of(staking_seed(), mint@, program_id@) == Some(supplied@)),
{
    match derive_staking_record_address(mint, program_id) {
        Some(a) => crate::store::bytes_eq(&a, supplied),
        None => false,
    }
}

/// Recompute the side-table address and compare: true exactly when the
/// supplied address is the derived one.
pub fn validate_table_address(supplied: &Vec<u8>, mint: &Vec<u8>, program_id: &Vec<u8>) -> (r:
    bool)
    requires
        program_id@.len() == 32,
    ensures
        r == (pda_of(table_seed(), mint@, program_id@) == Some(supplied@)),
{
    match derive_side_table_address(mint, program_id) {
        Some(a) => crate::store::bytes_eq(&a, supplied),
        None => false,
    }
}

} // verus!
