use vstd::prelude::*;
use vstd::bytes::{
    lemma_auto_spec_u64_to_from_le_bytes, spec_u64_from_le_bytes, spec_u64_to_le_bytes,
    u64_from_le_bytes, u64_to_le_bytes,
};
use vstd::slice::slice_subrange;
use crate::record::{record_or_idle, settle_fits, spec_settle, StakingData};

verus! {

/// The fixed type-discriminator prefix of a persisted staking record.
pub open spec fn record_tag() -> Seq<u8> {
    seq![115u8, 116u8, 97u8, 107u8, 114u8, 101u8, 99u8, 49u8]
}

/// The number of bytes a persisted staking record occupies: the eight-byte
/// discriminator followed by the two 64-bit fields.
pub open spec fn record_space() -> int {
    24
}

/// The persisted form of a record: discriminator, then `starting_time` and
/// `time`, each as eight little-endian bytes.
pub open spec fn spec_serialize_record(r: StakingData) -> Seq<u8> {
    record_tag() + spec_u64_to_le_bytes(r.starting_time as u64) + spec_u64_to_le_bytes(r.time as u64)
}

/// Parsing the persisted form: succeeds only on a buffer that starts with
/// the discriminator and holds the two fields; anything else is rejected.
pub open spec fn spec_deserialize_record(b: Seq<u8>) -> Option<StakingData> {
    if b.len() >= record_space() && b.subrange(0, 8) == record_tag() {
        Some(StakingData {
            starting_time: spec_u64_from_le_bytes(b.subrange(8, 16)) as i64,
            time: spec_u64_from_le_bytes(b.subrange(16, 24)) as i64,
        })
    } else {
        None
    }
}

fn record_tag_bytes() -> (v: [u8; 8])
    ensures
        v@ == record_tag(),
{
    let v: [u8; 8] = [115u8, 116u8, 97u8, 107u8, 114u8, 101u8, 99u8, 49u8];
    proof {
        assert(v@ =~= record_tag());
    }
    v
}

/// Serialize a record into its fixed-size persisted form.
pub fn serialize_record(r: &StakingData) -> (v: Vec<u8>)
    ensures
        v@ == spec_serialize_record(*r),
        v@.len() == record_space(),
{
    proof {
        lemma_auto_spec_u64_to_from_le_bytes();
    }
    let tag = record_tag_bytes();
    let mut v: Vec<u8> = Vec::new();
    let mut i: usize = 0;
    while i < 8
        invariant
            i <= 8,
            tag@ == record_tag(),
            v@ =~= record_tag().subrange(0, i as int),
        decreases 8 - i,
    {
        v.push(tag[i]);
        i = i + 1;
    }
    assert(v@ =~= record_tag());
    let mut a = u64_to_le_bytes(#[verifier::truncate] (r.starting_time as u64));
    v.append(&mut a);
    let mut b = u64_to_le_bytes(#[verifier::truncate] (r.time as u64));
    v.append(&mut b);
    assert(v@ =~= spec_serialize_record(*r));
    v
}

/// Parse a record from its persisted form; `None` on any buffer that does
/// not carry one.
pub fn deserialize_record(bytes: &Vec<u8>) -> (r: Option<StakingData>)
    ensures
        r == spec_deserialize_record(bytes@),
{
    if bytes.len() < 24 {
        return None;
    }
    let tag = record_tag_bytes();
    let mut i: usize = 0;
    while i < 8
        invariant
            i <= 8,
            bytes@.len() >= 24,
            tag@ == record_tag(),
            forall|j: int| 0 <= j < i ==> bytes@[j] == record_tag()[j],
        decreases 8 - i,
    {
        if *vstd::slice::slice_index_get(bytes.as_slice(), i) != tag[i] {
            proof {
                assert(bytes@.subrange(0, 8)[i as int] != record_tag()[i as int]);
            }
            return None;
        }
        i = i + 1;
    }
    proof {
        assert(bytes@.subrange(0, 8) =~= record_tag());
    }
    let starting = u64_from_le_bytes(slice_subrange(bytes.as_slice(), 8, 16));
    let time = u64_from_le_bytes(slice_subrange(bytes.as_slice(), 16, 24));
    Some(StakingData { starting_time: starting as i64, time: time as i64 })
}

/// The settle transition on a record's persisted form: parse the buffer,
/// settle the open interval at `now`, and write the record back over the
/// start of the same-size storage. A buffer that does not parse is left
/// untouched: a token identity whose record was never created (or holds
/// foreign bytes) must transfer unhindered.
pub fn settle_persisted(data: &mut Vec<u8>, now: i64)
    requires
        settle_fits(record_or_idle(spec_deserialize_record(old(data)@)), now),
    ensures
        final(data)@.len() == old(data)@.len(),
        spec_deserialize_record(old(data)@) is None ==> final(data)@ == old(data)@,
        spec_deserialize_record(old(data)@) matches Some(rec) ==> final(data)@
            == spec_serialize_record(spec_settle(rec, now)) + old(data)@.skip(24),
{
    let rec = match deserialize_record(data) {
        None => {
            return ;
        },
        Some(r) => r,
    };
    let mut settled = rec;
    settled.settle(now);
    let mut out = serialize_record(&settled);
    let n = data.len();
    let mut i: usize = 24;
    while i < n
        invariant
            24 <= i <= n,
            n == data@.len(),
            out@ =~= spec_serialize_record(spec_settle(rec, now)) + data@.subrange(24, i as int),
        decreases n - i,
    {
        out.push(*vstd::slice::slice_index_get(data.as_slice(), i));
        i = i + 1;
    }
    proof {
        assert(out@ =~= spec_serialize_record(spec_settle(rec, now)) + data@.skip(24));
    }
    *data = out;
}

proof fn lemma_i64_u64_round(x: i64)
    ensures
        ((x as u64) as i64) == x,
{
    assert(((x as u64) as i64) == x) by (bit_vector);
}

/// Round trip: serializing a record of any pair of field values and parsing
/// the bytes back reproduces the identical record.
pub proof fn lemma_record_round_trip(r: StakingData)
    ensures
        spec_deserialize_record(spec_serialize_record(r)) == Some(r),
{
    lemma_auto_spec_u64_to_from_le_bytes();
    let b = spec_serialize_record(r);
    assert(b.subrange(0, 8) =~= record_tag());
    assert(b.subrange(8, 16) =~= spec_u64_to_le_bytes(r.starting_time as u64));
    assert(b.subrange(16, 24) =~= spec_u64_to_le_bytes(r.time as u64));
    lemma_i64_u64_round(r.starting_time);
    lemma_i64_u64_round(r.time);
}

} // verus!
