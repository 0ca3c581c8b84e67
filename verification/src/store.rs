use vstd::prelude::*;
use crate::record::StakingData;
use crate::record::StakingErr;

verus! {

/// The first value bound to `k` in an association list, if any.
pub open spec fn lookup<V>(s: Seq<(Vec<u8>, V)>, k: Seq<u8>) -> Option<V>
    decreases s.len(),
{
    if s.len() == 0 {
        None
    } else if s[0].0@ == k {
        Some(s[0].1)
    } else {
        lookup(s.drop_first(), k)
    }
}

/// No two entries share a key.
pub open spec fn keys_unique<V>(s: Seq<(Vec<u8>, V)>) -> bool {
    forall|i: int, j: int| 0 <= i < j < s.len() ==> s[i].0@ != s[j].0@
}

proof fn lemma_lookup_first_match<V>(s: Seq<(Vec<u8>, V)>, k: Seq<u8>, i: int)
    requires
        0 <= i < s.len(),
        s[i].0@ == k,
        forall|j: int| 0 <= j < i ==> s[j].0@ != k,
    ensures
        lookup(s, k) == Some(s[i].1),
    decreases i,
{
    if i > 0 {
        lemma_lookup_first_match(s.drop_first(), k, i - 1);
    }
}

proof fn lemma_lookup_none<V>(s: Seq<(Vec<u8>, V)>, k: Seq<u8>)
    requires
        forall|j: int| 0 <= j < s.len() ==> s[j].0@ != k,
    ensures
        lookup(s, k) is None,
    decreases s.len(),
{
    if s.len() > 0 {
        lemma_lookup_none(s.drop_first(), k);
    }
}

proof fn lemma_lookup_push<V>(s: Seq<(Vec<u8>, V)>, p: (Vec<u8>, V), k: Seq<u8>)
    ensures
        lookup(s.push(p), k) == (match lookup(s, k) {
            Some(v) => Some(v),
            None => if p.0@ == k {
                Some(p.1)
            } else {
                None
            },
        }),
    decreases s.len(),
{
    if s.len() == 0 {
        assert(s.push(p)[0] == p);
        if p.0@ != k {
            assert(lookup(s.push(p).drop_first(), k) is None);
        }
    } else {
        assert(s.push(p)[0] == s[0]);
        assert(s.push(p).drop_first() =~= s.drop_first().push(p));
        lemma_lookup_push(s.drop_first(), p, k);
    }
}

proof fn lemma_lookup_update<V>(s: Seq<(Vec<u8>, V)>, i: int, p: (Vec<u8>, V), k: Seq<u8>)
    requires
        0 <= i < s.len(),
        p.0@ == s[i].0@,
        forall|j: int| 0 <= j < i ==> s[j].0@ != s[i].0@,
    ensures
        lookup(s.update(i, p), k) == (if k == p.0@ {
            Some(p.1)
        } else {
            lookup(s, k)
        }),
    decreases i,
{
    if i == 0 {
        assert(s.update(0, p)[0] == p);
        if p.0@ != k {
            assert(s.update(0, p).drop_first() =~= s.drop_first());
        }
    } else {
        assert(s.update(i, p)[0] == s[0]);
        assert(s.update(i, p).drop_first() =~= s.drop_first().update(i - 1, p));
        lemma_lookup_update(s.drop_first(), i - 1, p, k);
    }
}

/// Byte-for-byte equality of two keys.
pub fn bytes_eq(a: &Vec<u8>, b: &Vec<u8>) -> (r: bool)
    ensures
        r == (a@ == b@),
{
    if a.len() != b.len() {
        return false;
    }
    let n = a.len();
    let mut i: usize = 0;
    while i < n
        invariant
            n == a@.len(),
            n == b@.len(),
            i <= n,
            forall|j: int| 0 <= j < i ==> a@[j] == b@[j],
        decreases n - i,
    {
        if *vstd::slice::slice_index_get(a.as_slice(), i)
            != *vstd::slice::slice_index_get(b.as_slice(), i) {
            return false;
        }
        i = i + 1;
    }
    proof {
        assert(a@ =~= b@);
    }
    true
}

/// A copy of a byte string.
pub fn copy_bytes(v: &Vec<u8>) -> (r: Vec<u8>)
    ensures
        r@ == v@,
{
    let mut out: Vec<u8> = Vec::new();
    let n = v.len();
    let mut i: usize = 0;
    while i < n
        invariant
            n == v@.len(),
            i <= n,
            out@ =~= v@.subrange(0, i as int),
        decreases n - i,
    {
        out.push(*vstd::slice::slice_index_get(v.as_slice(), i));
        i = i + 1;
    }
    proof {
        assert(out@ =~= v@);
    }
    out
}

/// The index of the entry bound to `key`, if any.
fn find_index<V>(s: &Vec<(Vec<u8>, V)>, key: &Vec<u8>) -> (r: Option<usize>)
    ensures
        match r {
            Some(i) => i < s@.len() && s@[i as int].0@ == key@
                && (forall|j: int| 0 <= j < i ==> s@[j].0@ != key@),
            None => forall|j: int| 0 <= j < s@.len() ==> s@[j].0@ != key@,
        },
{
    let n = s.len();
    let mut i: usize = 0;
    while i < n
        invariant
            n == s@.len(),
            i <= n,
            forall|j: int| 0 <= j < i ==> s@[j].0@ != key@,
        decreases n - i,
    {
        if bytes_eq(&s[i].0, key) {
            return Some(i);
        }
        i = i + 1;
    }
    None
}

/// The per-token-identity state this program owns: one staking record and
/// one extra-accounts side table for each token identity, each keyed by the
/// token identity's address bytes.
pub struct StakingStore {
    pub records: Vec<(Vec<u8>, StakingData)>,
    pub side_tables: Vec<(Vec<u8>, Vec<u8>)>,
}

impl StakingStore {
    /// Both association lists bind each key at most once.
    pub open spec fn wf(self) -> bool {
        keys_unique(self.records@) && keys_unique(self.side_tables@)
    }

    /// The staking record of a token identity, if one was ever created.
    pub open spec fn record_of(self, k: Seq<u8>) -> Option<StakingData> {
        lookup(self.records@, k)
    }

    /// The side-table contents of a token identity, if initialized.
    pub open spec fn table_of(self, k: Seq<u8>) -> Option<Seq<u8>> {
        match lookup(self.side_tables@, k) {
            Some(v) => Some(v@),
            None => None,
        }
    }

    /// An empty ledger: no records, no side tables.
    pub fn new() -> (s: StakingStore)
        ensures
            s.wf(),
            s.records@.len() == 0,
            s.side_tables@.len() == 0,
            forall|k: Seq<u8>| s.record_of(k) is None,
            forall|k: Seq<u8>| s.table_of(k) is None,
    {
        StakingStore { records: Vec::new(), side_tables: Vec::new() }
    }

    /// Read the staking record of a token identity.
    pub fn get_record(&self, mint: &Vec<u8>) -> (r: Option<StakingData>)
        ensures
            r == self.record_of(mint@),
    {
        match find_index(&self.records, mint) {
            Some(i) => {
                proof {
                    lemma_lookup_first_match(self.records@, mint@, i as int);
                }
                Some(self.records[i].1)
            },
            None => {
                proof {
                    lemma_lookup_none(self.records@, mint@);
                }
                None
            },
        }
    }

    /// Read the side-table bytes of a token identity.
    pub fn get_side_table(&self, mint: &Vec<u8>) -> (r: Option<Vec<u8>>)
        ensures
            match r {
                Some(b) => self.table_of(mint@) == Some(b@),
                None => self.table_of(mint@) is None,
            },
    {
        match find_index(&self.side_tables, mint) {
            Some(i) => {
                proof {
                    lemma_lookup_first_match(self.side_tables@, mint@, i as int);
                }
                Some(copy_bytes(&self.side_tables[i].1))
            },
            None => {
                proof {
                    lemma_lookup_none(self.side_tables@, mint@);
                }
                None
            },
        }
    }

    /// Bind `mint` to `rec`, creating the entry if it is absent and
    /// overwriting it in place if it exists.
    pub fn set_record(&mut self, mint: &Vec<u8>, rec: StakingData)
        requires
            old(self).wf(),
        ensures
            final(self).wf(),
            final(self).record_of(mint@) == Some(rec),
            forall|k: Seq<u8>| k != mint@
                ==> final(self).record_of(k) == old(self).record_of(k),
            final(self).side_tables@ == old(self).side_tables@,
    {
        let key = copy_bytes(mint);
        match find_index(&self.records, mint) {
            Some(i) => {
                let ghost s0 = self.records@;
                self.records.remove(i);
                self.records.insert(i, (key, rec));
                proof {
                    assert(self.records@ =~= s0.update(i as int, (self.records@[i as int].0, rec)));
                    assert(self.records@[i as int].0@ == mint@);
                    lemma_lookup_update(s0, i as int, self.records@[i as int], mint@);
                    assert forall|k: Seq<u8>| k != mint@
                        implies lookup(self.records@, k) == lookup(s0, k) by {
                        lemma_lookup_update(s0, i as int, self.records@[i as int], k);
                    }
                }
            },
            None => {
                let ghost s0 = self.records@;
                self.records.push((key, rec));
                proof {
                    lemma_lookup_none(s0, mint@);
                    assert(self.records@ =~= s0.push(self.records@[s0.len() as int]));
                    lemma_lookup_push(s0, self.records@[s0.len() as int], mint@);
                    assert forall|k: Seq<u8>| k != mint@
                        implies lookup(self.records@, k) == lookup(s0, k) by {
                        lemma_lookup_push(s0, self.records@[s0.len() as int], k);
                    }
                }
            },
        }
    }

    /// Create the side table of a token identity exactly once: a second
    /// initialization fails with `AccountAlreadyExists` and leaves the
    /// stored contents untouched.
    pub fn insert_side_table(&mut self, mint: &Vec<u8>, data: Vec<u8>) -> (r: Result<(), StakingErr>)
        requires
            old(self).wf(),
        ensures
            final(self).wf(),
            old(self).table_of(mint@) is Some ==> r == Err::<(), StakingErr>(
                StakingErr::AccountAlreadyExists,
            ) && *final(self) == *old(self),
            old(self).table_of(mint@) is None ==> r is Ok
                && final(self).table_of(mint@) == Some(data@)
                && (forall|k: Seq<u8>| k != mint@
                    ==> final(self).table_of(k) == old(self).table_of(k))
                && final(self).records@ == old(self).records@,
    {
        match find_index(&self.side_tables, mint) {
            Some(i) => {
                proof {
                    lemma_lookup_first_match(self.side_tables@, mint@, i as int);
                }
                Err(StakingErr::AccountAlreadyExists)
            },
            None => {
                let key = copy_bytes(mint);
                let ghost s0 = self.side_tables@;
                proof {
                    lemma_lookup_none(s0, mint@);
                }
                self.side_tables.push((key, data));
                proof {
                    assert(self.side_tables@ =~= s0.push(self.side_tables@[s0.len() as int]));
                    lemma_lookup_push(s0, self.side_tables@[s0.len() as int], mint@);
                    assert forall|k: Seq<u8>| k != mint@
                        implies lookup(self.side_tables@, k) == lookup(s0, k) by {
                        lemma_lookup_push(s0, self.side_tables@[s0.len() as int], k);
                    }
                }
                Ok(())
            },
        }
    }
}

} // verus!
