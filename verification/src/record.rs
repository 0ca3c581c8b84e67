use vstd::prelude::*;

verus! {

/// Errors raised by the staking hook.
#[derive(Clone, Copy, Debug, PartialEq, Eq, Structural)]
pub enum StakingErr {
    /// Begin-staking was called while a staking interval is already open.
    AlreadyStaked,
    /// A caller-supplied address does not match the recomputed derived address.
    AddressMismatch,
    /// The opaque dispatch entry point received an unrecognized instruction tag.
    InvalidInstruction,
    /// The side table for this token identity was already initialized.
    AccountAlreadyExists,
}

/// The staking record kept for one token identity.
///
/// `starting_time == 0` means idle (not currently staking); any other value
/// is the timestamp at which the open staking interval began.
/// `time` is the running total of seconds from completed intervals.
#[derive(Clone, Copy, Debug, PartialEq, Eq, Structural)]
pub struct StakingData {
    pub starting_time: i64,
    pub time: i64,
}

/// The state a record is considered to have before it was ever created:
/// idle, with nothing accumulated.
pub open spec fn record_or_idle(o: Option<StakingData>) -> StakingData {
    match o {
        Some(r) => r,
        None => StakingData { starting_time: 0, time: 0 },
    }
}

/// The begin-staking transition: allowed only from the idle state, where it
/// opens an interval at `now` and keeps the accumulated total; from the
/// active state it fails with `AlreadyStaked` and changes nothing.
pub open spec fn spec_begin(r: StakingData, now: i64) -> Result<StakingData, StakingErr> {
    if r.starting_time == 0 {
        Ok(StakingData { starting_time: now, time: r.time })
    } else {
        Err(StakingErr::AlreadyStaked)
    }
}

/// The accumulated total stays a 64-bit value when settling at `now`.
pub open spec fn settle_fits(r: StakingData, now: i64) -> bool {
    r.starting_time != 0 ==> i64::MIN <= r.time + now - r.starting_time <= i64::MAX
}

/// The settle-on-transfer transition: from the active state it folds the
/// interval `now - starting_time` into the accumulated total and returns to
/// idle; from the idle state it is a no-op, never an error.
pub open spec fn spec_settle(r: StakingData, now: i64) -> StakingData {
    if r.starting_time != 0 {
        StakingData { starting_time: 0, time: (r.time + now - r.starting_time) as i64 }
    } else {
        r
    }
}

impl StakingData {
    /// Begin a staking interval at `now`.
    pub fn begin(&mut self, now: i64) -> (r: Result<(), StakingErr>)
        ensures
            match spec_begin(*old(self), now) {
                Ok(r2) => r is Ok && *final(self) == r2,
                Err(e) => r == Err::<(), StakingErr>(e) && *final(self) == *old(self),
            },
            r is Ok <==> old(self).starting_time == 0,
    {
        if self.starting_time == 0 {
            self.starting_time = now;
            Ok(())
        } else {
            Err(StakingErr::AlreadyStaked)
        }
    }

    /// Settle the open staking interval, if any, at `now`.
    pub fn settle(&mut self, now: i64)
        requires
            settle_fits(*old(self), now),
        ensures
            *final(self) == spec_settle(*old(self), now),
    {
        if self.starting_time != 0 {
            let total: i128 = self.time as i128 + now as i128 - self.starting_time as i128;
            self.time = total as i64;
            self.starting_time = 0;
        }
    }
}

/// Begin-staking is not idempotent: once an interval is open (a begin at a
/// nonzero time), a second begin without an intervening settle fails with
/// `AlreadyStaked` and leaves the record exactly as the first call made it.
pub proof fn lemma_begin_twice(r: StakingData, t1: i64, t2: i64)
    requires
        r.starting_time == 0,
        t1 != 0,
    ensures
        spec_begin(r, t1) == Ok::<StakingData, StakingErr>(StakingData { starting_time: t1, time: r.time }),
        spec_begin((StakingData { starting_time: t1, time: r.time }), t2)
            == Err::<StakingData, StakingErr>(StakingErr::AlreadyStaked),
{
}

/// Settling an active record at `t1 >= t0` folds `t1 - t0` into the
/// accumulated total and closes the interval; settling again at any later
/// time is a no-op: settling is idempotent once the record is idle.
pub proof fn lemma_settle_once(r: StakingData, t0: i64, t1: i64)
    requires
        r.starting_time == t0,
        t0 != 0,
        t1 >= t0,
        settle_fits(r, t1),
    ensures
        spec_settle(r, t1) == (StakingData { starting_time: 0, time: (r.time + t1 - t0) as i64 }),
        forall|t2: i64| spec_settle(spec_settle(r, t1), t2) == spec_settle(r, t1),
{
}

} // verus!
