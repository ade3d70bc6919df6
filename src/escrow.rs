use vstd::prelude::*;
use vstd::arithmetic::div_mod::lemma_div_is_ordered;

use crate::error::LockerError;
use crate::pubkey::Pubkey;

verus! {

/// One funded vesting arrangement: who funded it, who may claim it, the
/// unlock ladder, and how much has been paid out so far.
#[derive(Clone, Copy, Debug, PartialEq, Eq)]
pub struct VestingEscrow {
    /// One-time key the escrow's address was derived from.
    pub base: Pubkey,
    /// Who funded the escrow.
    pub sender: Pubkey,
    /// Who is entitled to claim.
    pub recipient: Pubkey,
    /// The asset held.
    pub token_mint: Pubkey,
    pub vesting_start_time: u64,
    pub cliff_time: u64,
    /// Seconds between two periodic unlocks.
    pub frequency: u64,
    /// Released at once at `cliff_time`.
    pub cliff_unlock_amount: u64,
    pub amount_per_period: u64,
    pub number_of_period: u64,
    pub update_recipient_mode: u8,
    pub cancel_mode: u8,
    /// Cumulative amount paid out.
    pub claimed_amount: u64,
    /// Zero while active; the cancellation time once cancelled.
    pub cancelled_at: u64,
}

impl VestingEscrow {
    /// The ladder is well formed: the cliff does not precede the start, and
    /// periods have a positive length whenever there are any.
    pub open spec fn valid_schedule(self) -> bool {
        &&& self.cliff_time >= self.vesting_start_time
        &&& (self.number_of_period > 0 ==> self.frequency > 0)
    }

    /// Everything the escrow will ever release.
    pub open spec fn total_vested(self) -> int {
        self.cliff_unlock_amount + self.amount_per_period * self.number_of_period
    }

    /// Whole periods after the cliff that have passed at `now`, at most
    /// `number_of_period`.
    pub open spec fn elapsed_periods(self, now: u64) -> int {
        if now < self.cliff_time || self.number_of_period == 0 {
            0
        } else {
            let p = (now - self.cliff_time) as int / self.frequency as int;
            if p < self.number_of_period {
                p
            } else {
                self.number_of_period as int
            }
        }
    }

    /// Cumulative amount unlocked at `now`.
    pub open spec fn unlocked(self, now: u64) -> int {
        if now < self.cliff_time {
            0
        } else {
            self.cliff_unlock_amount + self.amount_per_period * self.elapsed_periods(now)
        }
    }

    /// What a claim at `now` could pay out, before the caller's limit.
    pub open spec fn claimable(self, now: u64) -> int {
        if self.unlocked(now) >= self.claimed_amount {
            self.unlocked(now) - self.claimed_amount
        } else {
            0
        }
    }

    pub open spec fn is_active(self) -> bool {
        self.cancelled_at == 0
    }

    /// The record invariant: a valid ladder whose total fits an amount, and
    /// never more paid out than that total.
    pub open spec fn wf(self) -> bool {
        &&& self.valid_schedule()
        &&& self.total_vested() <= u64::MAX
        &&& self.claimed_amount <= self.total_vested()
    }

    /// What a claim of at most `max_amount` at `now` pays out, when it succeeds.
    pub open spec fn claim_payout(self, max_amount: u64, now: u64) -> int {
        if max_amount < self.claimable(now) {
            max_amount as int
        } else {
            self.claimable(now)
        }
    }

    /// The outcome of `claim`.
    pub open spec fn claim_result(self, max_amount: u64, now: u64) -> Result<u64, LockerError> {
        if self.is_active() {
            Ok(self.claim_payout(max_amount, now) as u64)
        } else {
            Err(LockerError::AlreadyCancelled)
        }
    }

    /// The record after `claim`.
    pub open spec fn claim_state(self, max_amount: u64, now: u64) -> VestingEscrow {
        if self.is_active() {
            VestingEscrow {
                claimed_amount: (self.claimed_amount + self.claim_payout(max_amount, now)) as u64,
                ..self
            }
        } else {
            self
        }
    }

    /// The outcome of `cancel`.
    pub open spec fn cancel_result(self, now: u64) -> Result<(), LockerError> {
        if self.is_active() {
            Ok(())
        } else {
            Err(LockerError::AlreadyCancelled)
        }
    }

    /// The record after `cancel`.
    pub open spec fn cancel_state(self, now: u64) -> VestingEscrow {
        if self.is_active() {
            VestingEscrow { cancelled_at: now, ..self }
        } else {
            self
        }
    }
}

impl VestingEscrow {
    /// Cumulative amount unlocked at `now`: nothing before the cliff, then the
    /// cliff amount plus one `amount_per_period` for each whole period passed.
    pub fn unlocked_amount(&self, now: u64) -> (r: Result<u64, LockerError>)
        requires
            self.number_of_period > 0 ==> self.frequency > 0,
        ensures
            self.unlocked(now) <= u64::MAX ==> r == Ok::<u64, LockerError>(
                self.unlocked(now) as u64,
            ),
            self.unlocked(now) > u64::MAX ==> r == Err::<u64, LockerError>(
                LockerError::ArithmeticOverflow,
            ),
    {
        if now < self.cliff_time {
            return Ok(0);
        }
        let mut periods: u64 = 0;
        if self.number_of_period > 0 {
            periods = (now - self.cliff_time) / self.frequency;
            if periods > self.number_of_period {
                periods = self.number_of_period;
            }
        }
        assert(periods == self.elapsed_periods(now));
        let per = self.amount_per_period as u128;
        assert(per * periods <= 0xffff_ffff_ffff_fffe_0000_0000_0000_0001u128) by (nonlinear_arith)
            requires
                per <= u64::MAX,
                periods <= u64::MAX,
        ;
        let ladder = per * (periods as u128);
        let sum = ladder + self.cliff_unlock_amount as u128;
        if sum > u64::MAX as u128 {
            Err(LockerError::ArithmeticOverflow)
        } else {
            Ok(sum as u64)
        }
    }

    /// Everything the escrow will ever release:
    /// `cliff_unlock_amount + amount_per_period * number_of_period`.
    pub fn total_vested_amount(&self) -> (r: Result<u64, LockerError>)
        ensures
            self.total_vested() <= u64::MAX ==> r == Ok::<u64, LockerError>(
                self.total_vested() as u64,
            ),
            self.total_vested() > u64::MAX ==> r == Err::<u64, LockerError>(
                LockerError::ArithmeticOverflow,
            ),
    {
        let per = self.amount_per_period as u128;
        let n = self.number_of_period as u128;
        assert(per * n <= 0xffff_ffff_ffff_fffe_0000_0000_0000_0001u128) by (nonlinear_arith)
            requires
                per <= u64::MAX,
                n <= u64::MAX,
        ;
        let ladder = per * n;
        let sum = ladder + self.cliff_unlock_amount as u128;
        if sum > u64::MAX as u128 {
            Err(LockerError::ArithmeticOverflow)
        } else {
            Ok(sum as u64)
        }
    }

    /// Whether the record keeps its invariant; a record read back from
    /// storage is checked with this before it is claimed from or cancelled.
    pub fn is_well_formed(&self) -> (r: bool)
        ensures
            r == self.wf(),
    {
        if self.cliff_time < self.vesting_start_time || (self.number_of_period > 0
            && self.frequency == 0) {
            return false;
        }
        match self.total_vested_amount() {
            Ok(total) => self.claimed_amount <= total,
            Err(_) => false,
        }
    }

    /// Pays out what is unlocked at `now` and not yet claimed, at most
    /// `max_amount`, and records it in `claimed_amount`. A payout of zero is
    /// a success that changes nothing. Fails with `AlreadyCancelled` on a
    /// cancelled escrow, leaving it as it was.
    pub fn claim(&mut self, max_amount: u64, now: u64) -> (r: Result<u64, LockerError>)
        requires
            old(self).wf(),
        ensures
            r == old(self).claim_result(max_amount, now),
            *final(self) == old(self).claim_state(max_amount, now),
            final(self).wf(),
            old(self).is_active() ==> final(self).claimed_amount == old(self).claimed_amount
                + old(self).claim_payout(max_amount, now),
            !old(self).is_active() ==> r == Err::<u64, LockerError>(LockerError::AlreadyCancelled)
                && *final(self) == *old(self),
    {
        if self.cancelled_at != 0 {
            return Err(LockerError::AlreadyCancelled);
        }
        proof {
            lemma_unlocked_at_most_total(*self, now);
        }
        let unlocked = match self.unlocked_amount(now) {
            Ok(u) => u,
            Err(e) => return Err(e),
        };
        let claimable = if unlocked >= self.claimed_amount {
            unlocked - self.claimed_amount
        } else {
            0
        };
        let payout = if max_amount < claimable {
            max_amount
        } else {
            claimable
        };
        self.claimed_amount = self.claimed_amount + payout;
        Ok(payout)
    }

    /// Ends the escrow at `now`: no claim or cancel succeeds afterwards.
    /// Fails with `AlreadyCancelled`, changing nothing, if it already ended.
    pub fn cancel(&mut self, now: u64) -> (r: Result<(), LockerError>)
        requires
            old(self).wf(),
        ensures
            r == old(self).cancel_result(now),
            *final(self) == old(self).cancel_state(now),
            final(self).wf(),
            old(self).is_active() ==> r == Ok::<(), LockerError>(()) && final(self).cancelled_at
                == now,
            !old(self).is_active() ==> r == Err::<(), LockerError>(LockerError::AlreadyCancelled)
                && *final(self) == *old(self),
    {
        if self.cancelled_at != 0 {
            return Err(LockerError::AlreadyCancelled);
        }
        self.cancelled_at = now;
        Ok(())
    }
}

/// The unlocked amount never falls as time goes on.
pub proof fn lemma_unlocked_monotone(e: VestingEscrow, t1: u64, t2: u64)
    requires
        e.valid_schedule(),
        t1 <= t2,
    ensures
        e.unlocked(t1) <= e.unlocked(t2),
{
    if t1 >= e.cliff_time {
        if e.number_of_period > 0 {
            lemma_div_is_ordered(
                (t1 - e.cliff_time) as int,
                (t2 - e.cliff_time) as int,
                e.frequency as int,
            );
        }
        let p1 = e.elapsed_periods(t1);
        let p2 = e.elapsed_periods(t2);
        assert(e.amount_per_period * p1 <= e.amount_per_period * p2) by (nonlinear_arith)
            requires
                p1 <= p2,
        ;
    }
}

/// The unlocked amount never exceeds the total the escrow will release.
pub proof fn lemma_unlocked_at_most_total(e: VestingEscrow, now: u64)
    requires
        e.valid_schedule(),
    ensures
        0 <= e.unlocked(now) <= e.total_vested(),
{
    let p = e.elapsed_periods(now);
    if now >= e.cliff_time && e.number_of_period > 0 {
        let d = (now - e.cliff_time) as int;
        assert(0 <= d / e.frequency as int) by (nonlinear_arith)
            requires
                e.frequency > 0,
                d >= 0,
        ;
    }
    assert(0 <= p <= e.number_of_period);
    assert(0 <= e.amount_per_period * p <= e.amount_per_period * e.number_of_period)
        by (nonlinear_arith)
        requires
            0 <= p <= e.number_of_period,
    ;
}

/// Before the cliff nothing is unlocked, whatever the cliff amount.
pub proof fn lemma_cliff_gating(e: VestingEscrow, now: u64)
    requires
        now < e.cliff_time,
    ensures
        e.unlocked(now) == 0,
{
}

} // verus!
