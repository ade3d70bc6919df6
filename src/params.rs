use vstd::prelude::*;

use crate::error::LockerError;
use crate::escrow::VestingEscrow;
use crate::pubkey::Pubkey;

verus! {

/// The schedule a creator asks for.
#[derive(Clone, Copy, Debug, PartialEq, Eq, Structural)]
pub struct CreateVestingEscrowParameters {
    pub vesting_start_time: u64,
    pub cliff_time: u64,
    pub frequency: u64,
    pub cliff_unlock_amount: u64,
    pub amount_per_period: u64,
    pub number_of_period: u64,
    pub update_recipient_mode: u8,
    pub cancel_mode: u8,
}

impl CreateVestingEscrowParameters {
    /// The cliff does not precede the start, and periods have a positive
    /// length whenever there are any.
    pub open spec fn valid(self) -> bool {
        &&& self.cliff_time >= self.vesting_start_time
        &&& (self.number_of_period > 0 ==> self.frequency > 0)
    }

    /// The deposit the schedule releases in all.
    pub open spec fn total_deposit(self) -> int {
        self.cliff_unlock_amount + self.amount_per_period * self.number_of_period
    }

    /// The record these parameters start: nothing claimed, not cancelled.
    pub open spec fn escrow_for(
        self,
        recipient: Pubkey,
        token_mint: Pubkey,
        sender: Pubkey,
        base: Pubkey,
    ) -> VestingEscrow {
        VestingEscrow {
            base,
            sender,
            recipient,
            token_mint,
            vesting_start_time: self.vesting_start_time,
            cliff_time: self.cliff_time,
            frequency: self.frequency,
            cliff_unlock_amount: self.cliff_unlock_amount,
            amount_per_period: self.amount_per_period,
            number_of_period: self.number_of_period,
            update_recipient_mode: self.update_recipient_mode,
            cancel_mode: self.cancel_mode,
            claimed_amount: 0,
            cancelled_at: 0,
        }
    }

    /// Why these parameters cannot start an escrow, if they cannot.
    pub open spec fn init_failure(self) -> Option<LockerError> {
        if !self.valid() {
            Some(LockerError::InvalidVestingSchedule)
        } else if self.total_deposit() > u64::MAX {
            Some(LockerError::ArithmeticOverflow)
        } else {
            None
        }
    }

    /// The deposit the schedule releases in all:
    /// `cliff_unlock_amount + amount_per_period * number_of_period`.
    pub fn get_total_deposit_amount(&self) -> (r: Result<u64, LockerError>)
        ensures
            self.total_deposit() <= u64::MAX ==> r == Ok::<u64, LockerError>(
                self.total_deposit() as u64,
            ),
            self.total_deposit() > u64::MAX ==> r == Err::<u64, LockerError>(
                LockerError::ArithmeticOverflow,
            ),
    {
        let per = self.amount_per_period as u128;
        let n = self.number_of_period as u128;
        assert(per * n <= 0xffff_ffff_ffff_fffe_0000_0000_0000_0001u128) by (nonlinear_arith)
            requires
                per <= u64::MAX,
                n <= u64::MAX,
        ;
        let sum = per * n + self.cliff_unlock_amount as u128;
        if sum > u64::MAX as u128 {
            Err(LockerError::ArithmeticOverflow)
        } else {
            Ok(sum as u64)
        }
    }

    /// Starts the escrow record for these parameters, or says why it cannot:
    /// `InvalidVestingSchedule` for a malformed ladder, `ArithmeticOverflow`
    /// when the total deposit leaves the range of `u64`.
    pub fn init_escrow(
        &self,
        recipient: Pubkey,
        token_mint: Pubkey,
        sender: Pubkey,
        base: Pubkey,
    ) -> (r: Result<VestingEscrow, LockerError>)
        ensures
            self.init_failure() matches Some(e) ==> r == Err::<VestingEscrow, LockerError>(e),
            self.init_failure() is None ==> r == Ok::<VestingEscrow, LockerError>(
                self.escrow_for(recipient, token_mint, sender, base),
            ),
            r matches Ok(e) ==> e.wf() && e.is_active(),
    {
        if self.cliff_time < self.vesting_start_time || (self.number_of_period > 0
            && self.frequency == 0) {
            return Err(LockerError::InvalidVestingSchedule);
        }
        match self.get_total_deposit_amount() {
            Err(e) => Err(e),
            Ok(_) => Ok(
                VestingEscrow {
                    base,
                    sender,
                    recipient,
                    token_mint,
                    vesting_start_time: self.vesting_start_time,
                    cliff_time: self.cliff_time,
                    frequency: self.frequency,
                    cliff_unlock_amount: self.cliff_unlock_amount,
                    amount_per_period: self.amount_per_period,
                    number_of_period: self.number_of_period,
                    update_recipient_mode: self.update_recipient_mode,
                    cancel_mode: self.cancel_mode,
                    claimed_amount: 0,
                    cancelled_at: 0,
                },
            ),
        }
    }
}

} // verus!
