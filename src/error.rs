use vstd::prelude::*;

verus! {

/// Every way an escrow operation can fail. A failed operation changes nothing.
#[derive(Clone, Copy, Debug, PartialEq, Eq, Structural)]
pub enum LockerError {
    /// The signing credential could not be resolved to a user.
    InvalidCredential,
    /// The resolved user is not the one the escrow names.
    NotPermitToDoThisAction,
    /// A token account said to belong to the user belongs to someone else.
    InvalidTokenOwner,
    /// The escrow was cancelled before this operation.
    AlreadyCancelled,
    /// The payout account is the escrow's own account or holds another asset.
    InvalidRecipientTokenAccount,
    /// The funding account holds another asset than the escrow.
    InvalidEscrowTokenAddress,
    /// The schedule parameters do not describe a valid vesting ladder.
    InvalidVestingSchedule,
    /// An amount left the range of `u64`.
    ArithmeticOverflow,
}

} // verus!
