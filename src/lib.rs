//! Token-vesting escrow: schedule arithmetic, claim and cancel accounting,
//! credential resolution and fee-inclusive deposit sizing.

mod claim_with_session;
mod create_vesting_escrow_with_session;
mod error;
mod escrow;
mod fee;
mod identity;
mod laws;
mod params;
mod pubkey;
mod token;

pub use claim_with_session::{handle_claim_with_session, ClaimWithSessionCtx};
pub use create_vesting_escrow_with_session::{
    handle_create_vesting_escrow_with_session, CreateVestingEscrowWithSessionCtx,
};
pub use error::LockerError;
pub use escrow::{lemma_cliff_gating, lemma_unlocked_at_most_total, lemma_unlocked_monotone};
pub use escrow::VestingEscrow;
pub use fee::{
    fits_u64, gross_for_net, lemma_gross_for_net_round_trip, least_gross_for, net_after_fee, net_received,
    TransferFeeConfig, ONE_IN_BASIS_POINTS,
};
pub use identity::Credential;
pub use laws::{
    after_claims, after_ops, lemma_cancel_terminal, lemma_claim_idempotent, lemma_claim_step,
    lemma_claims_monotone, op_fails_cancelled, op_state, EscrowOp,
};
pub use params::CreateVestingEscrowParameters;
pub use pubkey::Pubkey;
pub use token::{
    transfer_to_escrow, transfer_to_escrow_with_session, transfer_to_user, TokenAccount,
    TokenTransfer, TransferAuthority,
};
