use vstd::prelude::*;

use crate::error::LockerError;
use crate::escrow::VestingEscrow;
use crate::fee::{fits_u64, gross_for_net, least_gross_for, TransferFeeConfig};
use crate::identity::Credential;
use crate::params::CreateVestingEscrowParameters;
use crate::pubkey::Pubkey;
use crate::token::{transfer_to_escrow_with_session, TokenAccount, TokenTransfer, TransferAuthority};

verus! {

/// What a session-signed creation reads: the new escrow's keys and token
/// account, the session, the funding account, the named recipient, the
/// program signer handed in and the one the platform derives, and the
/// asset's transfer fee, if it has one.
#[derive(Clone, Copy, Debug, PartialEq, Eq)]
pub struct CreateVestingEscrowWithSessionCtx {
    pub base: Pubkey,
    pub escrow_key: Pubkey,
    pub token_mint: Pubkey,
    pub escrow_token: TokenAccount,
    pub signer_or_session: Credential,
    pub sender_token: TokenAccount,
    pub recipient: Pubkey,
    pub program_signer: Pubkey,
    pub expected_program_signer: Pubkey,
    pub program_signer_bump: u8,
    pub fee_config: Option<TransferFeeConfig>,
}

impl CreateVestingEscrowWithSessionCtx {
    /// The first check a creation fails, in the order they are made, if any.
    pub open spec fn create_failure(self, params: CreateVestingEscrowParameters) -> Option<
        LockerError,
    > {
        if self.sender_token.mint != self.token_mint {
            Some(LockerError::InvalidEscrowTokenAddress)
        } else if self.escrow_token.owner != self.escrow_key || self.escrow_token.mint
            != self.token_mint {
            Some(LockerError::InvalidEscrowTokenAddress)
        } else if !self.signer_or_session.is_session_spec() || self.signer_or_session.user() is None {
            Some(LockerError::InvalidCredential)
        } else if self.sender_token.owner != self.signer_or_session.user().unwrap() {
            Some(LockerError::InvalidTokenOwner)
        } else if self.recipient != self.signer_or_session.user().unwrap() {
            Some(LockerError::NotPermitToDoThisAction)
        } else if self.program_signer != self.expected_program_signer {
            Some(LockerError::InvalidCredential)
        } else if params.init_failure() is Some {
            params.init_failure()
        } else if !fits_u64(least_gross_for(self.fee_config, params.total_deposit())) {
            Some(LockerError::ArithmeticOverflow)
        } else {
            None
        }
    }
}

/// Creates an escrow funded through a session: the session must resolve to
/// a user who owns the funding account and is the named recipient. Returns
/// the new record and the deposit transfer, sized so that the escrow
/// receives the full schedule total after the asset's transfer fee.
pub fn handle_create_vesting_escrow_with_session(
    ctx: &CreateVestingEscrowWithSessionCtx,
    params: &CreateVestingEscrowParameters,
) -> (r: Result<(VestingEscrow, TokenTransfer), LockerError>)
    requires
        ctx.fee_config matches Some(cfg) ==> cfg.wf(),
    ensures
        ctx.create_failure(*params) matches Some(e) ==> r == Err::<
            (VestingEscrow, TokenTransfer),
            LockerError,
        >(e),
        ctx.create_failure(*params) is None ==> r == Ok::<
            (VestingEscrow, TokenTransfer),
            LockerError,
        >(
            (
                params.escrow_for(ctx.recipient, ctx.token_mint, ctx.recipient, ctx.base),
                TokenTransfer {
                    from: ctx.sender_token.key,
                    to: ctx.escrow_token.key,
                    mint: ctx.token_mint,
                    authority: TransferAuthority::Session {
                        session: ctx.signer_or_session.signer_key(),
                        program_signer: ctx.program_signer,
                        bump: ctx.program_signer_bump,
                    },
                    amount: least_gross_for(ctx.fee_config, params.total_deposit()).unwrap() as u64,
                },
            ),
        ),
        r matches Ok(v) ==> v.0.wf() && v.0.is_active(),
{
    if ctx.sender_token.mint != ctx.token_mint {
        return Err(LockerError::InvalidEscrowTokenAddress);
    }
    if ctx.escrow_token.owner != ctx.escrow_key || ctx.escrow_token.mint != ctx.token_mint {
        return Err(LockerError::InvalidEscrowTokenAddress);
    }
    if !ctx.signer_or_session.is_session() {
        return Err(LockerError::InvalidCredential);
    }
    let user = match ctx.signer_or_session.resolve() {
        Ok(u) => u,
        Err(e) => return Err(e),
    };
    if ctx.sender_token.owner != user {
        return Err(LockerError::InvalidTokenOwner);
    }
    if ctx.recipient != user {
        return Err(LockerError::NotPermitToDoThisAction);
    }
    if ctx.program_signer != ctx.expected_program_signer {
        return Err(LockerError::InvalidCredential);
    }
    let escrow = match params.init_escrow(ctx.recipient, ctx.sender_token.mint, user, ctx.base) {
        Ok(e) => e,
        Err(e) => return Err(e),
    };
    let total = match params.get_total_deposit_amount() {
        Ok(t) => t,
        Err(e) => return Err(e),
    };
    let gross = match gross_for_net(total, &ctx.fee_config) {
        Ok(g) => g,
        Err(e) => return Err(e),
    };
    let deposit = transfer_to_escrow_with_session(
        ctx.signer_or_session.key(),
        ctx.program_signer,
        ctx.program_signer_bump,
        ctx.token_mint,
        &ctx.sender_token,
        &ctx.escrow_token,
        gross,
    );
    Ok((escrow, deposit))
}

} // verus!
