use vstd::prelude::*;

use crate::error::LockerError;
use crate::escrow::VestingEscrow;
use crate::identity::Credential;
use crate::pubkey::Pubkey;
use crate::token::{transfer_to_user, TokenAccount, TokenTransfer, TransferAuthority};

verus! {

/// What a claim reads: the escrow record and address, the escrow's token
/// account, the signer, and where the payout goes.
#[derive(Clone, Copy, Debug, PartialEq, Eq)]
pub struct ClaimWithSessionCtx {
    pub escrow: VestingEscrow,
    pub escrow_key: Pubkey,
    pub escrow_token: TokenAccount,
    pub signer_or_session: Credential,
    pub recipient_token: TokenAccount,
}

impl ClaimWithSessionCtx {
    /// The first check a claim fails, in the order they are made, if any.
    pub open spec fn claim_failure(self) -> Option<LockerError> {
        let e = self.escrow;
        if !e.is_active() {
            Some(LockerError::AlreadyCancelled)
        } else if self.escrow_token.owner != self.escrow_key || self.escrow_token.mint
            != e.token_mint {
            Some(LockerError::InvalidEscrowTokenAddress)
        } else if self.recipient_token.key == self.escrow_token.key || self.recipient_token.mint
            != e.token_mint {
            Some(LockerError::InvalidRecipientTokenAccount)
        } else if self.signer_or_session.user() is None {
            Some(LockerError::InvalidCredential)
        } else if self.signer_or_session.user().unwrap() != e.recipient {
            Some(LockerError::NotPermitToDoThisAction)
        } else if self.recipient_token.owner != self.signer_or_session.user().unwrap() {
            Some(LockerError::InvalidTokenOwner)
        } else {
            None
        }
    }
}

/// Claims for the escrow's recipient, signed by the recipient's key or by a
/// session acting for the recipient. On success the record counts the payout
/// and the transfer of that payout to `recipient_token` is returned, to be
/// carried out in the same atomic operation. On failure nothing changes.
pub fn handle_claim_with_session(
    ctx: &mut ClaimWithSessionCtx,
    max_amount: u64,
    now: u64,
) -> (r: Result<TokenTransfer, LockerError>)
    requires
        old(ctx).escrow.wf(),
    ensures
        final(ctx).escrow.wf(),
        old(ctx).claim_failure() matches Some(e) ==> r == Err::<TokenTransfer, LockerError>(e)
            && *final(ctx) == *old(ctx),
        old(ctx).claim_failure() is None ==> {
            &&& r == Ok::<TokenTransfer, LockerError>(
                TokenTransfer {
                    from: old(ctx).escrow_token.key,
                    to: old(ctx).recipient_token.key,
                    mint: old(ctx).escrow_token.mint,
                    authority: TransferAuthority::Escrow(old(ctx).escrow_key),
                    amount: old(ctx).escrow.claim_payout(max_amount, now) as u64,
                },
            )
            &&& *final(ctx) == (ClaimWithSessionCtx {
                escrow: old(ctx).escrow.claim_state(max_amount, now),
                ..*old(ctx)
            })
        },
{
    if ctx.escrow.cancelled_at != 0 {
        return Err(LockerError::AlreadyCancelled);
    }
    if ctx.escrow_token.owner != ctx.escrow_key || ctx.escrow_token.mint != ctx.escrow.token_mint {
        return Err(LockerError::InvalidEscrowTokenAddress);
    }
    if ctx.recipient_token.key == ctx.escrow_token.key || ctx.recipient_token.mint
        != ctx.escrow.token_mint {
        return Err(LockerError::InvalidRecipientTokenAccount);
    }
    let user = match ctx.signer_or_session.resolve() {
        Ok(u) => u,
        Err(e) => return Err(e),
    };
    if user != ctx.escrow.recipient {
        return Err(LockerError::NotPermitToDoThisAction);
    }
    if ctx.recipient_token.owner != user {
        return Err(LockerError::InvalidTokenOwner);
    }
    let amount = match ctx.escrow.claim(max_amount, now) {
        Ok(a) => a,
        Err(e) => return Err(e),
    };
    Ok(transfer_to_user(ctx.escrow_key, &ctx.escrow_token, &ctx.recipient_token, amount))
}

} // verus!
