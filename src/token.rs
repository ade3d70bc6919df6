use vstd::prelude::*;

use crate::pubkey::Pubkey;

verus! {

/// What the logic reads of a token account: its address, asset and owner.
#[derive(Clone, Copy, Debug, PartialEq, Eq)]
pub struct TokenAccount {
    pub key: Pubkey,
    pub mint: Pubkey,
    pub owner: Pubkey,
}

/// Who authorises a token transfer.
#[derive(Clone, Copy, Debug, PartialEq, Eq)]
pub enum TransferAuthority {
    /// A key that signed the operation itself.
    Signer(Pubkey),
    /// The escrow, signing with the seeds its address was derived from.
    Escrow(Pubkey),
    /// A session key, countersigned by the program signer derived with `bump`.
    Session { session: Pubkey, program_signer: Pubkey, bump: u8 },
}

/// A token movement for the ledger to carry out.
#[derive(Clone, Copy, Debug, PartialEq, Eq)]
pub struct TokenTransfer {
    pub from: Pubkey,
    pub to: Pubkey,
    pub mint: Pubkey,
    pub authority: TransferAuthority,
    pub amount: u64,
}

/// A deposit from the sender's token account into the escrow's, signed by
/// the sender.
pub fn transfer_to_escrow(
    sender: Pubkey,
    sender_token: &TokenAccount,
    escrow_token: &TokenAccount,
    amount: u64,
) -> (r: TokenTransfer)
    ensures
        r == (TokenTransfer {
            from: sender_token.key,
            to: escrow_token.key,
            mint: sender_token.mint,
            authority: TransferAuthority::Signer(sender),
            amount,
        }),
{
    TokenTransfer {
        from: sender_token.key,
        to: escrow_token.key,
        mint: sender_token.mint,
        authority: TransferAuthority::Signer(sender),
        amount,
    }
}

/// A payout from the escrow's token account to the recipient's, signed by
/// the escrow itself.
pub fn transfer_to_user(
    escrow: Pubkey,
    escrow_token: &TokenAccount,
    recipient_token: &TokenAccount,
    amount: u64,
) -> (r: TokenTransfer)
    ensures
        r == (TokenTransfer {
            from: escrow_token.key,
            to: recipient_token.key,
            mint: escrow_token.mint,
            authority: TransferAuthority::Escrow(escrow),
            amount,
        }),
{
    TokenTransfer {
        from: escrow_token.key,
        to: recipient_token.key,
        mint: escrow_token.mint,
        authority: TransferAuthority::Escrow(escrow),
        amount,
    }
}

/// A deposit signed by a session key on the sender's behalf, with the
/// program signer derived with `program_signer_bump` countersigning.
pub fn transfer_to_escrow_with_session(
    signer_or_session: Pubkey,
    program_signer: Pubkey,
    program_signer_bump: u8,
    token_mint: Pubkey,
    sender_token: &TokenAccount,
    escrow_token: &TokenAccount,
    amount: u64,
) -> (r: TokenTransfer)
    ensures
        r == (TokenTransfer {
            from: sender_token.key,
            to: escrow_token.key,
            mint: token_mint,
            authority: TransferAuthority::Session {
                session: signer_or_session,
                program_signer,
                bump: program_signer_bump,
            },
            amount,
        }),
{
    TokenTransfer {
        from: sender_token.key,
        to: escrow_token.key,
        mint: token_mint,
        authority: TransferAuthority::Session {
            session: signer_or_session,
            program_signer,
            bump: program_signer_bump,
        },
        amount,
    }
}

} // verus!
