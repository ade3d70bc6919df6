use locker::{
    handle_claim_with_session, handle_create_vesting_escrow_with_session, transfer_to_escrow,
    transfer_to_escrow_with_session, transfer_to_user, ClaimWithSessionCtx,
    CreateVestingEscrowParameters, CreateVestingEscrowWithSessionCtx, Credential, LockerError,
    Pubkey, TokenAccount, TransferAuthority, TransferFeeConfig, VestingEscrow,
};

fn key(b: u8) -> Pubkey {
    Pubkey([b; 32])
}

const SENDER: u8 = 1;
const RECIPIENT: u8 = 2;
const MINT: u8 = 3;
const BASE: u8 = 4;
const ESCROW: u8 = 5;
const ESCROW_TOKEN: u8 = 6;
const RECIPIENT_TOKEN: u8 = 7;
const SESSION: u8 = 8;
const STRANGER: u8 = 9;
const OTHER_MINT: u8 = 10;
const PROGRAM_SIGNER: u8 = 11;

fn params() -> CreateVestingEscrowParameters {
    CreateVestingEscrowParameters {
        vesting_start_time: 0,
        cliff_time: 100,
        frequency: 10,
        cliff_unlock_amount: 50,
        amount_per_period: 10,
        number_of_period: 5,
        update_recipient_mode: 0,
        cancel_mode: 0,
    }
}

fn escrow() -> VestingEscrow {
    params().init_escrow(key(RECIPIENT), key(MINT), key(SENDER), key(BASE)).unwrap()
}

fn claim_ctx(cred: Credential) -> ClaimWithSessionCtx {
    ClaimWithSessionCtx {
        escrow: escrow(),
        escrow_key: key(ESCROW),
        escrow_token: TokenAccount { key: key(ESCROW_TOKEN), mint: key(MINT), owner: key(ESCROW) },
        signer_or_session: cred,
        recipient_token: TokenAccount {
            key: key(RECIPIENT_TOKEN),
            mint: key(MINT),
            owner: key(RECIPIENT),
        },
    }
}

fn session_for(user: u8) -> Credential {
    Credential::Session { session: key(SESSION), user: Some(key(user)) }
}

#[test]
fn claim_through_session_pays_recipient() {
    let mut ctx = claim_ctx(session_for(RECIPIENT));
    let t = handle_claim_with_session(&mut ctx, 30, 100).unwrap();
    assert_eq!(t.from, key(ESCROW_TOKEN));
    assert_eq!(t.to, key(RECIPIENT_TOKEN));
    assert_eq!(t.mint, key(MINT));
    assert_eq!(t.authority, TransferAuthority::Escrow(key(ESCROW)));
    assert_eq!(t.amount, 30);
    assert_eq!(ctx.escrow.claimed_amount, 30);
    let t = handle_claim_with_session(&mut ctx, 1000, 135).unwrap();
    assert_eq!(t.amount, 50);
    assert_eq!(ctx.escrow.claimed_amount, 80);
}

#[test]
fn claim_by_direct_signer_pays_recipient() {
    let mut ctx = claim_ctx(Credential::Direct { key: key(RECIPIENT), is_signer: true });
    let t = handle_claim_with_session(&mut ctx, 1000, 500).unwrap();
    assert_eq!(t.amount, 100);
    assert_eq!(ctx.escrow.claimed_amount, 100);
}

#[test]
fn scenario_d_other_user_is_not_permitted() {
    let mut ctx = claim_ctx(session_for(STRANGER));
    ctx.recipient_token.owner = key(STRANGER);
    let before = ctx;
    assert_eq!(
        handle_claim_with_session(&mut ctx, 10, 200),
        Err(LockerError::NotPermitToDoThisAction)
    );
    assert_eq!(ctx, before);
}

#[test]
fn claim_on_cancelled_escrow_fails() {
    let mut ctx = claim_ctx(session_for(RECIPIENT));
    ctx.escrow.cancel(140).unwrap();
    let before = ctx;
    assert_eq!(handle_claim_with_session(&mut ctx, 1, 200), Err(LockerError::AlreadyCancelled));
    assert_eq!(ctx, before);
}

#[test]
fn rejected_session_is_invalid_credential() {
    let mut ctx = claim_ctx(Credential::Session { session: key(SESSION), user: None });
    assert_eq!(handle_claim_with_session(&mut ctx, 1, 200), Err(LockerError::InvalidCredential));
    assert_eq!(ctx.escrow.claimed_amount, 0);
}

#[test]
fn unsigned_key_is_invalid_credential() {
    let mut ctx = claim_ctx(Credential::Direct { key: key(RECIPIENT), is_signer: false });
    assert_eq!(handle_claim_with_session(&mut ctx, 1, 200), Err(LockerError::InvalidCredential));
}

#[test]
fn payout_account_of_someone_else_is_rejected() {
    let mut ctx = claim_ctx(session_for(RECIPIENT));
    ctx.recipient_token.owner = key(STRANGER);
    assert_eq!(handle_claim_with_session(&mut ctx, 1, 200), Err(LockerError::InvalidTokenOwner));
    assert_eq!(ctx.escrow.claimed_amount, 0);
}

#[test]
fn payout_to_escrow_account_is_rejected() {
    let mut ctx = claim_ctx(session_for(RECIPIENT));
    ctx.recipient_token.key = key(ESCROW_TOKEN);
    assert_eq!(
        handle_claim_with_session(&mut ctx, 1, 200),
        Err(LockerError::InvalidRecipientTokenAccount)
    );
}

#[test]
fn payout_in_other_asset_is_rejected() {
    let mut ctx = claim_ctx(session_for(RECIPIENT));
    ctx.recipient_token.mint = key(OTHER_MINT);
    assert_eq!(
        handle_claim_with_session(&mut ctx, 1, 200),
        Err(LockerError::InvalidRecipientTokenAccount)
    );
}

#[test]
fn escrow_token_not_held_by_escrow_is_rejected() {
    let mut ctx = claim_ctx(session_for(RECIPIENT));
    ctx.escrow_token.owner = key(STRANGER);
    assert_eq!(
        handle_claim_with_session(&mut ctx, 1, 200),
        Err(LockerError::InvalidEscrowTokenAddress)
    );
}

fn create_ctx(cred: Credential) -> CreateVestingEscrowWithSessionCtx {
    CreateVestingEscrowWithSessionCtx {
        base: key(BASE),
        escrow_key: key(ESCROW),
        token_mint: key(MINT),
        escrow_token: TokenAccount { key: key(ESCROW_TOKEN), mint: key(MINT), owner: key(ESCROW) },
        signer_or_session: cred,
        sender_token: TokenAccount { key: key(20), mint: key(MINT), owner: key(RECIPIENT) },
        recipient: key(RECIPIENT),
        program_signer: key(PROGRAM_SIGNER),
        expected_program_signer: key(PROGRAM_SIGNER),
        program_signer_bump: 254,
        fee_config: None,
    }
}

#[test]
fn create_with_session_funds_escrow() {
    let ctx = create_ctx(session_for(RECIPIENT));
    let (e, t) = handle_create_vesting_escrow_with_session(&ctx, &params()).unwrap();
    assert_eq!(e.recipient, key(RECIPIENT));
    assert_eq!(e.sender, key(RECIPIENT));
    assert_eq!(e.base, key(BASE));
    assert_eq!(e.token_mint, key(MINT));
    assert_eq!(e.claimed_amount, 0);
    assert_eq!(e.cancelled_at, 0);
    assert_eq!(t.from, key(20));
    assert_eq!(t.to, key(ESCROW_TOKEN));
    assert_eq!(t.amount, 100);
    assert_eq!(
        t.authority,
        TransferAuthority::Session {
            session: key(SESSION),
            program_signer: key(PROGRAM_SIGNER),
            bump: 254,
        }
    );
}

#[test]
fn create_sizes_deposit_for_fee() {
    let mut ctx = create_ctx(session_for(RECIPIENT));
    ctx.fee_config = Some(TransferFeeConfig { transfer_fee_basis_points: 200, maximum_fee: None });
    let mut p = params();
    p.cliff_unlock_amount = 950;
    let (_, t) = handle_create_vesting_escrow_with_session(&ctx, &p).unwrap();
    assert_eq!(t.amount, 1020);
}

#[test]
fn create_needs_a_session() {
    let ctx = create_ctx(Credential::Direct { key: key(RECIPIENT), is_signer: true });
    assert_eq!(
        handle_create_vesting_escrow_with_session(&ctx, &params()),
        Err(LockerError::InvalidCredential)
    );
}

#[test]
fn create_with_rejected_session_fails() {
    let ctx = create_ctx(Credential::Session { session: key(SESSION), user: None });
    assert_eq!(
        handle_create_vesting_escrow_with_session(&ctx, &params()),
        Err(LockerError::InvalidCredential)
    );
}

#[test]
fn create_from_someone_elses_account_fails() {
    let mut ctx = create_ctx(session_for(RECIPIENT));
    ctx.sender_token.owner = key(STRANGER);
    assert_eq!(
        handle_create_vesting_escrow_with_session(&ctx, &params()),
        Err(LockerError::InvalidTokenOwner)
    );
}

#[test]
fn create_for_another_recipient_fails() {
    let mut ctx = create_ctx(session_for(RECIPIENT));
    ctx.recipient = key(STRANGER);
    assert_eq!(
        handle_create_vesting_escrow_with_session(&ctx, &params()),
        Err(LockerError::NotPermitToDoThisAction)
    );
}

#[test]
fn create_with_wrong_program_signer_fails() {
    let mut ctx = create_ctx(session_for(RECIPIENT));
    ctx.program_signer = key(STRANGER);
    assert_eq!(
        handle_create_vesting_escrow_with_session(&ctx, &params()),
        Err(LockerError::InvalidCredential)
    );
}

#[test]
fn create_from_account_of_other_asset_fails() {
    let mut ctx = create_ctx(session_for(RECIPIENT));
    ctx.sender_token.mint = key(OTHER_MINT);
    assert_eq!(
        handle_create_vesting_escrow_with_session(&ctx, &params()),
        Err(LockerError::InvalidEscrowTokenAddress)
    );
}

#[test]
fn create_with_bad_schedule_fails() {
    let ctx = create_ctx(session_for(RECIPIENT));
    let mut p = params();
    p.cliff_time = 0;
    p.vesting_start_time = 1;
    assert_eq!(
        handle_create_vesting_escrow_with_session(&ctx, &p),
        Err(LockerError::InvalidVestingSchedule)
    );
}

#[test]
fn create_with_unpayable_fee_overflows() {
    let mut ctx = create_ctx(session_for(RECIPIENT));
    ctx.fee_config = Some(TransferFeeConfig { transfer_fee_basis_points: 10000, maximum_fee: None });
    assert_eq!(
        handle_create_vesting_escrow_with_session(&ctx, &params()),
        Err(LockerError::ArithmeticOverflow)
    );
}

#[test]
fn resolve_gives_the_user() {
    assert_eq!(session_for(RECIPIENT).resolve(), Ok(key(RECIPIENT)));
    assert_eq!(
        Credential::Direct { key: key(SENDER), is_signer: true }.resolve(),
        Ok(key(SENDER))
    );
    assert!(session_for(RECIPIENT).is_session());
    assert_eq!(session_for(RECIPIENT).key(), key(SESSION));
}

#[test]
fn transfer_plans_name_accounts_and_authority() {
    let sender_token = TokenAccount { key: key(20), mint: key(MINT), owner: key(SENDER) };
    let escrow_token = TokenAccount { key: key(ESCROW_TOKEN), mint: key(MINT), owner: key(ESCROW) };
    let t = transfer_to_escrow(key(SENDER), &sender_token, &escrow_token, 42);
    assert_eq!((t.from, t.to, t.amount), (key(20), key(ESCROW_TOKEN), 42));
    assert_eq!(t.authority, TransferAuthority::Signer(key(SENDER)));
    let recipient_token =
        TokenAccount { key: key(RECIPIENT_TOKEN), mint: key(MINT), owner: key(RECIPIENT) };
    let t = transfer_to_user(key(ESCROW), &escrow_token, &recipient_token, 9);
    assert_eq!((t.from, t.to, t.amount), (key(ESCROW_TOKEN), key(RECIPIENT_TOKEN), 9));
    assert_eq!(t.authority, TransferAuthority::Escrow(key(ESCROW)));
    let t = transfer_to_escrow_with_session(
        key(SESSION),
        key(PROGRAM_SIGNER),
        7,
        key(MINT),
        &sender_token,
        &escrow_token,
        5,
    );
    assert_eq!((t.from, t.to, t.mint, t.amount), (key(20), key(ESCROW_TOKEN), key(MINT), 5));
    assert_eq!(
        t.authority,
        TransferAuthority::Session { session: key(SESSION), program_signer: key(PROGRAM_SIGNER), bump: 7 }
    );
}
