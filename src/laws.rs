use vstd::prelude::*;

use crate::error::LockerError;
use crate::escrow::{lemma_unlocked_at_most_total, VestingEscrow};

verus! {

/// An operation on an escrow record, as a caller issues it.
pub enum EscrowOp {
    Claim { max_amount: u64, now: u64 },
    Cancel { now: u64 },
}

/// The record after one operation.
pub open spec fn op_state(e: VestingEscrow, op: EscrowOp) -> VestingEscrow {
    match op {
        EscrowOp::Claim { max_amount, now } => e.claim_state(max_amount, now),
        EscrowOp::Cancel { now } => e.cancel_state(now),
    }
}

/// Whether one operation fails because the escrow was cancelled.
pub open spec fn op_fails_cancelled(e: VestingEscrow, op: EscrowOp) -> bool {
    match op {
        EscrowOp::Claim { max_amount, now } => e.claim_result(max_amount, now) == Err::<
            u64,
            LockerError,
        >(LockerError::AlreadyCancelled),
        EscrowOp::Cancel { now } => e.cancel_result(now) == Err::<(), LockerError>(
            LockerError::AlreadyCancelled,
        ),
    }
}

/// The record after the first `k` operations of `ops`.
pub open spec fn after_ops(e: VestingEscrow, ops: Seq<EscrowOp>, k: nat) -> VestingEscrow
    decreases k,
{
    if k == 0 {
        e
    } else {
        op_state(after_ops(e, ops, (k - 1) as nat), ops[k - 1])
    }
}

/// The record after the first `k` claims of `claims`, each a pair of
/// `max_amount` and `now`.
pub open spec fn after_claims(e: VestingEscrow, claims: Seq<(u64, u64)>, k: nat) -> VestingEscrow
    decreases k,
{
    if k == 0 {
        e
    } else {
        let c = claims[k - 1];
        after_claims(e, claims, (k - 1) as nat).claim_state(c.0, c.1)
    }
}

/// One claim keeps the record well formed, leaves the schedule alone and
/// never lowers `claimed_amount`.
pub proof fn lemma_claim_step(e: VestingEscrow, max_amount: u64, now: u64)
    requires
        e.wf(),
    ensures
        e.claim_state(max_amount, now).wf(),
        e.claim_state(max_amount, now).total_vested() == e.total_vested(),
        e.claimed_amount <= e.claim_state(max_amount, now).claimed_amount,
{
    lemma_unlocked_at_most_total(e, now);
}

/// Claims only ever raise `claimed_amount`, and it never exceeds the total
/// the escrow releases, whatever the sequence of claims.
pub proof fn lemma_claims_monotone(e: VestingEscrow, claims: Seq<(u64, u64)>)
    requires
        e.wf(),
    ensures
        forall|k: nat|
            k < claims.len() ==> (#[trigger] after_claims(e, claims, k)).claimed_amount
                <= after_claims(e, claims, k + 1).claimed_amount,
        forall|k: nat|
            k <= claims.len() ==> (#[trigger] after_claims(e, claims, k)).claimed_amount
                <= e.total_vested(),
    decreases claims.len(),
{
    assert forall|k: nat| k <= claims.len() implies {
        &&& (#[trigger] after_claims(e, claims, k)).wf()
        &&& after_claims(e, claims, k).total_vested() == e.total_vested()
    } by {
        lemma_claims_wf(e, claims, k);
    }
    assert forall|k: nat| k < claims.len() implies (#[trigger] after_claims(
        e,
        claims,
        k,
    )).claimed_amount <= after_claims(e, claims, k + 1).claimed_amount by {
        lemma_claims_wf(e, claims, k);
        let c = claims[k as int];
        lemma_claim_step(after_claims(e, claims, k), c.0, c.1);
    }
}

proof fn lemma_claims_wf(e: VestingEscrow, claims: Seq<(u64, u64)>, k: nat)
    requires
        e.wf(),
    ensures
        after_claims(e, claims, k).wf(),
        after_claims(e, claims, k).total_vested() == e.total_vested(),
    decreases k,
{
    if k > 0 {
        lemma_claims_wf(e, claims, (k - 1) as nat);
        let c = claims[k - 1];
        lemma_claim_step(after_claims(e, claims, (k - 1) as nat), c.0, c.1);
    }
}

/// Once everything unlocked at `now` has been claimed, claiming again at the
/// same `now` pays nothing and leaves the record as it is.
pub proof fn lemma_claim_idempotent(e: VestingEscrow, max_amount: u64, now: u64)
    requires
        e.wf(),
        e.is_active(),
        e.claimed_amount == e.unlocked(now),
    ensures
        e.claim_result(max_amount, now) == Ok::<u64, LockerError>(0),
        e.claim_state(max_amount, now) == e,
{
}

/// After a cancellation, every later claim and every later cancel fails with
/// `AlreadyCancelled` and leaves the record as the cancellation left it.
/// (A cancellation stamped with time zero cannot be told from an active
/// record, so the law is stated for later times.)
pub proof fn lemma_cancel_terminal(e: VestingEscrow, now: u64, later: Seq<EscrowOp>)
    requires
        e.wf(),
        e.is_active(),
        now > 0,
    ensures
        e.cancel_result(now) == Ok::<(), LockerError>(()),
        forall|k: nat|
            k <= later.len() ==> #[trigger] after_ops(e.cancel_state(now), later, k)
                == e.cancel_state(now),
        forall|k: nat|
            k < later.len() ==> op_fails_cancelled(
                #[trigger] after_ops(e.cancel_state(now), later, k),
                later[k as int],
            ),
{
    let c = e.cancel_state(now);
    assert forall|k: nat| k <= later.len() implies #[trigger] after_ops(c, later, k) == c by {
        lemma_ops_keep_cancelled(c, later, k);
    }
    assert forall|k: nat| k < later.len() implies op_fails_cancelled(
        #[trigger] after_ops(c, later, k),
        later[k as int],
    ) by {
        lemma_ops_keep_cancelled(c, later, k);
    }
}

proof fn lemma_ops_keep_cancelled(c: VestingEscrow, ops: Seq<EscrowOp>, k: nat)
    requires
        !c.is_active(),
    ensures
        after_ops(c, ops, k) == c,
    decreases k,
{
    if k > 0 {
        lemma_ops_keep_cancelled(c, ops, (k - 1) as nat);
    }
}

} // verus!
