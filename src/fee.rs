use vstd::prelude::*;
use vstd::arithmetic::div_mod::{lemma_fundamental_div_mod, lemma_mod_pos_bound};
use vstd::arithmetic::mul::lemma_mul_inequality;

use crate::error::LockerError;

verus! {

/// Basis points in one whole.
pub const ONE_IN_BASIS_POINTS: u64 = 10000;

/// A proportional transfer fee that the token itself charges: a rate in
/// basis points, rounded down, and an optional cap on a single fee.
#[derive(Clone, Copy, Debug, PartialEq, Eq, Structural)]
pub struct TransferFeeConfig {
    pub transfer_fee_basis_points: u16,
    pub maximum_fee: Option<u64>,
}

impl TransferFeeConfig {
    /// The rate is at most one whole.
    pub open spec fn wf(self) -> bool {
        self.transfer_fee_basis_points <= ONE_IN_BASIS_POINTS
    }

    /// The fee charged on a transfer of `amount`.
    pub open spec fn fee_on(self, amount: int) -> int {
        let raw = amount * self.transfer_fee_basis_points as int / ONE_IN_BASIS_POINTS as int;
        match self.maximum_fee {
            Some(cap) => if raw < cap {
                raw
            } else {
                cap as int
            },
            None => raw,
        }
    }

    /// The fee charged on a transfer of `amount`.
    pub fn calculate_fee(&self, amount: u64) -> (r: u64)
        requires
            self.wf(),
        ensures
            r == self.fee_on(amount as int),
    {
        let bps = self.transfer_fee_basis_points as u128;
        assert(amount * bps <= amount * 10000) by (nonlinear_arith)
            requires
                bps <= 10000,
        ;
        let raw128 = (amount as u128) * bps / (ONE_IN_BASIS_POINTS as u128);
        assert(raw128 <= amount) by (nonlinear_arith)
            requires
                raw128 == amount * bps / 10000,
                bps <= 10000,
        ;
        let raw = raw128 as u64;
        match self.maximum_fee {
            Some(cap) => if raw < cap {
                raw
            } else {
                cap
            },
            None => raw,
        }
    }
}

/// What arrives when `gross` is sent, under the fee or under none.
pub open spec fn net_after_fee(fee_config: Option<TransferFeeConfig>, gross: int) -> int {
    match fee_config {
        Some(cfg) => gross - cfg.fee_on(gross),
        None => gross,
    }
}

/// The least gross amount whose transfer delivers at least `net`, or `None`
/// where no amount does.
pub open spec fn least_gross_for(fee_config: Option<TransferFeeConfig>, net: int) -> Option<int> {
    match fee_config {
        None => Some(net),
        Some(cfg) => if net <= 0 {
            Some(0)
        } else {
            let k = ONE_IN_BASIS_POINTS - cfg.transfer_fee_basis_points;
            let m = (net - 1) * ONE_IN_BASIS_POINTS + 1;
            let by_rate = if k > 0 {
                Some((m + k - 1) / k)
            } else {
                None
            };
            let by_cap = match cfg.maximum_fee {
                Some(cap) => Some(net + cap),
                None => None,
            };
            match (by_rate, by_cap) {
                (Some(a), Some(b)) => Some(if a < b { a } else { b }),
                (Some(a), None) => Some(a),
                (None, Some(b)) => Some(b),
                (None, None) => None,
            }
        },
    }
}

/// Under a fee, `h` delivers at least `net` exactly when `h` covers the
/// rounded-down rate (`h * k >= m`) or pays the cap and `net` on top.
proof fn lemma_delivers_iff(cfg: TransferFeeConfig, h: int, net: int)
    requires
        cfg.wf(),
        h >= 0,
        net >= 1,
    ensures
        (h - cfg.fee_on(h) >= net) <==> (h * (ONE_IN_BASIS_POINTS
            - cfg.transfer_fee_basis_points) >= (net - 1) * ONE_IN_BASIS_POINTS + 1 || (
        cfg.maximum_fee.is_some() && h >= net + cfg.maximum_fee.unwrap())),
{
    let b = cfg.transfer_fee_basis_points as int;
    let hb = h * b;
    let q = hb / 10000;
    let r = hb % 10000;
    lemma_fundamental_div_mod(hb, 10000);
    lemma_mod_pos_bound(hb, 10000);
    assert(h * (10000 - b) == 10000 * h - hb) by (nonlinear_arith)
        requires
            hb == h * b,
    ;
    assert(hb == 10000 * q + r);
}

/// For `k > 0`, `g = ceil(m / k)` is the least `h >= 0` with `h * k >= m`.
proof fn lemma_ceil_div(m: int, k: int, h: int)
    requires
        m >= 1,
        k > 0,
        h >= 0,
    ensures
        ((m + k - 1) / k) * k >= m,
        h < (m + k - 1) / k ==> h * k < m,
        (m + k - 1) / k >= 1,
{
    let x = m + k - 1;
    let g = x / k;
    lemma_fundamental_div_mod(x, k);
    lemma_mod_pos_bound(x, k);
    let rr = x % k;
    assert(g * k == x - rr) by (nonlinear_arith)
        requires
            x == k * g + rr,
    ;
    assert((g - 1) * k == g * k - k) by (nonlinear_arith);
    if h < g {
        lemma_mul_inequality(h, g - 1, k);
    }
    if g < 1 {
        assert(g * k <= 0) by (nonlinear_arith)
            requires
                g < 1,
                k > 0,
        ;
    }
}

/// Inverting the fee round-trips: sending the computed gross delivers at
/// least `net` after the fee, and sending any smaller amount delivers less.
/// Where no gross is computed, no amount delivers `net`.
pub proof fn lemma_gross_for_net_round_trip(fee_config: Option<TransferFeeConfig>, net: int)
    requires
        net >= 0,
        fee_config.is_some() ==> fee_config.unwrap().wf(),
    ensures
        least_gross_for(fee_config, net) matches Some(g) ==> {
            &&& g >= 0
            &&& net_after_fee(fee_config, g) >= net
            &&& forall|h: int| 0 <= h < g ==> net_after_fee(fee_config, h) < net
        },
        least_gross_for(fee_config, net) is None ==> forall|h: int|
            h >= 0 ==> net_after_fee(fee_config, h) < net,
{
    match fee_config {
        None => {},
        Some(cfg) => {
            if net >= 1 {
                let k = ONE_IN_BASIS_POINTS - cfg.transfer_fee_basis_points;
                let m = (net - 1) * ONE_IN_BASIS_POINTS + 1;
                if k > 0 {
                    lemma_ceil_div(m, k, 0);
                }
                assert forall|h: int| h >= 0 implies (net_after_fee(fee_config, h) >= net) <==> (
                (k > 0 && h >= (m + k - 1) / k) || (cfg.maximum_fee.is_some() && h >= net
                    + cfg.maximum_fee.unwrap())) by {
                    lemma_delivers_iff(cfg, h, net);
                    if k > 0 {
                        lemma_ceil_div(m, k, h);
                        if h >= (m + k - 1) / k {
                            lemma_mul_inequality((m + k - 1) / k, h, k);
                        }
                    } else {
                        assert(h * k == 0) by (nonlinear_arith)
                            requires
                                k == 0,
                        ;
                    }
                }
            } else {
                assert forall|h: int| h >= 0 implies net_after_fee(fee_config, h) >= net by {
                    assert(h * cfg.transfer_fee_basis_points as int <= h * 10000)
                        by (nonlinear_arith)
                        requires
                            cfg.transfer_fee_basis_points <= 10000,
                            h >= 0,
                    ;
                }
            }
        },
    }
}

/// What arrives when `gross` is sent, under the fee or under none.
pub fn net_received(gross: u64, fee_config: &Option<TransferFeeConfig>) -> (r: u64)
    requires
        fee_config matches Some(cfg) ==> cfg.wf(),
    ensures
        r == net_after_fee(*fee_config, gross as int),
{
    match fee_config {
        Some(cfg) => {
            let fee = cfg.calculate_fee(gross);
            proof {
                let raw = gross * cfg.transfer_fee_basis_points as int / 10000;
                assert(raw <= gross) by (nonlinear_arith)
                    requires
                        raw == gross * cfg.transfer_fee_basis_points as int / 10000,
                        cfg.transfer_fee_basis_points <= 10000,
                ;
            }
            gross - fee
        },
        None => gross,
    }
}

/// There is a value and it is an amount.
pub open spec fn fits_u64(v: Option<int>) -> bool {
    v matches Some(g) && 0 <= g <= u64::MAX
}

/// The least amount to send so that at least `net` arrives after the fee;
/// `net` itself when there is no fee. Fails with `ArithmeticOverflow` when no
/// amount of `u64` delivers `net`.
pub fn gross_for_net(net: u64, fee_config: &Option<TransferFeeConfig>) -> (r: Result<
    u64,
    LockerError,
>)
    requires
        fee_config matches Some(cfg) ==> cfg.wf(),
    ensures
        fee_config is None ==> r == Ok::<u64, LockerError>(net),
        fits_u64(least_gross_for(*fee_config, net as int)) ==> r == Ok::<u64, LockerError>(
            least_gross_for(*fee_config, net as int).unwrap() as u64,
        ),
        !fits_u64(least_gross_for(*fee_config, net as int)) ==> r == Err::<u64, LockerError>(
            LockerError::ArithmeticOverflow,
        ),
        r matches Ok(g) ==> {
            &&& net_after_fee(*fee_config, g as int) >= net
            &&& forall|h: u64| h < g ==> net_after_fee(*fee_config, h as int) < net
        },
        r is Err ==> forall|h: u64| net_after_fee(*fee_config, h as int) < net,
{
    proof {
        lemma_gross_for_net_round_trip(*fee_config, net as int);
    }
    let cfg = match fee_config {
        None => return Ok(net),
        Some(cfg) => cfg,
    };
    if net == 0 {
        return Ok(0);
    }
    let k = (ONE_IN_BASIS_POINTS - cfg.transfer_fee_basis_points as u64) as u128;
    let m = ((net - 1) as u128) * (ONE_IN_BASIS_POINTS as u128) + 1;
    let by_rate: Option<u128> = if k > 0 {
        Some((m + k - 1) / k)
    } else {
        None
    };
    let by_cap: Option<u128> = match cfg.maximum_fee {
        Some(cap) => Some(net as u128 + cap as u128),
        None => None,
    };
    let least: u128 = match (by_rate, by_cap) {
        (Some(a), Some(b)) => if a < b {
            a
        } else {
            b
        },
        (Some(a), None) => a,
        (None, Some(b)) => b,
        (None, None) => {
            return Err(LockerError::ArithmeticOverflow);
        },
    };
    if least > u64::MAX as u128 {
        Err(LockerError::ArithmeticOverflow)
    } else {
        Ok(least as u64)
    }
}

} // verus!
