use vstd::prelude::*;

verus! {

/// Denominator of basis-point arithmetic: one basis point is 1/100 of 1%.
pub const BPS_DENOM: i128 = 10_000;

/// Largest price per event the engine accepts: `i128::MAX / (2^32 - 1)`,
/// which keeps `price * bps` inside `i128` for every `u32` basis-point
/// factor, so share arithmetic cannot overflow.
pub const MAX_PRICE: i128 = 39_614_081_266_355_540_835_774_234_624;

/// The share of `amount` that `bps` basis points select, rounded down.
pub open spec fn bps_share(amount: int, bps: int) -> int {
    amount * bps / 10_000
}

/// A settlement splits `total` exactly when the three rounded-down shares
/// add back up to `total`. Only some `(total, bps)` configurations satisfy
/// this; the engine refuses the others rather than redistribute remainders.
pub open spec fn split_exact(total: int, pub_bps: int, view_bps: int, fee_bps: int) -> bool {
    bps_share(total, fee_bps) + bps_share(total, pub_bps) + bps_share(total, view_bps) == total
}

/// `amount * bps / 10_000` without overflow: the basis-point share of an
/// escrowed amount.
pub fn bps_mul(amount: i128, bps: u32) -> (r: i128)
    requires
        0 <= amount <= MAX_PRICE,
    ensures
        r == bps_share(amount as int, bps as int),
        0 <= r <= i128::MAX / 10_000,
{
    proof {
        assert(amount * bps <= MAX_PRICE * 4_294_967_295) by (nonlinear_arith)
            requires
                0 <= amount <= MAX_PRICE,
                bps <= 4_294_967_295,
        ;
        assert(MAX_PRICE * 4_294_967_295 <= i128::MAX) by (nonlinear_arith);
        assert(0 <= amount * bps) by (nonlinear_arith)
            requires
                0 <= amount,
                0 <= bps,
        ;
    }
    let wide: u128 = (amount as u128) * (bps as u128);
    proof {
        assert(wide / 10_000 <= i128::MAX / 10_000) by (nonlinear_arith)
            requires
                wide <= i128::MAX,
        ;
    }
    (wide / 10_000) as i128
}

} // verus!
