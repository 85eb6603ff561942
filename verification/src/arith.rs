//! Arithmetic facts about the split of a deposit.

use vstd::prelude::*;

use crate::model::{flexible_share, pct_total, share, FULL_PERCENT};
use crate::types::Rules;

verus! {

/// Each share of a positive deposit under rules that add up to 100 lies
/// between 0 and the deposit, the remainder for the flexible bucket too.
pub proof fn lemma_shares_bounded(amount: int, r: Rules)
    requires
        amount > 0,
        pct_total(r) == FULL_PERCENT,
    ensures
        0 <= share(amount, r.savings_pct) <= amount,
        0 <= share(amount, r.food_pct) <= amount,
        0 <= share(amount, r.transport_pct) <= amount,
        0 <= flexible_share(amount, r) <= amount,
{
    let sp = r.savings_pct as int;
    let fp = r.food_pct as int;
    let tp = r.transport_pct as int;
    let xs = amount * sp;
    let xf = amount * fp;
    let xt = amount * tp;
    assert(0 <= xs && 0 <= xf && 0 <= xt && xs + xf + xt <= amount * 100) by (nonlinear_arith)
        requires
            amount > 0,
            sp >= 0,
            fp >= 0,
            tp >= 0,
            sp + fp + tp <= 100,
            xs == amount * sp,
            xf == amount * fp,
            xt == amount * tp,
    ;
    assert(share(amount, r.savings_pct) == xs / 100);
    assert(share(amount, r.food_pct) == xf / 100);
    assert(share(amount, r.transport_pct) == xt / 100);
    assert(0 <= xs / 100 && (xs / 100) * 100 <= xs) by (nonlinear_arith)
        requires
            xs >= 0,
    ;
    assert(0 <= xf / 100 && (xf / 100) * 100 <= xf) by (nonlinear_arith)
        requires
            xf >= 0,
    ;
    assert(0 <= xt / 100 && (xt / 100) * 100 <= xt) by (nonlinear_arith)
        requires
            xt >= 0,
    ;
}

} // verus!
