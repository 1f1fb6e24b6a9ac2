//! Share accounting of the yield vault, as far as the protocol relies on it.
use vstd::prelude::*;

verus! {

/// Vault shares that a deposit of `amount` buys: `amount * total_shares /
/// total_b_tokens` rounded down, or `amount` itself for the first deposit
/// (an empty vault).
pub fn calculate_expected_shares(amount: i128, total_shares: i128, total_b_tokens: i128) -> (r:
    i128)
    requires
        amount >= 0,
        total_shares >= 0,
        total_b_tokens >= 0,
        amount * total_shares <= i128::MAX,
    ensures
        total_shares == 0 || total_b_tokens == 0 ==> r == amount,
        total_shares != 0 && total_b_tokens != 0 ==> r == amount * total_shares / (total_b_tokens as int),
{
    if total_shares == 0 || total_b_tokens == 0 {
        amount
    } else {
        proof {
            assert(amount * total_shares >= 0) by (nonlinear_arith)
                requires
                    amount >= 0,
                    total_shares >= 0,
            ;
        }
        (amount * total_shares) / total_b_tokens
    }
}

} // verus!
