use vstd::prelude::*;

use crate::error::NestError;
use crate::math::{ceil_div, min_u128, mul_div_down, mul_div_up};

verus! {

/// How a redemption of Kamino cTokens splits the tracked PSM principal.
#[derive(Debug, Clone, Copy, PartialEq, Eq)]
pub struct KaminoPrincipalRedemption {
    pub principal_removed: u128,
    pub principal_received: u128,
    pub principal_loss: u128,
}

/// Evidence that the cTokens left in Kamino still cover tracked principal.
#[derive(Debug, Clone, Copy, PartialEq, Eq)]
pub struct KaminoProfitSliceProof {
    pub remaining_value_lower_bound: u128,
}

/// Principal attributed to `redeemed` of `before` cTokens: everything on a
/// full redemption, the pro-rata share rounded up otherwise.
pub open spec fn kamino_principal_removed(deployed: u128, before: u128, redeemed: u128) -> int {
    if redeemed == before {
        deployed as int
    } else {
        ceil_div(deployed * redeemed, before as int)
    }
}

pub open spec fn spec_account_kamino_principal_redemption(
    deployed: u128,
    before: u128,
    redeemed: u128,
    received: u128,
) -> Result<KaminoPrincipalRedemption, NestError> {
    if deployed == 0 || before == 0 || redeemed == 0 || redeemed > before {
        Err(NestError::InvalidParameter)
    } else if redeemed != before && deployed * redeemed > u128::MAX {
        Err(NestError::MathOverflow)
    } else {
        let removed = kamino_principal_removed(deployed, before, redeemed) as u128;
        let got = min_u128(received, removed);
        Ok(
            KaminoPrincipalRedemption {
                principal_removed: removed,
                principal_received: got,
                principal_loss: (removed - got) as u128,
            },
        )
    }
}

pub open spec fn spec_verify_kamino_profit_slice(
    redeemed: u128,
    remaining: u128,
    received: u128,
    deployed: u128,
) -> Result<KaminoProfitSliceProof, NestError> {
    if redeemed == 0 || remaining == 0 || received == 0 || deployed == 0 {
        Err(NestError::InvalidParameter)
    } else if received * remaining > u128::MAX {
        Err(NestError::MathOverflow)
    } else if (received * remaining) / (redeemed as int) < deployed {
        Err(NestError::PrincipalNotCovered)
    } else {
        Ok(
            KaminoProfitSliceProof {
                remaining_value_lower_bound: ((received * remaining) / (redeemed as int)) as u128,
            },
        )
    }
}

/// Splits a Kamino redemption into the principal it retires, the part of it
/// that came back in USDC, and the shortfall.
pub fn account_kamino_principal_redemption(
    deployed_principal: u128,
    ctokens_before: u128,
    redeemed_ctokens: u128,
    usdc_received: u128,
) -> (r: Result<KaminoPrincipalRedemption, NestError>)
    ensures
        r == spec_account_kamino_principal_redemption(
            deployed_principal,
            ctokens_before,
            redeemed_ctokens,
            usdc_received,
        ),
        r is Ok ==> r->Ok_0.principal_removed <= deployed_principal
            && r->Ok_0.principal_received + r->Ok_0.principal_loss
            == r->Ok_0.principal_removed,
{
    if deployed_principal == 0 || ctokens_before == 0 || redeemed_ctokens == 0 || redeemed_ctokens
        > ctokens_before {
        return Err(NestError::InvalidParameter);
    }
    let principal_removed = if redeemed_ctokens == ctokens_before {
        deployed_principal
    } else {
        let removed = mul_div_up(deployed_principal, redeemed_ctokens, ctokens_before)?;
        proof {
            let p = deployed_principal * redeemed_ctokens;
            crate::math::lemma_ceil_div_bounds(p, ctokens_before as int);
            assert(p <= deployed_principal * ctokens_before) by (nonlinear_arith)
                requires
                    redeemed_ctokens <= ctokens_before,
                    p == deployed_principal * redeemed_ctokens,
            ;
            if p > 0 {
                assert((removed - 1) * ctokens_before < deployed_principal * ctokens_before);
                assert(removed - 1 < deployed_principal) by (nonlinear_arith)
                    requires
                        (removed - 1) * ctokens_before < deployed_principal * ctokens_before,
                        ctokens_before > 0,
                ;
            }
        }
        removed
    };
    let principal_received = if usdc_received <= principal_removed {
        usdc_received
    } else {
        principal_removed
    };
    let principal_loss = principal_removed - principal_received;
    Ok(KaminoPrincipalRedemption { principal_removed, principal_received, principal_loss })
}

/// Accepts a redeemed slice as profit only when the remaining cTokens, valued
/// at the observed redeem rate (rounded down), still cover the principal.
pub fn verify_kamino_profit_slice(
    redeemed_ctokens: u128,
    remaining_ctokens: u128,
    usdc_received: u128,
    deployed_principal: u128,
) -> (r: Result<KaminoProfitSliceProof, NestError>)
    ensures
        r == spec_verify_kamino_profit_slice(
            redeemed_ctokens,
            remaining_ctokens,
            usdc_received,
            deployed_principal,
        ),
        r is Ok ==> r->Ok_0.remaining_value_lower_bound >= deployed_principal,
{
    if redeemed_ctokens == 0 || remaining_ctokens == 0 || usdc_received == 0 || deployed_principal
        == 0 {
        return Err(NestError::InvalidParameter);
    }
    let remaining_value_lower_bound = mul_div_down(
        usdc_received,
        remaining_ctokens,
        redeemed_ctokens,
    )?;
    if remaining_value_lower_bound < deployed_principal {
        return Err(NestError::PrincipalNotCovered);
    }
    Ok(KaminoProfitSliceProof { remaining_value_lower_bound })
}

} // verus!
