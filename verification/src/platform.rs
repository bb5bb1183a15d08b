use vstd::prelude::*;

use crate::constants::{CREATOR_FEE_BPS, PLATFORM_FEE_BPS, WAGER_CREATION_FEE};

verus! {

/// Platform-wide configuration and aggregates: the resolving authority,
/// the fee recipient, fee rates fixed at initialization, and running
/// totals over every market.
#[derive(Clone, Copy, Debug, PartialEq, Eq, Structural)]
pub struct Platform {
    pub authority: u64,
    pub fee_recipient: u64,
    pub total_wagers_created: u64,
    pub total_volume_traded: u64,
    pub total_fees_collected: u64,
    pub platform_fee_bps: u64,
    pub deployer_fee_bps: u64,
    pub wager_creation_fee: u64,
}

/// One-time platform setup: the caller becomes authority and fee
/// recipient, fee rates take their fixed values, and all totals start at
/// zero.
pub fn initialize_platform(authority: u64) -> (p: Platform)
    ensures
        p == (Platform {
            authority,
            fee_recipient: authority,
            total_wagers_created: 0,
            total_volume_traded: 0,
            total_fees_collected: 0,
            platform_fee_bps: PLATFORM_FEE_BPS,
            deployer_fee_bps: CREATOR_FEE_BPS,
            wager_creation_fee: WAGER_CREATION_FEE,
        }),
{
    Platform {
        authority,
        fee_recipient: authority,
        total_wagers_created: 0,
        total_volume_traded: 0,
        total_fees_collected: 0,
        platform_fee_bps: PLATFORM_FEE_BPS,
        deployer_fee_bps: CREATOR_FEE_BPS,
        wager_creation_fee: WAGER_CREATION_FEE,
    }
}

} // verus!
