use vstd::prelude::*;
use crate::vault::VaultError;

verus! {

/// The share of the prize pool owed to a finishing position, as the tier
/// table defines it: exact integer arithmetic, multiplication before floor
/// division, total over every `u8` position.
pub open spec fn tier_spec(position: u8, pool: u64) -> int {
    if position == 1 {
        pool as int / 10
    } else if position == 2 {
        pool * 7 / 100
    } else if position == 3 {
        pool * 5 / 100
    } else if 4 <= position && position <= 10 {
        pool * 2 / 100
    } else if 11 <= position && position <= 30 {
        pool as int / 100
    } else {
        pool * 63 / 10000
    }
}

/// Whether the tier formula's intermediate multiplication for `position`
/// exceeds the 64-bit domain — the defined overflow failure of the engine.
pub open spec fn tier_overflows(position: u8, pool: u64) -> bool {
    if position == 2 {
        pool * 7 > u64::MAX
    } else if position == 3 {
        pool * 5 > u64::MAX
    } else if 4 <= position && position <= 10 {
        pool * 2 > u64::MAX
    } else if position == 1 || (11 <= position && position <= 30) {
        false
    } else {
        pool * 63 > u64::MAX
    }
}

/// The fixed development allocation: two percent of the total supply,
/// floor-rounded, multiplication before division.
pub open spec fn dev_allocation_spec(total_supply: u64) -> int {
    total_supply * 2 / 100
}

/// Whether the development allocation's intermediate doubling exceeds the
/// 64-bit domain.
pub open spec fn dev_allocation_overflows(total_supply: u64) -> bool {
    total_supply * 2 > u64::MAX
}

/// Maps a finishing position to its tier's share of the prize pool. Total
/// over all `u8` positions; fails only when the intermediate multiplication
/// would exceed the 64-bit domain, and never wraps silently.
pub fn calculate_reward(position: u8, prize_pool: u64) -> (r: Result<u64, VaultError>)
    ensures
        r is Ok <==> !tier_overflows(position, prize_pool),
        r matches Ok(amount) ==> amount == tier_spec(position, prize_pool),
        r matches Err(e) ==> e == VaultError::ArithmeticOverflow,
{
    match position {
        1 => Ok(prize_pool / 10),
        2 => match prize_pool.checked_mul(7) {
            Some(x) => Ok(x / 100),
            None => Err(VaultError::ArithmeticOverflow),
        },
        3 => match prize_pool.checked_mul(5) {
            Some(x) => Ok(x / 100),
            None => Err(VaultError::ArithmeticOverflow),
        },
        4..=10 => match prize_pool.checked_mul(2) {
            Some(x) => Ok(x / 100),
            None => Err(VaultError::ArithmeticOverflow),
        },
        11..=30 => Ok(prize_pool / 100),
        _ => match prize_pool.checked_mul(63) {
            Some(x) => Ok(x / 10000),
            None => Err(VaultError::ArithmeticOverflow),
        },
    }
}

/// Computes the development allocation for a supply. Fails only when
/// doubling the supply would exceed the 64-bit domain.
pub fn dev_amount(total_supply: u64) -> (r: Result<u64, VaultError>)
    ensures
        r is Ok <==> !dev_allocation_overflows(total_supply),
        r matches Ok(amount) ==> amount == dev_allocation_spec(total_supply),
        r matches Err(e) ==> e == VaultError::ArithmeticOverflow,
{
    match total_supply.checked_mul(2) {
        Some(x) => Ok(x / 100),
        None => Err(VaultError::ArithmeticOverflow),
    }
}

/// The top three positions receive ten, seven and five percent of the pool,
/// exactly as floor division gives them.
pub proof fn lemma_top_positions(pool: u64)
    ensures
        tier_spec(1, pool) == pool / 10,
        tier_spec(2, pool) == pool * 7 / 100,
        tier_spec(3, pool) == pool * 5 / 100,
{
}

/// Every position from four through ten receives the same two-percent share
/// of the pool.
pub proof fn lemma_middle_band_constant(position: u8, pool: u64)
    requires
        4 <= position <= 10,
    ensures
        tier_spec(position, pool) == pool * 2 / 100,
{
}

/// Every position from eleven through thirty receives the same one-percent
/// share of the pool.
pub proof fn lemma_lower_band_constant(position: u8, pool: u64)
    requires
        11 <= position <= 30,
    ensures
        tier_spec(position, pool) == pool / 100,
{
}

/// Position zero and every position past thirty fall to the default share of
/// sixty-three ten-thousandths of the pool.
pub proof fn lemma_default_band(position: u8, pool: u64)
    requires
        position == 0 || position >= 31,
    ensures
        tier_spec(position, pool) == pool * 63 / 10000,
{
}

} // verus!
