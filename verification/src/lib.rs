//! A token prize-vault: one persistent record holds a prize pool, a reference
//! supply and a controlling authority. Ranked winners are paid a tiered share
//! of the pool, a development account a fixed share of the supply, and every
//! movement is gated on the authority's identity.

pub mod distribution;
pub mod payout;
pub mod vault;
