//! Pricing, fee distribution, referral and storage-quota engine of a
//! mint-to-buy token market.
pub mod fee;
pub mod table;
pub mod error;
pub mod signature;
pub mod market;
pub mod laws;
