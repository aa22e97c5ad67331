//! One adapter per AMM protocol: each lays out that protocol's swap
//! instruction (account order, access flags, data bytes) for a resolved leg.

pub mod cpmm;
pub mod dammv2;
pub mod dlmm;
pub mod raydium;
pub mod clmm;
pub mod whirlpool;
pub mod pump;
