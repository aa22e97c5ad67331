use vstd::prelude::*;

use crate::error::{PinocchioCpiError, PinocchioResult};

verus! {

/// Protocol accounts a constant-product swap needs.
pub const CPMM_ACCOUNT_COUNT: usize = 7;

/// Protocol accounts a bin-liquidity swap needs.
pub const DLMM_ACCOUNT_COUNT: usize = 9;

/// Protocol accounts a dynamic concentrated-liquidity (v2) swap needs.
pub const DAMMV2_ACCOUNT_COUNT: usize = 6;

/// Protocol accounts a bonding-curve swap needs.
pub const PUMP_ACCOUNT_COUNT: usize = 16;

/// Protocol accounts a legacy order-book-hybrid swap needs.
pub const RAYDIUM_ACCOUNT_COUNT: usize = 5;

/// Protocol accounts a concentrated-liquidity swap needs.
pub const CLMM_ACCOUNT_COUNT: usize = 10;

/// Protocol accounts a tick-based concentrated-liquidity swap needs.
pub const WHIRLPOOL_ACCOUNT_COUNT: usize = 8;

/// Number of supported pool types; valid tags are below it.
pub const POOL_TYPE_COUNT: u8 = 7;

/// What the registry answers for an unknown tag: larger than any account list
/// can be once a header is added, so a partition built on it cannot fit.
pub const UNSUPPORTED_POOL_ACCOUNTS: usize = usize::MAX;

/// The supported AMM families, one per valid tag.
#[derive(Clone, Copy, Debug, PartialEq, Eq, Structural)]
pub enum PoolKind {
    Cpmm,
    Dlmm,
    Dammv2,
    Pump,
    Raydium,
    Clmm,
    Whirlpool,
}

/// The pool kind a tag names, if any.
pub open spec fn kind_of_tag(tag: u8) -> Option<PoolKind> {
    if tag == 0 {
        Some(PoolKind::Cpmm)
    } else if tag == 1 {
        Some(PoolKind::Dlmm)
    } else if tag == 2 {
        Some(PoolKind::Dammv2)
    } else if tag == 3 {
        Some(PoolKind::Pump)
    } else if tag == 4 {
        Some(PoolKind::Raydium)
    } else if tag == 5 {
        Some(PoolKind::Clmm)
    } else if tag == 6 {
        Some(PoolKind::Whirlpool)
    } else {
        None
    }
}

/// The number of protocol accounts each tag's adapter consumes; the sentinel
/// for a tag that names no protocol.
pub open spec fn pool_account_count(tag: u8) -> usize {
    match kind_of_tag(tag) {
        Some(kind) => kind.spec_account_count(),
        None => UNSUPPORTED_POOL_ACCOUNTS,
    }
}

impl PoolKind {
    pub open spec fn spec_account_count(self) -> usize {
        match self {
            PoolKind::Cpmm => CPMM_ACCOUNT_COUNT,
            PoolKind::Dlmm => DLMM_ACCOUNT_COUNT,
            PoolKind::Dammv2 => DAMMV2_ACCOUNT_COUNT,
            PoolKind::Pump => PUMP_ACCOUNT_COUNT,
            PoolKind::Raydium => RAYDIUM_ACCOUNT_COUNT,
            PoolKind::Clmm => CLMM_ACCOUNT_COUNT,
            PoolKind::Whirlpool => WHIRLPOOL_ACCOUNT_COUNT,
        }
    }

    /// Maps a tag to its protocol; an unknown tag is `UnsupportedPoolType`.
    pub fn from_tag(tag: u8) -> (r: PinocchioResult<PoolKind>)
        ensures
            match kind_of_tag(tag) {
                Some(kind) => r == Ok::<PoolKind, PinocchioCpiError>(kind),
                None => r == Err::<PoolKind, PinocchioCpiError>(
                    PinocchioCpiError::UnsupportedPoolType,
                ),
            },
            r.is_ok() <==> tag < POOL_TYPE_COUNT,
    {
        match tag {
            0 => Ok(PoolKind::Cpmm),
            1 => Ok(PoolKind::Dlmm),
            2 => Ok(PoolKind::Dammv2),
            3 => Ok(PoolKind::Pump),
            4 => Ok(PoolKind::Raydium),
            5 => Ok(PoolKind::Clmm),
            6 => Ok(PoolKind::Whirlpool),
            _ => Err(PinocchioCpiError::UnsupportedPoolType),
        }
    }

    /// The number of protocol accounts this kind's adapter consumes.
    pub fn account_count(&self) -> (r: usize)
        ensures
            r == self.spec_account_count(),
    {
        match self {
            PoolKind::Cpmm => CPMM_ACCOUNT_COUNT,
            PoolKind::Dlmm => DLMM_ACCOUNT_COUNT,
            PoolKind::Dammv2 => DAMMV2_ACCOUNT_COUNT,
            PoolKind::Pump => PUMP_ACCOUNT_COUNT,
            PoolKind::Raydium => RAYDIUM_ACCOUNT_COUNT,
            PoolKind::Clmm => CLMM_ACCOUNT_COUNT,
            PoolKind::Whirlpool => WHIRLPOOL_ACCOUNT_COUNT,
        }
    }
}

/// The registry lookup: the documented account count for tags 0 to 6, and
/// the sentinel for every other tag, without reading out of bounds.
pub fn get_pool_info_by_num(tag: u8) -> (r: usize)
    ensures
        r == pool_account_count(tag),
        tag == 0 ==> r == 7,
        tag == 1 ==> r == 9,
        tag == 2 ==> r == 6,
        tag == 3 ==> r == 16,
        tag == 4 ==> r == 5,
        tag == 5 ==> r == 10,
        tag == 6 ==> r == 8,
        tag >= POOL_TYPE_COUNT ==> r == UNSUPPORTED_POOL_ACCOUNTS,
{
    match PoolKind::from_tag(tag) {
        Ok(kind) => kind.account_count(),
        Err(_) => UNSUPPORTED_POOL_ACCOUNTS,
    }
}

/// Checks a tag and returns its account count; `UnsupportedPoolType` for a
/// tag outside 0 to 6.
pub fn validate_pool_types(tag: u8) -> (r: PinocchioResult<usize>)
    ensures
        tag < POOL_TYPE_COUNT ==> r == Ok::<usize, PinocchioCpiError>(pool_account_count(tag)),
        tag >= POOL_TYPE_COUNT ==> r == Err::<usize, PinocchioCpiError>(
            PinocchioCpiError::UnsupportedPoolType,
        ),
{
    let kind = PoolKind::from_tag(tag)?;
    Ok(kind.account_count())
}

/// The sentinel count of an unknown tag cannot fit any account list: with
/// even one header account in front of it, the segment overruns every list
/// length a machine can hold.
pub proof fn lemma_unsupported_count_overruns(tag: u8, header_len: usize, num_accounts: usize)
    requires
        tag >= POOL_TYPE_COUNT,
        header_len >= 1,
    ensures
        header_len + pool_account_count(tag) > num_accounts,
{
}

} // verus!
