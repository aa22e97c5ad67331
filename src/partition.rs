use vstd::prelude::*;

use crate::error::{PinocchioCpiError, PinocchioResult};
use crate::params::SwapParams;
use crate::plan::{THREE_HOP_HEADER_LEN, TWO_HOP_HEADER_LEN};
use crate::registry::{pool_account_count, validate_pool_types, POOL_TYPE_COUNT};

verus! {

/// A contiguous run of the transaction's account list.
#[derive(Clone, Copy, Debug, PartialEq, Eq, Structural)]
pub struct Segment {
    pub start: usize,
    pub len: usize,
}

/// The account list split into the header and one group per hop, in the
/// order buy, (mid), sell.
#[derive(Clone, Copy, Debug, PartialEq, Eq, Structural)]
pub struct Partition {
    pub header_len: usize,
    pub buy: Segment,
    pub mid: Option<Segment>,
    pub sell: Segment,
}

/// The header length of a request's hop count.
pub open spec fn header_len_of(p: SwapParams) -> usize {
    if p.mid.is_some() {
        THREE_HOP_HEADER_LEN
    } else {
        TWO_HOP_HEADER_LEN
    }
}

/// The partition of `num_accounts` accounts for a request: header first, then
/// each hop's group sized by the registry. A tag that names no protocol is
/// `UnsupportedPoolType`; a list shorter than the header and all groups is
/// `NotEnoughAccounts`. Accounts past the last group are left unused.
pub open spec fn spec_partition(p: SwapParams, num_accounts: usize) -> PinocchioResult<Partition> {
    let h = header_len_of(p);
    let b = pool_account_count(p.buy);
    let s = pool_account_count(p.sell);
    if p.buy >= POOL_TYPE_COUNT {
        Err(PinocchioCpiError::UnsupportedPoolType)
    } else {
        match p.mid {
            Some(mid) => if mid >= POOL_TYPE_COUNT || p.sell >= POOL_TYPE_COUNT {
                Err(PinocchioCpiError::UnsupportedPoolType)
            } else {
                let m = pool_account_count(mid);
                if h + b + m + s > num_accounts {
                    Err(PinocchioCpiError::NotEnoughAccounts)
                } else {
                    Ok(
                        Partition {
                            header_len: h,
                            buy: Segment { start: h, len: b },
                            mid: Some(Segment { start: (h + b) as usize, len: m }),
                            sell: Segment { start: (h + b + m) as usize, len: s },
                        },
                    )
                }
            },
            None => if p.sell >= POOL_TYPE_COUNT {
                Err(PinocchioCpiError::UnsupportedPoolType)
            } else if h + b + s > num_accounts {
                Err(PinocchioCpiError::NotEnoughAccounts)
            } else {
                Ok(
                    Partition {
                        header_len: h,
                        buy: Segment { start: h, len: b },
                        mid: None,
                        sell: Segment { start: (h + b) as usize, len: s },
                    },
                )
            },
        }
    }
}

/// Splits `num_accounts` accounts into the header and the hop groups.
pub fn partition_accounts(params: &SwapParams, num_accounts: usize) -> (r: PinocchioResult<Partition>)
    ensures
        r == spec_partition(*params, num_accounts),
{
    let header_len: usize = if params.mid.is_some() {
        THREE_HOP_HEADER_LEN
    } else {
        TWO_HOP_HEADER_LEN
    };
    let buy_count: usize = validate_pool_types(params.buy)?;
    match params.mid {
        Some(mid) => {
            let mid_count: usize = validate_pool_types(mid)?;
            let sell_count: usize = validate_pool_types(params.sell)?;
            if header_len + buy_count + mid_count + sell_count > num_accounts {
                return Err(PinocchioCpiError::NotEnoughAccounts);
            }
            Ok(
                Partition {
                    header_len,
                    buy: Segment { start: header_len, len: buy_count },
                    mid: Some(Segment { start: header_len + buy_count, len: mid_count }),
                    sell: Segment { start: header_len + buy_count + mid_count, len: sell_count },
                },
            )
        },
        None => {
            let sell_count: usize = validate_pool_types(params.sell)?;
            if header_len + buy_count + sell_count > num_accounts {
                return Err(PinocchioCpiError::NotEnoughAccounts);
            }
            Ok(
                Partition {
                    header_len,
                    buy: Segment { start: header_len, len: buy_count },
                    mid: None,
                    sell: Segment { start: header_len + buy_count, len: sell_count },
                },
            )
        },
    }
}

/// A tag outside the registry makes the partition fail with
/// `UnsupportedPoolType`, whatever the account list.
pub proof fn lemma_unsupported_tag_fails_partition(p: SwapParams, num_accounts: usize)
    requires
        p.buy >= POOL_TYPE_COUNT || p.sell >= POOL_TYPE_COUNT || (p.mid matches Some(m) && m
            >= POOL_TYPE_COUNT),
    ensures
        spec_partition(p, num_accounts) == Err::<Partition, PinocchioCpiError>(
            PinocchioCpiError::UnsupportedPoolType,
        ),
{
}

} // verus!
