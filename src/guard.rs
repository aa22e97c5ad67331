use vstd::bytes::{spec_u64_from_le_bytes, u64_from_le_bytes};
use vstd::prelude::*;
use vstd::slice::slice_subrange;

use crate::error::{PinocchioCpiError, PinocchioResult};

verus! {

/// Byte offset of the amount field in a token account's storage.
pub const TOKEN_AMOUNT_OFFSET: usize = 64;

/// Storage a token account needs to hold its amount field.
pub const TOKEN_AMOUNT_END: usize = 72;

/// Reads a token account's balance: the little-endian u64 at byte 64 of its
/// storage. Storage too short to hold it is `InvalidTokenAccountData`.
pub fn get_token_balance(account_data: &[u8]) -> (r: PinocchioResult<u64>)
    ensures
        account_data@.len() < TOKEN_AMOUNT_END ==> r == Err::<u64, PinocchioCpiError>(
            PinocchioCpiError::InvalidTokenAccountData,
        ),
        account_data@.len() >= TOKEN_AMOUNT_END ==> r == Ok::<u64, PinocchioCpiError>(
            spec_u64_from_le_bytes(account_data@.subrange(64, 72)),
        ),
{
    if account_data.len() < TOKEN_AMOUNT_END {
        return Err(PinocchioCpiError::InvalidTokenAccountData);
    }
    Ok(u64_from_le_bytes(slice_subrange(account_data, TOKEN_AMOUNT_OFFSET, TOKEN_AMOUNT_END)))
}

/// The profit guard: the chain succeeds exactly when the final reference
/// balance beats the initial one by more than the minimum profit, and then
/// yields the profit; otherwise it is `ArbitrageFailed` (a final balance of
/// exactly initial plus minimum is rejected).
pub fn check_profit(initial_balance: u64, final_balance: u64, min_profit: u32) -> (r:
    PinocchioResult<u64>)
    ensures
        final_balance > initial_balance + min_profit ==> r == Ok::<u64, PinocchioCpiError>(
            (final_balance - initial_balance) as u64,
        ),
        final_balance <= initial_balance + min_profit ==> r == Err::<u64, PinocchioCpiError>(
            PinocchioCpiError::ArbitrageFailed,
        ),
{
    if final_balance > initial_balance && final_balance - initial_balance > min_profit as u64 {
        Ok(final_balance - initial_balance)
    } else {
        Err(PinocchioCpiError::ArbitrageFailed)
    }
}

} // verus!
