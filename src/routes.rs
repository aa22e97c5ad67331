//! How each adapter resolves a two-hop leg, stated directly over the two
//! booleans: the direction (`is_buy`) and the order flag (whether the
//! reference asset is the pool's first token).

use vstd::bytes::{lemma_auto_spec_u64_to_from_le_bytes, spec_u64_to_le_bytes};
use vstd::prelude::*;

use crate::cpi::clmm::clmm_plan;
use crate::cpi::cpmm::cpmm_plan;
use crate::cpi::dammv2::dammv2_plan;
use crate::cpi::dlmm::dlmm_plan;
use crate::cpi::pump::{pump_buy_discriminator, pump_plan, pump_sell_discriminator};
use crate::cpi::raydium::raydium_plan;
use crate::cpi::whirlpool::whirlpool_plan;
use crate::plan::{ro, rw, two_hop_leg, Slot, TOKEN_ACCOUNT, TOKEN_MINT, WSOL_ACCOUNT, WSOL_MINT};

verus! {

/// The payer's account the leg spends from.
pub open spec fn input_account(is_buy: bool) -> usize {
    if is_buy {
        WSOL_ACCOUNT
    } else {
        TOKEN_ACCOUNT
    }
}

/// The payer's account the leg receives into.
pub open spec fn output_account(is_buy: bool) -> usize {
    if is_buy {
        TOKEN_ACCOUNT
    } else {
        WSOL_ACCOUNT
    }
}

/// The spent token sits first in the pool exactly when buying from a pool
/// whose first token is the reference asset, or selling into one whose first
/// token is not.
pub open spec fn input_sits_first(is_buy: bool, is_wsol_first: bool) -> bool {
    is_buy == is_wsol_first
}

/// The payer's account of the pool's first token.
pub open spec fn first_account(is_buy: bool, is_wsol_first: bool) -> usize {
    if is_wsol_first {
        WSOL_ACCOUNT
    } else {
        TOKEN_ACCOUNT
    }
}

/// Constant-product: user accounts at positions 4 and 5, the input vault at
/// 6 and the output vault at 7, vault 5 being the pool's first token's.
pub proof fn lemma_cpmm_two_hop_route(amount: u64, is_buy: bool, is_wsol_first: bool)
    ensures
        ({
            let m = cpmm_plan(amount, two_hop_leg(is_buy, is_wsol_first)).metas;
            let first = input_sits_first(is_buy, is_wsol_first);
            &&& m[4] == rw(Slot::Header(input_account(is_buy)))
            &&& m[5] == rw(Slot::Header(output_account(is_buy)))
            &&& m[6] == rw(Slot::Pool(if first { 5 } else { 6 }))
            &&& m[7] == rw(Slot::Pool(if first { 6 } else { 5 }))
        }),
{
}

/// Concentrated-liquidity: user accounts at 3 and 4, the input vault at 5
/// and the output vault at 6, vault 5 being token 0's.
pub proof fn lemma_clmm_two_hop_route(amount: u64, is_buy: bool, is_wsol_first: bool)
    ensures
        ({
            let m = clmm_plan(amount, two_hop_leg(is_buy, is_wsol_first), true).metas;
            let first = input_sits_first(is_buy, is_wsol_first);
            &&& m[3] == rw(Slot::Header(input_account(is_buy)))
            &&& m[4] == rw(Slot::Header(output_account(is_buy)))
            &&& m[5] == rw(Slot::Pool(if first { 5 } else { 6 }))
            &&& m[6] == rw(Slot::Pool(if first { 6 } else { 5 }))
        }),
{
}

/// Bin-liquidity: user accounts at 4 and 5; the reserves stay in pool order
/// (x at 2, y at 3), and token x's mint at 6 is the reference mint exactly
/// when the order flag says so.
pub proof fn lemma_dlmm_two_hop_route(amount: u64, is_buy: bool, is_wsol_first: bool)
    ensures
        ({
            let m = dlmm_plan(amount, two_hop_leg(is_buy, is_wsol_first)).metas;
            &&& m[4] == rw(Slot::Header(input_account(is_buy)))
            &&& m[5] == rw(Slot::Header(output_account(is_buy)))
            &&& m[2] == rw(Slot::Pool(4))
            &&& m[3] == rw(Slot::Pool(5))
            &&& m[6] == ro(Slot::Header(if is_wsol_first { WSOL_MINT } else { TOKEN_MINT }))
        }),
{
}

/// Dynamic concentrated-liquidity (v2): user accounts at 2 and 3; the vaults
/// stay in pool order (a at 4, b at 5), and token a's mint at 6 is the
/// reference mint exactly when the order flag says so.
pub proof fn lemma_dammv2_two_hop_route(amount: u64, is_buy: bool, is_wsol_first: bool)
    ensures
        ({
            let m = dammv2_plan(amount, two_hop_leg(is_buy, is_wsol_first)).metas;
            &&& m[2] == rw(Slot::Header(input_account(is_buy)))
            &&& m[3] == rw(Slot::Header(output_account(is_buy)))
            &&& m[4] == rw(Slot::Pool(4))
            &&& m[5] == rw(Slot::Pool(5))
            &&& m[6] == ro(Slot::Header(if is_wsol_first { WSOL_MINT } else { TOKEN_MINT }))
        }),
{
}

/// Tick-based concentrated-liquidity: the user accounts are listed in pool
/// order (token a's at 7, beside vault a at 8; token b's at 9, beside vault b
/// at 10), and the a-to-b byte is set exactly when the spent token is a.
pub proof fn lemma_whirlpool_two_hop_route(amount: u64, is_buy: bool, is_wsol_first: bool)
    ensures
        ({
            let p = whirlpool_plan(amount, two_hop_leg(is_buy, is_wsol_first));
            let a_account = first_account(is_buy, is_wsol_first);
            let b_account = if is_wsol_first {
                TOKEN_ACCOUNT
            } else {
                WSOL_ACCOUNT
            };
            &&& p.metas[7] == rw(Slot::Header(a_account))
            &&& p.metas[8] == rw(Slot::Pool(3))
            &&& p.metas[9] == rw(Slot::Header(b_account))
            &&& p.metas[10] == rw(Slot::Pool(4))
            &&& p.data[41] == (if input_sits_first(is_buy, is_wsol_first) { 1u8 } else { 0u8 })
        }),
{
    lemma_auto_spec_u64_to_from_le_bytes();
    let p = whirlpool_plan(amount, two_hop_leg(is_buy, is_wsol_first));
    assert(spec_u64_to_le_bytes(amount).len() == 8);
    assert(p.data.len() == 43);
}

/// Bonding curve: the user accounts are listed base first (base at 5, quote
/// at 6, beside the base and quote vaults at 7 and 8), and the instruction
/// is the sell exactly when the spent token is the base.
pub proof fn lemma_pump_two_hop_route(amount: u64, is_buy: bool, is_wsol_first: bool)
    ensures
        ({
            let p = pump_plan(amount, two_hop_leg(is_buy, is_wsol_first));
            let base_account = first_account(is_buy, is_wsol_first);
            let quote_account = if is_wsol_first {
                TOKEN_ACCOUNT
            } else {
                WSOL_ACCOUNT
            };
            &&& p.metas[5] == rw(Slot::Header(base_account))
            &&& p.metas[6] == rw(Slot::Header(quote_account))
            &&& p.metas[7] == rw(Slot::Pool(12))
            &&& p.metas[8] == rw(Slot::Pool(13))
            &&& p.data.subrange(0, 8) == (if input_sits_first(is_buy, is_wsol_first) {
                pump_sell_discriminator()
            } else {
                pump_buy_discriminator()
            })
        }),
{
    let p = pump_plan(amount, two_hop_leg(is_buy, is_wsol_first));
    if input_sits_first(is_buy, is_wsol_first) {
        assert(p.data.subrange(0, 8) =~= pump_sell_discriminator());
    } else {
        assert(p.data.subrange(0, 8) =~= pump_buy_discriminator());
    }
}

/// Legacy order-book-hybrid: user accounts at 14 and 15; the pool's coin and
/// pc accounts stay at 4 and 5 whatever the direction.
pub proof fn lemma_raydium_two_hop_route(amount: u64, is_buy: bool, is_wsol_first: bool)
    ensures
        ({
            let m = raydium_plan(amount, two_hop_leg(is_buy, is_wsol_first)).metas;
            &&& m[14] == rw(Slot::Header(input_account(is_buy)))
            &&& m[15] == rw(Slot::Header(output_account(is_buy)))
            &&& m[4] == rw(Slot::Pool(3))
            &&& m[5] == rw(Slot::Pool(4))
        }),
{
}

} // verus!
