use vstd::prelude::*;

use crate::cpi::clmm::{clmm_hop3_plan, clmm_plan, execute_clmm_swap, execute_clmm_swap_hop3, lemma_clmm_plan_within};
use crate::cpi::cpmm::{cpmm_hop3_plan, cpmm_plan, execute_cpmm_swap, execute_cpmm_swap_hop3, lemma_cpmm_plan_within};
use crate::cpi::dammv2::{
    dammv2_hop3_plan, dammv2_plan, execute_dammv2_swap, execute_dammv2_swap_hop3,
    lemma_dammv2_plan_within,
};
use crate::cpi::dlmm::{dlmm_hop3_plan, dlmm_plan, execute_dlmm_swap, execute_dlmm_swap_hop3, lemma_dlmm_plan_within};
use crate::cpi::pump::{
    execute_pump_swap, execute_pump_swap_hop3, lemma_pump_plan_within, pump_hop3_plan, pump_plan,
    pump_two_hop_amount,
};
use crate::cpi::raydium::{
    execute_raydium_swap, execute_raydium_swap_hop3, lemma_raydium_plan_within,
    raydium_hop3_plan, raydium_plan,
};
use crate::cpi::whirlpool::{
    execute_whirlpool_swap, execute_whirlpool_swap_hop3, lemma_whirlpool_plan_within,
    whirlpool_hop3_plan, whirlpool_plan,
};
use crate::error::{PinocchioCpiError, PinocchioResult};
use crate::plan::{
    leg_header_len, plan_result_view, plan_within, slot_within, three_hop_leg, two_hop_leg,
    CpiPlan, PlanView, THREE_HOP_HEADER_LEN, TWO_HOP_HEADER_LEN,
};
use crate::registry::{kind_of_tag, pool_account_count, PoolKind};

verus! {

/// The instruction of a two-hop leg through the protocol a tag names, or
/// `UnsupportedPoolType` for a tag that names none.
pub open spec fn swap_plan(
    pool_type: u8,
    amount_in: u64,
    is_buy: bool,
    is_wsol_pool_0: bool,
    pump_base_amount_out: u64,
) -> Result<PlanView, PinocchioCpiError> {
    let leg = two_hop_leg(is_buy, is_wsol_pool_0);
    match kind_of_tag(pool_type) {
        Some(PoolKind::Cpmm) => Ok(cpmm_plan(amount_in, leg)),
        Some(PoolKind::Dlmm) => Ok(dlmm_plan(amount_in, leg)),
        Some(PoolKind::Dammv2) => Ok(dammv2_plan(amount_in, leg)),
        Some(PoolKind::Pump) => Ok(
            pump_plan(
                pump_two_hop_amount(amount_in, is_buy, is_wsol_pool_0, pump_base_amount_out),
                leg,
            ),
        ),
        Some(PoolKind::Raydium) => Ok(raydium_plan(amount_in, leg)),
        Some(PoolKind::Clmm) => Ok(clmm_plan(amount_in, leg, true)),
        Some(PoolKind::Whirlpool) => Ok(whirlpool_plan(amount_in, leg)),
        None => Err(PinocchioCpiError::UnsupportedPoolType),
    }
}

/// The instruction of step 1, 2 or 3 of a three-hop chain through the
/// protocol a tag names, or the error that protocol gives for the step.
pub open spec fn swap_plan_hop3(
    pool_type: u8,
    amount_in: u64,
    step: u8,
    flag: bool,
    pump_base_amount_out: u64,
) -> Result<PlanView, PinocchioCpiError> {
    match kind_of_tag(pool_type) {
        Some(PoolKind::Cpmm) => cpmm_hop3_plan(amount_in, step, flag),
        Some(PoolKind::Dlmm) => dlmm_hop3_plan(amount_in, step, flag),
        Some(PoolKind::Dammv2) => dammv2_hop3_plan(amount_in, step, flag),
        Some(PoolKind::Pump) => pump_hop3_plan(amount_in, step, flag, pump_base_amount_out),
        Some(PoolKind::Raydium) => raydium_hop3_plan(amount_in, step, flag),
        Some(PoolKind::Clmm) => clmm_hop3_plan(amount_in, step, flag),
        Some(PoolKind::Whirlpool) => whirlpool_hop3_plan(amount_in, step, flag),
        None => Err(PinocchioCpiError::UnsupportedPoolType),
    }
}

/// Routes a two-hop leg to the adapter of its pool type.
pub fn execute_swap_optimized(
    pool_type: u8,
    amount_in: u64,
    is_buy: bool,
    is_wsol_pool_0: bool,
    pump_base_amount_out: u64,
) -> (r: PinocchioResult<CpiPlan>)
    ensures
        plan_result_view(r) == swap_plan(
            pool_type,
            amount_in,
            is_buy,
            is_wsol_pool_0,
            pump_base_amount_out,
        ),
{
    match PoolKind::from_tag(pool_type)? {
        PoolKind::Cpmm => Ok(execute_cpmm_swap(amount_in, is_buy, is_wsol_pool_0)),
        PoolKind::Dlmm => Ok(execute_dlmm_swap(amount_in, is_buy, is_wsol_pool_0)),
        PoolKind::Dammv2 => Ok(execute_dammv2_swap(amount_in, is_buy, is_wsol_pool_0)),
        PoolKind::Pump => Ok(
            execute_pump_swap(amount_in, is_buy, is_wsol_pool_0, pump_base_amount_out),
        ),
        PoolKind::Raydium => Ok(execute_raydium_swap(amount_in, is_buy, is_wsol_pool_0)),
        PoolKind::Clmm => Ok(execute_clmm_swap(amount_in, is_buy, is_wsol_pool_0)),
        PoolKind::Whirlpool => Ok(execute_whirlpool_swap(amount_in, is_buy, is_wsol_pool_0)),
    }
}

/// Routes step 1, 2 or 3 of a three-hop chain to the adapter of its pool type.
pub fn execute_swap_optimized_3hop(
    pool_type: u8,
    amount_in: u64,
    step: u8,
    flag: bool,
    pump_base_amount_out: u64,
) -> (r: PinocchioResult<CpiPlan>)
    ensures
        plan_result_view(r) == swap_plan_hop3(pool_type, amount_in, step, flag, pump_base_amount_out),
{
    match PoolKind::from_tag(pool_type)? {
        PoolKind::Cpmm => execute_cpmm_swap_hop3(amount_in, step, flag),
        PoolKind::Dlmm => execute_dlmm_swap_hop3(amount_in, step, flag),
        PoolKind::Dammv2 => execute_dammv2_swap_hop3(amount_in, step, flag),
        PoolKind::Pump => execute_pump_swap_hop3(amount_in, step, flag, pump_base_amount_out),
        PoolKind::Raydium => execute_raydium_swap_hop3(amount_in, step, flag),
        PoolKind::Clmm => execute_clmm_swap_hop3(amount_in, step, flag),
        PoolKind::Whirlpool => execute_whirlpool_swap_hop3(amount_in, step, flag),
    }
}

/// A plan within a header stays within every longer header.
pub proof fn lemma_plan_within_longer_header(plan: PlanView, header_len: nat, longer: nat, pool_len: nat)
    requires
        plan_within(plan, header_len, pool_len),
        header_len <= longer,
    ensures
        plan_within(plan, longer, pool_len),
{
    assert forall|k: int| 0 <= k < plan.metas.len() implies slot_within(
        #[trigger] plan.metas[k].slot,
        longer,
        pool_len,
    ) by {
        assert(slot_within(plan.metas[k].slot, header_len, pool_len));
    }
}

/// Every two-hop instruction names only accounts of the two-hop header and
/// of its protocol's account group.
pub proof fn lemma_swap_plan_within(
    pool_type: u8,
    amount_in: u64,
    is_buy: bool,
    is_wsol_pool_0: bool,
    pump_base_amount_out: u64,
)
    ensures
        swap_plan(pool_type, amount_in, is_buy, is_wsol_pool_0, pump_base_amount_out) matches Ok(
            plan,
        ) ==> plan_within(plan, TWO_HOP_HEADER_LEN as nat, pool_account_count(pool_type) as nat),
{
    let leg = two_hop_leg(is_buy, is_wsol_pool_0);
    assert(leg_header_len(leg) == TWO_HOP_HEADER_LEN);
    lemma_cpmm_plan_within(amount_in, leg);
    lemma_dlmm_plan_within(amount_in, leg);
    lemma_dammv2_plan_within(amount_in, leg);
    lemma_pump_plan_within(
        pump_two_hop_amount(amount_in, is_buy, is_wsol_pool_0, pump_base_amount_out),
        leg,
    );
    lemma_raydium_plan_within(amount_in, leg);
    lemma_clmm_plan_within(amount_in, leg, true);
    lemma_whirlpool_plan_within(amount_in, leg);
}

/// Every three-hop instruction names only accounts of the three-hop header
/// and of its protocol's account group.
pub proof fn lemma_swap_plan_hop3_within(
    pool_type: u8,
    amount_in: u64,
    step: u8,
    flag: bool,
    pump_base_amount_out: u64,
)
    ensures
        swap_plan_hop3(pool_type, amount_in, step, flag, pump_base_amount_out) matches Ok(plan)
            ==> plan_within(plan, THREE_HOP_HEADER_LEN as nat, pool_account_count(pool_type) as nat),
{
    let h = THREE_HOP_HEADER_LEN as nat;
    if let Some(leg) = three_hop_leg(step, flag) {
        assert(leg_header_len(leg) <= h);
        lemma_cpmm_plan_within(amount_in, leg);
        lemma_plan_within_longer_header(cpmm_plan(amount_in, leg), leg_header_len(leg), h, 7);
        lemma_dlmm_plan_within(amount_in, leg);
        lemma_plan_within_longer_header(dlmm_plan(amount_in, leg), leg_header_len(leg), h, 9);
        lemma_dammv2_plan_within(amount_in, leg);
        lemma_plan_within_longer_header(dammv2_plan(amount_in, leg), leg_header_len(leg), h, 6);
        lemma_pump_plan_within(amount_in, leg);
        lemma_plan_within_longer_header(pump_plan(amount_in, leg), leg_header_len(leg), h, 16);
        lemma_raydium_plan_within(amount_in, leg);
        lemma_plan_within_longer_header(raydium_plan(amount_in, leg), leg_header_len(leg), h, 5);
        lemma_clmm_plan_within(amount_in, leg, step == 1);
        lemma_plan_within_longer_header(
            clmm_plan(amount_in, leg, step == 1),
            leg_header_len(leg),
            h,
            10,
        );
        lemma_whirlpool_plan_within(amount_in, leg);
        lemma_plan_within_longer_header(whirlpool_plan(amount_in, leg), leg_header_len(leg), h, 8);
    }
    let buy = two_hop_leg(true, flag);
    let pump_amount = pump_two_hop_amount(amount_in, true, flag, pump_base_amount_out);
    lemma_pump_plan_within(pump_amount, buy);
    lemma_plan_within_longer_header(pump_plan(pump_amount, buy), leg_header_len(buy), h, 16);
}

} // verus!
