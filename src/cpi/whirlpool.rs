use vstd::bytes::spec_u64_to_le_bytes;
use vstd::prelude::*;

use crate::cpi::clmm::swap_v2_discriminator;
use crate::error::{PinocchioCpiError, PinocchioResult};
use crate::params::flag_byte;
use crate::plan::{
    leg_first, leg_header_len, leg_second, plan_result_view, plan_within, push_repeated, push_u64_le,
    ro, rw, rw_signer, slot_within, three_hop_leg, two_hop_leg, zeros, CpiPlan, Leg, PlanView,
    Slot, SlotMeta, MEMO_PROGRAM, PAYER,
};
use crate::registry::WHIRLPOOL_ACCOUNT_COUNT;

verus! {

/// The tick-based concentrated-liquidity swap: protocol accounts are program
/// (0), whirlpool (1), oracle (2), vaults a and b (3, 4) and three tick
/// arrays (5 to 7); token a is the pool's first asset. Data is the
/// discriminator, the amount, a zero output threshold, a zero (unbounded)
/// 128-bit price limit, "amount is input" set, the a-to-b direction and an
/// absent remaining-accounts list.
pub open spec fn whirlpool_plan(amount: u64, leg: Leg) -> PlanView {
    PlanView {
        program: Slot::Pool(0),
        metas: seq![
            ro(Slot::Header(leg_first(leg).spec_program())),
            ro(Slot::Header(leg_second(leg).spec_program())),
            ro(Slot::Header(MEMO_PROGRAM)),
            rw_signer(Slot::Header(PAYER)),
            rw(Slot::Pool(1)),
            ro(Slot::Header(leg_first(leg).spec_mint())),
            ro(Slot::Header(leg_second(leg).spec_mint())),
            rw(Slot::Header(leg_first(leg).spec_account())),
            rw(Slot::Pool(3)),
            rw(Slot::Header(leg_second(leg).spec_account())),
            rw(Slot::Pool(4)),
            rw(Slot::Pool(5)),
            rw(Slot::Pool(6)),
            rw(Slot::Pool(7)),
            rw(Slot::Pool(2)),
        ],
        data: swap_v2_discriminator() + spec_u64_to_le_bytes(amount) + zeros(24) + seq![
            1u8,
            flag_byte(leg.input_is_first),
            0u8,
        ],
    }
}

/// The three-hop form: the leg that the step names, or `UnsupportedPoolType`
/// for a step outside 1 to 3.
pub open spec fn whirlpool_hop3_plan(amount: u64, step: u8, flag: bool) -> Result<PlanView, PinocchioCpiError> {
    match three_hop_leg(step, flag) {
        Some(leg) => Ok(whirlpool_plan(amount, leg)),
        None => Err(PinocchioCpiError::UnsupportedPoolType),
    }
}

/// Lays out the tick-based concentrated-liquidity swap of `amount` along `leg`.
pub fn whirlpool_instruction(amount: u64, leg: Leg) -> (r: CpiPlan)
    ensures
        r@ == whirlpool_plan(amount, leg),
{
    let a = leg.first();
    let b = leg.second();
    let metas: Vec<SlotMeta> = vec![
        SlotMeta::readonly(a.program()),
        SlotMeta::readonly(b.program()),
        SlotMeta::readonly(Slot::Header(MEMO_PROGRAM)),
        SlotMeta::writable_signer(Slot::Header(PAYER)),
        SlotMeta::writable(Slot::Pool(1)),
        SlotMeta::readonly(a.mint()),
        SlotMeta::readonly(b.mint()),
        SlotMeta::writable(a.account()),
        SlotMeta::writable(Slot::Pool(3)),
        SlotMeta::writable(b.account()),
        SlotMeta::writable(Slot::Pool(4)),
        SlotMeta::writable(Slot::Pool(5)),
        SlotMeta::writable(Slot::Pool(6)),
        SlotMeta::writable(Slot::Pool(7)),
        SlotMeta::writable(Slot::Pool(2)),
    ];
    let mut data: Vec<u8> = vec![43u8, 4, 237, 11, 26, 201, 30, 98];
    push_u64_le(&mut data, amount);
    push_repeated(&mut data, 0, 24);
    data.push(1);
    data.push(if leg.input_is_first { 1u8 } else { 0u8 });
    data.push(0);
    let r = CpiPlan { program: Slot::Pool(0), metas, data };
    assert(r@.metas =~= whirlpool_plan(amount, leg).metas);
    assert(r@.data =~= whirlpool_plan(amount, leg).data);
    r
}

/// The tick-based concentrated-liquidity swap of a two-hop chain;
/// `is_wsol_token_a` says whether the reference asset is token a.
pub fn execute_whirlpool_swap(trade_amount: u64, is_buy: bool, is_wsol_token_a: bool) -> (r:
    CpiPlan)
    ensures
        r@ == whirlpool_plan(trade_amount, two_hop_leg(is_buy, is_wsol_token_a)),
{
    whirlpool_instruction(trade_amount, Leg::two_hop(is_buy, is_wsol_token_a))
}

/// The tick-based concentrated-liquidity swap of step 1, 2 or 3 of a
/// three-hop chain; any other step is `UnsupportedPoolType`.
pub fn execute_whirlpool_swap_hop3(trade_amount: u64, step: u8, is_wsol_token_a: bool) -> (r:
    PinocchioResult<CpiPlan>)
    ensures
        plan_result_view(r) == whirlpool_hop3_plan(trade_amount, step, is_wsol_token_a),
{
    match Leg::three_hop(step, is_wsol_token_a) {
        Some(leg) => Ok(whirlpool_instruction(trade_amount, leg)),
        None => Err(PinocchioCpiError::UnsupportedPoolType),
    }
}

/// Every account of a tick-based concentrated-liquidity swap lies within the
/// leg's header and the protocol's account group.
pub proof fn lemma_whirlpool_plan_within(amount: u64, leg: Leg)
    ensures
        plan_within(whirlpool_plan(amount, leg), leg_header_len(leg), WHIRLPOOL_ACCOUNT_COUNT as nat),
{
    let metas = whirlpool_plan(amount, leg).metas;
    assert forall|k: int| 0 <= k < metas.len() implies slot_within(
        #[trigger] metas[k].slot,
        leg_header_len(leg),
        WHIRLPOOL_ACCOUNT_COUNT as nat,
    ) by {}
}

} // verus!
