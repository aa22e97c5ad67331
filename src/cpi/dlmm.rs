use vstd::bytes::spec_u64_to_le_bytes;
use vstd::prelude::*;

use crate::error::{PinocchioCpiError, PinocchioResult};
use crate::plan::{
    leg_first, leg_header_len, leg_second, plan_result_view, plan_within, push_repeated, push_u64_le, ro, rw,
    rw_signer, slot_within, three_hop_leg, two_hop_leg, zeros, CpiPlan, Leg, PlanView, Slot,
    SlotMeta, MEMO_PROGRAM, PAYER,
};
use crate::registry::DLMM_ACCOUNT_COUNT;

verus! {

/// Discriminator of the bin-liquidity `swap2` instruction.
pub open spec fn dlmm_discriminator() -> Seq<u8> {
    seq![65u8, 75, 63, 76, 235, 91, 91, 136]
}

/// The bin-liquidity swap: protocol accounts are program (0), event
/// authority (1), oracle (2), pair (3), reserves x and y (4, 5) and three bin
/// arrays (6 to 8); token x is the pool's first asset, and the program id
/// stands in for the absent bitmap extension and host-fee account. Data is
/// the discriminator, the input amount, a zero minimum output and an empty
/// remaining-accounts list (a zero u32 count).
pub open spec fn dlmm_plan(amount: u64, leg: Leg) -> PlanView {
    PlanView {
        program: Slot::Pool(0),
        metas: seq![
            rw(Slot::Pool(3)),
            ro(Slot::Pool(0)),
            rw(Slot::Pool(4)),
            rw(Slot::Pool(5)),
            rw(Slot::Header(leg.input.spec_account())),
            rw(Slot::Header(leg.output.spec_account())),
            ro(Slot::Header(leg_first(leg).spec_mint())),
            ro(Slot::Header(leg_second(leg).spec_mint())),
            rw(Slot::Pool(2)),
            ro(Slot::Pool(0)),
            rw_signer(Slot::Header(PAYER)),
            ro(Slot::Header(leg_first(leg).spec_program())),
            ro(Slot::Header(leg_second(leg).spec_program())),
            ro(Slot::Header(MEMO_PROGRAM)),
            ro(Slot::Pool(1)),
            ro(Slot::Pool(0)),
            rw(Slot::Pool(6)),
            rw(Slot::Pool(7)),
            rw(Slot::Pool(8)),
        ],
        data: dlmm_discriminator() + spec_u64_to_le_bytes(amount) + zeros(12),
    }
}

/// The three-hop form: the leg that the step names, or `UnsupportedPoolType`
/// for a step outside 1 to 3.
pub open spec fn dlmm_hop3_plan(amount: u64, step: u8, flag: bool) -> Result<PlanView, PinocchioCpiError> {
    match three_hop_leg(step, flag) {
        Some(leg) => Ok(dlmm_plan(amount, leg)),
        None => Err(PinocchioCpiError::UnsupportedPoolType),
    }
}

/// Lays out the bin-liquidity swap of `amount` along `leg`.
pub fn dlmm_instruction(amount: u64, leg: Leg) -> (r: CpiPlan)
    ensures
        r@ == dlmm_plan(amount, leg),
{
    let x = leg.first();
    let y = leg.second();
    let metas: Vec<SlotMeta> = vec![
        SlotMeta::writable(Slot::Pool(3)),
        SlotMeta::readonly(Slot::Pool(0)),
        SlotMeta::writable(Slot::Pool(4)),
        SlotMeta::writable(Slot::Pool(5)),
        SlotMeta::writable(leg.input.account()),
        SlotMeta::writable(leg.output.account()),
        SlotMeta::readonly(x.mint()),
        SlotMeta::readonly(y.mint()),
        SlotMeta::writable(Slot::Pool(2)),
        SlotMeta::readonly(Slot::Pool(0)),
        SlotMeta::writable_signer(Slot::Header(PAYER)),
        SlotMeta::readonly(x.program()),
        SlotMeta::readonly(y.program()),
        SlotMeta::readonly(Slot::Header(MEMO_PROGRAM)),
        SlotMeta::readonly(Slot::Pool(1)),
        SlotMeta::readonly(Slot::Pool(0)),
        SlotMeta::writable(Slot::Pool(6)),
        SlotMeta::writable(Slot::Pool(7)),
        SlotMeta::writable(Slot::Pool(8)),
    ];
    let mut data: Vec<u8> = vec![65u8, 75, 63, 76, 235, 91, 91, 136];
    push_u64_le(&mut data, amount);
    push_repeated(&mut data, 0, 12);
    let r = CpiPlan { program: Slot::Pool(0), metas, data };
    assert(r@.metas =~= dlmm_plan(amount, leg).metas);
    assert(r@.data =~= dlmm_plan(amount, leg).data);
    r
}

/// The bin-liquidity swap of a two-hop chain; `is_wsol_x_mint` says whether
/// the reference asset is the pair's token x.
pub fn execute_dlmm_swap(trade_amount: u64, is_buy: bool, is_wsol_x_mint: bool) -> (r: CpiPlan)
    ensures
        r@ == dlmm_plan(trade_amount, two_hop_leg(is_buy, is_wsol_x_mint)),
{
    dlmm_instruction(trade_amount, Leg::two_hop(is_buy, is_wsol_x_mint))
}

/// The bin-liquidity swap of step 1, 2 or 3 of a three-hop chain; any other
/// step is `UnsupportedPoolType`.
pub fn execute_dlmm_swap_hop3(trade_amount: u64, step: u8, is_wsol_x_mint: bool) -> (r:
    PinocchioResult<CpiPlan>)
    ensures
        plan_result_view(r) == dlmm_hop3_plan(trade_amount, step, is_wsol_x_mint),
{
    match Leg::three_hop(step, is_wsol_x_mint) {
        Some(leg) => Ok(dlmm_instruction(trade_amount, leg)),
        None => Err(PinocchioCpiError::UnsupportedPoolType),
    }
}

/// Every account of a bin-liquidity swap lies within the leg's header and the
/// protocol's account group.
pub proof fn lemma_dlmm_plan_within(amount: u64, leg: Leg)
    ensures
        plan_within(dlmm_plan(amount, leg), leg_header_len(leg), DLMM_ACCOUNT_COUNT as nat),
{
    let metas = dlmm_plan(amount, leg).metas;
    assert forall|k: int| 0 <= k < metas.len() implies slot_within(
        #[trigger] metas[k].slot,
        leg_header_len(leg),
        DLMM_ACCOUNT_COUNT as nat,
    ) by {}
}

} // verus!
