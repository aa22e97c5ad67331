use vstd::bytes::spec_u64_to_le_bytes;
use vstd::prelude::*;

use crate::error::{PinocchioCpiError, PinocchioResult};
use crate::plan::{
    leg_header_len, plan_result_view, plan_within, push_repeated, push_u64_le, ro, rw, rw_signer, slot_within,
    three_hop_leg, two_hop_leg, zeros, CpiPlan, Leg, PlanView, Slot, SlotMeta, MEMO_PROGRAM,
    PAYER, TOKEN_2022_PROGRAM, TOKEN_PROGRAM,
};
use crate::registry::CLMM_ACCOUNT_COUNT;

verus! {

/// Discriminator of the `swap_v2` instruction shared by the two
/// concentrated-liquidity protocols.
pub open spec fn swap_v2_discriminator() -> Seq<u8> {
    seq![43u8, 4, 237, 11, 26, 201, 30, 98]
}

/// The protocol vault holding the leg's input token (vaults sit at 5 and 6,
/// in pool order).
pub open spec fn clmm_input_vault(leg: Leg) -> usize {
    if leg.input_is_first {
        5
    } else {
        6
    }
}

pub open spec fn clmm_output_vault(leg: Leg) -> usize {
    if leg.input_is_first {
        6
    } else {
        5
    }
}

/// The concentrated-liquidity swap: protocol accounts are program (0), pool
/// state (1), amm config (2), observation state (3), tick-array bitmap
/// extension (4), the two vaults (5, 6) and three tick arrays (7 to 9); both
/// token-program variants and the memo program come from the header. The
/// bitmap extension is writable on the chain's first leg and on two-hop
/// legs, read-only on the later legs of three hops. Data is the
/// discriminator, the amount, a zero output threshold, a zero (unbounded)
/// 128-bit price limit and "amount is input" set.
pub open spec fn clmm_plan(amount: u64, leg: Leg, bitmap_writable: bool) -> PlanView {
    PlanView {
        program: Slot::Pool(0),
        metas: seq![
            rw_signer(Slot::Header(PAYER)),
            ro(Slot::Pool(2)),
            rw(Slot::Pool(1)),
            rw(Slot::Header(leg.input.spec_account())),
            rw(Slot::Header(leg.output.spec_account())),
            rw(Slot::Pool(clmm_input_vault(leg))),
            rw(Slot::Pool(clmm_output_vault(leg))),
            rw(Slot::Pool(3)),
            ro(Slot::Header(TOKEN_PROGRAM)),
            ro(Slot::Header(TOKEN_2022_PROGRAM)),
            ro(Slot::Header(MEMO_PROGRAM)),
            ro(Slot::Header(leg.input.spec_mint())),
            ro(Slot::Header(leg.output.spec_mint())),
            SlotMeta { slot: Slot::Pool(4), is_writable: bitmap_writable, is_signer: false },
            rw(Slot::Pool(7)),
            rw(Slot::Pool(8)),
            rw(Slot::Pool(9)),
        ],
        data: swap_v2_discriminator() + spec_u64_to_le_bytes(amount) + zeros(24) + seq![1u8],
    }
}

/// The three-hop form: the leg that the step names, with the bitmap
/// extension writable on step 1 only, or `UnsupportedPoolType` for a step
/// outside 1 to 3.
pub open spec fn clmm_hop3_plan(amount: u64, step: u8, flag: bool) -> Result<PlanView, PinocchioCpiError> {
    match three_hop_leg(step, flag) {
        Some(leg) => Ok(clmm_plan(amount, leg, step == 1)),
        None => Err(PinocchioCpiError::UnsupportedPoolType),
    }
}

/// Lays out the concentrated-liquidity swap of `amount` along `leg`.
pub fn clmm_instruction(amount: u64, leg: Leg, bitmap_writable: bool) -> (r: CpiPlan)
    ensures
        r@ == clmm_plan(amount, leg, bitmap_writable),
{
    let (input_vault, output_vault): (usize, usize) = if leg.input_is_first {
        (5usize, 6usize)
    } else {
        (6usize, 5usize)
    };
    let metas: Vec<SlotMeta> = vec![
        SlotMeta::writable_signer(Slot::Header(PAYER)),
        SlotMeta::readonly(Slot::Pool(2)),
        SlotMeta::writable(Slot::Pool(1)),
        SlotMeta::writable(leg.input.account()),
        SlotMeta::writable(leg.output.account()),
        SlotMeta::writable(Slot::Pool(input_vault)),
        SlotMeta::writable(Slot::Pool(output_vault)),
        SlotMeta::writable(Slot::Pool(3)),
        SlotMeta::readonly(Slot::Header(TOKEN_PROGRAM)),
        SlotMeta::readonly(Slot::Header(TOKEN_2022_PROGRAM)),
        SlotMeta::readonly(Slot::Header(MEMO_PROGRAM)),
        SlotMeta::readonly(leg.input.mint()),
        SlotMeta::readonly(leg.output.mint()),
        SlotMeta { slot: Slot::Pool(4), is_writable: bitmap_writable, is_signer: false },
        SlotMeta::writable(Slot::Pool(7)),
        SlotMeta::writable(Slot::Pool(8)),
        SlotMeta::writable(Slot::Pool(9)),
    ];
    let mut data: Vec<u8> = vec![43u8, 4, 237, 11, 26, 201, 30, 98];
    push_u64_le(&mut data, amount);
    push_repeated(&mut data, 0, 24);
    data.push(1);
    let r = CpiPlan { program: Slot::Pool(0), metas, data };
    assert(r@.metas =~= clmm_plan(amount, leg, bitmap_writable).metas);
    assert(r@.data =~= clmm_plan(amount, leg, bitmap_writable).data);
    r
}

/// The concentrated-liquidity swap of a two-hop chain; `is_wsol_token_0`
/// says whether the reference asset is the pool's token 0.
pub fn execute_clmm_swap(trade_amount: u64, is_buy: bool, is_wsol_token_0: bool) -> (r: CpiPlan)
    ensures
        r@ == clmm_plan(trade_amount, two_hop_leg(is_buy, is_wsol_token_0), true),
{
    clmm_instruction(trade_amount, Leg::two_hop(is_buy, is_wsol_token_0), true)
}

/// The concentrated-liquidity swap of step 1, 2 or 3 of a three-hop chain;
/// step 1 is the two-hop buy, the later steps leave the bitmap extension
/// read-only; any other step is `UnsupportedPoolType`.
pub fn execute_clmm_swap_hop3(trade_amount: u64, step: u8, is_wsol_token_0: bool) -> (r:
    PinocchioResult<CpiPlan>)
    ensures
        plan_result_view(r) == clmm_hop3_plan(trade_amount, step, is_wsol_token_0),
{
    match Leg::three_hop(step, is_wsol_token_0) {
        Some(leg) => Ok(clmm_instruction(trade_amount, leg, step == 1)),
        None => Err(PinocchioCpiError::UnsupportedPoolType),
    }
}

/// Every account of a concentrated-liquidity swap lies within the leg's
/// header and the protocol's account group.
pub proof fn lemma_clmm_plan_within(amount: u64, leg: Leg, bitmap_writable: bool)
    ensures
        plan_within(
            clmm_plan(amount, leg, bitmap_writable),
            leg_header_len(leg),
            CLMM_ACCOUNT_COUNT as nat,
        ),
{
    let metas = clmm_plan(amount, leg, bitmap_writable).metas;
    assert forall|k: int| 0 <= k < metas.len() implies slot_within(
        #[trigger] metas[k].slot,
        leg_header_len(leg),
        CLMM_ACCOUNT_COUNT as nat,
    ) by {}
}

} // verus!
