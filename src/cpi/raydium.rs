use vstd::bytes::spec_u64_to_le_bytes;
use vstd::prelude::*;

use crate::error::{PinocchioCpiError, PinocchioResult};
use crate::plan::{
    leg_header_len, plan_result_view, plan_within, push_repeated, push_u64_le, ro, rw, rw_signer, slot_within,
    three_hop_leg, two_hop_leg, zeros, Asset, CpiPlan, Leg, PlanView, Slot, SlotMeta, PAYER,
};
use crate::registry::RAYDIUM_ACCOUNT_COUNT;

verus! {

/// The token program the legacy AMM is handed: that of the leg's token other
/// than the reference asset, the input's when neither is the reference asset.
pub open spec fn raydium_token_program(leg: Leg) -> usize {
    if leg.input == Asset::Wsol {
        leg.output.spec_program()
    } else {
        leg.input.spec_program()
    }
}

/// The legacy order-book-hybrid swap: protocol accounts are program (0),
/// authority (1), amm (2) and the pool's coin and pc accounts (3, 4); the amm
/// account stands in for the open orders and every order-book account. The
/// direction follows from the user's source account, so the order flag is
/// not used. Data is the one-byte tag 9, the input amount and a zero minimum
/// output.
pub open spec fn raydium_plan(amount: u64, leg: Leg) -> PlanView {
    PlanView {
        program: Slot::Pool(0),
        metas: seq![
            ro(Slot::Header(raydium_token_program(leg))),
            rw(Slot::Pool(2)),
            ro(Slot::Pool(1)),
            rw(Slot::Pool(2)),
            rw(Slot::Pool(3)),
            rw(Slot::Pool(4)),
            rw(Slot::Pool(2)),
            rw(Slot::Pool(2)),
            rw(Slot::Pool(2)),
            rw(Slot::Pool(2)),
            rw(Slot::Pool(2)),
            rw(Slot::Pool(2)),
            rw(Slot::Pool(2)),
            rw(Slot::Pool(2)),
            rw(Slot::Header(leg.input.spec_account())),
            rw(Slot::Header(leg.output.spec_account())),
            rw_signer(Slot::Header(PAYER)),
        ],
        data: seq![9u8] + spec_u64_to_le_bytes(amount) + zeros(8),
    }
}

/// The three-hop form: the leg that the step names, or `UnsupportedPoolType`
/// for a step outside 1 to 3.
pub open spec fn raydium_hop3_plan(amount: u64, step: u8, flag: bool) -> Result<PlanView, PinocchioCpiError> {
    match three_hop_leg(step, flag) {
        Some(leg) => Ok(raydium_plan(amount, leg)),
        None => Err(PinocchioCpiError::UnsupportedPoolType),
    }
}

/// Lays out the legacy order-book-hybrid swap of `amount` along `leg`.
pub fn raydium_instruction(amount: u64, leg: Leg) -> (r: CpiPlan)
    ensures
        r@ == raydium_plan(amount, leg),
{
    let token_program = if leg.input == Asset::Wsol {
        leg.output.program()
    } else {
        leg.input.program()
    };
    let amm = Slot::Pool(2);
    let metas: Vec<SlotMeta> = vec![
        SlotMeta::readonly(token_program),
        SlotMeta::writable(amm),
        SlotMeta::readonly(Slot::Pool(1)),
        SlotMeta::writable(amm),
        SlotMeta::writable(Slot::Pool(3)),
        SlotMeta::writable(Slot::Pool(4)),
        SlotMeta::writable(amm),
        SlotMeta::writable(amm),
        SlotMeta::writable(amm),
        SlotMeta::writable(amm),
        SlotMeta::writable(amm),
        SlotMeta::writable(amm),
        SlotMeta::writable(amm),
        SlotMeta::writable(amm),
        SlotMeta::writable(leg.input.account()),
        SlotMeta::writable(leg.output.account()),
        SlotMeta::writable_signer(Slot::Header(PAYER)),
    ];
    let mut data: Vec<u8> = vec![9u8];
    push_u64_le(&mut data, amount);
    push_repeated(&mut data, 0, 8);
    let r = CpiPlan { program: Slot::Pool(0), metas, data };
    assert(r@.metas =~= raydium_plan(amount, leg).metas);
    assert(r@.data =~= raydium_plan(amount, leg).data);
    r
}

/// The legacy order-book-hybrid swap of a two-hop chain; the order flag is
/// accepted for a uniform interface and does not change the instruction.
pub fn execute_raydium_swap(trade_amount: u64, is_buy: bool, is_wsol_pool_0: bool) -> (r: CpiPlan)
    ensures
        r@ == raydium_plan(trade_amount, two_hop_leg(is_buy, is_wsol_pool_0)),
{
    raydium_instruction(trade_amount, Leg::two_hop(is_buy, is_wsol_pool_0))
}

/// The legacy order-book-hybrid swap of step 1, 2 or 3 of a three-hop chain;
/// any other step is `UnsupportedPoolType`.
pub fn execute_raydium_swap_hop3(trade_amount: u64, step: u8, is_wsol_pool_0: bool) -> (r:
    PinocchioResult<CpiPlan>)
    ensures
        plan_result_view(r) == raydium_hop3_plan(trade_amount, step, is_wsol_pool_0),
{
    match Leg::three_hop(step, is_wsol_pool_0) {
        Some(leg) => Ok(raydium_instruction(trade_amount, leg)),
        None => Err(PinocchioCpiError::UnsupportedPoolType),
    }
}

/// Every account of a legacy order-book-hybrid swap lies within the leg's
/// header and the protocol's account group.
pub proof fn lemma_raydium_plan_within(amount: u64, leg: Leg)
    ensures
        plan_within(raydium_plan(amount, leg), leg_header_len(leg), RAYDIUM_ACCOUNT_COUNT as nat),
{
    let metas = raydium_plan(amount, leg).metas;
    assert forall|k: int| 0 <= k < metas.len() implies slot_within(
        #[trigger] metas[k].slot,
        leg_header_len(leg),
        RAYDIUM_ACCOUNT_COUNT as nat,
    ) by {}
}

} // verus!
