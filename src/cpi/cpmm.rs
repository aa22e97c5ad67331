use vstd::bytes::spec_u64_to_le_bytes;
use vstd::prelude::*;

use crate::error::{PinocchioCpiError, PinocchioResult};
use crate::plan::{
    leg_header_len, plan_result_view, plan_within, push_repeated, push_u64_le, ro, rw, rw_signer, three_hop_leg,
    two_hop_leg, zeros, CpiPlan, Leg, PlanView, Slot, SlotMeta, PAYER,
};
use crate::registry::CPMM_ACCOUNT_COUNT;

verus! {

/// Discriminator of the constant-product `swap_base_input` instruction.
pub open spec fn cpmm_discriminator() -> Seq<u8> {
    seq![143u8, 190, 90, 218, 196, 30, 51, 222]
}

/// The protocol vault holding the leg's input token (vaults sit at 5 and 6,
/// in pool order).
pub open spec fn cpmm_input_vault(leg: Leg) -> usize {
    if leg.input_is_first {
        5
    } else {
        6
    }
}

pub open spec fn cpmm_output_vault(leg: Leg) -> usize {
    if leg.input_is_first {
        6
    } else {
        5
    }
}

/// The constant-product swap: protocol accounts are program (0), authority
/// (1), amm config (2), observation state (3), pool state (4) and the two
/// vaults (5, 6); data is the discriminator, the input amount and a zero
/// minimum output.
pub open spec fn cpmm_plan(amount: u64, leg: Leg) -> PlanView {
    PlanView {
        program: Slot::Pool(0),
        metas: seq![
            rw_signer(Slot::Header(PAYER)),
            ro(Slot::Pool(1)),
            ro(Slot::Pool(2)),
            rw(Slot::Pool(4)),
            rw(Slot::Header(leg.input.spec_account())),
            rw(Slot::Header(leg.output.spec_account())),
            rw(Slot::Pool(cpmm_input_vault(leg))),
            rw(Slot::Pool(cpmm_output_vault(leg))),
            ro(Slot::Header(leg.input.spec_program())),
            ro(Slot::Header(leg.output.spec_program())),
            ro(Slot::Header(leg.input.spec_mint())),
            ro(Slot::Header(leg.output.spec_mint())),
            rw(Slot::Pool(3)),
        ],
        data: cpmm_discriminator() + spec_u64_to_le_bytes(amount) + zeros(8),
    }
}

/// The three-hop form: the leg that the step names, or `UnsupportedPoolType`
/// for a step outside 1 to 3.
pub open spec fn cpmm_hop3_plan(amount: u64, step: u8, flag: bool) -> Result<PlanView, PinocchioCpiError> {
    match three_hop_leg(step, flag) {
        Some(leg) => Ok(cpmm_plan(amount, leg)),
        None => Err(PinocchioCpiError::UnsupportedPoolType),
    }
}

/// Lays out the constant-product swap of `amount` along `leg`.
pub fn cpmm_instruction(amount: u64, leg: Leg) -> (r: CpiPlan)
    ensures
        r@ == cpmm_plan(amount, leg),
{
    let (input_vault, output_vault): (usize, usize) = if leg.input_is_first {
        (5usize, 6usize)
    } else {
        (6usize, 5usize)
    };
    let metas: Vec<SlotMeta> = vec![
        SlotMeta::writable_signer(Slot::Header(PAYER)),
        SlotMeta::readonly(Slot::Pool(1)),
        SlotMeta::readonly(Slot::Pool(2)),
        SlotMeta::writable(Slot::Pool(4)),
        SlotMeta::writable(leg.input.account()),
        SlotMeta::writable(leg.output.account()),
        SlotMeta::writable(Slot::Pool(input_vault)),
        SlotMeta::writable(Slot::Pool(output_vault)),
        SlotMeta::readonly(leg.input.program()),
        SlotMeta::readonly(leg.output.program()),
        SlotMeta::readonly(leg.input.mint()),
        SlotMeta::readonly(leg.output.mint()),
        SlotMeta::writable(Slot::Pool(3)),
    ];
    let mut data: Vec<u8> = vec![143u8, 190, 90, 218, 196, 30, 51, 222];
    push_u64_le(&mut data, amount);
    push_repeated(&mut data, 0, 8);
    let r = CpiPlan { program: Slot::Pool(0), metas, data };
    assert(r@.metas =~= cpmm_plan(amount, leg).metas);
    assert(r@.data =~= cpmm_plan(amount, leg).data);
    r
}

/// The constant-product swap of a two-hop chain: a buy pays the reference
/// asset for the target token, a sell the reverse; `is_wsol_pool_0` says
/// whether the reference asset is the pool's first token.
pub fn execute_cpmm_swap(trade_amount: u64, is_buy: bool, is_wsol_pool_0: bool) -> (r: CpiPlan)
    ensures
        r@ == cpmm_plan(trade_amount, two_hop_leg(is_buy, is_wsol_pool_0)),
{
    cpmm_instruction(trade_amount, Leg::two_hop(is_buy, is_wsol_pool_0))
}

/// The constant-product swap of step 1, 2 or 3 of a three-hop chain; any
/// other step is `UnsupportedPoolType`.
pub fn execute_cpmm_swap_hop3(trade_amount: u64, step: u8, is_wsol_pool_0: bool) -> (r:
    PinocchioResult<CpiPlan>)
    ensures
        plan_result_view(r) == cpmm_hop3_plan(trade_amount, step, is_wsol_pool_0),
{
    match Leg::three_hop(step, is_wsol_pool_0) {
        Some(leg) => Ok(cpmm_instruction(trade_amount, leg)),
        None => Err(PinocchioCpiError::UnsupportedPoolType),
    }
}

/// Every account of a constant-product swap lies within the leg's header and
/// the protocol's account group.
pub proof fn lemma_cpmm_plan_within(amount: u64, leg: Leg)
    ensures
        plan_within(cpmm_plan(amount, leg), leg_header_len(leg), CPMM_ACCOUNT_COUNT as nat),
{
    let metas = cpmm_plan(amount, leg).metas;
    assert forall|k: int| 0 <= k < metas.len() implies crate::plan::slot_within(
        #[trigger] metas[k].slot,
        leg_header_len(leg),
        CPMM_ACCOUNT_COUNT as nat,
    ) by {}
}

} // verus!
