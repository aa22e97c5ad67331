use vstd::bytes::spec_u64_to_le_bytes;
use vstd::prelude::*;

use crate::error::{PinocchioCpiError, PinocchioResult};
use crate::plan::{
    leg_first, leg_header_len, leg_second, plan_result_view, plan_within, push_repeated, push_u64_le, ro, rw,
    rw_signer, slot_within, three_hop_leg, two_hop_leg, zeros, CpiPlan, Leg, PlanView, Slot,
    SlotMeta, PAYER,
};
use crate::registry::DAMMV2_ACCOUNT_COUNT;

verus! {

/// Discriminator of the dynamic concentrated-liquidity (v2) `swap` instruction.
pub open spec fn dammv2_discriminator() -> Seq<u8> {
    seq![248u8, 198, 158, 145, 225, 117, 135, 200]
}

/// The dynamic concentrated-liquidity (v2) swap: protocol accounts are
/// program (0), event authority (1), pool authority (2), pool (3) and the
/// vaults of tokens a and b (4, 5); token a is the pool's first asset, and
/// the program id stands in for the absent referral account. Data is the
/// discriminator, the input amount and a zero minimum output.
pub open spec fn dammv2_plan(amount: u64, leg: Leg) -> PlanView {
    PlanView {
        program: Slot::Pool(0),
        metas: seq![
            ro(Slot::Pool(2)),
            rw(Slot::Pool(3)),
            rw(Slot::Header(leg.input.spec_account())),
            rw(Slot::Header(leg.output.spec_account())),
            rw(Slot::Pool(4)),
            rw(Slot::Pool(5)),
            ro(Slot::Header(leg_first(leg).spec_mint())),
            ro(Slot::Header(leg_second(leg).spec_mint())),
            rw_signer(Slot::Header(PAYER)),
            ro(Slot::Header(leg_first(leg).spec_program())),
            ro(Slot::Header(leg_second(leg).spec_program())),
            ro(Slot::Pool(0)),
            ro(Slot::Pool(1)),
            ro(Slot::Pool(0)),
        ],
        data: dammv2_discriminator() + spec_u64_to_le_bytes(amount) + zeros(8),
    }
}

/// The three-hop form: the leg that the step names, or `UnsupportedPoolType`
/// for a step outside 1 to 3.
pub open spec fn dammv2_hop3_plan(amount: u64, step: u8, flag: bool) -> Result<PlanView, PinocchioCpiError> {
    match three_hop_leg(step, flag) {
        Some(leg) => Ok(dammv2_plan(amount, leg)),
        None => Err(PinocchioCpiError::UnsupportedPoolType),
    }
}

/// Lays out the dynamic concentrated-liquidity (v2) swap of `amount` along `leg`.
pub fn dammv2_instruction(amount: u64, leg: Leg) -> (r: CpiPlan)
    ensures
        r@ == dammv2_plan(amount, leg),
{
    let a = leg.first();
    let b = leg.second();
    let metas: Vec<SlotMeta> = vec![
        SlotMeta::readonly(Slot::Pool(2)),
        SlotMeta::writable(Slot::Pool(3)),
        SlotMeta::writable(leg.input.account()),
        SlotMeta::writable(leg.output.account()),
        SlotMeta::writable(Slot::Pool(4)),
        SlotMeta::writable(Slot::Pool(5)),
        SlotMeta::readonly(a.mint()),
        SlotMeta::readonly(b.mint()),
        SlotMeta::writable_signer(Slot::Header(PAYER)),
        SlotMeta::readonly(a.program()),
        SlotMeta::readonly(b.program()),
        SlotMeta::readonly(Slot::Pool(0)),
        SlotMeta::readonly(Slot::Pool(1)),
        SlotMeta::readonly(Slot::Pool(0)),
    ];
    let mut data: Vec<u8> = vec![248u8, 198, 158, 145, 225, 117, 135, 200];
    push_u64_le(&mut data, amount);
    push_repeated(&mut data, 0, 8);
    let r = CpiPlan { program: Slot::Pool(0), metas, data };
    assert(r@.metas =~= dammv2_plan(amount, leg).metas);
    assert(r@.data =~= dammv2_plan(amount, leg).data);
    r
}

/// The dynamic concentrated-liquidity (v2) swap of a two-hop chain;
/// `is_wsol_token_a` says whether the reference asset is token a.
pub fn execute_dammv2_swap(trade_amount: u64, is_buy: bool, is_wsol_token_a: bool) -> (r: CpiPlan)
    ensures
        r@ == dammv2_plan(trade_amount, two_hop_leg(is_buy, is_wsol_token_a)),
{
    dammv2_instruction(trade_amount, Leg::two_hop(is_buy, is_wsol_token_a))
}

/// The dynamic concentrated-liquidity (v2) swap of step 1, 2 or 3 of a
/// three-hop chain; any other step is `UnsupportedPoolType`.
pub fn execute_dammv2_swap_hop3(trade_amount: u64, step: u8, is_wsol_token_a: bool) -> (r:
    PinocchioResult<CpiPlan>)
    ensures
        plan_result_view(r) == dammv2_hop3_plan(trade_amount, step, is_wsol_token_a),
{
    match Leg::three_hop(step, is_wsol_token_a) {
        Some(leg) => Ok(dammv2_instruction(trade_amount, leg)),
        None => Err(PinocchioCpiError::UnsupportedPoolType),
    }
}

/// Every account of a dynamic concentrated-liquidity (v2) swap lies within
/// the leg's header and the protocol's account group.
pub proof fn lemma_dammv2_plan_within(amount: u64, leg: Leg)
    ensures
        plan_within(dammv2_plan(amount, leg), leg_header_len(leg), DAMMV2_ACCOUNT_COUNT as nat),
{
    let metas = dammv2_plan(amount, leg).metas;
    assert forall|k: int| 0 <= k < metas.len() implies slot_within(
        #[trigger] metas[k].slot,
        leg_header_len(leg),
        DAMMV2_ACCOUNT_COUNT as nat,
    ) by {}
}

} // verus!
