use vstd::bytes::spec_u64_to_le_bytes;
use vstd::prelude::*;

use crate::error::{PinocchioCpiError, PinocchioResult};
use crate::plan::{
    leg_first, leg_header_len, leg_second, plan_result_view, plan_within, push_repeated, push_u64_le, ro, rw,
    rw_signer, slot_within, three_hop_leg, two_hop_leg, zeros, CpiPlan, Leg, PlanView, Slot,
    SlotMeta, PAYER,
};
use crate::registry::PUMP_ACCOUNT_COUNT;

verus! {

/// Discriminator of the bonding-curve `buy` instruction.
pub open spec fn pump_buy_discriminator() -> Seq<u8> {
    seq![102u8, 6, 61, 18, 1, 218, 235, 234]
}

/// Discriminator of the bonding-curve `sell` instruction.
pub open spec fn pump_sell_discriminator() -> Seq<u8> {
    seq![51u8, 230, 133, 164, 1, 127, 131, 173]
}

/// `n` bytes of 0xff.
pub open spec fn ones(n: nat) -> Seq<u8> {
    Seq::new(n, |i: int| 0xffu8)
}

/// The accounts that the buy and the sell instruction share, in order.
/// Protocol accounts: program (0), pool (1), global config (2), event
/// authority (3), creator vault account and authority (4, 5), fee recipient
/// and its token account (6, 7), global and user volume accumulators (8, 9),
/// system and associated-token programs (10, 11), base and quote vaults (12,
/// 13), fee config and fee program (14, 15). The base token is the pool's
/// first asset.
pub open spec fn pump_shared_metas(leg: Leg) -> Seq<SlotMeta> {
    seq![
        ro(Slot::Pool(1)),
        rw_signer(Slot::Header(PAYER)),
        ro(Slot::Pool(2)),
        ro(Slot::Header(leg_first(leg).spec_mint())),
        ro(Slot::Header(leg_second(leg).spec_mint())),
        rw(Slot::Header(leg_first(leg).spec_account())),
        rw(Slot::Header(leg_second(leg).spec_account())),
        rw(Slot::Pool(12)),
        rw(Slot::Pool(13)),
        ro(Slot::Pool(6)),
        rw(Slot::Pool(7)),
        ro(Slot::Header(leg_first(leg).spec_program())),
        ro(Slot::Header(leg_second(leg).spec_program())),
        ro(Slot::Pool(10)),
        ro(Slot::Pool(11)),
        ro(Slot::Pool(3)),
        ro(Slot::Pool(0)),
        rw(Slot::Pool(4)),
        ro(Slot::Pool(5)),
    ]
}

/// The bonding-curve buy (quote paid for base): `amount` is the base amount
/// wanted, and the quote that may be spent is unbounded (all ones).
pub open spec fn pump_buy_plan(amount: u64, leg: Leg) -> PlanView {
    PlanView {
        program: Slot::Pool(0),
        metas: pump_shared_metas(leg) + seq![
            rw(Slot::Pool(8)),
            rw(Slot::Pool(9)),
            ro(Slot::Pool(14)),
            ro(Slot::Pool(15)),
        ],
        data: pump_buy_discriminator() + spec_u64_to_le_bytes(amount) + ones(8),
    }
}

/// The bonding-curve sell (base paid for quote): `amount` is the base amount
/// paid, with a zero minimum quote output.
pub open spec fn pump_sell_plan(amount: u64, leg: Leg) -> PlanView {
    PlanView {
        program: Slot::Pool(0),
        metas: pump_shared_metas(leg) + seq![ro(Slot::Pool(14)), ro(Slot::Pool(15))],
        data: pump_sell_discriminator() + spec_u64_to_le_bytes(amount) + zeros(8),
    }
}

/// A leg that pays the base token is a sell; one that receives it is a buy.
pub open spec fn pump_plan(amount: u64, leg: Leg) -> PlanView {
    if leg.input_is_first {
        pump_sell_plan(amount, leg)
    } else {
        pump_buy_plan(amount, leg)
    }
}

/// The amount a two-hop bonding-curve leg carries: buying the target token
/// as base is priced in base units, so it carries the requested base output;
/// every other leg carries the trade amount.
pub open spec fn pump_two_hop_amount(
    trade_amount: u64,
    is_buy: bool,
    is_wsol_base: bool,
    pump_base_amount_out: u64,
) -> u64 {
    if is_buy && !is_wsol_base {
        pump_base_amount_out
    } else {
        trade_amount
    }
}

/// The three-hop form: step 1 is the two-hop buy, step 3 sells the second
/// intermediate token for the reference asset, step 2 is `PumpNotSupported`,
/// any other step `UnsupportedPoolType`.
pub open spec fn pump_hop3_plan(
    trade_amount: u64,
    step: u8,
    is_wsol_base: bool,
    pump_base_amount_out: u64,
) -> Result<PlanView, PinocchioCpiError> {
    if step == 1 {
        Ok(
            pump_plan(
                pump_two_hop_amount(trade_amount, true, is_wsol_base, pump_base_amount_out),
                two_hop_leg(true, is_wsol_base),
            ),
        )
    } else if step == 2 {
        Err(PinocchioCpiError::PumpNotSupported)
    } else {
        match three_hop_leg(step, is_wsol_base) {
            Some(leg) => Ok(pump_plan(trade_amount, leg)),
            None => Err(PinocchioCpiError::UnsupportedPoolType),
        }
    }
}

/// The shared accounts, built for either instruction.
fn pump_shared_accounts(leg: Leg) -> (r: Vec<SlotMeta>)
    ensures
        r@ == pump_shared_metas(leg),
{
    let base = leg.first();
    let quote = leg.second();
    let r: Vec<SlotMeta> = vec![
        SlotMeta::readonly(Slot::Pool(1)),
        SlotMeta::writable_signer(Slot::Header(PAYER)),
        SlotMeta::readonly(Slot::Pool(2)),
        SlotMeta::readonly(base.mint()),
        SlotMeta::readonly(quote.mint()),
        SlotMeta::writable(base.account()),
        SlotMeta::writable(quote.account()),
        SlotMeta::writable(Slot::Pool(12)),
        SlotMeta::writable(Slot::Pool(13)),
        SlotMeta::readonly(Slot::Pool(6)),
        SlotMeta::writable(Slot::Pool(7)),
        SlotMeta::readonly(base.program()),
        SlotMeta::readonly(quote.program()),
        SlotMeta::readonly(Slot::Pool(10)),
        SlotMeta::readonly(Slot::Pool(11)),
        SlotMeta::readonly(Slot::Pool(3)),
        SlotMeta::readonly(Slot::Pool(0)),
        SlotMeta::writable(Slot::Pool(4)),
        SlotMeta::readonly(Slot::Pool(5)),
    ];
    assert(r@ =~= pump_shared_metas(leg));
    r
}

/// Lays out the bonding-curve buy of `amount` base units along `leg`.
pub fn pump_buy(amount: u64, leg: Leg) -> (r: CpiPlan)
    ensures
        r@ == pump_buy_plan(amount, leg),
{
    let mut metas = pump_shared_accounts(leg);
    metas.push(SlotMeta::writable(Slot::Pool(8)));
    metas.push(SlotMeta::writable(Slot::Pool(9)));
    metas.push(SlotMeta::readonly(Slot::Pool(14)));
    metas.push(SlotMeta::readonly(Slot::Pool(15)));
    let mut data: Vec<u8> = vec![102u8, 6, 61, 18, 1, 218, 235, 234];
    push_u64_le(&mut data, amount);
    push_repeated(&mut data, 0xff, 8);
    let r = CpiPlan { program: Slot::Pool(0), metas, data };
    assert(r@.metas =~= pump_buy_plan(amount, leg).metas);
    assert(r@.data =~= pump_buy_plan(amount, leg).data);
    r
}

/// Lays out the bonding-curve sell of `amount` base units along `leg`.
pub fn pump_sell(amount: u64, leg: Leg) -> (r: CpiPlan)
    ensures
        r@ == pump_sell_plan(amount, leg),
{
    let mut metas = pump_shared_accounts(leg);
    metas.push(SlotMeta::readonly(Slot::Pool(14)));
    metas.push(SlotMeta::readonly(Slot::Pool(15)));
    let mut data: Vec<u8> = vec![51u8, 230, 133, 164, 1, 127, 131, 173];
    push_u64_le(&mut data, amount);
    push_repeated(&mut data, 0, 8);
    let r = CpiPlan { program: Slot::Pool(0), metas, data };
    assert(r@.metas =~= pump_sell_plan(amount, leg).metas);
    assert(r@.data =~= pump_sell_plan(amount, leg).data);
    r
}

/// Lays out the bonding-curve instruction that moves `leg`'s tokens.
pub fn pump_instruction(amount: u64, leg: Leg) -> (r: CpiPlan)
    ensures
        r@ == pump_plan(amount, leg),
{
    if leg.input_is_first {
        pump_sell(amount, leg)
    } else {
        pump_buy(amount, leg)
    }
}

/// The bonding-curve swap of a two-hop chain; `is_wsol_base` says whether
/// the reference asset is the base token. Buying the target token as base
/// asks for `pump_base_amount_out` base units; every other leg moves
/// `trade_amount`.
pub fn execute_pump_swap(
    trade_amount: u64,
    is_buy: bool,
    is_wsol_base: bool,
    pump_base_amount_out: u64,
) -> (r: CpiPlan)
    ensures
        r@ == pump_plan(
            pump_two_hop_amount(trade_amount, is_buy, is_wsol_base, pump_base_amount_out),
            two_hop_leg(is_buy, is_wsol_base),
        ),
{
    let amount: u64 = if is_buy && !is_wsol_base {
        pump_base_amount_out
    } else {
        trade_amount
    };
    pump_instruction(amount, Leg::two_hop(is_buy, is_wsol_base))
}

/// The bonding-curve swap of a three-hop chain: step 1 is the two-hop buy,
/// step 3 sells the second intermediate token for the reference asset, and
/// step 2 is `PumpNotSupported`, since the curve always trades against the
/// reference asset; any other step is `UnsupportedPoolType`.
pub fn execute_pump_swap_hop3(
    trade_amount: u64,
    step: u8,
    is_wsol_base: bool,
    pump_base_amount_out: u64,
) -> (r: PinocchioResult<CpiPlan>)
    ensures
        plan_result_view(r) == pump_hop3_plan(trade_amount, step, is_wsol_base, pump_base_amount_out),
{
    match step {
        1 => Ok(execute_pump_swap(trade_amount, true, is_wsol_base, pump_base_amount_out)),
        2 => Err(PinocchioCpiError::PumpNotSupported),
        3 => match Leg::three_hop(step, is_wsol_base) {
            Some(leg) => Ok(pump_instruction(trade_amount, leg)),
            None => Err(PinocchioCpiError::UnsupportedPoolType),
        },
        _ => Err(PinocchioCpiError::UnsupportedPoolType),
    }
}

/// Every account of a bonding-curve swap lies within the leg's header and
/// the protocol's account group.
pub proof fn lemma_pump_plan_within(amount: u64, leg: Leg)
    ensures
        plan_within(pump_plan(amount, leg), leg_header_len(leg), PUMP_ACCOUNT_COUNT as nat),
{
    let metas = pump_plan(amount, leg).metas;
    assert forall|k: int| 0 <= k < metas.len() implies slot_within(
        #[trigger] metas[k].slot,
        leg_header_len(leg),
        PUMP_ACCOUNT_COUNT as nat,
    ) by {}
}

} // verus!
