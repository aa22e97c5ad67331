use arb_cpi::cpi::clmm::{execute_clmm_swap, execute_clmm_swap_hop3};
use arb_cpi::cpi::cpmm::{execute_cpmm_swap, execute_cpmm_swap_hop3};
use arb_cpi::cpi::dammv2::{execute_dammv2_swap, execute_dammv2_swap_hop3};
use arb_cpi::cpi::dlmm::{execute_dlmm_swap, execute_dlmm_swap_hop3};
use arb_cpi::cpi::pump::{execute_pump_swap, execute_pump_swap_hop3};
use arb_cpi::cpi::raydium::{execute_raydium_swap, execute_raydium_swap_hop3};
use arb_cpi::cpi::whirlpool::{execute_whirlpool_swap, execute_whirlpool_swap_hop3};
use arb_cpi::error::PinocchioCpiError;
use arb_cpi::plan::{CpiPlan, Slot, SlotMeta};

const AMOUNT: u64 = 0x0102_0304_0506_0708;
const AMOUNT_LE: [u8; 8] = [8, 7, 6, 5, 4, 3, 2, 1];

fn h(i: usize) -> Slot {
    Slot::Header(i)
}

fn p(j: usize) -> Slot {
    Slot::Pool(j)
}

fn ro(slot: Slot) -> SlotMeta {
    SlotMeta { slot, is_writable: false, is_signer: false }
}

fn rw(slot: Slot) -> SlotMeta {
    SlotMeta { slot, is_writable: true, is_signer: false }
}

fn signer(slot: Slot) -> SlotMeta {
    SlotMeta { slot, is_writable: true, is_signer: true }
}

fn data_of(parts: &[&[u8]]) -> Vec<u8> {
    parts.iter().flat_map(|p| p.iter().copied()).collect()
}

const COMBOS: [(bool, bool); 4] = [(true, true), (true, false), (false, true), (false, false)];

// (input account, output account) of a two-hop leg.
fn user_accounts(is_buy: bool) -> (usize, usize) {
    if is_buy { (2, 8) } else { (8, 2) }
}

#[test]
fn cpmm_instruction_layout_buy_wsol_first() {
    let plan = execute_cpmm_swap(AMOUNT, true, true);
    assert_eq!(plan.program, p(0));
    assert_eq!(
        plan.metas,
        vec![
            signer(h(0)),
            ro(p(1)),
            ro(p(2)),
            rw(p(4)),
            rw(h(2)),
            rw(h(8)),
            rw(p(5)),
            rw(p(6)),
            ro(h(3)),
            ro(h(7)),
            ro(h(1)),
            ro(h(6)),
            rw(p(3)),
        ]
    );
    assert_eq!(
        plan.data,
        data_of(&[&[143, 190, 90, 218, 196, 30, 51, 222], &AMOUNT_LE, &[0; 8]])
    );
}

#[test]
fn cpmm_routes_for_all_four_combinations() {
    for (is_buy, flag) in COMBOS {
        let plan = execute_cpmm_swap(AMOUNT, is_buy, flag);
        let (input, output) = user_accounts(is_buy);
        let (in_vault, out_vault) = if is_buy == flag { (5, 6) } else { (6, 5) };
        assert_eq!(plan.metas[4], rw(h(input)));
        assert_eq!(plan.metas[5], rw(h(output)));
        assert_eq!(plan.metas[6], rw(p(in_vault)));
        assert_eq!(plan.metas[7], rw(p(out_vault)));
        let (in_prog, out_prog) = if is_buy { (3, 7) } else { (7, 3) };
        assert_eq!(plan.metas[8], ro(h(in_prog)));
        assert_eq!(plan.metas[9], ro(h(out_prog)));
    }
}

#[test]
fn cpmm_three_hop_mid_and_sell_use_second_token() {
    let mid = execute_cpmm_swap_hop3(AMOUNT, 2, true).unwrap();
    assert_eq!(mid.metas[4], rw(h(8)));
    assert_eq!(mid.metas[5], rw(h(11)));
    assert_eq!(mid.metas[6], rw(p(5)));
    assert_eq!(mid.metas[7], rw(p(6)));
    assert_eq!(&mid.metas[8..12], &[ro(h(7)), ro(h(10)), ro(h(6)), ro(h(9))]);
    let mid_flipped = execute_cpmm_swap_hop3(AMOUNT, 2, false).unwrap();
    assert_eq!(mid_flipped.metas[6], rw(p(6)));
    let sell = execute_cpmm_swap_hop3(AMOUNT, 3, true).unwrap();
    assert_eq!(sell.metas[4], rw(h(11)));
    assert_eq!(sell.metas[5], rw(h(2)));
    assert_eq!(sell.metas[6], rw(p(6)));
    assert_eq!(sell.metas[7], rw(p(5)));
    assert_eq!(&sell.metas[8..12], &[ro(h(10)), ro(h(3)), ro(h(9)), ro(h(1))]);
    let buy = execute_cpmm_swap_hop3(AMOUNT, 1, false).unwrap();
    assert_eq!(buy.metas, execute_cpmm_swap(AMOUNT, true, false).metas);
    assert_eq!(
        execute_cpmm_swap_hop3(AMOUNT, 4, true).unwrap_err(),
        PinocchioCpiError::UnsupportedPoolType
    );
    assert_eq!(
        execute_cpmm_swap_hop3(AMOUNT, 0, true).unwrap_err(),
        PinocchioCpiError::UnsupportedPoolType
    );
}

#[test]
fn dlmm_instruction_layout_sell_wsol_is_x() {
    let plan = execute_dlmm_swap(AMOUNT, false, true);
    assert_eq!(
        plan.metas,
        vec![
            rw(p(3)),
            ro(p(0)),
            rw(p(4)),
            rw(p(5)),
            rw(h(8)),
            rw(h(2)),
            ro(h(1)),
            ro(h(6)),
            rw(p(2)),
            ro(p(0)),
            signer(h(0)),
            ro(h(3)),
            ro(h(7)),
            ro(h(5)),
            ro(p(1)),
            ro(p(0)),
            rw(p(6)),
            rw(p(7)),
            rw(p(8)),
        ]
    );
    assert_eq!(
        plan.data,
        data_of(&[&[65, 75, 63, 76, 235, 91, 91, 136], &AMOUNT_LE, &[0; 8], &[0; 4]])
    );
    assert_eq!(plan.data.len(), 28);
}

#[test]
fn dlmm_routes_for_all_four_combinations() {
    for (is_buy, flag) in COMBOS {
        let plan = execute_dlmm_swap(AMOUNT, is_buy, flag);
        let (input, output) = user_accounts(is_buy);
        assert_eq!(plan.metas[4], rw(h(input)));
        assert_eq!(plan.metas[5], rw(h(output)));
        assert_eq!(plan.metas[2], rw(p(4)));
        assert_eq!(plan.metas[3], rw(p(5)));
        let (x_mint, y_mint, x_prog, y_prog) = if flag { (1, 6, 3, 7) } else { (6, 1, 7, 3) };
        assert_eq!(plan.metas[6], ro(h(x_mint)));
        assert_eq!(plan.metas[7], ro(h(y_mint)));
        assert_eq!(plan.metas[11], ro(h(x_prog)));
        assert_eq!(plan.metas[12], ro(h(y_prog)));
    }
}

#[test]
fn dlmm_three_hop_steps() {
    let mid = execute_dlmm_swap_hop3(AMOUNT, 2, false).unwrap();
    assert_eq!(mid.metas[4], rw(h(8)));
    assert_eq!(mid.metas[5], rw(h(11)));
    assert_eq!(mid.metas[6], ro(h(9)));
    assert_eq!(mid.metas[7], ro(h(6)));
    let sell = execute_dlmm_swap_hop3(AMOUNT, 3, true).unwrap();
    assert_eq!(sell.metas[4], rw(h(11)));
    assert_eq!(sell.metas[5], rw(h(2)));
    assert_eq!(sell.metas[6], ro(h(1)));
    assert_eq!(sell.metas[7], ro(h(9)));
    assert!(execute_dlmm_swap_hop3(AMOUNT, 9, true).is_err());
}

#[test]
fn dammv2_instruction_layout_buy_wsol_is_b() {
    let plan = execute_dammv2_swap(AMOUNT, true, false);
    assert_eq!(
        plan.metas,
        vec![
            ro(p(2)),
            rw(p(3)),
            rw(h(2)),
            rw(h(8)),
            rw(p(4)),
            rw(p(5)),
            ro(h(6)),
            ro(h(1)),
            signer(h(0)),
            ro(h(7)),
            ro(h(3)),
            ro(p(0)),
            ro(p(1)),
            ro(p(0)),
        ]
    );
    assert_eq!(
        plan.data,
        data_of(&[&[248, 198, 158, 145, 225, 117, 135, 200], &AMOUNT_LE, &[0; 8]])
    );
}

#[test]
fn dammv2_routes_for_all_four_combinations() {
    for (is_buy, flag) in COMBOS {
        let plan = execute_dammv2_swap(AMOUNT, is_buy, flag);
        let (input, output) = user_accounts(is_buy);
        assert_eq!(plan.metas[2], rw(h(input)));
        assert_eq!(plan.metas[3], rw(h(output)));
        assert_eq!(plan.metas[4], rw(p(4)));
        assert_eq!(plan.metas[5], rw(p(5)));
        let (a_mint, b_mint) = if flag { (1, 6) } else { (6, 1) };
        assert_eq!(plan.metas[6], ro(h(a_mint)));
        assert_eq!(plan.metas[7], ro(h(b_mint)));
    }
}

#[test]
fn dammv2_three_hop_steps() {
    let mid = execute_dammv2_swap_hop3(AMOUNT, 2, true).unwrap();
    assert_eq!(&mid.metas[2..4], &[rw(h(8)), rw(h(11))]);
    assert_eq!(&mid.metas[6..8], &[ro(h(6)), ro(h(9))]);
    assert_eq!(&mid.metas[9..11], &[ro(h(7)), ro(h(10))]);
    let sell = execute_dammv2_swap_hop3(AMOUNT, 3, false).unwrap();
    assert_eq!(&sell.metas[2..4], &[rw(h(11)), rw(h(2))]);
    assert_eq!(&sell.metas[6..8], &[ro(h(9)), ro(h(1))]);
    assert_eq!(&sell.metas[9..11], &[ro(h(10)), ro(h(3))]);
}

fn pump_shared(base: (usize, usize, usize), quote: (usize, usize, usize)) -> Vec<SlotMeta> {
    // (mint, account, program) of base and quote
    vec![
        ro(p(1)),
        signer(h(0)),
        ro(p(2)),
        ro(h(base.0)),
        ro(h(quote.0)),
        rw(h(base.1)),
        rw(h(quote.1)),
        rw(p(12)),
        rw(p(13)),
        ro(p(6)),
        rw(p(7)),
        ro(h(base.2)),
        ro(h(quote.2)),
        ro(p(10)),
        ro(p(11)),
        ro(p(3)),
        ro(p(0)),
        rw(p(4)),
        ro(p(5)),
    ]
}

const PUMP_BUY: [u8; 8] = [102, 6, 61, 18, 1, 218, 235, 234];
const PUMP_SELL: [u8; 8] = [51, 230, 133, 164, 1, 127, 131, 173];

#[test]
fn pump_buy_of_token_uses_base_amount_out() {
    let plan = execute_pump_swap(AMOUNT, true, false, 77);
    let mut metas = pump_shared((6, 8, 7), (1, 2, 3));
    metas.extend([rw(p(8)), rw(p(9)), ro(p(14)), ro(p(15))]);
    assert_eq!(plan.metas, metas);
    assert_eq!(plan.data, data_of(&[&PUMP_BUY, &77u64.to_le_bytes(), &[0xff; 8]]));
}

#[test]
fn pump_sell_of_wsol_base_uses_trade_amount() {
    let plan = execute_pump_swap(AMOUNT, true, true, 77);
    let mut metas = pump_shared((1, 2, 3), (6, 8, 7));
    metas.extend([ro(p(14)), ro(p(15))]);
    assert_eq!(plan.metas, metas);
    assert_eq!(plan.data, data_of(&[&PUMP_SELL, &AMOUNT_LE, &[0; 8]]));
}

#[test]
fn pump_routes_for_all_four_combinations() {
    for (is_buy, flag) in COMBOS {
        let plan = execute_pump_swap(AMOUNT, is_buy, flag, 77);
        let (base_account, quote_account) = if flag { (2, 8) } else { (8, 2) };
        assert_eq!(plan.metas[5], rw(h(base_account)));
        assert_eq!(plan.metas[6], rw(h(quote_account)));
        assert_eq!(plan.metas[7], rw(p(12)));
        assert_eq!(plan.metas[8], rw(p(13)));
        let spends_base = is_buy == flag;
        let expected_disc = if spends_base { PUMP_SELL } else { PUMP_BUY };
        assert_eq!(&plan.data[0..8], &expected_disc);
        assert_eq!(plan.metas.len(), if spends_base { 21 } else { 23 });
        let expected_amount = if is_buy && !flag { 77 } else { AMOUNT };
        assert_eq!(&plan.data[8..16], &expected_amount.to_le_bytes());
    }
}

#[test]
fn pump_three_hop_steps() {
    assert_eq!(
        execute_pump_swap_hop3(AMOUNT, 2, true, 77).unwrap_err(),
        PinocchioCpiError::PumpNotSupported
    );
    assert_eq!(
        execute_pump_swap_hop3(AMOUNT, 7, true, 77).unwrap_err(),
        PinocchioCpiError::UnsupportedPoolType
    );
    let first = execute_pump_swap_hop3(AMOUNT, 1, false, 77).unwrap();
    assert_eq!(first.data, execute_pump_swap(AMOUNT, true, false, 77).data);
    // wsol is base: the second token buys wsol, priced in base units
    let sell = execute_pump_swap_hop3(AMOUNT, 3, true, 77).unwrap();
    let mut metas = pump_shared((1, 2, 3), (9, 11, 10));
    metas.extend([rw(p(8)), rw(p(9)), ro(p(14)), ro(p(15))]);
    assert_eq!(sell.metas, metas);
    assert_eq!(sell.data, data_of(&[&PUMP_BUY, &AMOUNT_LE, &[0xff; 8]]));
    let sell_quote = execute_pump_swap_hop3(AMOUNT, 3, false, 77).unwrap();
    assert_eq!(&sell_quote.data[0..8], &PUMP_SELL);
    assert_eq!(sell_quote.metas[5], rw(h(11)));
}

#[test]
fn raydium_instruction_layout_buy() {
    let plan = execute_raydium_swap(AMOUNT, true, false);
    let mut metas = vec![ro(h(7)), rw(p(2)), ro(p(1)), rw(p(2)), rw(p(3)), rw(p(4))];
    metas.extend(std::iter::repeat(rw(p(2))).take(8));
    metas.extend([rw(h(2)), rw(h(8)), signer(h(0))]);
    assert_eq!(plan.metas, metas);
    assert_eq!(plan.data, data_of(&[&[9], &AMOUNT_LE, &[0; 8]]));
}

#[test]
fn raydium_routes_for_all_four_combinations() {
    for (is_buy, flag) in COMBOS {
        let plan = execute_raydium_swap(AMOUNT, is_buy, flag);
        let (input, output) = user_accounts(is_buy);
        assert_eq!(plan.metas[14], rw(h(input)));
        assert_eq!(plan.metas[15], rw(h(output)));
        assert_eq!(plan.metas[4], rw(p(3)));
        assert_eq!(plan.metas[5], rw(p(4)));
        assert_eq!(plan.metas[0], ro(h(7)));
        assert_eq!(plan.metas, execute_raydium_swap(AMOUNT, is_buy, !flag).metas);
    }
}

#[test]
fn raydium_three_hop_token_program() {
    let mid = execute_raydium_swap_hop3(AMOUNT, 2, true).unwrap();
    assert_eq!(mid.metas[0], ro(h(7)));
    assert_eq!(&mid.metas[14..16], &[rw(h(8)), rw(h(11))]);
    let sell = execute_raydium_swap_hop3(AMOUNT, 3, true).unwrap();
    assert_eq!(sell.metas[0], ro(h(10)));
    assert_eq!(&sell.metas[14..16], &[rw(h(11)), rw(h(2))]);
}

fn swap_v2_data(amount_le: &[u8]) -> Vec<u8> {
    data_of(&[&[43, 4, 237, 11, 26, 201, 30, 98], amount_le, &[0; 8], &[0; 16], &[1]])
}

#[test]
fn clmm_instruction_layout_sell_wsol_token1() {
    let plan = execute_clmm_swap(AMOUNT, false, false);
    assert_eq!(
        plan.metas,
        vec![
            signer(h(0)),
            ro(p(2)),
            rw(p(1)),
            rw(h(8)),
            rw(h(2)),
            rw(p(5)),
            rw(p(6)),
            rw(p(3)),
            ro(h(3)),
            ro(h(4)),
            ro(h(5)),
            ro(h(6)),
            ro(h(1)),
            rw(p(4)),
            rw(p(7)),
            rw(p(8)),
            rw(p(9)),
        ]
    );
    assert_eq!(plan.data, swap_v2_data(&AMOUNT_LE));
    assert_eq!(plan.data.len(), 41);
}

#[test]
fn clmm_routes_for_all_four_combinations() {
    for (is_buy, flag) in COMBOS {
        let plan = execute_clmm_swap(AMOUNT, is_buy, flag);
        let (input, output) = user_accounts(is_buy);
        let (in_vault, out_vault) = if is_buy == flag { (5, 6) } else { (6, 5) };
        assert_eq!(plan.metas[3], rw(h(input)));
        assert_eq!(plan.metas[4], rw(h(output)));
        assert_eq!(plan.metas[5], rw(p(in_vault)));
        assert_eq!(plan.metas[6], rw(p(out_vault)));
    }
}

#[test]
fn clmm_later_three_hop_legs_read_bitmap_only() {
    let first = execute_clmm_swap_hop3(AMOUNT, 1, true).unwrap();
    assert_eq!(first.metas[13], rw(p(4)));
    let mid = execute_clmm_swap_hop3(AMOUNT, 2, true).unwrap();
    assert_eq!(mid.metas[13], ro(p(4)));
    assert_eq!(&mid.metas[11..13], &[ro(h(6)), ro(h(9))]);
    let sell = execute_clmm_swap_hop3(AMOUNT, 3, true).unwrap();
    assert_eq!(sell.metas[13], ro(p(4)));
    assert_eq!(&sell.metas[3..7], &[rw(h(11)), rw(h(2)), rw(p(6)), rw(p(5))]);
    assert_eq!(&sell.metas[11..13], &[ro(h(9)), ro(h(1))]);
}

#[test]
fn whirlpool_instruction_layout_buy_wsol_a() {
    let plan = execute_whirlpool_swap(AMOUNT, true, true);
    assert_eq!(
        plan.metas,
        vec![
            ro(h(3)),
            ro(h(7)),
            ro(h(5)),
            signer(h(0)),
            rw(p(1)),
            ro(h(1)),
            ro(h(6)),
            rw(h(2)),
            rw(p(3)),
            rw(h(8)),
            rw(p(4)),
            rw(p(5)),
            rw(p(6)),
            rw(p(7)),
            rw(p(2)),
        ]
    );
    let mut data = swap_v2_data(&AMOUNT_LE);
    data.extend([1, 0]);
    assert_eq!(plan.data, data);
    assert_eq!(plan.data.len(), 43);
}

#[test]
fn whirlpool_routes_for_all_four_combinations() {
    for (is_buy, flag) in COMBOS {
        let plan = execute_whirlpool_swap(AMOUNT, is_buy, flag);
        let (a_account, b_account) = if flag { (2, 8) } else { (8, 2) };
        assert_eq!(plan.metas[7], rw(h(a_account)));
        assert_eq!(plan.metas[8], rw(p(3)));
        assert_eq!(plan.metas[9], rw(h(b_account)));
        assert_eq!(plan.metas[10], rw(p(4)));
        assert_eq!(plan.data[41], if is_buy == flag { 1 } else { 0 });
    }
}

#[test]
fn whirlpool_three_hop_steps() {
    let mid = execute_whirlpool_swap_hop3(AMOUNT, 2, false).unwrap();
    assert_eq!(&mid.metas[0..2], &[ro(h(10)), ro(h(7))]);
    assert_eq!(mid.metas[7], rw(h(11)));
    assert_eq!(mid.metas[9], rw(h(8)));
    assert_eq!(mid.data[41], 0);
    let sell = execute_whirlpool_swap_hop3(AMOUNT, 3, false).unwrap();
    assert_eq!(&sell.metas[5..7], &[ro(h(9)), ro(h(1))]);
    assert_eq!(sell.data[41], 1);
}

#[test]
fn every_adapter_writes_the_amount_little_endian() {
    let plans: Vec<(CpiPlan, usize)> = vec![
        (execute_cpmm_swap(1, true, true), 8),
        (execute_dlmm_swap(1, true, true), 8),
        (execute_dammv2_swap(1, true, true), 8),
        (execute_pump_swap(1, false, false, 0), 8),
        (execute_raydium_swap(1, true, true), 1),
        (execute_clmm_swap(1, true, true), 8),
        (execute_whirlpool_swap(1, true, true), 8),
    ];
    for (plan, at) in plans {
        assert_eq!(&plan.data[at..at + 8], &[1, 0, 0, 0, 0, 0, 0, 0]);
        assert_eq!(plan.program, p(0));
    }
}
