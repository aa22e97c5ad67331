use arb_cpi::error::PinocchioCpiError;
use arb_cpi::guard::{check_profit, get_token_balance};
use arb_cpi::params::SwapParams;
use arb_cpi::binding::{AccountUse, CpiCall};
use arb_cpi::partition::{partition_accounts, Partition, Segment};
use arb_cpi::session::{process_instruction, ArbSession, Progress};

fn two_hop_payload(buy: u8, sell: u8, amount_in: u64, min_profit: u32, simulate: bool) -> Vec<u8> {
    let mut v = vec![4u8, buy, sell, 1, 1, simulate as u8];
    v.extend(amount_in.to_le_bytes());
    v.extend(0u64.to_le_bytes());
    v.extend(min_profit.to_le_bytes());
    v
}

fn three_hop_payload(buy: u8, mid: u8, sell: u8, amount_in: u64) -> Vec<u8> {
    let mut v = vec![5u8, buy, mid, sell, 1, 1, 1, 1];
    v.extend(amount_in.to_le_bytes());
    v.extend(0u64.to_le_bytes());
    v.extend(0u32.to_le_bytes());
    v
}

fn expect_read(p: Progress) -> (ArbSession, usize) {
    match p {
        Progress::Read { session, account } => (session, account),
        _ => panic!("expected a balance read"),
    }
}

fn expect_swap(p: Progress) -> (ArbSession, CpiCall, usize) {
    match p {
        Progress::Swap { session, call, then_read } => (session, call, then_read),
        _ => panic!("expected a swap"),
    }
}

fn expect_done(p: Progress) -> Option<Vec<u8>> {
    match p {
        Progress::Done { return_data } => return_data,
        _ => panic!("expected the end of the chain"),
    }
}

// 2-hop CPMM buy then CLMM sell: 9 header + 7 + 10 accounts.
fn run_scenario(final_wsol: u64, simulate: bool) -> Result<Option<Vec<u8>>, PinocchioCpiError> {
    let data = two_hop_payload(0, 5, 1_000_000, 0, simulate);
    let (session, account) = expect_read(process_instruction(&data, 26)?);
    assert_eq!(account, 2);
    let (session, buy, then_read) = expect_swap(session.advance(1_000_000)?);
    assert_eq!(buy.program, 9);
    assert_eq!(buy.data.len(), 24);
    assert_eq!(&buy.data[8..16], &1_000_000u64.to_le_bytes());
    assert_eq!(then_read, 8);
    let (session, sell, then_read) = expect_swap(session.advance(1_000_500)?);
    assert_eq!(sell.program, 16);
    assert_eq!(sell.data.len(), 41);
    assert_eq!(&sell.data[8..16], &1_000_500u64.to_le_bytes());
    assert_eq!(then_read, 2);
    Ok(expect_done(session.advance(final_wsol)?))
}

#[test]
fn scenario_two_hop_profit_is_returned() {
    let out = run_scenario(1_000_200, true).unwrap();
    assert_eq!(out, Some(200u64.to_le_bytes().to_vec()));
}

#[test]
fn scenario_two_hop_profit_without_simulate() {
    assert_eq!(run_scenario(1_000_200, false).unwrap(), None);
}

#[test]
fn scenario_two_hop_no_gain_fails() {
    assert_eq!(run_scenario(1_000_000, true), Err(PinocchioCpiError::ArbitrageFailed));
}

#[test]
fn scenario_invalid_buy_tag_fails_before_any_call() {
    let data = two_hop_payload(8, 5, 1_000_000, 0, true);
    assert_eq!(
        process_instruction(&data, 100).err(),
        Some(PinocchioCpiError::UnsupportedPoolType)
    );
}

#[test]
fn scenario_three_hop_pump_in_the_middle_fails() {
    let data = three_hop_payload(0, 3, 5, 1_000);
    let (session, _) = expect_read(process_instruction(&data, 12 + 7 + 16 + 10).unwrap());
    let (session, buy, then_read) = expect_swap(session.advance(5_000).unwrap());
    assert_eq!(buy.program, 12);
    assert_eq!(then_read, 8);
    assert_eq!(session.advance(900).err(), Some(PinocchioCpiError::PumpNotSupported));
}

#[test]
fn three_hop_chain_threads_balances() {
    // CPMM buy, Whirlpool mid, DAMMv2 sell: 12 + 7 + 8 + 6 accounts
    let data = three_hop_payload(0, 6, 2, 10);
    let (session, _) = expect_read(process_instruction(&data, 33).unwrap());
    let (session, buy, then_read) = expect_swap(session.advance(100).unwrap());
    assert_eq!(buy.program, 12);
    assert_eq!(&buy.data[8..16], &10u64.to_le_bytes());
    assert_eq!(then_read, 8);
    let (session, mid, then_read) = expect_swap(session.advance(40).unwrap());
    assert_eq!(mid.program, 19);
    assert_eq!(&mid.data[8..16], &40u64.to_le_bytes());
    assert_eq!(mid.accounts[7], AccountUse { index: 8, is_writable: true, is_signer: false });
    assert_eq!(then_read, 11);
    let (session, sell, then_read) = expect_swap(session.advance(30).unwrap());
    assert_eq!(sell.program, 27);
    assert_eq!(&sell.data[8..16], &30u64.to_le_bytes());
    assert_eq!(sell.accounts[0], AccountUse { index: 29, is_writable: false, is_signer: false });
    assert_eq!(then_read, 2);
    assert!(sell.accounts.iter().all(|a| a.index < 33));
    assert_eq!(expect_done(session.advance(101).unwrap()), Some(1u64.to_le_bytes().to_vec()));
}

#[test]
fn replaying_a_session_repeats_every_call() {
    let run = || {
        let data = two_hop_payload(6, 1, 77, 0, true);
        let (s, _) = expect_read(process_instruction(&data, 26).unwrap());
        let (s, a, _) = expect_swap(s.advance(10).unwrap());
        let (_, b, _) = expect_swap(s.advance(20).unwrap());
        (a.accounts, a.data, b.accounts, b.data)
    };
    assert_eq!(run(), run());
}

#[test]
fn bound_accounts_follow_the_partition() {
    // Raydium buy (5 accounts) then CPMM sell (7)
    let data = two_hop_payload(4, 0, 1, 0, false);
    let (s, _) = expect_read(process_instruction(&data, 21).unwrap());
    let (s, buy, _) = expect_swap(s.advance(0).unwrap());
    assert_eq!(buy.program, 9);
    assert_eq!(buy.accounts[1], AccountUse { index: 11, is_writable: true, is_signer: false });
    assert_eq!(buy.accounts[16], AccountUse { index: 0, is_writable: true, is_signer: true });
    let (_, sell, _) = expect_swap(s.advance(0).unwrap());
    assert_eq!(sell.program, 14);
    assert_eq!(sell.accounts[12], AccountUse { index: 17, is_writable: true, is_signer: false });
}

#[test]
fn too_few_accounts_is_rejected() {
    let data = two_hop_payload(0, 5, 1, 0, false);
    assert_eq!(
        process_instruction(&data, 25).err(),
        Some(PinocchioCpiError::NotEnoughAccounts)
    );
    assert!(process_instruction(&data, 26).is_ok());
    assert!(process_instruction(&data, 40).is_ok());
}

#[test]
fn unknown_opcode_and_empty_payload() {
    assert_eq!(
        process_instruction(&[7u8, 0, 0], 50).err(),
        Some(PinocchioCpiError::UnsupportedPoolType)
    );
    assert_eq!(expect_done(process_instruction(&[], 0).unwrap()), None);
    assert_eq!(
        process_instruction(&[4u8, 0, 5], 50).err(),
        Some(PinocchioCpiError::InstructionDataTooShort)
    );
}

#[test]
fn invalid_sell_or_mid_tag_fails_partition() {
    let params = SwapParams {
        buy: 0,
        mid: Some(7),
        sell: 1,
        is_wsol_pool_0_buy: true,
        is_mid_zero_to_one: Some(true),
        is_wsol_pool_0_sell: true,
        is_simulate: false,
        amount_in: 1,
        pump_base_amount_out: 0,
        min_profit: 0,
    };
    assert_eq!(partition_accounts(&params, 1000), Err(PinocchioCpiError::UnsupportedPoolType));
    let two = SwapParams { mid: None, is_mid_zero_to_one: None, sell: 200, ..params };
    assert_eq!(partition_accounts(&two, 1000), Err(PinocchioCpiError::UnsupportedPoolType));
}

#[test]
fn partition_of_a_three_hop_list() {
    let params = SwapParams {
        buy: 3,
        mid: Some(1),
        sell: 4,
        is_wsol_pool_0_buy: true,
        is_mid_zero_to_one: Some(true),
        is_wsol_pool_0_sell: true,
        is_simulate: false,
        amount_in: 1,
        pump_base_amount_out: 0,
        min_profit: 0,
    };
    assert_eq!(
        partition_accounts(&params, 42),
        Ok(Partition {
            header_len: 12,
            buy: Segment { start: 12, len: 16 },
            mid: Some(Segment { start: 28, len: 9 }),
            sell: Segment { start: 37, len: 5 },
        })
    );
    assert_eq!(partition_accounts(&params, 41), Err(PinocchioCpiError::NotEnoughAccounts));
}

#[test]
fn profit_guard_boundaries() {
    assert_eq!(check_profit(100, 111, 10), Ok(11));
    assert_eq!(check_profit(100, 110, 10), Err(PinocchioCpiError::ArbitrageFailed));
    assert_eq!(check_profit(100, 100, 0), Err(PinocchioCpiError::ArbitrageFailed));
    assert_eq!(check_profit(100, 101, 0), Ok(1));
    assert_eq!(check_profit(100, 50, 0), Err(PinocchioCpiError::ArbitrageFailed));
    assert_eq!(check_profit(u64::MAX - 5, u64::MAX, u32::MAX), Err(PinocchioCpiError::ArbitrageFailed));
    assert_eq!(check_profit(0, u64::MAX, u32::MAX), Ok(u64::MAX));
}

#[test]
fn min_profit_is_enforced_by_the_session() {
    let data = two_hop_payload(0, 0, 1, 50, true);
    let (s, _) = expect_read(process_instruction(&data, 23).unwrap());
    let (s, _, _) = expect_swap(s.advance(1_000).unwrap());
    let (s, _, _) = expect_swap(s.advance(3).unwrap());
    assert_eq!(s.advance(1_050).err(), Some(PinocchioCpiError::ArbitrageFailed));
}

#[test]
fn token_balance_reads_offset_sixty_four() {
    let mut data = vec![0xAAu8; 165];
    data[64..72].copy_from_slice(&123_456u64.to_le_bytes());
    assert_eq!(get_token_balance(&data), Ok(123_456));
    assert_eq!(get_token_balance(&data[..72]), Ok(123_456));
    assert_eq!(get_token_balance(&data[..71]), Err(PinocchioCpiError::InvalidTokenAccountData));
    assert_eq!(get_token_balance(&[]), Err(PinocchioCpiError::InvalidTokenAccountData));
}
