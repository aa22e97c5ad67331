use vstd::bytes::{lemma_auto_spec_u64_to_from_le_bytes, spec_u64_to_le_bytes, u64_to_le_bytes};
use vstd::prelude::*;

use crate::cpi::clmm::swap_v2_discriminator;
use crate::cpi::cpmm::cpmm_discriminator;
use crate::cpi::dammv2::dammv2_discriminator;
use crate::cpi::dlmm::dlmm_discriminator;
use crate::cpi::pump::{ones, pump_buy_discriminator, pump_sell_discriminator};
use crate::dispatch::{
    execute_swap_optimized, execute_swap_optimized_3hop, lemma_swap_plan_hop3_within,
    lemma_swap_plan_within, swap_plan, swap_plan_hop3,
};
use crate::error::{PinocchioCpiError, PinocchioResult};
use crate::guard::check_profit;
use crate::params::{
    decode_payload, params_well_formed, parse_instruction_data, payload_len, SwapParams,
};
use crate::binding::{bind_accounts, bind_plan, call_within, CallView, CpiCall};
use crate::partition::{partition_accounts, spec_partition, Partition, Segment};
use crate::plan::{
    plan_within, zeros, CpiPlan, PlanView, TOKEN2_ACCOUNT, TOKEN_ACCOUNT, WSOL_ACCOUNT,
};

verus! {

/// Opcode of a two-hop chain.
pub const TWO_HOP_OPCODE: u8 = 4;

/// Opcode of a three-hop chain.
pub const THREE_HOP_OPCODE: u8 = 5;

/// The number of legs a request runs.
pub open spec fn leg_count(p: SwapParams) -> nat {
    if p.mid.is_some() {
        3
    } else {
        2
    }
}

/// The instruction of leg `k` (from 0) moving `amount`: a two-hop chain runs
/// buy then sell; a three-hop chain runs steps 1, 2 and 3.
pub open spec fn leg_plan(p: SwapParams, k: nat, amount: u64) -> PinocchioResult<PlanView> {
    match p.mid {
        None => if k == 0 {
            swap_plan(p.buy, amount, true, p.is_wsol_pool_0_buy, p.pump_base_amount_out)
        } else {
            swap_plan(p.sell, amount, false, p.is_wsol_pool_0_sell, p.pump_base_amount_out)
        },
        Some(mid) => if k == 0 {
            swap_plan_hop3(p.buy, amount, 1, p.is_wsol_pool_0_buy, p.pump_base_amount_out)
        } else if k == 1 {
            swap_plan_hop3(
                mid,
                amount,
                2,
                p.is_mid_zero_to_one.unwrap(),
                p.pump_base_amount_out,
            )
        } else {
            swap_plan_hop3(p.sell, amount, 3, p.is_wsol_pool_0_sell, p.pump_base_amount_out)
        },
    }
}

/// The account group leg `k` draws on.
pub open spec fn leg_segment(part: Partition, k: nat) -> Segment {
    if k == 0 {
        part.buy
    } else {
        match part.mid {
            Some(mid) => if k == 1 {
                mid
            } else {
                part.sell
            },
            None => part.sell,
        }
    }
}

/// The account whose balance leg `k` produces, read back before the next
/// step: the target token after the buy, the second intermediate token
/// after the middle leg, the reference asset after the last leg.
pub open spec fn leg_output_account(p: SwapParams, k: nat) -> usize {
    if k + 1 == leg_count(p) {
        WSOL_ACCOUNT
    } else if k == 0 {
        TOKEN_ACCOUNT
    } else {
        TOKEN2_ACCOUNT
    }
}

/// What an arbitrage session knows: the request, the partition, the size of
/// the account list, how many balances it has received, and the initial
/// reference balance once received.
pub struct SessionView {
    pub params: SwapParams,
    pub partition: Partition,
    pub num_accounts: usize,
    pub phase: nat,
    pub initial_balance: u64,
}

/// The state of one arbitrage transaction between ledger reads.
///
/// Phase 0 awaits the initial reference balance; phase `k` (for `k` up to the
/// leg count) awaits the balance leg `k - 1` produced; the last phase awaits
/// the final reference balance.
pub struct ArbSession {
    params: SwapParams,
    partition: Partition,
    num_accounts: usize,
    phase: usize,
    initial_balance: u64,
}

impl View for ArbSession {
    type V = SessionView;

    closed spec fn view(&self) -> SessionView {
        SessionView {
            params: self.params,
            partition: self.partition,
            num_accounts: self.num_accounts,
            phase: self.phase as nat,
            initial_balance: self.initial_balance,
        }
    }
}

/// What the caller performs next.
pub enum Progress {
    /// Read the balance of account `account` and hand it to `session`.
    Read { session: ArbSession, account: usize },
    /// Invoke `call`, then read the balance of account `then_read` and hand
    /// it to `session`.
    Swap { session: ArbSession, call: CpiCall, then_read: usize },
    /// The chain succeeded; publish `return_data` as the transaction's return
    /// value when present.
    Done { return_data: Option<Vec<u8>> },
}

pub enum ProgressView {
    Read { session: SessionView, account: usize },
    Swap { session: SessionView, call: CallView, then_read: usize },
    Done { return_data: Option<Seq<u8>> },
}

/// The view of a step's outcome.
pub open spec fn progress_view(r: PinocchioResult<Progress>) -> PinocchioResult<ProgressView> {
    match r {
        Ok(Progress::Read { session, account }) => Ok(ProgressView::Read { session: session@, account }),
        Ok(Progress::Swap { session, call, then_read }) => Ok(
            ProgressView::Swap { session: session@, call: call@, then_read },
        ),
        Ok(Progress::Done { return_data }) => Ok(
            ProgressView::Done {
                return_data: match return_data {
                    Some(d) => Some(d@),
                    None => None,
                },
            },
        ),
        Err(e) => Err(e),
    }
}

/// Opening a session: decode the payload, partition the accounts, then read
/// the initial reference balance.
pub open spec fn spec_start(data: Seq<u8>, num_accounts: usize, is_3hop: bool) -> PinocchioResult<ProgressView> {
    if data.len() < payload_len(is_3hop) {
        Err(PinocchioCpiError::InstructionDataTooShort)
    } else {
        let p = decode_payload(data, is_3hop);
        match spec_partition(p, num_accounts) {
            Err(e) => Err(e),
            Ok(part) => Ok(
                ProgressView::Read {
                    session: SessionView {
                        params: p,
                        partition: part,
                        num_accounts,
                        phase: 0,
                        initial_balance: 0,
                    },
                    account: WSOL_ACCOUNT,
                },
            ),
        }
    }
}

/// One session step on the balance just read. Before each leg, the leg's
/// instruction moves the request's input amount (first leg) or the balance
/// just read (later legs), and the caller is told which balance to read
/// after it; after the last leg, the profit guard decides, and the profit
/// is returned as 8 little-endian bytes when the request simulates.
pub open spec fn spec_advance(s: SessionView, balance: u64) -> PinocchioResult<ProgressView> {
    let p = s.params;
    let k = s.phase;
    if k < leg_count(p) {
        let amount: u64 = if k == 0 {
            p.amount_in
        } else {
            balance
        };
        let initial: u64 = if k == 0 {
            balance
        } else {
            s.initial_balance
        };
        match leg_plan(p, k, amount) {
            Err(e) => Err(e),
            Ok(plan) => Ok(
                ProgressView::Swap {
                    session: SessionView { phase: k + 1, initial_balance: initial, ..s },
                    call: bind_plan(plan, leg_segment(s.partition, k).start),
                    then_read: leg_output_account(p, k),
                },
            ),
        }
    } else if balance > s.initial_balance + p.min_profit {
        Ok(
            ProgressView::Done {
                return_data: if p.is_simulate {
                    Some(spec_u64_to_le_bytes((balance - s.initial_balance) as u64))
                } else {
                    None
                },
            },
        )
    } else {
        Err(PinocchioCpiError::ArbitrageFailed)
    }
}

/// The top-level dispatch on the opcode byte: an empty payload does nothing,
/// opcode 4 opens a two-hop session, 5 a three-hop one; any other opcode is
/// `UnsupportedPoolType`.
pub open spec fn spec_process(data: Seq<u8>, num_accounts: usize) -> PinocchioResult<ProgressView> {
    if data.len() == 0 {
        Ok(ProgressView::Done { return_data: None })
    } else if data[0] == TWO_HOP_OPCODE {
        spec_start(data.drop_first(), num_accounts, false)
    } else if data[0] == THREE_HOP_OPCODE {
        spec_start(data.drop_first(), num_accounts, true)
    } else {
        Err(PinocchioCpiError::UnsupportedPoolType)
    }
}

impl ArbSession {
    #[verifier::type_invariant]
    spec fn well_formed(self) -> bool {
        &&& params_well_formed(self.params)
        &&& spec_partition(self.params, self.num_accounts) == Ok::<Partition, PinocchioCpiError>(
            self.partition,
        )
        &&& self.phase <= leg_count(self.params)
    }

    /// Opens a session on a payload (after the opcode byte) and an account
    /// list of `num_accounts` accounts; no call is made before the payload
    /// decodes and every tag and group fits.
    pub fn start(data: &[u8], num_accounts: usize, is_3hop: bool) -> (r: PinocchioResult<Progress>)
        ensures
            progress_view(r) == spec_start(data@, num_accounts, is_3hop),
    {
        let params = parse_instruction_data(data, is_3hop)?;
        let partition = partition_accounts(&params, num_accounts)?;
        let session = ArbSession { params, partition, num_accounts, phase: 0, initial_balance: 0 };
        Ok(Progress::Read { session, account: WSOL_ACCOUNT })
    }

    /// Builds leg `k`'s instruction moving `amount`, with the account group it
    /// draws on and the account whose balance it produces.
    fn leg_instruction(&self, k: usize, amount: u64) -> (r: PinocchioResult<(CpiPlan, Segment, usize)>)
        requires
            k < leg_count(self@.params),
        ensures
            match r {
                Ok((plan, segment, then_read)) => {
                    &&& leg_plan(self@.params, k as nat, amount) == Ok::<PlanView, PinocchioCpiError>(plan@)
                    &&& segment == leg_segment(self@.partition, k as nat)
                    &&& then_read == leg_output_account(self@.params, k as nat)
                    &&& plan_within(plan@, self@.partition.header_len as nat, segment.len as nat)
                },
                Err(e) => leg_plan(self@.params, k as nat, amount) == Err::<PlanView, PinocchioCpiError>(e),
            },
    {
        proof {
            use_type_invariant(self);
        }
        let p: SwapParams = self.params;
        let pump_out: u64 = p.pump_base_amount_out;
        match p.mid {
            None => if k == 0 {
                proof {
                    lemma_swap_plan_within(p.buy, amount, true, p.is_wsol_pool_0_buy, pump_out);
                }
                let plan = execute_swap_optimized(p.buy, amount, true, p.is_wsol_pool_0_buy, pump_out)?;
                Ok((plan, self.partition.buy, TOKEN_ACCOUNT))
            } else {
                proof {
                    lemma_swap_plan_within(p.sell, amount, false, p.is_wsol_pool_0_sell, pump_out);
                }
                let plan = execute_swap_optimized(p.sell, amount, false, p.is_wsol_pool_0_sell, pump_out)?;
                Ok((plan, self.partition.sell, WSOL_ACCOUNT))
            },
            Some(mid) => if k == 0 {
                proof {
                    lemma_swap_plan_hop3_within(p.buy, amount, 1, p.is_wsol_pool_0_buy, pump_out);
                }
                let plan = execute_swap_optimized_3hop(p.buy, amount, 1, p.is_wsol_pool_0_buy, pump_out)?;
                Ok((plan, self.partition.buy, TOKEN_ACCOUNT))
            } else if k == 1 {
                let zero_to_one: bool = match p.is_mid_zero_to_one {
                    Some(z) => z,
                    None => false,
                };
                let segment = match self.partition.mid {
                    Some(m) => m,
                    None => self.partition.sell,
                };
                proof {
                    lemma_swap_plan_hop3_within(mid, amount, 2, zero_to_one, pump_out);
                }
                let plan = execute_swap_optimized_3hop(mid, amount, 2, zero_to_one, pump_out)?;
                Ok((plan, segment, TOKEN2_ACCOUNT))
            } else {
                proof {
                    lemma_swap_plan_hop3_within(p.sell, amount, 3, p.is_wsol_pool_0_sell, pump_out);
                }
                let plan = execute_swap_optimized_3hop(p.sell, amount, 3, p.is_wsol_pool_0_sell, pump_out)?;
                Ok((plan, self.partition.sell, WSOL_ACCOUNT))
            },
        }
    }

    /// Takes the balance the last action asked for and decides the next one.
    pub fn advance(self, balance: u64) -> (r: PinocchioResult<Progress>)
        ensures
            progress_view(r) == spec_advance(self@, balance),
            r matches Ok(Progress::Swap { call, then_read, .. }) ==> call_within(
                call@,
                self@.num_accounts,
            ) && then_read < self@.num_accounts,
    {
        proof {
            use_type_invariant(&self);
        }
        let k: usize = self.phase;
        let legs: usize = if self.params.mid.is_some() {
            3
        } else {
            2
        };
        if k < legs {
            let amount: u64 = if k == 0 {
                self.params.amount_in
            } else {
                balance
            };
            let initial: u64 = if k == 0 {
                balance
            } else {
                self.initial_balance
            };
            let (plan, segment, then_read) = self.leg_instruction(k, amount)?;
            let call = bind_accounts(plan, segment, self.partition.header_len, self.num_accounts);
            let session = ArbSession {
                params: self.params,
                partition: self.partition,
                num_accounts: self.num_accounts,
                phase: k + 1,
                initial_balance: initial,
            };
            Ok(Progress::Swap { session, call, then_read })
        } else {
            let profit: u64 = check_profit(self.initial_balance, balance, self.params.min_profit)?;
            let return_data = if self.params.is_simulate {
                Some(u64_to_le_bytes(profit))
            } else {
                None
            };
            Ok(Progress::Done { return_data })
        }
    }
}

/// Dispatches an instruction on its opcode byte and opens the session it
/// asks for.
pub fn process_instruction(instruction_data: &[u8], num_accounts: usize) -> (r: PinocchioResult<Progress>)
    ensures
        progress_view(r) == spec_process(instruction_data@, num_accounts),
{
    if instruction_data.len() == 0 {
        return Ok(Progress::Done { return_data: None });
    }
    let tail = vstd::slice::slice_subrange(instruction_data, 1, instruction_data.len());
    assert(tail@ =~= instruction_data@.drop_first());
    if instruction_data[0] == TWO_HOP_OPCODE {
        ArbSession::start(tail, num_accounts, false)
    } else if instruction_data[0] == THREE_HOP_OPCODE {
        ArbSession::start(tail, num_accounts, true)
    } else {
        Err(PinocchioCpiError::UnsupportedPoolType)
    }
}

} // verus!

verus! {

/// Determinism: the same payload over the same number of accounts opens the
/// same session, and the same session handed the same balance takes the same
/// step, so every call handed out (its bytes and its account order) repeats
/// exactly on a replay against the same ledger.
pub proof fn lemma_steps_deterministic(
    data: Seq<u8>,
    data_again: Seq<u8>,
    num_accounts: usize,
    session: SessionView,
    session_again: SessionView,
    balance: u64,
)
    requires
        data == data_again,
        session == session_again,
    ensures
        spec_process(data, num_accounts) == spec_process(data_again, num_accounts),
        spec_advance(session, balance) == spec_advance(session_again, balance),
{
}

} // verus!

verus! {

/// Where a protocol's instruction data holds the amount it moves.
pub open spec fn amount_offset(pool_type: u8) -> int {
    if pool_type == 4 {
        1
    } else {
        8
    }
}

/// The pool type of leg `k`.
pub open spec fn leg_pool_type(p: SwapParams, k: nat) -> u8 {
    if k == 0 {
        p.buy
    } else if k + 1 == leg_count(p) {
        p.sell
    } else {
        p.mid.unwrap()
    }
}

proof fn lemma_amount_field(head: Seq<u8>, amount: u64, tail: Seq<u8>)
    ensures
        (head + spec_u64_to_le_bytes(amount) + tail).subrange(
            head.len() as int,
            head.len() + 8int,
        ) == spec_u64_to_le_bytes(amount),
{
    lemma_auto_spec_u64_to_from_le_bytes();
    assert((head + spec_u64_to_le_bytes(amount) + tail).subrange(head.len() as int, head.len() + 8int)
        =~= spec_u64_to_le_bytes(amount));
}

/// Every leg after the first moves exactly the balance just read back from
/// the ledger (the previous leg's realized output), never a carried-forward
/// estimate: the amount field of its instruction is that balance.
pub proof fn lemma_later_legs_move_the_balance_read(s: SessionView, balance: u64)
    requires
        1 <= s.phase < leg_count(s.params),
        spec_advance(s, balance) is Ok,
    ensures
        spec_advance(s, balance) matches Ok(ProgressView::Swap { call, .. }) && call.data.subrange(
            amount_offset(leg_pool_type(s.params, s.phase)),
            amount_offset(leg_pool_type(s.params, s.phase)) + 8,
        ) == spec_u64_to_le_bytes(balance),
{
    let p = s.params;
    let k = s.phase;
    let tag = leg_pool_type(p, k);
    let plan = leg_plan(p, k, balance)->Ok_0;
    let d = plan.data;
    let le = spec_u64_to_le_bytes(balance);
    lemma_amount_field(cpmm_discriminator(), balance, zeros(8));
    lemma_amount_field(dlmm_discriminator(), balance, zeros(12));
    lemma_amount_field(dammv2_discriminator(), balance, zeros(8));
    lemma_amount_field(pump_buy_discriminator(), balance, ones(8));
    lemma_amount_field(pump_sell_discriminator(), balance, zeros(8));
    lemma_amount_field(seq![9u8], balance, zeros(8));
    lemma_amount_field(swap_v2_discriminator(), balance, zeros(24) + seq![1u8]);
    assert(swap_v2_discriminator() + le + zeros(24) + seq![1u8] =~= swap_v2_discriminator() + le
        + (zeros(24) + seq![1u8]));
    let whirl_tail = zeros(24) + seq![1u8, 0u8, 0u8];
    let whirl_tail_set = zeros(24) + seq![1u8, 1u8, 0u8];
    lemma_amount_field(swap_v2_discriminator(), balance, whirl_tail);
    lemma_amount_field(swap_v2_discriminator(), balance, whirl_tail_set);
    assert(swap_v2_discriminator() + le + zeros(24) + seq![1u8, 0u8, 0u8] =~= swap_v2_discriminator()
        + le + whirl_tail);
    assert(swap_v2_discriminator() + le + zeros(24) + seq![1u8, 1u8, 0u8] =~= swap_v2_discriminator()
        + le + whirl_tail_set);
    assert(d.subrange(amount_offset(tag), amount_offset(tag) + 8) == le);
}

} // verus!
