use vstd::prelude::*;

use crate::partition::Segment;
use crate::plan::{plan_within, slot_within, CpiPlan, PlanView, Slot, SlotMeta};

verus! {

/// One account of a bound instruction: its index in the transaction's
/// account list and its access flags.
#[derive(Clone, Copy, Debug, PartialEq, Eq, Structural)]
pub struct AccountUse {
    pub index: usize,
    pub is_writable: bool,
    pub is_signer: bool,
}

/// A cross-program call with every account bound to the transaction's list.
#[derive(Debug)]
pub struct CpiCall {
    pub program: usize,
    pub accounts: Vec<AccountUse>,
    pub data: Vec<u8>,
}

pub struct CallView {
    pub program: usize,
    pub accounts: Seq<AccountUse>,
    pub data: Seq<u8>,
}

impl View for CpiCall {
    type V = CallView;

    open spec fn view(&self) -> CallView {
        CallView { program: self.program, accounts: self.accounts@, data: self.data@ }
    }
}

/// The list index a slot names, for a protocol group starting at `start`.
pub open spec fn slot_index(slot: Slot, start: usize) -> usize {
    match slot {
        Slot::Header(i) => i,
        Slot::Pool(j) => (start + j) as usize,
    }
}

/// A plan with its slots bound to a protocol group starting at `start`.
pub open spec fn bind_plan(plan: PlanView, start: usize) -> CallView {
    CallView {
        program: slot_index(plan.program, start),
        accounts: Seq::new(
            plan.metas.len(),
            |k: int|
                AccountUse {
                    index: slot_index(plan.metas[k].slot, start),
                    is_writable: plan.metas[k].is_writable,
                    is_signer: plan.metas[k].is_signer,
                },
        ),
        data: plan.data,
    }
}

/// Every account a call names is in the transaction's list.
pub open spec fn call_within(call: CallView, num_accounts: usize) -> bool {
    &&& call.program < num_accounts
    &&& forall|k: int| 0 <= k < call.accounts.len() ==> #[trigger] call.accounts[k].index < num_accounts
}

/// The list index of one slot.
fn bind_slot(slot: Slot, segment: Segment, header_len: usize, num_accounts: usize) -> (r: usize)
    requires
        slot_within(slot, header_len as nat, segment.len as nat),
        header_len <= segment.start,
        segment.start + segment.len <= num_accounts,
    ensures
        r == slot_index(slot, segment.start),
        r < num_accounts,
{
    match slot {
        Slot::Header(i) => i,
        Slot::Pool(j) => segment.start + j,
    }
}

/// Binds a plan's slots to the header and to the protocol group `segment`.
pub fn bind_accounts(plan: CpiPlan, segment: Segment, header_len: usize, num_accounts: usize) -> (r:
    CpiCall)
    requires
        plan_within(plan@, header_len as nat, segment.len as nat),
        header_len <= segment.start,
        segment.start + segment.len <= num_accounts,
    ensures
        r@ == bind_plan(plan@, segment.start),
        call_within(r@, num_accounts),
{
    let mut accounts: Vec<AccountUse> = Vec::new();
    let mut k: usize = 0;
    while k < plan.metas.len()
        invariant
            k <= plan.metas@.len(),
            plan_within(plan@, header_len as nat, segment.len as nat),
            header_len <= segment.start,
            segment.start + segment.len <= num_accounts,
            accounts@ == bind_plan(plan@, segment.start).accounts.subrange(0, k as int),
            forall|i: int| 0 <= i < k ==> #[trigger] accounts@[i].index < num_accounts,
        decreases plan.metas@.len() - k,
    {
        let meta: SlotMeta = plan.metas[k];
        assert(slot_within(plan.metas@[k as int].slot, header_len as nat, segment.len as nat));
        let index: usize = bind_slot(meta.slot, segment, header_len, num_accounts);
        accounts.push(AccountUse { index, is_writable: meta.is_writable, is_signer: meta.is_signer });
        k = k + 1;
        assert(accounts@ =~= bind_plan(plan@, segment.start).accounts.subrange(0, k as int));
    }
    let program: usize = bind_slot(plan.program, segment, header_len, num_accounts);
    let r = CpiCall { program, accounts, data: plan.data };
    assert(r@.accounts =~= bind_plan(plan@, segment.start).accounts);
    r
}

} // verus!
