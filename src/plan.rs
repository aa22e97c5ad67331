use vstd::bytes::{spec_u64_to_le_bytes, u64_to_le_bytes};
use vstd::prelude::*;

use crate::error::{PinocchioCpiError, PinocchioResult};

verus! {

/// Header slot of the payer and signer.
pub const PAYER: usize = 0;

/// Header slot of the reference-asset (wsol) mint.
pub const WSOL_MINT: usize = 1;

/// Header slot of the reference-asset token account.
pub const WSOL_ACCOUNT: usize = 2;

/// Header slot of the primary token program.
pub const TOKEN_PROGRAM: usize = 3;

/// Header slot of the second token-program variant.
pub const TOKEN_2022_PROGRAM: usize = 4;

/// Header slot of the memo program.
pub const MEMO_PROGRAM: usize = 5;

/// Header slot of the target-token mint.
pub const TOKEN_MINT: usize = 6;

/// Header slot of the target token's program.
pub const TOKEN_MINT_PROGRAM: usize = 7;

/// Header slot of the target-token account.
pub const TOKEN_ACCOUNT: usize = 8;

/// Header slot of the second intermediate token's mint (three hops only).
pub const TOKEN2_MINT: usize = 9;

/// Header slot of the second intermediate token's program (three hops only).
pub const TOKEN2_PROGRAM: usize = 10;

/// Header slot of the second intermediate token's account (three hops only).
pub const TOKEN2_ACCOUNT: usize = 11;

/// Header length of a two-hop chain.
pub const TWO_HOP_HEADER_LEN: usize = 9;

/// Header length of a three-hop chain.
pub const THREE_HOP_HEADER_LEN: usize = 12;

/// Where an account of an instruction comes from: a slot of the shared
/// header, or a slot of the protocol's own account group.
#[derive(Clone, Copy, Debug, PartialEq, Eq, Structural)]
pub enum Slot {
    Header(usize),
    Pool(usize),
}

/// One account of an instruction, with its access flags.
#[derive(Clone, Copy, Debug, PartialEq, Eq, Structural)]
pub struct SlotMeta {
    pub slot: Slot,
    pub is_writable: bool,
    pub is_signer: bool,
}

pub open spec fn ro(slot: Slot) -> SlotMeta {
    SlotMeta { slot, is_writable: false, is_signer: false }
}

pub open spec fn rw(slot: Slot) -> SlotMeta {
    SlotMeta { slot, is_writable: true, is_signer: false }
}

pub open spec fn rw_signer(slot: Slot) -> SlotMeta {
    SlotMeta { slot, is_writable: true, is_signer: true }
}

impl SlotMeta {
    /// A read-only, non-signing account.
    pub fn readonly(slot: Slot) -> (r: SlotMeta)
        ensures
            r == ro(slot),
    {
        SlotMeta { slot, is_writable: false, is_signer: false }
    }

    /// A writable, non-signing account.
    pub fn writable(slot: Slot) -> (r: SlotMeta)
        ensures
            r == rw(slot),
    {
        SlotMeta { slot, is_writable: true, is_signer: false }
    }

    /// A writable signing account.
    pub fn writable_signer(slot: Slot) -> (r: SlotMeta)
        ensures
            r == rw_signer(slot),
    {
        SlotMeta { slot, is_writable: true, is_signer: true }
    }
}

/// A protocol instruction, ready to be invoked once its slots are bound to
/// accounts: the program to call, the ordered account list and the data.
#[derive(Debug)]
pub struct CpiPlan {
    pub program: Slot,
    pub metas: Vec<SlotMeta>,
    pub data: Vec<u8>,
}

pub struct PlanView {
    pub program: Slot,
    pub metas: Seq<SlotMeta>,
    pub data: Seq<u8>,
}

impl View for CpiPlan {
    type V = PlanView;

    open spec fn view(&self) -> PlanView {
        PlanView { program: self.program, metas: self.metas@, data: self.data@ }
    }
}

/// The view of a built plan, or the error that stopped it.
pub open spec fn plan_result_view(r: PinocchioResult<CpiPlan>) -> Result<PlanView, PinocchioCpiError> {
    match r {
        Ok(plan) => Ok(plan@),
        Err(e) => Err(e),
    }
}

/// Whether a slot lies within a header of `header_len` accounts and a
/// protocol group of `pool_len` accounts.
pub open spec fn slot_within(slot: Slot, header_len: nat, pool_len: nat) -> bool {
    match slot {
        Slot::Header(i) => i < header_len,
        Slot::Pool(j) => j < pool_len,
    }
}

/// Every account of a plan, its program included, lies within the given
/// header and protocol group.
pub open spec fn plan_within(plan: PlanView, header_len: nat, pool_len: nat) -> bool {
    &&& slot_within(plan.program, header_len, pool_len)
    &&& forall|k: int|
        0 <= k < plan.metas.len() ==> slot_within(
            #[trigger] plan.metas[k].slot,
            header_len,
            pool_len,
        )
}

/// The three tokens a chain moves through: the reference asset, the target
/// token, and (three hops only) the second intermediate token.
#[derive(Clone, Copy, Debug, PartialEq, Eq, Structural)]
pub enum Asset {
    Wsol,
    Token,
    Token2,
}

impl Asset {
    pub open spec fn spec_mint(self) -> usize {
        match self {
            Asset::Wsol => WSOL_MINT,
            Asset::Token => TOKEN_MINT,
            Asset::Token2 => TOKEN2_MINT,
        }
    }

    pub open spec fn spec_program(self) -> usize {
        match self {
            Asset::Wsol => TOKEN_PROGRAM,
            Asset::Token => TOKEN_MINT_PROGRAM,
            Asset::Token2 => TOKEN2_PROGRAM,
        }
    }

    pub open spec fn spec_account(self) -> usize {
        match self {
            Asset::Wsol => WSOL_ACCOUNT,
            Asset::Token => TOKEN_ACCOUNT,
            Asset::Token2 => TOKEN2_ACCOUNT,
        }
    }

    /// The header slot of this token's mint.
    pub fn mint(&self) -> (r: Slot)
        ensures
            r == Slot::Header(self.spec_mint()),
    {
        match self {
            Asset::Wsol => Slot::Header(WSOL_MINT),
            Asset::Token => Slot::Header(TOKEN_MINT),
            Asset::Token2 => Slot::Header(TOKEN2_MINT),
        }
    }

    /// The header slot of this token's program.
    pub fn program(&self) -> (r: Slot)
        ensures
            r == Slot::Header(self.spec_program()),
    {
        match self {
            Asset::Wsol => Slot::Header(TOKEN_PROGRAM),
            Asset::Token => Slot::Header(TOKEN_MINT_PROGRAM),
            Asset::Token2 => Slot::Header(TOKEN2_PROGRAM),
        }
    }

    /// The header slot of the payer's account of this token.
    pub fn account(&self) -> (r: Slot)
        ensures
            r == Slot::Header(self.spec_account()),
    {
        match self {
            Asset::Wsol => Slot::Header(WSOL_ACCOUNT),
            Asset::Token => Slot::Header(TOKEN_ACCOUNT),
            Asset::Token2 => Slot::Header(TOKEN2_ACCOUNT),
        }
    }
}

/// One swap leg after direction and ordering are resolved: the token paid,
/// the token received, and whether the paid token is the pool's first asset.
#[derive(Clone, Copy, Debug, PartialEq, Eq, Structural)]
pub struct Leg {
    pub input: Asset,
    pub output: Asset,
    pub input_is_first: bool,
}

/// A two-hop leg: buying pays the reference asset for the target token,
/// selling the reverse; the flag says whether the reference asset is the
/// pool's first asset.
pub open spec fn two_hop_leg(is_buy: bool, is_wsol_first: bool) -> Leg {
    if is_buy {
        Leg { input: Asset::Wsol, output: Asset::Token, input_is_first: is_wsol_first }
    } else {
        Leg { input: Asset::Token, output: Asset::Wsol, input_is_first: !is_wsol_first }
    }
}

/// A three-hop leg by step: the buy, the token-to-token middle (whose flag
/// says whether the first intermediate token is the pool's first asset), and
/// the sell of the second intermediate token; no leg for another step.
pub open spec fn three_hop_leg(step: u8, flag: bool) -> Option<Leg> {
    if step == 1 {
        Some(two_hop_leg(true, flag))
    } else if step == 2 {
        Some(Leg { input: Asset::Token, output: Asset::Token2, input_is_first: flag })
    } else if step == 3 {
        Some(Leg { input: Asset::Token2, output: Asset::Wsol, input_is_first: !flag })
    } else {
        None
    }
}

/// The leg's asset that sits first in the pool.
pub open spec fn leg_first(leg: Leg) -> Asset {
    if leg.input_is_first {
        leg.input
    } else {
        leg.output
    }
}

/// The leg's asset that sits second in the pool.
pub open spec fn leg_second(leg: Leg) -> Asset {
    if leg.input_is_first {
        leg.output
    } else {
        leg.input
    }
}

/// The header length a leg's token slots need.
pub open spec fn leg_header_len(leg: Leg) -> nat {
    if leg.input == Asset::Token2 || leg.output == Asset::Token2 {
        THREE_HOP_HEADER_LEN as nat
    } else {
        TWO_HOP_HEADER_LEN as nat
    }
}

impl Leg {
    /// Resolves a two-hop leg from the direction and the asset order.
    pub fn two_hop(is_buy: bool, is_wsol_first: bool) -> (r: Leg)
        ensures
            r == two_hop_leg(is_buy, is_wsol_first),
    {
        if is_buy {
            Leg { input: Asset::Wsol, output: Asset::Token, input_is_first: is_wsol_first }
        } else {
            Leg { input: Asset::Token, output: Asset::Wsol, input_is_first: !is_wsol_first }
        }
    }

    /// Resolves a three-hop leg from its step (1, 2 or 3) and its order flag.
    pub fn three_hop(step: u8, flag: bool) -> (r: Option<Leg>)
        ensures
            r == three_hop_leg(step, flag),
    {
        if step == 1 {
            Some(Leg::two_hop(true, flag))
        } else if step == 2 {
            Some(Leg { input: Asset::Token, output: Asset::Token2, input_is_first: flag })
        } else if step == 3 {
            Some(Leg { input: Asset::Token2, output: Asset::Wsol, input_is_first: !flag })
        } else {
            None
        }
    }

    /// The asset that sits first in the pool.
    pub fn first(&self) -> (r: Asset)
        ensures
            r == leg_first(*self),
    {
        if self.input_is_first {
            self.input
        } else {
            self.output
        }
    }

    /// The asset that sits second in the pool.
    pub fn second(&self) -> (r: Asset)
        ensures
            r == leg_second(*self),
    {
        if self.input_is_first {
            self.output
        } else {
            self.input
        }
    }
}

/// Selling with an order flag is the buy with the same flag run backwards.
pub proof fn lemma_two_hop_sell_reverses_buy(is_wsol_first: bool)
    ensures
        two_hop_leg(false, is_wsol_first).input == two_hop_leg(true, is_wsol_first).output,
        two_hop_leg(false, is_wsol_first).output == two_hop_leg(true, is_wsol_first).input,
        two_hop_leg(false, is_wsol_first).input_is_first != two_hop_leg(
            true,
            is_wsol_first,
        ).input_is_first,
{
}

/// `n` zero bytes.
pub open spec fn zeros(n: nat) -> Seq<u8> {
    Seq::new(n, |i: int| 0u8)
}

/// Appends the little-endian bytes of `v`.
pub fn push_u64_le(data: &mut Vec<u8>, v: u64)
    ensures
        final(data)@ == old(data)@ + spec_u64_to_le_bytes(v),
{
    let mut bytes = u64_to_le_bytes(v);
    data.append(&mut bytes);
}

/// Appends `n` copies of `b`.
pub fn push_repeated(data: &mut Vec<u8>, b: u8, n: usize)
    ensures
        final(data)@ == old(data)@ + Seq::new(n as nat, |i: int| b),
{
    let ghost start = data@;
    let mut i: usize = 0;
    while i < n
        invariant
            i <= n,
            data@ == start + Seq::new(i as nat, |k: int| b),
        decreases n - i,
    {
        data.push(b);
        i = i + 1;
        assert(data@ =~= start + Seq::new(i as nat, |k: int| b));
    }
}

} // verus!
