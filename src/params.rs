use vstd::bytes::{
    lemma_auto_spec_u32_to_from_le_bytes, lemma_auto_spec_u64_to_from_le_bytes,
    spec_u32_from_le_bytes, spec_u32_to_le_bytes, spec_u64_from_le_bytes, spec_u64_to_le_bytes,
    u32_from_le_bytes, u64_from_le_bytes,
};
use vstd::prelude::*;
use vstd::slice::slice_subrange;

use crate::error::{PinocchioCpiError, PinocchioResult};

verus! {

/// Length of the two-hop payload (after the opcode byte).
pub const TWO_HOP_PAYLOAD_LEN: usize = 25;

/// Length of the three-hop payload (after the opcode byte).
pub const THREE_HOP_PAYLOAD_LEN: usize = 27;

/// The decoded request of one arbitrage transaction.
///
/// `mid` and `is_mid_zero_to_one` are present exactly for a three-hop chain.
#[derive(Clone, Copy, Debug, PartialEq, Eq, Structural)]
pub struct SwapParams {
    pub buy: u8,
    pub mid: Option<u8>,
    pub sell: u8,
    pub is_wsol_pool_0_buy: bool,
    pub is_mid_zero_to_one: Option<bool>,
    pub is_wsol_pool_0_sell: bool,
    pub is_simulate: bool,
    pub amount_in: u64,
    pub pump_base_amount_out: u64,
    pub min_profit: u32,
}

/// The fixed payload length of each layout.
pub open spec fn payload_len(is_3hop: bool) -> nat {
    if is_3hop {
        THREE_HOP_PAYLOAD_LEN as nat
    } else {
        TWO_HOP_PAYLOAD_LEN as nat
    }
}

/// A flag byte is set when it holds exactly one.
pub open spec fn flag_of(b: u8) -> bool {
    b == 1
}

/// The canonical byte of a flag.
pub open spec fn flag_byte(f: bool) -> u8 {
    if f {
        1
    } else {
        0
    }
}

/// The little-endian u64 stored at `s[at..at + 8]`.
pub open spec fn u64_at(s: Seq<u8>, at: int) -> u64 {
    spec_u64_from_le_bytes(s.subrange(at, at + 8))
}

/// The little-endian u32 stored at `s[at..at + 4]`.
pub open spec fn u32_at(s: Seq<u8>, at: int) -> u32 {
    spec_u32_from_le_bytes(s.subrange(at, at + 4))
}

/// What the positional layouts say a payload holds.
///
/// Two hops: `[0]` buy tag, `[1]` sell tag, `[2]` buy flag, `[3]` sell flag,
/// `[4]` simulate, `[5..13]` amount in, `[13..21]` bonding-curve output,
/// `[21..25]` minimum profit. Three hops insert the mid tag at `[1]` and the
/// mid direction at `[4]`, shifting the rest by two.
pub open spec fn decode_payload(s: Seq<u8>, is_3hop: bool) -> SwapParams {
    if !is_3hop {
        SwapParams {
            buy: s[0],
            mid: None,
            sell: s[1],
            is_wsol_pool_0_buy: flag_of(s[2]),
            is_mid_zero_to_one: None,
            is_wsol_pool_0_sell: flag_of(s[3]),
            is_simulate: flag_of(s[4]),
            amount_in: u64_at(s, 5),
            pump_base_amount_out: u64_at(s, 13),
            min_profit: u32_at(s, 21),
        }
    } else {
        SwapParams {
            buy: s[0],
            mid: Some(s[1]),
            sell: s[2],
            is_wsol_pool_0_buy: flag_of(s[3]),
            is_mid_zero_to_one: Some(flag_of(s[4])),
            is_wsol_pool_0_sell: flag_of(s[5]),
            is_simulate: flag_of(s[6]),
            amount_in: u64_at(s, 7),
            pump_base_amount_out: u64_at(s, 15),
            min_profit: u32_at(s, 23),
        }
    }
}

/// The bytes a request is written as, in the layout its hop count selects.
pub open spec fn encode_payload(p: SwapParams) -> Seq<u8> {
    let tail = spec_u64_to_le_bytes(p.amount_in) + spec_u64_to_le_bytes(p.pump_base_amount_out)
        + spec_u32_to_le_bytes(p.min_profit);
    match (p.mid, p.is_mid_zero_to_one) {
        (Some(mid), Some(zero_to_one)) => seq![
            p.buy,
            mid,
            p.sell,
            flag_byte(p.is_wsol_pool_0_buy),
            flag_byte(zero_to_one),
            flag_byte(p.is_wsol_pool_0_sell),
            flag_byte(p.is_simulate),
        ] + tail,
        _ => seq![
            p.buy,
            p.sell,
            flag_byte(p.is_wsol_pool_0_buy),
            flag_byte(p.is_wsol_pool_0_sell),
            flag_byte(p.is_simulate),
        ] + tail,
    }
}

/// The hop count a request carries is consistent: the mid tag and the mid
/// direction are both present or both absent.
pub open spec fn params_well_formed(p: SwapParams) -> bool {
    p.mid.is_some() == p.is_mid_zero_to_one.is_some()
}

/// Every flag byte of a payload is canonical (zero or one).
pub open spec fn flags_canonical(s: Seq<u8>, is_3hop: bool) -> bool {
    let n: int = if is_3hop {
        7
    } else {
        5
    };
    let first_flag: int = if is_3hop {
        3
    } else {
        2
    };
    forall|i: int| first_flag <= i < n ==> #[trigger] s[i] == 0 || s[i] == 1
}

/// Decodes the payload that follows the opcode byte, in the two-hop or the
/// three-hop layout. Fails with `InstructionDataTooShort` exactly when the
/// payload is shorter than its layout; trailing bytes are ignored.
pub fn parse_instruction_data(data: &[u8], is_3hop: bool) -> (r: PinocchioResult<SwapParams>)
    ensures
        data@.len() < payload_len(is_3hop) ==> r == Err::<SwapParams, PinocchioCpiError>(
            PinocchioCpiError::InstructionDataTooShort,
        ),
        data@.len() >= payload_len(is_3hop) ==> r == Ok::<SwapParams, PinocchioCpiError>(
            decode_payload(data@, is_3hop),
        ),
{
    if !is_3hop {
        if data.len() < TWO_HOP_PAYLOAD_LEN {
            return Err(PinocchioCpiError::InstructionDataTooShort);
        }
        Ok(
            SwapParams {
                buy: data[0],
                mid: None,
                sell: data[1],
                is_wsol_pool_0_buy: data[2] == 1,
                is_mid_zero_to_one: None,
                is_wsol_pool_0_sell: data[3] == 1,
                is_simulate: data[4] == 1,
                amount_in: u64_from_le_bytes(slice_subrange(data, 5, 13)),
                pump_base_amount_out: u64_from_le_bytes(slice_subrange(data, 13, 21)),
                min_profit: u32_from_le_bytes(slice_subrange(data, 21, 25)),
            },
        )
    } else {
        if data.len() < THREE_HOP_PAYLOAD_LEN {
            return Err(PinocchioCpiError::InstructionDataTooShort);
        }
        Ok(
            SwapParams {
                buy: data[0],
                mid: Some(data[1]),
                sell: data[2],
                is_wsol_pool_0_buy: data[3] == 1,
                is_mid_zero_to_one: Some(data[4] == 1),
                is_wsol_pool_0_sell: data[5] == 1,
                is_simulate: data[6] == 1,
                amount_in: u64_from_le_bytes(slice_subrange(data, 7, 15)),
                pump_base_amount_out: u64_from_le_bytes(slice_subrange(data, 15, 23)),
                min_profit: u32_from_le_bytes(slice_subrange(data, 23, 27)),
            },
        )
    }
}

/// Byte-exact layout law, from bytes: a payload of exactly its layout's
/// length whose flag bytes are canonical is reproduced by decoding it and
/// writing the decoded fields back.
pub proof fn lemma_payload_bytes_round_trip(s: Seq<u8>, is_3hop: bool)
    requires
        s.len() == payload_len(is_3hop),
        flags_canonical(s, is_3hop),
    ensures
        params_well_formed(decode_payload(s, is_3hop)),
        encode_payload(decode_payload(s, is_3hop)) == s,
{
    lemma_auto_spec_u64_to_from_le_bytes();
    lemma_auto_spec_u32_to_from_le_bytes();
    let p = decode_payload(s, is_3hop);
    let base: int = if is_3hop {
        7
    } else {
        5
    };
    assert(s.subrange(base, base + 8).len() == 8);
    assert(s.subrange(base + 8, base + 16).len() == 8);
    assert(s.subrange(base + 16, base + 20).len() == 4);
    assert(spec_u64_to_le_bytes(p.amount_in) == s.subrange(base, base + 8));
    assert(spec_u64_to_le_bytes(p.pump_base_amount_out) == s.subrange(base + 8, base + 16));
    assert(spec_u32_to_le_bytes(p.min_profit) == s.subrange(base + 16, base + 20));
    if is_3hop {
        assert(flag_byte(flag_of(s[3])) == s[3]);
        assert(flag_byte(flag_of(s[4])) == s[4]);
        assert(flag_byte(flag_of(s[5])) == s[5]);
        assert(flag_byte(flag_of(s[6])) == s[6]);
    } else {
        assert(flag_byte(flag_of(s[2])) == s[2]);
        assert(flag_byte(flag_of(s[3])) == s[3]);
        assert(flag_byte(flag_of(s[4])) == s[4]);
    }
    assert(encode_payload(p) =~= s);
}

/// Byte-exact layout law, from fields: writing a well-formed request in its
/// layout gives a payload of exactly that layout's length, which decodes back
/// to the same request.
pub proof fn lemma_payload_fields_round_trip(p: SwapParams)
    requires
        params_well_formed(p),
    ensures
        encode_payload(p).len() == payload_len(p.mid.is_some()),
        flags_canonical(encode_payload(p), p.mid.is_some()),
        decode_payload(encode_payload(p), p.mid.is_some()) == p,
{
    lemma_auto_spec_u64_to_from_le_bytes();
    lemma_auto_spec_u32_to_from_le_bytes();
    let s = encode_payload(p);
    let is_3hop = p.mid.is_some();
    let base: int = if is_3hop {
        7
    } else {
        5
    };
    assert(s.subrange(base, base + 8) =~= spec_u64_to_le_bytes(p.amount_in));
    assert(s.subrange(base + 8, base + 16) =~= spec_u64_to_le_bytes(p.pump_base_amount_out));
    assert(s.subrange(base + 16, base + 20) =~= spec_u32_to_le_bytes(p.min_profit));
}

} // verus!
