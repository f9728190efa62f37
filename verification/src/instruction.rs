//! The wire format of a swap instruction, its decoder and its encoder.
//!
//! A buffer is, in order: a one-byte instruction tag (only `0` is recognized),
//! a one-byte hop count `N`, then `N` little-endian `u64` input amounts, then
//! one little-endian `u64` minimum output. The total length must be exactly
//! `2 + 8 * (N + 1)` bytes; the hop count is deliberately double-encoded (in
//! the byte and in the length) as a cross-check.

use vstd::prelude::*;
use vstd::bytes::{
    lemma_auto_spec_u64_to_from_le_bytes, spec_u64_from_le_bytes, spec_u64_to_le_bytes,
    u64_from_le_bytes, u64_to_le_bytes,
};
use vstd::slice::{slice_index_get, slice_subrange};
use crate::error::SwapError;
use crate::state::OOSwapStruct;

verus! {

/// Instructions supported by the swap router.
#[derive(Debug, PartialEq)]
pub enum OOSwapInstruction {
    /// A multi-hop swap with a single end-to-end minimum output.
    OOSwap(OOSwapStruct),
}

/// A buffer is well formed when it carries the recognized tag, its payload is
/// a whole number of eight-byte words, and the declared hop count agrees with
/// the payload size: the buffer holds exactly `hopCount + 1` words.
pub open spec fn wire_well_formed(s: Seq<u8>) -> bool {
    &&& s.len() >= 2
    &&& s[0] == 0u8
    &&& (s.len() - 2) % 8 == 0
    &&& s.len() >= 10
    &&& (s.len() - 2) / 8 - 1 == s[1] as int
}

/// The `n` input amounts encoded after the two header bytes.
pub open spec fn amounts_of(s: Seq<u8>, n: int) -> Seq<u64> {
    Seq::new(n as nat, |i: int| spec_u64_from_le_bytes(s.subrange(2 + 8 * i, 2 + 8 * i + 8)))
}

/// The minimum output encoded in the last eight bytes.
pub open spec fn minimum_of(s: Seq<u8>) -> u64 {
    spec_u64_from_le_bytes(s.subrange(s.len() - 8, s.len() as int))
}

/// The input amounts laid out back to back, eight bytes each, little-endian.
pub open spec fn encoded_amounts(amounts: Seq<u64>) -> Seq<u8>
    decreases amounts.len(),
{
    if amounts.len() == 0 {
        Seq::empty()
    } else {
        encoded_amounts(amounts.drop_last()) + spec_u64_to_le_bytes(amounts.last())
    }
}

/// The full wire image of a request.
pub open spec fn encoded_wire(hop_count: u8, amounts: Seq<u64>, minimum_amount_out: u64) -> Seq<u8> {
    seq![0u8, hop_count] + encoded_amounts(amounts) + spec_u64_to_le_bytes(minimum_amount_out)
}

pub proof fn lemma_encoded_amounts_len(amounts: Seq<u64>)
    ensures
        encoded_amounts(amounts).len() == 8 * amounts.len(),
    decreases amounts.len(),
{
    lemma_auto_spec_u64_to_from_le_bytes();
    if amounts.len() > 0 {
        lemma_encoded_amounts_len(amounts.drop_last());
    }
}

pub proof fn lemma_encoded_amounts_index(amounts: Seq<u64>, i: int)
    requires
        0 <= i < amounts.len(),
    ensures
        encoded_amounts(amounts).subrange(8 * i, 8 * i + 8) == spec_u64_to_le_bytes(amounts[i]),
    decreases amounts.len(),
{
    lemma_auto_spec_u64_to_from_le_bytes();
    lemma_encoded_amounts_len(amounts);
    lemma_encoded_amounts_len(amounts.drop_last());
    if i == amounts.len() - 1 {
        assert(encoded_amounts(amounts).subrange(8 * i, 8 * i + 8) =~= spec_u64_to_le_bytes(
            amounts.last(),
        ));
    } else {
        lemma_encoded_amounts_index(amounts.drop_last(), i);
        assert(encoded_amounts(amounts).subrange(8 * i, 8 * i + 8) =~= encoded_amounts(
            amounts.drop_last(),
        ).subrange(8 * i, 8 * i + 8));
    }
}

/// Law: encoding a valid request and decoding the image yields the original
/// values, for every hop count, including zero. Together with `unpack`'s
/// contract this says `unpack(pack(req))` returns exactly `req`.
pub proof fn lemma_wire_round_trip(hop_count: u8, amounts: Seq<u64>, minimum_amount_out: u64)
    requires
        amounts.len() == hop_count as int,
    ensures
        ({
            let s = encoded_wire(hop_count, amounts, minimum_amount_out);
            &&& wire_well_formed(s)
            &&& s[1] == hop_count
            &&& amounts_of(s, hop_count as int) == amounts
            &&& minimum_of(s) == minimum_amount_out
        }),
{
    lemma_auto_spec_u64_to_from_le_bytes();
    lemma_encoded_amounts_len(amounts);
    let s = encoded_wire(hop_count, amounts, minimum_amount_out);
    assert(s.len() == 10 + 8 * (hop_count as int));
    assert((s.len() - 2) % 8 == 0 && (s.len() - 2) / 8 - 1 == hop_count as int) by {
        assert((8 * ((hop_count as int) + 1)) % 8 == 0) by (nonlinear_arith);
        assert((8 * ((hop_count as int) + 1)) / 8 == (hop_count as int) + 1) by (nonlinear_arith);
    };
    assert forall|i: int| 0 <= i < hop_count as int implies amounts_of(s, hop_count as int)[i]
        == amounts[i] by {
        lemma_encoded_amounts_index(amounts, i);
        assert(s.subrange(2 + 8 * i, 2 + 8 * i + 8) =~= encoded_amounts(amounts).subrange(
            8 * i,
            8 * i + 8,
        ));
    };
    assert(amounts_of(s, hop_count as int) =~= amounts);
    assert(s.subrange(s.len() - 8, s.len() as int) =~= spec_u64_to_le_bytes(minimum_amount_out));
}

/// Law: a buffer whose payload after the two header bytes is not a whole
/// number of eight-byte words is not well formed, so by `unpack`'s contract it
/// is rejected with `InvalidInstruction`.
pub proof fn lemma_ragged_payload_rejected(s: Seq<u8>)
    requires
        s.len() >= 2,
        (s.len() - 2) % 8 != 0,
    ensures
        !wire_well_formed(s),
{
}

/// Law: a buffer whose declared hop count disagrees with the number of words
/// its length implies is not well formed, so by `unpack`'s contract it is
/// rejected with `InvalidInstruction`.
pub proof fn lemma_count_mismatch_rejected(s: Seq<u8>)
    requires
        s.len() >= 2,
        (s.len() - 2) % 8 == 0,
        s.len() < 10 || (s.len() - 2) / 8 - 1 != s[1] as int,
    ensures
        !wire_well_formed(s),
{
}

/// Law: a buffer that carries the recognized tag, a zero hop count and
/// exactly one word — the minimum output alone — is well formed, so by
/// `unpack`'s contract it decodes successfully.
pub proof fn lemma_zero_hops_accepted(s: Seq<u8>)
    requires
        s.len() == 10,
        s[0] == 0u8,
        s[1] == 0u8,
    ensures
        wire_well_formed(s),
{
}

impl OOSwapInstruction {
    /// Unpacks a byte buffer into an [`OOSwapInstruction`]: the exact parse of
    /// the wire format, succeeding precisely on well-formed buffers.
    pub fn unpack(input: &[u8]) -> (r: Result<Self, SwapError>)
        ensures
            r is Ok <==> wire_well_formed(input@),
            r matches Err(e) ==> e == SwapError::InvalidInstruction,
            r matches Ok(ins) ==> ins matches OOSwapInstruction::OOSwap(st) && st.wf()
                && st.swap_info_len == input@[1] && st.amounts_in@ == amounts_of(
                input@,
                input@[1] as int,
            ) && st.minimum_amount_out == minimum_of(input@),
    {
        let len = input.len();
        if len < 2 {
            return Err(SwapError::InvalidInstruction);
        }
        let tag = *slice_index_get(input, 0);
        if tag != 0 {
            return Err(SwapError::InvalidInstruction);
        }
        let swap_info_len = *slice_index_get(input, 1);
        let rem = len - 2;
        if rem % 8 != 0 {
            return Err(SwapError::InvalidInstruction);
        }
        if rem / 8 < 1 {
            return Err(SwapError::InvalidInstruction);
        }
        let size = rem / 8 - 1;
        if size != swap_info_len as usize {
            return Err(SwapError::InvalidInstruction);
        }
        assert(len == 2 + 8 * (size + 1));
        let mut amounts_in: Vec<u64> = Vec::new();
        let mut i: usize = 0;
        while i < size
            invariant
                i <= size,
                size <= 255,
                input@.len() == 2 + 8 * (size + 1),
                amounts_in@.len() == i as int,
                forall|j: int|
                    0 <= j < i as int ==> amounts_in@[j] == spec_u64_from_le_bytes(
                        input@.subrange(2 + 8 * j, 2 + 8 * j + 8),
                    ),
            decreases size - i,
        {
            let amount_in = match Self::unpack_u64(input, 2 + 8 * i) {
                Ok(v) => v,
                Err(e) => {
                    assert(false);
                    return Err(e);
                },
            };
            amounts_in.push(amount_in);
            i = i + 1;
        }
        let minimum_amount_out = match Self::unpack_u64(input, 2 + 8 * size) {
            Ok(v) => v,
            Err(e) => {
                assert(false);
                return Err(e);
            },
        };
        proof {
            assert(amounts_in@ =~= amounts_of(input@, swap_info_len as int));
            assert(input@.subrange(2 + 8 * (size as int), 2 + 8 * (size as int) + 8)
                =~= input@.subrange(input@.len() - 8, input@.len() as int));
        }
        Ok(OOSwapInstruction::OOSwap(OOSwapStruct { swap_info_len, amounts_in, minimum_amount_out }))
    }

    /// Reads one little-endian `u64` word at `start`; fails with
    /// `InvalidInstruction` when fewer than eight bytes remain there.
    pub fn unpack_u64(input: &[u8], start: usize) -> (r: Result<u64, SwapError>)
        ensures
            start + 8 <= input@.len() ==> r == Ok::<u64, SwapError>(
                spec_u64_from_le_bytes(input@.subrange(start as int, start as int + 8)),
            ),
            start + 8 > input@.len() ==> r == Err::<u64, SwapError>(SwapError::InvalidInstruction),
    {
        let len = input.len();
        if len >= 8 && start <= len - 8 {
            let word = slice_subrange(input, start, start + 8);
            Ok(u64_from_le_bytes(word))
        } else {
            Err(SwapError::InvalidInstruction)
        }
    }

    /// Packs a request into its wire image, the inverse of [`Self::unpack`].
    pub fn pack(&self) -> (r: Vec<u8>)
        ensures
            self matches OOSwapInstruction::OOSwap(st) ==> r@ == encoded_wire(
                st.swap_info_len,
                st.amounts_in@,
                st.minimum_amount_out,
            ),
    {
        match self {
            OOSwapInstruction::OOSwap(st) => {
                let mut out: Vec<u8> = Vec::new();
                out.push(0u8);
                out.push(st.swap_info_len);
                let mut i: usize = 0;
                while i < st.amounts_in.len()
                    invariant
                        i <= st.amounts_in@.len(),
                        out@ == seq![0u8, st.swap_info_len] + encoded_amounts(
                            st.amounts_in@.subrange(0, i as int),
                        ),
                    decreases st.amounts_in@.len() - i,
                {
                    let mut word = u64_to_le_bytes(st.amounts_in[i]);
                    out.append(&mut word);
                    proof {
                        let prefix = st.amounts_in@.subrange(0, i + 1);
                        assert(prefix.drop_last() =~= st.amounts_in@.subrange(0, i as int));
                        assert(out@ =~= seq![0u8, st.swap_info_len] + encoded_amounts(prefix));
                    }
                    i = i + 1;
                }
                let mut tail = u64_to_le_bytes(st.minimum_amount_out);
                out.append(&mut tail);
                proof {
                    assert(st.amounts_in@.subrange(0, st.amounts_in@.len() as int)
                        =~= st.amounts_in@);
                    assert(out@ =~= encoded_wire(
                        st.swap_info_len,
                        st.amounts_in@,
                        st.minimum_amount_out,
                    ));
                }
                out
            },
        }
    }
}

} // verus!
