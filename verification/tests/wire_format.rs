use oo_route::error::SwapError;
use oo_route::instruction::OOSwapInstruction;
use oo_route::processor::{check_slippage, pack_hop_request};
use oo_route::state::OOSwapStruct;

/// Builds a wire buffer by hand: tag 0, hop count, amounts, minimum output.
fn wire(hop_count: u8, amounts: &[u64], minimum_amount_out: u64) -> Vec<u8> {
    let mut buffer = vec![0u8, hop_count];
    for amount in amounts {
        buffer.extend_from_slice(&amount.to_le_bytes());
    }
    buffer.extend_from_slice(&minimum_amount_out.to_le_bytes());
    buffer
}

#[test]
fn round_trip_zero_hops() {
    let ins = OOSwapInstruction::OOSwap(OOSwapStruct {
        swap_info_len: 0,
        amounts_in: vec![],
        minimum_amount_out: 7,
    });
    let bytes = ins.pack();
    assert_eq!(bytes, wire(0, &[], 7));
    assert_eq!(OOSwapInstruction::unpack(&bytes), Ok(ins));
}

#[test]
fn round_trip_multi_hop() {
    let ins = OOSwapInstruction::OOSwap(OOSwapStruct {
        swap_info_len: 3,
        amounts_in: vec![100, 50, u64::MAX],
        minimum_amount_out: 140,
    });
    let bytes = ins.pack();
    assert_eq!(bytes, wire(3, &[100, 50, u64::MAX], 140));
    assert_eq!(OOSwapInstruction::unpack(&bytes), Ok(ins));
}

#[test]
fn decode_only_minimum() {
    let bytes = wire(0, &[], 42);
    assert_eq!(bytes.len(), 10);
    match OOSwapInstruction::unpack(&bytes) {
        Ok(OOSwapInstruction::OOSwap(st)) => {
            assert_eq!(st.swap_info_len, 0);
            assert_eq!(st.amounts_in, Vec::<u64>::new());
            assert_eq!(st.minimum_amount_out, 42);
        }
        other => panic!("expected successful decode, got {:?}", other),
    }
}

#[test]
fn ragged_payload_rejected() {
    // One byte short of a whole amount: remaining count is 15, not a
    // multiple of 8.
    let mut bytes = wire(1, &[5], 9);
    bytes.pop();
    assert_eq!(
        OOSwapInstruction::unpack(&bytes),
        Err(SwapError::InvalidInstruction)
    );
    // One byte too many: remaining count is 17.
    let mut bytes = wire(1, &[5], 9);
    bytes.push(0);
    assert_eq!(
        OOSwapInstruction::unpack(&bytes),
        Err(SwapError::InvalidInstruction)
    );
}

#[test]
fn hop_count_mismatch_rejected() {
    // Declares two hops but carries one amount plus the minimum.
    assert_eq!(
        OOSwapInstruction::unpack(&wire(2, &[5], 9)),
        Err(SwapError::InvalidInstruction)
    );
    // Declares zero hops but carries an extra amount.
    assert_eq!(
        OOSwapInstruction::unpack(&wire(0, &[5], 9)),
        Err(SwapError::InvalidInstruction)
    );
}

#[test]
fn unknown_tag_rejected() {
    let mut bytes = wire(0, &[], 9);
    bytes[0] = 1;
    assert_eq!(
        OOSwapInstruction::unpack(&bytes),
        Err(SwapError::InvalidInstruction)
    );
}

#[test]
fn short_buffer_rejected() {
    assert_eq!(
        OOSwapInstruction::unpack(&[]),
        Err(SwapError::InvalidInstruction)
    );
    assert_eq!(
        OOSwapInstruction::unpack(&[0]),
        Err(SwapError::InvalidInstruction)
    );
    // Header only: no minimum output at all.
    assert_eq!(
        OOSwapInstruction::unpack(&[0, 0]),
        Err(SwapError::InvalidInstruction)
    );
}

#[test]
fn unpack_u64_reads_little_endian() {
    let bytes = 0x0102030405060708u64.to_le_bytes();
    assert_eq!(
        OOSwapInstruction::unpack_u64(&bytes, 0),
        Ok(0x0102030405060708)
    );
    assert_eq!(
        OOSwapInstruction::unpack_u64(&bytes, 1),
        Err(SwapError::InvalidInstruction)
    );
    assert_eq!(
        OOSwapInstruction::unpack_u64(&bytes[..7], 0),
        Err(SwapError::InvalidInstruction)
    );
}

#[test]
fn slippage_exact_minimum_succeeds() {
    assert_eq!(check_slippage(1000, 1140, 140), Ok(()));
}

#[test]
fn slippage_below_minimum_rejected() {
    assert_eq!(
        check_slippage(1000, 1130, 140),
        Err(SwapError::ExceededSlippage)
    );
}

#[test]
fn slippage_shrunken_balance_rejected() {
    assert_eq!(
        check_slippage(1000, 990, 0),
        Err(SwapError::BalanceInvariantViolated)
    );
}

#[test]
fn slippage_zero_delta() {
    assert_eq!(check_slippage(1000, 1000, 0), Ok(()));
    assert_eq!(
        check_slippage(1000, 1000, 1),
        Err(SwapError::ExceededSlippage)
    );
}

#[test]
fn hop_request_payload_exact() {
    let mut expected = vec![1u8];
    expected.extend_from_slice(&100u64.to_le_bytes());
    expected.extend_from_slice(&0u64.to_le_bytes());
    assert_eq!(pack_hop_request(100), expected);
}
