use perps::PerpError;
use perps::PerpInstruction;
use perps::decode_instruction;
use perps::i64_from_twos_complement;
use perps::transfer_instruction_data;

fn open_payload(base_delta: i64, collateral_delta: u64, price: u64) -> Vec<u8> {
    let mut data = vec![0u8];
    data.extend_from_slice(&base_delta.to_le_bytes());
    data.extend_from_slice(&collateral_delta.to_le_bytes());
    data.extend_from_slice(&price.to_le_bytes());
    data
}

#[test]
fn test_decode_open_instruction() {
    let data = open_payload(1_000_000_000, 200_000_000_000, 100_000_000_000);
    assert_eq!(
        decode_instruction(&data),
        Ok(PerpInstruction::OpenOrModify {
            base_delta: 1_000_000_000,
            collateral_delta: 200_000_000_000,
            price: 100_000_000_000,
        })
    );
}

#[test]
fn test_decode_open_negative_base_delta() {
    for base_delta in [-1i64, -1_000_000_000, i64::MIN, i64::MAX] {
        let data = open_payload(base_delta, 7, 9);
        assert_eq!(
            decode_instruction(&data),
            Ok(PerpInstruction::OpenOrModify { base_delta, collateral_delta: 7, price: 9 })
        );
    }
}

#[test]
fn test_decode_open_ignores_trailing_bytes() {
    let mut data = open_payload(5, 6, 7);
    data.push(0xAB);
    assert_eq!(
        decode_instruction(&data),
        Ok(PerpInstruction::OpenOrModify { base_delta: 5, collateral_delta: 6, price: 7 })
    );
}

#[test]
fn test_decode_short_payload() {
    let mut data = open_payload(5, 6, 7);
    data.pop();
    assert_eq!(decode_instruction(&data), Err(PerpError::InvalidPayload));
    assert_eq!(decode_instruction(&[]), Err(PerpError::InvalidPayload));
    assert_eq!(decode_instruction(&[0u8]), Err(PerpError::InvalidPayload));
}

#[test]
fn test_decode_plain_instructions() {
    assert_eq!(decode_instruction(&[1u8]), Ok(PerpInstruction::AdvanceFunding));
    assert_eq!(decode_instruction(&[2u8]), Ok(PerpInstruction::Liquidate));
    assert_eq!(decode_instruction(&[3u8]), Ok(PerpInstruction::Close));
}

#[test]
fn test_decode_unknown_opcode() {
    assert_eq!(decode_instruction(&[4u8]), Err(PerpError::InvalidOpcode));
    assert_eq!(decode_instruction(&[255u8, 0, 0]), Err(PerpError::InvalidOpcode));
}

#[test]
fn test_twos_complement_reading() {
    assert_eq!(i64_from_twos_complement(0), 0);
    assert_eq!(i64_from_twos_complement(1), 1);
    assert_eq!(i64_from_twos_complement(i64::MAX as u64), i64::MAX);
    assert_eq!(i64_from_twos_complement(u64::MAX), -1);
    assert_eq!(i64_from_twos_complement(1u64 << 63), i64::MIN);
    assert_eq!(i64_from_twos_complement((-42i64) as u64), -42);
}

#[test]
fn test_transfer_instruction_data_framing() {
    let amount: u64 = 123_456_789_000;
    let data = transfer_instruction_data(amount);
    assert_eq!(data.len(), 9);
    assert_eq!(data[0], 3);
    assert_eq!(&data[1..], &amount.to_le_bytes());

    let zero = transfer_instruction_data(0);
    assert_eq!(zero, vec![3, 0, 0, 0, 0, 0, 0, 0, 0]);
}
