use escrow::error::EscrowError;
use escrow::instruction::EscrowInstruction;

fn bytes(opcode: u8, amount: u64) -> Vec<u8> {
    let mut data = vec![opcode];
    data.extend_from_slice(&amount.to_le_bytes());
    data
}

#[test]
fn opcode_zero_is_initiate() {
    assert_eq!(
        EscrowInstruction::unpack(&[0, 100, 0, 0, 0, 0, 0, 0, 0]),
        Ok(EscrowInstruction::InitEscrow { amount: 100 })
    );
}

#[test]
fn opcode_one_is_exchange() {
    assert_eq!(
        EscrowInstruction::unpack(&[1, 0x2c, 0x01, 0, 0, 0, 0, 0, 0]),
        Ok(EscrowInstruction::Exchange { amount: 300 })
    );
}

#[test]
fn the_amount_is_little_endian_and_may_be_any_number() {
    for amount in [0u64, 1, 50, 1 << 40, u64::MAX] {
        assert_eq!(
            EscrowInstruction::unpack(&bytes(0, amount)),
            Ok(EscrowInstruction::InitEscrow { amount })
        );
        assert_eq!(
            EscrowInstruction::unpack(&bytes(1, amount)),
            Ok(EscrowInstruction::Exchange { amount })
        );
    }
}

#[test]
fn an_unknown_opcode_is_refused() {
    assert_eq!(EscrowInstruction::unpack(&bytes(2, 5)), Err(EscrowError::InvalidInstruction));
    assert_eq!(EscrowInstruction::unpack(&bytes(255, 5)), Err(EscrowError::InvalidInstruction));
}

#[test]
fn no_bytes_are_refused() {
    assert_eq!(EscrowInstruction::unpack(&[]), Err(EscrowError::InvalidInstruction));
}

#[test]
fn a_short_amount_is_refused() {
    assert_eq!(EscrowInstruction::unpack(&[0]), Err(EscrowError::InvalidInstruction));
    assert_eq!(
        EscrowInstruction::unpack(&[1, 1, 2, 3, 4, 5, 6, 7]),
        Err(EscrowError::InvalidInstruction)
    );
}

#[test]
fn bytes_after_the_amount_are_not_read() {
    let mut data = bytes(1, 77);
    data.extend_from_slice(&[9, 9, 9]);
    assert_eq!(EscrowInstruction::unpack(&data), Ok(EscrowInstruction::Exchange { amount: 77 }));
}
