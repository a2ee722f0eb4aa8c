use escrow::error::EscrowError;
use escrow::identity::Identity;
use escrow::instructions::EscrowInstruction;
use escrow::state::Escrow;

fn sample() -> Escrow {
    Escrow::new(
        true,
        Identity::new([1u8; 32]),
        Identity::new([2u8; 32]),
        Identity::new([3u8; 32]),
        100,
        50,
        Identity::new([4u8; 32]),
        254,
    )
}

#[test]
fn record_length_is_the_sum_of_its_fields() {
    assert_eq!(Escrow::len(), 146);
    assert_eq!(Escrow::len(), 1 + 32 + 32 + 32 + 8 + 8 + 32 + 1);
    assert_eq!(sample().to_bytes().len(), Escrow::len());
}

#[test]
fn record_new_keeps_every_field() {
    let escrow = sample();
    assert!(escrow.is_initialized);
    assert_eq!(escrow.authority, Identity::new([1u8; 32]));
    assert_eq!(escrow.sell_mint, Identity::new([2u8; 32]));
    assert_eq!(escrow.buy_mint, Identity::new([3u8; 32]));
    assert_eq!(escrow.sell_amount, 100);
    assert_eq!(escrow.buy_amount, 50);
    assert_eq!(escrow.receive_account, Identity::new([4u8; 32]));
    assert_eq!(escrow.bump, 254);
}

#[test]
fn record_layout_is_byte_exact() {
    let data = sample().to_bytes();
    let mut expected = vec![1u8];
    expected.extend_from_slice(&[1u8; 32]);
    expected.extend_from_slice(&[2u8; 32]);
    expected.extend_from_slice(&[3u8; 32]);
    expected.extend_from_slice(&[100, 0, 0, 0, 0, 0, 0, 0]);
    expected.extend_from_slice(&[50, 0, 0, 0, 0, 0, 0, 0]);
    expected.extend_from_slice(&[4u8; 32]);
    expected.push(254);
    assert_eq!(data, expected);
}

#[test]
fn record_layout_is_the_borsh_encoding_of_its_fields() {
    let escrow = Escrow::new(
        false,
        Identity::new([9u8; 32]),
        Identity::new([8u8; 32]),
        Identity::new([7u8; 32]),
        0x0102_0304_0506_0708,
        u64::MAX,
        Identity::new([6u8; 32]),
        3,
    );
    let fields = (
        escrow.is_initialized,
        escrow.authority.bytes,
        escrow.sell_mint.bytes,
        escrow.buy_mint.bytes,
        escrow.sell_amount,
        escrow.buy_amount,
        escrow.receive_account.bytes,
        escrow.bump,
    );
    assert_eq!(escrow.to_bytes(), borsh::to_vec(&fields).unwrap());
    let back: (bool, [u8; 32], [u8; 32], [u8; 32], u64, u64, [u8; 32], u8) =
        borsh::from_slice(&escrow.to_bytes()).unwrap();
    assert_eq!(back, fields);
}

#[test]
fn record_round_trip_is_identical() {
    let escrow = sample();
    assert_eq!(Escrow::try_from_slice(&escrow.to_bytes()), Ok(escrow));
    let other = Escrow::new(
        false,
        Identity::new([0u8; 32]),
        Identity::new([255u8; 32]),
        Identity::new([17u8; 32]),
        u64::MAX,
        0,
        Identity::new([42u8; 32]),
        0,
    );
    let data = other.to_bytes();
    assert_eq!(Escrow::try_from_slice(&data), Ok(other));
    assert_eq!(Escrow::try_from_slice(&data).unwrap().to_bytes(), data);
}

#[test]
fn record_of_zero_bytes_is_an_empty_slot() {
    let slot = Escrow::try_from_slice(&[0u8; 146]).unwrap();
    assert!(!slot.is_initialized);
    assert_eq!(slot.sell_amount, 0);
    assert_eq!(slot.buy_amount, 0);
    assert_eq!(slot.authority, Identity::new([0u8; 32]));
    assert_eq!(slot.bump, 0);
}

#[test]
fn record_of_another_length_is_refused() {
    let data = sample().to_bytes();
    assert_eq!(Escrow::try_from_slice(&data[..145]), Err(EscrowError::DecodeFailed));
    let mut longer = data.clone();
    longer.push(0);
    assert_eq!(Escrow::try_from_slice(&longer), Err(EscrowError::DecodeFailed));
    assert_eq!(Escrow::try_from_slice(&[]), Err(EscrowError::DecodeFailed));
    assert_eq!(Escrow::try_from_slice(&[0u8; 138]), Err(EscrowError::DecodeFailed));
}

#[test]
fn record_with_a_bad_flag_is_refused() {
    let mut data = sample().to_bytes();
    data[0] = 2;
    assert_eq!(Escrow::try_from_slice(&data), Err(EscrowError::DecodeFailed));
    data[0] = 255;
    assert_eq!(Escrow::try_from_slice(&data), Err(EscrowError::DecodeFailed));
    let refused: Result<(bool, [u8; 32], [u8; 32], [u8; 32], u64, u64, [u8; 32], u8), _> =
        borsh::from_slice(&data);
    assert!(refused.is_err());
}

#[test]
fn instruction_payload_is_tag_and_two_amounts() {
    let init = EscrowInstruction::InitEscrow { sell_amount: 100, buy_amount: 50 };
    assert_eq!(
        init.to_bytes(),
        vec![0, 100, 0, 0, 0, 0, 0, 0, 0, 50, 0, 0, 0, 0, 0, 0, 0]
    );
    let exchange = EscrowInstruction::Exchange { sell_amount: 0x0100, buy_amount: u64::MAX };
    assert_eq!(
        exchange.to_bytes(),
        vec![1, 0, 1, 0, 0, 0, 0, 0, 0, 255, 255, 255, 255, 255, 255, 255, 255]
    );
    assert_eq!(exchange.to_bytes(), borsh::to_vec(&(1u8, 0x0100u64, u64::MAX)).unwrap());
}

#[test]
fn instruction_round_trip_is_identical() {
    let init = EscrowInstruction::InitEscrow { sell_amount: 7, buy_amount: u64::MAX - 1 };
    assert_eq!(EscrowInstruction::try_from_slice(&init.to_bytes()), Ok(init));
    let exchange = EscrowInstruction::Exchange { sell_amount: 50, buy_amount: 100 };
    assert_eq!(EscrowInstruction::try_from_slice(&exchange.to_bytes()), Ok(exchange));
}

#[test]
fn instruction_with_unknown_tag_is_refused() {
    let mut data = EscrowInstruction::Exchange { sell_amount: 1, buy_amount: 2 }.to_bytes();
    data[0] = 2;
    assert_eq!(EscrowInstruction::try_from_slice(&data), Err(EscrowError::DecodeFailed));
    data[0] = 255;
    assert_eq!(EscrowInstruction::try_from_slice(&data), Err(EscrowError::DecodeFailed));
}

#[test]
fn instruction_of_another_length_is_refused() {
    let data = EscrowInstruction::InitEscrow { sell_amount: 1, buy_amount: 2 }.to_bytes();
    assert_eq!(EscrowInstruction::try_from_slice(&data[..16]), Err(EscrowError::DecodeFailed));
    assert_eq!(EscrowInstruction::try_from_slice(&[]), Err(EscrowError::DecodeFailed));
    assert_eq!(EscrowInstruction::try_from_slice(&[0]), Err(EscrowError::DecodeFailed));
    let mut longer = data.clone();
    longer.push(0);
    assert_eq!(EscrowInstruction::try_from_slice(&longer), Err(EscrowError::DecodeFailed));
}
