use escrow::error::{ErrorKind, EscrowError};
use escrow::identity::Identity;
use escrow::validate::{check_exchange_amounts, check_ownership, check_receive_target};

#[test]
fn amounts_that_agree_are_accepted() {
    assert_eq!(check_exchange_amounts(100, 100, 50, 50), Ok(()));
    assert_eq!(check_exchange_amounts(0, 0, 0, 0), Ok(()));
    assert_eq!(check_exchange_amounts(u64::MAX, u64::MAX, 1, 1), Ok(()));
}

#[test]
fn amounts_off_by_one_are_refused() {
    let mismatch = Err(EscrowError::ExpectedAmountMismatch);
    assert_eq!(check_exchange_amounts(99, 100, 50, 50), mismatch);
    assert_eq!(check_exchange_amounts(101, 100, 50, 50), mismatch);
    assert_eq!(check_exchange_amounts(100, 100, 50, 49), mismatch);
    assert_eq!(check_exchange_amounts(100, 100, 50, 51), mismatch);
    assert_eq!(check_exchange_amounts(100, 99, 50, 50), mismatch);
    assert_eq!(check_exchange_amounts(100, 100, 51, 50), mismatch);
    // The two pairs are not interchangeable.
    assert_eq!(check_exchange_amounts(50, 100, 100, 50), mismatch);
}

#[test]
fn receive_target_must_be_the_registered_account() {
    let registered = Identity::new([5u8; 32]);
    assert_eq!(check_receive_target(&registered, &Identity::new([5u8; 32])), Ok(()));
    let mut near = [5u8; 32];
    near[0] = 4;
    assert_eq!(
        check_receive_target(&registered, &Identity::new(near)),
        Err(EscrowError::InvalidAccountData)
    );
}

#[test]
fn owner_must_be_the_maker() {
    let maker = Identity::new([6u8; 32]);
    assert_eq!(check_ownership(&maker, &Identity::new([6u8; 32])), Ok(()));
    assert_eq!(
        check_ownership(&maker, &Identity::new([7u8; 32])),
        Err(EscrowError::InvalidAccountData)
    );
}

#[test]
fn every_error_has_its_class() {
    assert_eq!(EscrowError::MissingRequiredSignature.kind(), ErrorKind::Authorization);
    assert_eq!(EscrowError::ExpectedAmountMismatch.kind(), ErrorKind::Validation);
    assert_eq!(EscrowError::InvalidAccountData.kind(), ErrorKind::Validation);
    assert_eq!(EscrowError::InvalidSeeds.kind(), ErrorKind::Validation);
    assert_eq!(EscrowError::NotEnoughAccountKeys.kind(), ErrorKind::Validation);
    assert_eq!(EscrowError::InvalidArgument.kind(), ErrorKind::Validation);
    assert_eq!(EscrowError::IncorrectProgramId.kind(), ErrorKind::Validation);
    assert_eq!(EscrowError::AccountAlreadyInitialized.kind(), ErrorKind::State);
    assert_eq!(EscrowError::UninitializedAccount.kind(), ErrorKind::State);
    assert_eq!(EscrowError::NotRentExempt.kind(), ErrorKind::Resource);
    assert_eq!(EscrowError::AmountOverflow.kind(), ErrorKind::Resource);
    assert_eq!(EscrowError::DecodeFailed.kind(), ErrorKind::Decode);
}
