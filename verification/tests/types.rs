use faucet::{FaucetError, StorageKey};

#[test]
fn account_key_is_one_zero_byte() {
    assert_eq!(StorageKey::AccountKey.into_storage_key(), vec![0u8]);
}

#[test]
fn every_error_has_its_message() {
    assert_eq!(FaucetError::DepositRequired.message(), "Please deposit at least 1 yocto NEAR");
    assert_eq!(FaucetError::Paused.message(), "Faucet is paused");
    assert_eq!(FaucetError::InsufficientSupply.message(), "Not enough token to share");
    assert_eq!(FaucetError::CapExceeded.message(), "Exceeded maximum amount");
    assert_eq!(FaucetError::NotOwner.message(), "Only owner can update this field");
    assert_eq!(FaucetError::SenderNotOwner.message(), "Only owner can transfer to the faucet");
    assert_eq!(FaucetError::WrongTokenContract.message(), "Only accept token from the correct FT");
    assert_eq!(
        FaucetError::SupplyUnderflow.message(),
        "Settled amount exceeds the available balance"
    );
    assert_eq!(FaucetError::Overflow.message(), "Balance exceeds the 128-bit range");
}

#[test]
fn errors_compare_by_variant() {
    assert_eq!(FaucetError::Paused, FaucetError::Paused);
    assert_ne!(FaucetError::Paused, FaucetError::CapExceeded);
    assert_ne!(FaucetError::NotOwner, FaucetError::SenderNotOwner);
}
