use faucet::{FaucetContract, FaucetError, FungibleTokenReceiver};

fn name(text: &str) -> String {
    text.to_string()
}

fn funded_faucet(cap: u128, pool: u128) -> FaucetContract {
    let mut faucet = FaucetContract::new(name("owner.near"), name("token.near"), cap);
    let declined = faucet.ft_on_transfer(name("token.near"), name("owner.near"), pool, name("fund"));
    assert_eq!(declined, Ok(0));
    faucet
}

#[test]
fn request_within_cap_is_admitted_and_settled() {
    let mut faucet = funded_faucet(100, 500);

    let request = faucet.faucet_token(name("x.near"), 60, 1).unwrap();
    assert_eq!(request.receiver_id, "x.near");
    assert_eq!(request.amount, 60);
    assert_eq!(faucet.available_balance, 500);
    assert_eq!(faucet.shared_balance_of(name("x.near")), 0);

    assert_eq!(faucet.ft_transfer_callback(request.amount, request.receiver_id), Ok(()));
    assert_eq!(faucet.available_balance, 440);
    assert_eq!(faucet.current_shared_balance, 60);
    assert_eq!(faucet.shared_balance_of(name("x.near")), 60);
    assert_eq!(faucet.total_share_account, 1);
}

#[test]
fn request_past_the_cap_is_rejected() {
    let mut faucet = funded_faucet(100, 500);
    faucet.faucet_token(name("x.near"), 60, 1).unwrap();
    faucet.ft_transfer_callback(60, name("x.near")).unwrap();

    let result = faucet.faucet_token(name("x.near"), 50, 1);
    assert_eq!(result, Err(FaucetError::CapExceeded));
    assert_eq!(faucet.available_balance, 440);
    assert_eq!(faucet.current_shared_balance, 60);
    assert_eq!(faucet.shared_balance_of(name("x.near")), 60);
    assert_eq!(faucet.total_share_account, 1);

    // Up to the cap is still fine.
    assert!(faucet.faucet_token(name("x.near"), 40, 1).is_ok());
}

#[test]
fn paused_faucet_rejects_until_resumed() {
    let mut faucet = funded_faucet(100, 500);
    faucet.is_paused = true;

    assert_eq!(faucet.faucet_token(name("x.near"), 60, 1), Err(FaucetError::Paused));
    assert_eq!(faucet.faucet_token(name("y.near"), 1, 5), Err(FaucetError::Paused));
    assert_eq!(faucet.available_balance, 500);
    assert!(faucet.get_info().is_paused);

    faucet.is_paused = false;
    let request = faucet.faucet_token(name("x.near"), 60, 1).unwrap();
    faucet.ft_transfer_callback(request.amount, request.receiver_id).unwrap();
    assert_eq!(faucet.available_balance, 440);
    assert_eq!(faucet.shared_balance_of(name("x.near")), 60);
    assert_eq!(faucet.total_share_account, 1);
}

#[test]
fn request_beyond_the_pool_is_rejected() {
    let mut faucet = funded_faucet(1_000, 500);

    assert_eq!(faucet.faucet_token(name("x.near"), 501, 1), Err(FaucetError::InsufficientSupply));
    assert_eq!(faucet.available_balance, 500);
    assert_eq!(faucet.current_shared_balance, 0);
    assert_eq!(faucet.total_share_account, 0);

    // The whole pool can be asked for.
    assert!(faucet.faucet_token(name("x.near"), 500, 1).is_ok());
}

#[test]
fn funding_by_a_stranger_is_rejected() {
    let mut faucet = funded_faucet(100, 500);

    let result = faucet.ft_on_transfer(name("token.near"), name("x.near"), 300, name("gift"));
    assert_eq!(result, Err(FaucetError::SenderNotOwner));
    assert_eq!(faucet.available_balance, 500);
}

#[test]
fn funding_through_another_contract_is_rejected() {
    let mut faucet = funded_faucet(100, 500);

    let result = faucet.ft_on_transfer(name("other.near"), name("owner.near"), 300, name(""));
    assert_eq!(result, Err(FaucetError::WrongTokenContract));
    assert_eq!(faucet.available_balance, 500);

    // The sender is looked at first.
    let result = faucet.ft_on_transfer(name("other.near"), name("x.near"), 300, name(""));
    assert_eq!(result, Err(FaucetError::SenderNotOwner));
}

#[test]
fn funding_then_distributing_everything_empties_the_pool() {
    let mut faucet = funded_faucet(1_000, 750);
    let request = faucet.faucet_token(name("x.near"), 750, 1).unwrap();
    faucet.ft_transfer_callback(request.amount, request.receiver_id).unwrap();

    assert_eq!(faucet.available_balance, 0);
    assert_eq!(faucet.current_shared_balance, 750);
    assert_eq!(faucet.shared_balance_of(name("x.near")), 750);
}
