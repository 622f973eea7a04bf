use soroban_escrow::address::Address;
use soroban_escrow::wallet::{Error, SmartWallet};

#[test]
fn test_withdraw() {
    let owner = Address { contract: false, key: [1; 32] };
    let recipient = Address { contract: false, key: [2; 32] };
    let mut wallet = SmartWallet::new();
    wallet.initialize(owner).unwrap();

    let mut contract_balance: i128 = 1000;
    let mut recipient_balance: i128 = 0;
    assert_eq!(contract_balance, 1000);

    let amount = wallet.withdraw(&owner, 300, contract_balance).unwrap();
    contract_balance -= amount;
    recipient_balance += amount;
    wallet.finish_withdraw();

    assert_eq!(contract_balance, 700);
    assert_eq!(recipient_balance, 300);
    assert!(!wallet.is_locked());
    assert!(!recipient.same(&owner));
}

#[test]
fn failed_withdraw_releases_guard() {
    let owner = Address { contract: false, key: [1; 32] };
    let mut wallet = SmartWallet::new();
    wallet.initialize(owner).unwrap();
    assert_eq!(wallet.withdraw(&owner, 0, 1000), Err(Error::InvalidAmount));
    assert!(!wallet.is_locked());
    assert_eq!(wallet.withdraw(&owner, -1, 1000), Err(Error::InvalidAmount));
    assert!(!wallet.is_locked());
    assert_eq!(wallet.withdraw(&owner, 1001, 1000), Err(Error::InsufficientBalance));
    assert!(!wallet.is_locked());
    assert_eq!(wallet.withdraw(&owner, 1000, 1000), Ok(1000));
    assert!(wallet.is_locked());
}

#[test]
fn nested_withdraw_is_refused() {
    let owner = Address { contract: false, key: [1; 32] };
    let mut wallet = SmartWallet::new();
    wallet.initialize(owner).unwrap();
    assert_eq!(wallet.withdraw(&owner, 10, 100), Ok(10));
    assert_eq!(wallet.withdraw(&owner, 10, 90), Err(Error::Reentrancy));
    wallet.finish_withdraw();
    assert_eq!(wallet.withdraw(&owner, 10, 90), Ok(10));
}

#[test]
fn wallet_owner_rules() {
    let owner = Address { contract: false, key: [1; 32] };
    let other = Address { contract: true, key: [1; 32] };
    let mut wallet = SmartWallet::new();
    assert!(wallet.get_owner().is_none());
    assert_eq!(wallet.withdraw(&owner, 10, 100), Err(Error::NotInitialized));
    assert_eq!(wallet.initialize(owner), Ok(()));
    assert_eq!(wallet.initialize(other), Err(Error::AlreadyInitialized));
    assert!(wallet.get_owner().unwrap().same(&owner));
    assert_eq!(wallet.withdraw(&other, 10, 100), Err(Error::Unauthorized));
    assert!(!wallet.is_locked());
}

#[test]
fn wallet_from_parts_keeps_guard() {
    let owner = Address { contract: false, key: [1; 32] };
    let mut wallet = SmartWallet::from_parts(Some(owner), true);
    assert_eq!(wallet.withdraw(&owner, 1, 5), Err(Error::Reentrancy));
    wallet.finish_withdraw();
    assert_eq!(wallet.withdraw(&owner, 1, 5), Ok(1));
}
