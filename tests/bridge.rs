use soroban_escrow::address::Address;
use soroban_escrow::bridge::{EVMBridge, Error, Status};

fn account(b: u8) -> Address {
    Address { contract: false, key: [b; 32] }
}

fn setup() -> (EVMBridge, Address, Address, Address, Vec<u8>) {
    let mut bridge = EVMBridge::new();
    let admin = account(1);
    let user = account(2);
    let claimer = account(3);
    bridge.init(admin).unwrap();
    let amount: i128 = 1000;
    let target_address: Vec<u8> = (0u8..32).collect();
    let escrow_id = bridge.lock(user, amount, target_address, amount).unwrap();
    (bridge, admin, user, claimer, escrow_id)
}

#[test]
fn test_full_escrow_flow() {
    let (mut bridge, _admin, user, _claimer, escrow_id) = setup();

    let escrow = bridge.get_escrow(&escrow_id).unwrap();
    assert!(escrow.user.same(&user));
    assert_eq!(escrow.amount, 1000);
    assert_eq!(escrow.status, Status::Pending);

    bridge.process_escrow(&escrow_id, "node1".to_string()).unwrap();
    let escrow = bridge.get_escrow(&escrow_id).unwrap();
    assert_eq!(escrow.status, Status::Processing);
    assert_eq!(escrow.node, "node1");

    let evm_tx = "evm_tx_hash".to_string();
    let paid = bridge.claim(&escrow_id, evm_tx.clone()).unwrap();
    assert_eq!(paid, 1000);
    let escrow = bridge.get_escrow(&escrow_id).unwrap();
    assert_eq!(escrow.status, Status::Claimed);
    assert_eq!(escrow.evm_tx, evm_tx);

    assert_eq!(bridge.refund(&escrow_id, &user), Err(Error::EscrowNotPending));
}

#[test]
fn test_refund_pending() {
    let (mut bridge, _admin, user, _claimer, escrow_id) = setup();
    bridge.refund(&escrow_id, &user).unwrap();
    let escrow = bridge.get_escrow(&escrow_id).unwrap();
    assert_eq!(escrow.status, Status::Refunded);
}

#[test]
#[should_panic]
fn test_refund_wrong_user() {
    let (mut bridge, _admin, _user, claimer, escrow_id) = setup();
    bridge.refund(&escrow_id, &claimer).unwrap();
}

#[test]
fn scenario_claim_pays_claimer() {
    let (mut bridge, _admin, _user, _claimer, id) = setup();
    assert_eq!(bridge.get_escrow_status(&id), Ok(Status::Pending));
    assert_eq!(bridge.process_escrow(&id, "node1".to_string()), Ok(()));
    let e = bridge.get_escrow(&id).unwrap();
    assert_eq!(e.status, Status::Processing);
    assert_eq!(e.node, "node1");
    assert_eq!(e.evm_tx, "");
    let mut claimer_balance: i128 = 0;
    claimer_balance += bridge.claim(&id, "0xabc".to_string()).unwrap();
    assert_eq!(claimer_balance, 1000);
    let e = bridge.get_escrow(&id).unwrap();
    assert_eq!(e.status, Status::Claimed);
    assert_eq!(e.evm_tx, "0xabc");
    assert_eq!(e.node, "node1");
}

#[test]
fn scenario_refund_then_nothing_more() {
    let (mut bridge, _admin, user, _claimer, id) = setup();
    let mut user_balance: i128 = 0;
    user_balance += bridge.refund(&id, &user).unwrap();
    assert_eq!(user_balance, 1000);
    assert_eq!(bridge.get_escrow_status(&id), Ok(Status::Refunded));
    assert_eq!(bridge.refund(&id, &user), Err(Error::EscrowNotPending));
    assert_eq!(bridge.claim(&id, "0xabc".to_string()), Err(Error::EscrowNotProcessing));
    assert_eq!(bridge.process_escrow(&id, "n".to_string()), Err(Error::EscrowNotPending));
    assert_eq!(bridge.get_escrow_status(&id), Ok(Status::Refunded));
}

#[test]
fn scenario_refund_by_other_address() {
    let (mut bridge, _admin, _user, claimer, id) = setup();
    assert_eq!(bridge.refund(&id, &claimer), Err(Error::UnauthorizedRefund));
    let e = bridge.get_escrow(&id).unwrap();
    assert_eq!(e.status, Status::Pending);
    assert_eq!(e.amount, 1000);
    let contract_twin = Address { contract: true, key: [2; 32] };
    assert_eq!(bridge.refund(&id, &contract_twin), Err(Error::UnauthorizedRefund));
}

#[test]
fn scenario_invalid_lock_consumes_nothing() {
    let (mut bridge, _admin, user, _claimer, _id) = setup();
    assert_eq!(bridge.get_user_nonce(&user), 1);
    assert_eq!(bridge.lock(user, 0, vec![0u8; 32], 1000), Err(Error::InvalidAmount));
    assert_eq!(bridge.lock(user, -5, vec![0u8; 32], 1000), Err(Error::InvalidAmount));
    assert_eq!(bridge.lock(user, 10, vec![0u8; 31], 1000), Err(Error::InvalidAddressLength));
    assert_eq!(bridge.lock(user, 10, vec![0u8; 33], 1000), Err(Error::InvalidAddressLength));
    assert_eq!(bridge.lock(user, 0, vec![0u8; 31], 1000), Err(Error::InvalidAddressLength));
    assert_eq!(bridge.lock(user, 1001, vec![0u8; 32], 1000), Err(Error::InvalidAmount));
    assert_eq!(bridge.get_user_nonce(&user), 1);
}

#[test]
fn lock_records_pending_escrow_and_fresh_ids() {
    let mut bridge = EVMBridge::new();
    let user = account(5);
    let target = vec![9u8; 32];
    let a = bridge.lock(user, 250, target.clone(), 250).unwrap();
    let b = bridge.lock(user, 250, target.clone(), 300).unwrap();
    assert_ne!(a, b);
    assert_eq!(a.len(), 32);
    let e = bridge.get_escrow(&a).unwrap();
    assert_eq!(e.status, Status::Pending);
    assert_eq!(e.amount, 250);
    assert_eq!(e.target_address, target);
    assert!(e.user.same(&user));
    assert_eq!(e.evm_tx, "");
    assert_eq!(e.node, "");
}

#[test]
fn nonce_counts_own_locks_only() {
    let mut bridge = EVMBridge::new();
    let u = account(5);
    let o = account(6);
    assert_eq!(bridge.get_user_nonce(&u), 0);
    bridge.lock(u, 1, vec![0u8; 32], 1).unwrap();
    bridge.lock(u, 1, vec![0u8; 32], 1).unwrap();
    assert_eq!(bridge.get_user_nonce(&u), 2);
    assert_eq!(bridge.get_user_nonce(&o), 0);
    bridge.lock(o, 1, vec![0u8; 32], 1).unwrap();
    assert_eq!(bridge.get_user_nonce(&u), 2);
    assert_eq!(bridge.get_user_nonce(&o), 1);
}

#[test]
fn identifier_is_sha256_of_address_and_nonce() {
    let mut bridge = EVMBridge::new();
    let id = bridge.lock(account(7), 1, vec![0u8; 32], 1).unwrap();
    let expected: Vec<u8> = vec![
        132, 97, 113, 60, 108, 37, 185, 235, 104, 165, 180, 120, 43, 147, 126, 153, 133, 235, 70,
        41, 212, 202, 230, 89, 204, 160, 134, 75, 208, 198, 102, 95,
    ];
    assert_eq!(id, expected);
}

#[test]
fn preimage_is_xdr_then_big_endian_nonce() {
    let a = Address { contract: true, key: [9; 32] };
    let mut expected: Vec<u8> = vec![0, 0, 0, 18, 0, 0, 0, 1];
    expected.extend_from_slice(&[9u8; 32]);
    expected.extend_from_slice(&[1, 2, 3, 4]);
    assert_eq!(EVMBridge::escrow_preimage(&a, 0x01020304), expected);
    let b = account(7);
    assert_eq!(b.to_xdr().len(), 44);
    assert_eq!(&b.to_xdr()[..12], &[0, 0, 0, 18, 0, 0, 0, 0, 0, 0, 0, 0]);
}

#[test]
fn transitions_from_wrong_states_fail() {
    let (mut bridge, _admin, user, _claimer, id) = setup();
    let missing = vec![0u8; 32];
    assert_eq!(bridge.process_escrow(&missing, "n".to_string()), Err(Error::EscrowNotFound));
    assert_eq!(bridge.claim(&missing, "t".to_string()), Err(Error::EscrowNotFound));
    assert_eq!(bridge.refund(&missing, &user), Err(Error::EscrowNotFound));
    assert!(bridge.get_escrow(&missing).is_err());
    assert_eq!(bridge.get_escrow_status(&missing), Err(Error::EscrowNotFound));
    assert_eq!(bridge.claim(&id, "t".to_string()), Err(Error::EscrowNotProcessing));
    bridge.process_escrow(&id, "n".to_string()).unwrap();
    assert_eq!(bridge.process_escrow(&id, "m".to_string()), Err(Error::EscrowNotPending));
    assert_eq!(bridge.refund(&id, &user), Err(Error::EscrowNotPending));
    assert_eq!(bridge.get_escrow(&id).unwrap().node, "n");
}

#[test]
fn admin_is_set_once_and_required() {
    let mut bridge = EVMBridge::new();
    assert_eq!(bridge.get_admin().err(), Some(Error::AdminNotInitialized));
    let id = bridge.lock(account(2), 5, vec![1u8; 32], 5).unwrap();
    assert_eq!(bridge.process_escrow(&id, "n".to_string()), Err(Error::AdminNotInitialized));
    assert_eq!(bridge.claim(&id, "t".to_string()), Err(Error::AdminNotInitialized));
    assert_eq!(bridge.init(account(1)), Ok(()));
    assert_eq!(bridge.init(account(4)), Err(Error::AlreadyInitialized));
    assert!(bridge.get_admin().unwrap().same(&account(1)));
    assert_eq!(bridge.process_escrow(&id, "n".to_string()), Ok(()));
}

#[test]
fn record_lock_stores_under_given_id() {
    let mut bridge = EVMBridge::new();
    let user = account(8);
    let id = vec![5u8; 32];
    bridge.record_lock(id.clone(), user, 77, vec![3u8; 32]);
    assert_eq!(bridge.get_user_nonce(&user), 1);
    let e = bridge.get_escrow(&id).unwrap();
    assert_eq!(e.status, Status::Pending);
    assert_eq!(e.amount, 77);
    assert_eq!(e.target_address, vec![3u8; 32]);
    bridge.record_lock(vec![6u8; 32], user, 1, vec![3u8; 32]);
    assert_eq!(bridge.get_user_nonce(&user), 2);
    assert_eq!(bridge.get_escrow(&id).unwrap().amount, 77);
}

#[test]
fn address_xdr_round_trip() {
    for a in [account(7), Address { contract: true, key: [200; 32] }] {
        let back = Address::from_xdr(&a.to_xdr()).unwrap();
        assert!(back.same(&a));
    }
    assert!(Address::from_xdr(&[0u8; 44]).is_none());
    assert!(Address::from_xdr(&account(7).to_xdr()[..43]).is_none());
    let mut wrong_kind = account(7).to_xdr();
    wrong_kind[7] = 2;
    assert!(Address::from_xdr(&wrong_kind).is_none());
}

#[test]
fn parts_round_trip_keeps_state() {
    let (bridge, admin, user, _claimer, id) = setup();
    let (a, n, e) = bridge.into_parts();
    let again = EVMBridge::from_parts(a, n, e);
    assert!(again.get_admin().unwrap().same(&admin));
    assert_eq!(again.get_user_nonce(&user), 1);
    assert_eq!(again.get_escrow(&id).unwrap().amount, 1000);
}
