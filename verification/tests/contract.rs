use ed25519_dalek::Signer;
use ed25519_dalek::SigningKey;

use signed_compare::contract::{
    handle, handle_input_a, handle_input_b, init, query, query_input_a, query_input_b, try_compare,
};
use signed_compare::error::ContractError;
use signed_compare::msg::{HandleMsg, InitMsg, QueryAnswer, QueryMsg};
use signed_compare::state::Store;

const MESSAGE: &[u8] = b"the agreed message";

fn signed(message: &[u8]) -> (Vec<u8>, Vec<u8>) {
    let key = SigningKey::from_bytes(&[7u8; 32]);
    let signature = key.sign(message).to_bytes().to_vec();
    let pub_key = key.verifying_key().to_bytes().to_vec();
    (signature, pub_key)
}

fn canonical(human: &str) -> Vec<u8> {
    let api = cosmwasm_std::testing::MockApi::default();
    cosmwasm_std::Api::addr_canonicalize(&api, human)
        .unwrap()
        .as_slice()
        .to_vec()
}

#[test]
fn proper_initialization() {
    let mut store = Store::new();

    let msg = InitMsg {};

    // we can just call .unwrap() to assert this was a success
    let res = init(&mut store, "creator", msg).unwrap();
    assert_eq!(0, res.messages.len());
}

#[test]
fn init_sets_owner_and_nothing_else() {
    let mut store = Store::new();
    init(&mut store, "creator", InitMsg {}).unwrap();

    let config = store.config.as_ref().expect("config must exist after init");
    assert_eq!(config.owner, canonical("creator"));
    assert!(store.input_a.is_none());
    assert!(store.input_b.is_none());
}

#[test]
fn init_rejected_address_is_collaborator_error() {
    let mut store = Store::new();
    // The codec rejects human addresses shorter than three characters.
    let err = init(&mut store, "ab", InitMsg {}).unwrap_err();
    assert!(matches!(err, ContractError::Collaborator(_)));
    assert!(store.config.is_none());
}

#[test]
fn invalid_signature_leaves_absent_slot_absent() {
    let mut store = Store::new();
    let (mut signature, pub_key) = signed(MESSAGE);
    signature[0] ^= 0x01;

    let err = handle_input_a(
        &mut store,
        "alice",
        5,
        MESSAGE.to_vec(),
        signature,
        pub_key,
    )
    .unwrap_err();
    assert!(matches!(err, ContractError::Auth));
    assert!(store.input_a.is_none());
}

#[test]
fn invalid_signature_leaves_prior_record_unchanged() {
    let mut store = Store::new();
    let (signature, pub_key) = signed(MESSAGE);
    handle_input_a(
        &mut store,
        "alice",
        5,
        MESSAGE.to_vec(),
        signature,
        pub_key,
    )
    .unwrap();

    let (signature, pub_key) = signed(MESSAGE);
    let err = handle_input_a(
        &mut store,
        "mallory",
        9,
        b"a different message".to_vec(),
        signature,
        pub_key,
    )
    .unwrap_err();
    assert!(matches!(err, ContractError::Auth));

    let resp = query_input_a(&store).unwrap();
    assert_eq!(resp.input_a, 5);
    assert_eq!(resp.address_a, "alice");
}

#[test]
fn garbage_key_and_signature_are_an_auth_error() {
    let mut store = Store::new();
    let err = handle_input_b(
        &mut store,
        "bob",
        3,
        MESSAGE.to_vec(),
        vec![1, 2, 3],
        vec![4, 5, 6],
    )
    .unwrap_err();
    assert!(matches!(err, ContractError::Auth));
    assert!(store.input_b.is_none());
}

fn submit_both(store: &mut Store, value_a: u32, value_b: u32) {
    let (signature, pub_key) = signed(MESSAGE);
    handle(
        store,
        "alice",
        HandleMsg::SetInputA {
            input: value_a,
            message: MESSAGE.to_vec(),
            signature,
            pub_key,
        },
    )
    .unwrap();
    let (signature, pub_key) = signed(MESSAGE);
    handle(
        store,
        "bob",
        HandleMsg::SetInputB {
            input: value_b,
            message: MESSAGE.to_vec(),
            signature,
            pub_key,
        },
    )
    .unwrap();
}

fn winner_of(store: &mut Store) -> String {
    let resp = handle(store, "anyone", HandleMsg::Compare {}).unwrap();
    assert_eq!(resp.messages.len(), 0);
    assert_eq!(resp.log.len(), 3);
    assert_eq!(resp.log[0].key, "address A");
    assert_eq!(resp.log[0].value, "alice");
    assert_eq!(resp.log[1].key, "address B");
    assert_eq!(resp.log[1].value, "bob");
    assert_eq!(resp.log[2].key, "larger number belongs to");
    resp.log[2].value.clone()
}

#[test]
fn compare_reports_a_when_a_is_larger() {
    let mut store = Store::new();
    submit_both(&mut store, 5, 3);
    assert_eq!(winner_of(&mut store), "alice");
}

#[test]
fn compare_reports_b_when_b_is_larger() {
    let mut store = Store::new();
    submit_both(&mut store, 3, 5);
    assert_eq!(winner_of(&mut store), "bob");
}

#[test]
fn compare_tie_favors_b() {
    let mut store = Store::new();
    submit_both(&mut store, 5, 5);
    assert_eq!(winner_of(&mut store), "bob");
}

#[test]
fn resubmission_fully_replaces_the_record() {
    let mut store = Store::new();
    submit_both(&mut store, 5, 4);
    assert_eq!(winner_of(&mut store), "alice");

    let (signature, pub_key) = signed(MESSAGE);
    handle_input_a(&mut store, "carol", 2, MESSAGE.to_vec(), signature, pub_key).unwrap();

    let resp = query_input_a(&store).unwrap();
    assert_eq!(resp.input_a, 2);
    assert_eq!(resp.address_a, "carol");

    let resp = try_compare(&store).unwrap();
    assert_eq!(resp.log[0].value, "carol");
    assert_eq!(resp.log[2].value, "bob");
}

#[test]
fn query_before_submission_is_not_found() {
    let store = Store::new();
    let err = query_input_a(&store).unwrap_err();
    assert!(matches!(err, ContractError::NotFound));
    let err = query_input_b(&store).unwrap_err();
    assert!(matches!(err, ContractError::NotFound));
}

#[test]
fn compare_before_both_slots_is_not_found() {
    let mut store = Store::new();
    let err = try_compare(&store).unwrap_err();
    assert!(matches!(err, ContractError::NotFound));

    let (signature, pub_key) = signed(MESSAGE);
    handle_input_a(&mut store, "alice", 5, MESSAGE.to_vec(), signature, pub_key).unwrap();
    let err = try_compare(&store).unwrap_err();
    assert!(matches!(err, ContractError::NotFound));
}

#[test]
fn query_dispatch_reports_each_slot() {
    let mut store = Store::new();
    submit_both(&mut store, 7, 9);

    match query(&store, QueryMsg::InputA {}).unwrap() {
        QueryAnswer::InputA(resp) => {
            assert_eq!(resp.input_a, 7);
            assert_eq!(resp.address_a, "alice");
        }
        QueryAnswer::InputB(_) => panic!("wrong answer variant for an InputA query"),
    }
    match query(&store, QueryMsg::InputB {}).unwrap() {
        QueryAnswer::InputB(resp) => {
            assert_eq!(resp.input_b, 9);
            assert_eq!(resp.address_b, "bob");
        }
        QueryAnswer::InputA(_) => panic!("wrong answer variant for an InputB query"),
    }
}

#[test]
fn stored_address_is_canonical_not_display_form() {
    let mut store = Store::new();
    let (signature, pub_key) = signed(MESSAGE);
    handle_input_a(&mut store, "alice", 1, MESSAGE.to_vec(), signature, pub_key).unwrap();

    let record = store.input_a.as_ref().unwrap();
    assert_eq!(record.address, canonical("alice"));
    assert_ne!(record.address, b"alice".to_vec());
}
