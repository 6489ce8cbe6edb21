use lock_box::derivation::{
    derive_custody_capability, derive_lockbox_address, lockbox_seed, vault_seed,
};
use lock_box::instructions::{deposit, initialize_lockbox};
use lock_box::states::Address;
use lock_box::store::LockBoxStore;

fn addr(fill: u8) -> Address {
    Address::from_bytes(vec![fill; 32]).expect("32 bytes make an address")
}

#[test]
fn store_create_load_roundtrip() {
    let mut store = LockBoxStore::new();
    let lb = initialize_lockbox(&addr(1), 1000, 7, 254).expect("positive target");
    store.create_entity(lb).expect("owner not yet present");
    let loaded = store.load_entity(&addr(1)).expect("entity present");
    assert_eq!(loaded.target_amount, 1000);
    assert_eq!(loaded.owner.bytes, vec![1u8; 32]);
    assert!(store.load_entity(&addr(2)).is_none());
}

#[test]
fn store_refuses_duplicate_creation() {
    let mut store = LockBoxStore::new();
    let first = initialize_lockbox(&addr(1), 1000, 7, 254).expect("positive target");
    store.create_entity(first).expect("owner not yet present");
    let second = initialize_lockbox(&addr(1), 2000, 8, 254).expect("positive target");
    let back = store.create_entity(second).expect_err("owner already present");
    assert_eq!(back.target_amount, 2000);
    // The stored entity was not replaced.
    let loaded = store.load_entity(&addr(1)).expect("entity present");
    assert_eq!(loaded.target_amount, 1000);
}

#[test]
fn store_save_replaces_entity() {
    let mut store = LockBoxStore::new();
    let lb = initialize_lockbox(&addr(1), 1000, 7, 254).expect("positive target");
    store.create_entity(lb).expect("owner not yet present");
    let loaded = store.load_entity(&addr(1)).expect("entity present").dup();
    let custody = lock_box::transfer::CustodyCapability {
        address: addr(0xCC),
        nonce: 254,
    };
    let (updated, _action) = deposit(&loaded, &addr(1), 300, &custody).expect("valid deposit");
    store.save_entity(updated);
    let reloaded = store.load_entity(&addr(1)).expect("entity present");
    assert_eq!(reloaded.current_balance, 300);
}

#[test]
fn store_delete_removes_entity() {
    let mut store = LockBoxStore::new();
    let lb = initialize_lockbox(&addr(1), 1000, 7, 254).expect("positive target");
    store.create_entity(lb).expect("owner not yet present");
    assert!(store.delete_entity(&addr(1)));
    assert!(store.load_entity(&addr(1)).is_none());
    assert!(!store.delete_entity(&addr(1)));
}

#[test]
fn store_keeps_owners_apart() {
    let mut store = LockBoxStore::new();
    let a = initialize_lockbox(&addr(1), 1000, 7, 254).expect("positive target");
    let b = initialize_lockbox(&addr(2), 2000, 7, 253).expect("positive target");
    store.create_entity(a).expect("owner not yet present");
    store.create_entity(b).expect("owner not yet present");
    assert_eq!(
        store.load_entity(&addr(1)).expect("present").target_amount,
        1000
    );
    assert_eq!(
        store.load_entity(&addr(2)).expect("present").target_amount,
        2000
    );
}

#[test]
fn seed_constants_spell_their_markers() {
    assert_eq!(lockbox_seed(), b"lockbox".to_vec());
    assert_eq!(vault_seed(), b"vault".to_vec());
}

#[test]
fn derivation_is_deterministic() {
    let owner = addr(5);
    let program = addr(11);
    let first = derive_custody_capability(&owner, &program).expect("a bump exists");
    let second = derive_custody_capability(&owner, &program).expect("a bump exists");
    assert_eq!(first.address.bytes, second.address.bytes);
    assert_eq!(first.nonce, second.nonce);
}

#[test]
fn derivation_computes_a_new_address() {
    let owner = addr(5);
    let program = addr(11);
    let custody = derive_custody_capability(&owner, &program).expect("a bump exists");
    assert_eq!(custody.address.bytes.len(), 32);
    // The custody sub-address is a digest of the seeds, not any input echoed back.
    assert_ne!(custody.address.bytes, owner.bytes);
    assert_ne!(custody.address.bytes, program.bytes);
    let (record, _nonce) = derive_lockbox_address(&owner, &program).expect("a bump exists");
    assert_ne!(custody.address.bytes, record.bytes);
    assert_ne!(record.bytes, owner.bytes);
}

#[test]
fn derivation_depends_on_the_owner() {
    let program = addr(11);
    let one = derive_custody_capability(&addr(5), &program).expect("a bump exists");
    let other = derive_custody_capability(&addr(6), &program).expect("a bump exists");
    assert_ne!(one.address.bytes, other.address.bytes);
}
