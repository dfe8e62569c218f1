use std::str::FromStr;

use reality_check::{
    image_address, image_seeds_of, register_image, register_image_at, store_image, ErrorCode, Ledger, Pubkey,
    RegisterError, RegisterImage,
};

const PROGRAM_ID: &str = "Fg6PaFpoGXkYsidMpWTK6W2BeZ7FEfcYkg476zPFsLnS";

fn program_id() -> Pubkey {
    Pubkey::new_from_array(anchor_lang::prelude::Pubkey::from_str(PROGRAM_ID).unwrap().to_bytes())
}

fn alice() -> Pubkey {
    Pubkey::new_from_array([1u8; 32])
}

fn bob() -> Pubkey {
    Pubkey::new_from_array([2u8; 32])
}

fn ctx(author: Pubkey) -> RegisterImage {
    RegisterImage { program_id: program_id(), author }
}

fn hash_a() -> String {
    "a".repeat(64)
}

fn cid_a() -> String {
    let cid = format!("Qm{}", "X".repeat(44));
    assert_eq!(cid.len(), 46);
    cid
}

fn address_of(hash: &str) -> Pubkey {
    image_address(&program_id(), &hash.to_string()).expect("address derivable")
}

#[test]
fn scenario_a_alice_registers() {
    let mut ledger = Ledger::new();
    let r = register_image_at(&ctx(alice()), &mut ledger, hash_a(), cid_a(), 1_700_000_000);
    assert_eq!(r, Ok(()));
    let record = ledger.get(&address_of(&hash_a())).expect("record exists");
    assert_eq!(record.author, alice());
    assert_eq!(ledger.len(), 1);
}

#[test]
fn scenario_b_bob_conflicts_with_alice() {
    let mut ledger = Ledger::new();
    assert_eq!(register_image_at(&ctx(alice()), &mut ledger, hash_a(), cid_a(), 1_700_000_000), Ok(()));
    let r = register_image_at(&ctx(bob()), &mut ledger, hash_a(), "anything".to_string(), 1_700_000_500);
    assert_eq!(r, Err(RegisterError::AccountInUse));
    let record = ledger.get(&address_of(&hash_a())).expect("record exists");
    assert_eq!(record.author, alice());
    assert_eq!(record.ipfs_cid, cid_a());
    assert_eq!(record.timestamp, 1_700_000_000);
    assert_eq!(ledger.len(), 1);
}

#[test]
fn scenario_c_short_hash_rejected() {
    let mut ledger = Ledger::new();
    let r = register_image_at(&ctx(alice()), &mut ledger, "a".repeat(63), cid_a(), 5);
    assert_eq!(r, Err(RegisterError::Validation(ErrorCode::InvalidHashLength)));
    assert_eq!(ledger.len(), 0);
}

#[test]
fn scenario_d_long_cid_rejected() {
    let mut ledger = Ledger::new();
    let r = register_image_at(&ctx(alice()), &mut ledger, hash_a(), "c".repeat(101), 5);
    assert_eq!(r, Err(RegisterError::Validation(ErrorCode::InvalidCidLength)));
    assert_eq!(ledger.len(), 0);
    assert!(!ledger.contains(&address_of(&hash_a())));
}

#[test]
fn valid_registration_stores_every_field() {
    let mut ledger = Ledger::new();
    let hash = "0123456789abcdef".repeat(4);
    let cid = "bafybeigdyrzt5sfp7udm7hu76uh7y26nf3efuylqabf3oclgtqy55fbzdi".to_string();
    let r = register_image_at(&ctx(bob()), &mut ledger, hash.clone(), cid.clone(), -42);
    assert_eq!(r, Ok(()));
    let record = ledger.get(&address_of(&hash)).expect("record exists");
    assert_eq!(record.author, bob());
    assert_eq!(record.timestamp, -42);
    assert_eq!(record.image_hash, hash);
    assert_eq!(record.ipfs_cid, cid);
}

#[test]
fn long_hash_rejected() {
    let mut ledger = Ledger::new();
    let r = register_image_at(&ctx(alice()), &mut ledger, "a".repeat(65), cid_a(), 5);
    assert_eq!(r, Err(RegisterError::Validation(ErrorCode::InvalidHashLength)));
    let r = register_image_at(&ctx(alice()), &mut ledger, String::new(), cid_a(), 5);
    assert_eq!(r, Err(RegisterError::Validation(ErrorCode::InvalidHashLength)));
    assert_eq!(ledger.len(), 0);
}

#[test]
fn hash_length_counts_bytes() {
    let mut ledger = Ledger::new();
    // 63 characters but 64 bytes: one of them takes two bytes in UTF-8.
    let hash = format!("é{}", "a".repeat(62));
    assert_eq!(hash.len(), 64);
    let r = register_image_at(&ctx(alice()), &mut ledger, hash, cid_a(), 5);
    assert_eq!(r, Ok(()));
}

#[test]
fn cid_at_limit_and_empty_accepted() {
    let mut ledger = Ledger::new();
    let r = register_image_at(&ctx(alice()), &mut ledger, "b".repeat(64), "c".repeat(100), 1);
    assert_eq!(r, Ok(()));
    let r = register_image_at(&ctx(alice()), &mut ledger, "d".repeat(64), String::new(), 2);
    assert_eq!(r, Ok(()));
    assert_eq!(ledger.len(), 2);
}

#[test]
fn conflict_reported_before_long_cid() {
    let mut ledger = Ledger::new();
    assert_eq!(register_image_at(&ctx(alice()), &mut ledger, hash_a(), cid_a(), 1), Ok(()));
    let r = register_image_at(&ctx(bob()), &mut ledger, hash_a(), "c".repeat(101), 2);
    assert_eq!(r, Err(RegisterError::AccountInUse));
}

#[test]
fn failed_validation_repeated_creates_nothing() {
    let mut ledger = Ledger::new();
    for (i, signer) in [alice(), bob(), alice(), bob()].into_iter().enumerate() {
        let r = register_image_at(&ctx(signer), &mut ledger, "a".repeat(10), cid_a(), i as i64);
        assert_eq!(r, Err(RegisterError::Validation(ErrorCode::InvalidHashLength)));
        let r = register_image_at(&ctx(signer), &mut ledger, hash_a(), "c".repeat(150), i as i64);
        assert_eq!(r, Err(RegisterError::Validation(ErrorCode::InvalidCidLength)));
    }
    assert_eq!(ledger.len(), 0);
    assert!(ledger.get(&address_of(&hash_a())).is_none());
}

#[test]
fn address_is_deterministic() {
    let first = address_of(&hash_a());
    let second = address_of(&hash_a());
    assert_eq!(first, second);
    assert_ne!(first, address_of(&"b".repeat(64)));
}

#[test]
fn address_ignores_signer_cid_and_time() {
    let mut by_alice = Ledger::new();
    let mut by_bob = Ledger::new();
    assert_eq!(register_image_at(&ctx(alice()), &mut by_alice, hash_a(), cid_a(), 1), Ok(()));
    assert_eq!(register_image_at(&ctx(bob()), &mut by_bob, hash_a(), "other".to_string(), 99), Ok(()));
    let address = address_of(&hash_a());
    assert!(by_alice.contains(&address));
    assert!(by_bob.contains(&address));
}

#[test]
fn address_matches_program_derived_address() {
    let hash = "0f".repeat(32);
    let id = anchor_lang::prelude::Pubkey::from_str(PROGRAM_ID).unwrap();
    let bytes = hash.as_bytes();
    let (expected, _bump) =
        anchor_lang::prelude::Pubkey::find_program_address(&[b"image", &bytes[..32], &bytes[32..]], &id);
    let derived = image_address(&program_id(), &hash).expect("address derivable");
    assert_eq!(derived.to_bytes(), expected.to_bytes());
    assert_ne!(derived, program_id());
}

#[test]
fn address_needs_a_valid_hash() {
    assert!(image_address(&program_id(), &"a".repeat(63)).is_none());
}

#[test]
fn seeds_split_the_hash() {
    let hash = format!("{}{}", "1".repeat(32), "2".repeat(32));
    let seeds = image_seeds_of(&hash);
    assert_eq!(seeds, vec![b"image".to_vec(), vec![b'1'; 32], vec![b'2'; 32]]);
}

#[test]
fn store_image_refuses_taken_address() {
    let mut ledger = Ledger::new();
    let address = Pubkey::new_from_array([9u8; 32]);
    assert_eq!(store_image(&mut ledger, &address, &alice(), 3, hash_a(), cid_a()), Ok(()));
    let r = store_image(&mut ledger, &address, &bob(), 4, "e".repeat(64), cid_a());
    assert_eq!(r, Err(RegisterError::AccountInUse));
    assert_eq!(ledger.get(&address).unwrap().author, alice());
    let r = store_image(&mut ledger, &address, &bob(), 4, "e".repeat(3), cid_a());
    assert_eq!(r, Err(RegisterError::Validation(ErrorCode::InvalidHashLength)));
}

#[test]
fn ledger_create_if_absent() {
    let mut ledger = Ledger::new();
    let address = Pubkey::new_from_array([7u8; 32]);
    assert!(ledger.get(&address).is_none());
    let record = |author: Pubkey| reality_check::ImageState {
        author,
        timestamp: 10,
        image_hash: hash_a(),
        ipfs_cid: cid_a(),
    };
    assert!(ledger.create_if_absent(address, record(alice())).is_ok());
    assert_eq!(ledger.create_if_absent(address, record(bob())), Err(reality_check::AlreadyInUse));
    assert_eq!(ledger.get(&address).unwrap().author, alice());
    assert_eq!(ledger.len(), 1);
}

#[test]
fn pubkey_comparison() {
    let mut bytes = [1u8; 32];
    assert!(alice().same_key(&Pubkey::new_from_array(bytes)));
    bytes[31] = 0;
    assert!(!alice().same_key(&Pubkey::new_from_array(bytes)));
    assert_eq!(Pubkey::new_from_array(bytes).to_bytes(), bytes);
}

#[test]
fn error_messages() {
    assert_eq!(
        ErrorCode::InvalidHashLength.message(),
        "Image hash must be exactly 64 characters (SHA-256 hex)"
    );
    assert_eq!(ErrorCode::InvalidCidLength.message(), "IPFS CID must be 100 characters or less");
}

#[test]
fn register_with_clock_is_all_or_nothing() {
    let mut ledger = Ledger::new();
    let r = register_image(&ctx(alice()), &mut ledger, hash_a(), cid_a());
    match r {
        Ok(()) => assert_eq!(ledger.get(&address_of(&hash_a())).unwrap().author, alice()),
        Err(e) => {
            assert_eq!(e, RegisterError::ClockUnavailable);
            assert_eq!(ledger.len(), 0);
        }
    }
}
