use anchor_lang::prelude::Pubkey;
use round_up_vault::{derive_vault_identity, Key};

#[test]
fn derived_identity_is_lowest_valid_bump() {
    let owner = Key::new([5u8; 32]);
    let program = Key::new([9u8; 32]);
    let id = derive_vault_identity(&owner, &program).unwrap();
    let program_key = Pubkey::new_from_array(program.bytes);
    let expected =
        Pubkey::create_program_address(&[b"vault", &owner.bytes, &[id.bump]], &program_key)
            .unwrap();
    assert_eq!(id.address.bytes, expected.to_bytes());
    assert_ne!(id.address.bytes, owner.bytes);
    assert_ne!(id.address.bytes, program.bytes);
    for b in 0..id.bump {
        assert!(
            Pubkey::create_program_address(&[b"vault", &owner.bytes, &[b]], &program_key).is_err()
        );
    }
}

#[test]
fn derivation_is_deterministic_and_per_owner() {
    let program = Key::new([1u8; 32]);
    let a = derive_vault_identity(&Key::new([2u8; 32]), &program).unwrap();
    let a2 = derive_vault_identity(&Key::new([2u8; 32]), &program).unwrap();
    let b = derive_vault_identity(&Key::new([3u8; 32]), &program).unwrap();
    assert_eq!(a.address.bytes, a2.address.bytes);
    assert_eq!(a.bump, a2.bump);
    assert_ne!(a.address.bytes, b.address.bytes);
}

#[test]
fn same_as_compares_bytes() {
    let mut bytes = [0u8; 32];
    let a = Key::new(bytes);
    bytes[31] = 1;
    let b = Key::new(bytes);
    assert!(a.same_as(&a));
    assert!(!a.same_as(&b));
    assert_eq!(b.to_vec().len(), 32);
    assert_eq!(b.to_vec()[31], 1);
}
