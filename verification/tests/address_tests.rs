use ephemeral_vault::address::Address;
use solana_sdk::pubkey::Pubkey;

fn filled(byte: u8) -> Address {
    Address::new([byte; 32])
}

#[test]
fn system_program_is_all_zero() {
    assert_eq!(Address::system_program().bytes, [0u8; 32]);
    assert_eq!(Address::system_program().to_base58(), "11111111111111111111111111111111");
}

#[test]
fn base58_round_trip() {
    let address = filled(7);
    let text = address.to_base58();
    assert_eq!(Address::from_base58(&text), Some(address));
}

#[test]
fn base58_agrees_with_the_ledger_sdk() {
    let mut bytes = [0u8; 32];
    for (i, b) in bytes.iter_mut().enumerate() {
        *b = (i * 7 + 3) as u8;
    }
    let address = Address::new(bytes);
    assert_eq!(address.to_base58(), Pubkey::new_from_array(bytes).to_string());
    assert_ne!(address.to_base58(), String::from_utf8_lossy(&bytes).to_string());
}

#[test]
fn base58_known_value() {
    let text = "SysvarC1ock11111111111111111111111111111111";
    let address = Address::from_base58(text).unwrap();
    assert_eq!(address.to_base58(), text);
    assert_eq!(address.bytes[0], 6);
}

#[test]
fn text_that_is_no_address_is_refused() {
    assert_eq!(Address::from_base58(""), None);
    assert_eq!(Address::from_base58("not-an-address"), None);
    assert_eq!(Address::from_base58("0OIl"), None);
    assert_eq!(Address::from_base58("1111"), None);
    let too_long = "1".repeat(45);
    assert_eq!(Address::from_base58(&too_long), None);
}

#[test]
fn same_as_compares_bytes() {
    let a = filled(1);
    let mut other = [1u8; 32];
    assert!(a.same_as(&Address::new(other)));
    other[31] = 2;
    assert!(!a.same_as(&Address::new(other)));
    other[31] = 1;
    other[0] = 0;
    assert!(!a.same_as(&Address::new(other)));
}

#[test]
fn to_bytes_gives_the_bytes() {
    assert_eq!(filled(9).to_bytes(), vec![9u8; 32]);
}

#[test]
fn vault_address_agrees_with_the_ledger_sdk() {
    let program = filled(42);
    let parent = filled(1);
    let ephemeral = filled(2);
    let (address, bump) = Address::derive_vault(&program, &parent, &ephemeral).unwrap();
    let (expected, expected_bump) = Pubkey::find_program_address(
        &[b"vault", &[1u8; 32], &[2u8; 32]],
        &Pubkey::new_from_array([42u8; 32]),
    );
    assert_eq!(address.bytes, expected.to_bytes());
    assert_eq!(bump, expected_bump);
}

#[test]
fn delegation_address_agrees_with_the_ledger_sdk() {
    let program = filled(42);
    let vault = filled(5);
    let (address, bump) = Address::derive_delegation(&program, &vault).unwrap();
    let (expected, expected_bump) = Pubkey::find_program_address(
        &[b"delegation", &[5u8; 32]],
        &Pubkey::new_from_array([42u8; 32]),
    );
    assert_eq!(address.bytes, expected.to_bytes());
    assert_eq!(bump, expected_bump);
}

#[test]
fn vault_address_depends_on_the_pair_alone() {
    let program = filled(42);
    let first = Address::derive_vault(&program, &filled(1), &filled(2));
    let again = Address::derive_vault(&program, &filled(1), &filled(2));
    let swapped = Address::derive_vault(&program, &filled(2), &filled(1));
    let other = Address::derive_vault(&program, &filled(1), &filled(3));
    assert_eq!(first, again);
    assert_ne!(first, swapped);
    assert_ne!(first, other);
    assert_ne!(first.unwrap().0, filled(1));
}

#[test]
fn delegation_address_differs_from_vault_address() {
    let program = filled(42);
    let (vault, _) = Address::derive_vault(&program, &filled(1), &filled(2)).unwrap();
    let (delegation, _) = Address::derive_delegation(&program, &vault).unwrap();
    assert_ne!(vault, delegation);
    assert_eq!(Address::derive_delegation(&program, &vault).unwrap().0, delegation);
}
