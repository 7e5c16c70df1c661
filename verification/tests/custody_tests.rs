use base64::Engine;
use ephemeral_vault::custody::decrypt_keypair;
use ephemeral_vault::custody::encrypt_keypair;
use ephemeral_vault::custody::reopen_sealed;
use ephemeral_vault::custody::CodecError;
use ephemeral_vault::custody::EphemeralKeypair;
use solana_sdk::signature::Keypair;
use solana_sdk::signer::Signer;

fn keypair_of(seed: u8) -> EphemeralKeypair {
    let bytes = Keypair::new_from_array([seed; 32]).to_bytes();
    EphemeralKeypair::from_bytes(&bytes).unwrap()
}

fn seal_by_hand(plaintext: &[u8], passphrase: &str) -> String {
    let mut key = [0u8; 32];
    ring::pbkdf2::derive(
        ring::pbkdf2::PBKDF2_HMAC_SHA256,
        std::num::NonZeroU32::new(100_000).unwrap(),
        b"evs-key-salt",
        passphrase.as_bytes(),
        &mut key,
    );
    let unbound = ring::aead::UnboundKey::new(&ring::aead::AES_256_GCM, &key).unwrap();
    let sealing = ring::aead::LessSafeKey::new(unbound);
    let mut in_out = plaintext.to_vec();
    sealing
        .seal_in_place_append_tag(
            ring::aead::Nonce::assume_unique_for_key([0u8; 12]),
            ring::aead::Aad::empty(),
            &mut in_out,
        )
        .unwrap();
    base64::engine::general_purpose::STANDARD_NO_PAD.encode(in_out)
}

#[test]
fn round_trip_gives_the_key_back() {
    let keypair = keypair_of(7);
    let text = encrypt_keypair(&keypair, "correct horse").unwrap();
    let opened = decrypt_keypair(&text, "correct horse").unwrap();
    assert_eq!(opened.to_bytes(), keypair.to_bytes());
}

#[test]
fn round_trip_of_a_fresh_key() {
    let keypair = EphemeralKeypair::generate();
    let text = encrypt_keypair(&keypair, "p").unwrap();
    let opened = decrypt_keypair(&text, "p").unwrap();
    assert_eq!(opened.to_bytes(), keypair.to_bytes());
    assert_eq!(opened.pubkey(), keypair.pubkey());
}

#[test]
fn round_trip_with_an_empty_passphrase() {
    let keypair = keypair_of(1);
    let text = encrypt_keypair(&keypair, "").unwrap();
    assert_eq!(decrypt_keypair(&text, "").unwrap().to_bytes(), keypair.to_bytes());
}

#[test]
fn round_trip_with_a_long_passphrase() {
    let keypair = keypair_of(2);
    let passphrase = "x".repeat(1000);
    let text = encrypt_keypair(&keypair, &passphrase).unwrap();
    assert_eq!(decrypt_keypair(&text, &passphrase).unwrap().to_bytes(), keypair.to_bytes());
}

#[test]
fn reopening_gives_the_key_back() {
    let keypair = keypair_of(9);
    let reopened = reopen_sealed(&keypair, "müßig").unwrap();
    assert_eq!(reopened.to_bytes(), keypair.to_bytes());
}

#[test]
fn sealed_text_is_what_the_cipher_gives() {
    let keypair = keypair_of(7);
    let text = encrypt_keypair(&keypair, "correct horse").unwrap();
    assert_eq!(text, seal_by_hand(&keypair.to_bytes(), "correct horse"));
}

#[test]
fn sealed_text_has_the_length_of_key_and_tag() {
    let keypair = keypair_of(7);
    let text = encrypt_keypair(&keypair, "correct horse").unwrap();
    assert_eq!(text.len(), 107);
    assert!(!text.contains('='));
    let raw = base64::engine::general_purpose::STANDARD_NO_PAD.decode(&text).unwrap();
    assert_eq!(raw.len(), 64 + 16);
    assert_ne!(&raw[..64], &keypair.to_bytes()[..]);
}

#[test]
fn sealing_is_deterministic() {
    let keypair = keypair_of(7);
    let first = encrypt_keypair(&keypair, "correct horse").unwrap();
    let second = encrypt_keypair(&keypair, "correct horse").unwrap();
    assert_eq!(first, second);
    assert_ne!(first, encrypt_keypair(&keypair, "correct horsf").unwrap());
    assert_ne!(first, encrypt_keypair(&keypair_of(8), "correct horse").unwrap());
}

#[test]
fn wrong_passphrase_fails() {
    let keypair = keypair_of(7);
    let text = encrypt_keypair(&keypair, "correct horse").unwrap();
    assert_eq!(
        decrypt_keypair(&text, "wrong horse").err(),
        Some(CodecError::AuthenticationFailed)
    );
    assert_eq!(decrypt_keypair(&text, "").err(), Some(CodecError::AuthenticationFailed));
}

#[test]
fn changed_text_fails() {
    let keypair = keypair_of(7);
    let text = encrypt_keypair(&keypair, "correct horse").unwrap();
    let mut raw = base64::engine::general_purpose::STANDARD_NO_PAD.decode(&text).unwrap();
    for position in [0usize, 31, 63, 64, 79] {
        raw[position] ^= 1;
        let changed = base64::engine::general_purpose::STANDARD_NO_PAD.encode(&raw);
        assert_eq!(
            decrypt_keypair(&changed, "correct horse").err(),
            Some(CodecError::AuthenticationFailed)
        );
        raw[position] ^= 1;
    }
    let restored = base64::engine::general_purpose::STANDARD_NO_PAD.encode(&raw);
    assert!(decrypt_keypair(&restored, "correct horse").is_ok());
}

#[test]
fn shortened_text_fails() {
    let keypair = keypair_of(7);
    let text = encrypt_keypair(&keypair, "correct horse").unwrap();
    let raw = base64::engine::general_purpose::STANDARD_NO_PAD.decode(&text).unwrap();
    let shorter = base64::engine::general_purpose::STANDARD_NO_PAD.encode(&raw[..79]);
    assert_eq!(
        decrypt_keypair(&shorter, "correct horse").err(),
        Some(CodecError::AuthenticationFailed)
    );
    let tiny = base64::engine::general_purpose::STANDARD_NO_PAD.encode([1u8, 2, 3]);
    assert_eq!(
        decrypt_keypair(&tiny, "correct horse").err(),
        Some(CodecError::AuthenticationFailed)
    );
    assert_eq!(decrypt_keypair("", "correct horse").err(), Some(CodecError::AuthenticationFailed));
}

#[test]
fn text_that_is_not_base64_fails() {
    assert_eq!(decrypt_keypair("***", "p").err(), Some(CodecError::InvalidBase64));
    assert_eq!(decrypt_keypair("abc=", "p").err(), Some(CodecError::InvalidBase64));
    assert_eq!(decrypt_keypair("a", "p").err(), Some(CodecError::InvalidBase64));
    assert_eq!(decrypt_keypair("ab cd", "p").err(), Some(CodecError::InvalidBase64));
}

#[test]
fn padded_text_is_refused() {
    let keypair = keypair_of(7);
    let text = encrypt_keypair(&keypair, "correct horse").unwrap();
    let padded = format!("{}=", text);
    assert_eq!(decrypt_keypair(&padded, "correct horse").err(), Some(CodecError::InvalidBase64));
}

#[test]
fn sealed_bytes_that_are_no_key_pair_fail() {
    let text = seal_by_hand(&[1u8; 10], "correct horse");
    assert_eq!(
        decrypt_keypair(&text, "correct horse").err(),
        Some(CodecError::InvalidKeypairBytes)
    );
    let padded_key: Vec<u8> = keypair_of(7).to_bytes().into_iter().chain([0u8; 16]).collect();
    let text = seal_by_hand(&padded_key, "correct horse");
    assert_eq!(
        decrypt_keypair(&text, "correct horse").err(),
        Some(CodecError::InvalidKeypairBytes)
    );
    let mut mismatched = keypair_of(7).to_bytes();
    mismatched[40] ^= 1;
    let text = seal_by_hand(&mismatched, "correct horse");
    assert_eq!(
        decrypt_keypair(&text, "correct horse").err(),
        Some(CodecError::InvalidKeypairBytes)
    );
}

#[test]
fn key_pair_bytes_are_seed_then_public_key() {
    let sdk = Keypair::new_from_array([3u8; 32]);
    let keypair = EphemeralKeypair::from_bytes(&sdk.to_bytes()).unwrap();
    let bytes = keypair.to_bytes();
    assert_eq!(bytes.len(), 64);
    assert_eq!(&bytes[..32], &[3u8; 32]);
    assert_eq!(&bytes[32..], &sdk.pubkey().to_bytes());
    assert_eq!(keypair.pubkey().bytes, sdk.pubkey().to_bytes());
}

#[test]
fn bytes_that_are_no_key_pair_are_refused() {
    let good = Keypair::new_from_array([3u8; 32]).to_bytes();
    assert!(EphemeralKeypair::from_bytes(&good).is_some());
    assert!(EphemeralKeypair::from_bytes(&good[..63]).is_none());
    assert!(EphemeralKeypair::from_bytes(&[]).is_none());
    let mut longer = good.to_vec();
    longer.push(0);
    assert!(EphemeralKeypair::from_bytes(&longer).is_none());
    let mut wrong_public = good;
    wrong_public[63] ^= 0x80;
    assert!(EphemeralKeypair::from_bytes(&wrong_public).is_none());
    let mut wrong_seed = good;
    wrong_seed[0] ^= 1;
    assert!(EphemeralKeypair::from_bytes(&wrong_seed).is_none());
    assert!(EphemeralKeypair::from_bytes(&[0u8; 64]).is_none());
}

#[test]
fn fresh_key_pairs_are_valid_and_differ() {
    let first = EphemeralKeypair::generate();
    let second = EphemeralKeypair::generate();
    assert_ne!(first.to_bytes(), second.to_bytes());
    assert!(Keypair::try_from(&first.to_bytes()[..]).is_ok());
    assert!(EphemeralKeypair::from_bytes(&first.to_bytes()).is_some());
}

#[test]
fn text_too_short_for_a_tag_fails_to_authenticate() {
    for length in 0..16usize {
        let text = base64::engine::general_purpose::STANDARD_NO_PAD.encode(vec![7u8; length]);
        assert_eq!(
            decrypt_keypair(&text, "correct horse").err(),
            Some(CodecError::AuthenticationFailed)
        );
    }
}

#[test]
fn sealed_empty_plaintext_is_no_key_pair() {
    let text = seal_by_hand(&[], "correct horse");
    assert_eq!(
        base64::engine::general_purpose::STANDARD_NO_PAD.decode(&text).unwrap().len(),
        16
    );
    assert_eq!(
        decrypt_keypair(&text, "correct horse").err(),
        Some(CodecError::InvalidKeypairBytes)
    );
}
