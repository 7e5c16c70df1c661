//! Custody codec: the ephemeral key at rest.
//!
//! A key pair is sealed under a cipher key that is derived from a passphrase,
//! and the sealed bytes are stored as base64 text. Opening the text gives the
//! key pair back, or fails: it never yields a key pair that was not sealed.

use crate::address::Address;
use vstd::prelude::*;
use vstd::slice::slice_to_vec;
use vstd::string::StringSliceAdditionalSpecFns;

verus! {

broadcast use vstd::array::group_array_axioms;

/// Bytes of a key pair: a 32-byte seed, then the 32-byte public key.
pub const KEYPAIR_LENGTH: usize = 64;

/// Bytes of the derived cipher key.
pub const CIPHER_KEY_LENGTH: usize = 32;

/// Bytes that sealing adds to the plaintext (the authentication tag).
pub const TAG_LENGTH: usize = 16;

/// Rounds of the passphrase-based key derivation.
pub const KEY_DERIVATION_ROUNDS: u32 = 100_000;

/// The longest plaintext that the cipher seals under one nonce, in bytes.
pub const MAX_PLAINTEXT_LENGTH: u64 = 68_719_476_704;

/// Passphrases and salts of this many bytes or more cannot be hashed.
pub const HASH_INPUT_LIMIT: u64 = 0x1000_0000_0000_0000;

/// Why the codec refused.
#[derive(Debug, Clone, Copy, PartialEq, Eq, Structural)]
pub enum CodecError {
    /// No cipher key can be derived from the passphrase.
    InvalidAeadKey,
    /// The cipher refused to seal the key pair.
    EncryptionFailed,
    /// The stored text is not base64 without padding.
    InvalidBase64,
    /// The passphrase is wrong or the stored bytes were changed.
    AuthenticationFailed,
    /// The bytes that were opened are no key pair.
    InvalidKeypairBytes,
}

/// The Ed25519 public key of a 32-byte seed.
pub uninterp spec fn ed25519_public_key(seed: Seq<u8>) -> Seq<u8>;

/// The 32-byte key that PBKDF2 with HMAC-SHA256 derives from a secret.
pub uninterp spec fn pbkdf2_hmac_sha256(rounds: u32, salt: Seq<u8>, secret: Seq<u8>) -> Seq<u8>;

/// What AES-256-GCM makes of a plaintext under a key and a nonce, with no
/// associated data: the ciphertext followed by the tag.
pub uninterp spec fn aes_256_gcm_sealed(key: Seq<u8>, nonce: Seq<u8>, plaintext: Seq<u8>) -> Seq<u8>;

/// Base64 of a byte string, in the standard alphabet and without padding.
pub uninterp spec fn base64_text(bytes: Seq<u8>) -> Seq<char>;

/// Whether 64 bytes are a key pair: the second half is the public key of the
/// first.
pub open spec fn is_keypair_encoding(bytes: Seq<u8>) -> bool {
    &&& bytes.len() == KEYPAIR_LENGTH
    &&& bytes.subrange(32, 64) == ed25519_public_key(bytes.subrange(0, 32))
}

/// The deployment-wide salt of the key derivation: the ASCII bytes of
/// `evs-key-salt`.
pub open spec fn key_salt() -> Seq<u8> {
    seq![
        0x65u8,
        0x76u8,
        0x73u8,
        0x2du8,
        0x6bu8,
        0x65u8,
        0x79u8,
        0x2du8,
        0x73u8,
        0x61u8,
        0x6cu8,
        0x74u8,
    ]
}

/// The nonce of every sealing: twelve zero bytes.
pub open spec fn zero_nonce() -> Seq<u8> {
    Seq::new(12, |i: int| 0u8)
}

/// The cipher key of a passphrase.
pub open spec fn cipher_key(passphrase: Seq<u8>) -> Seq<u8> {
    pbkdf2_hmac_sha256(KEY_DERIVATION_ROUNDS, key_salt(), passphrase)
}

/// The sealed form of `plaintext` under the passphrase.
pub open spec fn sealed_bytes(plaintext: Seq<u8>, passphrase: Seq<u8>) -> Seq<u8> {
    aes_256_gcm_sealed(cipher_key(passphrase), zero_nonce(), plaintext)
}

/// Whether `sealed` is what the cipher makes of `plaintext` under the
/// passphrase.
pub open spec fn is_sealing_of(sealed: Seq<u8>, plaintext: Seq<u8>, passphrase: Seq<u8>) -> bool {
    plaintext.len() <= MAX_PLAINTEXT_LENGTH && sealed == sealed_bytes(plaintext, passphrase)
}

/// The stored text of `plaintext` under the passphrase.
pub open spec fn envelope_text(plaintext: Seq<u8>, passphrase: Seq<u8>) -> Seq<char> {
    base64_text(sealed_bytes(plaintext, passphrase))
}

/// Whether a text has the shape of a sealed key: it is the base64 of the
/// key's 64 bytes, sealed, and one 16-byte tag.
pub open spec fn is_envelope_of_a_key(text: Seq<char>) -> bool {
    exists|sealed: Seq<u8>|
        text == #[trigger] base64_text(sealed) && sealed.len() == KEYPAIR_LENGTH + TAG_LENGTH
}

/// Whether a passphrase of these bytes can be turned into a cipher key.
pub open spec fn passphrase_usable(passphrase: Seq<u8>) -> bool {
    passphrase.len() < HASH_INPUT_LIMIT
}

/// Calls `Keypair::try_from(&[u8])` of `solana_sdk::signature`, which accepts
/// exactly the 64-byte strings whose second half is the public key that it
/// derives from the first half.
#[verifier::external_body]
fn check_keypair_bytes(bytes: &[u8]) -> (valid: bool)
    ensures
        valid == (bytes@.len() == KEYPAIR_LENGTH && bytes@.subrange(32, 64) == ed25519_public_key(
            bytes@.subrange(0, 32),
        )),
{
    solana_sdk::signature::Keypair::try_from(bytes).is_ok()
}

/// Calls `Keypair::new` and `Keypair::to_bytes` of `solana_sdk::signature`.
/// The seed is random; whatever it is, the bytes are the seed followed by its
/// public key.
#[verifier::external_body]
fn random_keypair_bytes() -> (bytes: Vec<u8>)
    ensures
        bytes@.len() == KEYPAIR_LENGTH,
        bytes@.subrange(32, 64) == ed25519_public_key(bytes@.subrange(0, 32)),
{
    solana_sdk::signature::Keypair::new().to_bytes().to_vec()
}

/// Calls `ring::pbkdf2::derive` with HMAC-SHA256 and a 32-byte output. It
/// panics on no input that the `requires` admits.
#[verifier::external_body]
fn derive_key(rounds: u32, salt: &[u8], secret: &[u8]) -> (key: Vec<u8>)
    requires
        rounds > 0,
        salt@.len() < HASH_INPUT_LIMIT,
        secret@.len() < HASH_INPUT_LIMIT,
    ensures
        key@ == pbkdf2_hmac_sha256(rounds, salt@, secret@),
        key@.len() == CIPHER_KEY_LENGTH,
{
    let mut key = [0u8;32];
    let rounds = std::num::NonZeroU32::new(rounds).unwrap();
    ring::pbkdf2::derive(ring::pbkdf2::PBKDF2_HMAC_SHA256, rounds, salt, secret, &mut key);
    key.to_vec()
}

/// Calls `LessSafeKey::seal_in_place_append_tag` of `ring::aead` with an
/// AES-256-GCM key made of `key`, and with no associated data. `ring` seals
/// whenever the key has 32 bytes and the plaintext is within the cipher's limit,
/// and appends a 16-byte tag.
#[verifier::external_body]
fn seal(key: &[u8], nonce: [u8; 12], plaintext: Vec<u8>) -> (sealed: Option<Vec<u8>>)
    ensures
        key@.len() == CIPHER_KEY_LENGTH && plaintext@.len() <= MAX_PLAINTEXT_LENGTH
            ==> sealed is Some,
        sealed matches Some(bytes) ==> bytes@ == aes_256_gcm_sealed(key@, nonce@, plaintext@)
            && bytes@.len() == plaintext@.len() + TAG_LENGTH,
{
    let unbound = ring::aead::UnboundKey::new(&ring::aead::AES_256_GCM, key).ok()?;
    let nonce = ring::aead::Nonce::assume_unique_for_key(nonce);
    let mut in_out = plaintext;
    ring::aead::LessSafeKey::new(unbound).seal_in_place_append_tag(
        nonce,
        ring::aead::Aad::empty(),
        &mut in_out,
    ).ok()?;
    Some(in_out)
}

/// Calls `LessSafeKey::open_in_place` of `ring::aead` with an AES-256-GCM key
/// made of `key`, and with no associated data. `ring` takes the last 16 bytes
/// as the tag and refuses what is shorter; it recomputes the tag over the rest
/// and hands the plaintext out, as long as the rest, only if that equals the
/// tag it was given. So what it opens is exactly what seals to `sealed`, and it
/// opens whatever was sealed under the same key and nonce.
#[verifier::external_body]
fn open(key: &[u8], nonce: [u8; 12], sealed: Vec<u8>) -> (opened: Option<Vec<u8>>)
    ensures
        opened matches Some(bytes) ==> sealed@.len() == bytes@.len() + TAG_LENGTH,
        opened matches Some(bytes) ==> bytes@.len() <= MAX_PLAINTEXT_LENGTH && sealed@
            == aes_256_gcm_sealed(key@, nonce@, bytes@),
        opened matches Some(bytes) ==> forall|plaintext: Seq<u8>|
            plaintext.len() <= MAX_PLAINTEXT_LENGTH && sealed@ == #[trigger] aes_256_gcm_sealed(
                key@,
                nonce@,
                plaintext,
            ) ==> plaintext == bytes@,
        opened is None ==> forall|plaintext: Seq<u8>|
            key@.len() == CIPHER_KEY_LENGTH && plaintext.len() <= MAX_PLAINTEXT_LENGTH ==> sealed@
                != #[trigger] aes_256_gcm_sealed(key@, nonce@, plaintext),
{
    let unbound = ring::aead::UnboundKey::new(&ring::aead::AES_256_GCM, key).ok()?;
    let nonce = ring::aead::Nonce::assume_unique_for_key(nonce);
    let mut in_out = sealed;
    let length: usize = ring::aead::LessSafeKey::new(unbound).open_in_place(
        nonce,
        ring::aead::Aad::empty(),
        &mut in_out,
    ).ok()?.len();
    in_out.truncate(length);
    Some(in_out)
}

/// Calls `Engine::encode` of `base64` on the engine `STANDARD_NO_PAD`. It
/// panics only where the length of the text overflows, which the `requires`
/// excludes.
#[verifier::external_body]
fn encode_base64(bytes: &[u8]) -> (text: String)
    requires
        bytes@.len() <= 0x3fff_ffff,
    ensures
        text@ == base64_text(bytes@),
{
    base64::Engine::encode(&base64::engine::general_purpose::STANDARD_NO_PAD, bytes)
}

/// Calls `Engine::decode` of `base64` on the engine `STANDARD_NO_PAD`, which
/// refuses padding, characters outside the alphabet and trailing bits that are
/// not zero. So it decodes exactly the texts that encoding produces, each to the
/// bytes it was made of.
#[verifier::external_body]
fn decode_base64(text: &str) -> (bytes: Option<Vec<u8>>)
    ensures
        bytes matches Some(decoded) ==> text@ == base64_text(decoded@),
        bytes matches Some(decoded) ==> forall|raw: Seq<u8>|
            text@ == #[trigger] base64_text(raw) ==> raw == decoded@,
        bytes is None ==> forall|raw: Seq<u8>| text@ != #[trigger] base64_text(raw),
{
    base64::Engine::decode(&base64::engine::general_purpose::STANDARD_NO_PAD, text).ok()
}

/// An Ed25519 key pair of an ephemeral identity: a seed and its public key.
pub struct EphemeralKeypair {
    bytes: Vec<u8>,
}

impl View for EphemeralKeypair {
    type V = Seq<u8>;

    closed spec fn view(&self) -> Seq<u8> {
        self.bytes@
    }
}

impl EphemeralKeypair {
    #[verifier::type_invariant]
    spec fn well_formed(self) -> bool {
        is_keypair_encoding(self.bytes@)
    }

    /// A fresh key pair from the system's random source.
    pub fn generate() -> (keypair: EphemeralKeypair)
        ensures
            is_keypair_encoding(keypair@),
    {
        EphemeralKeypair { bytes: random_keypair_bytes() }
    }

    /// The key pair that 64 bytes hold; `None` unless they are a seed followed
    /// by its public key.
    pub fn from_bytes(bytes: &[u8]) -> (keypair: Option<EphemeralKeypair>)
        ensures
            match keypair {
                Some(k) => is_keypair_encoding(bytes@) && k@ == bytes@,
                None => !is_keypair_encoding(bytes@),
            },
    {
        if check_keypair_bytes(bytes) {
            Some(EphemeralKeypair { bytes: slice_to_vec(bytes) })
        } else {
            None
        }
    }

    /// The 64 bytes of the key pair.
    pub fn to_bytes(&self) -> (bytes: Vec<u8>)
        ensures
            bytes@ == self@,
            is_keypair_encoding(bytes@),
    {
        proof {
            use_type_invariant(self);
        }
        self.bytes.clone()
    }

    /// The public identity of the key pair: its second half.
    pub fn pubkey(&self) -> (address: Address)
        ensures
            is_keypair_encoding(self@),
            address@ == self@.subrange(32, 64),
    {
        proof {
            use_type_invariant(self);
        }
        let mut bytes: [u8; 32] = [0u8;32];
        let mut i: usize = 0;
        while i < 32
            invariant
                i <= 32,
                self.bytes@.len() == 64,
                forall|j: int| 0 <= j < i ==> bytes@[j] == self.bytes@[32 + j],
            decreases 32 - i,
        {
            bytes[i] = self.bytes[32 + i];
            i = i + 1;
        }
        let address = Address::new(bytes);
        assert(address@ =~= self@.subrange(32, 64));
        address
    }
}

/// The cipher key of a passphrase, or `None` where the passphrase is too long
/// to be hashed.
fn cipher_key_of(kek: &str) -> (key: Option<Vec<u8>>)
    ensures
        match key {
            Some(k) => passphrase_usable(kek.spec_bytes()) && k@ == cipher_key(kek.spec_bytes())
                && k@.len() == CIPHER_KEY_LENGTH,
            None => !passphrase_usable(kek.spec_bytes()),
        },
{
    let secret = kek.as_bytes();
    if secret.len() as u64 >= HASH_INPUT_LIMIT {
        return None;
    }
    let salt: [u8; 12] = [
        0x65u8,
        0x76u8,
        0x73u8,
        0x2du8,
        0x6bu8,
        0x65u8,
        0x79u8,
        0x2du8,
        0x73u8,
        0x61u8,
        0x6cu8,
        0x74u8,
    ];
    assert(salt@ =~= key_salt());
    Some(derive_key(KEY_DERIVATION_ROUNDS, salt.as_slice(), secret))
}

/// Seals a key pair under the passphrase `kek` and returns the text to store.
///
/// The cipher key is derived from the passphrase with the deployment-wide
/// salt, and the 64 bytes of the key pair are sealed under the all-zero nonce.
/// The same key pair and passphrase always give the same text.
pub fn encrypt_keypair(keypair: &EphemeralKeypair, kek: &str) -> (result: Result<String, CodecError>)
    ensures
        is_keypair_encoding(keypair@),
        passphrase_usable(kek.spec_bytes()) ==> (result matches Ok(text) && text@ == envelope_text(
            keypair@,
            kek.spec_bytes(),
        )),
        !passphrase_usable(kek.spec_bytes()) ==> result == Err::<String, CodecError>(
            CodecError::InvalidAeadKey,
        ),
        result matches Ok(text) ==> is_envelope_of_a_key(text@),
        result is Ok ==> sealed_bytes(keypair@, kek.spec_bytes()).len() == KEYPAIR_LENGTH
            + TAG_LENGTH,
{
    let plaintext = keypair.to_bytes();
    let key = match cipher_key_of(kek) {
        Some(key) => key,
        None => {
            return Err(CodecError::InvalidAeadKey);
        },
    };
    let nonce: [u8; 12] = [0u8;12];
    assert(nonce@ =~= zero_nonce());
    match seal(key.as_slice(), nonce, plaintext) {
        Some(sealed) => {
            let text = encode_base64(sealed.as_slice());
            assert(text@ == base64_text(sealed@) && sealed@.len() == KEYPAIR_LENGTH + TAG_LENGTH);
            Ok(text)
        },
        None => Err(CodecError::EncryptionFailed),
    }
}

/// What opening a stored text under a passphrase must give.
///
/// `Ok(k)` only where the text is the stored text of the key pair `k` under
/// this passphrase, and each error only on the texts that its variant names.
pub open spec fn opens_to(
    text: Seq<char>,
    passphrase: Seq<u8>,
    result: Result<Seq<u8>, CodecError>,
) -> bool {
    match result {
        Ok(keypair) => passphrase_usable(passphrase) && is_keypair_encoding(keypair) && text
            == envelope_text(keypair, passphrase),
        Err(CodecError::InvalidAeadKey) => !passphrase_usable(passphrase),
        Err(CodecError::InvalidBase64) => passphrase_usable(passphrase) && forall|raw: Seq<u8>|
            text != #[trigger] base64_text(raw),
        Err(CodecError::AuthenticationFailed) => passphrase_usable(passphrase) && exists|
            sealed: Seq<u8>,
        |
            text == #[trigger] base64_text(sealed) && forall|plaintext: Seq<u8>|
                !#[trigger] is_sealing_of(sealed, plaintext, passphrase),
        Err(CodecError::InvalidKeypairBytes) => passphrase_usable(passphrase) && exists|
            plaintext: Seq<u8>,
        |
            text == #[trigger] envelope_text(plaintext, passphrase) && !is_keypair_encoding(
                plaintext,
            ),
        Err(CodecError::EncryptionFailed) => false,
    }
}

/// Opens a stored text under the passphrase `kek`.
///
/// The text of a key pair that was sealed under the same passphrase opens to
/// that key pair. Text that is no base64, text too short to hold a tag, and the
/// sealed form of bytes that are no key pair each fail with their own error.
/// Any other text fails or opens to the one key pair whose stored text it is: a
/// wrong passphrase or a changed text never yields bytes that were not sealed.
pub fn decrypt_keypair(ciphertext_b64: &str, kek: &str) -> (result: Result<
    EphemeralKeypair,
    CodecError,
>)
    ensures
        opens_to(
            ciphertext_b64@,
            kek.spec_bytes(),
            match result {
                Ok(keypair) => Ok(keypair@),
                Err(e) => Err(e),
            },
        ),
        forall|sealed_keypair: Seq<u8>|
            passphrase_usable(kek.spec_bytes()) && is_keypair_encoding(sealed_keypair)
                && ciphertext_b64@ == #[trigger] envelope_text(sealed_keypair, kek.spec_bytes())
                ==> (result matches Ok(keypair) && keypair@ == sealed_keypair),
        forall|plaintext: Seq<u8>|
            plaintext.len() <= MAX_PLAINTEXT_LENGTH && passphrase_usable(kek.spec_bytes())
                && ciphertext_b64@ == #[trigger] envelope_text(plaintext, kek.spec_bytes())
                && !is_keypair_encoding(plaintext) ==> (result matches Err(e) && e
                == CodecError::InvalidKeypairBytes),
        forall|raw: Seq<u8>|
            passphrase_usable(kek.spec_bytes()) && ciphertext_b64@ == #[trigger] base64_text(raw)
                && raw.len() < TAG_LENGTH ==> (result matches Err(e) && e
                == CodecError::AuthenticationFailed),
        result is Ok ==> is_envelope_of_a_key(ciphertext_b64@),
{
    let key = match cipher_key_of(kek) {
        Some(key) => key,
        None => {
            return Err(CodecError::InvalidAeadKey);
        },
    };
    let ghost passphrase = kek.spec_bytes();
    let sealed = match decode_base64(ciphertext_b64) {
        Some(sealed) => sealed,
        None => {
            return Err(CodecError::InvalidBase64);
        },
    };
    let ghost sealed_view = sealed@;
    let nonce: [u8; 12] = [0u8;12];
    assert(nonce@ =~= zero_nonce());
    let plaintext = match open(key.as_slice(), nonce, sealed) {
        Some(plaintext) => plaintext,
        None => {
            assert forall|plaintext: Seq<u8>| !#[trigger] is_sealing_of(
                sealed_view,
                plaintext,
                passphrase,
            ) by {
                if is_sealing_of(sealed_view, plaintext, passphrase) {
                    assert(sealed_view == aes_256_gcm_sealed(key@, nonce@, plaintext));
                }
            }
            assert(ciphertext_b64@ == base64_text(sealed_view));
            assert forall|plaintext: Seq<u8>|
                plaintext.len() <= MAX_PLAINTEXT_LENGTH && ciphertext_b64@
                    == #[trigger] envelope_text(plaintext, passphrase) implies false by {
                assert(ciphertext_b64@ == base64_text(sealed_bytes(plaintext, passphrase)));
                assert(is_sealing_of(sealed_view, plaintext, passphrase));
            }
            return Err(CodecError::AuthenticationFailed);
        },
    };
    assert(sealed_view == sealed_bytes(plaintext@, passphrase));
    assert(ciphertext_b64@ == envelope_text(plaintext@, passphrase));
    assert forall|sealed_plaintext: Seq<u8>|
        sealed_plaintext.len() <= MAX_PLAINTEXT_LENGTH && ciphertext_b64@
            == #[trigger] envelope_text(sealed_plaintext, passphrase) implies sealed_plaintext
        == plaintext@ by {
        assert(ciphertext_b64@ == base64_text(sealed_bytes(sealed_plaintext, passphrase)));
        assert(sealed_view == sealed_bytes(sealed_plaintext, passphrase));
        assert(sealed_view == aes_256_gcm_sealed(key@, nonce@, sealed_plaintext));
    }
    assert forall|raw: Seq<u8>| ciphertext_b64@ == #[trigger] base64_text(raw) implies raw.len()
        >= TAG_LENGTH by {
        assert(raw == sealed_view);
    }
    match EphemeralKeypair::from_bytes(plaintext.as_slice()) {
        Some(keypair) => {
            assert(sealed_view.len() == KEYPAIR_LENGTH + TAG_LENGTH);
            assert(ciphertext_b64@ == base64_text(sealed_view));
            Ok(keypair)
        },
        None => Err(CodecError::InvalidKeypairBytes),
    }
}

/// Seals a key pair and opens the text again. Whatever the key pair and the
/// passphrase, the key pair comes back unchanged.
pub fn reopen_sealed(keypair: &EphemeralKeypair, kek: &str) -> (result: Result<
    EphemeralKeypair,
    CodecError,
>)
    ensures
        passphrase_usable(kek.spec_bytes()) ==> (result matches Ok(reopened) && reopened@
            == keypair@),
        !passphrase_usable(kek.spec_bytes()) ==> (result matches Err(e) && e
            == CodecError::InvalidAeadKey),
{
    match encrypt_keypair(keypair, kek) {
        Ok(text) => decrypt_keypair(text.as_str(), kek),
        Err(e) => Err(e),
    }
}

} // verus!
