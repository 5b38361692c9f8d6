//! The cipher transform: authenticated encryption and decryption of a byte
//! buffer with AES-256-GCM under a fixed nonce, carried as standard base64
//! text (ciphertext followed by the 16-byte authentication tag).

use aes_gcm::aead::Aead;
use aes_gcm::aead::KeyInit;
use aes_gcm::aead::Nonce;
use aes_gcm::Aes256Gcm;
use vstd::prelude::*;

use crate::errors::ConfigError;

verus! {

/// The sealing of `plain` under AES-256-GCM with `key` and `nonce`: the
/// ciphertext with the 16-byte authentication tag appended.
pub uninterp spec fn gcm_seal(key: Seq<u8>, nonce: Seq<u8>, plain: Seq<u8>) -> Seq<u8>;

/// What AES-256-GCM decryption returns for `cipher` under `key` and `nonce`:
/// the plaintext where the authentication tag verifies, `None` otherwise.
pub uninterp spec fn gcm_open(key: Seq<u8>, nonce: Seq<u8>, cipher: Seq<u8>) -> Option<Seq<u8>>;

/// The standard-alphabet, padded base64 text that encodes `bytes`.
pub uninterp spec fn b64_encode_of(bytes: Seq<u8>) -> Seq<char>;

/// What standard base64 decoding returns for `text`: the decoded bytes, or
/// `None` where `text` is not valid padded standard base64.
pub uninterp spec fn b64_decode_of(text: Seq<char>) -> Option<Seq<u8>>;

/// The nonce that every encryption and decryption uses: one fixed 12-byte
/// value, the same for every call.  Safe only as long as each key encrypts
/// at most one distinct plaintext.
pub open spec fn fixed_nonce_spec() -> Seq<u8> {
    seq![0x12u8, 0x34u8, 0x56u8, 0x70u8, 0x9au8, 0xbau8, 0x99u8, 0xf9u8, 0x12u8, 0x34u8, 0x56u8, 0x78u8]
}

/// The longest plaintext AES-GCM can seal: `2^36 - 32` bytes.
pub open spec fn gcm_plain_limit() -> nat {
    (0x10_0000_0000 - 32) as nat
}

/// What an encryption returns on success: the base64 envelope of the sealed
/// plaintext.
pub open spec fn encrypt_spec(key: Seq<u8>, plain: Seq<u8>) -> Seq<char> {
    b64_encode_of(gcm_seal(key, fixed_nonce_spec(), plain))
}

/// What a decryption returns: the sealed plaintext recovered from the base64
/// envelope, or `None` where the envelope does not decode or does not
/// authenticate under `key`.
pub open spec fn decrypt_spec(key: Seq<u8>, text: Seq<char>) -> Option<Seq<u8>> {
    match b64_decode_of(text) {
        Some(cipher) => gcm_open(key, fixed_nonce_spec(), cipher),
        None => None,
    }
}

#[verifier::external_type_specification]
#[verifier::external_body]
pub struct ExAeadError(aes_gcm::aead::Error);

#[verifier::external_type_specification]
#[verifier::external_body]
pub struct ExDecodeError(base64::DecodeError);

fn fixed_nonce() -> (r: Vec<u8>)
    ensures
        r@ == fixed_nonce_spec(),
{
    let mut v: Vec<u8> = Vec::new();
    v.push(0x12);
    v.push(0x34);
    v.push(0x56);
    v.push(0x70);
    v.push(0x9a);
    v.push(0xba);
    v.push(0x99);
    v.push(0xf9);
    v.push(0x12);
    v.push(0x34);
    v.push(0x56);
    v.push(0x78);
    proof {
        assert(v@ =~= fixed_nonce_spec());
    }
    v
}

/// Relies on aes_gcm's `Aes256Gcm` with `aead::Aead::encrypt`: seals the
/// message under the key and nonce, returning ciphertext with the 16-byte
/// tag appended; decrypting that result under the same key and nonce gives
/// the message back; fails only on messages over the AES-GCM length limit.
#[verifier::external_body]
fn aes256_gcm_seal(key: &[u8], nonce: &[u8], plain: &[u8]) -> (r: Result<
    Vec<u8>,
    aes_gcm::aead::Error,
>)
    requires
        key@.len() == 32,
        nonce@.len() == 12,
    ensures
        r matches Ok(c) ==> c@ == gcm_seal(key@, nonce@, plain@),
        r matches Ok(c) ==> c@.len() == plain@.len() + 16,
        r matches Ok(c) ==> gcm_open(key@, nonce@, c@) == Some(plain@),
        r matches Ok(c) ==> plain@.len() <= gcm_plain_limit(),
        plain@.len() <= gcm_plain_limit() ==> r is Ok,
{
    let cipher = Aes256Gcm::new_from_slice(key).unwrap();
    let nonce = Nonce::<Aes256Gcm>::try_from(nonce).unwrap();
    cipher.encrypt(&nonce, plain)
}

/// Relies on aes_gcm's `Aes256Gcm` with `aead::Aead::decrypt`: verifies the
/// trailing 16-byte tag and returns the plaintext, failing where the input
/// does not authenticate under this key and nonce.
#[verifier::external_body]
fn aes256_gcm_open(key: &[u8], nonce: &[u8], cipher: &[u8]) -> (r: Result<
    Vec<u8>,
    aes_gcm::aead::Error,
>)
    requires
        key@.len() == 32,
        nonce@.len() == 12,
    ensures
        r matches Ok(p) ==> gcm_open(key@, nonce@, cipher@) == Some(p@),
        r matches Err(_) ==> gcm_open(key@, nonce@, cipher@) is None,
{
    let c = Aes256Gcm::new_from_slice(key).unwrap();
    let nonce = Nonce::<Aes256Gcm>::try_from(nonce).unwrap();
    c.decrypt(&nonce, cipher)
}

/// Relies on base64's `STANDARD` engine (`Engine::encode`): the padded
/// standard-alphabet base64 text of the input, which decodes back to the
/// input.
/// The input stays small enough for the encoded length, `4 * ceil(len / 3)`,
/// to fit in `usize`, so the encoder cannot overflow its size computation.
#[verifier::external_body]
fn b64_encode(bytes: &[u8]) -> (r: String)
    requires
        bytes@.len() <= 0x1000_0000_0000_0000,
    ensures
        r@ == b64_encode_of(bytes@),
        b64_decode_of(r@) == Some(bytes@),
{
    base64::Engine::encode(&base64::engine::general_purpose::STANDARD, bytes)
}

/// Relies on base64's `STANDARD` engine (`Engine::decode`): returns the
/// decoded bytes exactly where the input is valid padded standard base64.
#[verifier::external_body]
fn b64_decode(text: &str) -> (r: Result<Vec<u8>, base64::DecodeError>)
    ensures
        r matches Ok(b) ==> b64_decode_of(text@) == Some(b@),
        r matches Err(_) ==> b64_decode_of(text@) is None,
{
    base64::Engine::decode(&base64::engine::general_purpose::STANDARD, text)
}

/// Seals `config` under `key` with the fixed nonce and returns the base64
/// envelope: the encoding of the ciphertext with the 16-byte tag appended.
/// Succeeds on every plaintext up to the AES-GCM length limit, and the
/// envelope always decrypts back to `config` under the same key.
pub fn encrypt_config(config: &[u8], key: &[u8; 32]) -> (r: Result<String, ConfigError>)
    ensures
        r matches Ok(s) ==> s@ == encrypt_spec(key@, config@),
        r matches Ok(s) ==> decrypt_spec(key@, s@) == Some(config@),
        r matches Ok(s) ==> (b64_decode_of(s@) matches Some(c) && c.len() == config@.len() + 16),
        r matches Err(e) ==> e == ConfigError::AesError,
        config@.len() <= gcm_plain_limit() ==> r is Ok,
{
    let nonce = fixed_nonce();
    match aes256_gcm_seal(key.as_slice(), nonce.as_slice(), config) {
        Ok(sealed) => Ok(b64_encode(sealed.as_slice())),
        Err(_) => Err(ConfigError::AesError),
    }
}

/// Opens the base64 envelope `cipher` under `key` with the fixed nonce.
/// Returns the authentic plaintext, `Base64Error` where the envelope is not
/// valid base64, and `AesError` where it decodes but does not authenticate.
pub fn decrypt_config(cipher: String, key: &[u8; 32]) -> (r: Result<Vec<u8>, ConfigError>)
    ensures
        r matches Ok(p) ==> decrypt_spec(key@, cipher@) == Some(p@),
        r matches Err(e) ==> decrypt_spec(key@, cipher@) is None,
        r matches Err(e) ==> (e == ConfigError::Base64Error || e == ConfigError::AesError),
        r matches Err(e) ==> (e == ConfigError::Base64Error <==> b64_decode_of(cipher@) is None),
        decrypt_spec(key@, cipher@) matches Some(p) ==> (r matches Ok(q) && q@ == p),
{
    let decoded = match b64_decode(cipher.as_str()) {
        Ok(d) => d,
        Err(_) => {
            return Err(ConfigError::Base64Error);
        },
    };
    let nonce = fixed_nonce();
    match aes256_gcm_open(key.as_slice(), nonce.as_slice(), decoded.as_slice()) {
        Ok(p) => Ok(p),
        Err(_) => Err(ConfigError::AesError),
    }
}

} // verus!

