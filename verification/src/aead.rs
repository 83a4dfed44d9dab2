use vstd::prelude::*;
use crypto::aead::{AeadDecryptor, AeadEncryptor};
use rand::Rng;

verus! {

use crate::envelope::EncFile;
use crate::errors::LogError;

/// The AES-256-GCM ciphertext and tag for a key, nonce and plaintext, with
/// no associated data.
pub uninterp spec fn gcm_seal(key: Seq<u8>, nonce: Seq<u8>, plaintext: Seq<u8>) -> (Seq<u8>, Seq<u8>);

/// Relies on rand::rng and rand::Rng::fill: nothing is assumed of the bytes
/// drawn.
#[verifier::external_body]
fn random_nonce() -> (r: [u8; 12]) {
    let mut nonce = [0u8; 12];
    rand::rng().fill(&mut nonce);
    nonce
}

/// Relies on crypto::aes_gcm::AesGcm::encrypt with a 256-bit key and no
/// associated data: ciphertext and tag are a function of key, nonce and
/// plaintext alone, and the ciphertext is as long as the plaintext.
#[verifier::external_body]
fn gcm_encrypt(key: &[u8; 32], nonce: &[u8; 12], plaintext: &Vec<u8>) -> (r: (Vec<u8>, [u8; 16]))
    ensures
        (r.0@, r.1@) == gcm_seal(key@, nonce@, plaintext@),
        r.0@.len() == plaintext@.len(),
{
    let mut cipher = crypto::aes_gcm::AesGcm::new(crypto::aes::KeySize::KeySize256, key, nonce, &[]);
    let mut out = vec![0u8; plaintext.len()];
    let mut tag = [0u8; 16];
    cipher.encrypt(plaintext.as_slice(), &mut out, &mut tag);
    (out, tag)
}

/// Relies on crypto::aes_gcm::AesGcm::decrypt with a 256-bit key and no
/// associated data: the tag check decides the outcome, and decryption
/// inverts encryption under the same key and nonce, so whenever the
/// ciphertext and tag were sealed from a plaintext under this key and nonce,
/// the call succeeds and returns that plaintext.
#[verifier::external_body]
fn gcm_decrypt(key: &[u8; 32], nonce: &[u8; 12], ciphertext: &Vec<u8>, tag: &[u8; 16]) -> (r: (
    bool,
    Vec<u8>,
))
    ensures
        r.1@.len() == ciphertext@.len(),
        forall|p: Seq<u8>|
            #[trigger] gcm_seal(key@, nonce@, p) == (ciphertext@, tag@) ==> r.0 && r.1@ == p,
{
    let mut cipher = crypto::aes_gcm::AesGcm::new(crypto::aes::KeySize::KeySize256, key, nonce, &[]);
    let mut out = vec![0u8; ciphertext.len()];
    let ok = cipher.decrypt(ciphertext.as_slice(), &mut out, tag);
    (ok, out)
}

/// Encrypts a blob under a 256-bit key with a fresh random nonce.
pub fn encrypt(data: &Vec<u8>, key: &[u8; 32]) -> (r: EncFile)
    ensures
        (r.data@, r.tag@) == gcm_seal(key@, r.nonce@, data@),
        r.data@.len() == data@.len(),
{
    let nonce = random_nonce();
    let (out, tag) = gcm_encrypt(key, &nonce, data);
    EncFile { nonce, tag, data: out }
}

/// Decrypts an envelope under a 256-bit key. The only failure is
/// AuthenticationFailure, raised by the tag check; any envelope sealed from
/// a plaintext under the same key and nonce decrypts to that plaintext.
pub fn decrypt(file: &EncFile, key: &[u8; 32]) -> (r: Result<Vec<u8>, LogError>)
    ensures
        r matches Err(e) ==> e == LogError::AuthenticationFailure,
        r matches Ok(p) ==> p@.len() == file.data@.len(),
        forall|p: Seq<u8>|
            #[trigger] gcm_seal(key@, file.nonce@, p) == (file.data@, file.tag@) ==> (r matches Ok(
                out,
            ) && out@ == p),
{
    let (ok, out) = gcm_decrypt(key, &file.nonce, &file.data, &file.tag);
    if ok {
        Ok(out)
    } else {
        Err(LogError::AuthenticationFailure)
    }
}

/// Round trip: decrypting what encrypt produced, under the key it was
/// encrypted with, returns the original plaintext.
pub fn aead_round_trip(data: &Vec<u8>, key: &[u8; 32]) -> (r: Vec<u8>)
    ensures
        r@ == data@,
{
    let enc = encrypt(data, key);
    proof {
        assert(gcm_seal(key@, enc.nonce@, data@) == (enc.data@, enc.tag@));
    }
    match decrypt(&enc, key) {
        Ok(p) => p,
        Err(_) => unreached(),
    }
}

} // verus!
