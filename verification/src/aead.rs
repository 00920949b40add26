//! The authenticated cipher of the VMess handshake: AES-128 in
//! Galois/Counter mode, behind a named sealing function.

use vstd::prelude::*;
use aes_gcm::Aes128Gcm;
use aes_gcm::KeyInit;
use aes_gcm::aead::Aead;
use aes_gcm::aead::Payload;
use aes_gcm::aead::array::Array;

verus! {

/// What AES-128-GCM seals a message to under a 16-byte key, a 12-byte
/// nonce, and associated data: the ciphertext followed by its 16-byte
/// authentication tag, a function of those four inputs alone.
pub uninterp spec fn aes128gcm_seal_of(
    key: Seq<u8>,
    nonce: Seq<u8>,
    aad: Seq<u8>,
    msg: Seq<u8>,
) -> Seq<u8>;

/// Relies on Aes128Gcm::encrypt of the aes-gcm crate (through the Aead
/// trait): deterministic in key, nonce, associated data and message; output
/// is the message length plus the 16-byte tag; its only error paths are
/// length limits far above what the bounds here admit.
#[verifier::external_body]
pub(crate) fn aes128gcm_seal(key: &Vec<u8>, nonce: &Vec<u8>, aad: &Vec<u8>, msg: &Vec<u8>) -> (r:
    Vec<u8>)
    requires
        key@.len() == 16,
        nonce@.len() == 12,
        aad@.len() <= 0x100000,
        msg@.len() <= 0x100000,
    ensures
        r@ == aes128gcm_seal_of(key@, nonce@, aad@, msg@),
        r@.len() == msg@.len() + 16,
{
    let cipher = match Aes128Gcm::new_from_slice(key.as_slice()) {
        Ok(c) => c,
        Err(_) => return Vec::new(),
    };
    let nonce_arr = match Array::try_from(nonce.as_slice()) {
        Ok(n) => n,
        Err(_) => return Vec::new(),
    };
    let payload = Payload { msg: msg.as_slice(), aad: aad.as_slice() };
    cipher.encrypt(&nonce_arr, payload).unwrap_or_default()
}

/// Relies on Aes128Gcm::decrypt of the aes-gcm crate (through the Aead
/// trait): it returns a plaintext only when the ciphertext carries a valid
/// tag for the key, nonce and associated data, and on anything that
/// Aes128Gcm::encrypt produced it returns the message that was sealed.
#[verifier::external_body]
pub(crate) fn aes128gcm_open(key: &Vec<u8>, nonce: &Vec<u8>, aad: &Vec<u8>, ct: &Vec<u8>) -> (r:
    Option<Vec<u8>>)
    requires
        key@.len() == 16,
        nonce@.len() == 12,
    ensures
        r matches Some(pt) ==> ct@ == aes128gcm_seal_of(key@, nonce@, aad@, pt@) && pt@.len() + 16
            == ct@.len(),
        r matches Some(pt) ==> forall|q: Seq<u8>|
            q.len() + 16 == ct@.len() && ct@ == aes128gcm_seal_of(key@, nonce@, aad@, q) ==> q
                == pt@,
        r is None ==> forall|q: Seq<u8>|
            q.len() + 16 == ct@.len() ==> ct@ != aes128gcm_seal_of(key@, nonce@, aad@, q),
{
    let cipher = match Aes128Gcm::new_from_slice(key.as_slice()) {
        Ok(c) => c,
        Err(_) => return None,
    };
    let nonce_arr = match Array::try_from(nonce.as_slice()) {
        Ok(n) => n,
        Err(_) => return None,
    };
    let payload = Payload { msg: ct.as_slice(), aad: aad.as_slice() };
    cipher.decrypt(&nonce_arr, payload).ok()
}

} // verus!
