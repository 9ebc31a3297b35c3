//! The cryptographic primitives, as the crates that implement them provide them.
//!
//! Nothing in this module is proved. Each function makes one cryptographic
//! operation available on plain bytes, and its contract states what the crate's
//! own code shows of it. Where the result takes more than a few lines to state,
//! it has a name, and the contract says which arguments it is a function of.

use crate::wrapped_key::{MASTER_KEY_LEN, NONCE_LEN, POINT_LEN, TAG_LEN};
use aes_gcm::aead::{Aead, KeyInit};
use aes_gcm::{Aes256Gcm, Nonce};
use hkdf::Hkdf;
use p256::ecdh::EphemeralSecret;
use p256::elliptic_curve::sec1::ToEncodedPoint;
use p256::PublicKey;
use rand::rngs::OsRng;
use rand::RngCore;
use sha2::Sha256;
use vstd::prelude::*;
use zeroize::Zeroize;

verus! {

/// Length of an uncompressed SEC-1 P-256 point.
pub const UNCOMPRESSED_LEN: usize = 65;

/// Longest plaintext that AES-GCM takes, in bytes.
pub const PLAINTEXT_MAX: u64 = 0x10_0000_0000;

/// The key derivation's complaint about an output length.
#[verifier::external_type_specification]
#[verifier::external_body]
pub struct ExHkdfInvalidLength(hkdf::InvalidLength);

/// The cipher's complaint about a key length.
#[verifier::external_type_specification]
#[verifier::external_body]
pub struct ExCipherInvalidLength(aes_gcm::aes::cipher::InvalidLength);

/// The cipher's one failure, which says nothing of its cause.
#[verifier::external_type_specification]
#[verifier::external_body]
pub struct ExAeadError(aes_gcm::Error);

/// The curve's one failure.
#[verifier::external_type_specification]
#[verifier::external_body]
pub struct ExCurveError(p256::elliptic_curve::Error);

/// A failure of AES-GCM.
pub enum CipherError {
    /// The key does not have the cipher's key length.
    Key(aes_gcm::aes::cipher::InvalidLength),
    /// The message could not be encrypted or authenticated.
    Aead(aes_gcm::Error),
}

/// The first 32 bytes of HKDF-SHA256 output for a salt, input key material and info.
pub uninterp spec fn hkdf_sha256_32(salt: Seq<u8>, ikm: Seq<u8>, info: Seq<u8>) -> Seq<u8>;

/// The AES-256-GCM ciphertext and tag of `plaintext`, without associated data.
pub uninterp spec fn aes256_gcm_seal(key: Seq<u8>, nonce: Seq<u8>, plaintext: Seq<u8>) -> Seq<u8>;

/// The plaintext that AES-256-GCM recovers from `sealed`, without associated
/// data, or `None` where the tag does not match.
pub uninterp spec fn aes256_gcm_open(key: Seq<u8>, nonce: Seq<u8>, sealed: Seq<u8>) -> Option<
    Seq<u8>,
>;

/// The P-256 public key that the SEC-1 encoding `bytes` stands for, encoded
/// anew, or `None` where `bytes` encodes no public key.
pub uninterp spec fn p256_sec1(bytes: Seq<u8>, compress: bool) -> Option<Seq<u8>>;

/// `point` has the length and the tag of a P-256 public key in the compressed or
/// the uncompressed SEC-1 form.
pub open spec fn has_form(point: Seq<u8>, compress: bool) -> bool {
    if compress {
        point.len() == POINT_LEN && (point[0] == 0x02 || point[0] == 0x03)
    } else {
        point.len() == UNCOMPRESSED_LEN && point[0] == 0x04
    }
}

/// The Diffie-Hellman secret of two P-256 public keys: the x-coordinate of the
/// point that the holder of either private key computes from the other key.
pub uninterp spec fn p256_shared_secret(one: Seq<u8>, other: Seq<u8>) -> Seq<u8>;

/// `hkdf::Hkdf::<Sha256>::extract`, then `expand` into a buffer of 32 bytes.
/// The output is a function of salt, input key material and info. Expansion
/// fails only beyond 255 hash lengths, so never here.
#[verifier::external_body]
pub(crate) fn hkdf_sha256(
    salt: &[u8],
    ikm: &[u8],
    info: &[u8],
    okm: &mut [u8; MASTER_KEY_LEN],
) -> (r: Result<(), hkdf::InvalidLength>)
    ensures
        r is Ok,
        final(okm)@ == hkdf_sha256_32(salt@, ikm@, info@),
{
    let (_, hk) = Hkdf::<Sha256>::extract(Some(salt), ikm);
    hk.expand(info, okm)
}

/// `aes_gcm::Aes256Gcm::new_from_slice`, then `encrypt` without associated data.
/// The key must have 32 bytes; a plaintext within the cipher's limit is then
/// always encrypted, and grows by the tag. Decryption under the same key and
/// nonce gives the plaintext back.
#[verifier::external_body]
pub(crate) fn encrypt(key: &[u8], nonce: &[u8; NONCE_LEN], plaintext: &[u8]) -> (r: Result<
    Vec<u8>,
    CipherError,
>)
    requires
        plaintext@.len() <= PLAINTEXT_MAX,
    ensures
        r is Ok <==> key@.len() == 32,
        r matches Err(e) ==> e is Key,
        r matches Ok(ct) ==> {
            &&& ct@ == aes256_gcm_seal(key@, nonce@, plaintext@)
            &&& ct@.len() == plaintext@.len() + TAG_LEN
            &&& aes256_gcm_open(key@, nonce@, ct@) == Some(plaintext@)
        },
{
    let cipher = Aes256Gcm::new_from_slice(key).map_err(CipherError::Key)?;
    cipher.encrypt(Nonce::from_slice(nonce), plaintext).map_err(CipherError::Aead)
}

/// `aes_gcm::Aes256Gcm::new_from_slice`, then `decrypt` without associated data.
/// The key must have 32 bytes. What comes back is shorter by the tag, and is
/// what encryption under the same key and nonce turns into `sealed`.
#[verifier::external_body]
pub(crate) fn decrypt(key: &[u8], nonce: &[u8; NONCE_LEN], sealed: &[u8]) -> (r: Result<
    Vec<u8>,
    CipherError,
>)
    requires
        sealed@.len() <= PLAINTEXT_MAX,
    ensures
        r matches Err(CipherError::Key(_)) <==> key@.len() != 32,
        r matches Err(CipherError::Aead(_)) ==> aes256_gcm_open(key@, nonce@, sealed@) is None,
        r matches Ok(m) ==> {
            &&& aes256_gcm_open(key@, nonce@, sealed@) == Some(m@)
            &&& m@.len() + TAG_LEN == sealed@.len()
            &&& aes256_gcm_seal(key@, nonce@, m@) == sealed@
        },
{
    let cipher = Aes256Gcm::new_from_slice(key).map_err(CipherError::Key)?;
    cipher.decrypt(Nonce::from_slice(nonce), sealed).map_err(CipherError::Aead)
}

/// `p256::PublicKey::from_sec1_bytes`, then `to_encoded_point`. Whether the
/// bytes encode a public key does not depend on the form asked for; the result
/// has the length and the tag of that form, and encodes the same public key.
#[verifier::external_body]
pub(crate) fn reencode(bytes: &[u8], compress: bool) -> (r: Result<
    Vec<u8>,
    p256::elliptic_curve::Error,
>)
    ensures
        forall|c: bool| r is Ok <==> #[trigger] p256_sec1(bytes@, c) is Some,
        r matches Ok(p) ==> {
            &&& p256_sec1(bytes@, compress) == Some(p@)
            &&& has_form(p@, compress)
            &&& forall|c: bool| #[trigger] p256_sec1(p@, c) == p256_sec1(bytes@, c)
        },
{
    let key = PublicKey::from_sec1_bytes(bytes)?;
    Ok(key.to_encoded_point(compress).as_bytes().to_vec())
}

/// `p256::ecdh::EphemeralSecret::random`, its `public_key` in compressed form,
/// and its `diffie_hellman` with the public key that `peer` encodes. The secret
/// key is random and does not leave the function, so no more is known of the
/// public key than that it is one, in that form; the shared secret is that of the two public
/// keys. Like [`random_bytes`] it panics where the operating system's generator
/// fails.
#[verifier::external_body]
pub(crate) fn ephemeral_agreement(peer: &[u8]) -> (r: Result<
    (Vec<u8>, Vec<u8>),
    p256::elliptic_curve::Error,
>)
    ensures
        r is Ok <==> p256_sec1(peer@, true) is Some,
        r matches Ok((epk, shared)) ==> {
            &&& has_form(epk@, true)
            &&& p256_sec1(epk@, true) == Some(epk@)
            &&& p256_sec1(epk@, false) is Some
            &&& shared@ == p256_shared_secret(epk@, peer@)
        },
{
    let peer = PublicKey::from_sec1_bytes(peer)?;
    let esk = EphemeralSecret::random(&mut OsRng);
    let epk = esk.public_key().to_encoded_point(true);
    let shared = esk.diffie_hellman(&peer);
    Ok((epk.as_bytes().to_vec(), shared.raw_secret_bytes().to_vec()))
}

/// `rand::rngs::OsRng.fill_bytes`: fresh bytes from the operating system, of
/// which nothing can be said. It panics where the operating system's generator
/// fails, which no argument decides.
#[verifier::external_body]
pub(crate) fn random_bytes<const N: usize>() -> (r: [u8; N]) {
    let mut bytes = [0u8; N];
    OsRng.fill_bytes(&mut bytes);
    bytes
}

/// `zeroize::Zeroize::zeroize` on an array: every byte is zero afterwards.
#[verifier::external_body]
pub(crate) fn wipe(key: &mut [u8; MASTER_KEY_LEN])
    ensures
        final(key)@ == Seq::new(MASTER_KEY_LEN as nat, |i: int| 0u8),
{
    key.zeroize();
}

/// `zeroize::Zeroize::zeroize` on a vector: its bytes are overwritten, and it is
/// empty afterwards.
#[verifier::external_body]
pub(crate) fn wipe_bytes(secret: &mut Vec<u8>)
    ensures
        final(secret)@ == Seq::<u8>::empty(),
{
    secret.zeroize();
}

/// The `Display` text of `hkdf::InvalidLength`, which is fixed.
#[verifier::external_body]
pub(crate) fn hkdf_error_text(e: &hkdf::InvalidLength) -> (r: String)
    ensures
        r@ == "invalid number of blocks, too large output"@,
{
    format!("{}", e)
}

/// The `Display` text of the cipher's `InvalidLength`, which is fixed.
#[verifier::external_body]
pub(crate) fn key_error_text(e: &aes_gcm::aes::cipher::InvalidLength) -> (r: String)
    ensures
        r@ == "Invalid Length"@,
{
    format!("{}", e)
}

/// The `Display` text of `aes_gcm::Error`, which is fixed.
#[verifier::external_body]
pub(crate) fn aead_error_text(e: &aes_gcm::Error) -> (r: String)
    ensures
        r@ == "aead::Error"@,
{
    format!("{}", e)
}

/// The `Display` text of `p256::elliptic_curve::Error`, which is fixed.
#[verifier::external_body]
pub(crate) fn curve_error_text(e: &p256::elliptic_curve::Error) -> (r: String)
    ensures
        r@ == "crypto error"@,
{
    format!("{}", e)
}

} // verus!
