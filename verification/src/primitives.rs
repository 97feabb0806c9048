//! The cryptographic primitives this crate takes from `ring` and
//! `rust-crypto`.
//!
//! Nothing in this module is proved. Each function calls into one of the two
//! crates, and its contract records what that crate's source shows of the
//! call. Where the outcome is a fixed function of the arguments it is given a
//! name, so that the rest of the crate can say exactly which bytes it
//! returns.

use vstd::prelude::*;

verus! {

/// The SHA-256 digest of `data`.
pub uninterp spec fn sha256_digest(data: Seq<u8>) -> Seq<u8>;

/// The HMAC-SHA256 tag of `data` under `key`.
pub uninterp spec fn hmac_sha256_tag(key: Seq<u8>, data: Seq<u8>) -> Seq<u8>;

/// The AES-256 encryption of `plaintext` in CBC mode without padding, under
/// `key` and starting from `iv`.
pub uninterp spec fn aes256_cbc_encrypt(key: Seq<u8>, iv: Seq<u8>, plaintext: Seq<u8>) -> Seq<u8>;

/// The AES-256 decryption of `ciphertext` in CBC mode without padding, under
/// `key` and starting from `iv`.
pub uninterp spec fn aes256_cbc_decrypt(key: Seq<u8>, iv: Seq<u8>, ciphertext: Seq<u8>) -> Seq<u8>;

/// Whether `signature`, an ASN.1 DER encoded ECDSA signature, is valid for
/// `message` under the uncompressed P-256 point `public_key`, with SHA-256 as
/// the digest.
pub uninterp spec fn ecdsa_p256_sha256_asn1_accepts(
    public_key: Seq<u8>,
    message: Seq<u8>,
    signature: Seq<u8>,
) -> bool;

/// The public key that belongs to `private_key`, as ring encodes it, where
/// ring can compute it.
pub uninterp spec fn public_key_of(private_key: ring::agreement::EphemeralPrivateKey) -> Option<
    Seq<u8>,
>;

/// The raw value that `private_key` and the public key `peer`, read as a
/// point on P-256, agree on, where ring admits the agreement.
pub uninterp spec fn ecdh_p256_agreed(
    private_key: ring::agreement::EphemeralPrivateKey,
    peer: Seq<u8>,
) -> Option<Seq<u8>>;

/// Length of a SHA-256 digest, and of an HMAC-SHA256 tag, in bytes.
pub const SHA256_OUTPUT_LEN: usize = 32;

/// Length of the block SHA-256 works on, in bytes.
pub const SHA256_BLOCK_LEN: usize = 64;

/// Length of an AES block in bytes.
pub const AES_BLOCK_LEN: usize = 16;

/// Whether SHA-256 can digest `len` bytes: the length in bits must fit in 64
/// bits.
pub open spec fn sha256_accepts(len: nat) -> bool {
    len < 0x2000_0000_0000_0000
}

/// Whether HMAC-SHA256 can sign `data_len` bytes: they are digested after
/// one block of key material.
pub open spec fn hmac_sha256_accepts(data_len: nat) -> bool {
    sha256_accepts(data_len + SHA256_BLOCK_LEN as nat)
}

#[verifier::external_type_specification]
#[verifier::external_body]
pub struct ExEphemeralPrivateKey(ring::agreement::EphemeralPrivateKey);

#[verifier::external_type_specification]
#[verifier::external_body]
pub struct ExUnspecified(ring::error::Unspecified);

#[verifier::external_type_specification]
#[verifier::external_body]
pub struct ExSymmetricCipherError(crypto::symmetriccipher::SymmetricCipherError);

#[verifier::external_type_specification]
#[verifier::external_body]
pub struct ExBufferResult(crypto::buffer::BufferResult);

/// `ring::digest::digest` with `SHA256`. The call panics on input too long
/// for the algorithm, which the precondition rules out; what it returns is
/// the 32-byte digest.
#[verifier::external_body]
pub(crate) fn sha256(data: &[u8]) -> (out: [u8; 32])
    requires
        sha256_accepts(data@.len()),
    ensures
        out@ == sha256_digest(data@),
{
    let digest = ring::digest::digest(&ring::digest::SHA256, data);
    let mut out = [0u8; 32];
    out.copy_from_slice(digest.as_ref());
    out
}

/// `ring::hmac::sign` under an `HMAC_SHA256` key made of `key` by
/// `ring::hmac::Key::new`. Both calls panic on input too long for SHA-256,
/// which the preconditions rule out; what comes back is the 32-byte tag.
#[verifier::external_body]
pub(crate) fn hmac_sha256(key: &[u8], data: &[u8]) -> (out: [u8; 32])
    requires
        sha256_accepts(key@.len()),
        hmac_sha256_accepts(data@.len()),
    ensures
        out@ == hmac_sha256_tag(key@, data@),
{
    let key = ring::hmac::Key::new(ring::hmac::HMAC_SHA256, key);
    let tag = ring::hmac::sign(&key, data);
    let mut out = [0u8; 32];
    out.copy_from_slice(tag.as_ref());
    out
}

/// `encrypt` on the encryptor that `crypto::aes::cbc_encryptor` builds for
/// a 256-bit key with `NoPadding`, fed all of `input` at once and writing to
/// `output`, which is as long as the input.
///
/// The block engine fails exactly when the input does not end on a block
/// boundary. On success `output` holds the ciphertext, and decrypting that
/// ciphertext under the same key and initialisation vector gives the input
/// back: the decryptor undoes, block by block, what the encryptor does.
#[verifier::external_body]
pub(crate) fn aes256_cbc_encrypt_into(
    key: &[u8; 32],
    iv: &[u8; 16],
    input: &[u8],
    output: &mut Vec<u8>,
) -> (res: Result<crypto::buffer::BufferResult, crypto::symmetriccipher::SymmetricCipherError>)
    requires
        old(output)@.len() == input@.len(),
    ensures
        final(output)@.len() == input@.len(),
        res is Ok <==> input@.len() % AES_BLOCK_LEN as nat == 0,
        res is Ok ==> final(output)@ == aes256_cbc_encrypt(key@, iv@, input@),
        res is Ok ==> aes256_cbc_decrypt(key@, iv@, final(output)@) == input@,
{
    let mut encryptor = crypto::aes::cbc_encryptor(
        crypto::aes::KeySize::KeySize256,
        key,
        iv,
        crypto::blockmodes::NoPadding,
    );
    let mut reader = crypto::buffer::RefReadBuffer::new(input);
    let mut writer = crypto::buffer::RefWriteBuffer::new(output);
    encryptor.encrypt(&mut reader, &mut writer, true)
}

/// `decrypt` on the decryptor that `crypto::aes::cbc_decryptor` builds for
/// a 256-bit key with `NoPadding`, fed all of `input` at once and writing to
/// `output`, which is as long as the input.
///
/// The block engine fails exactly when the input does not end on a block
/// boundary. On success `output` holds the plaintext, and encrypting that
/// plaintext under the same key and initialisation vector gives the input
/// back: the encryptor undoes, block by block, what the decryptor does.
#[verifier::external_body]
pub(crate) fn aes256_cbc_decrypt_into(
    key: &[u8; 32],
    iv: &[u8; 16],
    input: &[u8],
    output: &mut Vec<u8>,
) -> (res: Result<crypto::buffer::BufferResult, crypto::symmetriccipher::SymmetricCipherError>)
    requires
        old(output)@.len() == input@.len(),
    ensures
        final(output)@.len() == input@.len(),
        res is Ok <==> input@.len() % AES_BLOCK_LEN as nat == 0,
        res is Ok ==> final(output)@ == aes256_cbc_decrypt(key@, iv@, input@),
        res is Ok ==> aes256_cbc_encrypt(key@, iv@, final(output)@) == input@,
{
    let mut decryptor = crypto::aes::cbc_decryptor(
        crypto::aes::KeySize::KeySize256,
        key,
        iv,
        crypto::blockmodes::NoPadding,
    );
    let mut reader = crypto::buffer::RefReadBuffer::new(input);
    let mut writer = crypto::buffer::RefWriteBuffer::new(output);
    decryptor.decrypt(&mut reader, &mut writer, true)
}

/// `ring::agreement::EphemeralPrivateKey::generate` for `ECDH_P256`, drawing
/// from a `SystemRandom`. Every call draws anew, so nothing is claimed of
/// the key that comes back.
#[verifier::external_body]
pub(crate) fn generate_private_key() -> (res: Result<
    ring::agreement::EphemeralPrivateKey,
    ring::error::Unspecified,
>) {
    let rng = ring::rand::SystemRandom::new();
    ring::agreement::EphemeralPrivateKey::generate(&ring::agreement::ECDH_P256, &rng)
}

/// `ring::agreement::EphemeralPrivateKey::compute_public_key`, with the
/// bytes of the public key copied out. They are a function of the private
/// key alone; nothing more is claimed of them, and the caller examines what
/// it got.
#[verifier::external_body]
pub(crate) fn compute_public_key(private_key: &ring::agreement::EphemeralPrivateKey) -> (res:
    Result<Vec<u8>, ring::error::Unspecified>)
    ensures
        match res {
            Ok(bytes) => public_key_of(*private_key) == Some(bytes@),
            Err(_) => public_key_of(*private_key) is None,
        },
{
    match private_key.compute_public_key() {
        Ok(public_key) => Ok(public_key.as_ref().to_vec()),
        Err(e) => Err(e),
    }
}

/// `ring::agreement::agree_ephemeral` against `peer` taken as an `ECDH_P256`
/// public key, with the raw key material copied out. Whether the call
/// succeeds, and with which material, is a function of the private key and
/// the peer's bytes. It fails unless the private key is for P-256 as well,
/// and on that curve the material is one field element of 32 bytes.
#[verifier::external_body]
pub(crate) fn agree_ephemeral(private_key: ring::agreement::EphemeralPrivateKey, peer: &[u8]) -> (res:
    Result<Vec<u8>, ring::error::Unspecified>)
    ensures
        match res {
            Ok(material) => ecdh_p256_agreed(private_key, peer@) == Some(material@),
            Err(_) => ecdh_p256_agreed(private_key, peer@) is None,
        },
        res matches Ok(material) ==> material@.len() == 32,
{
    let peer = ring::agreement::UnparsedPublicKey::new(&ring::agreement::ECDH_P256, peer);
    ring::agreement::agree_ephemeral(private_key, &peer, |material| material.to_vec())
}

/// `verify` on a `ring::signature::UnparsedPublicKey` for
/// `ECDSA_P256_SHA256_ASN1`, each argument passed through an
/// `untrusted::Input` first. The call digests the message, and would panic
/// on one too long for SHA-256, which the precondition rules out. It
/// succeeds exactly when the signature is valid.
#[verifier::external_body]
pub(crate) fn ecdsa_p256_sha256_asn1_verify(
    public_key: &[u8],
    message: &[u8],
    signature: &[u8],
) -> (res: Result<(), ring::error::Unspecified>)
    requires
        sha256_accepts(message@.len()),
    ensures
        res is Ok <==> ecdsa_p256_sha256_asn1_accepts(public_key@, message@, signature@),
{
    let public_key = untrusted::Input::from(public_key);
    let message = untrusted::Input::from(message);
    let signature = untrusted::Input::from(signature);
    let peer_public_key = ring::signature::UnparsedPublicKey::new(
        &ring::signature::ECDSA_P256_SHA256_ASN1,
        public_key.as_slice_less_safe(),
    );
    peer_public_key.verify(message.as_slice_less_safe(), signature.as_slice_less_safe())
}

} // verus!
