//! The PIN/UV auth protocol: key agreement with the authenticator, the
//! cipher keyed by the agreed secret, PIN encryption, the auth token and the
//! verification of assertion signatures.

use vstd::prelude::*;
use vstd::string::StringSliceAdditionalSpecFns;
use vstd::slice::slice_subrange;
use crate::cose::{is_sec1_point, sec1_point, CoseKey, P256Key, ALG_ES256, CRV_P256, KTY_EC2};
use crate::error::{FidoError, FidoErrorKind, FidoResult};
use crate::primitives::{
    aes256_cbc_decrypt, aes256_cbc_decrypt_into, aes256_cbc_encrypt, aes256_cbc_encrypt_into,
    agree_ephemeral, compute_public_key, ecdh_p256_agreed, ecdsa_p256_sha256_asn1_accepts,
    ecdsa_p256_sha256_asn1_verify, generate_private_key, hmac_sha256, hmac_sha256_accepts,
    hmac_sha256_tag, public_key_of, sha256, sha256_accepts, sha256_digest, AES_BLOCK_LEN,
};

verus! {

/// Length in bytes of an encrypted PIN block and of an authentication tag.
pub const BLOCK_LEN: usize = 16;

/// The initialisation vector the protocol prescribes: one block of zeros.
pub open spec fn zero_iv() -> Seq<u8> {
    Seq::new(16, |i: int| 0u8)
}

/// The block a PIN is sent as: the first half of the SHA-256 digest of its
/// UTF-8 bytes.
pub open spec fn pin_hash_block(pin: Seq<u8>) -> Seq<u8> {
    sha256_digest(pin).subrange(0, 16)
}

/// The encrypted PIN block for `pin` under `secret`.
pub open spec fn encrypted_pin(secret: Seq<u8>, pin: Seq<u8>) -> Seq<u8> {
    aes256_cbc_encrypt(secret, zero_iv(), pin_hash_block(pin))
}

/// The authentication tag of `data` under the token key `key`: the first
/// half of the HMAC-SHA256 tag.
pub open spec fn auth_tag(key: Seq<u8>, data: Seq<u8>) -> Seq<u8> {
    hmac_sha256_tag(key, data).subrange(0, 16)
}

/// The message an assertion signature covers: the authenticator data,
/// followed by the hash of the client data.
pub open spec fn signed_message(auth_data: Seq<u8>, client_data: Seq<u8>) -> Seq<u8> {
    auth_data + client_data
}

fn first_block(bytes: &[u8]) -> (out: [u8; 16])
    requires
        bytes@.len() >= BLOCK_LEN,
    ensures
        out@ == bytes@.subrange(0, 16),
{
    let mut out = [0u8; 16];
    let mut i: usize = 0;
    while i < 16
        invariant
            0 <= i <= 16,
            bytes@.len() >= 16,
            forall|j: int| 0 <= j < i ==> out@[j] == bytes@[j],
        decreases 16 - i,
    {
        out[i] = bytes[i];
        i += 1;
    }
    assert(out@ =~= bytes@.subrange(0, 16));
    out
}

fn wipe(bytes: &mut Vec<u8>)
    ensures
        final(bytes)@ == Seq::new(old(bytes)@.len(), |i: int| 0u8),
{
    let mut i: usize = 0;
    while i < bytes.len()
        invariant
            0 <= i <= bytes@.len(),
            bytes@.len() == old(bytes)@.len(),
            forall|j: int| 0 <= j < i ==> bytes@[j] == 0,
        decreases bytes@.len() - i,
    {
        bytes[i] = 0;
        i += 1;
    }
    assert(bytes@ =~= Seq::new(old(bytes)@.len(), |i: int| 0u8));
}

/// AES-256 in CBC mode without padding, keyed and given its initialisation
/// vector. Either direction works on whole blocks only. The cipher borrows
/// its key and keeps no copy of it.
pub struct CbcCipher<'a> {
    pub key: &'a [u8; 32],
    pub iv: [u8; 16],
}

impl<'a> CbcCipher<'a> {
    /// What `plaintext` encrypts to under this cipher.
    pub open spec fn encrypted(&self, plaintext: Seq<u8>) -> Seq<u8> {
        aes256_cbc_encrypt(self.key@, self.iv@, plaintext)
    }

    /// What `ciphertext` decrypts to under this cipher.
    pub open spec fn decrypted(&self, ciphertext: Seq<u8>) -> Seq<u8> {
        aes256_cbc_decrypt(self.key@, self.iv@, ciphertext)
    }

    /// Encrypts `input`, which must be a whole number of blocks; other input
    /// is refused. The ciphertext is as long as the input, and decrypts back
    /// to it.
    pub fn encrypt_block(&self, input: &[u8]) -> (res: Option<Vec<u8>>)
        ensures
            res is Some <==> input@.len() % AES_BLOCK_LEN as nat == 0,
            res matches Some(output) ==> {
                &&& output@ == self.encrypted(input@)
                &&& output@.len() == input@.len()
                &&& self.decrypted(output@) == input@
            },
    {
        let mut output: Vec<u8> = Vec::with_capacity(input.len());
        output.resize(input.len(), 0);
        match aes256_cbc_encrypt_into(self.key, &self.iv, input, &mut output) {
            Ok(_) => Some(output),
            Err(_) => None,
        }
    }

    /// Decrypts `input`, which must be a whole number of blocks; other input
    /// is refused. The plaintext is as long as the input, and encrypts back
    /// to it.
    pub fn decrypt_block(&self, input: &[u8]) -> (res: Option<Vec<u8>>)
        ensures
            res is Some <==> input@.len() % AES_BLOCK_LEN as nat == 0,
            res matches Some(output) ==> {
                &&& output@ == self.decrypted(input@)
                &&& output@.len() == input@.len()
                &&& self.encrypted(output@) == input@
            },
    {
        let mut output: Vec<u8> = Vec::with_capacity(input.len());
        output.resize(input.len(), 0);
        match aes256_cbc_decrypt_into(self.key, &self.iv, input, &mut output) {
            Ok(_) => Some(output),
            Err(_) => None,
        }
    }
}

/// The outcome of one key agreement with an authenticator: the platform's
/// ephemeral public key, to be sent to the device, and the secret both sides
/// now share.
#[derive(Debug)]
pub struct SharedSecret {
    pub public_key: CoseKey,
    pub shared_secret: [u8; 32],
}

impl SharedSecret {
    /// Whether this is what an agreement gives whose local public key is
    /// the uncompressed point `local_public` and whose raw agreed value is
    /// `agreed`: the secret is the SHA-256 digest of the agreed value, and
    /// the public key is the point's two coordinates as a COSE key for ES256
    /// on P-256.
    pub open spec fn is_outcome_of(&self, local_public: Seq<u8>, agreed: Seq<u8>) -> bool {
        &&& self.shared_secret@ == sha256_digest(agreed)
        &&& self.public_key.kty == KTY_EC2
        &&& self.public_key.alg == ALG_ES256
        &&& self.public_key.crv == CRV_P256
        &&& self.public_key.x@ == local_public.subrange(1, 33)
        &&& self.public_key.y@ == local_public.subrange(33, 65)
    }

    /// What an agreement under `private_key` with the authenticator's key
    /// `peer_key` comes to, where `local_public` is the public key to hand
    /// on: the raw agreed value, or the kind of failure.
    ///
    /// A peer key that is not a P-256 key cannot be parsed. A peer point
    /// that the agreement does not admit gives no secret. Once agreed, a
    /// local public key that is not an uncompressed point cannot be parsed.
    pub open spec fn agreement(
        private_key: ring::agreement::EphemeralPrivateKey,
        local_public: Seq<u8>,
        peer_key: &CoseKey,
    ) -> Result<Seq<u8>, FidoErrorKind> {
        if !peer_key.is_p256() {
            Err(FidoErrorKind::ParsePublic)
        } else {
            match ecdh_p256_agreed(private_key, sec1_point(peer_key.x@, peer_key.y@)) {
                None => Err(FidoErrorKind::GenerateSecret),
                Some(agreed) => if is_sec1_point(local_public) {
                    Ok(agreed)
                } else {
                    Err(FidoErrorKind::ParsePublic)
                },
            }
        }
    }

    /// Agrees on a secret with the authenticator whose key-agreement key is
    /// `peer_key`, under a private key made for this one call.
    ///
    /// The private key is drawn at random, so success is not promised here.
    /// A secret that does come back was agreed with a P-256 peer key, and is
    /// accompanied by a P-256 public key for ES256. A peer key that is not a
    /// P-256 key never gets as far as the agreement. What is returned for
    /// each private key that may be drawn is
    /// [`SharedSecret::with_private_key`].
    pub fn new(peer_key: &CoseKey) -> (res: FidoResult<SharedSecret>)
        ensures
            match res {
                Ok(secret) => {
                    &&& peer_key.is_p256()
                    &&& secret.shared_secret@.len() == 32
                    &&& secret.public_key.is_p256()
                    &&& secret.public_key.alg == ALG_ES256
                },
                Err(e) => {
                    ||| e.0 == FidoErrorKind::GenerateKey
                    ||| e.0 == FidoErrorKind::ParsePublic
                    ||| e.0 == FidoErrorKind::GenerateSecret
                },
            },
            !peer_key.is_p256() ==> (res matches Err(e) && (e.0 == FidoErrorKind::GenerateKey || e.0
                == FidoErrorKind::ParsePublic)),
    {
        SharedSecret::with_private_key(generate_private_key(), peer_key)
    }

    /// Agrees on a secret with the authenticator whose key-agreement key is
    /// `peer_key`, given the outcome of making the private key.
    ///
    /// Where no private key was made, or it has no public key, the call
    /// fails with `GenerateKey`. Otherwise the agreement is carried out
    /// under that key, with its public key as the one to hand on, and the
    /// call returns what [`SharedSecret::agreement`] comes to.
    pub fn with_private_key(
        generated: Result<ring::agreement::EphemeralPrivateKey, ring::error::Unspecified>,
        peer_key: &CoseKey,
    ) -> (res: FidoResult<SharedSecret>)
        ensures
            match generated {
                Err(_) => res matches Err(e) && e.0 == FidoErrorKind::GenerateKey,
                Ok(private_key) => match public_key_of(private_key) {
                    None => res matches Err(e) && e.0 == FidoErrorKind::GenerateKey,
                    Some(local_public) => match SharedSecret::agreement(
                        private_key,
                        local_public,
                        peer_key,
                    ) {
                        Ok(agreed) => res matches Ok(secret) && secret.is_outcome_of(
                            local_public,
                            agreed,
                        ) && secret.public_key.is_p256(),
                        Err(kind) => res matches Err(e) && e.0 == kind,
                    },
                },
            },
    {
        let private_key = match generated {
            Ok(key) => key,
            Err(_) => {
                return Err(FidoError(FidoErrorKind::GenerateKey));
            },
        };
        let public = match compute_public_key(&private_key) {
            Ok(bytes) => bytes,
            Err(_) => {
                return Err(FidoError(FidoErrorKind::GenerateKey));
            },
        };
        SharedSecret::agree_with(private_key, public.as_slice(), peer_key)
    }

    /// Carries out the agreement once the key pair is made: `private_key`
    /// is the platform's ephemeral private key, `local_public` its public
    /// key as an uncompressed SEC1 point, and `peer_key` the authenticator's
    /// key-agreement key.
    ///
    /// The call returns what [`SharedSecret::agreement`] comes to: the
    /// secret and the public key to hand on where a value was agreed, and
    /// the failure of that kind where none was. The raw agreed value is
    /// overwritten before the call returns.
    pub fn agree_with(
        private_key: ring::agreement::EphemeralPrivateKey,
        local_public: &[u8],
        peer_key: &CoseKey,
    ) -> (res: FidoResult<SharedSecret>)
        ensures
            match SharedSecret::agreement(private_key, local_public@, peer_key) {
                Ok(agreed) => res matches Ok(secret) && secret.is_outcome_of(
                    local_public@,
                    agreed,
                ) && secret.public_key.is_p256(),
                Err(kind) => res matches Err(e) && e.0 == kind,
            },
    {
        let peer = match P256Key::from_cose(peer_key) {
            Ok(key) => key.bytes(),
            Err(_) => {
                return Err(FidoError(FidoErrorKind::ParsePublic));
            },
        };
        let mut material = match agree_ephemeral(private_key, peer.as_slice()) {
            Ok(material) => material,
            Err(_) => {
                return Err(FidoError(FidoErrorKind::GenerateSecret));
            },
        };
        let secret = SharedSecret::from_agreement(local_public, material.as_slice());
        wipe(&mut material);
        secret
    }

    /// Completes a key agreement from what it produced: `local_public`, the
    /// platform's ephemeral public key as an uncompressed SEC1 point, and
    /// `material`, the raw agreed value.
    ///
    /// The secret is the SHA-256 digest of the material. The public key is
    /// handed on as a COSE key for ES256 on P-256; where `local_public` is
    /// not an uncompressed point of the right length, the call fails with
    /// `ParsePublic`. The material must not be longer than SHA-256 can
    /// digest.
    pub fn from_agreement(local_public: &[u8], material: &[u8]) -> (res: FidoResult<SharedSecret>)
        requires
            sha256_accepts(material@.len()),
        ensures
            match res {
                Ok(secret) => {
                    &&& is_sec1_point(local_public@)
                    &&& secret.is_outcome_of(local_public@, material@)
                    &&& secret.public_key.is_p256()
                },
                Err(e) => !is_sec1_point(local_public@) && e.0 == FidoErrorKind::ParsePublic,
            },
    {
        let shared_secret = sha256(material);
        let public_key = match P256Key::from_bytes(local_public) {
            Ok(key) => key.to_cose(),
            Err(_) => {
                return Err(FidoError(FidoErrorKind::ParsePublic));
            },
        };
        Ok(SharedSecret { public_key, shared_secret })
    }

    /// The cipher, keyed by the shared secret, that encrypts what is sent to
    /// the authenticator: AES-256-CBC without padding, from an all-zero
    /// initialisation vector.
    pub fn encryptor(&self) -> (cipher: CbcCipher<'_>)
        ensures
            cipher.key@ == self.shared_secret@,
            cipher.iv@ == zero_iv(),
    {
        let cipher = CbcCipher { key: &self.shared_secret, iv: [0u8; 16] };
        assert(cipher.iv@ =~= zero_iv());
        cipher
    }

    /// Encrypts a new PIN for the authenticator: the first 16 bytes of the
    /// SHA-256 digest of the PIN's UTF-8 bytes, encrypted under the shared
    /// secret. One block goes in, so the cipher cannot refuse it, and the
    /// block decrypts back to the half digest. The PIN must not be longer
    /// than SHA-256 can digest.
    pub fn encrypt_pin(&self, pin: &str) -> (res: FidoResult<[u8; 16]>)
        requires
            sha256_accepts(pin.spec_bytes().len()),
        ensures
            res matches Ok(block) && block@ == encrypted_pin(
                self.shared_secret@,
                pin.spec_bytes(),
            ) && aes256_cbc_decrypt(self.shared_secret@, zero_iv(), block@) == pin_hash_block(
                pin.spec_bytes(),
            ),
    {
        let encryptor = self.encryptor();
        let pin_bytes = pin.as_bytes();
        let hash = sha256(pin_bytes);
        let in_bytes = first_block(hash.as_slice());
        match encryptor.encrypt_block(in_bytes.as_slice()) {
            Some(out_bytes) => {
                assert(out_bytes@.subrange(0, 16) =~= out_bytes@);
                Ok(first_block(out_bytes.as_slice()))
            },
            None => Err(FidoError(FidoErrorKind::EncryptPin)),
        }
    }

    /// The cipher, keyed by the shared secret, that decrypts what the
    /// authenticator sends: AES-256-CBC without padding, from an all-zero
    /// initialisation vector.
    pub fn decryptor(&self) -> (cipher: CbcCipher<'_>)
        ensures
            cipher.key@ == self.shared_secret@,
            cipher.iv@ == zero_iv(),
    {
        let cipher = CbcCipher { key: &self.shared_secret, iv: [0u8; 16] };
        assert(cipher.iv@ =~= zero_iv());
        cipher
    }

    /// Decrypts the PIN/UV auth token the authenticator issued and wraps it
    /// as a key for authorising commands. A token is 16 or 32 bytes long, and
    /// so is its ciphertext; a buffer of any other length fails with
    /// `DecryptPin`. The buffer is left as it was.
    pub fn decrypt_token(&self, data: &mut [u8]) -> (res: FidoResult<PinToken>)
        ensures
            final(data)@ == old(data)@,
            match res {
                Ok(token) => {
                    &&& is_token_len(old(data)@.len())
                    &&& token.key() == aes256_cbc_decrypt(
                        self.shared_secret@,
                        zero_iv(),
                        old(data)@,
                    )
                },
                Err(e) => !is_token_len(old(data)@.len()) && e.0 == FidoErrorKind::DecryptPin,
            },
    {
        let decryptor = self.decryptor();
        match decryptor.decrypt_block(data) {
            Some(out_bytes) => PinToken::new(out_bytes),
            None => Err(FidoError(FidoErrorKind::DecryptPin)),
        }
    }
}

/// A shared secret is overwritten with zeros when its owner lets go of it.
impl Drop for SharedSecret {
    fn drop(&mut self)
        ensures
            final(self).shared_secret@ == Seq::new(32, |i: int| 0u8),
        opens_invariants none
        no_unwind
    {
        let mut i: usize = 0;
        while i < 32
            invariant
                0 <= i <= 32,
                forall|j: int| 0 <= j < i ==> self.shared_secret@[j] == 0,
            decreases 32 - i,
        {
            self.shared_secret[i] = 0;
            i += 1;
        }
        assert(self.shared_secret@ =~= Seq::new(32, |i: int| 0u8));
    }
}

/// Whether a PIN/UV auth token may be `len` bytes long: the protocol knows
/// tokens of one cipher block and of two.
pub open spec fn is_token_len(len: nat) -> bool {
    len == 16 || len == 32
}

/// A decrypted PIN/UV auth token: the key under which commands are
/// authorised for the rest of the session.
pub struct PinToken {
    bytes: [u8; 32],
    len: usize,
}

impl PinToken {
    #[verifier::type_invariant]
    spec fn well_formed(self) -> bool {
        self.len == 16 || self.len == 32
    }

    /// The key material of the token.
    pub closed spec fn key(&self) -> Seq<u8> {
        self.bytes@.subrange(0, self.len as int)
    }

    /// Wraps decrypted token bytes as a key. A token is 16 or 32 bytes long;
    /// bytes of any other length fail with `DecryptPin`. The bytes handed in
    /// are overwritten once the token holds them.
    pub fn new(plaintext: Vec<u8>) -> (res: FidoResult<PinToken>)
        ensures
            match res {
                Ok(token) => is_token_len(plaintext@.len()) && token.key() == plaintext@,
                Err(e) => !is_token_len(plaintext@.len()) && e.0 == FidoErrorKind::DecryptPin,
            },
    {
        let mut plaintext = plaintext;
        let ghost given = plaintext@;
        let len = plaintext.len();
        if len != BLOCK_LEN && len != 2 * BLOCK_LEN {
            wipe(&mut plaintext);
            return Err(FidoError(FidoErrorKind::DecryptPin));
        }
        let mut bytes = [0u8; 32];
        let mut i: usize = 0;
        while i < len
            invariant
                0 <= i <= len <= 32,
                plaintext@ == given,
                given.len() == len,
                forall|j: int| 0 <= j < i ==> bytes@[j] == given[j],
            decreases len - i,
        {
            bytes[i] = plaintext[i];
            i += 1;
        }
        wipe(&mut plaintext);
        assert(bytes@.subrange(0, len as int) =~= given);
        Ok(PinToken { bytes, len })
    }

    /// The parameter that authorises a command: the first 16 bytes of the
    /// HMAC-SHA256 tag of `data` under the token. The data must not be
    /// longer than HMAC-SHA256 can sign.
    pub fn auth(&self, data: &[u8]) -> (tag: [u8; 16])
        requires
            hmac_sha256_accepts(data@.len()),
        ensures
            tag@ == auth_tag(self.key(), data@),
            tag@.len() == BLOCK_LEN,
    {
        proof {
            use_type_invariant(self);
        }
        let key = slice_subrange(self.bytes.as_slice(), 0, self.len);
        let signature = hmac_sha256(key, data);
        first_block(signature.as_slice())
    }
}

/// A token's key is overwritten with zeros when its owner lets go of it.
impl Drop for PinToken {
    fn drop(&mut self)
        ensures
            final(self).key() == Seq::new(old(self).key().len(), |i: int| 0u8),
        opens_invariants none
        no_unwind
    {
        proof {
            use_type_invariant(&*self);
        }
        let mut i: usize = 0;
        while i < 32
            invariant
                0 <= i <= 32,
                self.len == old(self).len,
                self.len == 16 || self.len == 32,
                forall|j: int| 0 <= j < i ==> self.bytes@[j] == 0,
            decreases 32 - i,
        {
            self.bytes[i] = 0;
            i += 1;
        }
        assert(self.key() =~= Seq::new(old(self).key().len(), |i: int| 0u8));
    }
}

/// Checks an assertion signature: whether `signature`, in ASN.1 DER, is a
/// valid ECDSA P-256 SHA-256 signature under the raw public key
/// `public_key` of the authenticator data followed by the client data hash.
/// An invalid signature is an answer, not a failure. The two parts of the
/// message must together not be longer than SHA-256 can digest.
pub fn verify_signature(
    public_key: &[u8],
    client_data: &[u8],
    auth_data: &[u8],
    signature: &[u8],
) -> (valid: bool)
    requires
        sha256_accepts(auth_data@.len() + client_data@.len()),
    ensures
        valid == ecdsa_p256_sha256_asn1_accepts(
            public_key@,
            signed_message(auth_data@, client_data@),
            signature@,
        ),
{
    let mut msg: Vec<u8> = Vec::new();
    msg.extend_from_slice(auth_data);
    msg.extend_from_slice(client_data);
    assert(msg@ =~= signed_message(auth_data@, client_data@));
    ecdsa_p256_sha256_asn1_verify(public_key, msg.as_slice(), signature).is_ok()
}

} // verus!
