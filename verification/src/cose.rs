//! Elliptic-curve public keys as they travel between platform and
//! authenticator: as the fields of a COSE key map, and as a raw SEC1 point.

use vstd::prelude::*;
use vstd::slice::slice_subrange;
use crate::error::{FidoError, FidoErrorKind, FidoResult};

verus! {

/// COSE key type of a two-coordinate elliptic-curve key.
pub const KTY_EC2: i64 = 2;

/// COSE algorithm identifier of ECDSA with SHA-256.
pub const ALG_ES256: i64 = -7;

/// COSE algorithm identifier of ECDH-ES with HKDF-256, under which an
/// authenticator publishes its key-agreement key.
pub const ALG_ECDH_ES_HKDF256: i64 = -25;

/// COSE curve identifier of NIST P-256.
pub const CRV_P256: i64 = 1;

/// Length of one P-256 coordinate in bytes.
pub const COORDINATE_LEN: usize = 32;

/// Length of an uncompressed SEC1 point on P-256: a tag byte and two
/// coordinates.
pub const SEC1_POINT_LEN: usize = 65;

/// Tag byte that opens an uncompressed SEC1 point.
pub const SEC1_UNCOMPRESSED: u8 = 0x04;

/// The fields of a COSE key map that describe an elliptic-curve public key.
#[derive(Clone, Debug)]
pub struct CoseKey {
    pub kty: i64,
    pub alg: i64,
    pub crv: i64,
    pub x: Vec<u8>,
    pub y: Vec<u8>,
}

impl CoseKey {
    /// Whether the map describes a P-256 public key: an EC2 key for ES256 or
    /// ECDH-ES on curve P-256, with two coordinates of 32 bytes each.
    pub open spec fn is_p256(&self) -> bool {
        &&& self.kty == KTY_EC2
        &&& (self.alg == ALG_ES256 || self.alg == ALG_ECDH_ES_HKDF256)
        &&& self.crv == CRV_P256
        &&& self.x@.len() == COORDINATE_LEN
        &&& self.y@.len() == COORDINATE_LEN
    }
}

/// The encoding of a point with coordinates `x` and `y` as an uncompressed
/// SEC1 point: the tag byte, then `x`, then `y`.
pub open spec fn sec1_point(x: Seq<u8>, y: Seq<u8>) -> Seq<u8> {
    seq![SEC1_UNCOMPRESSED] + x + y
}

/// Whether `bytes` has the shape of an uncompressed SEC1 point on P-256.
pub open spec fn is_sec1_point(bytes: Seq<u8>) -> bool {
    bytes.len() == SEC1_POINT_LEN && bytes[0] == SEC1_UNCOMPRESSED
}

/// A P-256 public key as its two big-endian coordinates.
#[derive(Debug)]
pub struct P256Key {
    pub x: [u8; 32],
    pub y: [u8; 32],
}

fn coordinate(bytes: &[u8]) -> (out: [u8; 32])
    requires
        bytes@.len() == COORDINATE_LEN,
    ensures
        out@ == bytes@,
{
    let mut out = [0u8; 32];
    let mut i: usize = 0;
    while i < 32
        invariant
            0 <= i <= 32,
            bytes@.len() == 32,
            forall|j: int| 0 <= j < i ==> out@[j] == bytes@[j],
        decreases 32 - i,
    {
        out[i] = bytes[i];
        i += 1;
    }
    assert(out@ =~= bytes@);
    out
}

impl P256Key {
    /// Reads the key out of a COSE key map. Any map that does not describe a
    /// P-256 key is refused as being of the wrong key type.
    pub fn from_cose(cose: &CoseKey) -> (res: FidoResult<P256Key>)
        ensures
            match res {
                Ok(key) => cose.is_p256() && key.x@ == cose.x@ && key.y@ == cose.y@,
                Err(e) => !cose.is_p256() && e.0 == FidoErrorKind::KeyType,
            },
    {
        if cose.kty != KTY_EC2 || (cose.alg != ALG_ES256 && cose.alg != ALG_ECDH_ES_HKDF256) {
            return Err(FidoError(FidoErrorKind::KeyType));
        }
        if cose.crv != CRV_P256 || cose.x.len() != COORDINATE_LEN || cose.y.len()
            != COORDINATE_LEN {
            return Err(FidoError(FidoErrorKind::KeyType));
        }
        Ok(P256Key { x: coordinate(cose.x.as_slice()), y: coordinate(cose.y.as_slice()) })
    }

    /// Reads the key out of an uncompressed SEC1 point. Input of another
    /// length, or with another tag byte, is refused as being of the wrong key
    /// type. Whether the point lies on the curve is not examined here.
    pub fn from_bytes(bytes: &[u8]) -> (res: FidoResult<P256Key>)
        ensures
            match res {
                Ok(key) => is_sec1_point(bytes@) && key.x@ == bytes@.subrange(1, 33) && key.y@
                    == bytes@.subrange(33, 65),
                Err(e) => !is_sec1_point(bytes@) && e.0 == FidoErrorKind::KeyType,
            },
    {
        if bytes.len() != SEC1_POINT_LEN || bytes[0] != SEC1_UNCOMPRESSED {
            return Err(FidoError(FidoErrorKind::KeyType));
        }
        Ok(
            P256Key {
                x: coordinate(slice_subrange(bytes, 1, 33)),
                y: coordinate(slice_subrange(bytes, 33, 65)),
            },
        )
    }

    /// The key as a COSE key map for ES256 on P-256.
    pub fn to_cose(&self) -> (cose: CoseKey)
        ensures
            cose.is_p256(),
            cose.kty == KTY_EC2,
            cose.alg == ALG_ES256,
            cose.crv == CRV_P256,
            cose.x@ == self.x@,
            cose.y@ == self.y@,
    {
        let mut x: Vec<u8> = Vec::new();
        x.extend_from_slice(self.x.as_slice());
        let mut y: Vec<u8> = Vec::new();
        y.extend_from_slice(self.y.as_slice());
        assert(x@ =~= self.x@);
        assert(y@ =~= self.y@);
        CoseKey { kty: KTY_EC2, alg: ALG_ES256, crv: CRV_P256, x, y }
    }

    /// The key as an uncompressed SEC1 point.
    pub fn bytes(&self) -> (out: [u8; 65])
        ensures
            out@ == sec1_point(self.x@, self.y@),
            is_sec1_point(out@),
            out@.subrange(1, 33) == self.x@,
            out@.subrange(33, 65) == self.y@,
    {
        let mut out = [0u8; 65];
        out[0] = SEC1_UNCOMPRESSED;
        let mut i: usize = 0;
        while i < 32
            invariant
                0 <= i <= 32,
                out@[0] == SEC1_UNCOMPRESSED,
                forall|j: int| 0 <= j < i ==> out@[1 + j] == self.x@[j],
                forall|j: int| 0 <= j < i ==> out@[33 + j] == self.y@[j],
            decreases 32 - i,
        {
            out[1 + i] = self.x[i];
            out[33 + i] = self.y[i];
            i += 1;
        }
        assert(out@ =~= sec1_point(self.x@, self.y@));
        assert(out@.subrange(1, 33) =~= self.x@);
        assert(out@.subrange(33, 65) =~= self.y@);
        out
    }
}

} // verus!
