//! Boundary conversion for curve values: the rich side of a 32-byte point
//! or scalar container.
//!
//! A rich curve value is carried as its canonical 32-byte encoding, checked
//! once by the curve library at the decode boundary. `encode` back into a
//! container is an infallible byte copy; `decode` fails with a `DecodeError`
//! exactly when the bytes are not a canonical encoding.

use vstd::prelude::*;
use crate::errors::DecodeError;
use crate::layout::{bytes_eq, pod_bytes};
use crate::pod::{CompressedRistretto, DecryptHandle, ElGamalPubkey, PedersenCommitment, Scalar};

verus! {

/// Whether 32 bytes are the canonical encoding of a Ristretto point.
/// Decided by the curve library; a function of the bytes alone.
pub uninterp spec fn point_decodes(s: Seq<u8>) -> bool;

/// Whether 32 bytes are the canonical little-endian encoding of a scalar
/// below the group order. Decided by the curve library; a function of the
/// bytes alone.
pub uninterp spec fn scalar_decodes(s: Seq<u8>) -> bool;

/// Relies on `curve25519_dalek::ristretto::CompressedRistretto::decompress`:
/// it returns `Some` exactly when the 32 bytes are the canonical encoding of
/// a Ristretto point, and that depends on the bytes alone.
#[verifier::external_body]
fn check_point(b: &[u8; 32]) -> (r: bool)
    ensures
        r == point_decodes(b@),
{
    curve25519_dalek::ristretto::CompressedRistretto(*b).decompress().is_some()
}

/// Relies on `curve25519_dalek::scalar::Scalar::from_canonical_bytes`: it
/// returns a value exactly when the 32 bytes are the canonical little-endian
/// encoding of a scalar below the group order, and that depends on the bytes
/// alone.
#[verifier::external_body]
fn check_scalar(b: &[u8; 32]) -> (r: bool)
    ensures
        r == scalar_decodes(b@),
{
    bool::from(curve25519_dalek::scalar::Scalar::from_canonical_bytes(*b).is_some())
}

/// A rich curve point, carried as its canonical 32-byte encoding. The curve
/// library has checked the encoding at the decode boundary; the codec itself
/// never interprets it. Produced by the `decode` operations, consumed by the
/// `encode` operations.
#[derive(Clone, Copy)]
pub struct CurvePoint(pub [u8; 32]);

impl View for CurvePoint {
    type V = Seq<u8>;

    open spec fn view(&self) -> Seq<u8> {
        self.0@
    }
}

/// A rich scalar, carried as its canonical 32-byte little-endian encoding,
/// checked by the curve library at the decode boundary.
#[derive(Clone, Copy)]
pub struct FieldScalar(pub [u8; 32]);

impl View for FieldScalar {
    type V = Seq<u8>;

    open spec fn view(&self) -> Seq<u8> {
        self.0@
    }
}

/// What decoding 32 bytes into a rich curve point yields: the point carrying
/// exactly those bytes when they decode, an error when they do not.
pub open spec fn point_decode_post(s: Seq<u8>, r: Result<CurvePoint, DecodeError>) -> bool {
    match r {
        Ok(p) => point_decodes(s) && p@ == s,
        Err(_) => !point_decodes(s),
    }
}

/// What decoding 32 bytes into a rich scalar yields: the scalar carrying
/// exactly those bytes when they decode, an error when they do not.
pub open spec fn scalar_decode_post(s: Seq<u8>, r: Result<FieldScalar, DecodeError>) -> bool {
    match r {
        Ok(x) => scalar_decodes(s) && x@ == s,
        Err(_) => !scalar_decodes(s),
    }
}

impl CurvePoint {
    /// A well-formed rich point carries a canonical encoding.
    pub open spec fn wf(&self) -> bool {
        point_decodes(self@)
    }

    /// Rich constructor: accepts exactly the canonical point encodings.
    pub fn try_new(bytes: [u8; 32]) -> (r: Result<CurvePoint, DecodeError>)
        ensures
            point_decode_post(bytes@, r),
            r is Ok ==> (r->Ok_0).wf(),
    {
        if check_point(&bytes) {
            Ok(CurvePoint(bytes))
        } else {
            Err(DecodeError)
        }
    }

    /// The canonical encoding, unchanged: always exactly 32 bytes.
    pub fn as_bytes(&self) -> (r: &[u8])
        ensures
            r@ == self@,
            r@.len() == 32,
    {
        pod_bytes(&self.0)
    }

    /// Byte-wise equality; canonical encodings make it point equality.
    pub fn equals(&self, other: &Self) -> (r: bool)
        ensures
            r == (self@ == other@),
    {
        bytes_eq(self.as_bytes(), other.as_bytes())
    }

    /// Encode as a compressed-point container: an infallible byte copy.
    pub fn encode(&self) -> (r: CompressedRistretto)
        ensures
            r@ == self@,
    {
        CompressedRistretto(self.0)
    }

    /// Encode as a public-key container: an infallible byte copy.
    pub fn encode_pubkey(&self) -> (r: ElGamalPubkey)
        ensures
            r@ == self@,
    {
        ElGamalPubkey(self.0)
    }

    /// Encode as a commitment container: an infallible byte copy.
    pub fn encode_commitment(&self) -> (r: PedersenCommitment)
        ensures
            r@ == self@,
    {
        PedersenCommitment(self.0)
    }

    /// Encode as a decrypt-handle container: an infallible byte copy.
    pub fn encode_handle(&self) -> (r: DecryptHandle)
        ensures
            r@ == self@,
    {
        DecryptHandle(self.0)
    }
}

impl FieldScalar {
    /// A well-formed rich scalar carries a canonical encoding.
    pub open spec fn wf(&self) -> bool {
        scalar_decodes(self@)
    }

    /// Rich constructor: accepts exactly the canonical scalar encodings.
    pub fn try_new(bytes: [u8; 32]) -> (r: Result<FieldScalar, DecodeError>)
        ensures
            scalar_decode_post(bytes@, r),
            r is Ok ==> (r->Ok_0).wf(),
    {
        if check_scalar(&bytes) {
            Ok(FieldScalar(bytes))
        } else {
            Err(DecodeError)
        }
    }

    /// The canonical encoding, unchanged: always exactly 32 bytes.
    pub fn as_bytes(&self) -> (r: &[u8])
        ensures
            r@ == self@,
            r@.len() == 32,
    {
        pod_bytes(&self.0)
    }

    /// Byte-wise equality; canonical encodings make it scalar equality.
    pub fn equals(&self, other: &Self) -> (r: bool)
        ensures
            r == (self@ == other@),
    {
        bytes_eq(self.as_bytes(), other.as_bytes())
    }

    /// Encode as a scalar container: an infallible byte copy.
    pub fn encode(&self) -> (r: Scalar)
        ensures
            r@ == self@,
    {
        Scalar(self.0)
    }
}

impl CompressedRistretto {
    /// Decode into a rich curve point: succeeds exactly when the bytes are
    /// the canonical encoding of a Ristretto point.
    pub fn decode(&self) -> (r: Result<CurvePoint, DecodeError>)
        ensures
            point_decode_post(self@, r),
            r is Ok ==> (r->Ok_0).wf(),
    {
        CurvePoint::try_new(self.0)
    }
}

impl ElGamalPubkey {
    /// Decode into a rich curve point: succeeds exactly when the bytes are
    /// the canonical encoding of a Ristretto point.
    pub fn decode(&self) -> (r: Result<CurvePoint, DecodeError>)
        ensures
            point_decode_post(self@, r),
            r is Ok ==> (r->Ok_0).wf(),
    {
        CurvePoint::try_new(self.0)
    }
}

impl PedersenCommitment {
    /// Decode into a rich curve point: succeeds exactly when the bytes are
    /// the canonical encoding of a Ristretto point.
    pub fn decode(&self) -> (r: Result<CurvePoint, DecodeError>)
        ensures
            point_decode_post(self@, r),
            r is Ok ==> (r->Ok_0).wf(),
    {
        CurvePoint::try_new(self.0)
    }
}

impl DecryptHandle {
    /// Decode into a rich curve point: succeeds exactly when the bytes are
    /// the canonical encoding of a Ristretto point.
    pub fn decode(&self) -> (r: Result<CurvePoint, DecodeError>)
        ensures
            point_decode_post(self@, r),
            r is Ok ==> (r->Ok_0).wf(),
    {
        CurvePoint::try_new(self.0)
    }
}

impl Scalar {
    /// Decode into a rich scalar: succeeds exactly when the bytes are the
    /// canonical little-endian encoding of a scalar below the group order.
    pub fn decode(&self) -> (r: Result<FieldScalar, DecodeError>)
        ensures
            scalar_decode_post(self@, r),
            r is Ok ==> (r->Ok_0).wf(),
    {
        FieldScalar::try_new(self.0)
    }
}

/// Round trip for points: decoding any encoding of a well-formed rich point
/// yields the point itself.
pub proof fn lemma_point_round_trip(
    v: CurvePoint,
    encoded: Seq<u8>,
    r: Result<CurvePoint, DecodeError>,
)
    requires
        v.wf(),
        encoded == v@,
        point_decode_post(encoded, r),
    ensures
        r == Ok::<CurvePoint, DecodeError>(v),
{
    let p = r->Ok_0;
    assert(p.0 =~= v.0);
}

/// Round trip for scalars: decoding any encoding of a well-formed rich
/// scalar yields the scalar itself.
pub proof fn lemma_scalar_round_trip(
    v: FieldScalar,
    encoded: Seq<u8>,
    r: Result<FieldScalar, DecodeError>,
)
    requires
        v.wf(),
        encoded == v@,
        scalar_decode_post(encoded, r),
    ensures
        r == Ok::<FieldScalar, DecodeError>(v),
{
    let x = r->Ok_0;
    assert(x.0 =~= v.0);
}

} // verus!
