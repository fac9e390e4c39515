//! The fixed-layout value registry: one distinct byte-container type per
//! cryptographic concept, each with a declared exact width.
//!
//! The structural operations shared by every container never inspect or
//! validate the cryptographic meaning of the bytes:
//! - `zero_value` returns the all-zero instance (the empty-slot sentinel);
//! - `from_bytes` wraps a byte slice of exactly the declared width;
//! - `as_bytes` returns the underlying bytes, unchanged;
//! - `equals` is byte-wise equality, with no normalization step;
//! - `debug_render` prints the raw bytes as hexadecimal, not a decode.
//!
//! None of them can fail at runtime, resize, truncate or pad; the only
//! failure-prone operations are the boundary conversions in `curve` and
//! `composite`.

use vstd::prelude::*;
use crate::layout::{all_zero, bytes_eq, hex_render, pod_bytes, pod_from_bytes, render_hex,
    zeroed_array};

verus! {

/// Scalar field element: 32 bytes, zero-valid.
#[derive(Clone, Copy)]
pub struct Scalar(pub [u8; 32]);

impl View for Scalar {
    type V = Seq<u8>;

    open spec fn view(&self) -> Seq<u8> {
        self.0@
    }
}

impl Scalar {
    /// The all-zero instance: the canonical default/empty value.
    pub fn zero_value() -> (r: Self)
        ensures
            all_zero(r@),
            r@.len() == 32,
    {
        Scalar(zeroed_array())
    }

    /// Structural constructor: wraps exactly 32 bytes, unchanged.
    pub fn from_bytes(bytes: &[u8]) -> (r: Self)
        requires
            bytes@.len() == 32,
        ensures
            r@ == bytes@,
    {
        Scalar(pod_from_bytes(bytes))
    }

    /// The underlying bytes, unchanged: always exactly 32 bytes.
    pub fn as_bytes(&self) -> (r: &[u8])
        ensures
            r@ == self@,
            r@.len() == 32,
    {
        pod_bytes(&self.0)
    }

    /// Byte-wise equality.
    pub fn equals(&self, other: &Self) -> (r: bool)
        ensures
            r == (self@ == other@),
    {
        bytes_eq(self.as_bytes(), other.as_bytes())
    }

    /// Diagnostic rendering of the raw bytes as lower-case hexadecimal.
    pub fn debug_render(&self) -> (r: String)
        ensures
            r@ == hex_render(self@),
    {
        render_hex(self.as_bytes())
    }
}

/// Zero-default consistency for `Scalar`: two instances whose bytes are all
/// zero are the same value, so the zero value equals any instance built from
/// all-zero bytes.
pub proof fn lemma_scalar_zero_default(z: Scalar, x: Scalar)
    requires
        all_zero(z@),
        all_zero(x@),
    ensures
        z == x,
{
    assert(z.0 =~= x.0);
}

/// Compressed elliptic-curve point: 32 bytes. Every pattern is container-valid, though not necessarily a valid point encoding.
#[derive(Clone, Copy)]
pub struct CompressedRistretto(pub [u8; 32]);

impl View for CompressedRistretto {
    type V = Seq<u8>;

    open spec fn view(&self) -> Seq<u8> {
        self.0@
    }
}

impl CompressedRistretto {
    /// The all-zero instance: the canonical default/empty value.
    pub fn zero_value() -> (r: Self)
        ensures
            all_zero(r@),
            r@.len() == 32,
    {
        CompressedRistretto(zeroed_array())
    }

    /// Structural constructor: wraps exactly 32 bytes, unchanged.
    pub fn from_bytes(bytes: &[u8]) -> (r: Self)
        requires
            bytes@.len() == 32,
        ensures
            r@ == bytes@,
    {
        CompressedRistretto(pod_from_bytes(bytes))
    }

    /// The underlying bytes, unchanged: always exactly 32 bytes.
    pub fn as_bytes(&self) -> (r: &[u8])
        ensures
            r@ == self@,
            r@.len() == 32,
    {
        pod_bytes(&self.0)
    }

    /// Byte-wise equality.
    pub fn equals(&self, other: &Self) -> (r: bool)
        ensures
            r == (self@ == other@),
    {
        bytes_eq(self.as_bytes(), other.as_bytes())
    }

    /// Diagnostic rendering of the raw bytes as lower-case hexadecimal.
    pub fn debug_render(&self) -> (r: String)
        ensures
            r@ == hex_render(self@),
    {
        render_hex(self.as_bytes())
    }
}

/// Zero-default consistency for `CompressedRistretto`: two instances whose bytes are all
/// zero are the same value, so the zero value equals any instance built from
/// all-zero bytes.
pub proof fn lemma_compressed_ristretto_zero_default(z: CompressedRistretto, x: CompressedRistretto)
    requires
        all_zero(z@),
        all_zero(x@),
    ensures
        z == x,
{
    assert(z.0 =~= x.0);
}

/// ElGamal ciphertext: 64 bytes, the commitment followed by the handle, each a 32-byte compressed point.
#[derive(Clone, Copy)]
pub struct ElGamalCiphertext(pub [u8; 64]);

impl View for ElGamalCiphertext {
    type V = Seq<u8>;

    open spec fn view(&self) -> Seq<u8> {
        self.0@
    }
}

impl ElGamalCiphertext {
    /// The all-zero instance: the canonical default/empty value.
    pub fn zero_value() -> (r: Self)
        ensures
            all_zero(r@),
            r@.len() == 64,
    {
        ElGamalCiphertext(zeroed_array())
    }

    /// Structural constructor: wraps exactly 64 bytes, unchanged.
    pub fn from_bytes(bytes: &[u8]) -> (r: Self)
        requires
            bytes@.len() == 64,
        ensures
            r@ == bytes@,
    {
        ElGamalCiphertext(pod_from_bytes(bytes))
    }

    /// The underlying bytes, unchanged: always exactly 64 bytes.
    pub fn as_bytes(&self) -> (r: &[u8])
        ensures
            r@ == self@,
            r@.len() == 64,
    {
        pod_bytes(&self.0)
    }

    /// Byte-wise equality.
    pub fn equals(&self, other: &Self) -> (r: bool)
        ensures
            r == (self@ == other@),
    {
        bytes_eq(self.as_bytes(), other.as_bytes())
    }

    /// Diagnostic rendering of the raw bytes as lower-case hexadecimal.
    pub fn debug_render(&self) -> (r: String)
        ensures
            r@ == hex_render(self@),
    {
        render_hex(self.as_bytes())
    }
}

impl Default for ElGamalCiphertext {
    /// The default is the all-zero empty-slot value.
    fn default() -> (r: Self)
        ensures
            all_zero(r@),
            r@.len() == 64,
    {
        ElGamalCiphertext::zero_value()
    }
}

/// Zero-default consistency for `ElGamalCiphertext`: two instances whose bytes are all
/// zero are the same value, so the zero value equals any instance built from
/// all-zero bytes.
pub proof fn lemma_elgamal_ciphertext_zero_default(z: ElGamalCiphertext, x: ElGamalCiphertext)
    requires
        all_zero(z@),
        all_zero(x@),
    ensures
        z == x,
{
    assert(z.0 =~= x.0);
}

/// ElGamal public key: a 32-byte compressed point.
#[derive(Clone, Copy)]
pub struct ElGamalPubkey(pub [u8; 32]);

impl View for ElGamalPubkey {
    type V = Seq<u8>;

    open spec fn view(&self) -> Seq<u8> {
        self.0@
    }
}

impl ElGamalPubkey {
    /// The all-zero instance: the canonical default/empty value.
    pub fn zero_value() -> (r: Self)
        ensures
            all_zero(r@),
            r@.len() == 32,
    {
        ElGamalPubkey(zeroed_array())
    }

    /// Structural constructor: wraps exactly 32 bytes, unchanged.
    pub fn from_bytes(bytes: &[u8]) -> (r: Self)
        requires
            bytes@.len() == 32,
        ensures
            r@ == bytes@,
    {
        ElGamalPubkey(pod_from_bytes(bytes))
    }

    /// The underlying bytes, unchanged: always exactly 32 bytes.
    pub fn as_bytes(&self) -> (r: &[u8])
        ensures
            r@ == self@,
            r@.len() == 32,
    {
        pod_bytes(&self.0)
    }

    /// Byte-wise equality.
    pub fn equals(&self, other: &Self) -> (r: bool)
        ensures
            r == (self@ == other@),
    {
        bytes_eq(self.as_bytes(), other.as_bytes())
    }

    /// Diagnostic rendering of the raw bytes as lower-case hexadecimal.
    pub fn debug_render(&self) -> (r: String)
        ensures
            r@ == hex_render(self@),
    {
        render_hex(self.as_bytes())
    }
}

impl Default for ElGamalPubkey {
    /// The default is the all-zero empty-slot value.
    fn default() -> (r: Self)
        ensures
            all_zero(r@),
            r@.len() == 32,
    {
        ElGamalPubkey::zero_value()
    }
}

/// Zero-default consistency for `ElGamalPubkey`: two instances whose bytes are all
/// zero are the same value, so the zero value equals any instance built from
/// all-zero bytes.
pub proof fn lemma_elgamal_pubkey_zero_default(z: ElGamalPubkey, x: ElGamalPubkey)
    requires
        all_zero(z@),
        all_zero(x@),
    ensures
        z == x,
{
    assert(z.0 =~= x.0);
}

/// Pedersen commitment: a 32-byte compressed point.
#[derive(Clone, Copy)]
pub struct PedersenCommitment(pub [u8; 32]);

impl View for PedersenCommitment {
    type V = Seq<u8>;

    open spec fn view(&self) -> Seq<u8> {
        self.0@
    }
}

impl PedersenCommitment {
    /// The all-zero instance: the canonical default/empty value.
    pub fn zero_value() -> (r: Self)
        ensures
            all_zero(r@),
            r@.len() == 32,
    {
        PedersenCommitment(zeroed_array())
    }

    /// Structural constructor: wraps exactly 32 bytes, unchanged.
    pub fn from_bytes(bytes: &[u8]) -> (r: Self)
        requires
            bytes@.len() == 32,
        ensures
            r@ == bytes@,
    {
        PedersenCommitment(pod_from_bytes(bytes))
    }

    /// The underlying bytes, unchanged: always exactly 32 bytes.
    pub fn as_bytes(&self) -> (r: &[u8])
        ensures
            r@ == self@,
            r@.len() == 32,
    {
        pod_bytes(&self.0)
    }

    /// Byte-wise equality.
    pub fn equals(&self, other: &Self) -> (r: bool)
        ensures
            r == (self@ == other@),
    {
        bytes_eq(self.as_bytes(), other.as_bytes())
    }

    /// Diagnostic rendering of the raw bytes as lower-case hexadecimal.
    pub fn debug_render(&self) -> (r: String)
        ensures
            r@ == hex_render(self@),
    {
        render_hex(self.as_bytes())
    }
}

impl Default for PedersenCommitment {
    /// The default is the all-zero empty-slot value.
    fn default() -> (r: Self)
        ensures
            all_zero(r@),
            r@.len() == 32,
    {
        PedersenCommitment::zero_value()
    }
}

/// Zero-default consistency for `PedersenCommitment`: two instances whose bytes are all
/// zero are the same value, so the zero value equals any instance built from
/// all-zero bytes.
pub proof fn lemma_pedersen_commitment_zero_default(z: PedersenCommitment, x: PedersenCommitment)
    requires
        all_zero(z@),
        all_zero(x@),
    ensures
        z == x,
{
    assert(z.0 =~= x.0);
}

/// Decrypt handle: a 32-byte compressed point.
#[derive(Clone, Copy)]
pub struct DecryptHandle(pub [u8; 32]);

impl View for DecryptHandle {
    type V = Seq<u8>;

    open spec fn view(&self) -> Seq<u8> {
        self.0@
    }
}

impl DecryptHandle {
    /// The all-zero instance: the canonical default/empty value.
    pub fn zero_value() -> (r: Self)
        ensures
            all_zero(r@),
            r@.len() == 32,
    {
        DecryptHandle(zeroed_array())
    }

    /// Structural constructor: wraps exactly 32 bytes, unchanged.
    pub fn from_bytes(bytes: &[u8]) -> (r: Self)
        requires
            bytes@.len() == 32,
        ensures
            r@ == bytes@,
    {
        DecryptHandle(pod_from_bytes(bytes))
    }

    /// The underlying bytes, unchanged: always exactly 32 bytes.
    pub fn as_bytes(&self) -> (r: &[u8])
        ensures
            r@ == self@,
            r@.len() == 32,
    {
        pod_bytes(&self.0)
    }

    /// Byte-wise equality.
    pub fn equals(&self, other: &Self) -> (r: bool)
        ensures
            r == (self@ == other@),
    {
        bytes_eq(self.as_bytes(), other.as_bytes())
    }

    /// Diagnostic rendering of the raw bytes as lower-case hexadecimal.
    pub fn debug_render(&self) -> (r: String)
        ensures
            r@ == hex_render(self@),
    {
        render_hex(self.as_bytes())
    }
}

impl Default for DecryptHandle {
    /// The default is the all-zero empty-slot value.
    fn default() -> (r: Self)
        ensures
            all_zero(r@),
            r@.len() == 32,
    {
        DecryptHandle::zero_value()
    }
}

/// Zero-default consistency for `DecryptHandle`: two instances whose bytes are all
/// zero are the same value, so the zero value equals any instance built from
/// all-zero bytes.
pub proof fn lemma_decrypt_handle_zero_default(z: DecryptHandle, x: DecryptHandle)
    requires
        all_zero(z@),
        all_zero(x@),
    ensures
        z == x,
{
    assert(z.0 =~= x.0);
}

/// Equality proof transcript: 192 bytes, structural only.
#[derive(Clone, Copy)]
pub struct EqualityProof(pub [u8; 192]);

impl View for EqualityProof {
    type V = Seq<u8>;

    open spec fn view(&self) -> Seq<u8> {
        self.0@
    }
}

impl EqualityProof {
    /// The all-zero instance: the canonical default/empty value.
    pub fn zero_value() -> (r: Self)
        ensures
            all_zero(r@),
            r@.len() == 192,
    {
        EqualityProof(zeroed_array())
    }

    /// Structural constructor: wraps exactly 192 bytes, unchanged.
    pub fn from_bytes(bytes: &[u8]) -> (r: Self)
        requires
            bytes@.len() == 192,
        ensures
            r@ == bytes@,
    {
        EqualityProof(pod_from_bytes(bytes))
    }

    /// The underlying bytes, unchanged: always exactly 192 bytes.
    pub fn as_bytes(&self) -> (r: &[u8])
        ensures
            r@ == self@,
            r@.len() == 192,
    {
        pod_bytes(&self.0)
    }

    /// Byte-wise equality.
    pub fn equals(&self, other: &Self) -> (r: bool)
        ensures
            r == (self@ == other@),
    {
        bytes_eq(self.as_bytes(), other.as_bytes())
    }

    /// Diagnostic rendering of the raw bytes as lower-case hexadecimal.
    pub fn debug_render(&self) -> (r: String)
        ensures
            r@ == hex_render(self@),
    {
        render_hex(self.as_bytes())
    }
}

/// Validity proof transcript: 160 bytes, structural only.
#[derive(Clone, Copy)]
pub struct ValidityProof(pub [u8; 160]);

impl View for ValidityProof {
    type V = Seq<u8>;

    open spec fn view(&self) -> Seq<u8> {
        self.0@
    }
}

impl ValidityProof {
    /// The all-zero instance: the canonical default/empty value.
    pub fn zero_value() -> (r: Self)
        ensures
            all_zero(r@),
            r@.len() == 160,
    {
        ValidityProof(zeroed_array())
    }

    /// Structural constructor: wraps exactly 160 bytes, unchanged.
    pub fn from_bytes(bytes: &[u8]) -> (r: Self)
        requires
            bytes@.len() == 160,
        ensures
            r@ == bytes@,
    {
        ValidityProof(pod_from_bytes(bytes))
    }

    /// The underlying bytes, unchanged: always exactly 160 bytes.
    pub fn as_bytes(&self) -> (r: &[u8])
        ensures
            r@ == self@,
            r@.len() == 160,
    {
        pod_bytes(&self.0)
    }

    /// Byte-wise equality.
    pub fn equals(&self, other: &Self) -> (r: bool)
        ensures
            r == (self@ == other@),
    {
        bytes_eq(self.as_bytes(), other.as_bytes())
    }

    /// Diagnostic rendering of the raw bytes as lower-case hexadecimal.
    pub fn debug_render(&self) -> (r: String)
        ensures
            r@ == hex_render(self@),
    {
        render_hex(self.as_bytes())
    }
}

/// Aggregated validity proof transcript: 160 bytes, structural only.
#[derive(Clone, Copy)]
pub struct AggregatedValidityProof(pub [u8; 160]);

impl View for AggregatedValidityProof {
    type V = Seq<u8>;

    open spec fn view(&self) -> Seq<u8> {
        self.0@
    }
}

impl AggregatedValidityProof {
    /// The all-zero instance: the canonical default/empty value.
    pub fn zero_value() -> (r: Self)
        ensures
            all_zero(r@),
            r@.len() == 160,
    {
        AggregatedValidityProof(zeroed_array())
    }

    /// Structural constructor: wraps exactly 160 bytes, unchanged.
    pub fn from_bytes(bytes: &[u8]) -> (r: Self)
        requires
            bytes@.len() == 160,
        ensures
            r@ == bytes@,
    {
        AggregatedValidityProof(pod_from_bytes(bytes))
    }

    /// The underlying bytes, unchanged: always exactly 160 bytes.
    pub fn as_bytes(&self) -> (r: &[u8])
        ensures
            r@ == self@,
            r@.len() == 160,
    {
        pod_bytes(&self.0)
    }

    /// Byte-wise equality.
    pub fn equals(&self, other: &Self) -> (r: bool)
        ensures
            r == (self@ == other@),
    {
        bytes_eq(self.as_bytes(), other.as_bytes())
    }

    /// Diagnostic rendering of the raw bytes as lower-case hexadecimal.
    pub fn debug_render(&self) -> (r: String)
        ensures
            r@ == hex_render(self@),
    {
        render_hex(self.as_bytes())
    }
}

/// Zero-balance proof transcript: 96 bytes, structural only.
#[derive(Clone, Copy)]
pub struct ZeroBalanceProof(pub [u8; 96]);

impl View for ZeroBalanceProof {
    type V = Seq<u8>;

    open spec fn view(&self) -> Seq<u8> {
        self.0@
    }
}

impl ZeroBalanceProof {
    /// The all-zero instance: the canonical default/empty value.
    pub fn zero_value() -> (r: Self)
        ensures
            all_zero(r@),
            r@.len() == 96,
    {
        ZeroBalanceProof(zeroed_array())
    }

    /// Structural constructor: wraps exactly 96 bytes, unchanged.
    pub fn from_bytes(bytes: &[u8]) -> (r: Self)
        requires
            bytes@.len() == 96,
        ensures
            r@ == bytes@,
    {
        ZeroBalanceProof(pod_from_bytes(bytes))
    }

    /// The underlying bytes, unchanged: always exactly 96 bytes.
    pub fn as_bytes(&self) -> (r: &[u8])
        ensures
            r@ == self@,
            r@.len() == 96,
    {
        pod_bytes(&self.0)
    }

    /// Byte-wise equality.
    pub fn equals(&self, other: &Self) -> (r: bool)
        ensures
            r == (self@ == other@),
    {
        bytes_eq(self.as_bytes(), other.as_bytes())
    }

    /// Diagnostic rendering of the raw bytes as lower-case hexadecimal.
    pub fn debug_render(&self) -> (r: String)
        ensures
            r@ == hex_render(self@),
    {
        render_hex(self.as_bytes())
    }
}

/// Fee sigma proof transcript: 256 bytes, structural only.
#[derive(Clone, Copy)]
pub struct FeeSigmaProof(pub [u8; 256]);

impl View for FeeSigmaProof {
    type V = Seq<u8>;

    open spec fn view(&self) -> Seq<u8> {
        self.0@
    }
}

impl FeeSigmaProof {
    /// The all-zero instance: the canonical default/empty value.
    pub fn zero_value() -> (r: Self)
        ensures
            all_zero(r@),
            r@.len() == 256,
    {
        FeeSigmaProof(zeroed_array())
    }

    /// Structural constructor: wraps exactly 256 bytes, unchanged.
    pub fn from_bytes(bytes: &[u8]) -> (r: Self)
        requires
            bytes@.len() == 256,
        ensures
            r@ == bytes@,
    {
        FeeSigmaProof(pod_from_bytes(bytes))
    }

    /// The underlying bytes, unchanged: always exactly 256 bytes.
    pub fn as_bytes(&self) -> (r: &[u8])
        ensures
            r@ == self@,
            r@.len() == 256,
    {
        pod_bytes(&self.0)
    }

    /// Byte-wise equality.
    pub fn equals(&self, other: &Self) -> (r: bool)
        ensures
            r == (self@ == other@),
    {
        bytes_eq(self.as_bytes(), other.as_bytes())
    }

    /// Diagnostic rendering of the raw bytes as lower-case hexadecimal.
    pub fn debug_render(&self) -> (r: String)
        ensures
            r@ == hex_render(self@),
    {
        render_hex(self.as_bytes())
    }
}

/// Range proof transcript for 64-bit amounts: 672 bytes, structural only.
#[derive(Clone, Copy)]
pub struct RangeProof64(pub [u8; 672]);

impl View for RangeProof64 {
    type V = Seq<u8>;

    open spec fn view(&self) -> Seq<u8> {
        self.0@
    }
}

impl RangeProof64 {
    /// The all-zero instance: the canonical default/empty value.
    pub fn zero_value() -> (r: Self)
        ensures
            all_zero(r@),
            r@.len() == 672,
    {
        RangeProof64(zeroed_array())
    }

    /// Structural constructor: wraps exactly 672 bytes, unchanged.
    pub fn from_bytes(bytes: &[u8]) -> (r: Self)
        requires
            bytes@.len() == 672,
        ensures
            r@ == bytes@,
    {
        RangeProof64(pod_from_bytes(bytes))
    }

    /// The underlying bytes, unchanged: always exactly 672 bytes.
    pub fn as_bytes(&self) -> (r: &[u8])
        ensures
            r@ == self@,
            r@.len() == 672,
    {
        pod_bytes(&self.0)
    }

    /// Byte-wise equality.
    pub fn equals(&self, other: &Self) -> (r: bool)
        ensures
            r == (self@ == other@),
    {
        bytes_eq(self.as_bytes(), other.as_bytes())
    }

    /// Diagnostic rendering of the raw bytes as lower-case hexadecimal.
    pub fn debug_render(&self) -> (r: String)
        ensures
            r@ == hex_render(self@),
    {
        render_hex(self.as_bytes())
    }
}

/// Range proof transcript for 128-bit amounts: 736 bytes, structural only.
#[derive(Clone, Copy)]
pub struct RangeProof128(pub [u8; 736]);

impl View for RangeProof128 {
    type V = Seq<u8>;

    open spec fn view(&self) -> Seq<u8> {
        self.0@
    }
}

impl RangeProof128 {
    /// The all-zero instance: the canonical default/empty value.
    pub fn zero_value() -> (r: Self)
        ensures
            all_zero(r@),
            r@.len() == 736,
    {
        RangeProof128(zeroed_array())
    }

    /// Structural constructor: wraps exactly 736 bytes, unchanged.
    pub fn from_bytes(bytes: &[u8]) -> (r: Self)
        requires
            bytes@.len() == 736,
        ensures
            r@ == bytes@,
    {
        RangeProof128(pod_from_bytes(bytes))
    }

    /// The underlying bytes, unchanged: always exactly 736 bytes.
    pub fn as_bytes(&self) -> (r: &[u8])
        ensures
            r@ == self@,
            r@.len() == 736,
    {
        pod_bytes(&self.0)
    }

    /// Byte-wise equality.
    pub fn equals(&self, other: &Self) -> (r: bool)
        ensures
            r == (self@ == other@),
    {
        bytes_eq(self.as_bytes(), other.as_bytes())
    }

    /// Diagnostic rendering of the raw bytes as lower-case hexadecimal.
    pub fn debug_render(&self) -> (r: String)
        ensures
            r@ == hex_render(self@),
    {
        render_hex(self.as_bytes())
    }
}

/// Range proof transcript for 256-bit amounts: 800 bytes, structural only.
#[derive(Clone, Copy)]
pub struct RangeProof256(pub [u8; 800]);

impl View for RangeProof256 {
    type V = Seq<u8>;

    open spec fn view(&self) -> Seq<u8> {
        self.0@
    }
}

impl RangeProof256 {
    /// The all-zero instance: the canonical default/empty value.
    pub fn zero_value() -> (r: Self)
        ensures
            all_zero(r@),
            r@.len() == 800,
    {
        RangeProof256(zeroed_array())
    }

    /// Structural constructor: wraps exactly 800 bytes, unchanged.
    pub fn from_bytes(bytes: &[u8]) -> (r: Self)
        requires
            bytes@.len() == 800,
        ensures
            r@ == bytes@,
    {
        RangeProof256(pod_from_bytes(bytes))
    }

    /// The underlying bytes, unchanged: always exactly 800 bytes.
    pub fn as_bytes(&self) -> (r: &[u8])
        ensures
            r@ == self@,
            r@.len() == 800,
    {
        pod_bytes(&self.0)
    }

    /// Byte-wise equality.
    pub fn equals(&self, other: &Self) -> (r: bool)
        ensures
            r == (self@ == other@),
    {
        bytes_eq(self.as_bytes(), other.as_bytes())
    }

    /// Diagnostic rendering of the raw bytes as lower-case hexadecimal.
    pub fn debug_render(&self) -> (r: String)
        ensures
            r@ == hex_render(self@),
    {
        render_hex(self.as_bytes())
    }
}

/// Authenticated symmetric ciphertext: 36 bytes, the 12-byte nonce followed by the 24-byte ciphertext body.
#[derive(Clone, Copy)]
pub struct AeCiphertext(pub [u8; 36]);

impl View for AeCiphertext {
    type V = Seq<u8>;

    open spec fn view(&self) -> Seq<u8> {
        self.0@
    }
}

impl AeCiphertext {
    /// The all-zero instance: the canonical default/empty value.
    pub fn zero_value() -> (r: Self)
        ensures
            all_zero(r@),
            r@.len() == 36,
    {
        AeCiphertext(zeroed_array())
    }

    /// Structural constructor: wraps exactly 36 bytes, unchanged.
    pub fn from_bytes(bytes: &[u8]) -> (r: Self)
        requires
            bytes@.len() == 36,
        ensures
            r@ == bytes@,
    {
        AeCiphertext(pod_from_bytes(bytes))
    }

    /// The underlying bytes, unchanged: always exactly 36 bytes.
    pub fn as_bytes(&self) -> (r: &[u8])
        ensures
            r@ == self@,
            r@.len() == 36,
    {
        pod_bytes(&self.0)
    }

    /// Byte-wise equality.
    pub fn equals(&self, other: &Self) -> (r: bool)
        ensures
            r == (self@ == other@),
    {
        bytes_eq(self.as_bytes(), other.as_bytes())
    }

    /// Diagnostic rendering of the raw bytes as lower-case hexadecimal.
    pub fn debug_render(&self) -> (r: String)
        ensures
            r@ == hex_render(self@),
    {
        render_hex(self.as_bytes())
    }
}

impl Default for AeCiphertext {
    /// The default is the all-zero empty-slot value.
    fn default() -> (r: Self)
        ensures
            all_zero(r@),
            r@.len() == 36,
    {
        AeCiphertext::zero_value()
    }
}

/// Zero-default consistency for `AeCiphertext`: two instances whose bytes are all
/// zero are the same value, so the zero value equals any instance built from
/// all-zero bytes.
pub proof fn lemma_ae_ciphertext_zero_default(z: AeCiphertext, x: AeCiphertext)
    requires
        all_zero(z@),
        all_zero(x@),
    ensures
        z == x,
{
    assert(z.0 =~= x.0);
}

/// Public keys of a transfer instruction: 96 bytes, three concatenated 32-byte compressed public keys (source, destination, auditor).
#[derive(Clone, Copy)]
pub struct TransferPubkeys(pub [u8; 96]);

impl View for TransferPubkeys {
    type V = Seq<u8>;

    open spec fn view(&self) -> Seq<u8> {
        self.0@
    }
}

impl TransferPubkeys {
    /// The all-zero instance: the canonical default/empty value.
    pub fn zero_value() -> (r: Self)
        ensures
            all_zero(r@),
            r@.len() == 96,
    {
        TransferPubkeys(zeroed_array())
    }

    /// Structural constructor: wraps exactly 96 bytes, unchanged.
    pub fn from_bytes(bytes: &[u8]) -> (r: Self)
        requires
            bytes@.len() == 96,
        ensures
            r@ == bytes@,
    {
        TransferPubkeys(pod_from_bytes(bytes))
    }

    /// The underlying bytes, unchanged: always exactly 96 bytes.
    pub fn as_bytes(&self) -> (r: &[u8])
        ensures
            r@ == self@,
            r@.len() == 96,
    {
        pod_bytes(&self.0)
    }

    /// Byte-wise equality.
    pub fn equals(&self, other: &Self) -> (r: bool)
        ensures
            r == (self@ == other@),
    {
        bytes_eq(self.as_bytes(), other.as_bytes())
    }

    /// Diagnostic rendering of the raw bytes as lower-case hexadecimal.
    pub fn debug_render(&self) -> (r: String)
        ensures
            r@ == hex_render(self@),
    {
        render_hex(self.as_bytes())
    }
}

/// Public keys of a transfer-with-fee instruction: 128 bytes, four concatenated 32-byte compressed public keys (source, destination, auditor, withdraw-withheld authority).
#[derive(Clone, Copy)]
pub struct TransferWithFeePubkeys(pub [u8; 128]);

impl View for TransferWithFeePubkeys {
    type V = Seq<u8>;

    open spec fn view(&self) -> Seq<u8> {
        self.0@
    }
}

impl TransferWithFeePubkeys {
    /// The all-zero instance: the canonical default/empty value.
    pub fn zero_value() -> (r: Self)
        ensures
            all_zero(r@),
            r@.len() == 128,
    {
        TransferWithFeePubkeys(zeroed_array())
    }

    /// Structural constructor: wraps exactly 128 bytes, unchanged.
    pub fn from_bytes(bytes: &[u8]) -> (r: Self)
        requires
            bytes@.len() == 128,
        ensures
            r@ == bytes@,
    {
        TransferWithFeePubkeys(pod_from_bytes(bytes))
    }

    /// The underlying bytes, unchanged: always exactly 128 bytes.
    pub fn as_bytes(&self) -> (r: &[u8])
        ensures
            r@ == self@,
            r@.len() == 128,
    {
        pod_bytes(&self.0)
    }

    /// Byte-wise equality.
    pub fn equals(&self, other: &Self) -> (r: bool)
        ensures
            r == (self@ == other@),
    {
        bytes_eq(self.as_bytes(), other.as_bytes())
    }

    /// Diagnostic rendering of the raw bytes as lower-case hexadecimal.
    pub fn debug_render(&self) -> (r: String)
        ensures
            r@ == hex_render(self@),
    {
        render_hex(self.as_bytes())
    }
}

/// Transfer amount encryption: 128 bytes, a 32-byte commitment followed by three 32-byte decrypt handles (source, destination, auditor).
#[derive(Clone, Copy)]
pub struct TransferAmountEncryption(pub [u8; 128]);

impl View for TransferAmountEncryption {
    type V = Seq<u8>;

    open spec fn view(&self) -> Seq<u8> {
        self.0@
    }
}

impl TransferAmountEncryption {
    /// The all-zero instance: the canonical default/empty value.
    pub fn zero_value() -> (r: Self)
        ensures
            all_zero(r@),
            r@.len() == 128,
    {
        TransferAmountEncryption(zeroed_array())
    }

    /// Structural constructor: wraps exactly 128 bytes, unchanged.
    pub fn from_bytes(bytes: &[u8]) -> (r: Self)
        requires
            bytes@.len() == 128,
        ensures
            r@ == bytes@,
    {
        TransferAmountEncryption(pod_from_bytes(bytes))
    }

    /// The underlying bytes, unchanged: always exactly 128 bytes.
    pub fn as_bytes(&self) -> (r: &[u8])
        ensures
            r@ == self@,
            r@.len() == 128,
    {
        pod_bytes(&self.0)
    }

    /// Byte-wise equality.
    pub fn equals(&self, other: &Self) -> (r: bool)
        ensures
            r == (self@ == other@),
    {
        bytes_eq(self.as_bytes(), other.as_bytes())
    }

    /// Diagnostic rendering of the raw bytes as lower-case hexadecimal.
    pub fn debug_render(&self) -> (r: String)
        ensures
            r@ == hex_render(self@),
    {
        render_hex(self.as_bytes())
    }
}

/// Fee encryption: 96 bytes, a 32-byte commitment followed by two 32-byte decrypt handles (destination, withdraw-withheld authority).
#[derive(Clone, Copy)]
pub struct FeeEncryption(pub [u8; 96]);

impl View for FeeEncryption {
    type V = Seq<u8>;

    open spec fn view(&self) -> Seq<u8> {
        self.0@
    }
}

impl FeeEncryption {
    /// The all-zero instance: the canonical default/empty value.
    pub fn zero_value() -> (r: Self)
        ensures
            all_zero(r@),
            r@.len() == 96,
    {
        FeeEncryption(zeroed_array())
    }

    /// Structural constructor: wraps exactly 96 bytes, unchanged.
    pub fn from_bytes(bytes: &[u8]) -> (r: Self)
        requires
            bytes@.len() == 96,
        ensures
            r@ == bytes@,
    {
        FeeEncryption(pod_from_bytes(bytes))
    }

    /// The underlying bytes, unchanged: always exactly 96 bytes.
    pub fn as_bytes(&self) -> (r: &[u8])
        ensures
            r@ == self@,
            r@.len() == 96,
    {
        pod_bytes(&self.0)
    }

    /// Byte-wise equality.
    pub fn equals(&self, other: &Self) -> (r: bool)
        ensures
            r == (self@ == other@),
    {
        bytes_eq(self.as_bytes(), other.as_bytes())
    }

    /// Diagnostic rendering of the raw bytes as lower-case hexadecimal.
    pub fn debug_render(&self) -> (r: String)
        ensures
            r@ == hex_render(self@),
    {
        render_hex(self.as_bytes())
    }
}

/// Packed numeric fee rate fields: 10 bytes, the fee rate in basis points as two little-endian bytes followed by the maximum fee as eight little-endian bytes.
#[derive(Clone, Copy)]
pub struct FeeParameters(pub [u8; 10]);

impl View for FeeParameters {
    type V = Seq<u8>;

    open spec fn view(&self) -> Seq<u8> {
        self.0@
    }
}

impl FeeParameters {
    /// The all-zero instance: the canonical default/empty value.
    pub fn zero_value() -> (r: Self)
        ensures
            all_zero(r@),
            r@.len() == 10,
    {
        FeeParameters(zeroed_array())
    }

    /// Structural constructor: wraps exactly 10 bytes, unchanged.
    pub fn from_bytes(bytes: &[u8]) -> (r: Self)
        requires
            bytes@.len() == 10,
        ensures
            r@ == bytes@,
    {
        FeeParameters(pod_from_bytes(bytes))
    }

    /// The underlying bytes, unchanged: always exactly 10 bytes.
    pub fn as_bytes(&self) -> (r: &[u8])
        ensures
            r@ == self@,
            r@.len() == 10,
    {
        pod_bytes(&self.0)
    }

    /// Byte-wise equality.
    pub fn equals(&self, other: &Self) -> (r: bool)
        ensures
            r == (self@ == other@),
    {
        bytes_eq(self.as_bytes(), other.as_bytes())
    }

    /// Diagnostic rendering of the raw bytes as lower-case hexadecimal.
    pub fn debug_render(&self) -> (r: String)
        ensures
            r@ == hex_render(self@),
    {
        render_hex(self.as_bytes())
    }
}

} // verus!
