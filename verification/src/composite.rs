//! Boundary conversion for composite values: byte containers that are pure
//! concatenations of independently defined sub-components at statically
//! known offsets.
//!
//! Decoding partitions the fixed-width byte sequence into fixed-width
//! sub-slices and decodes each independently, failing as soon as any
//! sub-slice fails, with no partial result. Encoding concatenates the
//! sub-component encodings in declared field order, with no length prefixes
//! and no padding. `FeeParameters` is the one type whose decode performs
//! integer-width reinterpretation instead: little-endian fields at fixed
//! byte offsets, never bit-packed across byte boundaries.

use vstd::prelude::*;
use vstd::bytes::{lemma_auto_spec_u16_to_from_le_bytes, lemma_auto_spec_u64_to_from_le_bytes,
    spec_u16_from_le_bytes, spec_u16_to_le_bytes, spec_u64_from_le_bytes, spec_u64_to_le_bytes,
    u16_from_le_bytes, u16_to_le_bytes, u64_from_le_bytes, u64_to_le_bytes};
use crate::curve::{point_decode_post, point_decodes, CurvePoint};
use crate::errors::DecodeError;
use crate::layout::{pod_from_bytes, sub_bytes};
use crate::pod::{AeCiphertext, CompressedRistretto, ElGamalCiphertext, FeeEncryption,
    FeeParameters, TransferAmountEncryption, TransferPubkeys, TransferWithFeePubkeys};

verus! {

/// Decodes the 32-byte sub-slice of `bytes` that starts at `start` as a
/// curve point.
fn decode_point_at(bytes: &[u8], start: usize) -> (r: Result<CurvePoint, DecodeError>)
    requires
        start + 32 <= bytes@.len(),
    ensures
        point_decode_post(bytes@.subrange(start as int, start as int + 32), r),
        r is Ok ==> (r->Ok_0).wf(),
{
    let n = bytes.len();
    proof {
        assert(start + 32 <= n);
    }
    let sub = sub_bytes(bytes, start, start + 32);
    CompressedRistretto::from_bytes(sub).decode()
}

/// Rich ElGamal ciphertext: the Pedersen commitment and the decrypt handle.
#[derive(Clone, Copy)]
pub struct ElGamalCiphertextData {
    pub commitment: CurvePoint,
    pub handle: CurvePoint,
}

impl ElGamalCiphertextData {
    /// Every component is well-formed.
    pub open spec fn wf(&self) -> bool {
        self.commitment.wf() && self.handle.wf()
    }

    /// Encode: the concatenation of the 2 component encodings, in declared
    /// field order.
    pub fn encode(&self) -> (r: ElGamalCiphertext)
        ensures
            r@ == self.commitment@ + self.handle@,
    {
        let mut buf: Vec<u8> = Vec::new();
        buf.extend_from_slice(self.commitment.as_bytes());
        buf.extend_from_slice(self.handle.as_bytes());
        proof {
            assert(buf@ =~= self.commitment@ + self.handle@);
        }
        ElGamalCiphertext::from_bytes(buf.as_slice())
    }
}

/// What decoding a 64-byte `ElGamalCiphertext` container yields: every 32-byte
/// sub-slice decodes and the components carry exactly those sub-slices, or
/// some sub-slice does not decode and the whole decode fails.
pub open spec fn elgamal_ciphertext_decode_post(s: Seq<u8>, r: Result<ElGamalCiphertextData, DecodeError>) -> bool {
    match r {
        Ok(d) => {
            &&& d.wf()
            &&& point_decodes(s.subrange(0, 32))
            &&& d.commitment@ == s.subrange(0, 32)
            &&& point_decodes(s.subrange(32, 64))
            &&& d.handle@ == s.subrange(32, 64)
        },
        Err(_) => {
            ||| !point_decodes(s.subrange(0, 32))
            ||| !point_decodes(s.subrange(32, 64))
        },
    }
}

impl ElGamalCiphertext {
    /// Decode by partitioning into 2 sub-slices of 32 bytes at fixed
    /// offsets and decoding each independently; fails as soon as any
    /// sub-slice fails, with no partial result.
    pub fn decode(&self) -> (r: Result<ElGamalCiphertextData, DecodeError>)
        ensures
            elgamal_ciphertext_decode_post(self@, r),
    {
        let bytes = self.as_bytes();
        let commitment = match decode_point_at(bytes, 0) {
            Ok(p) => p,
            Err(e) => { return Err(e); },
        };
        let handle = match decode_point_at(bytes, 32) {
            Ok(p) => p,
            Err(e) => { return Err(e); },
        };
        Ok(ElGamalCiphertextData { commitment, handle })
    }
}

/// Composite partition for `ElGamalCiphertext`: decoding the concatenation of component
/// encodings yields exactly those components when every component decodes,
/// and fails when any does not.
pub proof fn lemma_elgamal_ciphertext_partition(
    a0: CurvePoint,
    a1: CurvePoint,
    s: Seq<u8>,
    r: Result<ElGamalCiphertextData, DecodeError>,
)
    requires
        s == a0@ + a1@,
        elgamal_ciphertext_decode_post(s, r),
    ensures
        (a0.wf() && a1.wf()) ==> r == Ok::<ElGamalCiphertextData, DecodeError>((ElGamalCiphertextData { commitment: a0, handle: a1 })),
        !(a0.wf() && a1.wf()) ==> r is Err,
{
    assert(s.subrange(0, 32) =~= a0@);
    assert(s.subrange(32, 64) =~= a1@);
    if a0.wf() && a1.wf() {
        let d = r->Ok_0;
        assert(d.commitment.0 =~= a0.0);
        assert(d.handle.0 =~= a1.0);
    }
}

/// Round trip for `ElGamalCiphertext`: decoding any encoding of a well-formed rich
/// value yields the value itself.
pub proof fn lemma_elgamal_ciphertext_round_trip(
    v: ElGamalCiphertextData,
    encoded: Seq<u8>,
    r: Result<ElGamalCiphertextData, DecodeError>,
)
    requires
        v.wf(),
        encoded == v.commitment@ + v.handle@,
        elgamal_ciphertext_decode_post(encoded, r),
    ensures
        r == Ok::<ElGamalCiphertextData, DecodeError>(v),
{
    lemma_elgamal_ciphertext_partition(v.commitment, v.handle, encoded, r);
}

/// Rich public keys of a transfer instruction.
#[derive(Clone, Copy)]
pub struct TransferPubkeysData {
    pub source: CurvePoint,
    pub destination: CurvePoint,
    pub auditor: CurvePoint,
}

impl TransferPubkeysData {
    /// Every component is well-formed.
    pub open spec fn wf(&self) -> bool {
        self.source.wf() && self.destination.wf() && self.auditor.wf()
    }

    /// Encode: the concatenation of the 3 component encodings, in declared
    /// field order.
    pub fn encode(&self) -> (r: TransferPubkeys)
        ensures
            r@ == self.source@ + self.destination@ + self.auditor@,
    {
        let mut buf: Vec<u8> = Vec::new();
        buf.extend_from_slice(self.source.as_bytes());
        buf.extend_from_slice(self.destination.as_bytes());
        buf.extend_from_slice(self.auditor.as_bytes());
        proof {
            assert(buf@ =~= self.source@ + self.destination@ + self.auditor@);
        }
        TransferPubkeys::from_bytes(buf.as_slice())
    }
}

/// What decoding a 96-byte `TransferPubkeys` container yields: every 32-byte
/// sub-slice decodes and the components carry exactly those sub-slices, or
/// some sub-slice does not decode and the whole decode fails.
pub open spec fn transfer_pubkeys_decode_post(s: Seq<u8>, r: Result<TransferPubkeysData, DecodeError>) -> bool {
    match r {
        Ok(d) => {
            &&& d.wf()
            &&& point_decodes(s.subrange(0, 32))
            &&& d.source@ == s.subrange(0, 32)
            &&& point_decodes(s.subrange(32, 64))
            &&& d.destination@ == s.subrange(32, 64)
            &&& point_decodes(s.subrange(64, 96))
            &&& d.auditor@ == s.subrange(64, 96)
        },
        Err(_) => {
            ||| !point_decodes(s.subrange(0, 32))
            ||| !point_decodes(s.subrange(32, 64))
            ||| !point_decodes(s.subrange(64, 96))
        },
    }
}

impl TransferPubkeys {
    /// Decode by partitioning into 3 sub-slices of 32 bytes at fixed
    /// offsets and decoding each independently; fails as soon as any
    /// sub-slice fails, with no partial result.
    pub fn decode(&self) -> (r: Result<TransferPubkeysData, DecodeError>)
        ensures
            transfer_pubkeys_decode_post(self@, r),
    {
        let bytes = self.as_bytes();
        let source = match decode_point_at(bytes, 0) {
            Ok(p) => p,
            Err(e) => { return Err(e); },
        };
        let destination = match decode_point_at(bytes, 32) {
            Ok(p) => p,
            Err(e) => { return Err(e); },
        };
        let auditor = match decode_point_at(bytes, 64) {
            Ok(p) => p,
            Err(e) => { return Err(e); },
        };
        Ok(TransferPubkeysData { source, destination, auditor })
    }
}

/// Composite partition for `TransferPubkeys`: decoding the concatenation of component
/// encodings yields exactly those components when every component decodes,
/// and fails when any does not.
pub proof fn lemma_transfer_pubkeys_partition(
    a0: CurvePoint,
    a1: CurvePoint,
    a2: CurvePoint,
    s: Seq<u8>,
    r: Result<TransferPubkeysData, DecodeError>,
)
    requires
        s == a0@ + a1@ + a2@,
        transfer_pubkeys_decode_post(s, r),
    ensures
        (a0.wf() && a1.wf() && a2.wf()) ==> r == Ok::<TransferPubkeysData, DecodeError>((TransferPubkeysData { source: a0, destination: a1, auditor: a2 })),
        !(a0.wf() && a1.wf() && a2.wf()) ==> r is Err,
{
    assert(s.subrange(0, 32) =~= a0@);
    assert(s.subrange(32, 64) =~= a1@);
    assert(s.subrange(64, 96) =~= a2@);
    if a0.wf() && a1.wf() && a2.wf() {
        let d = r->Ok_0;
        assert(d.source.0 =~= a0.0);
        assert(d.destination.0 =~= a1.0);
        assert(d.auditor.0 =~= a2.0);
    }
}

/// Round trip for `TransferPubkeys`: decoding any encoding of a well-formed rich
/// value yields the value itself.
pub proof fn lemma_transfer_pubkeys_round_trip(
    v: TransferPubkeysData,
    encoded: Seq<u8>,
    r: Result<TransferPubkeysData, DecodeError>,
)
    requires
        v.wf(),
        encoded == v.source@ + v.destination@ + v.auditor@,
        transfer_pubkeys_decode_post(encoded, r),
    ensures
        r == Ok::<TransferPubkeysData, DecodeError>(v),
{
    lemma_transfer_pubkeys_partition(v.source, v.destination, v.auditor, encoded, r);
}

/// Rich public keys of a transfer-with-fee instruction.
#[derive(Clone, Copy)]
pub struct TransferWithFeePubkeysData {
    pub source: CurvePoint,
    pub destination: CurvePoint,
    pub auditor: CurvePoint,
    pub withdraw_withheld_authority: CurvePoint,
}

impl TransferWithFeePubkeysData {
    /// Every component is well-formed.
    pub open spec fn wf(&self) -> bool {
        self.source.wf() && self.destination.wf() && self.auditor.wf() && self.withdraw_withheld_authority.wf()
    }

    /// Encode: the concatenation of the 4 component encodings, in declared
    /// field order.
    pub fn encode(&self) -> (r: TransferWithFeePubkeys)
        ensures
            r@ == self.source@ + self.destination@ + self.auditor@ + self.withdraw_withheld_authority@,
    {
        let mut buf: Vec<u8> = Vec::new();
        buf.extend_from_slice(self.source.as_bytes());
        buf.extend_from_slice(self.destination.as_bytes());
        buf.extend_from_slice(self.auditor.as_bytes());
        buf.extend_from_slice(self.withdraw_withheld_authority.as_bytes());
        proof {
            assert(buf@ =~= self.source@ + self.destination@ + self.auditor@ + self.withdraw_withheld_authority@);
        }
        TransferWithFeePubkeys::from_bytes(buf.as_slice())
    }
}

/// What decoding a 128-byte `TransferWithFeePubkeys` container yields: every 32-byte
/// sub-slice decodes and the components carry exactly those sub-slices, or
/// some sub-slice does not decode and the whole decode fails.
pub open spec fn transfer_with_fee_pubkeys_decode_post(s: Seq<u8>, r: Result<TransferWithFeePubkeysData, DecodeError>) -> bool {
    match r {
        Ok(d) => {
            &&& d.wf()
            &&& point_decodes(s.subrange(0, 32))
            &&& d.source@ == s.subrange(0, 32)
            &&& point_decodes(s.subrange(32, 64))
            &&& d.destination@ == s.subrange(32, 64)
            &&& point_decodes(s.subrange(64, 96))
            &&& d.auditor@ == s.subrange(64, 96)
            &&& point_decodes(s.subrange(96, 128))
            &&& d.withdraw_withheld_authority@ == s.subrange(96, 128)
        },
        Err(_) => {
            ||| !point_decodes(s.subrange(0, 32))
            ||| !point_decodes(s.subrange(32, 64))
            ||| !point_decodes(s.subrange(64, 96))
            ||| !point_decodes(s.subrange(96, 128))
        },
    }
}

impl TransferWithFeePubkeys {
    /// Decode by partitioning into 4 sub-slices of 32 bytes at fixed
    /// offsets and decoding each independently; fails as soon as any
    /// sub-slice fails, with no partial result.
    pub fn decode(&self) -> (r: Result<TransferWithFeePubkeysData, DecodeError>)
        ensures
            transfer_with_fee_pubkeys_decode_post(self@, r),
    {
        let bytes = self.as_bytes();
        let source = match decode_point_at(bytes, 0) {
            Ok(p) => p,
            Err(e) => { return Err(e); },
        };
        let destination = match decode_point_at(bytes, 32) {
            Ok(p) => p,
            Err(e) => { return Err(e); },
        };
        let auditor = match decode_point_at(bytes, 64) {
            Ok(p) => p,
            Err(e) => { return Err(e); },
        };
        let withdraw_withheld_authority = match decode_point_at(bytes, 96) {
            Ok(p) => p,
            Err(e) => { return Err(e); },
        };
        Ok(TransferWithFeePubkeysData { source, destination, auditor, withdraw_withheld_authority })
    }
}

/// Composite partition for `TransferWithFeePubkeys`: decoding the concatenation of component
/// encodings yields exactly those components when every component decodes,
/// and fails when any does not.
pub proof fn lemma_transfer_with_fee_pubkeys_partition(
    a0: CurvePoint,
    a1: CurvePoint,
    a2: CurvePoint,
    a3: CurvePoint,
    s: Seq<u8>,
    r: Result<TransferWithFeePubkeysData, DecodeError>,
)
    requires
        s == a0@ + a1@ + a2@ + a3@,
        transfer_with_fee_pubkeys_decode_post(s, r),
    ensures
        (a0.wf() && a1.wf() && a2.wf() && a3.wf()) ==> r == Ok::<TransferWithFeePubkeysData, DecodeError>((TransferWithFeePubkeysData { source: a0, destination: a1, auditor: a2, withdraw_withheld_authority: a3 })),
        !(a0.wf() && a1.wf() && a2.wf() && a3.wf()) ==> r is Err,
{
    assert(s.subrange(0, 32) =~= a0@);
    assert(s.subrange(32, 64) =~= a1@);
    assert(s.subrange(64, 96) =~= a2@);
    assert(s.subrange(96, 128) =~= a3@);
    if a0.wf() && a1.wf() && a2.wf() && a3.wf() {
        let d = r->Ok_0;
        assert(d.source.0 =~= a0.0);
        assert(d.destination.0 =~= a1.0);
        assert(d.auditor.0 =~= a2.0);
        assert(d.withdraw_withheld_authority.0 =~= a3.0);
    }
}

/// Round trip for `TransferWithFeePubkeys`: decoding any encoding of a well-formed rich
/// value yields the value itself.
pub proof fn lemma_transfer_with_fee_pubkeys_round_trip(
    v: TransferWithFeePubkeysData,
    encoded: Seq<u8>,
    r: Result<TransferWithFeePubkeysData, DecodeError>,
)
    requires
        v.wf(),
        encoded == v.source@ + v.destination@ + v.auditor@ + v.withdraw_withheld_authority@,
        transfer_with_fee_pubkeys_decode_post(encoded, r),
    ensures
        r == Ok::<TransferWithFeePubkeysData, DecodeError>(v),
{
    lemma_transfer_with_fee_pubkeys_partition(v.source, v.destination, v.auditor, v.withdraw_withheld_authority, encoded, r);
}

/// Rich transfer amount encryption: the commitment and the per-party decrypt handles.
#[derive(Clone, Copy)]
pub struct TransferAmountEncryptionData {
    pub commitment: CurvePoint,
    pub source_handle: CurvePoint,
    pub destination_handle: CurvePoint,
    pub auditor_handle: CurvePoint,
}

impl TransferAmountEncryptionData {
    /// Every component is well-formed.
    pub open spec fn wf(&self) -> bool {
        self.commitment.wf() && self.source_handle.wf() && self.destination_handle.wf() && self.auditor_handle.wf()
    }

    /// Encode: the concatenation of the 4 component encodings, in declared
    /// field order.
    pub fn encode(&self) -> (r: TransferAmountEncryption)
        ensures
            r@ == self.commitment@ + self.source_handle@ + self.destination_handle@ + self.auditor_handle@,
    {
        let mut buf: Vec<u8> = Vec::new();
        buf.extend_from_slice(self.commitment.as_bytes());
        buf.extend_from_slice(self.source_handle.as_bytes());
        buf.extend_from_slice(self.destination_handle.as_bytes());
        buf.extend_from_slice(self.auditor_handle.as_bytes());
        proof {
            assert(buf@ =~= self.commitment@ + self.source_handle@ + self.destination_handle@ + self.auditor_handle@);
        }
        TransferAmountEncryption::from_bytes(buf.as_slice())
    }
}

/// What decoding a 128-byte `TransferAmountEncryption` container yields: every 32-byte
/// sub-slice decodes and the components carry exactly those sub-slices, or
/// some sub-slice does not decode and the whole decode fails.
pub open spec fn transfer_amount_encryption_decode_post(s: Seq<u8>, r: Result<TransferAmountEncryptionData, DecodeError>) -> bool {
    match r {
        Ok(d) => {
            &&& d.wf()
            &&& point_decodes(s.subrange(0, 32))
            &&& d.commitment@ == s.subrange(0, 32)
            &&& point_decodes(s.subrange(32, 64))
            &&& d.source_handle@ == s.subrange(32, 64)
            &&& point_decodes(s.subrange(64, 96))
            &&& d.destination_handle@ == s.subrange(64, 96)
            &&& point_decodes(s.subrange(96, 128))
            &&& d.auditor_handle@ == s.subrange(96, 128)
        },
        Err(_) => {
            ||| !point_decodes(s.subrange(0, 32))
            ||| !point_decodes(s.subrange(32, 64))
            ||| !point_decodes(s.subrange(64, 96))
            ||| !point_decodes(s.subrange(96, 128))
        },
    }
}

impl TransferAmountEncryption {
    /// Decode by partitioning into 4 sub-slices of 32 bytes at fixed
    /// offsets and decoding each independently; fails as soon as any
    /// sub-slice fails, with no partial result.
    pub fn decode(&self) -> (r: Result<TransferAmountEncryptionData, DecodeError>)
        ensures
            transfer_amount_encryption_decode_post(self@, r),
    {
        let bytes = self.as_bytes();
        let commitment = match decode_point_at(bytes, 0) {
            Ok(p) => p,
            Err(e) => { return Err(e); },
        };
        let source_handle = match decode_point_at(bytes, 32) {
            Ok(p) => p,
            Err(e) => { return Err(e); },
        };
        let destination_handle = match decode_point_at(bytes, 64) {
            Ok(p) => p,
            Err(e) => { return Err(e); },
        };
        let auditor_handle = match decode_point_at(bytes, 96) {
            Ok(p) => p,
            Err(e) => { return Err(e); },
        };
        Ok(TransferAmountEncryptionData { commitment, source_handle, destination_handle, auditor_handle })
    }
}

/// Composite partition for `TransferAmountEncryption`: decoding the concatenation of component
/// encodings yields exactly those components when every component decodes,
/// and fails when any does not.
pub proof fn lemma_transfer_amount_encryption_partition(
    a0: CurvePoint,
    a1: CurvePoint,
    a2: CurvePoint,
    a3: CurvePoint,
    s: Seq<u8>,
    r: Result<TransferAmountEncryptionData, DecodeError>,
)
    requires
        s == a0@ + a1@ + a2@ + a3@,
        transfer_amount_encryption_decode_post(s, r),
    ensures
        (a0.wf() && a1.wf() && a2.wf() && a3.wf()) ==> r == Ok::<TransferAmountEncryptionData, DecodeError>((TransferAmountEncryptionData { commitment: a0, source_handle: a1, destination_handle: a2, auditor_handle: a3 })),
        !(a0.wf() && a1.wf() && a2.wf() && a3.wf()) ==> r is Err,
{
    assert(s.subrange(0, 32) =~= a0@);
    assert(s.subrange(32, 64) =~= a1@);
    assert(s.subrange(64, 96) =~= a2@);
    assert(s.subrange(96, 128) =~= a3@);
    if a0.wf() && a1.wf() && a2.wf() && a3.wf() {
        let d = r->Ok_0;
        assert(d.commitment.0 =~= a0.0);
        assert(d.source_handle.0 =~= a1.0);
        assert(d.destination_handle.0 =~= a2.0);
        assert(d.auditor_handle.0 =~= a3.0);
    }
}

/// Round trip for `TransferAmountEncryption`: decoding any encoding of a well-formed rich
/// value yields the value itself.
pub proof fn lemma_transfer_amount_encryption_round_trip(
    v: TransferAmountEncryptionData,
    encoded: Seq<u8>,
    r: Result<TransferAmountEncryptionData, DecodeError>,
)
    requires
        v.wf(),
        encoded == v.commitment@ + v.source_handle@ + v.destination_handle@ + v.auditor_handle@,
        transfer_amount_encryption_decode_post(encoded, r),
    ensures
        r == Ok::<TransferAmountEncryptionData, DecodeError>(v),
{
    lemma_transfer_amount_encryption_partition(v.commitment, v.source_handle, v.destination_handle, v.auditor_handle, encoded, r);
}

/// Rich fee encryption: the commitment and the per-party decrypt handles.
#[derive(Clone, Copy)]
pub struct FeeEncryptionData {
    pub commitment: CurvePoint,
    pub destination_handle: CurvePoint,
    pub withdraw_withheld_authority_handle: CurvePoint,
}

impl FeeEncryptionData {
    /// Every component is well-formed.
    pub open spec fn wf(&self) -> bool {
        self.commitment.wf() && self.destination_handle.wf() && self.withdraw_withheld_authority_handle.wf()
    }

    /// Encode: the concatenation of the 3 component encodings, in declared
    /// field order.
    pub fn encode(&self) -> (r: FeeEncryption)
        ensures
            r@ == self.commitment@ + self.destination_handle@ + self.withdraw_withheld_authority_handle@,
    {
        let mut buf: Vec<u8> = Vec::new();
        buf.extend_from_slice(self.commitment.as_bytes());
        buf.extend_from_slice(self.destination_handle.as_bytes());
        buf.extend_from_slice(self.withdraw_withheld_authority_handle.as_bytes());
        proof {
            assert(buf@ =~= self.commitment@ + self.destination_handle@ + self.withdraw_withheld_authority_handle@);
        }
        FeeEncryption::from_bytes(buf.as_slice())
    }
}

/// What decoding a 96-byte `FeeEncryption` container yields: every 32-byte
/// sub-slice decodes and the components carry exactly those sub-slices, or
/// some sub-slice does not decode and the whole decode fails.
pub open spec fn fee_encryption_decode_post(s: Seq<u8>, r: Result<FeeEncryptionData, DecodeError>) -> bool {
    match r {
        Ok(d) => {
            &&& d.wf()
            &&& point_decodes(s.subrange(0, 32))
            &&& d.commitment@ == s.subrange(0, 32)
            &&& point_decodes(s.subrange(32, 64))
            &&& d.destination_handle@ == s.subrange(32, 64)
            &&& point_decodes(s.subrange(64, 96))
            &&& d.withdraw_withheld_authority_handle@ == s.subrange(64, 96)
        },
        Err(_) => {
            ||| !point_decodes(s.subrange(0, 32))
            ||| !point_decodes(s.subrange(32, 64))
            ||| !point_decodes(s.subrange(64, 96))
        },
    }
}

impl FeeEncryption {
    /// Decode by partitioning into 3 sub-slices of 32 bytes at fixed
    /// offsets and decoding each independently; fails as soon as any
    /// sub-slice fails, with no partial result.
    pub fn decode(&self) -> (r: Result<FeeEncryptionData, DecodeError>)
        ensures
            fee_encryption_decode_post(self@, r),
    {
        let bytes = self.as_bytes();
        let commitment = match decode_point_at(bytes, 0) {
            Ok(p) => p,
            Err(e) => { return Err(e); },
        };
        let destination_handle = match decode_point_at(bytes, 32) {
            Ok(p) => p,
            Err(e) => { return Err(e); },
        };
        let withdraw_withheld_authority_handle = match decode_point_at(bytes, 64) {
            Ok(p) => p,
            Err(e) => { return Err(e); },
        };
        Ok(FeeEncryptionData { commitment, destination_handle, withdraw_withheld_authority_handle })
    }
}

/// Composite partition for `FeeEncryption`: decoding the concatenation of component
/// encodings yields exactly those components when every component decodes,
/// and fails when any does not.
pub proof fn lemma_fee_encryption_partition(
    a0: CurvePoint,
    a1: CurvePoint,
    a2: CurvePoint,
    s: Seq<u8>,
    r: Result<FeeEncryptionData, DecodeError>,
)
    requires
        s == a0@ + a1@ + a2@,
        fee_encryption_decode_post(s, r),
    ensures
        (a0.wf() && a1.wf() && a2.wf()) ==> r == Ok::<FeeEncryptionData, DecodeError>((FeeEncryptionData { commitment: a0, destination_handle: a1, withdraw_withheld_authority_handle: a2 })),
        !(a0.wf() && a1.wf() && a2.wf()) ==> r is Err,
{
    assert(s.subrange(0, 32) =~= a0@);
    assert(s.subrange(32, 64) =~= a1@);
    assert(s.subrange(64, 96) =~= a2@);
    if a0.wf() && a1.wf() && a2.wf() {
        let d = r->Ok_0;
        assert(d.commitment.0 =~= a0.0);
        assert(d.destination_handle.0 =~= a1.0);
        assert(d.withdraw_withheld_authority_handle.0 =~= a2.0);
    }
}

/// Round trip for `FeeEncryption`: decoding any encoding of a well-formed rich
/// value yields the value itself.
pub proof fn lemma_fee_encryption_round_trip(
    v: FeeEncryptionData,
    encoded: Seq<u8>,
    r: Result<FeeEncryptionData, DecodeError>,
)
    requires
        v.wf(),
        encoded == v.commitment@ + v.destination_handle@ + v.withdraw_withheld_authority_handle@,
        fee_encryption_decode_post(encoded, r),
    ensures
        r == Ok::<FeeEncryptionData, DecodeError>(v),
{
    lemma_fee_encryption_partition(v.commitment, v.destination_handle, v.withdraw_withheld_authority_handle, encoded, r);
}

/// Rich authenticated symmetric ciphertext: the 12-byte nonce and the
/// 24-byte ciphertext body. Every 36-byte pattern partitions, so this
/// decode is structural and never fails; validity is only established later,
/// at decryption, by the collaborator that owns the key.
#[derive(Clone, Copy)]
pub struct AeCiphertextData {
    pub nonce: [u8; 12],
    pub ciphertext: [u8; 24],
}

impl AeCiphertextData {
    /// Encode: the nonce followed by the ciphertext body.
    pub fn encode(&self) -> (r: AeCiphertext)
        ensures
            r@ == self.nonce@ + self.ciphertext@,
    {
        let mut buf: Vec<u8> = Vec::new();
        buf.extend_from_slice(self.nonce.as_slice());
        buf.extend_from_slice(self.ciphertext.as_slice());
        proof {
            assert(buf@ =~= self.nonce@ + self.ciphertext@);
        }
        AeCiphertext::from_bytes(buf.as_slice())
    }
}

/// What decoding a 36-byte `AeCiphertext` container yields: the nonce is the
/// first 12 bytes and the ciphertext body the remaining 24, unchanged.
pub open spec fn ae_ciphertext_decode_post(s: Seq<u8>, d: AeCiphertextData) -> bool {
    d.nonce@ == s.subrange(0, 12) && d.ciphertext@ == s.subrange(12, 36)
}

impl AeCiphertext {
    /// Decode by partitioning into the 12-byte nonce and the 24-byte
    /// ciphertext body at fixed offsets; structural, never fails.
    pub fn decode(&self) -> (r: AeCiphertextData)
        ensures
            ae_ciphertext_decode_post(self@, r),
    {
        let bytes = self.as_bytes();
        let nonce: [u8; 12] = pod_from_bytes(sub_bytes(bytes, 0, 12));
        let ciphertext: [u8; 24] = pod_from_bytes(sub_bytes(bytes, 12, 36));
        AeCiphertextData { nonce, ciphertext }
    }
}

/// Round trip for `AeCiphertext`: decoding any encoding of a rich value
/// yields the value itself. Partition and round trip coincide here because
/// the decode is structural.
pub proof fn lemma_ae_ciphertext_round_trip(
    v: AeCiphertextData,
    encoded: Seq<u8>,
    d: AeCiphertextData,
)
    requires
        encoded == v.nonce@ + v.ciphertext@,
        ae_ciphertext_decode_post(encoded, d),
    ensures
        d == v,
{
    assert(encoded.subrange(0, 12) =~= v.nonce@);
    assert(encoded.subrange(12, 36) =~= v.ciphertext@);
    assert(d.nonce =~= v.nonce);
    assert(d.ciphertext =~= v.ciphertext);
}

/// Rich fee parameters: the fee rate in basis points and the maximum fee.
/// The container packs them as two then eight little-endian bytes at fixed
/// offsets; every 10-byte pattern decodes, so decode never fails.
#[derive(Clone, Copy)]
pub struct FeeParametersData {
    pub fee_rate_basis_points: u16,
    pub maximum_fee: u64,
}

impl FeeParametersData {
    /// Encode: the fee rate as two little-endian bytes, then the maximum
    /// fee as eight little-endian bytes.
    pub fn encode(&self) -> (r: FeeParameters)
        ensures
            r@ == spec_u16_to_le_bytes(self.fee_rate_basis_points)
                + spec_u64_to_le_bytes(self.maximum_fee),
    {
        let mut buf = u16_to_le_bytes(self.fee_rate_basis_points);
        let high = u64_to_le_bytes(self.maximum_fee);
        buf.extend_from_slice(high.as_slice());
        FeeParameters::from_bytes(buf.as_slice())
    }
}

/// What decoding a 10-byte `FeeParameters` container yields: the two numeric
/// fields read little-endian at their fixed offsets.
pub open spec fn fee_parameters_decode_post(s: Seq<u8>, d: FeeParametersData) -> bool {
    d.fee_rate_basis_points == spec_u16_from_le_bytes(s.subrange(0, 2))
        && d.maximum_fee == spec_u64_from_le_bytes(s.subrange(2, 10))
}

impl FeeParameters {
    /// Decode by integer-width reinterpretation at fixed offsets: the fee
    /// rate from bytes 0..2, the maximum fee from bytes 2..10, both
    /// little-endian. Structural, never fails.
    pub fn decode(&self) -> (r: FeeParametersData)
        ensures
            fee_parameters_decode_post(self@, r),
    {
        let bytes = self.as_bytes();
        let fee_rate_basis_points = u16_from_le_bytes(sub_bytes(bytes, 0, 2));
        let maximum_fee = u64_from_le_bytes(sub_bytes(bytes, 2, 10));
        FeeParametersData { fee_rate_basis_points, maximum_fee }
    }
}

/// Round trip for `FeeParameters`: decoding any encoding of a rich value
/// yields the value itself.
pub proof fn lemma_fee_parameters_round_trip(
    v: FeeParametersData,
    encoded: Seq<u8>,
    d: FeeParametersData,
)
    requires
        encoded == spec_u16_to_le_bytes(v.fee_rate_basis_points)
            + spec_u64_to_le_bytes(v.maximum_fee),
        fee_parameters_decode_post(encoded, d),
    ensures
        d == v,
{
    lemma_auto_spec_u16_to_from_le_bytes();
    lemma_auto_spec_u64_to_from_le_bytes();
    assert(encoded.subrange(0, 2) =~= spec_u16_to_le_bytes(v.fee_rate_basis_points));
    assert(encoded.subrange(2, 10) =~= spec_u64_to_le_bytes(v.maximum_fee));
}

} // verus!
