use curve25519_dalek::constants::RISTRETTO_BASEPOINT_POINT;
use zk_token_pod::composite::{
    AeCiphertextData, ElGamalCiphertextData, FeeEncryptionData, FeeParametersData,
    TransferAmountEncryptionData, TransferPubkeysData, TransferWithFeePubkeysData,
};
use zk_token_pod::curve::{CurvePoint, FieldScalar};
use zk_token_pod::pod::{AeCiphertext, CompressedRistretto, ElGamalPubkey, Scalar};

/// A canonical point encoding other than the identity, from the curve
/// library itself.
fn basepoint_bytes() -> [u8; 32] {
    RISTRETTO_BASEPOINT_POINT.compress().to_bytes()
}

/// A second canonical point encoding, distinct from the basepoint.
fn doubled_basepoint_bytes() -> [u8; 32] {
    (RISTRETTO_BASEPOINT_POINT + RISTRETTO_BASEPOINT_POINT).compress().to_bytes()
}

#[test]
fn point_decode_accepts_canonical_encodings() {
    // The identity point encodes as 32 zero bytes.
    assert!(CompressedRistretto::from_bytes(&[0u8; 32]).decode().is_ok());
    assert!(CompressedRistretto::from_bytes(&basepoint_bytes()).decode().is_ok());
}

#[test]
fn point_decode_rejects_non_point_pattern() {
    // Scenario: a known non-point bit pattern fails with a decode error;
    // construction of the 32-byte container itself never fails.
    let container = CompressedRistretto::from_bytes(&[0xffu8; 32]);
    assert_eq!(container.as_bytes().len(), 32);
    assert!(container.decode().is_err());
}

#[test]
fn point_round_trip() {
    let point = CurvePoint::try_new(basepoint_bytes()).unwrap();
    let decoded = point.encode().decode().unwrap();
    assert!(decoded.equals(&point));
    let via_pubkey = point.encode_pubkey().decode().unwrap();
    assert!(via_pubkey.equals(&point));
    let via_commitment = point.encode_commitment().decode().unwrap();
    assert!(via_commitment.equals(&point));
    let via_handle = point.encode_handle().decode().unwrap();
    assert!(via_handle.equals(&point));
}

#[test]
fn scalar_decode_accepts_canonical_and_rejects_above_order() {
    let mut seven = [0u8; 32];
    seven[0] = 7;
    assert!(Scalar::from_bytes(&seven).decode().is_ok());
    // All-ones is far above the group order, so it is not canonical.
    assert!(Scalar::from_bytes(&[0xffu8; 32]).decode().is_err());
}

#[test]
fn scalar_round_trip() {
    let mut bytes = [0u8; 32];
    bytes[0] = 42;
    bytes[1] = 1;
    let rich = FieldScalar::try_new(bytes).unwrap();
    let decoded = rich.encode().decode().unwrap();
    assert!(decoded.equals(&rich));
}

#[test]
fn elgamal_ciphertext_encode_is_concatenation() {
    // Scenario: the 64-byte encoding equals the direct concatenation of the
    // two 32-byte component encodings.
    let commitment = CurvePoint::try_new(basepoint_bytes()).unwrap();
    let handle = CurvePoint::try_new(doubled_basepoint_bytes()).unwrap();
    let ciphertext = ElGamalCiphertextData { commitment, handle }.encode();
    let mut expected = Vec::new();
    expected.extend_from_slice(&basepoint_bytes());
    expected.extend_from_slice(&doubled_basepoint_bytes());
    assert_eq!(ciphertext.as_bytes(), &expected[..]);
}

#[test]
fn elgamal_ciphertext_round_trip_and_partition() {
    let commitment = CurvePoint::try_new(basepoint_bytes()).unwrap();
    let handle = CurvePoint::try_new(doubled_basepoint_bytes()).unwrap();
    let encoded = ElGamalCiphertextData { commitment, handle }.encode();
    let decoded = encoded.decode().unwrap();
    assert!(decoded.commitment.equals(&commitment));
    assert!(decoded.handle.equals(&handle));
}

#[test]
fn elgamal_ciphertext_decode_fails_when_a_component_fails() {
    let mut bytes = [0u8; 64];
    bytes[..32].copy_from_slice(&basepoint_bytes());
    bytes[32..].copy_from_slice(&[0xffu8; 32]);
    assert!(zk_token_pod::pod::ElGamalCiphertext::from_bytes(&bytes).decode().is_err());

    let mut bytes = [0u8; 64];
    bytes[..32].copy_from_slice(&[0xffu8; 32]);
    bytes[32..].copy_from_slice(&doubled_basepoint_bytes());
    assert!(zk_token_pod::pod::ElGamalCiphertext::from_bytes(&bytes).decode().is_err());
}

#[test]
fn ae_ciphertext_zero_round_trips_through_storage() {
    // Scenario: the zero value written to a storage slot reads back as 36
    // zero bytes and compares equal to a fresh default.
    let stored: Vec<u8> = AeCiphertext::zero_value().as_bytes().to_vec();
    assert_eq!(stored, vec![0u8; 36]);
    let read_back = AeCiphertext::from_bytes(&stored);
    assert!(read_back.equals(&AeCiphertext::default()));
}

#[test]
fn ae_ciphertext_partition_round_trip() {
    let nonce: [u8; 12] = [1, 2, 3, 4, 5, 6, 7, 8, 9, 10, 11, 12];
    let ciphertext: [u8; 24] = [9u8; 24];
    let rich = AeCiphertextData { nonce, ciphertext };
    let decoded = rich.encode().decode();
    assert_eq!(decoded.nonce, nonce);
    assert_eq!(decoded.ciphertext, ciphertext);
}

#[test]
fn transfer_pubkeys_round_trip() {
    let source = CurvePoint::try_new(basepoint_bytes()).unwrap();
    let destination = CurvePoint::try_new(doubled_basepoint_bytes()).unwrap();
    let auditor = CurvePoint::try_new([0u8; 32]).unwrap();
    let encoded = TransferPubkeysData { source, destination, auditor }.encode();
    let decoded = encoded.decode().unwrap();
    assert!(decoded.source.equals(&source));
    assert!(decoded.destination.equals(&destination));
    assert!(decoded.auditor.equals(&auditor));
}

#[test]
fn transfer_with_fee_pubkeys_round_trip() {
    let source = CurvePoint::try_new(basepoint_bytes()).unwrap();
    let destination = CurvePoint::try_new(doubled_basepoint_bytes()).unwrap();
    let auditor = CurvePoint::try_new([0u8; 32]).unwrap();
    let withdraw_withheld_authority = CurvePoint::try_new(basepoint_bytes()).unwrap();
    let encoded = TransferWithFeePubkeysData {
        source,
        destination,
        auditor,
        withdraw_withheld_authority,
    }
    .encode();
    assert_eq!(encoded.as_bytes().len(), 128);
    let decoded = encoded.decode().unwrap();
    assert!(decoded.withdraw_withheld_authority.equals(&withdraw_withheld_authority));
}

#[test]
fn transfer_amount_encryption_round_trip_and_failure() {
    let commitment = CurvePoint::try_new(basepoint_bytes()).unwrap();
    let source_handle = CurvePoint::try_new(doubled_basepoint_bytes()).unwrap();
    let destination_handle = CurvePoint::try_new([0u8; 32]).unwrap();
    let auditor_handle = CurvePoint::try_new(basepoint_bytes()).unwrap();
    let encoded = TransferAmountEncryptionData {
        commitment,
        source_handle,
        destination_handle,
        auditor_handle,
    }
    .encode();
    let decoded = encoded.decode().unwrap();
    assert!(decoded.commitment.equals(&commitment));
    assert!(decoded.auditor_handle.equals(&auditor_handle));

    let mut broken = [0u8; 128];
    broken.copy_from_slice(encoded.as_bytes());
    broken[96..].copy_from_slice(&[0xffu8; 32]);
    assert!(zk_token_pod::pod::TransferAmountEncryption::from_bytes(&broken).decode().is_err());
}

#[test]
fn fee_encryption_round_trip() {
    let commitment = CurvePoint::try_new(basepoint_bytes()).unwrap();
    let destination_handle = CurvePoint::try_new(doubled_basepoint_bytes()).unwrap();
    let withdraw_withheld_authority_handle = CurvePoint::try_new([0u8; 32]).unwrap();
    let encoded = FeeEncryptionData {
        commitment,
        destination_handle,
        withdraw_withheld_authority_handle,
    }
    .encode();
    let decoded = encoded.decode().unwrap();
    assert!(decoded.destination_handle.equals(&destination_handle));
}

#[test]
fn fee_parameters_exact_layout() {
    let rich = FeeParametersData { fee_rate_basis_points: 0x0102, maximum_fee: 0x0304050607080910 };
    let encoded = rich.encode();
    assert_eq!(
        encoded.as_bytes(),
        &[0x02, 0x01, 0x10, 0x09, 0x08, 0x07, 0x06, 0x05, 0x04, 0x03][..]
    );
}

#[test]
fn fee_parameters_round_trip() {
    let rich = FeeParametersData { fee_rate_basis_points: 25, maximum_fee: u64::MAX };
    let decoded = rich.encode().decode();
    assert_eq!(decoded.fee_rate_basis_points, 25);
    assert_eq!(decoded.maximum_fee, u64::MAX);
}

#[test]
fn pubkey_decode_rejects_non_point_pattern() {
    assert!(ElGamalPubkey::from_bytes(&[0xffu8; 32]).decode().is_err());
}
