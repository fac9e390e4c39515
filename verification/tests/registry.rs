use zk_token_pod::pod::{
    AeCiphertext, AggregatedValidityProof, CompressedRistretto, DecryptHandle, ElGamalCiphertext,
    ElGamalPubkey, EqualityProof, FeeEncryption, FeeParameters, FeeSigmaProof, PedersenCommitment,
    RangeProof128, RangeProof256, RangeProof64, Scalar, TransferAmountEncryption, TransferPubkeys,
    TransferWithFeePubkeys, ValidityProof, ZeroBalanceProof,
};

#[test]
fn width_exactness_all_types() {
    assert_eq!(Scalar::zero_value().as_bytes().len(), 32);
    assert_eq!(CompressedRistretto::zero_value().as_bytes().len(), 32);
    assert_eq!(ElGamalCiphertext::zero_value().as_bytes().len(), 64);
    assert_eq!(ElGamalPubkey::zero_value().as_bytes().len(), 32);
    assert_eq!(PedersenCommitment::zero_value().as_bytes().len(), 32);
    assert_eq!(DecryptHandle::zero_value().as_bytes().len(), 32);
    assert_eq!(EqualityProof::zero_value().as_bytes().len(), 192);
    assert_eq!(ValidityProof::zero_value().as_bytes().len(), 160);
    assert_eq!(AggregatedValidityProof::zero_value().as_bytes().len(), 160);
    assert_eq!(ZeroBalanceProof::zero_value().as_bytes().len(), 96);
    assert_eq!(FeeSigmaProof::zero_value().as_bytes().len(), 256);
    assert_eq!(RangeProof64::zero_value().as_bytes().len(), 672);
    assert_eq!(RangeProof128::zero_value().as_bytes().len(), 736);
    assert_eq!(RangeProof256::zero_value().as_bytes().len(), 800);
    assert_eq!(AeCiphertext::zero_value().as_bytes().len(), 36);
    assert_eq!(TransferPubkeys::zero_value().as_bytes().len(), 96);
    assert_eq!(TransferWithFeePubkeys::zero_value().as_bytes().len(), 128);
    assert_eq!(TransferAmountEncryption::zero_value().as_bytes().len(), 128);
    assert_eq!(FeeEncryption::zero_value().as_bytes().len(), 96);
    assert_eq!(FeeParameters::zero_value().as_bytes().len(), 10);
}

#[test]
fn width_exactness_preserved_by_from_bytes() {
    let input = [0xabu8; 672];
    let proof_value = RangeProof64::from_bytes(&input);
    assert_eq!(proof_value.as_bytes().len(), 672);
    assert_eq!(proof_value.as_bytes(), &input[..]);
}

#[test]
fn zero_value_is_all_zero_bytes() {
    assert!(Scalar::zero_value().as_bytes().iter().all(|&b| b == 0));
    assert!(ElGamalCiphertext::zero_value().as_bytes().iter().all(|&b| b == 0));
    assert!(AeCiphertext::zero_value().as_bytes().iter().all(|&b| b == 0));
    assert!(RangeProof256::zero_value().as_bytes().iter().all(|&b| b == 0));
}

#[test]
fn zero_default_consistency() {
    assert!(Scalar::zero_value().equals(&Scalar::from_bytes(&[0u8; 32])));
    assert!(CompressedRistretto::zero_value().equals(&CompressedRistretto::from_bytes(&[0u8; 32])));
    assert!(ElGamalCiphertext::zero_value().equals(&ElGamalCiphertext::from_bytes(&[0u8; 64])));
    assert!(ElGamalPubkey::zero_value().equals(&ElGamalPubkey::from_bytes(&[0u8; 32])));
    assert!(PedersenCommitment::zero_value().equals(&PedersenCommitment::from_bytes(&[0u8; 32])));
    assert!(DecryptHandle::zero_value().equals(&DecryptHandle::from_bytes(&[0u8; 32])));
    assert!(AeCiphertext::zero_value().equals(&AeCiphertext::from_bytes(&[0u8; 36])));
}

#[test]
fn default_is_zero_value() {
    assert!(ElGamalCiphertext::default().equals(&ElGamalCiphertext::zero_value()));
    assert!(ElGamalPubkey::default().equals(&ElGamalPubkey::zero_value()));
    assert!(PedersenCommitment::default().equals(&PedersenCommitment::zero_value()));
    assert!(DecryptHandle::default().equals(&DecryptHandle::zero_value()));
    assert!(AeCiphertext::default().equals(&AeCiphertext::zero_value()));
}

#[test]
fn equals_is_byte_wise_equality() {
    let mut a = [5u8; 32];
    let x = Scalar::from_bytes(&a);
    let y = Scalar::from_bytes(&a);
    assert!(x.equals(&y));
    assert_eq!(x.as_bytes() == y.as_bytes(), x.equals(&y));

    a[31] = 6;
    let z = Scalar::from_bytes(&a);
    assert!(!x.equals(&z));
    assert_eq!(x.as_bytes() == z.as_bytes(), x.equals(&z));
}

#[test]
fn from_bytes_keeps_bytes_unchanged() {
    let mut input = [0u8; 96];
    for (i, b) in input.iter_mut().enumerate() {
        *b = i as u8;
    }
    let v = TransferPubkeys::from_bytes(&input);
    assert_eq!(v.as_bytes(), &input[..]);
    assert_eq!(v.0, input);
}

#[test]
fn debug_render_zero_value() {
    let expected: String = std::iter::repeat('0').take(64).collect();
    assert_eq!(Scalar::zero_value().debug_render(), expected);
}

#[test]
fn debug_render_known_pattern() {
    let input: [u8; 10] = [0x00, 0x01, 0x0a, 0x10, 0x7f, 0x80, 0xab, 0xcd, 0xef, 0xff];
    let v = FeeParameters::from_bytes(&input);
    assert_eq!(v.debug_render(), "00010a107f80abcdefff");
}
