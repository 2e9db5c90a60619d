use ethereum_consensus::polynomial_commitments::{
    blob_to_kzg_commitment, compute_blob_kzg_proof, compute_kzg_proof, verify_blob_kzg_proof,
    verify_blob_kzg_proof_batch, verify_kzg_proof, Blob, KzgCommitment, KzgError, KzgProof,
    ProofAndEvaluation, BYTES_PER_BLOB,
};

fn blob(mark: u8) -> Blob {
    let mut bytes = vec![0u8; BYTES_PER_BLOB];
    for i in 0..4096 {
        bytes[32 * i + 31] = mark;
        bytes[32 * i + 30] = (i % 251) as u8;
    }
    Blob::new(bytes).unwrap()
}

#[test]
fn a_blob_has_a_fixed_length() {
    assert!(Blob::new(vec![0u8; BYTES_PER_BLOB]).is_some());
    assert!(Blob::new(vec![0u8; BYTES_PER_BLOB - 1]).is_none());
    assert!(Blob::new(vec![]).is_none());
    assert_eq!(blob(3).as_bytes().len(), 131072);
    assert_eq!(blob(3).as_bytes()[31], 3);
}

#[test]
fn commitments_and_proofs_verify() {
    let settings = c_kzg::ethereum_kzg_settings(0);
    let commitment = blob_to_kzg_commitment(blob(1), settings).unwrap();
    let expected = settings
        .blob_to_kzg_commitment(&c_kzg::Blob::from_bytes(blob(1).as_bytes()).unwrap())
        .unwrap()
        .to_bytes()
        .into_inner();
    assert_eq!(commitment, KzgCommitment(expected));
    assert_ne!(blob_to_kzg_commitment(blob(2), settings).unwrap(), commitment);
    let proof = compute_blob_kzg_proof(blob(1), commitment.0, settings).unwrap();
    assert_eq!(verify_blob_kzg_proof(blob(1), commitment.0, proof.0, settings), Ok(true));
    assert_eq!(verify_blob_kzg_proof(blob(2), commitment.0, proof.0, settings), Ok(false));
    let mut z = [0u8; 32];
    z[31] = 5;
    let ProofAndEvaluation { proof: at_z, evaluation } =
        compute_kzg_proof(blob(1), z, settings).unwrap();
    assert_eq!(verify_kzg_proof(commitment.0, z, evaluation, at_z.0, settings), Ok(true));
    let mut other = evaluation;
    other[31] ^= 1;
    assert_eq!(verify_kzg_proof(commitment.0, z, other, at_z.0, settings), Ok(false));
    assert_ne!(at_z, KzgProof([0u8; 48]));
}

#[test]
fn what_is_no_field_element_or_point_is_an_error() {
    let settings = c_kzg::ethereum_kzg_settings(0);
    let bad = Blob::new(vec![0xff; BYTES_PER_BLOB]).unwrap();
    assert_eq!(blob_to_kzg_commitment(bad, settings), Err(KzgError::Backend));
    let commitment = blob_to_kzg_commitment(blob(1), settings).unwrap();
    assert_eq!(
        verify_blob_kzg_proof(blob(1), commitment.0, [0xff; 48], settings),
        Err(KzgError::Backend)
    );
    assert_eq!(compute_kzg_proof(blob(1), [0xff; 32], settings), Err(KzgError::Backend));
}

#[test]
fn batches_verify_together() {
    let settings = c_kzg::ethereum_kzg_settings(0);
    let blobs = vec![blob(1), blob(2)];
    let commitments: Vec<[u8; 48]> =
        (1..=2).map(|i| blob_to_kzg_commitment(blob(i), settings).unwrap().0).collect();
    let proofs: Vec<[u8; 48]> = (1..=2)
        .map(|i| compute_blob_kzg_proof(blob(i), commitments[i as usize - 1], settings).unwrap().0)
        .collect();
    assert_eq!(verify_blob_kzg_proof_batch(&blobs, &commitments, &proofs, settings), Ok(true));
    let swapped = vec![proofs[1], proofs[0]];
    assert_eq!(verify_blob_kzg_proof_batch(&blobs, &commitments, &swapped, settings), Ok(false));
    assert_eq!(verify_blob_kzg_proof_batch(&vec![], &vec![], &vec![], settings), Ok(true));
    assert_eq!(
        verify_blob_kzg_proof_batch(&blobs, &commitments, &proofs[..1].to_vec(), settings),
        Err(KzgError::MismatchLength)
    );
    assert_eq!(
        verify_blob_kzg_proof_batch(&blobs, &commitments[..1].to_vec(), &proofs, settings),
        Err(KzgError::MismatchLength)
    );
}
