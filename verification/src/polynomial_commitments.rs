//! Polynomial commitments to blobs of data, as `c_kzg` computes them.

use vstd::prelude::*;
use crate::primitives::Bytes32;

verus! {

/// How many bytes a blob holds.
pub const BYTES_PER_BLOB: usize = 131072;

/// How many bytes the context of a proof holds.
pub const BYTES_PER_CONTEXT: usize = 10;

/// How many bytes a commitment holds.
pub const BYTES_PER_COMMITMENT: usize = 48;

/// How many bytes a field element holds.
pub const BYTES_PER_FIELD_ELEMENT: usize = 32;

/// How many bytes a proof holds.
pub const BYTES_PER_PROOF: usize = 48;

/// How many bytes a commitment holds.
pub const KZG_COMMITMENT_BYTES_LEN: usize = 48;

/// How many bytes a proof holds.
pub const KZG_PROOF_BYTES_LEN: usize = 48;

/// A string of 48 bytes.
pub type Bytes48 = [u8; 48];

/// The hash of a commitment, with a version in its first byte.
pub type VersionedHash = Bytes32;

/// `c_kzg::KzgSettings`, the trusted setup: carried through as it is.
#[verifier::external_type_specification]
#[verifier::external_body]
pub struct ExKzgSettings(c_kzg::KzgSettings);

/// `c_kzg::Error`: carried through as it is, and told apart by `classify`.
#[verifier::external_type_specification]
#[verifier::external_body]
pub struct ExKzgError(c_kzg::Error);

/// Why a commitment or a proof could not be computed or checked.
#[derive(Clone, Copy, Debug, PartialEq, Eq)]
pub enum KzgError {
    InvalidBytesLength,
    InvalidHexFormat,
    InvalidKzgProof,
    InvalidKzgCommitment,
    InvalidTrustedSetup,
    MismatchLength,
    LoadingTrustedSetupFailed,
    Backend,
}

/// A blob: `BYTES_PER_BLOB` bytes of data.
pub struct Blob {
    bytes: Vec<u8>,
}

impl Blob {
    #[verifier::type_invariant]
    spec fn well_formed(&self) -> bool {
        self.bytes@.len() == BYTES_PER_BLOB
    }

    /// The bytes of the blob.
    pub closed spec fn view(&self) -> Seq<u8> {
        self.bytes@
    }

    /// A blob of the given bytes, where they are as many as a blob holds.
    pub fn new(bytes: Vec<u8>) -> (r: Option<Blob>)
        ensures
            r is Some <==> bytes@.len() == BYTES_PER_BLOB,
            r matches Some(b) ==> b@ == bytes@,
    {
        if bytes.len() == BYTES_PER_BLOB {
            Some(Blob { bytes })
        } else {
            None
        }
    }

    /// The bytes of the value.
    pub fn as_bytes(&self) -> (r: &Vec<u8>)
        ensures
            r@ == self@,
            r@.len() == BYTES_PER_BLOB,
    {
        proof {
            use_type_invariant(self);
        }
        &self.bytes
    }
}

/// A commitment to a blob.
#[derive(Clone, Copy, Debug, PartialEq, Eq)]
pub struct KzgCommitment(pub Bytes48);

/// A proof that a committed blob takes a value at a point.
#[derive(Clone, Copy, Debug, PartialEq, Eq)]
pub struct KzgProof(pub Bytes48);

/// A proof together with the value that it proves.
#[derive(Clone, Copy, Debug, PartialEq, Eq)]
pub struct ProofAndEvaluation {
    pub proof: KzgProof,
    pub evaluation: Bytes32,
}

/// The commitment to `blob` under `settings`, where the backend finds one.
pub uninterp spec fn kzg_commitment_of(settings: &c_kzg::KzgSettings, blob: Seq<u8>) -> Option<
    Bytes48,
>;

/// The proof for `blob` at the point `z`, with the value there, under
/// `settings`, where the backend finds one.
pub uninterp spec fn kzg_proof_at(
    settings: &c_kzg::KzgSettings,
    blob: Seq<u8>,
    z: Bytes32,
) -> Option<(Bytes48, Bytes32)>;

/// The proof that ties `blob` to `commitment` under `settings`, where the
/// backend finds one.
pub uninterp spec fn kzg_blob_proof_of(
    settings: &c_kzg::KzgSettings,
    blob: Seq<u8>,
    commitment: Bytes48,
) -> Option<Bytes48>;

/// Whether `proof` shows that `commitment` takes the value `y` at `z` under
/// `settings`, where the backend can tell.
pub uninterp spec fn kzg_proof_verdict(
    settings: &c_kzg::KzgSettings,
    commitment: Bytes48,
    z: Bytes32,
    y: Bytes32,
    proof: Bytes48,
) -> Option<bool>;

/// Whether `proof` ties `blob` to `commitment` under `settings`, where the
/// backend can tell.
pub uninterp spec fn kzg_blob_proof_verdict(
    settings: &c_kzg::KzgSettings,
    blob: Seq<u8>,
    commitment: Bytes48,
    proof: Bytes48,
) -> Option<bool>;

/// Whether each proof ties its blob to its commitment under `settings`,
/// where the backend can tell.
pub uninterp spec fn kzg_batch_verdict(
    settings: &c_kzg::KzgSettings,
    blobs: Seq<Seq<u8>>,
    commitments: Seq<Bytes48>,
    proofs: Seq<Bytes48>,
) -> Option<bool>;

/// The bytes of each row, in order.
pub open spec fn rows(v: Seq<Vec<u8>>) -> Seq<Seq<u8>> {
    Seq::new(v.len(), |i: int| v[i]@)
}

/// Tells the variants of `c_kzg::Error` apart.
#[verifier::external_body]
fn classify(error: &c_kzg::Error) -> KzgError {
    match error {
        c_kzg::Error::InvalidBytesLength(_) => KzgError::InvalidBytesLength,
        c_kzg::Error::InvalidHexFormat(_) => KzgError::InvalidHexFormat,
        c_kzg::Error::InvalidKzgProof(_) => KzgError::InvalidKzgProof,
        c_kzg::Error::InvalidKzgCommitment(_) => KzgError::InvalidKzgCommitment,
        c_kzg::Error::InvalidTrustedSetup(_) => KzgError::InvalidTrustedSetup,
        c_kzg::Error::MismatchLength(_) => KzgError::MismatchLength,
        c_kzg::Error::LoadingTrustedSetupFailed(_) => KzgError::LoadingTrustedSetupFailed,
        c_kzg::Error::CError(_) => KzgError::Backend,
    }
}

/// `c_kzg::KzgSettings::blob_to_kzg_commitment` on a blob read from its
/// bytes. The contract names the commitment, and the failure where there is
/// none.
#[verifier::external_body]
fn commit(blob: &Vec<u8>, settings: &c_kzg::KzgSettings) -> (r: Result<Bytes48, c_kzg::Error>)
    ensures
        r is Ok <==> kzg_commitment_of(settings, blob@) is Some,
        r matches Ok(c) ==> kzg_commitment_of(settings, blob@) == Some(c),
{
    let blob = c_kzg::Blob::from_bytes(blob)?;
    Ok(settings.blob_to_kzg_commitment(&blob)?.to_bytes().into_inner())
}

/// `c_kzg::KzgSettings::compute_kzg_proof` on a blob read from its bytes. The
/// contract names the proof and the value, and the failure where there is
/// none.
#[verifier::external_body]
fn prove_at(blob: &Vec<u8>, z: &Bytes32, settings: &c_kzg::KzgSettings) -> (r: Result<
    (Bytes48, Bytes32),
    c_kzg::Error,
>)
    ensures
        r is Ok <==> kzg_proof_at(settings, blob@, *z) is Some,
        r matches Ok(p) ==> kzg_proof_at(settings, blob@, *z) == Some(p),
{
    let blob = c_kzg::Blob::from_bytes(blob)?;
    let (proof, y) = settings.compute_kzg_proof(&blob, &c_kzg::Bytes32::new(*z))?;
    Ok((proof.to_bytes().into_inner(), *y))
}

/// `c_kzg::KzgSettings::compute_blob_kzg_proof` on a blob read from its
/// bytes. The contract names the proof, and the failure where there is none.
#[verifier::external_body]
fn prove_blob(blob: &Vec<u8>, commitment: &Bytes48, settings: &c_kzg::KzgSettings) -> (r: Result<
    Bytes48,
    c_kzg::Error,
>)
    ensures
        r is Ok <==> kzg_blob_proof_of(settings, blob@, *commitment) is Some,
        r matches Ok(p) ==> kzg_blob_proof_of(settings, blob@, *commitment) == Some(p),
{
    let blob = c_kzg::Blob::from_bytes(blob)?;
    let commitment = c_kzg::Bytes48::new(*commitment);
    Ok(settings.compute_blob_kzg_proof(&blob, &commitment)?.to_bytes().into_inner())
}

/// `c_kzg::KzgSettings::verify_kzg_proof`. The contract names the verdict,
/// and the failure where there is none.
#[verifier::external_body]
fn check_proof(
    commitment: &Bytes48,
    z: &Bytes32,
    y: &Bytes32,
    proof: &Bytes48,
    settings: &c_kzg::KzgSettings,
) -> (r: Result<bool, c_kzg::Error>)
    ensures
        r is Ok <==> kzg_proof_verdict(settings, *commitment, *z, *y, *proof) is Some,
        r matches Ok(v) ==> kzg_proof_verdict(settings, *commitment, *z, *y, *proof) == Some(v),
{
    settings.verify_kzg_proof(
        &c_kzg::Bytes48::new(*commitment),
        &c_kzg::Bytes32::new(*z),
        &c_kzg::Bytes32::new(*y),
        &c_kzg::Bytes48::new(*proof),
    )
}

/// `c_kzg::KzgSettings::verify_blob_kzg_proof` on a blob read from its
/// bytes. The contract names the verdict, and the failure where there is
/// none.
#[verifier::external_body]
fn check_blob_proof(
    blob: &Vec<u8>,
    commitment: &Bytes48,
    proof: &Bytes48,
    settings: &c_kzg::KzgSettings,
) -> (r: Result<bool, c_kzg::Error>)
    ensures
        r is Ok <==> kzg_blob_proof_verdict(settings, blob@, *commitment, *proof) is Some,
        r matches Ok(v) ==> kzg_blob_proof_verdict(settings, blob@, *commitment, *proof) == Some(
            v,
        ),
{
    let blob = c_kzg::Blob::from_bytes(blob)?;
    settings.verify_blob_kzg_proof(
        &blob,
        &c_kzg::Bytes48::new(*commitment),
        &c_kzg::Bytes48::new(*proof),
    )
}

/// `c_kzg::KzgSettings::verify_blob_kzg_proof_batch` on blobs read from
/// their bytes. The contract names the verdict, and the failure where there
/// is none; the outside function fails where the three lists differ in
/// length.
#[verifier::external_body]
fn check_batch(
    blobs: &Vec<Vec<u8>>,
    commitments: &Vec<Bytes48>,
    proofs: &Vec<Bytes48>,
    settings: &c_kzg::KzgSettings,
) -> (r: Result<bool, c_kzg::Error>)
    ensures
        r is Ok <==> kzg_batch_verdict(settings, rows(blobs@), commitments@, proofs@)
            is Some,
        r matches Ok(v) ==> kzg_batch_verdict(settings, rows(blobs@), commitments@, proofs@)
            == Some(v),
        (blobs@.len() != commitments@.len() || blobs@.len() != proofs@.len()) ==> r is Err,
{
    let blobs: Result<Vec<c_kzg::Blob>, c_kzg::Error> =
        blobs.iter().map(|b| c_kzg::Blob::from_bytes(b)).collect();
    let commitments: Vec<c_kzg::Bytes48> =
        commitments.iter().map(|c| c_kzg::Bytes48::new(*c)).collect();
    let proofs: Vec<c_kzg::Bytes48> = proofs.iter().map(|p| c_kzg::Bytes48::new(*p)).collect();
    settings.verify_blob_kzg_proof_batch(&blobs?, &commitments, &proofs)
}

/// The commitment to `blob`.
pub fn blob_to_kzg_commitment(blob: Blob, kzg_settings: &c_kzg::KzgSettings) -> (r: Result<
    KzgCommitment,
    KzgError,
>)
    ensures
        r is Ok <==> kzg_commitment_of(kzg_settings, blob@) is Some,
        r matches Ok(c) ==> kzg_commitment_of(kzg_settings, blob@) == Some(c.0),
{
    match commit(blob.as_bytes(), kzg_settings) {
        Ok(bytes) => Ok(KzgCommitment(bytes)),
        Err(e) => Err(classify(&e)),
    }
}

/// The proof for `blob` at the point `z_bytes`, with the value there.
pub fn compute_kzg_proof(blob: Blob, z_bytes: Bytes32, kzg_settings: &c_kzg::KzgSettings) -> (r:
    Result<ProofAndEvaluation, KzgError>)
    ensures
        r is Ok <==> kzg_proof_at(kzg_settings, blob@, z_bytes) is Some,
        r matches Ok(p) ==> kzg_proof_at(kzg_settings, blob@, z_bytes) == Some(
            (p.proof.0, p.evaluation),
        ),
{
    match prove_at(blob.as_bytes(), &z_bytes, kzg_settings) {
        Ok((proof, evaluation)) => Ok(ProofAndEvaluation { proof: KzgProof(proof), evaluation }),
        Err(e) => Err(classify(&e)),
    }
}

/// The proof that ties `blob` to the commitment `commitment_bytes`.
pub fn compute_blob_kzg_proof(
    blob: Blob,
    commitment_bytes: Bytes48,
    kzg_settings: &c_kzg::KzgSettings,
) -> (r: Result<KzgProof, KzgError>)
    ensures
        r is Ok <==> kzg_blob_proof_of(kzg_settings, blob@, commitment_bytes) is Some,
        r matches Ok(p) ==> kzg_blob_proof_of(kzg_settings, blob@, commitment_bytes) == Some(p.0),
{
    match prove_blob(blob.as_bytes(), &commitment_bytes, kzg_settings) {
        Ok(bytes) => Ok(KzgProof(bytes)),
        Err(e) => Err(classify(&e)),
    }
}

/// Whether `proof_bytes` shows that the commitment takes the value `y_bytes`
/// at `z_bytes`.
pub fn verify_kzg_proof(
    commitment_bytes: Bytes48,
    z_bytes: Bytes32,
    y_bytes: Bytes32,
    proof_bytes: Bytes48,
    kzg_settings: &c_kzg::KzgSettings,
) -> (r: Result<bool, KzgError>)
    ensures
        r is Ok <==> kzg_proof_verdict(kzg_settings, commitment_bytes, z_bytes, y_bytes, proof_bytes)
            is Some,
        r matches Ok(v) ==> kzg_proof_verdict(
            kzg_settings,
            commitment_bytes,
            z_bytes,
            y_bytes,
            proof_bytes,
        ) == Some(v),
{
    match check_proof(&commitment_bytes, &z_bytes, &y_bytes, &proof_bytes, kzg_settings) {
        Ok(v) => Ok(v),
        Err(e) => Err(classify(&e)),
    }
}

/// Whether `proof_bytes` ties `blob` to the commitment `commitment_bytes`.
pub fn verify_blob_kzg_proof(
    blob: Blob,
    commitment_bytes: Bytes48,
    proof_bytes: Bytes48,
    kzg_settings: &c_kzg::KzgSettings,
) -> (r: Result<bool, KzgError>)
    ensures
        r is Ok <==> kzg_blob_proof_verdict(kzg_settings, blob@, commitment_bytes, proof_bytes)
            is Some,
        r matches Ok(v) ==> kzg_blob_proof_verdict(
            kzg_settings,
            blob@,
            commitment_bytes,
            proof_bytes,
        ) == Some(v),
{
    match check_blob_proof(blob.as_bytes(), &commitment_bytes, &proof_bytes, kzg_settings) {
        Ok(v) => Ok(v),
        Err(e) => Err(classify(&e)),
    }
}

/// The bytes of each blob, in order.
pub open spec fn blob_bytes(blobs: Seq<Blob>) -> Seq<Seq<u8>> {
    Seq::new(blobs.len(), |i: int| blobs[i]@)
}

/// Whether each of `proofs_bytes` ties the blob at its position to the
/// commitment at its position.
pub fn verify_blob_kzg_proof_batch(
    blobs: &Vec<Blob>,
    commitments_bytes: &Vec<Bytes48>,
    proofs_bytes: &Vec<Bytes48>,
    kzg_settings: &c_kzg::KzgSettings,
) -> (r: Result<bool, KzgError>)
    ensures
        r is Ok <==> kzg_batch_verdict(
            kzg_settings,
            blob_bytes(blobs@),
            commitments_bytes@,
            proofs_bytes@,
        ) is Some,
        r matches Ok(v) ==> kzg_batch_verdict(
            kzg_settings,
            blob_bytes(blobs@),
            commitments_bytes@,
            proofs_bytes@,
        ) == Some(v),
        (blobs@.len() != commitments_bytes@.len() || blobs@.len() != proofs_bytes@.len()) ==> r
            is Err,
{
    let mut raw: Vec<Vec<u8>> = Vec::new();
    let mut i: usize = 0;
    while i < blobs.len()
        invariant
            i <= blobs.len(),
            raw@.len() == i,
            forall|j: int| 0 <= j < i ==> (#[trigger] raw@[j])@ == blobs@[j]@,
        decreases blobs.len() - i,
    {
        let bytes = crate::primitives::copy_vec(blobs[i].as_bytes());
        raw.push(bytes);
        i += 1;
    }
    assert(rows(raw@) =~= blob_bytes(blobs@));
    match check_batch(&raw, commitments_bytes, proofs_bytes, kzg_settings) {
        Ok(v) => Ok(v),
        Err(e) => Err(classify(&e)),
    }
}

} // verus!
