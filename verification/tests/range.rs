//! Circuit, setup and range-proof behaviour: completeness, boundary
//! soundness, and commitment binding.

use bound_check::circuit::BoundCheckCircuit;
use bound_check::errors::ProofSystemError;
use bound_check::snark::{prove, setup, verify, verify_commitment_opening};

#[test]
fn shape_only_has_no_assignment() {
    let circuit = BoundCheckCircuit::shape_only();
    assert_eq!(
        circuit.check_assignment(),
        Err(ProofSystemError::MissingAssignment)
    );
    let shape = circuit.shape();
    assert_eq!(shape.public_input_count, 2);
    assert_eq!(shape.witness_count, 1);
}

#[test]
fn in_range_assignment_is_accepted() {
    let circuit = BoundCheckCircuit::instantiate(100, 107, 103);
    assert_eq!(circuit.check_assignment(), Ok(()));
}

#[test]
fn boundary_assignments_are_rejected() {
    let at_min = BoundCheckCircuit::instantiate(100, 107, 100);
    assert_eq!(
        at_min.check_assignment(),
        Err(ProofSystemError::ConstraintUnsatisfied)
    );
    let at_max = BoundCheckCircuit::instantiate(100, 107, 107);
    assert_eq!(
        at_max.check_assignment(),
        Err(ProofSystemError::ConstraintUnsatisfied)
    );
    let below = BoundCheckCircuit::instantiate(100, 107, 99);
    assert_eq!(
        below.check_assignment(),
        Err(ProofSystemError::ConstraintUnsatisfied)
    );
}

#[test]
fn prove_then_verify_succeeds_in_range() {
    let shape = BoundCheckCircuit::shape_only();
    let (pk, vk) = setup(&shape, 1, 42);
    let circuit = BoundCheckCircuit::instantiate(100, 107, 103);
    let proof = prove(&circuit, 555, &pk).unwrap();
    assert_eq!(verify(&vk, &proof, &vec![100, 107]), Ok(()));
}

#[test]
fn verify_fails_against_other_bounds() {
    let shape = BoundCheckCircuit::shape_only();
    let (pk, vk) = setup(&shape, 1, 42);
    let circuit = BoundCheckCircuit::instantiate(100, 107, 103);
    let proof = prove(&circuit, 555, &pk).unwrap();
    assert_eq!(
        verify(&vk, &proof, &vec![104, 107]),
        Err(ProofSystemError::InvalidProof)
    );
}

#[test]
fn proving_fails_on_boundary_value() {
    let shape = BoundCheckCircuit::shape_only();
    let (pk, _vk) = setup(&shape, 1, 42);
    let at_min = BoundCheckCircuit::instantiate(100, 107, 100);
    assert_eq!(
        prove(&at_min, 555, &pk).unwrap_err(),
        ProofSystemError::ConstraintUnsatisfied
    );
    let at_max = BoundCheckCircuit::instantiate(100, 107, 107);
    assert_eq!(
        prove(&at_max, 555, &pk).unwrap_err(),
        ProofSystemError::ConstraintUnsatisfied
    );
}

#[test]
fn proving_fails_without_assignment() {
    let shape = BoundCheckCircuit::shape_only();
    let (pk, _vk) = setup(&shape, 1, 42);
    assert_eq!(
        prove(&shape, 555, &pk).unwrap_err(),
        ProofSystemError::MissingAssignment
    );
}

#[test]
fn proving_fails_on_mismatched_committable_count() {
    let shape = BoundCheckCircuit::shape_only();
    let (pk, _vk) = setup(&shape, 2, 42);
    let circuit = BoundCheckCircuit::instantiate(100, 107, 103);
    assert_eq!(prove(&circuit, 555, &pk).unwrap_err(), ProofSystemError::MalformedSpec);
}

#[test]
fn commitment_opens_only_with_exact_triple() {
    let shape = BoundCheckCircuit::shape_only();
    let (pk, vk) = setup(&shape, 1, 42);
    let circuit = BoundCheckCircuit::instantiate(100, 107, 103);
    let blinding: u64 = 987;
    let proof = prove(&circuit, blinding, &pk).unwrap();

    assert_eq!(proof.commitment.slot, 2);
    assert_eq!(vk.committed_slot(), 2);
    assert_eq!(
        verify_commitment_opening(&vk, &proof, vk.committed_slot(), &vec![103], blinding),
        Ok(())
    );
    assert_eq!(
        verify_commitment_opening(&vk, &proof, 1, &vec![103], blinding),
        Err(ProofSystemError::CommitmentMismatch)
    );
    assert_eq!(
        verify_commitment_opening(&vk, &proof, 3, &vec![103], blinding),
        Err(ProofSystemError::CommitmentMismatch)
    );
    assert_eq!(
        verify_commitment_opening(&vk, &proof, 2, &vec![106], blinding),
        Err(ProofSystemError::CommitmentMismatch)
    );
    assert_eq!(
        verify_commitment_opening(&vk, &proof, 2, &vec![103], blinding + 1),
        Err(ProofSystemError::CommitmentMismatch)
    );
}

#[test]
fn opening_under_foreign_key_fails() {
    let shape = BoundCheckCircuit::shape_only();
    let (pk, _vk) = setup(&shape, 1, 42);
    let (_other_pk, other_vk) = setup(&shape, 1, 43);
    let circuit = BoundCheckCircuit::instantiate(100, 107, 103);
    let proof = prove(&circuit, 987, &pk).unwrap();
    assert_eq!(
        verify_commitment_opening(&other_vk, &proof, 2, &vec![103], 987),
        Err(ProofSystemError::CommitmentMismatch)
    );
}
