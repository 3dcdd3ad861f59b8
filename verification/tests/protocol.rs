//! Composition and orchestration: the full credential scenario, witness
//! linking, spec binding, and validation failures.

use bound_check::aggregate::{build_proof, verify_proof};
use bound_check::circuit::BoundCheckCircuit;
use bound_check::composition::{
    EqualWitnesses, MetaStatement, MetaStatements, ProofSpec, Signature, Statement, Statements,
    Witness, WitnessRef, Witnesses,
};
use bound_check::errors::ProofSystemError;
use bound_check::prover::ProofBuilder;
use bound_check::snark::{prove, setup, verify, verify_commitment_opening, Commitment};

const SIGNER_KEY: u64 = 7;

fn signed_attributes() -> Vec<u64> {
    // Ten signed attributes; index 4 holds the one whose bounds are proved.
    vec![11, 22, 33, 44, 103, 55, 66, 77, 88, 99]
}

fn equality_over(refs: &[(usize, usize)]) -> EqualWitnesses {
    let mut eq = EqualWitnesses::new();
    for &(s, w) in refs {
        eq.insert(WitnessRef {
            statement_idx: s,
            witness_idx: w,
        });
    }
    eq
}

struct Scenario {
    proof_spec: ProofSpec,
    witnesses: Witnesses,
}

/// The two-statement setup of the credential scenario: a signature
/// statement over ten messages and a Pedersen statement over the range
/// proof's commitment, linked at (0, msg_idx) == (1, 0).
fn scenario(msg_idx: usize, committed: Vec<u64>, commitment: Commitment) -> Scenario {
    let messages = signed_attributes();
    let signature = Signature::sign(&messages, SIGNER_KEY);

    let mut statements = Statements::new();
    statements.add(Statement::SignatureKnowledge {
        public_key: SIGNER_KEY,
        message_count: messages.len(),
        revealed: Vec::new(),
    });
    statements.add(Statement::PedersenCommitment { commitment });

    let mut meta_statements = MetaStatements::new();
    meta_statements.add(MetaStatement::WitnessEquality(equality_over(&[
        (0, msg_idx),
        (1, 0),
    ])));

    let proof_spec = ProofSpec {
        statements,
        meta_statements,
        context: None,
    };

    let mut witnesses = Witnesses::new();
    witnesses.add(Witness::SignatureKnowledge {
        signature,
        messages,
    });
    witnesses.add(Witness::PedersenCommitment { opening: committed });

    Scenario {
        proof_spec,
        witnesses,
    }
}

#[test]
fn bound_check_message() {
    // The prover holds a signature over ten messages and shows that the
    // message at index 4 satisfies min < message < max without revealing
    // it, linking the ranged value to the signed one.
    let messages = signed_attributes();
    let signature = Signature::sign(&messages, SIGNER_KEY);
    signature.verify(&messages, SIGNER_KEY).unwrap();

    // Only one witness, the bounded message, is committed.
    let commit_witness_count = 1;
    let shape = BoundCheckCircuit::shape_only();
    let (pk, vk) = setup(&shape, commit_witness_count, 42);

    let blinding: u64 = 987;
    let msg_idx = 4;
    let msg_val = messages[msg_idx];

    let min: u64 = 100;
    let max: u64 = 107;
    let circuit = BoundCheckCircuit::instantiate(min, max, msg_val);
    let zk_snark = prove(&circuit, blinding, &pk).unwrap();

    // Prover-side sanity check that the commitment is correct.
    verify_commitment_opening(&vk, &zk_snark, 2, &[msg_val].to_vec(), blinding).unwrap();
    assert!(verify_commitment_opening(&vk, &zk_snark, 1, &[msg_val].to_vec(), blinding).is_err());
    assert!(verify_commitment_opening(&vk, &zk_snark, 3, &[msg_val].to_vec(), blinding).is_err());
    assert!(verify_commitment_opening(&vk, &zk_snark, 2, &[106].to_vec(), blinding).is_err());

    // The commitment opening both statements share.
    let committed = vec![msg_val, blinding];
    let sc = scenario(msg_idx, committed, zk_snark.commitment.clone());

    let proof = build_proof(sc.proof_spec.clone(), sc.witnesses, None).unwrap();

    // The range proof itself verifies against the public bounds.
    verify(&vk, &zk_snark, &vec![min, max]).unwrap();
    // Against bounds that exclude the value it does not.
    assert!(verify(&vk, &zk_snark, &vec![104, max]).is_err());

    verify_proof(&sc.proof_spec, &proof, &None).unwrap();
}

#[test]
fn linking_fails_when_hidden_values_differ() {
    // The committed value 102 differs from the signed message 103.
    let commitment = Commitment {
        slot: 2,
        opening: vec![102, 987],
    };
    let sc = scenario(4, vec![102, 987], commitment);
    let proof = build_proof(sc.proof_spec.clone(), sc.witnesses, None).unwrap();
    assert_eq!(
        verify_proof(&sc.proof_spec, &proof, &None),
        Err(ProofSystemError::MetaStatementUnsatisfied)
    );
}

#[test]
fn linking_succeeds_when_hidden_values_agree() {
    let commitment = Commitment {
        slot: 2,
        opening: vec![103, 987],
    };
    let sc = scenario(4, vec![103, 987], commitment);
    let proof = build_proof(sc.proof_spec.clone(), sc.witnesses, None).unwrap();
    assert_eq!(verify_proof(&sc.proof_spec, &proof, &None), Ok(()));
}

#[test]
fn proof_is_bound_to_its_context() {
    let commitment = Commitment {
        slot: 2,
        opening: vec![103, 987],
    };
    let sc = scenario(4, vec![103, 987], commitment);
    let proof = build_proof(sc.proof_spec.clone(), sc.witnesses, None).unwrap();
    assert_eq!(
        verify_proof(&sc.proof_spec, &proof, &Some(vec![1, 2, 3])),
        Err(ProofSystemError::InvalidProof)
    );
}

#[test]
fn proof_is_bound_to_its_spec() {
    let commitment = Commitment {
        slot: 2,
        opening: vec![103, 987],
    };
    let sc = scenario(4, vec![103, 987], commitment.clone());
    let proof = build_proof(sc.proof_spec.clone(), sc.witnesses, None).unwrap();

    // Reordered statements are a different public description.
    let mut reordered = Statements::new();
    reordered.add(Statement::PedersenCommitment {
        commitment: commitment.clone(),
    });
    reordered.add(Statement::SignatureKnowledge {
        public_key: SIGNER_KEY,
        message_count: 10,
        revealed: Vec::new(),
    });
    let mut meta_statements = MetaStatements::new();
    meta_statements.add(MetaStatement::WitnessEquality(equality_over(&[
        (0, 4),
        (1, 0),
    ])));
    let other_spec = ProofSpec {
        statements: reordered,
        meta_statements,
        context: None,
    };
    assert_eq!(
        verify_proof(&other_spec, &proof, &None),
        Err(ProofSystemError::InvalidProof)
    );

    // A different equality set is a different public description too.
    let mut other_metas = MetaStatements::new();
    other_metas.add(MetaStatement::WitnessEquality(equality_over(&[
        (0, 3),
        (1, 0),
    ])));
    let mut spec_changed_eq = sc.proof_spec.clone();
    spec_changed_eq.meta_statements = other_metas;
    assert_eq!(
        verify_proof(&spec_changed_eq, &proof, &None),
        Err(ProofSystemError::InvalidProof)
    );
}

#[test]
fn construction_rejects_out_of_bounds_references() {
    let commitment = Commitment {
        slot: 2,
        opening: vec![103, 987],
    };
    // witness_idx 10 does not exist in a ten-message statement.
    let mut sc = scenario(4, vec![103, 987], commitment);
    let mut metas = MetaStatements::new();
    metas.add(MetaStatement::WitnessEquality(equality_over(&[
        (0, 10),
        (1, 0),
    ])));
    sc.proof_spec.meta_statements = metas;
    assert_eq!(
        build_proof(sc.proof_spec, sc.witnesses, None).unwrap_err(),
        ProofSystemError::MalformedSpec
    );
}

#[test]
fn construction_rejects_single_reference_sets() {
    let commitment = Commitment {
        slot: 2,
        opening: vec![103, 987],
    };
    let mut sc = scenario(4, vec![103, 987], commitment);
    let mut metas = MetaStatements::new();
    metas.add(MetaStatement::WitnessEquality(equality_over(&[(0, 4)])));
    sc.proof_spec.meta_statements = metas;
    assert_eq!(
        build_proof(sc.proof_spec, sc.witnesses, None).unwrap_err(),
        ProofSystemError::MalformedSpec
    );
}

#[test]
fn construction_rejects_mismatched_witness_kinds() {
    let commitment = Commitment {
        slot: 2,
        opening: vec![103, 987],
    };
    let sc = scenario(4, vec![103, 987], commitment);
    // Swap the witnesses: kinds no longer line up with the statements.
    let mut swapped = Witnesses::new();
    swapped.add(Witness::PedersenCommitment {
        opening: vec![103, 987],
    });
    swapped.add(Witness::SignatureKnowledge {
        signature: Signature::sign(&signed_attributes(), SIGNER_KEY),
        messages: signed_attributes(),
    });
    assert_eq!(
        build_proof(sc.proof_spec, swapped, None).unwrap_err(),
        ProofSystemError::MalformedSpec
    );
}

#[test]
fn forged_signature_fails_statement_check() {
    let commitment = Commitment {
        slot: 2,
        opening: vec![103, 987],
    };
    let mut sc = scenario(4, vec![103, 987], commitment);
    // A signature by a different signer backs the witness.
    let mut forged = Witnesses::new();
    forged.add(Witness::SignatureKnowledge {
        signature: Signature::sign(&signed_attributes(), SIGNER_KEY + 1),
        messages: signed_attributes(),
    });
    forged.add(Witness::PedersenCommitment {
        opening: vec![103, 987],
    });
    sc.witnesses = forged;
    let proof = build_proof(sc.proof_spec.clone(), sc.witnesses, None).unwrap();
    assert_eq!(
        verify_proof(&sc.proof_spec, &proof, &None),
        Err(ProofSystemError::InvalidProof)
    );
}

#[test]
fn revealed_positions_are_checked() {
    let messages = signed_attributes();
    let commitment = Commitment {
        slot: 2,
        opening: vec![103, 987],
    };
    let mut statements = Statements::new();
    statements.add(Statement::SignatureKnowledge {
        public_key: SIGNER_KEY,
        message_count: messages.len(),
        // Claim position 0 holds 12, but the signed value is 11.
        revealed: vec![(0, 12)],
    });
    statements.add(Statement::PedersenCommitment { commitment });
    let proof_spec = ProofSpec {
        statements,
        meta_statements: MetaStatements::new(),
        context: None,
    };
    let mut witnesses = Witnesses::new();
    witnesses.add(Witness::SignatureKnowledge {
        signature: Signature::sign(&messages, SIGNER_KEY),
        messages,
    });
    witnesses.add(Witness::PedersenCommitment {
        opening: vec![103, 987],
    });
    let proof = build_proof(proof_spec.clone(), witnesses, None).unwrap();
    assert_eq!(
        verify_proof(&proof_spec, &proof, &None),
        Err(ProofSystemError::InvalidProof)
    );
}

#[test]
fn builder_walks_the_proof_states() {
    let commitment = Commitment {
        slot: 2,
        opening: vec![103, 987],
    };
    let sc = scenario(4, vec![103, 987], commitment);

    let skipped = ProofBuilder::new();
    assert_eq!(
        skipped.construct(None).unwrap_err(),
        ProofSystemError::MalformedSpec
    );

    let mut builder = ProofBuilder::new();
    builder.fix_spec(sc.proof_spec.clone());
    builder.bind_witnesses(sc.witnesses);
    let proof = builder.construct(None).unwrap();
    assert_eq!(verify_proof(&sc.proof_spec, &proof, &None), Ok(()));
}

#[test]
fn equality_sets_ignore_duplicate_references() {
    let eq = equality_over(&[(0, 4), (1, 0), (0, 4)]);
    assert_eq!(eq.count(), 2);
    assert_eq!(
        eq.ref_at(0),
        WitnessRef {
            statement_idx: 0,
            witness_idx: 4
        }
    );
    assert_eq!(
        eq.ref_at(1),
        WitnessRef {
            statement_idx: 1,
            witness_idx: 0
        }
    );
}

#[test]
fn signature_model_rejects_tampering() {
    let messages = signed_attributes();
    let signature = Signature::sign(&messages, SIGNER_KEY);
    assert_eq!(signature.verify(&messages, SIGNER_KEY), Ok(()));
    assert_eq!(
        signature.verify(&messages, SIGNER_KEY + 1),
        Err(ProofSystemError::InvalidProof)
    );
    let mut altered = messages.clone();
    altered[4] = 104;
    assert_eq!(
        signature.verify(&altered, SIGNER_KEY),
        Err(ProofSystemError::InvalidProof)
    );
}
