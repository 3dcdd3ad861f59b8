//! Setup and the commitment-capable succinct prover/verifier, modelled over
//! plain integer representatives.
//!
//! The real backend compiles the circuit into a pairing-based constraint
//! system; a proof there is a handful of group elements, and its bundled
//! Pedersen-style commitment `D` is one more.  This module keeps the exact
//! decision structure of that pipeline: which inputs make proving fail and
//! with which error, what a proof binds (key material, public inputs, the
//! committed witnesses with their blinding), and when verification and
//! commitment-opening checks accept.  A [`Commitment`] value stands for the
//! group element `D`; under the binding property of the commitment scheme,
//! equality of group elements coincides with equality of slot, committed
//! values and blinding, which is how this model states it.  The hiding
//! property is the curve's concern and has no observable effect here.

use vstd::prelude::*;
use crate::circuit::BoundCheckCircuit;
use crate::errors::ProofSystemError;
use crate::vecs::eq_u64_vec;

verus! {

/// Setup artifact held by the prover, bound to one circuit shape, one
/// committable-witness count, and the setup randomness that generated it.
#[derive(Clone, Copy, Debug, PartialEq, Eq, Structural)]
pub struct ProvingKey {
    pub public_input_count: usize,
    pub committable_witness_count: usize,
    pub key_seed: u64,
}

/// Setup artifact held by the verifier, matching its proving key.
#[derive(Clone, Copy, Debug, PartialEq, Eq, Structural)]
pub struct VerifyingKey {
    pub public_input_count: usize,
    pub committable_witness_count: usize,
    pub key_seed: u64,
}

/// A hiding, binding commitment to a tuple of witness values plus blinding
/// randomness, against the basis elements that belong to one key-material
/// slot.  `opening` is the committed tuple followed by the blinding.
#[derive(Clone, Debug)]
pub struct Commitment {
    pub slot: usize,
    pub opening: Vec<u64>,
}

/// A succinct proof of constraint satisfaction, bundling the commitment `D`
/// to the designated committable witnesses.  The public inputs and the key
/// material it was produced under are baked into its group elements; the
/// model records them directly.
#[derive(Clone, Debug)]
pub struct SnarkProof {
    pub key_seed: u64,
    pub public_inputs: Vec<u64>,
    pub commitment: Commitment,
}

impl VerifyingKey {
    /// The key-material slot whose basis elements carry the committed
    /// witnesses: the one just past the public input wires.
    pub fn committed_slot(&self) -> (s: usize)
        ensures
            s == self.public_input_count,
    {
        self.public_input_count
    }
}

/// One-time setup for a circuit shape.  `committable_witness_count` fixes
/// how many witness wires later surface as a commitment instead of being
/// folded into the proof; it must match what the prover commits, or the
/// commitment-based operations fail.  Deterministic for fixed `randomness`;
/// the randomness must be fresh per shape in production.
pub fn setup(
    circuit_shape: &BoundCheckCircuit,
    committable_witness_count: usize,
    randomness: u64,
) -> (keys: (ProvingKey, VerifyingKey))
    ensures
        keys.0.public_input_count == circuit_shape.shape_spec().public_input_count,
        keys.0.committable_witness_count == committable_witness_count,
        keys.0.key_seed == randomness,
        keys.1.public_input_count == keys.0.public_input_count,
        keys.1.committable_witness_count == keys.0.committable_witness_count,
        keys.1.key_seed == keys.0.key_seed,
{
    let shape = circuit_shape.shape();
    let pk = ProvingKey {
        public_input_count: shape.public_input_count,
        committable_witness_count,
        key_seed: randomness,
    };
    let vk = VerifyingKey {
        public_input_count: shape.public_input_count,
        committable_witness_count,
        key_seed: randomness,
    };
    (pk, vk)
}

/// What the proof of a fully assigned, satisfied circuit binds under a key:
/// that key's material, public inputs `[min, max]`, and a commitment to
/// `[value, blinding]` at the slot just past the public input wires.
pub open spec fn is_proof_of(
    p: SnarkProof,
    circuit: BoundCheckCircuit,
    blinding: u64,
    pk: ProvingKey,
) -> bool {
    &&& p.key_seed == pk.key_seed
    &&& p.public_inputs@ == seq![circuit.min->0, circuit.max->0]
    &&& p.commitment.slot == pk.public_input_count
    &&& p.commitment.opening@ == seq![circuit.value->0, blinding]
}

/// Produce a succinct proof plus the bundled commitment.  The blinding
/// randomness must be drawn fresh per proof: reusing it across two proofs
/// over the same committed slot breaks hiding.  Fails with
/// `MissingAssignment` on an unassigned wire, with `MalformedSpec` when the
/// key's committable-witness count differs from the circuit's single
/// committable wire, and with `ConstraintUnsatisfied` when the assignment
/// violates the range; succeeds exactly on satisfied assignments under a
/// matching key.
pub fn prove(
    circuit: &BoundCheckCircuit,
    blinding: u64,
    pk: &ProvingKey,
) -> (r: Result<SnarkProof, ProofSystemError>)
    ensures
        (r is Ok <==> (circuit.satisfied()
            && pk.committable_witness_count == circuit.shape_spec().witness_count)),
        r is Ok ==> is_proof_of(r->Ok_0, *circuit, blinding, *pk),
        !circuit.fully_assigned() ==> r == Err::<SnarkProof, ProofSystemError>(
            ProofSystemError::MissingAssignment,
        ),
        (circuit.fully_assigned()
            && pk.committable_witness_count != circuit.shape_spec().witness_count) ==> r
            == Err::<SnarkProof, ProofSystemError>(ProofSystemError::MalformedSpec),
        (circuit.fully_assigned()
            && pk.committable_witness_count == circuit.shape_spec().witness_count
            && !circuit.satisfied()) ==> r == Err::<SnarkProof, ProofSystemError>(
            ProofSystemError::ConstraintUnsatisfied,
        ),
{
    match (circuit.min, circuit.max, circuit.value) {
        (Some(min), Some(max), Some(value)) => {
            let shape = circuit.shape();
            if pk.committable_witness_count != shape.witness_count {
                Err(ProofSystemError::MalformedSpec)
            } else if min < value && value < max {
                let mut public_inputs: Vec<u64> = Vec::new();
                public_inputs.push(min);
                public_inputs.push(max);
                let mut opening: Vec<u64> = Vec::new();
                opening.push(value);
                opening.push(blinding);
                proof {
                    assert(public_inputs@ =~= seq![min, max]);
                    assert(opening@ =~= seq![value, blinding]);
                }
                Ok(SnarkProof {
                    key_seed: pk.key_seed,
                    public_inputs,
                    commitment: Commitment { slot: pk.public_input_count, opening },
                })
            } else {
                Err(ProofSystemError::ConstraintUnsatisfied)
            }
        },
        _ => Err(ProofSystemError::MissingAssignment),
    }
}

/// When succinct-proof verification accepts: the proof was produced under
/// the key material of `vk`, over exactly the claimed public inputs.
pub open spec fn verify_ok(vk: VerifyingKey, proof: SnarkProof, public_inputs: Seq<u64>) -> bool {
    proof.key_seed == vk.key_seed && proof.public_inputs@ == public_inputs
}

/// Standard succinct-proof verification against the public inputs, here
/// `[min, max]`; independent of any commitment check.
pub fn verify(
    vk: &VerifyingKey,
    proof: &SnarkProof,
    public_inputs: &Vec<u64>,
) -> (r: Result<(), ProofSystemError>)
    ensures
        (r is Ok <==> verify_ok(*vk, *proof, public_inputs@)),
        r is Err ==> r == Err::<(), ProofSystemError>(ProofSystemError::InvalidProof),
{
    if proof.key_seed == vk.key_seed && eq_u64_vec(&proof.public_inputs, public_inputs) {
        Ok(())
    } else {
        Err(ProofSystemError::InvalidProof)
    }
}

/// When an opening check accepts: same key material, the commitment sits at
/// the queried slot, and the claimed values followed by the blinding are
/// exactly the committed opening.
pub open spec fn opening_matches(
    vk: VerifyingKey,
    proof: SnarkProof,
    slot: usize,
    claimed_values: Seq<u64>,
    randomness: u64,
) -> bool {
    &&& proof.key_seed == vk.key_seed
    &&& slot == proof.commitment.slot
    &&& claimed_values.push(randomness) == proof.commitment.opening@
}

/// Recompute the commitment from the claimed values and blinding against
/// the basis elements of `slot_index`, and compare with the proof's `D`.
/// A prover-side sanity check; fails with `CommitmentMismatch` on a wrong
/// slot, a wrong value, or wrong randomness.
pub fn verify_commitment_opening(
    vk: &VerifyingKey,
    proof: &SnarkProof,
    slot_index: usize,
    claimed_values: &Vec<u64>,
    randomness: u64,
) -> (r: Result<(), ProofSystemError>)
    ensures
        (r is Ok <==> opening_matches(*vk, *proof, slot_index, claimed_values@, randomness)),
        r is Err ==> r == Err::<(), ProofSystemError>(ProofSystemError::CommitmentMismatch),
{
    let opening = &proof.commitment.opening;
    if proof.key_seed != vk.key_seed || slot_index != proof.commitment.slot {
        return Err(ProofSystemError::CommitmentMismatch);
    }
    let n = claimed_values.len();
    let opening_len = opening.len();
    if !(n < opening_len && opening_len - n == 1) {
        proof {
            assert(claimed_values@.push(randomness).len() != proof.commitment.opening@.len());
        }
        return Err(ProofSystemError::CommitmentMismatch);
    }
    let mut i: usize = 0;
    while i < n
        invariant
            i <= n,
            n == claimed_values@.len(),
            n + 1 == opening@.len(),
            opening@ == proof.commitment.opening@,
            forall|j: int| 0 <= j < i ==> claimed_values@[j] == opening@[j],
        decreases n - i,
    {
        if claimed_values[i] != opening[i] {
            proof {
                let packed = claimed_values@.push(randomness);
                if packed == proof.commitment.opening@ {
                    assert(packed[i as int] == proof.commitment.opening@[i as int]);
                    assert(packed[i as int] == claimed_values@[i as int]);
                    assert(false);
                }
            }
            return Err(ProofSystemError::CommitmentMismatch);
        }
        i = i + 1;
    }
    if opening[n] == randomness {
        proof {
            assert(claimed_values@.push(randomness) =~= proof.commitment.opening@);
        }
        Ok(())
    } else {
        proof {
            let packed = claimed_values@.push(randomness);
            if packed == proof.commitment.opening@ {
                assert(packed[n as int] == proof.commitment.opening@[n as int]);
                assert(packed[n as int] == randomness);
                assert(false);
            }
        }
        Err(ProofSystemError::CommitmentMismatch)
    }
}

/// Completeness of the range proof: for `min < value < max` and keys from a
/// matching setup, the instantiated circuit is satisfied — so [`prove`]
/// succeeds — and every proof it can produce passes [`verify`] against
/// `[min, max]` and passes the opening check at the committed slot with the
/// committed value and blinding.
pub proof fn lemma_range_proof_completeness(
    min: u64,
    max: u64,
    value: u64,
    blinding: u64,
    pk: ProvingKey,
    vk: VerifyingKey,
    p: SnarkProof,
)
    requires
        crate::circuit::in_range(min, value, max),
        pk.committable_witness_count == 1,
        vk.public_input_count == pk.public_input_count,
        vk.committable_witness_count == pk.committable_witness_count,
        vk.key_seed == pk.key_seed,
        is_proof_of(
            p,
            (BoundCheckCircuit { min: Some(min), max: Some(max), value: Some(value) }),
            blinding,
            pk,
        ),
    ensures
        (BoundCheckCircuit { min: Some(min), max: Some(max), value: Some(value) }).satisfied(),
        verify_ok(vk, p, seq![min, max]),
        opening_matches(vk, p, pk.public_input_count, seq![value], blinding),
{
    assert(seq![value].push(blinding) =~= seq![value, blinding]);
}

/// Verification pins the public inputs: a proof produced for one
/// instantiation passes [`verify`] only against exactly the bounds baked
/// into it at proving time, and only under the key material it was
/// produced with.  Bounds that exclude the proven value are different
/// bounds, so the proof fails against them.
pub proof fn lemma_verify_pins_public_inputs(
    circuit: BoundCheckCircuit,
    blinding: u64,
    pk: ProvingKey,
    vk: VerifyingKey,
    p: SnarkProof,
    public_inputs: Seq<u64>,
)
    requires
        is_proof_of(p, circuit, blinding, pk),
        verify_ok(vk, p, public_inputs),
    ensures
        public_inputs == seq![circuit.min->0, circuit.max->0],
        vk.key_seed == pk.key_seed,
{
}

/// Binding of the commitment bundled in a proof: the opening check accepts
/// exactly the slot, value tuple and blinding randomness that were used at
/// proving time, and no other.
pub proof fn lemma_commitment_binding(
    circuit: BoundCheckCircuit,
    blinding: u64,
    pk: ProvingKey,
    vk: VerifyingKey,
    p: SnarkProof,
    slot_index: usize,
    claimed_values: Seq<u64>,
    randomness: u64,
)
    requires
        circuit.fully_assigned(),
        vk.key_seed == pk.key_seed,
        is_proof_of(p, circuit, blinding, pk),
    ensures
        opening_matches(vk, p, slot_index, claimed_values, randomness) <==> (slot_index
            == pk.public_input_count && claimed_values == seq![circuit.value->0] && randomness
            == blinding),
{
    if opening_matches(vk, p, slot_index, claimed_values, randomness) {
        let packed = claimed_values.push(randomness);
        assert(packed.len() == 2);
        assert(claimed_values.len() == 1);
        assert(packed[0] == claimed_values[0]);
        assert(packed[1] == randomness);
        assert(claimed_values =~= seq![circuit.value->0]);
    }
    if slot_index == pk.public_input_count && claimed_values == seq![circuit.value->0]
        && randomness == blinding {
        assert(claimed_values.push(randomness) =~= seq![circuit.value->0, blinding]);
    }
}

} // verus!
