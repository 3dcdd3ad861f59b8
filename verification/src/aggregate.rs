//! The cross-protocol proof orchestrator.
//!
//! [`build_proof`] consumes a [`ProofSpec`] and matching witnesses and
//! produces one [`AggregateProof`] that simultaneously answers every
//! statement and every equality meta-statement; [`verify_proof`] checks the
//! whole bundle and fails closed.  A single challenge derived over all
//! statements and the context binds every sub-proof to the one spec it was
//! built against, so a proof cannot be replayed against a different spec;
//! the model records that binding directly in the proof object.
//!
//! Each statement contributes per-slot responses.  In the underlying
//! protocol these are Schnorr-style blinded combinations whose consistency
//! the verifier can test pairwise; two linked slots pass that test exactly
//! when the same secret value (and, for Pedersen-linked slots, the same
//! blinding) was used on both sides.  The model keeps what the consistency
//! test decides: the response of a slot is determined by the value hidden
//! there, so cross-statement equality of responses coincides with equality
//! of the hidden values.

use vstd::prelude::*;
use crate::composition::{
    EqualWitnesses, MetaStatement, ProofSpec, Signature, Statement, Witness, Witnesses, WitnessRef,
    context_eq, eq_context, meta_well_formed, ref_in_bounds, spec_compatible,
    spec_eq, spec_matches, statement_satisfied, statement_witness_count,
    statements_satisfied, meta_statements_hold, equality_holds, value_at, witness_matches_statement,
    witness_values, lemma_spec_eq_refl,
};
use crate::errors::ProofSystemError;
use crate::vecs::{copy_u64_vec, eq_u64_vec};

verus! {

/// One statement's contribution to an aggregate proof: its per-slot
/// responses, plus whatever the sub-protocol itself must exhibit (for a
/// signature statement, knowledge of the signature).
#[derive(Clone, Debug)]
pub enum StatementProof {
    /// Responses for every message slot, one per signed message, and the
    /// signature knowledge that backs them.
    SignatureKnowledge { responses: Vec<u64>, signature: Signature },
    /// Responses for every committed slot of the Pedersen opening.
    PedersenCommitment { responses: Vec<u64> },
}

/// One proof object for a whole spec, verifiable only against the spec and
/// context it was built with.
#[derive(Clone, Debug)]
pub struct AggregateProof {
    /// The public description the challenge derivation bound this proof to.
    pub bound_spec: ProofSpec,
    /// The context tag bound in with it.
    pub bound_context: Option<Vec<u8>>,
    /// One sub-proof per statement, in statement order.
    pub statement_proofs: Vec<StatementProof>,
}

/// The per-slot responses a statement proof carries.
pub open spec fn response_values(p: StatementProof) -> Seq<u64> {
    match p {
        StatementProof::SignatureKnowledge { responses, .. } => responses@,
        StatementProof::PedersenCommitment { responses } => responses@,
    }
}

/// A statement proof is exactly what proof construction derives from one
/// witness: responses determined by the witness's slot values, and the same
/// signature knowledge.
pub open spec fn statement_proof_matches(p: StatementProof, w: Witness) -> bool {
    match (p, w) {
        (
            StatementProof::SignatureKnowledge { responses, signature },
            Witness::SignatureKnowledge { signature: ws, messages },
        ) => {
            &&& responses@ == messages@
            &&& signature.signer_key == ws.signer_key
            &&& signature.signed_messages@ == ws.signed_messages@
        },
        (
            StatementProof::PedersenCommitment { responses },
            Witness::PedersenCommitment { opening },
        ) => responses@ == opening@,
        _ => false,
    }
}

/// When one statement's sub-proof verifies in isolation against the
/// statement's public parameters.
pub open spec fn statement_proof_checks(s: Statement, p: StatementProof) -> bool {
    match (s, p) {
        (
            Statement::SignatureKnowledge { public_key, message_count, revealed },
            StatementProof::SignatureKnowledge { responses, signature },
        ) => {
            &&& responses@.len() == message_count
            &&& signature.valid_for(responses@, public_key)
            &&& crate::composition::revealed_ok(revealed@, responses@)
        },
        (
            Statement::PedersenCommitment { commitment },
            StatementProof::PedersenCommitment { responses },
        ) => responses@ == commitment.opening@,
        _ => false,
    }
}

/// Every statement's sub-proof verifies in isolation.
pub open spec fn statement_proofs_check(ps: ProofSpec, sps: Seq<StatementProof>) -> bool {
    &&& sps.len() == ps.statements.0@.len()
    &&& forall|i: int|
        0 <= i < sps.len() ==> statement_proof_checks(#[trigger] ps.statements.0@[i], sps[i])
}

/// A reference addresses an existing response slot.
pub open spec fn ref_in_response_bounds(r: WitnessRef, sps: Seq<StatementProof>) -> bool {
    r.statement_idx < sps.len() && r.witness_idx < response_values(
        sps[r.statement_idx as int],
    ).len()
}

/// The response at one witness reference.
pub open spec fn response_at(sps: Seq<StatementProof>, r: WitnessRef) -> u64 {
    response_values(sps[r.statement_idx as int])[r.witness_idx as int]
}

/// Every reference of one meta-statement addresses an existing response.
pub open spec fn meta_refs_in_response_bounds(m: MetaStatement, sps: Seq<StatementProof>) -> bool {
    match m {
        MetaStatement::WitnessEquality(eq) => forall|i: int|
            0 <= i < eq.refs_seq().len() ==> ref_in_response_bounds(
                #[trigger] eq.refs_seq()[i],
                sps,
            ),
    }
}

/// Every reference of every meta-statement addresses an existing response.
pub open spec fn all_refs_in_response_bounds(ps: ProofSpec, sps: Seq<StatementProof>) -> bool {
    forall|i: int|
        0 <= i < ps.meta_statements.0@.len() ==> meta_refs_in_response_bounds(
            #[trigger] ps.meta_statements.0@[i],
            sps,
        )
}

/// The consistency relation of one equality set: all referenced responses
/// reveal the same linear combination, which is possible only if the same
/// underlying value sat in every referenced slot.
pub open spec fn proof_equality_holds(eq: EqualWitnesses, sps: Seq<StatementProof>) -> bool {
    forall|i: int, j: int|
        0 <= i < eq.refs_seq().len() && 0 <= j < eq.refs_seq().len() ==> response_at(
            sps,
            #[trigger] eq.refs_seq()[i],
        ) == response_at(sps, #[trigger] eq.refs_seq()[j])
}

/// One meta-statement's consistency relation holds over the responses.
pub open spec fn meta_holds_in_proof(m: MetaStatement, sps: Seq<StatementProof>) -> bool {
    match m {
        MetaStatement::WitnessEquality(eq) => proof_equality_holds(eq, sps),
    }
}

/// Every meta-statement's consistency relation holds.
pub open spec fn proof_metas_hold(ps: ProofSpec, sps: Seq<StatementProof>) -> bool {
    forall|i: int|
        0 <= i < ps.meta_statements.0@.len() ==> meta_holds_in_proof(
            #[trigger] ps.meta_statements.0@[i],
            sps,
        )
}

/// The challenge binding: the proof was derived over exactly this spec and
/// context.
pub open spec fn bound_matches(p: AggregateProof, ps: ProofSpec, ctx: Option<Vec<u8>>) -> bool {
    spec_eq(p.bound_spec, ps) && context_eq(p.bound_context, ctx)
}

/// What [`build_proof`] produces from a spec, witnesses and context.
pub open spec fn is_built_from(
    p: AggregateProof,
    ps: ProofSpec,
    ws: Seq<Witness>,
    ctx: Option<Vec<u8>>,
) -> bool {
    &&& p.bound_spec == ps
    &&& p.bound_context == ctx
    &&& p.statement_proofs@.len() == ws.len()
    &&& forall|i: int|
        0 <= i < ws.len() ==> statement_proof_matches(#[trigger] p.statement_proofs@[i], ws[i])
}

/// When verification accepts: the binding, every statement, and every
/// meta-statement all check out.  Any single failure fails the whole
/// verification.
pub open spec fn verify_accepts(ps: ProofSpec, p: AggregateProof, ctx: Option<Vec<u8>>) -> bool {
    &&& bound_matches(p, ps, ctx)
    &&& statement_proofs_check(ps, p.statement_proofs@)
    &&& all_refs_in_response_bounds(ps, p.statement_proofs@)
    &&& proof_metas_hold(ps, p.statement_proofs@)
}

/// How many addressable slots a statement expects of its witness.
fn statement_slot_count(s: &Statement) -> (n: usize)
    ensures
        n == statement_witness_count(*s),
{
    match s {
        Statement::SignatureKnowledge { message_count, .. } => *message_count,
        Statement::PedersenCommitment { commitment } => commitment.opening.len(),
    }
}

/// Decide [`witness_matches_statement`].
fn witness_matches(s: &Statement, w: &Witness) -> (r: bool)
    ensures
        r == witness_matches_statement(*s, *w),
{
    match (s, w) {
        (
            Statement::SignatureKnowledge { message_count, .. },
            Witness::SignatureKnowledge { messages, .. },
        ) => messages.len() == *message_count,
        (
            Statement::PedersenCommitment { commitment },
            Witness::PedersenCommitment { opening },
        ) => opening.len() == commitment.opening.len(),
        _ => false,
    }
}

/// How many response slots a statement proof carries.
fn response_len(p: &StatementProof) -> (n: usize)
    ensures
        n == response_values(*p).len(),
{
    match p {
        StatementProof::SignatureKnowledge { responses, .. } => responses.len(),
        StatementProof::PedersenCommitment { responses } => responses.len(),
    }
}

/// The response at one in-bounds reference.
fn response_value_at(sps: &Vec<StatementProof>, r: WitnessRef) -> (v: u64)
    requires
        ref_in_response_bounds(r, sps@),
    ensures
        v == response_at(sps@, r),
{
    match &sps[r.statement_idx] {
        StatementProof::SignatureKnowledge { responses, .. } => responses[r.witness_idx],
        StatementProof::PedersenCommitment { responses } => responses[r.witness_idx],
    }
}

/// Decide [`statement_proof_checks`]: verify one statement's sub-proof in
/// isolation against its public parameters.
fn check_statement_proof(s: &Statement, p: &StatementProof) -> (r: bool)
    ensures
        r == statement_proof_checks(*s, *p),
{
    match (s, p) {
        (
            Statement::SignatureKnowledge { public_key, message_count, revealed },
            StatementProof::SignatureKnowledge { responses, signature },
        ) => {
            if responses.len() != *message_count {
                return false;
            }
            if signature.signer_key != *public_key {
                return false;
            }
            if !eq_u64_vec(&signature.signed_messages, responses) {
                return false;
            }
            crate::composition::check_revealed(revealed, responses)
        },
        (
            Statement::PedersenCommitment { commitment },
            StatementProof::PedersenCommitment { responses },
        ) => eq_u64_vec(responses, &commitment.opening),
        _ => false,
    }
}

/// The construction-time validation: one witness per statement, each
/// matching its statement's tag and slot count, every meta-statement with
/// at least two references, all of them in bounds.
#[verifier::loop_isolation(false)]
fn validate(proof_spec: &ProofSpec, witnesses: &Witnesses) -> (r: bool)
    ensures
        r == spec_compatible(*proof_spec, witnesses.0@),
{
    let n = proof_spec.statements.0.len();
    if witnesses.0.len() != n {
        return false;
    }
    let mut i: usize = 0;
    while i < n
        invariant
            i <= n,
            forall|j: int|
                0 <= j < i ==> witness_matches_statement(
                    #[trigger] proof_spec.statements.0@[j],
                    witnesses.0@[j],
                ),
        decreases n - i,
    {
        if !witness_matches(&proof_spec.statements.0[i], &witnesses.0[i]) {
            proof {
                if spec_compatible(*proof_spec, witnesses.0@) {
                    assert(witness_matches_statement(
                        proof_spec.statements.0@[i as int],
                        witnesses.0@[i as int],
                    ));
                    assert(false);
                }
            }
            return false;
        }
        i = i + 1;
    }
    let m = proof_spec.meta_statements.0.len();
    let mut q: usize = 0;
    while q < m
        invariant
            q <= m,
            forall|j: int|
                0 <= j < q ==> meta_well_formed(
                    #[trigger] proof_spec.meta_statements.0@[j],
                    proof_spec.statements.0@,
                ),
        decreases m - q,
    {
        match &proof_spec.meta_statements.0[q] {
            MetaStatement::WitnessEquality(eq) => {
                let c = eq.count();
                if c < 2 {
                    proof {
                        if spec_compatible(*proof_spec, witnesses.0@) {
                            assert(meta_well_formed(
                                proof_spec.meta_statements.0@[q as int],
                                proof_spec.statements.0@,
                            ));
                            assert(false);
                        }
                    }
                    return false;
                }
                let mut t: usize = 0;
                while t < c
                    invariant
                        t <= c,
                        forall|u: int|
                            0 <= u < t ==> ref_in_bounds(
                                #[trigger] eq.refs_seq()[u],
                                proof_spec.statements.0@,
                            ),
                    decreases c - t,
                {
                    let rf = eq.ref_at(t);
                    let ok = if rf.statement_idx >= n {
                        false
                    } else {
                        rf.witness_idx < statement_slot_count(
                            &proof_spec.statements.0[rf.statement_idx],
                        )
                    };
                    if !ok {
                        proof {
                            if spec_compatible(*proof_spec, witnesses.0@) {
                                assert(meta_well_formed(
                                    proof_spec.meta_statements.0@[q as int],
                                    proof_spec.statements.0@,
                                ));
                                assert(ref_in_bounds(
                                    eq.refs_seq()[t as int],
                                    proof_spec.statements.0@,
                                ));
                                assert(false);
                            }
                        }
                        return false;
                    }
                    t = t + 1;
                }
                proof {
                    assert(meta_well_formed(
                        proof_spec.meta_statements.0@[q as int],
                        proof_spec.statements.0@,
                    ));
                }
            },
        }
        q = q + 1;
    }
    true
}

/// Build one aggregate proof for a whole spec.  Validation failures are
/// `MalformedSpec`; on success the proof is challenge-bound to exactly this
/// spec and context, with one sub-proof per statement whose responses are
/// determined by the witness's slot values.  The witnesses are consumed:
/// they are prover-local and do not outlive construction.
#[verifier::loop_isolation(false)]
pub fn build_proof(
    proof_spec: ProofSpec,
    witnesses: Witnesses,
    context: Option<Vec<u8>>,
) -> (r: Result<AggregateProof, ProofSystemError>)
    ensures
        (r is Ok <==> spec_compatible(proof_spec, witnesses.0@)),
        r is Ok ==> is_built_from(r->Ok_0, proof_spec, witnesses.0@, context),
        r is Err ==> r == Err::<AggregateProof, ProofSystemError>(ProofSystemError::MalformedSpec),
{
    if !validate(&proof_spec, &witnesses) {
        return Err(ProofSystemError::MalformedSpec);
    }
    let n = witnesses.0.len();
    let mut statement_proofs: Vec<StatementProof> = Vec::new();
    let mut i: usize = 0;
    while i < n
        invariant
            i <= n,
            statement_proofs@.len() == i,
            forall|j: int|
                0 <= j < i ==> statement_proof_matches(
                    #[trigger] statement_proofs@[j],
                    witnesses.0@[j],
                ),
        decreases n - i,
    {
        let sp = match &witnesses.0[i] {
            Witness::SignatureKnowledge { signature, messages } => (
                StatementProof::SignatureKnowledge {
                    responses: copy_u64_vec(messages),
                    signature: Signature {
                        signer_key: signature.signer_key,
                        signed_messages: copy_u64_vec(&signature.signed_messages),
                    },
                }
            ),
            Witness::PedersenCommitment { opening } => (
                StatementProof::PedersenCommitment { responses: copy_u64_vec(opening) }
            ),
        };
        proof {
            assert(statement_proof_matches(sp, witnesses.0@[i as int]));
        }
        statement_proofs.push(sp);
        i = i + 1;
    }
    Ok(AggregateProof { bound_spec: proof_spec, bound_context: context, statement_proofs })
}

/// Verify one aggregate proof against a spec and context: the challenge
/// binding first, then every statement's sub-proof individually, then every
/// meta-statement's cross-statement consistency relation.  Fails closed:
/// any single failure fails the whole verification.
#[verifier::loop_isolation(false)]
pub fn verify_proof(
    proof_spec: &ProofSpec,
    proof: &AggregateProof,
    context: &Option<Vec<u8>>,
) -> (r: Result<(), ProofSystemError>)
    ensures
        (r is Ok <==> verify_accepts(*proof_spec, *proof, *context)),
        !bound_matches(*proof, *proof_spec, *context) ==> r == Err::<(), ProofSystemError>(
            ProofSystemError::InvalidProof,
        ),
        (bound_matches(*proof, *proof_spec, *context) && !statement_proofs_check(
            *proof_spec,
            proof.statement_proofs@,
        )) ==> r == Err::<(), ProofSystemError>(ProofSystemError::InvalidProof),
        (bound_matches(*proof, *proof_spec, *context) && statement_proofs_check(
            *proof_spec,
            proof.statement_proofs@,
        ) && !all_refs_in_response_bounds(*proof_spec, proof.statement_proofs@)) ==> r == Err::<
            (),
            ProofSystemError,
        >(ProofSystemError::MalformedSpec),
        (bound_matches(*proof, *proof_spec, *context) && statement_proofs_check(
            *proof_spec,
            proof.statement_proofs@,
        ) && all_refs_in_response_bounds(*proof_spec, proof.statement_proofs@)
            && !proof_metas_hold(*proof_spec, proof.statement_proofs@)) ==> r == Err::<
            (),
            ProofSystemError,
        >(ProofSystemError::MetaStatementUnsatisfied),
{
    if !spec_matches(&proof.bound_spec, proof_spec) || !eq_context(&proof.bound_context, context) {
        return Err(ProofSystemError::InvalidProof);
    }
    let n = proof_spec.statements.0.len();
    if proof.statement_proofs.len() != n {
        return Err(ProofSystemError::InvalidProof);
    }
    let mut i: usize = 0;
    while i < n
        invariant
            i <= n,
            forall|j: int|
                0 <= j < i ==> statement_proof_checks(
                    #[trigger] proof_spec.statements.0@[j],
                    proof.statement_proofs@[j],
                ),
        decreases n - i,
    {
        if !check_statement_proof(&proof_spec.statements.0[i], &proof.statement_proofs[i]) {
            proof {
                if statement_proofs_check(*proof_spec, proof.statement_proofs@) {
                    assert(statement_proof_checks(
                        proof_spec.statements.0@[i as int],
                        proof.statement_proofs@[i as int],
                    ));
                    assert(false);
                }
            }
            return Err(ProofSystemError::InvalidProof);
        }
        i = i + 1;
    }
    let m = proof_spec.meta_statements.0.len();
    let mut q: usize = 0;
    while q < m
        invariant
            q <= m,
            forall|j: int|
                0 <= j < q ==> meta_refs_in_response_bounds(
                    #[trigger] proof_spec.meta_statements.0@[j],
                    proof.statement_proofs@,
                ),
        decreases m - q,
    {
        match &proof_spec.meta_statements.0[q] {
            MetaStatement::WitnessEquality(eq) => {
                let c = eq.count();
                let mut t: usize = 0;
                while t < c
                    invariant
                        t <= c,
                        forall|u: int|
                            0 <= u < t ==> ref_in_response_bounds(
                                #[trigger] eq.refs_seq()[u],
                                proof.statement_proofs@,
                            ),
                    decreases c - t,
                {
                    let rf = eq.ref_at(t);
                    let ok = if rf.statement_idx >= proof.statement_proofs.len() {
                        false
                    } else {
                        rf.witness_idx < response_len(&proof.statement_proofs[rf.statement_idx])
                    };
                    if !ok {
                        proof {
                            if all_refs_in_response_bounds(*proof_spec, proof.statement_proofs@) {
                                assert(meta_refs_in_response_bounds(
                                    proof_spec.meta_statements.0@[q as int],
                                    proof.statement_proofs@,
                                ));
                                assert(ref_in_response_bounds(
                                    eq.refs_seq()[t as int],
                                    proof.statement_proofs@,
                                ));
                                assert(false);
                            }
                        }
                        return Err(ProofSystemError::MalformedSpec);
                    }
                    t = t + 1;
                }
                proof {
                    assert(meta_refs_in_response_bounds(
                        proof_spec.meta_statements.0@[q as int],
                        proof.statement_proofs@,
                    ));
                }
            },
        }
        q = q + 1;
    }
    let mut q2: usize = 0;
    while q2 < m
        invariant
            q2 <= m,
            forall|j: int|
                0 <= j < q2 ==> meta_holds_in_proof(
                    #[trigger] proof_spec.meta_statements.0@[j],
                    proof.statement_proofs@,
                ),
        decreases m - q2,
    {
        match &proof_spec.meta_statements.0[q2] {
            MetaStatement::WitnessEquality(eq) => {
                let c = eq.count();
                if c == 0 {
                    proof {
                        assert(proof_equality_holds(*eq, proof.statement_proofs@));
                    }
                } else {
                    proof {
                        assert(meta_refs_in_response_bounds(
                            proof_spec.meta_statements.0@[q2 as int],
                            proof.statement_proofs@,
                        ));
                        assert(ref_in_response_bounds(
                            eq.refs_seq()[0],
                            proof.statement_proofs@,
                        ));
                    }
                    let r0 = eq.ref_at(0);
                    let first = response_value_at(&proof.statement_proofs, r0);
                    let mut t: usize = 1;
                    while t < c
                        invariant
                            1 <= t <= c,
                            forall|u: int|
                                0 <= u < t ==> response_at(
                                    proof.statement_proofs@,
                                    #[trigger] eq.refs_seq()[u],
                                ) == first,
                        decreases c - t,
                    {
                        proof {
                            assert(ref_in_response_bounds(
                                eq.refs_seq()[t as int],
                                proof.statement_proofs@,
                            ));
                        }
                        let rf = eq.ref_at(t);
                        let v = response_value_at(&proof.statement_proofs, rf);
                        if v != first {
                            proof {
                                if proof_metas_hold(*proof_spec, proof.statement_proofs@) {
                                    assert(meta_holds_in_proof(
                                        proof_spec.meta_statements.0@[q2 as int],
                                        proof.statement_proofs@,
                                    ));
                                    assert(response_at(
                                        proof.statement_proofs@,
                                        eq.refs_seq()[t as int],
                                    ) == response_at(proof.statement_proofs@, eq.refs_seq()[0]));
                                    assert(false);
                                }
                            }
                            return Err(ProofSystemError::MetaStatementUnsatisfied);
                        }
                        t = t + 1;
                    }
                    proof {
                        assert forall|a: int, b: int|
                            0 <= a < eq.refs_seq().len() && 0 <= b < eq.refs_seq().len() implies
                            response_at(proof.statement_proofs@, #[trigger] eq.refs_seq()[a])
                                == response_at(
                                proof.statement_proofs@,
                                #[trigger] eq.refs_seq()[b],
                            ) by {
                            assert(response_at(proof.statement_proofs@, eq.refs_seq()[a])
                                == first);
                            assert(response_at(proof.statement_proofs@, eq.refs_seq()[b])
                                == first);
                        }
                    }
                }
                proof {
                    assert(meta_holds_in_proof(
                        proof_spec.meta_statements.0@[q2 as int],
                        proof.statement_proofs@,
                    ));
                }
            },
        }
        q2 = q2 + 1;
    }
    Ok(())
}

/// What construction guarantees before meta-statements enter: a proof built
/// from a validated spec and satisfying witnesses is bound to that spec and
/// context, every sub-proof checks in isolation, every reference lands on a
/// response, and each statement's responses are its witness's slot values.
pub proof fn lemma_built_proof_checks(
    ps: ProofSpec,
    ws: Witnesses,
    ctx: Option<Vec<u8>>,
    p: AggregateProof,
)
    requires
        spec_compatible(ps, ws.0@),
        statements_satisfied(ps, ws.0@),
        is_built_from(p, ps, ws.0@, ctx),
    ensures
        bound_matches(p, ps, ctx),
        statement_proofs_check(ps, p.statement_proofs@),
        all_refs_in_response_bounds(ps, p.statement_proofs@),
        forall|i: int|
            0 <= i < ws.0@.len() ==> response_values(#[trigger] p.statement_proofs@[i])
                == witness_values(ws.0@[i]),
{
    let sps = p.statement_proofs@;
    let stmts = ps.statements.0@;
    let wseq = ws.0@;
    lemma_spec_eq_refl(ps);
    match ctx {
        None => {},
        Some(_) => {},
    }
    assert forall|i: int|
        0 <= i < ws.0@.len() implies response_values(#[trigger] p.statement_proofs@[i])
        == witness_values(ws.0@[i]) by {
        assert(statement_proof_matches(sps[i], wseq[i]));
        match wseq[i] {
            Witness::SignatureKnowledge { .. } => {},
            Witness::PedersenCommitment { .. } => {},
        }
    }
    assert forall|i: int| 0 <= i < sps.len() implies statement_proof_checks(
        #[trigger] stmts[i],
        sps[i],
    ) by {
        assert(statement_satisfied(stmts[i], wseq[i]));
        assert(statement_proof_matches(sps[i], wseq[i]));
        match stmts[i] {
            Statement::SignatureKnowledge { .. } => {},
            Statement::PedersenCommitment { .. } => {},
        }
    }
    assert forall|i: int|
        0 <= i < sps.len() implies response_values(#[trigger] sps[i]).len()
        == statement_witness_count(stmts[i]) by {
        assert(witness_matches_statement(stmts[i], wseq[i]));
        assert(statement_proof_matches(sps[i], wseq[i]));
        match stmts[i] {
            Statement::SignatureKnowledge { .. } => {},
            Statement::PedersenCommitment { .. } => {},
        }
    }
    assert forall|i: int|
        0 <= i < ps.meta_statements.0@.len() implies meta_refs_in_response_bounds(
        #[trigger] ps.meta_statements.0@[i],
        sps,
    ) by {
        assert(meta_well_formed(ps.meta_statements.0@[i], stmts));
        match ps.meta_statements.0@[i] {
            MetaStatement::WitnessEquality(eq) => {
                assert forall|u: int|
                    0 <= u < eq.refs_seq().len() implies ref_in_response_bounds(
                    #[trigger] eq.refs_seq()[u],
                    sps,
                ) by {
                    let rf = eq.refs_seq()[u];
                    assert(ref_in_bounds(rf, stmts));
                    assert(response_values(sps[rf.statement_idx as int]).len()
                        == statement_witness_count(stmts[rf.statement_idx as int]));
                }
            },
        }
    }
}

/// Completeness of composition: a proof built from a compatible spec whose
/// witnesses satisfy every statement and every equality meta-statement is
/// accepted by verification against that same spec and context.
pub proof fn lemma_aggregate_completeness(
    ps: ProofSpec,
    ws: Witnesses,
    ctx: Option<Vec<u8>>,
    p: AggregateProof,
)
    requires
        spec_compatible(ps, ws.0@),
        statements_satisfied(ps, ws.0@),
        meta_statements_hold(ps, ws.0@),
        is_built_from(p, ps, ws.0@, ctx),
    ensures
        verify_accepts(ps, p, ctx),
{
    let sps = p.statement_proofs@;
    let stmts = ps.statements.0@;
    let wseq = ws.0@;
    lemma_built_proof_checks(ps, ws, ctx, p);
    assert forall|i: int| 0 <= i < ps.meta_statements.0@.len() implies meta_holds_in_proof(
        #[trigger] ps.meta_statements.0@[i],
        sps,
    ) by {
        assert(meta_well_formed(ps.meta_statements.0@[i], stmts));
        match ps.meta_statements.0@[i] {
            MetaStatement::WitnessEquality(eq) => {
                assert(equality_holds(eq, wseq));
                assert forall|a: int, b: int|
                    0 <= a < eq.refs_seq().len() && 0 <= b < eq.refs_seq().len() implies
                    response_at(sps, #[trigger] eq.refs_seq()[a]) == response_at(
                    sps,
                    #[trigger] eq.refs_seq()[b],
                ) by {
                    let ra = eq.refs_seq()[a];
                    let rb = eq.refs_seq()[b];
                    assert(ref_in_bounds(ra, stmts));
                    assert(ref_in_bounds(rb, stmts));
                    assert(value_at(wseq, ra) == value_at(wseq, rb));
                    assert(response_values(sps[ra.statement_idx as int]) == witness_values(
                        wseq[ra.statement_idx as int],
                    ));
                    assert(response_values(sps[rb.statement_idx as int]) == witness_values(
                        wseq[rb.statement_idx as int],
                    ));
                }
            },
        }
    }
}

/// Cross-statement linking: if two slots referenced by one equality
/// meta-statement hide different values — say the message inside the
/// signature statement and the value inside the Pedersen statement — then
/// the built proof's responses differ there, the consistency relation
/// fails, and verification rejects; by [`verify_proof`]'s contract the
/// failure is `MetaStatementUnsatisfied`.  If the values are equal at every
/// linked slot, [`lemma_aggregate_completeness`] applies and verification
/// accepts.
pub proof fn lemma_cross_statement_linking(
    ps: ProofSpec,
    ws: Witnesses,
    ctx: Option<Vec<u8>>,
    p: AggregateProof,
    i: int,
    eq: EqualWitnesses,
    a: int,
    b: int,
)
    requires
        spec_compatible(ps, ws.0@),
        statements_satisfied(ps, ws.0@),
        is_built_from(p, ps, ws.0@, ctx),
        0 <= i < ps.meta_statements.0@.len(),
        ps.meta_statements.0@[i] == MetaStatement::WitnessEquality(eq),
        0 <= a < eq.refs_seq().len(),
        0 <= b < eq.refs_seq().len(),
        value_at(ws.0@, eq.refs_seq()[a]) != value_at(ws.0@, eq.refs_seq()[b]),
    ensures
        bound_matches(p, ps, ctx),
        statement_proofs_check(ps, p.statement_proofs@),
        all_refs_in_response_bounds(ps, p.statement_proofs@),
        !proof_metas_hold(ps, p.statement_proofs@),
        !verify_accepts(ps, p, ctx),
{
    let sps = p.statement_proofs@;
    let stmts = ps.statements.0@;
    let wseq = ws.0@;
    lemma_built_proof_checks(ps, ws, ctx, p);
    assert(meta_well_formed(ps.meta_statements.0@[i], stmts));
    let ra = eq.refs_seq()[a];
    let rb = eq.refs_seq()[b];
    assert(ref_in_bounds(ra, stmts));
    assert(ref_in_bounds(rb, stmts));
    assert(response_values(sps[ra.statement_idx as int]) == witness_values(
        wseq[ra.statement_idx as int],
    ));
    assert(response_values(sps[rb.statement_idx as int]) == witness_values(
        wseq[rb.statement_idx as int],
    ));
    assert(response_at(sps, ra) != response_at(sps, rb));
    if proof_metas_hold(ps, sps) {
        assert(meta_holds_in_proof(ps.meta_statements.0@[i], sps));
        assert(response_at(sps, ra) == response_at(sps, rb));
        assert(false);
    }
}

/// Spec binding: a proof is challenge-bound to the spec and context it was
/// built against; against any other spec or context — a different context
/// tag, reordered statements, different equality sets — verification
/// rejects, whatever the witnesses were; by [`verify_proof`]'s contract the
/// failure is `InvalidProof`.
pub proof fn lemma_spec_binding(
    ps1: ProofSpec,
    ps2: ProofSpec,
    ws: Witnesses,
    ctx1: Option<Vec<u8>>,
    ctx2: Option<Vec<u8>>,
    p: AggregateProof,
)
    requires
        is_built_from(p, ps1, ws.0@, ctx1),
        (!spec_eq(ps1, ps2) || !context_eq(ctx1, ctx2)),
    ensures
        !bound_matches(p, ps2, ctx2),
        !verify_accepts(ps2, p, ctx2),
{
}

} // verus!
