//! The per-proof-instance state machine.
//!
//! One proof instance moves through fixing the public description, binding
//! the prover-local witnesses, and constructing the aggregate proof; the
//! spec is immutable once fixed, and construction demands that both steps
//! completed.  Re-deriving the same `ProofSpec` on the verifier's side is
//! the caller's responsibility and must be deterministic.

use vstd::prelude::*;
use crate::aggregate::{build_proof, is_built_from, AggregateProof};
use crate::composition::{spec_compatible, ProofSpec, Witnesses};
use crate::errors::ProofSystemError;

verus! {

/// One proof instance under construction.
pub struct ProofBuilder {
    spec: Option<ProofSpec>,
    witnesses: Option<Witnesses>,
}

impl ProofBuilder {
    /// The public description this instance is fixed to, if any.
    pub closed spec fn fixed_spec(self) -> Option<ProofSpec> {
        self.spec
    }

    /// The witnesses bound to this instance, if any.
    pub closed spec fn bound_witnesses(self) -> Option<Witnesses> {
        self.witnesses
    }

    /// A fresh, unbuilt instance.
    pub fn new() -> (b: Self)
        ensures
            b.fixed_spec() is None,
            b.bound_witnesses() is None,
    {
        ProofBuilder { spec: None, witnesses: None }
    }

    /// Fix the public description.  A fixed spec never changes: this step
    /// is taken at most once per instance.
    pub fn fix_spec(&mut self, proof_spec: ProofSpec)
        requires
            old(self).fixed_spec() is None,
        ensures
            final(self).fixed_spec() == Some(proof_spec),
            final(self).bound_witnesses() == old(self).bound_witnesses(),
    {
        self.spec = Some(proof_spec);
    }

    /// Bind the prover-local witnesses.
    pub fn bind_witnesses(&mut self, witnesses: Witnesses)
        requires
            old(self).bound_witnesses() is None,
        ensures
            final(self).bound_witnesses() == Some(witnesses),
            final(self).fixed_spec() == old(self).fixed_spec(),
    {
        self.witnesses = Some(witnesses);
    }

    /// Construct the aggregate proof, consuming the instance.  Fails with
    /// `MalformedSpec` when a step was skipped or when the fixed spec and
    /// bound witnesses do not fit together.
    pub fn construct(self, context: Option<Vec<u8>>) -> (r: Result<
        AggregateProof,
        ProofSystemError,
    >)
        ensures
            (r is Ok <==> (self.fixed_spec() is Some && self.bound_witnesses() is Some
                && spec_compatible(self.fixed_spec()->0, (self.bound_witnesses()->0).0@))),
            r is Ok ==> is_built_from(
                r->Ok_0,
                self.fixed_spec()->0,
                (self.bound_witnesses()->0).0@,
                context,
            ),
            r is Err ==> r == Err::<AggregateProof, ProofSystemError>(
                ProofSystemError::MalformedSpec,
            ),
    {
        match (self.spec, self.witnesses) {
            (Some(ps), Some(ws)) => build_proof(ps, ws, context),
            _ => Err(ProofSystemError::MalformedSpec),
        }
    }
}

} // verus!
