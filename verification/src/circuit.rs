//! The range-constraint circuit: `min < value < max`, strictly.
//!
//! Attribute values, bounds and circuit wires are elements of a large prime
//! field.  The design assumes every attribute value is small relative to the
//! field's modulus, so that the field's total order on those values agrees
//! with the integer order; under that documented precondition the circuit's
//! wires are modelled here as machine integers.  The constraint system that
//! an elliptic-curve backend compiles this circuit into lives outside the
//! verified core; this module fixes the circuit's shape and decides, for a
//! concrete assignment, exactly what constraint generation yields.

use vstd::prelude::*;
use crate::errors::ProofSystemError;

verus! {

/// Strict two-sided bound: the one relation the circuit's constraints encode.
pub open spec fn in_range(min: u64, value: u64, max: u64) -> bool {
    min < value && value < max
}

/// Enforces `min < value < max`.  `min` and `max` are public input wires,
/// `value` is a secret witness wire.  Values are absent only during the
/// one-time setup pass, which reads the constraint *shape* and never the
/// assignment.
#[derive(Clone, Copy, Debug)]
pub struct BoundCheckCircuit {
    pub min: Option<u64>,
    pub max: Option<u64>,
    pub value: Option<u64>,
}

/// The constraint topology of one circuit: how many public input wires it
/// allocates and how many secret witness wires, independent of any values.
#[derive(Clone, Copy, Debug, PartialEq, Eq, Structural)]
pub struct CircuitShape {
    pub public_input_count: usize,
    pub witness_count: usize,
}

impl BoundCheckCircuit {
    /// The setup-time instantiation: no values, only shape.
    pub fn shape_only() -> (c: Self)
        ensures
            c.min is None,
            c.max is None,
            c.value is None,
    {
        BoundCheckCircuit { min: None, max: None, value: None }
    }

    /// The proving-time instantiation: every wire has a concrete value.
    pub fn instantiate(min: u64, max: u64, value: u64) -> (c: Self)
        ensures
            c.min == Some(min),
            c.max == Some(max),
            c.value == Some(value),
    {
        BoundCheckCircuit { min: Some(min), max: Some(max), value: Some(value) }
    }

    /// True when every wire carries a value.
    pub open spec fn fully_assigned(self) -> bool {
        self.min is Some && self.max is Some && self.value is Some
    }

    /// True when the assignment satisfies both strict comparisons.
    pub open spec fn satisfied(self) -> bool {
        self.fully_assigned() && in_range(self.min->0, self.value->0, self.max->0)
    }

    /// The shape this circuit compiles to: one secret witness wire for
    /// `value`, then two public input wires for `min` and `max`.
    pub open spec fn shape_spec(self) -> CircuitShape {
        CircuitShape { public_input_count: 2, witness_count: 1 }
    }

    /// Executable twin of [`Self::shape_spec`].
    pub fn shape(&self) -> (s: CircuitShape)
        ensures
            s == self.shape_spec(),
            s.public_input_count == 2,
            s.witness_count == 1,
    {
        CircuitShape { public_input_count: 2, witness_count: 1 }
    }

    /// What constraint generation yields at proving time: it needs every
    /// wire assigned, and the generated system is satisfiable exactly when
    /// the value lies strictly between the bounds.
    pub fn check_assignment(&self) -> (r: Result<(), ProofSystemError>)
        ensures
            r is Ok <==> self.satisfied(),
            !self.fully_assigned() ==> r == Err::<(), ProofSystemError>(
                ProofSystemError::MissingAssignment,
            ),
            self.fully_assigned() && !self.satisfied() ==> r == Err::<(), ProofSystemError>(
                ProofSystemError::ConstraintUnsatisfied,
            ),
    {
        match (self.min, self.max, self.value) {
            (Some(min), Some(max), Some(value)) => {
                if min < value && value < max {
                    Ok(())
                } else {
                    Err(ProofSystemError::ConstraintUnsatisfied)
                }
            },
            _ => Err(ProofSystemError::MissingAssignment),
        }
    }
}

/// Strictness at the boundary: an assignment that sits on either bound never
/// satisfies the circuit.
pub proof fn lemma_boundary_rejected(min: u64, max: u64, value: u64)
    requires
        (value == min || value == max),
    ensures
        !(BoundCheckCircuit { min: Some(min), max: Some(max), value: Some(value) }).satisfied(),
{
}

} // verus!
