//! The statement/witness composition engine.
//!
//! Independent cryptographic assertions are registered as [`Statement`]s,
//! their private inputs as [`Witness`]es, and equalities between witness
//! slots of different statements as [`MetaStatement`]s.  These are pure
//! data containers: they describe what must hold, not how to check it.
//! Index bounds of witness references are validated at proof-construction
//! time.
//!
//! The signature collaborator is modelled by [`Signature`]: a token that,
//! like an unforgeable signature, determines the exact message vector and
//! signer key it was issued over.  Message values are the plain integer
//! representatives of field elements.

use vstd::prelude::*;
use crate::errors::ProofSystemError;
use crate::snark::Commitment;
use crate::vecs::copy_u64_vec;

verus! {

/// A stable address into the flattened witness space across all statements:
/// the witness slot `witness_idx` of statement `statement_idx`.
#[derive(Clone, Copy, Debug, PartialEq, Eq, Structural)]
pub struct WitnessRef {
    pub statement_idx: usize,
    pub witness_idx: usize,
}

/// A signature over a message vector, as the signature collaborator hands
/// it out.  The token is unforgeable: a value of this type determines the
/// signer key and the exact messages it signs.
#[derive(Clone, Debug)]
pub struct Signature {
    pub signer_key: u64,
    pub signed_messages: Vec<u64>,
}

impl Signature {
    /// The collaborator's signing algorithm: issue a signature over the
    /// full message vector under the signer's key.
    pub fn sign(messages: &Vec<u64>, signer_key: u64) -> (s: Signature)
        ensures
            s.signer_key == signer_key,
            s.signed_messages@ == messages@,
    {
        Signature { signer_key, signed_messages: copy_u64_vec(messages) }
    }

    /// When the collaborator's verification accepts a signature.
    pub open spec fn valid_for(self, messages: Seq<u64>, public_key: u64) -> bool {
        self.signer_key == public_key && self.signed_messages@ == messages
    }

    /// The collaborator's verification algorithm.
    pub fn verify(&self, messages: &Vec<u64>, public_key: u64) -> (r: Result<
        (),
        ProofSystemError,
    >)
        ensures
            (r is Ok <==> self.valid_for(messages@, public_key)),
            r is Err ==> r == Err::<(), ProofSystemError>(ProofSystemError::InvalidProof),
    {
        if self.signer_key == public_key && crate::vecs::eq_u64_vec(
            &self.signed_messages,
            messages,
        ) {
            Ok(())
        } else {
            Err(ProofSystemError::InvalidProof)
        }
    }
}

/// One public assertion to be proved, with the public parameters needed to
/// verify that sub-proof in isolation.
#[derive(Clone, Debug)]
pub enum Statement {
    /// Knowledge of a signature over a message vector under `public_key`,
    /// with the messages at `revealed` positions disclosed.
    SignatureKnowledge { public_key: u64, message_count: usize, revealed: Vec<(usize, u64)> },
    /// Knowledge of an opening of `commitment` against its public basis
    /// elements.
    PedersenCommitment { commitment: Commitment },
}

/// The private data matching one statement's tag.
#[derive(Clone, Debug)]
pub enum Witness {
    /// The signature and the full signed message vector, indexed from zero.
    SignatureKnowledge { signature: Signature, messages: Vec<u64> },
    /// The committed values followed by the blinding randomness.
    PedersenCommitment { opening: Vec<u64> },
}

/// An assertion that every referenced witness slot hides the same value.
/// The assertion has set semantics — the consistency relation it induces is
/// pairwise and does not depend on any order — but the references are kept
/// in insertion order without duplicates, because the spec they sit in is a
/// public description that both sides must reproduce bit for bit.  A
/// meaningful set holds at least two references.
#[derive(Clone, Debug)]
pub struct EqualWitnesses {
    refs: Vec<WitnessRef>,
}

impl EqualWitnesses {
    /// The references this equality asserts over, in insertion order.
    pub closed spec fn refs_seq(self) -> Seq<WitnessRef> {
        self.refs@
    }

    /// An empty equality set.
    pub fn new() -> (s: Self)
        ensures
            s.refs_seq() == Seq::<WitnessRef>::empty(),
    {
        EqualWitnesses { refs: Vec::new() }
    }

    /// Add one reference; a duplicate leaves the set unchanged.
    pub fn insert(&mut self, r: WitnessRef)
        ensures
            old(self).refs_seq().contains(r) ==> final(self).refs_seq() == old(self).refs_seq(),
            !old(self).refs_seq().contains(r) ==> final(self).refs_seq() == old(
                self,
            ).refs_seq().push(r),
            final(self).refs_seq().contains(r),
    {
        let n = self.refs.len();
        let mut i: usize = 0;
        while i < n
            invariant
                i <= n,
                n == self.refs@.len(),
                forall|j: int| 0 <= j < i ==> self.refs@[j] != r,
                self == old(self),
            decreases n - i,
        {
            if self.refs[i].statement_idx == r.statement_idx && self.refs[i].witness_idx
                == r.witness_idx {
                proof {
                    assert(self.refs@[i as int] == r);
                    assert(self.refs@.contains(r));
                }
                return;
            }
            i = i + 1;
        }
        proof {
            assert(forall|j: int| 0 <= j < self.refs@.len() ==> self.refs@[j] != r);
            assert(!old(self).refs_seq().contains(r));
        }
        self.refs.push(r);
        proof {
            assert(self.refs@[self.refs@.len() - 1] == r);
            assert(self.refs@.contains(r));
        }
    }

    /// How many references the set holds.
    pub fn count(&self) -> (n: usize)
        ensures
            n == self.refs_seq().len(),
    {
        self.refs.len()
    }

    /// The reference at one position.
    pub fn ref_at(&self, i: usize) -> (r: WitnessRef)
        requires
            i < self.refs_seq().len(),
        ensures
            r == self.refs_seq()[i as int],
    {
        self.refs[i]
    }
}

/// A claim relating witnesses across statements.
#[derive(Clone, Debug)]
pub enum MetaStatement {
    /// The referenced witness slots all hide the same underlying value.
    WitnessEquality(EqualWitnesses),
}

/// A growable, order-preserving collection of statements.
#[derive(Clone, Debug)]
pub struct Statements(pub Vec<Statement>);

impl Statements {
    /// An empty collection.
    pub fn new() -> (s: Self)
        ensures
            s.0@ == Seq::<Statement>::empty(),
    {
        Statements(Vec::new())
    }

    /// Append one statement, keeping order.
    pub fn add(&mut self, s: Statement)
        ensures
            final(self).0@ == old(self).0@.push(s),
    {
        self.0.push(s);
    }
}

/// A growable collection of meta-statements.
#[derive(Clone, Debug)]
pub struct MetaStatements(pub Vec<MetaStatement>);

impl MetaStatements {
    /// An empty collection.
    pub fn new() -> (s: Self)
        ensures
            s.0@ == Seq::<MetaStatement>::empty(),
    {
        MetaStatements(Vec::new())
    }

    /// Append one meta-statement.
    pub fn add(&mut self, m: MetaStatement)
        ensures
            final(self).0@ == old(self).0@.push(m),
    {
        self.0.push(m);
    }
}

/// The prover-local collection of witnesses, one per statement, in the same
/// order as the statements they answer.
#[derive(Clone, Debug)]
pub struct Witnesses(pub Vec<Witness>);

impl Witnesses {
    /// An empty collection.
    pub fn new() -> (s: Self)
        ensures
            s.0@ == Seq::<Witness>::empty(),
    {
        Witnesses(Vec::new())
    }

    /// Append one witness.
    pub fn add(&mut self, w: Witness)
        ensures
            final(self).0@ == old(self).0@.push(w),
    {
        self.0.push(w);
    }
}

/// The complete public description both prover and verifier must agree on:
/// statements, meta-statements, and an optional context tag.
#[derive(Clone, Debug)]
pub struct ProofSpec {
    pub statements: Statements,
    pub meta_statements: MetaStatements,
    pub context: Option<Vec<u8>>,
}

/// How many addressable witness slots a statement's witness has.
pub open spec fn statement_witness_count(s: Statement) -> nat {
    match s {
        Statement::SignatureKnowledge { message_count, .. } => message_count as nat,
        Statement::PedersenCommitment { commitment } => commitment.opening@.len(),
    }
}

/// The flattened slot values of one witness.
pub open spec fn witness_values(w: Witness) -> Seq<u64> {
    match w {
        Witness::SignatureKnowledge { messages, .. } => messages@,
        Witness::PedersenCommitment { opening } => opening@,
    }
}

/// A witness answers a statement's tag and has the slot count the statement
/// expects.
pub open spec fn witness_matches_statement(s: Statement, w: Witness) -> bool {
    match (s, w) {
        (
            Statement::SignatureKnowledge { message_count, .. },
            Witness::SignatureKnowledge { messages, .. },
        ) => messages@.len() == message_count,
        (
            Statement::PedersenCommitment { commitment },
            Witness::PedersenCommitment { opening },
        ) => opening@.len() == commitment.opening@.len(),
        _ => false,
    }
}

/// Every revealed position addresses a message and names its exact value.
pub open spec fn revealed_ok(revealed: Seq<(usize, u64)>, values: Seq<u64>) -> bool {
    forall|k: int|
        0 <= k < revealed.len() ==> (#[trigger] revealed[k]).0 < values.len()
            && values[revealed[k].0 as int] == revealed[k].1
}

/// Decide [`revealed_ok`].
pub fn check_revealed(revealed: &Vec<(usize, u64)>, values: &Vec<u64>) -> (r: bool)
    ensures
        r == revealed_ok(revealed@, values@),
{
    let mut k: usize = 0;
    while k < revealed.len()
        invariant
            k <= revealed@.len(),
            forall|t: int|
                0 <= t < k ==> (#[trigger] revealed@[t]).0 < values@.len()
                    && values@[revealed@[t].0 as int] == revealed@[t].1,
        decreases revealed@.len() - k,
    {
        let (pos, val) = revealed[k];
        if pos >= values.len() || values[pos] != val {
            proof {
                if revealed_ok(revealed@, values@) {
                    let kk = k as int;
                    assert((revealed@[kk]).0 < values@.len() && values@[revealed@[kk].0 as int]
                        == revealed@[kk].1);
                    assert(false);
                }
            }
            return false;
        }
        k = k + 1;
    }
    true
}

/// A witness actually satisfies its statement: the signature is valid over
/// the messages under the statement's key with the revealed positions
/// matching, or the opening is exactly the committed one.
pub open spec fn statement_satisfied(s: Statement, w: Witness) -> bool {
    match (s, w) {
        (
            Statement::SignatureKnowledge { public_key, message_count, revealed },
            Witness::SignatureKnowledge { signature, messages },
        ) => {
            &&& messages@.len() == message_count
            &&& signature.valid_for(messages@, public_key)
            &&& revealed_ok(revealed@, messages@)
        },
        (
            Statement::PedersenCommitment { commitment },
            Witness::PedersenCommitment { opening },
        ) => opening@ == commitment.opening@,
        _ => false,
    }
}

/// A reference addresses an existing slot of an existing statement.
pub open spec fn ref_in_bounds(r: WitnessRef, stmts: Seq<Statement>) -> bool {
    r.statement_idx < stmts.len() && r.witness_idx < statement_witness_count(
        stmts[r.statement_idx as int],
    )
}

/// A meta-statement is well formed over a statement list: at least two
/// references, all in bounds.
pub open spec fn meta_well_formed(m: MetaStatement, stmts: Seq<Statement>) -> bool {
    match m {
        MetaStatement::WitnessEquality(eq) => {
            &&& eq.refs_seq().len() >= 2
            &&& forall|i: int|
                0 <= i < eq.refs_seq().len() ==> ref_in_bounds(#[trigger] eq.refs_seq()[i], stmts)
        },
    }
}

/// The value hidden at one witness reference.
pub open spec fn value_at(ws: Seq<Witness>, r: WitnessRef) -> u64 {
    witness_values(ws[r.statement_idx as int])[r.witness_idx as int]
}

/// One equality set holds of a witness list: every two referenced slots
/// hide the same value.
pub open spec fn equality_holds(eq: EqualWitnesses, ws: Seq<Witness>) -> bool {
    forall|i: int, j: int|
        0 <= i < eq.refs_seq().len() && 0 <= j < eq.refs_seq().len() ==> value_at(
            ws,
            #[trigger] eq.refs_seq()[i],
        ) == value_at(ws, #[trigger] eq.refs_seq()[j])
}

/// Every meta-statement of a spec holds of the witness list.
pub open spec fn meta_statements_hold(ps: ProofSpec, ws: Seq<Witness>) -> bool {
    forall|i: int|
        0 <= i < ps.meta_statements.0@.len() ==> match #[trigger] ps.meta_statements.0@[i] {
            MetaStatement::WitnessEquality(eq) => equality_holds(eq, ws),
        }
}

/// A spec and a witness list fit together: one witness per statement, each
/// matching its statement's tag and slot count, and every meta-statement
/// well formed.  This is what proof construction validates; its failure is
/// `MalformedSpec`.
pub open spec fn spec_compatible(ps: ProofSpec, ws: Seq<Witness>) -> bool {
    &&& ws.len() == ps.statements.0@.len()
    &&& forall|i: int|
        0 <= i < ws.len() ==> witness_matches_statement(#[trigger] ps.statements.0@[i], ws[i])
    &&& forall|i: int|
        0 <= i < ps.meta_statements.0@.len() ==> meta_well_formed(
            #[trigger] ps.meta_statements.0@[i],
            ps.statements.0@,
        )
}

/// Every statement of a spec is satisfied by its witness.
pub open spec fn statements_satisfied(ps: ProofSpec, ws: Seq<Witness>) -> bool {
    forall|i: int|
        0 <= i < ws.len() ==> statement_satisfied(#[trigger] ps.statements.0@[i], ws[i])
}

/// Two commitments carry the same slot and opening.
pub open spec fn commitment_eq(a: Commitment, b: Commitment) -> bool {
    a.slot == b.slot && a.opening@ == b.opening@
}

/// Two statements describe the same public assertion.
pub open spec fn statement_eq(a: Statement, b: Statement) -> bool {
    match (a, b) {
        (
            Statement::SignatureKnowledge { public_key: ka, message_count: ca, revealed: ra },
            Statement::SignatureKnowledge { public_key: kb, message_count: cb, revealed: rb },
        ) => ka == kb && ca == cb && ra@ == rb@,
        (
            Statement::PedersenCommitment { commitment: ca },
            Statement::PedersenCommitment { commitment: cb },
        ) => commitment_eq(ca, cb),
        _ => false,
    }
}

/// Two meta-statements assert equality over the same references in the
/// same order.
pub open spec fn meta_eq(a: MetaStatement, b: MetaStatement) -> bool {
    match (a, b) {
        (MetaStatement::WitnessEquality(ea), MetaStatement::WitnessEquality(eb)) => ea.refs_seq()
            == eb.refs_seq(),
    }
}

/// Two optional context tags carry the same bytes.
pub open spec fn context_eq(a: Option<Vec<u8>>, b: Option<Vec<u8>>) -> bool {
    match (a, b) {
        (None, None) => true,
        (Some(x), Some(y)) => x@ == y@,
        _ => false,
    }
}

/// Two proof specs are the same public description, bit for bit.
pub open spec fn spec_eq(a: ProofSpec, b: ProofSpec) -> bool {
    &&& a.statements.0@.len() == b.statements.0@.len()
    &&& forall|i: int|
        0 <= i < a.statements.0@.len() ==> statement_eq(
            #[trigger] a.statements.0@[i],
            b.statements.0@[i],
        )
    &&& a.meta_statements.0@.len() == b.meta_statements.0@.len()
    &&& forall|i: int|
        0 <= i < a.meta_statements.0@.len() ==> meta_eq(
            #[trigger] a.meta_statements.0@[i],
            b.meta_statements.0@[i],
        )
    &&& context_eq(a.context, b.context)
}

/// Sameness of specs is reflexive: every spec matches itself.
pub proof fn lemma_spec_eq_refl(ps: ProofSpec)
    ensures
        spec_eq(ps, ps),
{
    assert forall|i: int| 0 <= i < ps.statements.0@.len() implies statement_eq(
        #[trigger] ps.statements.0@[i],
        ps.statements.0@[i],
    ) by {
        match ps.statements.0@[i] {
            Statement::SignatureKnowledge { .. } => {},
            Statement::PedersenCommitment { .. } => {},
        }
    }
    assert forall|i: int| 0 <= i < ps.meta_statements.0@.len() implies meta_eq(
        #[trigger] ps.meta_statements.0@[i],
        ps.meta_statements.0@[i],
    ) by {
        match ps.meta_statements.0@[i] {
            MetaStatement::WitnessEquality(_) => {},
        }
    }
    match ps.context {
        None => {},
        Some(_) => {},
    }
}

/// Element-wise comparison of two revealed-position lists.
fn eq_revealed_vec(a: &Vec<(usize, u64)>, b: &Vec<(usize, u64)>) -> (r: bool)
    ensures
        r == (a@ == b@),
{
    if a.len() != b.len() {
        proof {
            assert(a@ != b@);
        }
        return false;
    }
    let mut i: usize = 0;
    while i < a.len()
        invariant
            i <= a@.len(),
            a@.len() == b@.len(),
            forall|j: int| 0 <= j < i ==> a@[j] == b@[j],
        decreases a@.len() - i,
    {
        let (pa, va) = a[i];
        let (pb, vb) = b[i];
        if pa != pb || va != vb {
            proof {
                assert(a@[i as int] != b@[i as int]);
            }
            return false;
        }
        i = i + 1;
    }
    proof {
        assert(a@ =~= b@);
    }
    true
}

/// Element-wise comparison of two reference lists.
fn eq_ref_vec(a: &Vec<WitnessRef>, b: &Vec<WitnessRef>) -> (r: bool)
    ensures
        r == (a@ == b@),
{
    if a.len() != b.len() {
        proof {
            assert(a@ != b@);
        }
        return false;
    }
    let mut i: usize = 0;
    while i < a.len()
        invariant
            i <= a@.len(),
            a@.len() == b@.len(),
            forall|j: int| 0 <= j < i ==> a@[j] == b@[j],
        decreases a@.len() - i,
    {
        if a[i] != b[i] {
            return false;
        }
        i = i + 1;
    }
    proof {
        assert(a@ =~= b@);
    }
    true
}

/// Decide [`statement_eq`].
pub fn eq_statement(a: &Statement, b: &Statement) -> (r: bool)
    ensures
        r == statement_eq(*a, *b),
{
    match (a, b) {
        (
            Statement::SignatureKnowledge { public_key: ka, message_count: ca, revealed: ra },
            Statement::SignatureKnowledge { public_key: kb, message_count: cb, revealed: rb },
        ) => *ka == *kb && *ca == *cb && eq_revealed_vec(ra, rb),
        (
            Statement::PedersenCommitment { commitment: ca },
            Statement::PedersenCommitment { commitment: cb },
        ) => ca.slot == cb.slot && crate::vecs::eq_u64_vec(&ca.opening, &cb.opening),
        _ => false,
    }
}

/// Decide [`meta_eq`].
pub fn eq_meta(a: &MetaStatement, b: &MetaStatement) -> (r: bool)
    ensures
        r == meta_eq(*a, *b),
{
    match (a, b) {
        (MetaStatement::WitnessEquality(ea), MetaStatement::WitnessEquality(eb)) => eq_ref_vec(
            &ea.refs,
            &eb.refs,
        ),
    }
}

/// Decide [`context_eq`].
pub fn eq_context(a: &Option<Vec<u8>>, b: &Option<Vec<u8>>) -> (r: bool)
    ensures
        r == context_eq(*a, *b),
{
    match (a, b) {
        (None, None) => true,
        (Some(x), Some(y)) => crate::vecs::eq_u8_vec(x, y),
        _ => false,
    }
}

/// Decide [`spec_eq`]: do two proof specs describe the same statements,
/// the same meta-statements, and the same context?
pub fn spec_matches(a: &ProofSpec, b: &ProofSpec) -> (r: bool)
    ensures
        r == spec_eq(*a, *b),
{
    if a.statements.0.len() != b.statements.0.len() {
        return false;
    }
    if a.meta_statements.0.len() != b.meta_statements.0.len() {
        return false;
    }
    let n = a.statements.0.len();
    let mut i: usize = 0;
    while i < n
        invariant
            i <= n,
            n == a.statements.0@.len(),
            n == b.statements.0@.len(),
            forall|j: int|
                0 <= j < i ==> statement_eq(#[trigger] a.statements.0@[j], b.statements.0@[j]),
        decreases n - i,
    {
        if !eq_statement(&a.statements.0[i], &b.statements.0[i]) {
            proof {
                if spec_eq(*a, *b) {
                    assert(statement_eq(a.statements.0@[i as int], b.statements.0@[i as int]));
                }
            }
            return false;
        }
        i = i + 1;
    }
    let m = a.meta_statements.0.len();
    let mut k: usize = 0;
    while k < m
        invariant
            k <= m,
            m == a.meta_statements.0@.len(),
            m == b.meta_statements.0@.len(),
            forall|j: int|
                0 <= j < k ==> meta_eq(
                    #[trigger] a.meta_statements.0@[j],
                    b.meta_statements.0@[j],
                ),
        decreases m - k,
    {
        if !eq_meta(&a.meta_statements.0[k], &b.meta_statements.0[k]) {
            proof {
                if spec_eq(*a, *b) {
                    assert(meta_eq(
                        a.meta_statements.0@[k as int],
                        b.meta_statements.0@[k as int],
                    ));
                }
            }
            return false;
        }
        k = k + 1;
    }
    eq_context(&a.context, &b.context)
}

} // verus!
