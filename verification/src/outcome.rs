//! The outcome algebra: a two-variant result type over an opaque serializable
//! payload, with an associative combination operator (a monoid whose identity
//! is the empty success) used to fold many probe outcomes into one.

use vstd::prelude::*;

use crate::error::ErrorModel;
use crate::errors::Errors;

verus! {

#[verifier::external_type_specification]
#[verifier::external_body]
pub struct ExValue(serde_json::Value);

/// An opaque success payload: any serializable value, boxed behind
/// erased-serde exactly as the probes hand it over. The algebra never
/// inspects it, and Verus sees nothing inside.
#[verifier::external_body]
pub struct Payload {
    value: Box<dyn erased_serde::Serialize>,
}

/// The JSON text that serde_json produces for the boxed value, or nothing if
/// the value cannot be represented as JSON. A function of the payload alone:
/// every `Payload` is built by one of the constructors below, each of which
/// boxes a fixed value whose serialization is deterministic.
pub uninterp spec fn payload_json(p: Payload) -> Option<Seq<char>>;

impl Payload {
    /// The neutral payload of the algebra's empty success.
    ///
    /// Relies on serde_json: the unit value serializes as `null`.
    #[verifier::external_body]
    pub fn empty() -> (r: Payload)
        ensures
            payload_json(r) == Some("null"@),
    {
        Payload { value: Box::new(()) }
    }

    /// A payload carrying an already-structured JSON value.
    ///
    /// Relies on serde_json: a `Value` tree always serializes (its object
    /// keys are strings and its numbers are finite), so its text exists.
    #[verifier::external_body]
    pub fn from_value(v: serde_json::Value) -> (r: Payload)
        ensures
            payload_json(r) is Some,
    {
        Payload { value: Box::new(v) }
    }

    /// A payload whose serialization always fails, for exercising the
    /// encoder's fallback path.
    ///
    /// Relies on serde_json: a map with a non-string key is rejected by the
    /// JSON serializer ("key must be a string"), so this value never encodes.
    #[verifier::external_body]
    pub fn unserializable() -> (r: Payload)
        ensures
            payload_json(r) is None,
    {
        Payload { value: Box::new(std::collections::HashMap::from([((0u8, 0u8), 0u8)])) }
    }

    /// Relies on serde_json::to_string over erased-serde's `Serialize` trait
    /// object: the boxed value's JSON text, or `None` if it has none.
    #[verifier::external_body]
    pub(crate) fn encode(&self) -> (r: Option<String>)
        ensures
            match r {
                Some(s) => payload_json(*self) == Some(s@),
                None => payload_json(*self) is None,
            },
    {
        serde_json::to_string(self.value.as_ref()).ok()
    }
}

/// The result of one probe, or of a fold over many: either a success carrying
/// an opaque payload, or a failure carrying one or more accumulated errors.
pub enum Outcome {
    Success(Payload),
    Failure(Errors),
}

/// Model of an outcome: the verdict and the merged error sequence. The
/// success payload is deliberately absent — the algebra is payload-agnostic,
/// and probe values are tracked separately by the report assembler.
pub enum OutcomeModel {
    Success,
    Failure(Seq<ErrorModel>),
}

impl View for Outcome {
    type V = OutcomeModel;

    open spec fn view(&self) -> OutcomeModel {
        match self {
            Outcome::Success(_) => OutcomeModel::Success,
            Outcome::Failure(e) => OutcomeModel::Failure(e@),
        }
    }
}

/// The error sequence of a model (empty for a success).
pub open spec fn errors_of(m: OutcomeModel) -> Seq<ErrorModel> {
    match m {
        OutcomeModel::Success => Seq::empty(),
        OutcomeModel::Failure(s) => s,
    }
}

/// The combination law of the outcome algebra: a failure on either side wins;
/// two failures merge their errors left-then-right; two successes stay a
/// success.
pub open spec fn combine_model(a: OutcomeModel, b: OutcomeModel) -> OutcomeModel {
    match (a, b) {
        (OutcomeModel::Failure(l), OutcomeModel::Failure(r)) => OutcomeModel::Failure(l + r),
        (OutcomeModel::Failure(l), OutcomeModel::Success) => OutcomeModel::Failure(l),
        (OutcomeModel::Success, OutcomeModel::Failure(r)) => OutcomeModel::Failure(r),
        (OutcomeModel::Success, OutcomeModel::Success) => OutcomeModel::Success,
    }
}

impl Outcome {
    /// The identity element of `combine`: a success with the neutral payload.
    pub fn success_empty() -> (r: Outcome)
        ensures
            r@ == OutcomeModel::Success,
            r matches Outcome::Success(p) && payload_json(p) == Some("null"@),
    {
        Outcome::Success(Payload::empty())
    }

    /// Combines two outcomes. A failure always wins; two failures concatenate
    /// their errors in left-then-right order; two successes yield the empty
    /// success, since probe values are merged by the report assembler, not
    /// here.
    pub fn combine(self, rhs: Outcome) -> (r: Outcome)
        ensures
            r@ == combine_model(self@, rhs@),
            self@ is Failure && rhs@ is Success ==> r == self,
            self@ is Success && rhs@ is Failure ==> r == rhs,
            self@ is Success && rhs@ is Success ==> (r matches Outcome::Success(p)
                && payload_json(p) == Some("null"@)),
    {
        match (self, rhs) {
            (Outcome::Failure(l), Outcome::Failure(r)) => Outcome::Failure(l.concat(r)),
            (Outcome::Failure(l), Outcome::Success(_)) => Outcome::Failure(l),
            (Outcome::Success(_), Outcome::Failure(r)) => Outcome::Failure(r),
            (Outcome::Success(_), Outcome::Success(_)) => Outcome::Success(Payload::empty()),
        }
    }
}

/// A fold of many outcome models, left to right, from the empty success.
pub open spec fn fold_model(s: Seq<OutcomeModel>) -> OutcomeModel
    decreases s.len(),
{
    if s.len() == 0 {
        OutcomeModel::Success
    } else {
        combine_model(fold_model(s.drop_last()), s.last())
    }
}

/// Folds a whole collection of probe outcomes into one aggregate outcome,
/// left to right, starting from the empty success.
pub fn fold_outcomes(outcomes: Vec<Outcome>) -> (r: Outcome)
    ensures
        r@ == fold_model(outcomes@.map(|i: int, o: Outcome| o@)),
{
    let ghost models = outcomes@.map(|i: int, o: Outcome| o@);
    let mut rest = outcomes;
    let mut acc = Outcome::success_empty();
    let ghost k: int = 0;
    while rest.len() > 0
        invariant
            0 <= k <= models.len(),
            rest@.len() == models.len() - k,
            forall|i: int| 0 <= i < rest@.len() ==> rest@[i]@ == models[k + i],
            acc@ == fold_model(models.take(k)),
        decreases rest@.len(),
    {
        let next = rest.remove(0);
        acc = acc.combine(next);
        proof {
            assert(models.take(k + 1).drop_last() =~= models.take(k));
            assert(models.take(k + 1).last() == models[k]);
            k = k + 1;
        }
    }
    proof {
        assert(models.take(models.len() as int) =~= models);
    }
    acc
}

/// Folding no probes yields a success, and folding a single probe yields that
/// probe's own model unchanged: the fold starts from `combine`'s identity.
pub proof fn lemma_fold_single(m: OutcomeModel)
    ensures
        fold_model(Seq::empty()) == OutcomeModel::Success,
        fold_model(seq![m]) == m,
{
    assert(seq![m].drop_last() =~= Seq::<OutcomeModel>::empty());
    lemma_combine_identity(m);
}

/// Law: `combine` is associative.
pub proof fn lemma_combine_associative(a: OutcomeModel, b: OutcomeModel, c: OutcomeModel)
    ensures
        combine_model(combine_model(a, b), c) == combine_model(a, combine_model(b, c)),
{
    assert((errors_of(a) + errors_of(b)) + errors_of(c) =~= errors_of(a) + (errors_of(b)
        + errors_of(c)));
}

/// Law: the empty success is an identity of `combine`, on either side. (At
/// the model level: the verdict and the error sequence are unchanged; the
/// payload of a success is outside the algebra by design.)
pub proof fn lemma_combine_identity(x: OutcomeModel)
    ensures
        combine_model(OutcomeModel::Success, x) == x,
        combine_model(x, OutcomeModel::Success) == x,
{
}

/// Law: failure dominance. If either operand is a failure, the combination is
/// a failure; when both are, the merged collection's length is the sum of the
/// operands' lengths and its elements keep left-then-right order.
pub proof fn lemma_failure_dominance(a: OutcomeModel, b: OutcomeModel)
    ensures
        a is Failure || b is Failure ==> combine_model(a, b) is Failure,
        a is Failure && b is Failure ==> {
            let merged = errors_of(combine_model(a, b));
            &&& merged == errors_of(a) + errors_of(b)
            &&& merged.len() == errors_of(a).len() + errors_of(b).len()
            &&& forall|i: int|
                0 <= i < errors_of(a).len() ==> merged[i] == errors_of(a)[i]
            &&& forall|i: int|
                0 <= i < errors_of(b).len() ==> merged[errors_of(a).len() + i] == errors_of(b)[i]
        },
{
}

} // verus!
