//! The error collection: an ordered, append-only sequence of errors merged
//! across probes, and the single response status derived from it by a fixed
//! precedence over the error tags present.

use vstd::prelude::*;

use crate::error::{Error, ErrorModel};

verus! {

/// Wire-level response status. The mapping from error tags to statuses is
/// fixed and total: `MalformedStructure` yields `UnprocessableEntity`,
/// `NotFound` yields `NotFound`, and `IoFailure` and `EncodingFailure` both
/// yield `InternalServerError`; a success yields `Success`.
#[derive(Clone, Copy, PartialEq, Eq, Structural, Debug)]
pub enum StatusCode {
    Success,
    NotFound,
    UnprocessableEntity,
    InternalServerError,
}

/// The numeric wire code of a status.
pub open spec fn code_of(s: StatusCode) -> int {
    match s {
        StatusCode::Success => 200,
        StatusCode::NotFound => 404,
        StatusCode::UnprocessableEntity => 422,
        StatusCode::InternalServerError => 500,
    }
}

impl StatusCode {
    /// The numeric wire code of this status.
    pub fn code(&self) -> (r: u16)
        ensures
            r as int == code_of(*self),
    {
        match self {
            StatusCode::Success => 200,
            StatusCode::NotFound => 404,
            StatusCode::UnprocessableEntity => 422,
            StatusCode::InternalServerError => 500,
        }
    }
}

/// Precedence rank of an error tag: when several tags are merged, the
/// highest rank present decides the response status.
pub open spec fn rank_of(e: ErrorModel) -> int {
    match e {
        ErrorModel::IoFailure(_) => 0,
        ErrorModel::NotFound(_) => 1,
        ErrorModel::MalformedStructure(_) => 2,
        ErrorModel::EncodingFailure(_) => 3,
    }
}

/// The status that a given precedence rank maps to. Total: any rank outside
/// the taxonomy falls back to `InternalServerError`.
pub open spec fn status_for_rank(r: int) -> StatusCode {
    if r == 1 {
        StatusCode::NotFound
    } else if r == 2 {
        StatusCode::UnprocessableEntity
    } else {
        StatusCode::InternalServerError
    }
}

/// The highest precedence rank present in a sequence of errors
/// (`-1` for the empty sequence, which never occurs in a `Failure`).
pub open spec fn max_rank(s: Seq<ErrorModel>) -> int
    decreases s.len(),
{
    if s.len() == 0 {
        -1
    } else {
        let rest = max_rank(s.drop_last());
        if rank_of(s.last()) > rest {
            rank_of(s.last())
        } else {
            rest
        }
    }
}

/// The status of a merged error collection: decided once, by the highest
/// precedence rank present, never per-error.
pub open spec fn status_of(s: Seq<ErrorModel>) -> StatusCode {
    status_for_rank(max_rank(s))
}

/// The highest rank bounds every element's rank, and is attained by one.
pub proof fn lemma_max_rank(s: Seq<ErrorModel>)
    ensures
        forall|i: int| 0 <= i < s.len() ==> rank_of(s[i]) <= max_rank(s),
        s.len() > 0 ==> exists|i: int| 0 <= i < s.len() && rank_of(s[i]) == max_rank(s),
    decreases s.len(),
{
    if s.len() > 0 {
        lemma_max_rank(s.drop_last());
        if rank_of(s.last()) > max_rank(s.drop_last()) {
            assert(rank_of(s[s.len() - 1]) == max_rank(s));
        } else {
            if s.len() > 1 {
                let j = choose|j: int|
                    0 <= j < s.drop_last().len() && rank_of(s.drop_last()[j]) == max_rank(
                        s.drop_last(),
                    );
                assert(rank_of(s[j]) == max_rank(s));
            }
        }
        assert(forall|i: int| 0 <= i < s.len() - 1 ==> s.drop_last()[i] == s[i]);
    }
}

/// Law: the status of a mixed collection equals the status of its
/// highest-precedence tag, wherever that error stands in the sequence.
pub proof fn lemma_status_highest_tag(s: Seq<ErrorModel>, r: int)
    requires
        exists|i: int| 0 <= i < s.len() && rank_of(s[i]) == r,
        forall|i: int| 0 <= i < s.len() ==> rank_of(s[i]) <= r,
    ensures
        status_of(s) == status_for_rank(r),
{
    lemma_max_rank(s);
}

/// An ordered, append-only collection of errors: insertion order preserved,
/// duplicates allowed, never empty.
pub struct Errors {
    list: Vec<Error>,
}

impl View for Errors {
    type V = Seq<ErrorModel>;

    closed spec fn view(&self) -> Seq<ErrorModel> {
        self.list@.map(|i: int, e: Error| e@)
    }
}

impl Errors {
    /// Non-empty whenever it exists: enforced by construction.
    #[verifier::type_invariant]
    pub closed spec fn inv(self) -> bool {
        self.list@.len() > 0
    }

    /// Wraps one error into a singleton collection.
    pub fn from_error(e: Error) -> (r: Errors)
        ensures
            r@ == seq![e@],
    {
        let ghost model = e@;
        let mut list: Vec<Error> = Vec::new();
        list.push(e);
        let r = Errors { list };
        proof {
            assert(r@ =~= seq![model]);
        }
        r
    }

    /// Appends `other`'s errors after `self`'s, preserving order; never
    /// drops, never deduplicates.
    pub fn concat(self, other: Errors) -> (r: Errors)
        ensures
            r@ == self@ + other@,
    {
        proof {
            use_type_invariant(&self);
        }
        let mut list = self.list;
        let mut tail = other.list;
        list.append(&mut tail);
        let r = Errors { list };
        proof {
            assert(r@ =~= self@ + other@);
        }
        r
    }

    /// Read-only view of the accumulated errors, in insertion order.
    pub fn errors(&self) -> (r: &Vec<Error>)
        ensures
            r@.map(|i: int, e: Error| e@) == self@,
            r@.len() > 0,
    {
        proof {
            use_type_invariant(self);
        }
        &self.list
    }

    /// The derived response status: total over every tag combination, and
    /// decided by the highest-precedence tag present.
    pub fn status(&self) -> (r: StatusCode)
        ensures
            r == status_of(self@),
    {
        let mut best: i8 = -1;
        let mut i: usize = 0;
        while i < self.list.len()
            invariant
                0 <= i <= self.list@.len(),
                -1 <= best <= 3,
                best as int == max_rank(self@.take(i as int)),
            decreases self.list@.len() - i,
        {
            let rank: i8 = match &self.list[i] {
                Error::IoFailure(_) => 0,
                Error::NotFound(_) => 1,
                Error::MalformedStructure(_) => 2,
                Error::EncodingFailure(_) => 3,
            };
            if rank > best {
                best = rank;
            }
            proof {
                assert(self@.take(i + 1).drop_last() =~= self@.take(i as int));
                assert(self@.take(i + 1).last() == self@[i as int]);
            }
            i += 1;
        }
        proof {
            assert(self@.take(self.list@.len() as int) =~= self@);
        }
        if best == 1 {
            StatusCode::NotFound
        } else if best == 2 {
            StatusCode::UnprocessableEntity
        } else {
            StatusCode::InternalServerError
        }
    }
}

} // verus!
