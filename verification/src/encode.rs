//! The response encoder: turns an aggregate outcome into exactly one
//! status + body pair. Structured JSON on the happy path; if serialization of
//! the payload itself fails, a fixed plaintext fallback — never an unhandled
//! fault across the request boundary.

use vstd::prelude::*;

use crate::error::{Error, ErrorModel, message_of};
use crate::errors::{code_of, status_of};
use crate::outcome::{Outcome, payload_json};

verus! {

/// The JSON string literal (quoted, escaped) that serde_json produces for a
/// character sequence.
pub uninterp spec fn json_string_of(s: Seq<char>) -> Seq<char>;

/// Relies on serde_json::to_string for `&str`: renders the text as a JSON
/// string literal, quoted and escaped. Writing to an in-memory buffer, it has
/// no failure path for a string.
#[verifier::external_body]
fn json_escape(s: &str) -> (r: String)
    ensures
        r@ == json_string_of(s@),
{
    serde_json::to_string(s).unwrap()
}

/// One error's wire object: a `message` field carrying the error's text.
pub open spec fn error_item_text(e: ErrorModel) -> Seq<char> {
    "{\"message\":"@ + json_string_of(message_of(e)) + "}"@
}

/// The comma-separated error objects, in insertion order.
pub open spec fn error_items_text(s: Seq<ErrorModel>) -> Seq<char>
    decreases s.len(),
{
    if s.len() == 0 {
        Seq::empty()
    } else if s.len() == 1 {
        error_item_text(s[0])
    } else {
        error_items_text(s.drop_last()) + ","@ + error_item_text(s.last())
    }
}

/// The failure body: a JSON array of the error objects, in insertion order.
pub open spec fn error_body_text(s: Seq<ErrorModel>) -> Seq<char> {
    "["@ + error_items_text(s) + "]"@
}

/// The fixed plaintext body of the fallback path.
pub open spec fn fallback_text() -> Seq<char> {
    "Cannot serialize message."@
}

/// How the body is typed on the wire: structured JSON everywhere but on the
/// serialization-fallback path, which is plain text.
#[derive(Clone, Copy, PartialEq, Eq, Structural, Debug)]
pub enum BodyKind {
    Json,
    Plain,
}

/// A well-formed wire response: a status code, a body, and the body's kind.
pub struct Reply {
    pub status: u16,
    pub body: String,
    pub kind: BodyKind,
}

/// Renders the error collection as its wire body.
fn error_body(list: &Vec<Error>) -> (r: String)
    ensures
        r@ == error_body_text(list@.map(|i: int, e: Error| e@)),
{
    let ghost models = list@.map(|i: int, e: Error| e@);
    let mut body = String::from_str("[");
    let mut i: usize = 0;
    while i < list.len()
        invariant
            0 <= i <= list@.len(),
            models == list@.map(|i: int, e: Error| e@),
            body@ == "["@ + error_items_text(models.take(i as int)),
        decreases list@.len() - i,
    {
        if i > 0 {
            body.append(",");
        }
        let msg = list[i].message();
        let escaped = json_escape(msg.as_str());
        body.append("{\"message\":");
        body.append(escaped.as_str());
        body.append("}");
        proof {
            assert(models.take(i + 1).drop_last() =~= models.take(i as int));
            assert(models.take(i + 1).last() == models[i as int]);
            assert(body@ =~= "["@ + error_items_text(models.take(i + 1)));
        }
        i += 1;
    }
    body.append("]");
    proof {
        assert(models.take(models.len() as int) =~= models);
        assert(body@ =~= "["@ + error_items_text(models) + "]"@);
    }
    body
}

impl Outcome {
    /// Total encoder: every outcome yields exactly one status + body pair.
    /// A success whose payload serializes is sent as that JSON with the OK
    /// code; a failure is sent as the JSON array of its errors with the
    /// status its tags derive; a success whose payload has no JSON text falls
    /// back to a fixed plaintext body with the internal-failure code.
    pub fn encode(self) -> (r: Reply)
        ensures
            (match self {
                Outcome::Success(p) => match payload_json(p) {
                    Some(text) => r.status == 200 && r.body@ == text && r.kind == BodyKind::Json,
                    None => r.status == 500 && r.body@ == fallback_text() && r.kind
                        == BodyKind::Plain,
                },
                Outcome::Failure(e) => r.status as int == code_of(status_of(e@)) && r.body@
                    == error_body_text(e@) && r.kind == BodyKind::Json,
            }),
    {
        match self {
            Outcome::Success(payload) => match payload.encode() {
                Some(body) => Reply { status: 200, body, kind: BodyKind::Json },
                None => Reply {
                    status: 500,
                    body: String::from_str("Cannot serialize message."),
                    kind: BodyKind::Plain,
                },
            },
            Outcome::Failure(errors) => {
                let status = errors.status().code();
                let body = error_body(errors.errors());
                Reply { status, body, kind: BodyKind::Json }
            },
        }
    }
}

} // verus!
