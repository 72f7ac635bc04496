//! Validation of one HTTP answer and extraction of the polished text:
//! status check with the server-supplied error message, then the
//! concatenated text of the first candidate's parts.

use vstd::prelude::*;
use crate::error::{MalformedKind, PolishError};
use crate::escape::is_blank_seq;
use crate::escape::is_blank;
use crate::json::JsonValue;

verus! {

/// The parts array of one candidate: its `content.parts` member, when
/// that member exists and is an array.
pub open spec fn spec_parts_of(cand: JsonValue) -> Option<Seq<JsonValue>> {
    match cand.spec_get("content"@) {
        Some(content) => match content.spec_get("parts"@) {
            Some(JsonValue::List(parts)) => Some(parts@),
            _ => None,
        },
        None => None,
    }
}

/// The text carried by a sequence of parts: every part's string-valued
/// `text` member, concatenated in array order; a part without one
/// contributes nothing.
pub open spec fn spec_concat_texts(parts: Seq<JsonValue>) -> Seq<char>
    decreases parts.len(),
{
    if parts.len() == 0 {
        Seq::empty()
    } else {
        spec_concat_texts(parts.drop_last()) + (match parts.last().spec_get("text"@) {
            Some(JsonValue::Text(t)) => t@,
            _ => Seq::<char>::empty(),
        })
    }
}

/// The candidates array of a body, when the `candidates` member exists
/// and is an array.
pub open spec fn spec_candidates(body: JsonValue) -> Option<Seq<JsonValue>> {
    match body.spec_get("candidates"@) {
        Some(JsonValue::List(cands)) => Some(cands@),
        _ => None,
    }
}

/// What one candidate yields: the concatenated text of its parts, or the
/// reason its shape admits none.
pub open spec fn spec_extract_first(cand: JsonValue) -> Result<Seq<char>, MalformedKind> {
    match spec_parts_of(cand) {
        Some(parts) => {
            let text = spec_concat_texts(parts);
            if is_blank_seq(text) {
                Err(MalformedKind::EmptyText)
            } else {
                Ok(text)
            }
        },
        None => Err(MalformedKind::NoTextParts),
    }
}

/// Extraction from a success response: the first candidate's text, or
/// the reason the body's shape admits none. Only the first candidate is
/// ever consulted; further candidates are ignored by design.
pub open spec fn spec_extract(body: JsonValue) -> Result<Seq<char>, MalformedKind> {
    match spec_candidates(body) {
        Some(cands) => if cands.len() == 0 {
            Err(MalformedKind::NoCandidates)
        } else {
            spec_extract_first(cands[0])
        },
        None => Err(MalformedKind::MissingCandidates),
    }
}

/// Only the first candidate matters: two bodies whose candidate arrays
/// agree on their first element extract to the same result, whatever the
/// further candidates hold.
pub proof fn lemma_only_first_candidate(
    b1: JsonValue,
    b2: JsonValue,
    c1: Seq<JsonValue>,
    c2: Seq<JsonValue>,
)
    requires
        spec_candidates(b1) == Some(c1),
        spec_candidates(b2) == Some(c2),
        c1.len() > 0,
        c2.len() > 0,
        c1[0] == c2[0],
    ensures
        spec_extract(b1) == spec_extract(b2),
{
}

/// The message a failed response carries: its `error.message` member
/// when that is a string, the fixed placeholder otherwise.
pub open spec fn spec_status_message(body: JsonValue) -> Seq<char> {
    match body.spec_get("error"@) {
        Some(e) => match e.spec_get("message"@) {
            Some(JsonValue::Text(t)) => t@,
            _ => "Unknown API error"@,
        },
        None => "Unknown API error"@,
    }
}

/// Whether a status code counts as success.
pub open spec fn spec_is_success(status: u16) -> bool {
    200 <= status < 300
}

/// Extracts the polished text of a success body.
pub fn extract_text(body: &JsonValue) -> (r: Result<String, MalformedKind>)
    ensures
        match r {
            Ok(s) => spec_extract(*body) == Ok::<Seq<char>, MalformedKind>(s@),
            Err(k) => spec_extract(*body) == Err::<Seq<char>, MalformedKind>(k),
        },
{
    let cands_value = match body.get("candidates") {
        Some(v) => v,
        None => {
            return Err(MalformedKind::MissingCandidates);
        },
    };
    let cands = match cands_value {
        JsonValue::List(l) => l,
        _ => {
            return Err(MalformedKind::MissingCandidates);
        },
    };
    if cands.len() == 0 {
        return Err(MalformedKind::NoCandidates);
    }
    let first = &cands[0];
    let content = match first.get("content") {
        Some(v) => v,
        None => {
            return Err(MalformedKind::NoTextParts);
        },
    };
    let parts_value = match content.get("parts") {
        Some(v) => v,
        None => {
            return Err(MalformedKind::NoTextParts);
        },
    };
    let parts = match parts_value {
        JsonValue::List(l) => l,
        _ => {
            return Err(MalformedKind::NoTextParts);
        },
    };
    let n: usize = parts.len();
    let mut out = String::new();
    let mut i: usize = 0;
    proof {
        assert(parts@.subrange(0, 0) =~= Seq::<JsonValue>::empty());
    }
    while i < n
        invariant
            i <= n,
            n == parts@.len(),
            out@ == spec_concat_texts(parts@.subrange(0, i as int)),
        decreases n - i,
    {
        let part = &parts[i];
        match part.get("text") {
            Some(JsonValue::Text(t)) => {
                out.append(t.as_str());
            },
            _ => {},
        }
        proof {
            assert(parts@.subrange(0, i + 1 as int).drop_last() =~= parts@.subrange(0, i as int));
            assert(parts@.subrange(0, i + 1 as int).last() == parts@[i as int]);
        }
        i = i + 1;
    }
    proof {
        assert(parts@.subrange(0, n as int) =~= parts@);
    }
    if is_blank(out.as_str()) {
        Err(MalformedKind::EmptyText)
    } else {
        Ok(out)
    }
}

/// Looks up the server-supplied failure message of a non-success body.
pub fn status_message(body: &JsonValue) -> (r: String)
    ensures
        r@ == spec_status_message(*body),
{
    match body.get("error") {
        Some(e) => match e.get("message") {
            Some(JsonValue::Text(t)) => t.clone(),
            _ => String::from_str("Unknown API error"),
        },
        None => String::from_str("Unknown API error"),
    }
}

/// Validates one HTTP answer, per the taxonomy: a non-success status
/// becomes a remote failure carrying the status and the server's
/// message, a success status hands the body to extraction.
pub fn evaluate_response(status: u16, body: &JsonValue) -> (r: Result<String, PolishError>)
    ensures
        spec_is_success(status) ==> match r {
            Ok(s) => spec_extract(*body) == Ok::<Seq<char>, MalformedKind>(s@),
            Err(e) => e matches PolishError::Malformed { kind } && spec_extract(*body) == Err::<
                Seq<char>,
                MalformedKind,
            >(kind),
        },
        !spec_is_success(status) ==> match r {
            Ok(_) => false,
            Err(e) => e matches PolishError::Remote { status: st, message } && st == status
                && message@ == spec_status_message(*body),
        },
{
    if 200 <= status && status < 300 {
        match extract_text(body) {
            Ok(s) => Ok(s),
            Err(kind) => Err(PolishError::Malformed { kind }),
        }
    } else {
        let message = status_message(body);
        Err(PolishError::Remote { status, message })
    }
}

} // verus!
