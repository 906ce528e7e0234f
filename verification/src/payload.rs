//! The abort payload and the message drawn from it. An abort carries an
//! arbitrary value; the composer sees it as a tagged union with a known text
//! variant and an opaque rest, so extraction is a total pattern match.
use vstd::prelude::*;

verus! {

/// An abort's payload: either a text value, or anything else, which the
/// pipeline cannot read and treats uniformly.
pub enum Payload {
    Text(String),
    Opaque,
}

/// The message a report shows for `p`: the text itself when the payload is
/// text, and a fixed fallback otherwise.
pub open spec fn spec_message(p: Payload) -> Seq<char> {
    match p {
        Payload::Text(s) => s@,
        Payload::Opaque => "Something went wrong"@,
    }
}

/// Extracts the failure message from a payload. A text payload is used
/// verbatim; any other payload yields the fixed fallback message. Total:
/// no payload is rejected.
pub fn extract_message(p: &Payload) -> (r: String)
    ensures
        r@ == spec_message(*p),
{
    match p {
        Payload::Text(s) => s.clone(),
        Payload::Opaque => "Something went wrong".to_owned(),
    }
}

} // verus!
