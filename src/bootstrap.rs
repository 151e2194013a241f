//! The joining side of peer bootstrap. The rendering process polls the
//! creator's endpoint for the document identifier at a fixed interval; each
//! poll either yields the identifier or calls for another try. The polling
//! itself, and the connections, are the caller's.

use vstd::prelude::*;
use crate::document::Id;

verus! {

/// What `str::trim` leaves of a text: the text without its leading and
/// trailing Unicode white space.
pub uninterp spec fn trimmed_of(s: Seq<char>) -> Seq<char>;

/// Relies on `str::trim`, which removes leading and trailing white space.
#[verifier::external_body]
fn trim_text(s: &str) -> (r: String)
    ensures
        r@ == trimmed_of(s@),
{
    s.trim().to_owned()
}

/// What to do after one poll of the identifier endpoint.
#[derive(Debug, Clone, PartialEq)]
pub enum PollStep {
    /// Wait for the poll interval and ask again.
    Retry,
    /// The document to request from the replication runtime.
    Found(Id),
}

/// Decides on a poll, given the endpoint's body already trimmed: an empty
/// body is no identifier.
pub fn poll_step_from_trimmed(trimmed: String) -> (r: PollStep)
    ensures
        trimmed@.len() == 0 ==> r is Retry,
        trimmed@.len() > 0 ==> r == PollStep::Found(Id { value: trimmed }),
{
    if trimmed.as_str().is_empty() {
        PollStep::Retry
    } else {
        PollStep::Found(Id { value: trimmed })
    }
}

/// Decides on a poll of the identifier endpoint: `reply` is the body it
/// returned, or `None` when the request failed.
pub fn poll_step(reply: Option<String>) -> (r: PollStep)
    ensures
        match reply {
            None => r is Retry,
            Some(body) => match r {
                PollStep::Retry => trimmed_of(body@).len() == 0,
                PollStep::Found(id) => trimmed_of(body@).len() > 0 && id.value@ == trimmed_of(body@),
            },
        },
{
    match reply {
        None => PollStep::Retry,
        Some(body) => poll_step_from_trimmed(trim_text(body.as_str())),
    }
}

} // verus!
