use vstd::prelude::*;
use vstd::string::*;

use crate::wire::append_u32;
use crate::wire::dec_str;

verus! {

/// The failure taxonomy of the pipeline. Absence of a stored credential is
/// not an error and never appears here.
pub enum IdeaError {
    /// The request never reached the server (DNS, connection, timeout);
    /// carries the transport diagnostic.
    Transport(String),
    /// The server answered with a non-success HTTP status; carries the
    /// status code and the full response body.
    Api(u16, String),
    /// Malformed or schema-violating JSON; carries both the parser
    /// diagnostic and the offending text.
    Decode(String),
    /// The completion answer held no content blocks.
    EmptyResponse,
    /// The credential store failed; carries its diagnostic.
    Store(String),
}

/// The descriptive message an error propagates to the caller.
pub open spec fn message_spec(e: IdeaError) -> Seq<char> {
    match e {
        IdeaError::Transport(d) => d@,
        IdeaError::Api(status, body) => "API error "@ + dec_str(status as nat) + ": "@ + body@,
        IdeaError::Decode(d) => d@,
        IdeaError::EmptyResponse => "No content in response"@,
        IdeaError::Store(d) => d@,
    }
}

impl IdeaError {
    /// The descriptive message propagated to the caller: every error is
    /// surfaced verbatim, an API error with its status code and server body.
    pub fn message(&self) -> (r: String)
        ensures
            r@ == message_spec(*self),
    {
        match self {
            IdeaError::Transport(d) => d.clone(),
            IdeaError::Api(status, body) => {
                let mut out = String::from_str("API error ");
                append_u32(&mut out, *status as u32);
                out.append(": ");
                out.append(body.as_str());
                proof {
                    assert(out@ =~= message_spec(*self));
                }
                out
            },
            IdeaError::Decode(d) => d.clone(),
            IdeaError::EmptyResponse => String::from_str("No content in response"),
            IdeaError::Store(d) => d.clone(),
        }
    }
}

} // verus!
