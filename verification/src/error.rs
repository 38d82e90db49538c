//! The conditions under which a decision yields no response.

use vstd::prelude::*;

verus! {

/// Why an approver's decision was not carried out.
#[derive(Clone, Copy, Debug, PartialEq, Eq, Structural)]
pub enum SamplingError {
    /// The action is none of the three known ones, or an edit came without
    /// its replacement messages.
    InvalidInput,
    /// The session identifier names no session.
    SessionNotFound,
    /// The session is known and its agent cannot be had.
    AgentUnavailable,
    /// The agent has no model provider.
    ProviderUnavailable,
    /// The provider's completion failed, for whatever reason.
    CompletionFailed,
}

impl SamplingError {
    /// Whether the approver can mend the condition and submit again.
    pub open spec fn spec_is_client_error(self) -> bool {
        self == SamplingError::InvalidInput
    }

    /// The HTTP status that stands for the condition: 400 for a fault of
    /// the input, 500 for every fault on the server's side.
    pub open spec fn spec_status_code(self) -> u16 {
        if self.spec_is_client_error() {
            400
        } else {
            500
        }
    }

    /// Tells a fault of the input from a fault on the server's side.
    #[verifier::when_used_as_spec(spec_is_client_error)]
    pub fn is_client_error(self) -> (result: bool)
        ensures
            result == self.spec_is_client_error(),
    {
        match self {
            SamplingError::InvalidInput => true,
            _ => false,
        }
    }

    /// The HTTP status to answer with. It is all that a caller learns of a
    /// server-side condition: no variant carries a text.
    #[verifier::when_used_as_spec(spec_status_code)]
    pub fn status_code(self) -> (result: u16)
        ensures
            result == self.spec_status_code(),
            result == 400 <==> self == SamplingError::InvalidInput,
            result == 400 || result == 500,
    {
        if self.is_client_error() {
            400
        } else {
            500
        }
    }
}

} // verus!
