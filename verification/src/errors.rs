use vstd::prelude::*;

verus! {

/// Every failure this client can report. No error is ever caught and
/// suppressed inside the library: each fallible step returns at once.
#[derive(Debug, Clone, PartialEq, Eq)]
pub enum LnError {
    /// Network failure or a non-success HTTP status, reported by the
    /// transport collaborator and passed upward unmodified.
    Transport(String),
    /// A response body that does not parse into the expected shape.
    Decode,
    /// An authentication exchange that yielded no usable token pair.
    Auth,
    /// A payment-request string that is not a valid BOLT11 invoice.
    InvalidInvoice,
    /// An error the service itself reported inside a well-formed response.
    Application(String),
}

/// The description `describe` returns for each error kind.
pub open spec fn describe_of(e: LnError) -> Seq<char> {
    match e {
        LnError::Transport(_) => "transport failure"@,
        LnError::Decode => "unexpected response shape"@,
        LnError::Auth => "no usable token pair"@,
        LnError::InvalidInvoice => "invalid payment request"@,
        LnError::Application(_) => "service-reported error"@,
    }
}

impl LnError {
    /// A short description of the error kind, for callers that log.
    pub fn describe(&self) -> (r: String)
        ensures
            r@ == describe_of(*self),
            r@.len() > 0,
    {
        let r = match self {
            LnError::Transport(_) => "transport failure",
            LnError::Decode => "unexpected response shape",
            LnError::Auth => "no usable token pair",
            LnError::InvalidInvoice => "invalid payment request",
            LnError::Application(_) => "service-reported error",
        };
        proof {
            reveal_strlit("transport failure");
            reveal_strlit("unexpected response shape");
            reveal_strlit("no usable token pair");
            reveal_strlit("invalid payment request");
            reveal_strlit("service-reported error");
        }
        r.to_owned()
    }
}

} // verus!
