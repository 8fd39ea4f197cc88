use vstd::prelude::*;

verus! {

/// The failure taxonomy of the gathering pipeline.
///
/// Catalog failures are fatal to a run; every other occurrence is isolated to
/// the repository whose fetch or aggregation raised it.
#[derive(Clone, Copy, Debug, PartialEq, Eq, Structural)]
pub enum FetchError {
    /// The transport could not complete a request at all.
    Transport,
    /// The upstream service answered a request with a non-success HTTP status.
    UpstreamStatus { code: u16 },
    /// A response payload could not be decoded into the expected shape.
    ResponseParse,
    /// Pagination metadata was present but no page number could be read from it.
    MalformedPaginationMetadata,
    /// A contributor list without any recorded commit cannot yield a ratio.
    InsufficientData,
}

impl FetchError {
    /// A short description of the error, for callers that render messages.
    pub fn describe(&self) -> (r: &'static str)
        ensures
            r@.len() > 0,
    {
        proof {
            reveal_strlit("request could not be completed by the transport");
            reveal_strlit("upstream answered with a non-success status");
            reveal_strlit("response payload has an unexpected shape");
            reveal_strlit("pagination metadata holds no readable page number");
            reveal_strlit("contributor list holds no recorded commits");
        }
        match self {
            FetchError::Transport => "request could not be completed by the transport",
            FetchError::UpstreamStatus { .. } => "upstream answered with a non-success status",
            FetchError::ResponseParse => "response payload has an unexpected shape",
            FetchError::MalformedPaginationMetadata => "pagination metadata holds no readable page number",
            FetchError::InsufficientData => "contributor list holds no recorded commits",
        }
    }
}

} // verus!
