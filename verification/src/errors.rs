use vstd::prelude::*;

verus! {

/// What can go wrong in one run: bad user input, which is fatal
/// before any work starts, and three per-rarity failures, one for
/// each stage of a rarity's pipeline.
#[derive(Debug)]
pub enum PipelineError {
    /// A malformed set code or rarity letter, rejected before any
    /// network activity.
    InvalidInput(String),
    /// The request could not be sent, or the response was not a
    /// success.
    NetworkFailure(String),
    /// The response body was not JSON of the expected shape.
    MalformedResponse(String),
    /// The output file could not be created or written.
    FilesystemFailure(String),
}

/// The one-line description of an error: a label for its kind and
/// the detail it carries.
pub open spec fn message_text(e: PipelineError) -> Seq<char> {
    match e {
        PipelineError::InvalidInput(m) => "invalid input: "@ + m@,
        PipelineError::NetworkFailure(m) => "network failure: "@ + m@,
        PipelineError::MalformedResponse(m) => "malformed response: "@ + m@,
        PipelineError::FilesystemFailure(m) => "filesystem failure: "@ + m@,
    }
}

impl PipelineError {
    /// Renders the error as one descriptive line.
    pub fn message(&self) -> (r: String)
        ensures
            r@ == message_text(*self),
    {
        match self {
            PipelineError::InvalidInput(m) => String::from_str("invalid input: ").concat(
                m.as_str(),
            ),
            PipelineError::NetworkFailure(m) => String::from_str("network failure: ").concat(
                m.as_str(),
            ),
            PipelineError::MalformedResponse(m) => String::from_str(
                "malformed response: ",
            ).concat(m.as_str()),
            PipelineError::FilesystemFailure(m) => String::from_str(
                "filesystem failure: ",
            ).concat(m.as_str()),
        }
    }
}

} // verus!
