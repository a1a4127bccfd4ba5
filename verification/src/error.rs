use vstd::prelude::*;
use vstd::string::*;

verus! {

/// Why a session was aborted. Each variant carries the description of what
/// went wrong. A test case whose output differs from the expected output is
/// a scored outcome and no error.
#[derive(Clone, Debug, PartialEq, Eq)]
pub enum PipelineError {
    /// The uploaded archive could not be stored.
    UploadIO(String),
    /// The environment could not be created or started.
    EnvironmentProvisionFailure(String),
    /// The submission could not be unpacked, configured or built.
    BuildFailure(String),
    /// A test case could not be run: a file or a process failed, not the
    /// comparison of outputs.
    ExecutionFailure(String),
    /// The report could not be signed.
    SigningFailure(String),
    /// A message arrived that the current stage does not accept.
    ProtocolError(String),
}

/// An error as plain values.
pub enum ErrorView {
    UploadIO(Seq<char>),
    EnvironmentProvisionFailure(Seq<char>),
    BuildFailure(Seq<char>),
    ExecutionFailure(Seq<char>),
    SigningFailure(Seq<char>),
    ProtocolError(Seq<char>),
}

impl View for PipelineError {
    type V = ErrorView;

    open spec fn view(&self) -> ErrorView {
        match self {
            PipelineError::UploadIO(d) => ErrorView::UploadIO(d@),
            PipelineError::EnvironmentProvisionFailure(d) => ErrorView::EnvironmentProvisionFailure(
                d@,
            ),
            PipelineError::BuildFailure(d) => ErrorView::BuildFailure(d@),
            PipelineError::ExecutionFailure(d) => ErrorView::ExecutionFailure(d@),
            PipelineError::SigningFailure(d) => ErrorView::SigningFailure(d@),
            PipelineError::ProtocolError(d) => ErrorView::ProtocolError(d@),
        }
    }
}

impl DeepView for PipelineError {
    type V = ErrorView;

    open spec fn deep_view(&self) -> ErrorView {
        self@
    }
}

impl ErrorView {
    /// The description that the error carries. It is what the client is
    /// sent, word for word.
    pub open spec fn message(self) -> Seq<char> {
        match self {
            ErrorView::UploadIO(d) => d,
            ErrorView::EnvironmentProvisionFailure(d) => d,
            ErrorView::BuildFailure(d) => d,
            ErrorView::ExecutionFailure(d) => d,
            ErrorView::SigningFailure(d) => d,
            ErrorView::ProtocolError(d) => d,
        }
    }
}

impl PipelineError {
    /// The description that the error carries. It is what the client is
    /// sent, word for word.
    pub fn message(&self) -> (m: &str)
        ensures
            m@ == self@.message(),
    {
        match self {
            PipelineError::UploadIO(d) => d.as_str(),
            PipelineError::EnvironmentProvisionFailure(d) => d.as_str(),
            PipelineError::BuildFailure(d) => d.as_str(),
            PipelineError::ExecutionFailure(d) => d.as_str(),
            PipelineError::SigningFailure(d) => d.as_str(),
            PipelineError::ProtocolError(d) => d.as_str(),
        }
    }
}

} // verus!
