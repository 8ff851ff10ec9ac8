//! The two ways in which setting up the Datadog backend can fail.

use vstd::prelude::*;
use vstd::string::StringExecFns;

verus! {

/// A failure met while the backend is set up at startup. Span mapping itself
/// cannot fail.
#[derive(Debug, Clone, PartialEq, Eq)]
pub enum TracingError {
    /// The configured endpoint is not a URL, even with the default scheme put
    /// in front; `endpoint` is the text that failed validation.
    ConfigValidation { endpoint: String },
    /// The exporter could not be constructed; `reason` is what the exporter
    /// reported.
    ExporterInit { reason: String },
}

/// A `TracingError` with its texts as character sequences.
pub enum TracingErrorView {
    ConfigValidation { endpoint: Seq<char> },
    ExporterInit { reason: Seq<char> },
}

impl View for TracingError {
    type V = TracingErrorView;

    open spec fn view(&self) -> TracingErrorView {
        match self {
            TracingError::ConfigValidation { endpoint } => TracingErrorView::ConfigValidation {
                endpoint: endpoint@,
            },
            TracingError::ExporterInit { reason } => TracingErrorView::ExporterInit {
                reason: reason@,
            },
        }
    }
}

/// The text shown to the operator for an error.
pub open spec fn message_of(error: TracingErrorView) -> Seq<char> {
    match error {
        TracingErrorView::ConfigValidation { endpoint } => "invalid Datadog agent endpoint: "@
            + endpoint,
        TracingErrorView::ExporterInit { reason } => "cannot initialize the Datadog exporter: "@
            + reason,
    }
}

impl TracingError {
    /// A one-line description that names the rejected endpoint or the
    /// exporter's complaint.
    pub fn message(&self) -> (text: String)
        ensures
            text@ == message_of(self@),
    {
        match self {
            TracingError::ConfigValidation { endpoint } => {
                let mut text = String::from_str("invalid Datadog agent endpoint: ");
                text.append(endpoint.as_str());
                text
            },
            TracingError::ExporterInit { reason } => {
                let mut text = String::from_str("cannot initialize the Datadog exporter: ");
                text.append(reason.as_str());
                text
            },
        }
    }
}

} // verus!
