//! Why generation was refused.

use vstd::prelude::*;
use vstd::string::StringExecFns;

verus! {

/// A reason for which no accessors are generated. Generation is all or
/// nothing: a failure on one variant leaves no output for the others.
#[derive(Clone, Debug, PartialEq, Eq)]
pub enum Failure {
    /// The declaration is not an enumeration.
    NotAnEnumeration,
    /// The payload of a variant's `detail` block is not an annotation.
    MalformedAnnotation { variant: String, reason: String },
    /// A variant supplies no `status`.
    MissingStatus { variant: String },
    /// A variant supplies a `status` but no `message`.
    MissingMessage { variant: String },
}

/// View of a [`Failure`].
pub enum FailureView {
    NotAnEnumeration,
    MalformedAnnotation { variant: Seq<char>, reason: Seq<char> },
    MissingStatus { variant: Seq<char> },
    MissingMessage { variant: Seq<char> },
}

impl View for Failure {
    type V = FailureView;

    open spec fn view(&self) -> FailureView {
        match *self {
            Failure::NotAnEnumeration => FailureView::NotAnEnumeration,
            Failure::MalformedAnnotation { variant, reason } => FailureView::MalformedAnnotation {
                variant: variant@,
                reason: reason@,
            },
            Failure::MissingStatus { variant } => FailureView::MissingStatus { variant: variant@ },
            Failure::MissingMessage { variant } => FailureView::MissingMessage { variant: variant@ },
        }
    }
}

impl FailureView {
    /// The text shown to the author of the offending declaration. It names
    /// the violated requirement, the variant at fault where there is one, and
    /// carries the underlying parse failure where there is one.
    pub open spec fn diagnostic(self) -> Seq<char> {
        match self {
            FailureView::NotAnEnumeration => "only Enum is allowed"@,
            FailureView::MalformedAnnotation { variant, reason } => "malformed detail on variant "@
                + variant + ": "@ + reason,
            FailureView::MissingStatus { variant } => "no http_status in HttpError variant "@
                + variant,
            FailureView::MissingMessage { variant } => "no message attribute in HttpError variant "@
                + variant,
        }
    }
}

impl Failure {
    /// Renders the diagnostic for this failure.
    pub fn diagnostic(&self) -> (text: String)
        ensures
            text@ == self@.diagnostic(),
    {
        match self {
            Failure::NotAnEnumeration => String::from_str("only Enum is allowed"),
            Failure::MalformedAnnotation { variant, reason } => {
                String::from_str("malformed detail on variant ").concat(variant.as_str()).concat(
                    ": ",
                ).concat(reason.as_str())
            },
            Failure::MissingStatus { variant } => {
                String::from_str("no http_status in HttpError variant ").concat(variant.as_str())
            },
            Failure::MissingMessage { variant } => {
                String::from_str("no message attribute in HttpError variant ").concat(
                    variant.as_str(),
                )
            },
        }
    }
}

} // verus!
