//! What validation of an upload ends in.

use vstd::prelude::*;
use vstd::string::StringExecFns;

verus! {

/// Why an upload was turned down.
#[derive(Clone, Debug, PartialEq, Eq)]
pub enum PolicyViolation {
    /// The file's extension, given here in lowercase, is not on the allow-list.
    ExtensionDenied(String),
    /// The content is longer than the policy permits.
    TooLarge,
    /// The content holds one of the suspicious markers.
    SuspiciousContent,
}

/// The result of validating an upload.
#[derive(Clone, Debug, PartialEq, Eq)]
pub enum ValidationOutcome {
    Accepted,
    Rejected(PolicyViolation),
}

/// The mathematical value of a [`PolicyViolation`].
pub enum ViolationView {
    ExtensionDenied(Seq<char>),
    TooLarge,
    SuspiciousContent,
}

/// The mathematical value of a [`ValidationOutcome`].
pub enum OutcomeView {
    Accepted,
    Rejected(ViolationView),
}

impl ViolationView {
    /// The sentence that reports the violation.
    pub open spec fn message(self) -> Seq<char> {
        match self {
            ViolationView::ExtensionDenied(ext) => "File extension not allowed: "@ + ext,
            ViolationView::TooLarge => "File too large"@,
            ViolationView::SuspiciousContent => "File contains suspicious patterns"@,
        }
    }
}

impl View for PolicyViolation {
    type V = ViolationView;

    open spec fn view(&self) -> ViolationView {
        match self {
            PolicyViolation::ExtensionDenied(ext) => ViolationView::ExtensionDenied(ext@),
            PolicyViolation::TooLarge => ViolationView::TooLarge,
            PolicyViolation::SuspiciousContent => ViolationView::SuspiciousContent,
        }
    }
}

impl View for ValidationOutcome {
    type V = OutcomeView;

    open spec fn view(&self) -> OutcomeView {
        match self {
            ValidationOutcome::Accepted => OutcomeView::Accepted,
            ValidationOutcome::Rejected(reason) => OutcomeView::Rejected(reason@),
        }
    }
}

impl PolicyViolation {
    /// The sentence that reports the violation.
    pub fn message(&self) -> (text: String)
        ensures
            text@ == self@.message(),
    {
        match self {
            PolicyViolation::ExtensionDenied(ext) => {
                String::from_str("File extension not allowed: ").concat(ext.as_str())
            },
            PolicyViolation::TooLarge => String::from_str("File too large"),
            PolicyViolation::SuspiciousContent => String::from_str(
                "File contains suspicious patterns",
            ),
        }
    }
}

} // verus!
