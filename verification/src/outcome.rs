//! What a validation run hands back: operations for the checkout to apply.

use vstd::prelude::*;

verus! {

/// A message for the buyer, and the scope of the checkout that it applies to.
#[derive(Clone, Debug, PartialEq, Eq)]
pub struct ValidationError {
    pub message: String,
    pub target: String,
}

/// An effect for the checkout to apply.
#[derive(Clone, Debug, PartialEq, Eq)]
pub enum Operation {
    /// Add these validation errors, in this order.
    ValidationAdd { errors: Vec<ValidationError> },
}

/// The outcome of one validation run: its operations, in order.
#[derive(Clone, Debug, PartialEq, Eq)]
pub struct ValidationResult {
    pub operations: Vec<Operation>,
}

/// Mathematical model of a [`ValidationError`].
pub struct ValidationErrorView {
    pub message: Seq<char>,
    pub target: Seq<char>,
}

/// Mathematical model of an [`Operation`].
pub enum OperationView {
    ValidationAdd { errors: Seq<ValidationErrorView> },
}

impl View for ValidationError {
    type V = ValidationErrorView;

    open spec fn view(&self) -> ValidationErrorView {
        ValidationErrorView { message: self.message@, target: self.target@ }
    }
}

/// The models of a list of errors, in the same order.
pub open spec fn errors_view(errors: Seq<ValidationError>) -> Seq<ValidationErrorView> {
    errors.map_values(|error: ValidationError| error@)
}

impl View for Operation {
    type V = OperationView;

    open spec fn view(&self) -> OperationView {
        match self {
            Operation::ValidationAdd { errors } => OperationView::ValidationAdd {
                errors: errors_view(errors@),
            },
        }
    }
}

impl View for ValidationResult {
    type V = Seq<OperationView>;

    open spec fn view(&self) -> Seq<OperationView> {
        self.operations@.map_values(|operation: Operation| operation@)
    }
}

} // verus!
