//! Why synthesis refuses an input.

use vstd::prelude::*;

verus! {

/// A failure of synthesis. No code is produced when one occurs.
#[derive(Debug, PartialEq, Eq)]
pub enum SynthesisError {
    /// The input is not a record with named fields.
    UnsupportedInput,
    /// The field carries an accumulate directive, but its declared type is
    /// neither optional nor a growable list of one item type.
    MalformedAnnotation { field: String },
    /// Two setters would get the same name.
    DuplicateSetterName { name: String },
}

/// `SynthesisError` as specifications see it: text as sequences of characters.
pub enum SynthesisErrorView {
    UnsupportedInput,
    MalformedAnnotation { field: Seq<char> },
    DuplicateSetterName { name: Seq<char> },
}

impl DeepView for SynthesisError {
    type V = SynthesisErrorView;

    open spec fn deep_view(&self) -> SynthesisErrorView {
        match self {
            SynthesisError::UnsupportedInput => SynthesisErrorView::UnsupportedInput,
            SynthesisError::MalformedAnnotation { field } => SynthesisErrorView::MalformedAnnotation {
                field: field@,
            },
            SynthesisError::DuplicateSetterName { name } => SynthesisErrorView::DuplicateSetterName {
                name: name@,
            },
        }
    }
}

/// The view of a result: the view of what it holds, on either side.
pub open spec fn result_view<T: DeepView, E: DeepView>(result: Result<T, E>) -> Result<T::V, E::V> {
    match result {
        Ok(value) => Ok(value.deep_view()),
        Err(error) => Err(error.deep_view()),
    }
}

} // verus!
