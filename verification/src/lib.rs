//! Synthesis of a builder companion for a record type.
//!
//! From a description of a record's fields, `derive` produces the source
//! text of a companion type with one slot per field, a factory, setters and
//! a construction operation. The stages are `classify` (each field gets a
//! category), `model` (storage, extraction and setters of each field) and
//! `emit` (the text). `companion` says what the emitted operations do when
//! they run.

use vstd::prelude::*;
use crate::classify::{classify_fields, classify_fields_spec};
use crate::descriptor::{RecordDescriptor, RecordDescriptorView, RecordShape, RecordShapeView};
use crate::emit::{emit, expansion_text, Expansion, ExpansionView};
use crate::error::{result_view, SynthesisError, SynthesisErrorView};
use crate::model::{assemble, assemble_spec};

pub mod classify;
pub mod companion;
pub mod descriptor;
pub mod emit;
pub mod error;
pub mod guarantees;
pub mod model;
pub mod search;
pub mod text;

verus! {

/// What `derive` returns for a record.
///
/// A type that is not a record with named fields is refused before anything
/// else is looked at. Then all fields are classified, and the first field
/// without a category decides the error. Then the model is assembled, and
/// the first repeated setter name decides the error. Only then is text
/// produced.
pub open spec fn derive_spec(record: RecordDescriptorView) -> Result<
    ExpansionView,
    SynthesisErrorView,
> {
    match record.shape {
        RecordShapeView::Named(fields) => match classify_fields_spec(fields) {
            Ok(classified) => match assemble_spec(record.name, classified) {
                Ok(model) => Ok(expansion_text(model)),
                Err(error) => Err(error),
            },
            Err(error) => Err(error),
        },
        _ => Err(SynthesisErrorView::UnsupportedInput),
    }
}

/// The companion of a record, as four blocks of source text, or the reason
/// why the record has none.
pub fn derive(input: &RecordDescriptor) -> (result: Result<Expansion, SynthesisError>)
    ensures
        result_view(result) == derive_spec(input.deep_view()),
{
    match &input.shape {
        RecordShape::Named(fields) => {
            let classified = match classify_fields(fields) {
                Ok(classified) => classified,
                Err(error) => {
                    return Err(error);
                },
            };
            match assemble(input.name.as_str(), &classified) {
                Ok(model) => Ok(emit(&model)),
                Err(error) => Err(error),
            }
        },
        _ => Err(SynthesisError::UnsupportedInput),
    }
}

} // verus!
