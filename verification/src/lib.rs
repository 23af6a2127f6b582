//! Reflection over closed enum declarations: a variant count, the variant
//! names in declaration order, and a strategy for mapping a value to the
//! ordinal of its active variant.
//!
//! A declaration is described by a [`schema::EnumSchema`]. The analyzer
//! decides whether the index of a value may be read straight from its
//! storage; the emitter turns the verdict into
//! [`emitter::ReflectionCapabilities`]. [`derive_answer_fn`] runs both.

use vstd::prelude::*;
use crate::analyzer::{analysis_outcome, analyze, SchemaError};
use crate::emitter::{capabilities_of, emit, CapabilitiesModel, ReflectionCapabilities};
use crate::schema::{EnumSchema, SchemaModel};

pub mod analyzer;
pub mod decimal;
pub mod emitter;
pub mod laws;
pub mod layout;
pub mod schema;
pub mod text;

verus! {

/// What reflecting on a declaration yields: the capabilities of an enum
/// under its own analysis, and a rejection of anything else.
pub open spec fn reflection_outcome(schema: SchemaModel) -> Result<CapabilitiesModel, SchemaError> {
    match analysis_outcome(schema) {
        Ok(analysis) => Ok(capabilities_of(schema, analysis)),
        Err(error) => Err(error),
    }
}

/// The model of what `derive_answer_fn` hands back.
pub open spec fn capabilities_model(outcome: Result<ReflectionCapabilities, SchemaError>) -> Result<
    CapabilitiesModel,
    SchemaError,
> {
    match outcome {
        Ok(capabilities) => Ok(capabilities@),
        Err(error) => Err(error),
    }
}

/// Reflects on a declaration: analyzes it and emits its capabilities.
/// Anything but an enum is rejected and nothing is emitted for it.
pub fn derive_answer_fn(schema: &EnumSchema) -> (outcome: Result<
    ReflectionCapabilities,
    SchemaError,
>)
    ensures
        capabilities_model(outcome) == reflection_outcome(schema@),
{
    match analyze(schema) {
        Ok(analysis) => Ok(emit(schema, analysis)),
        Err(error) => Err(error),
    }
}

} // verus!
