//! The template engine: tera, behind one function for each call that the
//! pipeline makes.
//!
//! The pipeline checks the data that templates read. It neither sets an
//! engine up nor renders: both are the caller's part, and what they gave
//! comes back as text.

use crate::json::{value_of_json, Json};
use vstd::prelude::*;

verus! {

/// `tera::Context`: the data that a template reads while it is rendered.
#[verifier::external_type_specification]
#[verifier::external_body]
pub struct ExContext(tera::Context);

/// `tera::Error`.
#[verifier::external_type_specification]
#[verifier::external_body]
pub struct ExError(tera::Error);

/// Calls `Context::from_value`, which accepts a JSON object and nothing
/// else.
#[verifier::external_body]
pub(crate) fn context_from_json(data: &Json) -> (context: Result<tera::Context, tera::Error>)
    ensures
        context is Ok <==> data@ is Object,
{
    tera::Context::from_value(value_of_json(data))
}

/// The `Debug` form of a `tera::Error`.
#[verifier::external_body]
pub(crate) fn error_debug(error: &tera::Error) -> String {
    format!("{:?}", error)
}

/// The `Display` form of a `tera::Error`.
#[verifier::external_body]
pub(crate) fn error_display(error: &tera::Error) -> String {
    format!("{}", error)
}

} // verus!
