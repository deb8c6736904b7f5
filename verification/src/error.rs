//! Errors of the library's own logic.
use vstd::prelude::*;

verus! {

/// An error of the operator's own logic. Failures of the Kubernetes API
/// and of serialization are added to these by the runtime around the
/// library.
#[derive(Debug)]
pub enum Error {
    MissingField(&'static str),
    InvalidConfig(String),
    NotFound(String),
    Other(String),
}

} // verus!
