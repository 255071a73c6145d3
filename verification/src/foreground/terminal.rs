//! Failures of the terminal dashboards, which carry the operating system's error.
use vstd::prelude::*;

verus! {

/// The standard library's I/O error, carried through unchanged.
#[verifier::external_type_specification]
#[verifier::external_body]
pub struct ExIoError(std::io::Error);

} // verus!
