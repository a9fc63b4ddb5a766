//! The error type for writing RobTop's data formats.

use vstd::prelude::*;

verus! {

/// Errors that can occur while writing an object.
#[derive(Debug)]
pub enum Error {
    /// Some value could not be written.
    Custom(String),
    /// A kind of value that the format cannot hold was handed over.
    Unsupported(&'static str),
}

} // verus!
