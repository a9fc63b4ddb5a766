//! The error type for reading RobTop's indexed data format.

use vstd::prelude::*;

verus! {

/// Errors that can occur while reading an object.
#[derive(Debug)]
pub enum Error {
    /// The input ended where a value was expected.
    Eof,
    /// A field could not be read.
    Custom {
        /// A description of the problem.
        message: String,
        /// The index of the field, if known.
        index: Option<String>,
        /// The token that could not be read, if there was one.
        value: Option<String>,
    },
    /// A kind of value that this format cannot hold was requested.
    Unsupported(&'static str),
}

impl Error {
    /// An error about the field with the given index and the token found for it.
    pub fn custom(message: &str, index: Option<String>, value: Option<String>) -> (res: Error)
        ensures
            res matches Error::Custom { message: m, index: i, value: v } && m@ == message@ && i
                == index && v == value,
    {
        Error::Custom { message: message.to_string(), index, value }
    }
}

} // verus!
