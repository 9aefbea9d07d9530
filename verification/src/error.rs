//! What can go wrong between a host and the virtual machine.

use crate::types::Ruby;
use vstd::prelude::*;

verus! {

/// A Ruby value could not become a value of a Rust type.
#[derive(Debug, PartialEq, Eq)]
pub struct ConvertError {
    /// The kind of the Ruby value.
    pub from: Ruby,
    /// The name of the Rust type.
    pub to: String,
}

/// Why an operation on a value failed.
#[derive(Debug, PartialEq, Eq)]
pub enum MrbError {
    /// The result of a call could not become a value of the Rust type asked for.
    ConvertToRust(ConvertError),
    /// Ruby code raised an exception; holds the exception as text.
    Exec(String),
    /// A call was given more arguments than the VM takes.
    TooManyArgs {
        /// The number of arguments given.
        given: usize,
        /// The greatest number of arguments that the VM takes.
        max: usize,
    },
    /// The VM returned a value that is internal to it; holds the value's tag.
    UnreachableValue(u32),
}

/// What the VM holds as its current exception after a call.
#[derive(Debug, PartialEq, Eq)]
pub enum LastError {
    /// An exception, as text.
    Exception(String),
    /// There is an exception, and reading it failed.
    UnableToExtract(MrbError),
    /// No exception.
    Clear,
}

} // verus!
