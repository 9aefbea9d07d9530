//! The value representation of the mruby C API, as plain data.

use vstd::prelude::*;

verus! {

/// Tag of `false`, and of `nil`.
pub const MRB_TT_FALSE: u32 = 0;

/// Tag of a heap slot that the garbage collector has freed; internal to the VM.
pub const MRB_TT_FREE: u32 = 1;

/// Tag of `true`.
pub const MRB_TT_TRUE: u32 = 2;

/// Tag of an integer.
pub const MRB_TT_FIXNUM: u32 = 3;

/// Tag of a symbol.
pub const MRB_TT_SYMBOL: u32 = 4;

/// Tag of an absent value; internal to the VM.
pub const MRB_TT_UNDEF: u32 = 5;

/// Tag of a floating point number.
pub const MRB_TT_FLOAT: u32 = 6;

/// Tag of a borrowed C pointer.
pub const MRB_TT_CPTR: u32 = 7;

/// Tag of an instance of a Ruby class.
pub const MRB_TT_OBJECT: u32 = 8;

/// Tag of a class.
pub const MRB_TT_CLASS: u32 = 9;

/// Tag of a module.
pub const MRB_TT_MODULE: u32 = 10;

/// Tag of the entry that stands for a mixed-in module in a class's ancestors;
/// internal to the VM.
pub const MRB_TT_ICLASS: u32 = 11;

/// Tag of the singleton class of an object.
pub const MRB_TT_SCLASS: u32 = 12;

/// Tag of a proc.
pub const MRB_TT_PROC: u32 = 13;

/// Tag of an array.
pub const MRB_TT_ARRAY: u32 = 14;

/// Tag of a hash.
pub const MRB_TT_HASH: u32 = 15;

/// Tag of a string.
pub const MRB_TT_STRING: u32 = 16;

/// Tag of a range.
pub const MRB_TT_RANGE: u32 = 17;

/// Tag of an exception.
pub const MRB_TT_EXCEPTION: u32 = 18;

/// Tag of a file.
pub const MRB_TT_FILE: u32 = 19;

/// Tag of the variables that a closure captured; internal to the VM.
pub const MRB_TT_ENV: u32 = 20;

/// Tag of an object that wraps host data.
pub const MRB_TT_DATA: u32 = 21;

/// Tag of a fiber.
pub const MRB_TT_FIBER: u32 = 22;

/// Tag of a struct that is stored in its heap slot.
pub const MRB_TT_ISTRUCT: u32 = 23;

/// Tag of a pending `break` out of a block; internal to the VM.
pub const MRB_TT_BREAK: u32 = 24;

/// The number of tags. No value carries it or a greater number.
pub const MRB_TT_MAXDEFINE: u32 = 25;

/// An unboxed mruby value: a type tag, and a word that holds an immediate value
/// or a pointer into the VM's heap.
#[derive(Clone, Copy, Debug, PartialEq, Eq, Structural)]
pub struct MrbValue {
    /// One of the `MRB_TT_` tags.
    pub tt: u32,
    /// The immediate value or pointer. Under [`MRB_TT_FALSE`], zero is `nil`.
    pub payload: u64,
}

impl MrbValue {
    /// Whether the value is `nil`, which shares its tag with `false`.
    pub open spec fn spec_is_nil(self) -> bool {
        self.tt == MRB_TT_FALSE && self.payload == 0
    }

    /// Whether the value is `nil`, which shares its tag with `false`.
    pub fn is_nil(&self) -> (result: bool)
        ensures
            result == self.spec_is_nil(),
    {
        self.tt == MRB_TT_FALSE && self.payload == 0
    }
}

} // verus!
