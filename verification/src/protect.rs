//! The description of a method call that runs under the VM's exception
//! protection.

use crate::sys::MrbValue;
use vstd::prelude::*;

verus! {

/// Max argument count for function calls including `initialize`.
///
/// Defined in mruby's `vm.c`.
pub const MRB_FUNCALL_ARGC_MAX: usize = 16;

/// A method call: the receiver, the method's name, the arguments in order, and
/// the block, if there is one.
pub struct InvocationView {
    pub slf: MrbValue,
    pub func: Seq<char>,
    pub args: Seq<MrbValue>,
    pub block: Option<MrbValue>,
}

/// A method call without a block.
#[derive(Debug, PartialEq, Eq)]
pub struct ProtectArgs {
    /// The receiver.
    pub slf: MrbValue,
    /// The name of the method.
    pub func: String,
    /// The arguments.
    pub args: Vec<MrbValue>,
}

/// A method call with a block.
#[derive(Debug, PartialEq, Eq)]
pub struct ProtectArgsWithBlock {
    /// The receiver.
    pub slf: MrbValue,
    /// The name of the method.
    pub func: String,
    /// The arguments.
    pub args: Vec<MrbValue>,
    /// The block.
    pub block: MrbValue,
}

/// The argument count as the C API takes it: the length, or zero for a length that
/// an `i64` cannot hold.
pub open spec fn spec_argc(len: nat) -> int {
    if len <= i64::MAX {
        len as int
    } else {
        0
    }
}

/// The argument count as the C API takes it.
fn argc_of(args: &Vec<MrbValue>) -> (argc: i64)
    ensures
        argc == spec_argc(args@.len()),
{
    match i64::try_from(args.len()) {
        Ok(argc) => argc,
        Err(_) => 0,
    }
}

impl View for ProtectArgs {
    type V = InvocationView;

    open spec fn view(&self) -> InvocationView {
        InvocationView { slf: self.slf, func: self.func@, args: self.args@, block: None }
    }
}

impl View for ProtectArgsWithBlock {
    type V = InvocationView;

    open spec fn view(&self) -> InvocationView {
        InvocationView {
            slf: self.slf,
            func: self.func@,
            args: self.args@,
            block: Some(self.block),
        }
    }
}

impl ProtectArgs {
    /// A call of `func` on `slf` with `args`.
    pub fn new(slf: MrbValue, func: &str, args: Vec<MrbValue>) -> (call: ProtectArgs)
        ensures
            call@ == (InvocationView { slf, func: func@, args: args@, block: None }),
            call.slf == slf,
            call.func@ == func@,
            call.args@ == args@,
    {
        ProtectArgs { slf, func: func.to_owned(), args }
    }

    /// The same call with `block`.
    pub fn with_block(self, block: MrbValue) -> (call: ProtectArgsWithBlock)
        ensures
            call@ == (InvocationView { block: Some(block), ..self@ }),
            call.slf == self.slf,
            call.func == self.func,
            call.args == self.args,
            call.block == block,
    {
        ProtectArgsWithBlock { slf: self.slf, func: self.func, args: self.args, block }
    }

    /// The argument count as the C API takes it.
    pub fn argc(&self) -> (argc: i64)
        ensures
            argc == spec_argc(self@.args.len()),
            self.args@.len() <= i64::MAX ==> argc == self.args@.len(),
    {
        argc_of(&self.args)
    }
}

impl ProtectArgsWithBlock {
    /// The argument count as the C API takes it.
    pub fn argc(&self) -> (argc: i64)
        ensures
            argc == spec_argc(self@.args.len()),
            self.args@.len() <= i64::MAX ==> argc == self.args@.len(),
    {
        argc_of(&self.args)
    }
}

} // verus!
