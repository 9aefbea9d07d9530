//! The conversation between a pending operation and the host that runs the
//! virtual machine.

use crate::error::{ConvertError, LastError};
use crate::protect::{InvocationView, ProtectArgs, ProtectArgsWithBlock};
use crate::sys::MrbValue;
use crate::value::Value;
use vstd::prelude::*;

verus! {

/// A piece of work that only the virtual machine can do.
pub enum RequestView<S> {
    NewString(Seq<char>),
    SaveArena,
    Protect(InvocationView),
    SetException(MrbValue),
    LastError,
    Convert(Value<S>),
    ReleaseArena,
    IsDead(MrbValue),
}

/// A piece of work that only the virtual machine can do.
pub enum Request<'a, S> {
    /// Make a Ruby string with this text.
    NewString(&'a String),
    /// Take a savepoint of the garbage collector's arena, and keep it.
    SaveArena,
    /// Run this call so that an exception ends the call and not the host.
    Protect(&'a ProtectArgs),
    /// Run this call, which has a block, so that an exception ends the call and
    /// not the host.
    ProtectWithBlock(&'a ProtectArgsWithBlock),
    /// Make this object the VM's current exception.
    SetException(MrbValue),
    /// Take the VM's current exception.
    LastError,
    /// Convert this value to the Rust type that the operation was asked for.
    Convert(&'a Value<S>),
    /// Let go of the savepoint that was taken last.
    ReleaseArena,
    /// Tell whether the garbage collector has freed this value.
    IsDead(MrbValue),
}

/// The host's answer to a [`Request`]. `T` is the Rust type that values are
/// converted to.
pub enum Reply<T> {
    /// The new string.
    NewString(MrbValue),
    /// The savepoint is taken.
    ArenaSaved,
    /// The call is over.
    Protected {
        /// What the call returned or, if it was ended, the exception object.
        value: MrbValue,
        /// Not zero if an exception ended the call.
        state: u8,
    },
    /// The exception is set.
    ExceptionSet,
    /// The VM's current exception.
    LastError(LastError),
    /// The converted value.
    Converted(Result<T, ConvertError>),
    /// The savepoint is gone.
    ArenaReleased,
    /// Whether the garbage collector has freed the value.
    Dead(bool),
}

/// An operation that waits for the host, or its result.
pub enum Progress<M, O> {
    /// The operation waits for an answer to its request.
    Pending(M),
    /// The operation is over.
    Done(O),
}

impl<'a, S> View for Request<'a, S> {
    type V = RequestView<S>;

    open spec fn view(&self) -> RequestView<S> {
        match self {
            Request::NewString(text) => RequestView::NewString(text@),
            Request::SaveArena => RequestView::SaveArena,
            Request::Protect(call) => RequestView::Protect(call@),
            Request::ProtectWithBlock(call) => RequestView::Protect(call@),
            Request::SetException(exception) => RequestView::SetException(*exception),
            Request::LastError => RequestView::LastError,
            Request::Convert(value) => RequestView::Convert(**value),
            Request::ReleaseArena => RequestView::ReleaseArena,
            Request::IsDead(value) => RequestView::IsDead(*value),
        }
    }
}

impl<M: View, O> Progress<M, O> {
    /// The progress with the pending operation taken by its view.
    pub open spec fn view(&self) -> Progress<M::V, O> {
        match *self {
            Progress::Pending(machine) => Progress::Pending(machine@),
            Progress::Done(output) => Progress::Done(output),
        }
    }
}

impl<S> RequestView<S> {
    /// Whether `reply` is an answer to this request.
    pub open spec fn answered_by<T>(self, reply: Reply<T>) -> bool {
        match self {
            RequestView::NewString(_) => reply is NewString,
            RequestView::SaveArena => reply is ArenaSaved,
            RequestView::Protect(_) => reply is Protected,
            RequestView::SetException(_) => reply is ExceptionSet,
            RequestView::LastError => reply is LastError,
            RequestView::Convert(_) => reply is Converted,
            RequestView::ReleaseArena => reply is ArenaReleased,
            RequestView::IsDead(_) => reply is Dead,
        }
    }
}

} // verus!
