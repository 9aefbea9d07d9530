//! Asking whether the garbage collector has freed a value.

use crate::exchange::{Progress, Reply, Request, RequestView};
use crate::value::{Mrb, Value};
use vstd::prelude::*;

verus! {

/// The question whether the garbage collector has freed a value.
pub struct Liveness<S> {
    /// The value. Its interpreter is the one to ask.
    pub value: Value<S>,
}

impl<S> Liveness<S> {
    /// What the question waits for.
    pub open spec fn spec_request(self) -> RequestView<S> {
        RequestView::IsDead(self.value.value)
    }

    /// Where the question stands after `reply`: the collector's answer is the
    /// result. A reply to another request changes nothing.
    pub open spec fn after<T>(self, reply: Reply<T>) -> Progress<Liveness<S>, bool> {
        match reply {
            Reply::Dead(dead) => Progress::Done(dead),
            _ => Progress::Pending(self),
        }
    }

    /// The interpreter that the request is for.
    pub fn interp(&self) -> (interp: &Mrb<S>)
        ensures
            *interp == self.value.interp,
    {
        &self.value.interp
    }

    /// What the question waits for.
    pub fn request(&self) -> (request: Request<'_, S>)
        ensures
            request@ == self.spec_request(),
            request matches Request::IsDead(value) && value == self.value.value,
    {
        Request::IsDead(self.value.inner())
    }

    /// Takes the host's reply. The result is whether the value is dead. A reply to
    /// another request is dropped.
    pub fn step<T>(self, reply: Reply<T>) -> (progress: Progress<Liveness<S>, bool>)
        ensures
            progress == self.after(reply),
            reply matches Reply::Dead(dead) ==> progress == Progress::<Liveness<S>, _>::Done(dead),
    {
        match reply {
            Reply::Dead(dead) => Progress::Done(dead),
            _ => Progress::Pending(self),
        }
    }
}

} // verus!
