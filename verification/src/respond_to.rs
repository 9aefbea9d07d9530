//! Asking a value whether it responds to a method.

use crate::call::{Call, CallView, Funcall, FuncallView};
use crate::error::MrbError;
use crate::exchange::{Progress, Reply, Request, RequestView};
use crate::sys::MrbValue;
use crate::value::{Mrb, Value, ValueLike};
use vstd::prelude::*;

verus! {

/// The question whether a value responds to a method.
pub enum RespondToView<S> {
    Naming { receiver: Value<S>, method: Seq<char> },
    Symbolizing { receiver: Value<S>, to_sym: CallView<S> },
    Releasing { receiver: Value<S>, symbol: Result<Value<S>, MrbError> },
    Asking { call: FuncallView<S, bool> },
}

/// The question whether a value responds to a method.
pub enum RespondTo<S> {
    /// The method's name is to become a Ruby string.
    Naming {
        /// The value that is asked.
        receiver: Value<S>,
        /// The name of the method.
        method: String,
    },
    /// The Ruby string is to become a symbol.
    Symbolizing {
        /// The value that is asked.
        receiver: Value<S>,
        /// The call of `to_sym` on the string.
        to_sym: Call<S>,
    },
    /// The call of `to_sym` is over; its savepoint is to be released.
    Releasing {
        /// The value that is asked.
        receiver: Value<S>,
        /// The symbol, or the reason why there is none.
        symbol: Result<Value<S>, MrbError>,
    },
    /// The value is asked.
    Asking {
        /// The call of `respond_to?` on the value.
        call: Funcall<S, bool>,
    },
}

impl<S> View for RespondTo<S> {
    type V = RespondToView<S>;

    open spec fn view(&self) -> RespondToView<S> {
        match *self {
            RespondTo::Naming { receiver, method } => RespondToView::Naming {
                receiver,
                method: method@,
            },
            RespondTo::Symbolizing { receiver, to_sym } => RespondToView::Symbolizing {
                receiver,
                to_sym: to_sym@,
            },
            RespondTo::Releasing { receiver, symbol } => RespondToView::Releasing {
                receiver,
                symbol,
            },
            RespondTo::Asking { call } => RespondToView::Asking { call: call@ },
        }
    }
}

impl<S> RespondToView<S> {
    /// The interpreter that the requests are for.
    pub open spec fn interp(self) -> Mrb<S> {
        match self {
            RespondToView::Naming { receiver, .. } => receiver.interp,
            RespondToView::Symbolizing { to_sym, .. } => to_sym.interp(),
            RespondToView::Releasing { receiver, .. } => receiver.interp,
            RespondToView::Asking { call } => call.interp(),
        }
    }

    /// What the question waits for.
    pub open spec fn request(self) -> RequestView<S> {
        match self {
            RespondToView::Naming { method, .. } => RequestView::NewString(method),
            RespondToView::Symbolizing { to_sym, .. } => to_sym.request(),
            RespondToView::Releasing { .. } => RequestView::ReleaseArena,
            RespondToView::Asking { call } => call.request(),
        }
    }

    /// The question once the Ruby string with the method's name is there.
    pub open spec fn symbolizing(receiver: Value<S>, name: Value<S>) -> RespondToView<S> {
        RespondToView::Symbolizing {
            receiver,
            to_sym: CallView::start(name.interp, name.value, "to_sym"@, Seq::empty(), None),
        }
    }

    /// The question once the symbol with the method's name is there.
    pub open spec fn asking(receiver: Value<S>, symbol: Value<S>) -> RespondToView<S> {
        RespondToView::Asking {
            call: FuncallView::start(
                receiver.interp,
                receiver.value,
                "respond_to?"@,
                seq![symbol.value],
                None,
            ),
        }
    }

    /// Where the question stands after `reply`. What `to_sym` returns is used as it
    /// is, without a conversion.
    pub open spec fn after(self, reply: Reply<bool>) -> Progress<
        RespondToView<S>,
        Result<bool, MrbError>,
    > {
        match self {
            RespondToView::Naming { receiver, .. } => match reply {
                Reply::NewString(value) => Progress::Pending(
                    RespondToView::symbolizing(receiver, Value { interp: receiver.interp, value }),
                ),
                _ => Progress::Pending(self),
            },
            RespondToView::Symbolizing { receiver, to_sym } => match to_sym.after(reply) {
                Progress::Pending(to_sym) => Progress::Pending(
                    RespondToView::Symbolizing { receiver, to_sym },
                ),
                Progress::Done(symbol) => Progress::Pending(
                    RespondToView::Releasing { receiver, symbol },
                ),
            },
            RespondToView::Releasing { receiver, symbol } => match reply {
                Reply::ArenaReleased => match symbol {
                    Ok(symbol) => Progress::Pending(RespondToView::asking(receiver, symbol)),
                    Err(error) => Progress::Done(Err(error)),
                },
                _ => Progress::Pending(self),
            },
            RespondToView::Asking { call } => match call.after(reply) {
                Progress::Pending(call) => Progress::Pending(RespondToView::Asking { call }),
                Progress::Done(result) => Progress::Done(result),
            },
        }
    }
}

impl<S> RespondTo<S> {
    /// The interpreter that the requests are for.
    pub fn interp(&self) -> (interp: &Mrb<S>)
        ensures
            *interp == self@.interp(),
    {
        match self {
            RespondTo::Naming { receiver, .. } => &receiver.interp,
            RespondTo::Symbolizing { to_sym, .. } => to_sym.interp(),
            RespondTo::Releasing { receiver, .. } => &receiver.interp,
            RespondTo::Asking { call } => call.interp(),
        }
    }

    /// What the question waits for.
    pub fn request(&self) -> (request: Request<'_, S>)
        ensures
            request@ == self@.request(),
    {
        match self {
            RespondTo::Naming { method, .. } => Request::NewString(method),
            RespondTo::Symbolizing { to_sym, .. } => to_sym.request(),
            RespondTo::Releasing { .. } => Request::ReleaseArena,
            RespondTo::Asking { call } => call.request(),
        }
    }

    /// The question once the Ruby string with the method's name is there.
    fn symbolize(receiver: Value<S>, name: Value<S>) -> (progress: Progress<
        RespondTo<S>,
        Result<bool, MrbError>,
    >)
        ensures
            progress@ == Progress::<_, Result<bool, MrbError>>::Pending(
                RespondToView::symbolizing(receiver, name),
            ),
    {
        let args: [Value<S>; 0] = [];
        assert(crate::value::raw_values(args@) == Seq::<MrbValue>::empty());
        match Call::plain(name.interp(), name.inner(), "to_sym", &args) {
            Ok(to_sym) => Progress::Pending(RespondTo::Symbolizing { receiver, to_sym }),
            Err(error) => Progress::Done(Err(error)),
        }
    }

    /// The question once the symbol with the method's name is there.
    fn ask(receiver: Value<S>, symbol: Value<S>) -> (progress: Progress<
        RespondTo<S>,
        Result<bool, MrbError>,
    >)
        ensures
            progress@ == Progress::<_, Result<bool, MrbError>>::Pending(
                RespondToView::asking(receiver, symbol),
            ),
    {
        let args: [Value<S>; 1] = [symbol];
        assert(crate::value::raw_values(args@) == seq![symbol.value]);
        match receiver.funcall::<bool>("respond_to?", &args) {
            Progress::Pending(call) => Progress::Pending(RespondTo::Asking { call }),
            Progress::Done(result) => Progress::Done(result),
        }
    }

    /// Takes the host's reply. The result is the value's answer, or the reason why
    /// there is none. A reply to another request is dropped.
    pub fn step(self, reply: Reply<bool>) -> (progress: Progress<
        RespondTo<S>,
        Result<bool, MrbError>,
    >)
        ensures
            progress@ == self@.after(reply),
    {
        match self {
            RespondTo::Naming { receiver, method } => match reply {
                Reply::NewString(value) => {
                    let name = Value::new(receiver.interp(), value);
                    RespondTo::symbolize(receiver, name)
                },
                _ => Progress::Pending(RespondTo::Naming { receiver, method }),
            },
            RespondTo::Symbolizing { receiver, to_sym } => match to_sym.step(reply) {
                Progress::Pending(to_sym) => {
                    Progress::Pending(RespondTo::Symbolizing { receiver, to_sym })
                },
                Progress::Done(Ok(value)) => {
                    let symbol = Value::from_mrb(receiver.interp(), value);
                    Progress::Pending(RespondTo::Releasing { receiver, symbol: Ok(symbol) })
                },
                Progress::Done(Err(error)) => {
                    Progress::Pending(RespondTo::Releasing { receiver, symbol: Err(error) })
                },
            },
            RespondTo::Releasing { receiver, symbol } => match reply {
                Reply::ArenaReleased => match symbol {
                    Ok(symbol) => RespondTo::ask(receiver, symbol),
                    Err(error) => Progress::Done(Err(error)),
                },
                _ => Progress::Pending(RespondTo::Releasing { receiver, symbol }),
            },
            RespondTo::Asking { call } => match call.step(reply) {
                Progress::Pending(call) => Progress::Pending(RespondTo::Asking { call }),
                Progress::Done(result) => Progress::Done(result),
            },
        }
    }
}

} // verus!
