//! Method calls as state machines.

use crate::error::{ConvertError, LastError, MrbError};
use crate::exchange::{Progress, Reply, Request, RequestView};
use crate::protect::{
    InvocationView, ProtectArgs, ProtectArgsWithBlock, MRB_FUNCALL_ARGC_MAX,
};
use crate::sys::MrbValue;
use crate::value::{Mrb, Value};
use std::rc::Rc;
use vstd::prelude::*;

verus! {

/// A method call, with or without a block.
pub enum Invocation {
    /// A call without a block.
    Plain(ProtectArgs),
    /// A call with a block.
    WithBlock(ProtectArgsWithBlock),
}

impl View for Invocation {
    type V = InvocationView;

    open spec fn view(&self) -> InvocationView {
        match self {
            Invocation::Plain(call) => call@,
            Invocation::WithBlock(call) => call@,
        }
    }
}

/// The C representations of `values`.
fn inner_values<S>(values: &[Value<S>]) -> (raw: Vec<MrbValue>)
    ensures
        raw@ == crate::value::raw_values(values@),
        raw@.len() == values@.len(),
        forall|i: int| 0 <= i < values@.len() ==> #[trigger] raw@[i] == values@[i].value,
{
    let mut raw: Vec<MrbValue> = Vec::new();
    let mut i: usize = 0;
    while i < values.len()
        invariant
            i <= values@.len(),
            raw@ == crate::value::raw_values(values@.take(i as int)),
        decreases values@.len() - i,
    {
        raw.push(values[i].inner());
        i = i + 1;
        assert(values@.take(i as int).drop_last() == values@.take(i - 1));
        assert(raw@ == crate::value::raw_values(values@.take(i as int)));
    }
    assert(values@.take(i as int) == values@);
    raw
}

/// The refusal of a call with `given` arguments.
pub open spec fn spec_too_many_args(given: nat) -> MrbError {
    MrbError::TooManyArgs { given: given as usize, max: MRB_FUNCALL_ARGC_MAX }
}

/// The call of `func` on `slf` with `args`, if the VM takes that many arguments.
fn protect_args<S>(slf: MrbValue, func: &str, args: &[Value<S>]) -> (call: Result<
    ProtectArgs,
    MrbError,
>)
    ensures
        match call {
            Ok(call) => {
                &&& args@.len() <= MRB_FUNCALL_ARGC_MAX
                &&& call@ == (InvocationView {
                    slf,
                    func: func@,
                    args: crate::value::raw_values(args@),
                    block: None,
                })
                &&& call.slf == slf
                &&& call.func@ == func@
                &&& call.args@.len() == args@.len()
                &&& forall|i: int|
                    0 <= i < args@.len() ==> #[trigger] call.args@[i] == args@[i].value
            },
            Err(error) => {
                &&& args@.len() > MRB_FUNCALL_ARGC_MAX
                &&& error == spec_too_many_args(args@.len())
                &&& error matches MrbError::TooManyArgs { given, max }
                &&& given == args@.len()
                &&& max == 16
            },
        },
{
    let args = inner_values(args);
    if args.len() > MRB_FUNCALL_ARGC_MAX {
        return Err(MrbError::TooManyArgs { given: args.len(), max: MRB_FUNCALL_ARGC_MAX });
    }
    Ok(ProtectArgs::new(slf, func, args))
}

/// A method call up to the value that it returns. A savepoint of the garbage
/// collector's arena is taken before the call is run; whoever started the call
/// releases it.
pub enum CallView<S> {
    Saving { interp: Mrb<S>, invocation: InvocationView },
    Invoking { interp: Mrb<S>, invocation: InvocationView },
    Raising { interp: Mrb<S>, exception: MrbValue },
    Checking { interp: Mrb<S>, value: MrbValue },
}

/// A method call up to the value that it returns. A savepoint of the garbage
/// collector's arena is taken before the call is run; whoever started the call
/// releases it.
pub enum Call<S> {
    /// A savepoint is to be taken.
    Saving {
        /// The interpreter of the receiver.
        interp: Mrb<S>,
        /// The call.
        invocation: Invocation,
    },
    /// The call is to be run.
    Invoking {
        /// The interpreter of the receiver.
        interp: Mrb<S>,
        /// The call.
        invocation: Invocation,
    },
    /// An exception ended the call; it is to become the VM's current exception.
    Raising {
        /// The interpreter of the receiver.
        interp: Mrb<S>,
        /// The exception object.
        exception: MrbValue,
    },
    /// The call is over; the VM's current exception is to be looked at.
    Checking {
        /// The interpreter of the receiver.
        interp: Mrb<S>,
        /// What the call left: a return value or an exception object.
        value: MrbValue,
    },
}

impl<S> View for Call<S> {
    type V = CallView<S>;

    open spec fn view(&self) -> CallView<S> {
        match *self {
            Call::Saving { interp, invocation } => CallView::Saving {
                interp,
                invocation: invocation@,
            },
            Call::Invoking { interp, invocation } => CallView::Invoking {
                interp,
                invocation: invocation@,
            },
            Call::Raising { interp, exception } => CallView::Raising { interp, exception },
            Call::Checking { interp, value } => CallView::Checking { interp, value },
        }
    }
}

impl<S> CallView<S> {
    /// A call of `func` on the value `slf` of `interp`, before it is run.
    pub open spec fn start(
        interp: Mrb<S>,
        slf: MrbValue,
        func: Seq<char>,
        args: Seq<MrbValue>,
        block: Option<MrbValue>,
    ) -> CallView<S> {
        CallView::Saving { interp, invocation: InvocationView { slf, func, args, block } }
    }

    /// The interpreter that the call runs in, and its requests are for.
    pub open spec fn interp(self) -> Mrb<S> {
        match self {
            CallView::Saving { interp, .. } => interp,
            CallView::Invoking { interp, .. } => interp,
            CallView::Raising { interp, .. } => interp,
            CallView::Checking { interp, .. } => interp,
        }
    }

    /// What the call waits for.
    pub open spec fn request(self) -> RequestView<S> {
        match self {
            CallView::Saving { .. } => RequestView::SaveArena,
            CallView::Invoking { invocation, .. } => RequestView::Protect(invocation),
            CallView::Raising { exception, .. } => RequestView::SetException(exception),
            CallView::Checking { .. } => RequestView::LastError,
        }
    }

    /// Where the call stands after `reply`: a call that an exception ended sets the
    /// exception before it asks for it, and the exception that is then found
    /// decides what the call's value is worth. A reply to another request changes
    /// nothing.
    pub open spec fn after<T>(self, reply: Reply<T>) -> Progress<
        CallView<S>,
        Result<Value<S>, MrbError>,
    > {
        match (self, reply) {
            (CallView::Saving { interp, invocation }, Reply::ArenaSaved) => Progress::Pending(
                CallView::Invoking { interp, invocation },
            ),
            (CallView::Invoking { interp, .. }, Reply::Protected { value, state }) => {
                if state != 0 {
                    Progress::Pending(CallView::Raising { interp, exception: value })
                } else {
                    Progress::Pending(CallView::Checking { interp, value })
                }
            },
            (
                CallView::Raising { interp, exception },
                Reply::ExceptionSet,
            ) => Progress::Pending(CallView::Checking { interp, value: exception }),
            (CallView::Checking { interp, value }, Reply::LastError(last_error)) => Progress::Done(
                (Value { interp, value }).spec_checked(last_error),
            ),
            _ => Progress::Pending(self),
        }
    }
}

impl<S> Call<S> {
    /// A call of `func` on the value `slf` of `interp`, before it is run, if the VM
    /// takes that many arguments.
    pub fn plain(interp: &Mrb<S>, slf: MrbValue, func: &str, args: &[Value<S>]) -> (call: Result<
        Call<S>,
        MrbError,
    >)
        ensures
            match call {
                Ok(call) => {
                    &&& args@.len() <= MRB_FUNCALL_ARGC_MAX
                    &&& call@ == CallView::start(
                        *interp,
                        slf,
                        func@,
                        crate::value::raw_values(args@),
                        None,
                    )
                    &&& call matches Call::Saving {
                        interp: of,
                        invocation: Invocation::Plain(made),
                    }
                    &&& of == *interp
                    &&& made.slf == slf
                    &&& made.func@ == func@
                    &&& made.args@.len() == args@.len()
                    &&& forall|i: int|
                        0 <= i < args@.len() ==> #[trigger] made.args@[i] == args@[i].value
                },
                Err(error) => {
                    &&& args@.len() > MRB_FUNCALL_ARGC_MAX
                    &&& error == spec_too_many_args(args@.len())
                    &&& error matches MrbError::TooManyArgs { given, max }
                    &&& given == args@.len()
                    &&& max == 16
                },
            },
    {
        match protect_args(slf, func, args) {
            Ok(call) => Ok(
                Call::Saving { interp: Rc::clone(interp), invocation: Invocation::Plain(call) },
            ),
            Err(error) => Err(error),
        }
    }

    /// A call of `func` with `block` on the value `slf` of `interp`, before it is
    /// run, if the VM takes that many arguments.
    pub fn with_block(
        interp: &Mrb<S>,
        slf: MrbValue,
        func: &str,
        args: &[Value<S>],
        block: MrbValue,
    ) -> (call: Result<Call<S>, MrbError>)
        ensures
            match call {
                Ok(call) => {
                    &&& args@.len() <= MRB_FUNCALL_ARGC_MAX
                    &&& call@ == CallView::start(
                        *interp,
                        slf,
                        func@,
                        crate::value::raw_values(args@),
                        Some(block),
                    )
                    &&& call matches Call::Saving {
                        interp: of,
                        invocation: Invocation::WithBlock(made),
                    }
                    &&& of == *interp
                    &&& made.slf == slf
                    &&& made.func@ == func@
                    &&& made.args@.len() == args@.len()
                    &&& forall|i: int|
                        0 <= i < args@.len() ==> #[trigger] made.args@[i] == args@[i].value
                    &&& made.block == block
                },
                Err(error) => {
                    &&& args@.len() > MRB_FUNCALL_ARGC_MAX
                    &&& error == spec_too_many_args(args@.len())
                    &&& error matches MrbError::TooManyArgs { given, max }
                    &&& given == args@.len()
                    &&& max == 16
                },
            },
    {
        match protect_args(slf, func, args) {
            Ok(call) => Ok(
                Call::Saving {
                    interp: Rc::clone(interp),
                    invocation: Invocation::WithBlock(call.with_block(block)),
                },
            ),
            Err(error) => Err(error),
        }
    }

    /// The interpreter that the call runs in, and its requests are for.
    pub fn interp(&self) -> (interp: &Mrb<S>)
        ensures
            *interp == self@.interp(),
    {
        match self {
            Call::Saving { interp, .. } => interp,
            Call::Invoking { interp, .. } => interp,
            Call::Raising { interp, .. } => interp,
            Call::Checking { interp, .. } => interp,
        }
    }

    /// What the call waits for.
    pub fn request(&self) -> (request: Request<'_, S>)
        ensures
            request@ == self@.request(),
    {
        match self {
            Call::Saving { .. } => Request::SaveArena,
            Call::Invoking { invocation: Invocation::Plain(call), .. } => Request::Protect(call),
            Call::Invoking { invocation: Invocation::WithBlock(call), .. } => {
                Request::ProtectWithBlock(call)
            },
            Call::Raising { exception, .. } => Request::SetException(*exception),
            Call::Checking { .. } => Request::LastError,
        }
    }

    /// Takes the host's reply. The result is the value that the call returned, or
    /// the reason why it did not return one. A reply to another request is dropped.
    pub fn step<T>(self, reply: Reply<T>) -> (progress: Progress<
        Call<S>,
        Result<Value<S>, MrbError>,
    >)
        ensures
            progress@ == self@.after(reply),
    {
        match (self, reply) {
            (Call::Saving { interp, invocation }, Reply::ArenaSaved) => {
                Progress::Pending(Call::Invoking { interp, invocation })
            },
            (Call::Invoking { interp, .. }, Reply::Protected { value, state }) => {
                if state != 0 {
                    Progress::Pending(Call::Raising { interp, exception: value })
                } else {
                    Progress::Pending(Call::Checking { interp, value })
                }
            },
            (Call::Raising { interp, exception }, Reply::ExceptionSet) => {
                Progress::Pending(Call::Checking { interp, value: exception })
            },
            (Call::Checking { interp, value }, Reply::LastError(last_error)) => {
                Progress::Done(Value::new(&interp, value).checked(last_error))
            },
            (call, _) => Progress::Pending(call),
        }
    }
}

/// A method call up to the Rust value that it is converted to.
pub enum FuncallView<S, T> {
    Running(CallView<S>),
    Converting(Value<S>),
    Releasing { interp: Mrb<S>, result: Result<T, MrbError> },
}

/// A method call up to the Rust value that it is converted to.
pub enum Funcall<S, T> {
    /// The call runs.
    Running(Call<S>),
    /// The call returned a value; it is to be converted.
    Converting(Value<S>),
    /// The result is there; the savepoint is to be released.
    Releasing {
        /// The interpreter of the receiver.
        interp: Mrb<S>,
        /// The result.
        result: Result<T, MrbError>,
    },
}

impl<S, T> View for Funcall<S, T> {
    type V = FuncallView<S, T>;

    open spec fn view(&self) -> FuncallView<S, T> {
        match *self {
            Funcall::Running(call) => FuncallView::Running(call@),
            Funcall::Converting(value) => FuncallView::Converting(value),
            Funcall::Releasing { interp, result } => FuncallView::Releasing { interp, result },
        }
    }
}

/// The result of an operation that ends in a conversion.
pub open spec fn spec_converted<T>(conversion: Result<T, ConvertError>) -> Result<T, MrbError> {
    match conversion {
        Ok(value) => Ok(value),
        Err(error) => Err(MrbError::ConvertToRust(error)),
    }
}

/// The result of an operation that ends in a conversion.
pub fn converted<T>(conversion: Result<T, ConvertError>) -> (result: Result<T, MrbError>)
    ensures
        result == spec_converted(conversion),
        conversion matches Ok(value) ==> result == Ok::<T, MrbError>(value),
        conversion matches Err(error) ==> result == Err::<T, _>(MrbError::ConvertToRust(error)),
{
    match conversion {
        Ok(value) => Ok(value),
        Err(error) => Err(MrbError::ConvertToRust(error)),
    }
}

impl<S, T> FuncallView<S, T> {
    /// A call of `func` on the value `slf` of `interp`, before it is run.
    pub open spec fn start(
        interp: Mrb<S>,
        slf: MrbValue,
        func: Seq<char>,
        args: Seq<MrbValue>,
        block: Option<MrbValue>,
    ) -> FuncallView<S, T> {
        FuncallView::Running(CallView::start(interp, slf, func, args, block))
    }

    /// The interpreter that the call runs in, and its requests are for.
    pub open spec fn interp(self) -> Mrb<S> {
        match self {
            FuncallView::Running(call) => call.interp(),
            FuncallView::Converting(value) => value.interp,
            FuncallView::Releasing { interp, .. } => interp,
        }
    }

    /// What the call waits for.
    pub open spec fn request(self) -> RequestView<S> {
        match self {
            FuncallView::Running(call) => call.request(),
            FuncallView::Converting(value) => RequestView::Convert(value),
            FuncallView::Releasing { .. } => RequestView::ReleaseArena,
        }
    }

    /// Where the call stands after `reply`: the value that the call returns is
    /// converted, the conversion decides the result, and the savepoint is released
    /// before the result is out. A reply to another request changes nothing.
    pub open spec fn after(self, reply: Reply<T>) -> Progress<
        FuncallView<S, T>,
        Result<T, MrbError>,
    > {
        match self {
            FuncallView::Running(call) => match call.after(reply) {
                Progress::Pending(call) => Progress::Pending(FuncallView::Running(call)),
                Progress::Done(Ok(value)) => Progress::Pending(FuncallView::Converting(value)),
                Progress::Done(Err(error)) => Progress::Pending(
                    FuncallView::Releasing { interp: call.interp(), result: Err(error) },
                ),
            },
            FuncallView::Converting(value) => match reply {
                Reply::Converted(conversion) => Progress::Pending(
                    FuncallView::Releasing {
                        interp: value.interp,
                        result: spec_converted(conversion),
                    },
                ),
                _ => Progress::Pending(self),
            },
            FuncallView::Releasing { result, .. } => match reply {
                Reply::ArenaReleased => Progress::Done(result),
                _ => Progress::Pending(self),
            },
        }
    }
}

impl<S, T> Funcall<S, T> {
    /// The interpreter that the call runs in, and its requests are for.
    pub fn interp(&self) -> (interp: &Mrb<S>)
        ensures
            *interp == self@.interp(),
    {
        match self {
            Funcall::Running(call) => call.interp(),
            Funcall::Converting(value) => &value.interp,
            Funcall::Releasing { interp, .. } => interp,
        }
    }

    /// What the call waits for.
    pub fn request(&self) -> (request: Request<'_, S>)
        ensures
            request@ == self@.request(),
    {
        match self {
            Funcall::Running(call) => call.request(),
            Funcall::Converting(value) => Request::Convert(value),
            Funcall::Releasing { .. } => Request::ReleaseArena,
        }
    }

    /// Takes the host's reply. The result is the converted value, or the reason why
    /// there is none. A reply to another request is dropped.
    pub fn step(self, reply: Reply<T>) -> (progress: Progress<Funcall<S, T>, Result<T, MrbError>>)
        ensures
            progress@ == self@.after(reply),
    {
        match self {
            Funcall::Running(call) => {
                let interp = Rc::clone(call.interp());
                match call.step(reply) {
                    Progress::Pending(call) => Progress::Pending(Funcall::Running(call)),
                    Progress::Done(Ok(value)) => Progress::Pending(Funcall::Converting(value)),
                    Progress::Done(Err(error)) => {
                        Progress::Pending(Funcall::Releasing { interp, result: Err(error) })
                    },
                }
            },
            Funcall::Converting(value) => match reply {
                Reply::Converted(conversion) => Progress::Pending(
                    Funcall::Releasing { interp: value.interp, result: converted(conversion) },
                ),
                _ => Progress::Pending(Funcall::Converting(value)),
            },
            Funcall::Releasing { interp, result } => match reply {
                Reply::ArenaReleased => Progress::Done(result),
                _ => Progress::Pending(Funcall::Releasing { interp, result }),
            },
        }
    }
}

impl<S> FuncallView<S, Value<S>> {
    /// Where the call stands after `reply`, if a value is its own conversion: as
    /// [`FuncallView::after`] says, but the value that the call returns is the result,
    /// and the host is not asked to convert it.
    pub open spec fn after_to_value(self, reply: Reply<Value<S>>) -> Progress<
        FuncallView<S, Value<S>>,
        Result<Value<S>, MrbError>,
    > {
        match self.after(reply) {
            Progress::Pending(FuncallView::Converting(value)) => Progress::Pending(
                FuncallView::Releasing { interp: value.interp, result: Ok(value) },
            ),
            progress => progress,
        }
    }
}

impl<S> Funcall<S, Value<S>> {
    /// Takes the host's reply, as [`Funcall::step`] does, and converts the value that
    /// the call returns with [`Value::from_mrb`]: the host is not asked to.
    pub fn step_to_value(self, reply: Reply<Value<S>>) -> (progress: Progress<
        Funcall<S, Value<S>>,
        Result<Value<S>, MrbError>,
    >)
        ensures
            progress@ == self@.after_to_value(reply),
            self matches Funcall::Running(Call::Checking { interp, value }) ==> (reply == Reply::<
                Value<S>,
            >::LastError(LastError::Clear) && value.kind() != crate::types::Ruby::Unreachable
                ==> progress == Progress::<_, Result<Value<S>, MrbError>>::Pending(
                Funcall::Releasing { interp, result: Ok(Value { interp, value }) },
            )),
    {
        match self.step(reply) {
            Progress::Pending(Funcall::Converting(value)) => {
                let interp = Rc::clone(&value.interp);
                let value = Value::from_mrb(&interp, value);
                Progress::Pending(Funcall::Releasing { interp, result: Ok(value) })
            },
            progress => progress,
        }
    }
}

/// The conversion of a value, without a call.
pub struct Conversion<S> {
    /// The value.
    pub value: Value<S>,
}

impl<S> Conversion<S> {
    /// What the conversion waits for.
    pub open spec fn spec_request(self) -> RequestView<S> {
        RequestView::Convert(self.value)
    }

    /// Where the conversion stands after `reply`.
    pub open spec fn after<T>(self, reply: Reply<T>) -> Progress<
        Conversion<S>,
        Result<T, MrbError>,
    > {
        match reply {
            Reply::Converted(conversion) => Progress::Done(spec_converted(conversion)),
            _ => Progress::Pending(self),
        }
    }

    /// The interpreter that the request is for.
    pub fn interp(&self) -> (interp: &Mrb<S>)
        ensures
            *interp == self.value.interp,
    {
        &self.value.interp
    }

    /// What the conversion waits for.
    pub fn request(&self) -> (request: Request<'_, S>)
        ensures
            request@ == self.spec_request(),
            request matches Request::Convert(value) && *value == self.value,
    {
        Request::Convert(&self.value)
    }

    /// Takes the host's reply. The result is the converted value, or the reason why
    /// there is none. A reply to another request is dropped.
    pub fn step<T>(self, reply: Reply<T>) -> (progress: Progress<
        Conversion<S>,
        Result<T, MrbError>,
    >)
        ensures
            progress == self.after(reply),
            reply matches Reply::Converted(Ok(value)) ==> progress == Progress::<
                Conversion<S>,
                _,
            >::Done(Ok::<T, MrbError>(value)),
            reply matches Reply::Converted(Err(error)) ==> progress == Progress::<
                Conversion<S>,
                _,
            >::Done(Err::<T, _>(MrbError::ConvertToRust(error))),
    {
        match reply {
            Reply::Converted(conversion) => Progress::Done(converted(conversion)),
            _ => Progress::Pending(self),
        }
    }
}

} // verus!
