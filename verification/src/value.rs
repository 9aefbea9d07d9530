//! Values of the virtual machine, and the operations on them.

use crate::call::{Call, Conversion, Funcall, FuncallView, Invocation};
use crate::error::{LastError, MrbError};
use crate::exchange::Progress;
use crate::liveness::Liveness;
use crate::protect::MRB_FUNCALL_ARGC_MAX;
use crate::render::{Rendering, RenderingView};
use crate::respond_to::{RespondTo, RespondToView};
use crate::sys::MrbValue;
use crate::types::Ruby;
use std::rc::Rc;
use vstd::prelude::*;

verus! {

/// A handle on an interpreter whose state is an `S`.
pub type Mrb<S> = Rc<S>;

/// A Ruby value and the interpreter that it lives in.
pub struct Value<S> {
    /// The interpreter.
    pub interp: Mrb<S>,
    /// The value, as the C API represents it.
    pub value: MrbValue,
}

/// The C representations of `values`.
pub open spec fn raw_values<S>(values: Seq<Value<S>>) -> Seq<MrbValue> {
    values.map_values(|value: Value<S>| value.value)
}

/// The start of a call of `func` on the value `slf` of `interp`: the call is to be
/// run, unless it has more arguments than the VM takes.
pub open spec fn spec_funcall<S, T>(
    interp: Mrb<S>,
    slf: MrbValue,
    func: Seq<char>,
    args: Seq<MrbValue>,
    block: Option<MrbValue>,
) -> Progress<FuncallView<S, T>, Result<T, MrbError>> {
    if args.len() > MRB_FUNCALL_ARGC_MAX {
        Progress::Done(Err(crate::call::spec_too_many_args(args.len())))
    } else {
        Progress::Pending(FuncallView::start(interp, slf, func, args, block))
    }
}

/// Something that stands for a value of an interpreter, so that methods can be
/// called on it.
#[allow(clippy::module_name_repetitions)]
pub trait ValueLike: Sized {
    /// The state of the interpreter.
    type State;

    /// The value, as the C API represents it.
    spec fn raw(&self) -> MrbValue;

    /// The interpreter that the value lives in.
    spec fn handle(&self) -> Mrb<Self::State>;

    /// The value, as the C API represents it.
    fn inner(&self) -> (value: MrbValue)
        ensures
            value == self.raw(),
    ;

    /// The interpreter that the value lives in.
    fn interp(&self) -> (interp: &Mrb<Self::State>)
        ensures
            *interp == self.handle(),
    ;

    /// Calls the method `func` with `args`, and converts what it returns to a `T`.
    ///
    /// A call with more than [`MRB_FUNCALL_ARGC_MAX`] arguments is refused, and the
    /// VM is not asked for anything.
    fn funcall<T>(&self, func: &str, args: &[Value<Self::State>]) -> (progress: Progress<
        Funcall<Self::State, T>,
        Result<T, MrbError>,
    >)
        ensures
            progress@ == spec_funcall::<Self::State, T>(
                self.handle(),
                self.raw(),
                func@,
                raw_values(args@),
                None,
            ),
            match progress {
                Progress::Pending(call) => {
                    &&& args@.len() <= 16
                    &&& call matches Funcall::Running(
                        Call::Saving { interp, invocation: Invocation::Plain(call) },
                    )
                    &&& interp == self.handle()
                    &&& call.slf == self.raw()
                    &&& call.func@ == func@
                    &&& call.args@.len() == args@.len()
                    &&& forall|i: int|
                        0 <= i < args@.len() ==> #[trigger] call.args@[i] == args@[i].value
                },
                Progress::Done(result) => {
                    &&& args@.len() > 16
                    &&& result matches Err(MrbError::TooManyArgs { given, max })
                    &&& given == args@.len()
                    &&& max == 16
                },
            },
    {
        match Call::plain(self.interp(), self.inner(), func, args) {
            Ok(call) => Progress::Pending(Funcall::Running(call)),
            Err(error) => Progress::Done(Err(error)),
        }
    }

    /// Calls the method `func` with `args` and `block`, and converts what it
    /// returns to a `T`.
    ///
    /// A call with more than [`MRB_FUNCALL_ARGC_MAX`] arguments is refused, and the
    /// VM is not asked for anything.
    fn funcall_with_block<T>(
        &self,
        func: &str,
        args: &[Value<Self::State>],
        block: Value<Self::State>,
    ) -> (progress: Progress<Funcall<Self::State, T>, Result<T, MrbError>>)
        ensures
            progress@ == spec_funcall::<Self::State, T>(
                self.handle(),
                self.raw(),
                func@,
                raw_values(args@),
                Some(block.value),
            ),
            match progress {
                Progress::Pending(call) => {
                    &&& args@.len() <= 16
                    &&& call matches Funcall::Running(
                        Call::Saving { interp, invocation: Invocation::WithBlock(call) },
                    )
                    &&& interp == self.handle()
                    &&& call.slf == self.raw()
                    &&& call.func@ == func@
                    &&& call.args@.len() == args@.len()
                    &&& forall|i: int|
                        0 <= i < args@.len() ==> #[trigger] call.args@[i] == args@[i].value
                    &&& call.block == block.value
                },
                Progress::Done(result) => {
                    &&& args@.len() > 16
                    &&& result matches Err(MrbError::TooManyArgs { given, max })
                    &&& given == args@.len()
                    &&& max == 16
                },
            },
    {
        match Call::with_block(self.interp(), self.inner(), func, args, block.inner()) {
            Ok(call) => Progress::Pending(Funcall::Running(call)),
            Err(error) => Progress::Done(Err(error)),
        }
    }

    /// Asks whether the value responds to `method`.
    fn respond_to(&self, method: &str) -> (progress: Progress<
        RespondTo<Self::State>,
        Result<bool, MrbError>,
    >)
        ensures
            progress@ == Progress::<_, Result<bool, MrbError>>::Pending(
                RespondToView::Naming {
                    receiver: Value { interp: self.handle(), value: self.raw() },
                    method: method@,
                },
            ),
            progress matches Progress::Pending(RespondTo::Naming { receiver, method: name }) && {
                &&& receiver.interp == self.handle()
                &&& receiver.value == self.raw()
                &&& name@ == method@
            },
    {
        let receiver = Value::new(self.interp(), self.inner());
        Progress::Pending(RespondTo::Naming { receiver, method: method.to_owned() })
    }
}

impl<S> ValueLike for Value<S> {
    type State = S;

    open spec fn raw(&self) -> MrbValue {
        self.value
    }

    open spec fn handle(&self) -> Mrb<S> {
        self.interp
    }

    fn inner(&self) -> MrbValue {
        self.value
    }

    fn interp(&self) -> &Mrb<S> {
        &self.interp
    }
}

impl<S> Value<S> {
    /// The value `value` of `interp`.
    pub fn new(interp: &Mrb<S>, value: MrbValue) -> (result: Self)
        ensures
            result == (Value { interp: *interp, value }),
    {
        Self { interp: Rc::clone(interp), value }
    }

    /// The value, as the C API represents it.
    pub fn inner(&self) -> (value: MrbValue)
        ensures
            value == self.value,
    {
        self.value
    }

    /// The kind of the value.
    pub fn ruby_type(&self) -> (kind: Ruby)
        ensures
            kind == self.value.kind(),
    {
        Ruby::from(self.value)
    }

    /// Whether the value is internal to the VM.
    pub open spec fn unreachable(self) -> bool {
        self.value.kind() == Ruby::Unreachable
    }

    /// Some type tags like [`MRB_TT_UNDEF`](crate::sys::MRB_TT_UNDEF) are internal
    /// to the mruby VM and manipulating them with the C API is unspecified and may
    /// result in a segfault.
    ///
    /// After extracting a value from the interpreter, check to see if the value is
    /// [unreachable](Ruby::Unreachable) and propagate an
    /// [`MrbError::UnreachableValue`] error.
    ///
    /// See: <https://github.com/mruby/mruby/issues/4460>
    pub fn is_unreachable(&self) -> (result: bool)
        ensures
            result == self.unreachable(),
            result <==> {
                ||| self.value.tt == 1
                ||| self.value.tt == 5
                ||| self.value.tt == 11
                ||| self.value.tt == 20
                ||| self.value.tt >= 24
            },
    {
        self.ruby_type() == Ruby::Unreachable
    }

    /// What a call that left this value is worth: an exception comes first, then
    /// whether the value may leave the VM at all.
    pub open spec fn spec_checked(self, last_error: LastError) -> Result<Value<S>, MrbError> {
        match last_error {
            LastError::Exception(text) => Err(MrbError::Exec(text)),
            LastError::UnableToExtract(error) => Err(error),
            LastError::Clear => if self.unreachable() {
                Err(MrbError::UnreachableValue(self.value.tt))
            } else {
                Ok(self)
            },
        }
    }

    /// What a call that left this value is worth, given the VM's current exception.
    pub fn checked(self, last_error: LastError) -> (result: Result<Value<S>, MrbError>)
        ensures
            result == self.spec_checked(last_error),
            match last_error {
                LastError::Exception(text) => result == Err::<Value<S>, _>(MrbError::Exec(text)),
                LastError::UnableToExtract(error) => result == Err::<Value<S>, _>(error),
                LastError::Clear => result == if self.value.kind() == Ruby::Unreachable {
                    Err::<Value<S>, _>(MrbError::UnreachableValue(self.value.tt))
                } else {
                    Ok(self)
                },
            },
    {
        match last_error {
            LastError::Exception(text) => Err(MrbError::Exec(text)),
            LastError::UnableToExtract(error) => Err(error),
            LastError::Clear => {
                if self.is_unreachable() {
                    Err(MrbError::UnreachableValue(self.value.tt))
                } else {
                    Ok(self)
                }
            },
        }
    }

    /// Asks whether the garbage collector has freed the value.
    pub fn is_dead(&self) -> (progress: Progress<Liveness<S>, bool>)
        ensures
            progress == Progress::<_, bool>::Pending(
                Liveness { value: Value { interp: self.interp, value: self.value } },
            ),
    {
        Progress::Pending(Liveness { value: Value::new(&self.interp, self.value) })
    }

    /// Renders the value as text, with its method `to_s`.
    pub fn to_s(&self) -> (progress: Progress<Rendering<S>, String>)
        ensures
            crate::render::rendering_view(progress) == Progress::<_, Seq<char>>::Pending(
                RenderingView {
                    kind: None,
                    call: FuncallView::start(self.interp, self.value, "to_s"@, Seq::empty(), None),
                },
            ),
            progress matches Progress::Pending(rendering) && {
                &&& rendering.kind == None::<Ruby>
                &&& rendering.call matches Funcall::Running(
                    Call::Saving { interp, invocation: Invocation::Plain(call) },
                )
                &&& interp == self.interp
                &&& call.slf == self.value
                &&& call.func@ == "to_s"@
                &&& call.args@.len() == 0
            },
    {
        let args: [Value<S>; 0] = [];
        assert(raw_values(args@) == Seq::<MrbValue>::empty());
        Rendering::with(None, self.funcall::<String>("to_s", &args))
    }

    /// Renders the value for debugging: the name of its kind and, in angle
    /// brackets, what [`Value::inspect`] gives.
    pub fn to_s_debug(&self) -> (progress: Progress<Rendering<S>, String>)
        ensures
            crate::render::rendering_view(progress) == Progress::<_, Seq<char>>::Pending(
                RenderingView {
                    kind: Some(self.value.kind()),
                    call: FuncallView::start(
                        self.interp,
                        self.value,
                        "inspect"@,
                        Seq::empty(),
                        None,
                    ),
                },
            ),
            progress matches Progress::Pending(rendering) && {
                &&& rendering.kind == Some(self.value.kind())
                &&& rendering.call matches Funcall::Running(
                    Call::Saving { interp, invocation: Invocation::Plain(call) },
                )
                &&& interp == self.interp
                &&& call.slf == self.value
                &&& call.func@ == "inspect"@
                &&& call.args@.len() == 0
            },
    {
        let args: [Value<S>; 0] = [];
        assert(raw_values(args@) == Seq::<MrbValue>::empty());
        Rendering::with(Some(self.ruby_type()), self.funcall::<String>("inspect", &args))
    }

    /// Renders the value as text, with its method `inspect`.
    pub fn inspect(&self) -> (progress: Progress<Rendering<S>, String>)
        ensures
            crate::render::rendering_view(progress) == Progress::<_, Seq<char>>::Pending(
                RenderingView {
                    kind: None,
                    call: FuncallView::start(
                        self.interp,
                        self.value,
                        "inspect"@,
                        Seq::empty(),
                        None,
                    ),
                },
            ),
            progress matches Progress::Pending(rendering) && {
                &&& rendering.kind == None::<Ruby>
                &&& rendering.call matches Funcall::Running(
                    Call::Saving { interp, invocation: Invocation::Plain(call) },
                )
                &&& interp == self.interp
                &&& call.slf == self.value
                &&& call.func@ == "inspect"@
                &&& call.args@.len() == 0
            },
    {
        let args: [Value<S>; 0] = [];
        assert(raw_values(args@) == Seq::<MrbValue>::empty());
        Rendering::with(None, self.funcall::<String>("inspect", &args))
    }

    /// A value is its own conversion to a [`Value`].
    pub fn from_mrb(_interp: &Mrb<S>, value: Self) -> (result: Self)
        ensures
            result == value,
    {
        value
    }

    /// Consume `self` and try to convert `self` to type `T`.
    ///
    /// If you do not want to consume this [`Value`], use [`Value::itself`].
    pub fn try_into<T>(self) -> (progress: Progress<Conversion<S>, Result<T, MrbError>>)
        ensures
            progress == Progress::<_, Result<T, MrbError>>::Pending(Conversion { value: self }),
    {
        Progress::Pending(Conversion { value: self })
    }

    /// Call `#itself` on this [`Value`] and try to convert the result to type `T`.
    ///
    /// If you want to consume this [`Value`], use [`Value::try_into`].
    pub fn itself<T>(&self) -> (progress: Progress<Funcall<S, T>, Result<T, MrbError>>)
        ensures
            progress@ == Progress::<_, Result<T, MrbError>>::Pending(
                FuncallView::<S, T>::start(
                    self.interp,
                    self.value,
                    "itself"@,
                    Seq::empty(),
                    None,
                ),
            ),
            progress matches Progress::Pending(
                Funcall::Running(Call::Saving { interp, invocation: Invocation::Plain(call) }),
            ) && {
                &&& interp == self.interp
                &&& call.slf == self.value
                &&& call.func@ == "itself"@
                &&& call.args@.len() == 0
            },
    {
        let args: [Value<S>; 0] = [];
        assert(raw_values(args@) == Seq::<MrbValue>::empty());
        self.funcall::<T>("itself", &args)
    }
}

} // verus!
