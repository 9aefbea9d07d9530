//! What holds of whole conversations between an operation and the host.

use crate::call::{CallView, Conversion, FuncallView};
use crate::error::{ConvertError, LastError, MrbError};
use crate::exchange::{Progress, Reply, RequestView};
use crate::protect::{InvocationView, MRB_FUNCALL_ARGC_MAX};
use crate::render::RenderingView;
use crate::respond_to::RespondToView;
use crate::sys::{
    MrbValue, MRB_TT_BREAK, MRB_TT_ENV, MRB_TT_FALSE, MRB_TT_FREE, MRB_TT_ICLASS,
    MRB_TT_MAXDEFINE, MRB_TT_TRUE, MRB_TT_UNDEF,
};
use crate::types::Ruby;
use crate::value::{Mrb, Value};
use vstd::prelude::*;

verus! {

/// Where a call that stands at `start` stands after `replies`.
pub open spec fn run<S, T>(
    start: Progress<FuncallView<S, T>, Result<T, MrbError>>,
    replies: Seq<Reply<T>>,
) -> Progress<FuncallView<S, T>, Result<T, MrbError>>
    decreases replies.len(),
{
    if replies.len() == 0 {
        start
    } else {
        match start {
            Progress::Pending(call) => run(call.after(replies.first()), replies.drop_first()),
            Progress::Done(_) => start,
        }
    }
}

/// Whether each of `replies` answers the request that a call waits for when the
/// reply comes, from `start` on.
pub open spec fn answered<S, T>(
    start: Progress<FuncallView<S, T>, Result<T, MrbError>>,
    replies: Seq<Reply<T>>,
) -> bool
    decreases replies.len(),
{
    replies.len() == 0 || match start {
        Progress::Pending(call) => {
            &&& call.request().answered_by(replies.first())
            &&& answered(call.after(replies.first()), replies.drop_first())
        },
        Progress::Done(_) => false,
    }
}

/// Where a call, up to the value that it returns, stands after `replies`.
pub open spec fn run_call<S, T>(
    start: Progress<CallView<S>, Result<Value<S>, MrbError>>,
    replies: Seq<Reply<T>>,
) -> Progress<CallView<S>, Result<Value<S>, MrbError>>
    decreases replies.len(),
{
    if replies.len() == 0 {
        start
    } else {
        match start {
            Progress::Pending(call) => run_call(call.after(replies.first()), replies.drop_first()),
            Progress::Done(_) => start,
        }
    }
}

/// Whether each of `replies` answers the request that a call, up to the value that
/// it returns, waits for when the reply comes, from `start` on.
pub open spec fn answered_call<S, T>(
    start: Progress<CallView<S>, Result<Value<S>, MrbError>>,
    replies: Seq<Reply<T>>,
) -> bool
    decreases replies.len(),
{
    replies.len() == 0 || match start {
        Progress::Pending(call) => {
            &&& call.request().answered_by(replies.first())
            &&& answered_call(call.after(replies.first()), replies.drop_first())
        },
        Progress::Done(_) => false,
    }
}

/// Where a rendering that stands at `start` stands after `replies`.
pub open spec fn run_rendering<S>(
    start: Progress<RenderingView<S>, Seq<char>>,
    replies: Seq<Reply<String>>,
) -> Progress<RenderingView<S>, Seq<char>>
    decreases replies.len(),
{
    if replies.len() == 0 {
        start
    } else {
        match start {
            Progress::Pending(rendering) => run_rendering(
                rendering.after(replies.first()),
                replies.drop_first(),
            ),
            Progress::Done(_) => start,
        }
    }
}

/// Where a question that stands at `start` stands after `replies`.
pub open spec fn run_respond_to<S>(
    start: Progress<RespondToView<S>, Result<bool, MrbError>>,
    replies: Seq<Reply<bool>>,
) -> Progress<RespondToView<S>, Result<bool, MrbError>>
    decreases replies.len(),
{
    if replies.len() == 0 {
        start
    } else {
        match start {
            Progress::Pending(question) => run_respond_to(
                question.after(replies.first()),
                replies.drop_first(),
            ),
            Progress::Done(_) => start,
        }
    }
}

/// Whether each of `replies` answers the request that a question waits for when
/// the reply comes, from `start` on.
pub open spec fn answered_respond_to<S>(
    start: Progress<RespondToView<S>, Result<bool, MrbError>>,
    replies: Seq<Reply<bool>>,
) -> bool
    decreases replies.len(),
{
    replies.len() == 0 || match start {
        Progress::Pending(question) => {
            &&& question.request().answered_by(replies.first())
            &&& answered_respond_to(question.after(replies.first()), replies.drop_first())
        },
        Progress::Done(_) => false,
    }
}

/// How many answers a call can still take.
pub open spec fn rank<S, T>(call: FuncallView<S, T>) -> nat {
    match call {
        FuncallView::Running(CallView::Saving { .. }) => 6,
        FuncallView::Running(CallView::Invoking { .. }) => 5,
        FuncallView::Running(CallView::Raising { .. }) => 4,
        FuncallView::Running(CallView::Checking { .. }) => 3,
        FuncallView::Converting(_) => 2,
        FuncallView::Releasing { .. } => 1,
    }
}

/// How many answers a question can still take.
pub open spec fn rank_respond_to<S>(question: RespondToView<S>) -> nat {
    match question {
        RespondToView::Naming { .. } => 12,
        RespondToView::Symbolizing { to_sym, .. } => rank(
            FuncallView::<S, bool>::Running(to_sym),
        ) + 5,
        RespondToView::Releasing { .. } => 7,
        RespondToView::Asking { call } => rank(call),
    }
}

/// A value is internal to the VM exactly if its tag is: a freed slot, an absent
/// value, a mixed-in module's entry, captured variables, a pending `break`, or no
/// tag at all.
pub proof fn law_unreachable_tags(value: MrbValue)
    ensures
        value.kind() == Ruby::Unreachable <==> {
            ||| value.tt == MRB_TT_FREE
            ||| value.tt == MRB_TT_UNDEF
            ||| value.tt == MRB_TT_ICLASS
            ||| value.tt == MRB_TT_ENV
            ||| value.tt == MRB_TT_BREAK
            ||| value.tt >= MRB_TT_MAXDEFINE
        },
{
}

/// `nil` and `false` share a tag and differ in kind.
pub proof fn law_nil_is_not_false(value: MrbValue)
    ensures
        value.kind() == Ruby::Nil <==> value.tt == MRB_TT_FALSE && value.payload == 0,
        value.kind() == Ruby::Bool <==> {
            ||| value.tt == MRB_TT_TRUE
            ||| value.tt == MRB_TT_FALSE && value.payload != 0
        },
{
}

/// A call with too many arguments is over before it starts: it names how many were
/// given and how many are allowed, and no reply of the host changes that.
pub proof fn law_refused_call<S, T>(
    interp: Mrb<S>,
    slf: MrbValue,
    func: Seq<char>,
    args: Seq<MrbValue>,
    block: Option<MrbValue>,
    replies: Seq<Reply<T>>,
)
    requires
        MRB_FUNCALL_ARGC_MAX < args.len() <= usize::MAX,
    ensures
        run(crate::value::spec_funcall::<S, T>(interp, slf, func, args, block), replies)
            matches Progress::Done(Err(MrbError::TooManyArgs { given, max }))
            && given == args.len() && max == MRB_FUNCALL_ARGC_MAX,
{
}

/// A call with no more arguments than allowed takes a savepoint and then asks the VM
/// to run exactly that call, and its argument count survives the C API.
pub proof fn law_accepted_call<S, T>(
    interp: Mrb<S>,
    slf: MrbValue,
    func: Seq<char>,
    args: Seq<MrbValue>,
    block: Option<MrbValue>,
)
    requires
        args.len() <= MRB_FUNCALL_ARGC_MAX,
    ensures
        crate::value::spec_funcall::<S, T>(interp, slf, func, args, block)
            matches Progress::Pending(saving) && {
            &&& saving.request() == RequestView::<S>::SaveArena
            &&& saving.after(Reply::ArenaSaved) matches Progress::Pending(invoking)
                && invoking.request() matches RequestView::Protect(invocation) && {
                &&& invocation.slf == slf
                &&& invocation.func == func
                &&& invocation.args == args
                &&& invocation.block == block
                &&& crate::protect::spec_argc(invocation.args.len()) == args.len()
            }
        },
{
}

/// An answer moves a call on; anything else leaves it where it is.
pub proof fn law_answers_move_a_call<S, T>(call: FuncallView<S, T>, reply: Reply<T>)
    ensures
        call.request().answered_by(reply) ==> match call.after(reply) {
            Progress::Pending(next) => rank(next) < rank(call),
            Progress::Done(_) => true,
        },
        !call.request().answered_by(reply) ==> call.after(reply) == Progress::<
            _,
            Result<T, MrbError>,
        >::Pending(call),
{
}

/// A call ends: it takes no more than six answers.
pub proof fn law_call_ends<S, T>(call: FuncallView<S, T>, replies: Seq<Reply<T>>)
    requires
        answered(Progress::Pending(call), replies),
    ensures
        replies.len() <= rank(call) <= 6,
        replies.len() == rank(call) ==> run(Progress::Pending(call), replies) is Done,
    decreases replies.len(),
{
    reveal_with_fuel(run, 2);
    reveal_with_fuel(answered, 2);
    if replies.len() > 0 {
        match call.after(replies.first()) {
            Progress::Pending(next) => {
                law_call_ends(next, replies.drop_first());
            },
            Progress::Done(_) => {},
        }
    }
}

/// What a call comes to. The host takes a savepoint and runs the call; if an
/// exception ended it, the exception is set; then the VM's current exception is
/// taken. An exception, or a value that is internal to the VM, is the error that the
/// call comes to. Otherwise the host is asked to convert that value of the receiver's
/// interpreter, and the conversion is the result. Either way the savepoint is
/// released last.
pub proof fn law_finished_call<S, T>(
    interp: Mrb<S>,
    slf: MrbValue,
    func: Seq<char>,
    args: Seq<MrbValue>,
    block: Option<MrbValue>,
    replies: Seq<Reply<T>>,
    result: Result<T, MrbError>,
)
    requires
        answered(
            Progress::Pending(FuncallView::start(interp, slf, func, args, block)),
            replies,
        ),
        run(Progress::Pending(FuncallView::start(interp, slf, func, args, block)), replies)
            == Progress::<FuncallView<S, T>, _>::Done(result),
    ensures
        replies.len() >= 4,
        replies[0] is ArenaSaved,
        replies.last() is ArenaReleased,
        replies[1] matches Reply::Protected { value, state } && {
            let checked = if state != 0 {
                3int
            } else {
                2int
            };
            &&& state != 0 ==> replies[2] is ExceptionSet
            &&& checked < replies.len()
            &&& replies[checked] matches Reply::LastError(last_error) && match (Value {
                interp,
                value,
            }).spec_checked(last_error) {
                Err(error) => {
                    &&& replies.len() == checked + 2
                    &&& result == Err::<T, _>(error)
                },
                Ok(_) => {
                    &&& replies.len() == checked + 3
                    &&& run(
                        Progress::Pending(FuncallView::start(interp, slf, func, args, block)),
                        replies.take(checked + 1),
                    ) matches Progress::Pending(call) && call.request() == RequestView::Convert(
                        Value { interp, value },
                    )
                    &&& replies[checked + 1] matches Reply::Converted(conversion) && result
                        == crate::call::spec_converted(conversion)
                },
            }
        },
{
    reveal_with_fuel(run, 8);
    reveal_with_fuel(answered, 8);
    law_call_ends(FuncallView::start(interp, slf, func, args, block), replies);
}

/// Every savepoint is released: a call that is over has taken one, first of all, has
/// let go of it, last of all, and has taken or let go of no other.
pub proof fn law_savepoint_is_released<S, T>(
    interp: Mrb<S>,
    slf: MrbValue,
    func: Seq<char>,
    args: Seq<MrbValue>,
    block: Option<MrbValue>,
    replies: Seq<Reply<T>>,
)
    requires
        answered(
            Progress::Pending(FuncallView::start(interp, slf, func, args, block)),
            replies,
        ),
        run(
            Progress::Pending(FuncallView::start(interp, slf, func, args, block)),
            replies,
        ) is Done,
    ensures
        replies.len() > 0,
        forall|i: int|
            0 <= i < replies.len() ==> ((#[trigger] replies[i] is ArenaSaved) <==> i == 0),
        forall|i: int|
            0 <= i < replies.len() ==> ((#[trigger] replies[i] is ArenaReleased) <==> i
                == replies.len() - 1),
{
    reveal_with_fuel(run, 8);
    reveal_with_fuel(answered, 8);
    law_call_ends(FuncallView::start(interp, slf, func, args, block), replies);
}

/// A call after which the VM holds an exception comes to that exception, whatever
/// value the call left: only the release of the savepoint is still to come, and
/// nothing is converted.
pub proof fn law_exception_comes_first<S, T>(
    interp: Mrb<S>,
    slf: MrbValue,
    func: Seq<char>,
    args: Seq<MrbValue>,
    block: Option<MrbValue>,
    replies: Seq<Reply<T>>,
    i: int,
    last_error: LastError,
)
    requires
        answered(
            Progress::Pending(FuncallView::start(interp, slf, func, args, block)),
            replies,
        ),
        0 <= i < replies.len(),
        replies[i] == Reply::<T>::LastError(last_error),
    ensures
        ({
            let end = run(
                Progress::Pending(FuncallView::start(interp, slf, func, args, block)),
                replies,
            );
            match last_error {
                LastError::Exception(text) => {
                    &&& replies.len() <= i + 2
                    &&& replies.len() == i + 2 ==> end == Progress::<FuncallView<S, T>, _>::Done(
                        Err::<T, _>(MrbError::Exec(text)),
                    )
                },
                LastError::UnableToExtract(error) => {
                    &&& replies.len() <= i + 2
                    &&& replies.len() == i + 2 ==> end == Progress::<FuncallView<S, T>, _>::Done(
                        Err::<T, _>(error),
                    )
                },
                LastError::Clear => true,
            }
        }),
{
    reveal_with_fuel(run, 8);
    reveal_with_fuel(answered, 8);
    law_call_ends(FuncallView::start(interp, slf, func, args, block), replies);
}

/// If an exception ends a call, the exception object becomes the VM's current
/// exception before that is asked for.
pub proof fn law_exception_is_set_before_it_is_taken<S, T>(
    interp: Mrb<S>,
    slf: MrbValue,
    func: Seq<char>,
    args: Seq<MrbValue>,
    block: Option<MrbValue>,
    value: MrbValue,
    state: u8,
)
    requires
        state != 0,
    ensures
        run(
            Progress::Pending(FuncallView::start(interp, slf, func, args, block)),
            seq![Reply::<T>::ArenaSaved, Reply::Protected { value, state }],
        ) matches Progress::Pending(raising) && {
            &&& raising.request() == RequestView::<S>::SetException(value)
            &&& raising.after(Reply::<T>::ExceptionSet) matches Progress::Pending(checking)
                && checking.request() == RequestView::<S>::LastError
        },
{
    reveal_with_fuel(run, 3);
    let replies = seq![Reply::<T>::ArenaSaved, Reply::Protected { value, state }];
    assert(replies.drop_first()[0] == replies[1]);
}

/// Whether a call is in `interp`, and what it converts is not internal to the VM.
spec fn keeps_to<S, T>(call: FuncallView<S, T>, interp: Mrb<S>) -> bool {
    &&& call.interp() == interp
    &&& call matches FuncallView::Converting(value) ==> !value.unreachable()
}

/// No reply makes a call leave its interpreter or convert a value that is internal
/// to the VM.
proof fn lemma_call_keeps_to<S, T>(
    call: FuncallView<S, T>,
    interp: Mrb<S>,
    replies: Seq<Reply<T>>,
)
    requires
        keeps_to(call, interp),
    ensures
        run(Progress::Pending(call), replies) matches Progress::Pending(next) ==> keeps_to(
            next,
            interp,
        ),
    decreases replies.len(),
{
    reveal_with_fuel(run, 2);
    if replies.len() > 0 {
        match call.after(replies.first()) {
            Progress::Pending(next) => {
                lemma_call_keeps_to(next, interp, replies.drop_first());
            },
            Progress::Done(_) => {},
        }
    }
}

/// Whatever the host replies, every request of a call is for the interpreter of the
/// receiver: the savepoint, the call itself, the exception and the conversion.
pub proof fn law_call_keeps_its_interpreter<S, T>(
    interp: Mrb<S>,
    slf: MrbValue,
    func: Seq<char>,
    args: Seq<MrbValue>,
    block: Option<MrbValue>,
    replies: Seq<Reply<T>>,
)
    ensures
        run(
            crate::value::spec_funcall::<S, T>(interp, slf, func, args, block),
            replies,
        ) matches Progress::Pending(call) ==> {
            &&& call.interp() == interp
            &&& call matches FuncallView::Running(running) ==> running.interp() == interp
        },
{
    if args.len() <= MRB_FUNCALL_ARGC_MAX {
        lemma_call_keeps_to(
            FuncallView::start(interp, slf, func, args, block),
            interp,
            replies,
        );
    }
}

/// Whatever the host replies, a call never asks to convert a value that is internal
/// to the VM, and what it converts belongs to the interpreter of the receiver.
pub proof fn law_unreachable_values_are_not_converted<S, T>(
    interp: Mrb<S>,
    slf: MrbValue,
    func: Seq<char>,
    args: Seq<MrbValue>,
    block: Option<MrbValue>,
    replies: Seq<Reply<T>>,
)
    ensures
        run(
            crate::value::spec_funcall::<S, T>(interp, slf, func, args, block),
            replies,
        ) matches Progress::Pending(call) ==> {
            call.request() matches RequestView::Convert(value) ==> {
                &&& !value.unreachable()
                &&& value.interp == interp
            }
        },
{
    if args.len() <= MRB_FUNCALL_ARGC_MAX {
        lemma_call_keeps_to(
            FuncallView::start(interp, slf, func, args, block),
            interp,
            replies,
        );
    }
}

/// A call that leaves a value internal to the VM, and no exception, comes to an error
/// that holds the value's tag.
pub proof fn law_unreachable_value_is_an_error<S, T>(
    interp: Mrb<S>,
    slf: MrbValue,
    func: Seq<char>,
    args: Seq<MrbValue>,
    block: Option<MrbValue>,
    replies: Seq<Reply<T>>,
    result: Result<T, MrbError>,
    value: MrbValue,
    state: u8,
    i: int,
)
    requires
        answered(
            Progress::Pending(FuncallView::start(interp, slf, func, args, block)),
            replies,
        ),
        run(Progress::Pending(FuncallView::start(interp, slf, func, args, block)), replies)
            == Progress::<FuncallView<S, T>, _>::Done(result),
        replies[1] == (Reply::<T>::Protected { value, state }),
        value.kind() == Ruby::Unreachable,
        0 <= i < replies.len(),
        replies[i] == Reply::<T>::LastError(LastError::Clear),
    ensures
        result == Err::<T, _>(MrbError::UnreachableValue(value.tt)),
{
    law_finished_call(interp, slf, func, args, block, replies, result);
}

/// Whether each conversion among `replies` that succeeds gives back the value that
/// the call, from `start` on, asks to convert, as [`Value::from_mrb`] does.
pub open spec fn conversions_keep_values<S>(
    start: Progress<FuncallView<S, Value<S>>, Result<Value<S>, MrbError>>,
    replies: Seq<Reply<Value<S>>>,
) -> bool {
    forall|i: int|
        0 <= i < replies.len() ==> (#[trigger] replies[i] matches Reply::Converted(Ok(value))
            ==> run(start, replies.take(i)) matches Progress::Pending(call) && call.request()
            == RequestView::Convert(value))
}

/// A call that is asked for a value never comes to one that is internal to the VM,
/// with a block or without. The value that it comes to is the one that the VM left, in
/// the interpreter of the receiver.
pub proof fn law_returned_values_are_reachable<S>(
    interp: Mrb<S>,
    slf: MrbValue,
    func: Seq<char>,
    args: Seq<MrbValue>,
    block: Option<MrbValue>,
    replies: Seq<Reply<Value<S>>>,
    value: Value<S>,
)
    requires
        ({
            let start = crate::value::spec_funcall::<S, Value<S>>(interp, slf, func, args, block);
            &&& answered(start, replies)
            &&& conversions_keep_values(start, replies)
            &&& run(start, replies) == Progress::<FuncallView<S, Value<S>>, _>::Done(
                Ok::<_, MrbError>(value),
            )
        }),
    ensures
        !value.unreachable(),
        value.interp == interp,
        replies[1] matches Reply::Protected { value: raw, .. } && value.value == raw,
{
    if args.len() <= MRB_FUNCALL_ARGC_MAX {
        law_finished_call(interp, slf, func, args, block, replies, Ok(value));
        let converted = replies.len() - 2;
        assert(replies[converted] is Converted);
        law_unreachable_values_are_not_converted(
            interp,
            slf,
            func,
            args,
            block,
            replies.take(converted),
        );
    }
}

/// Calling `itself` on a value, for a value, never comes to one that is internal to
/// the VM.
pub proof fn law_itself_returns_a_reachable_value<S>(
    receiver: Value<S>,
    replies: Seq<Reply<Value<S>>>,
    value: Value<S>,
)
    requires
        ({
            let start = Progress::Pending(
                FuncallView::start(receiver.interp, receiver.value, "itself"@, Seq::empty(), None),
            );
            &&& answered(start, replies)
            &&& conversions_keep_values(start, replies)
            &&& run(start, replies) == Progress::<FuncallView<S, Value<S>>, _>::Done(
                Ok::<_, MrbError>(value),
            )
        }),
    ensures
        !value.unreachable(),
        value.interp == receiver.interp,
{
    law_returned_values_are_reachable(
        receiver.interp,
        receiver.value,
        "itself"@,
        Seq::empty(),
        None,
        replies,
        value,
    );
}

/// Where a call for a value, which is its own conversion, stands after `replies`.
pub open spec fn run_to_value<S>(
    start: Progress<FuncallView<S, Value<S>>, Result<Value<S>, MrbError>>,
    replies: Seq<Reply<Value<S>>>,
) -> Progress<FuncallView<S, Value<S>>, Result<Value<S>, MrbError>>
    decreases replies.len(),
{
    if replies.len() == 0 {
        start
    } else {
        match start {
            Progress::Pending(call) => run_to_value(
                call.after_to_value(replies.first()),
                replies.drop_first(),
            ),
            Progress::Done(_) => start,
        }
    }
}

/// Whether a call for a value is in `interp`, asks for no conversion, and holds no
/// result that is internal to the VM.
spec fn value_call_keeps_to<S>(
    progress: Progress<FuncallView<S, Value<S>>, Result<Value<S>, MrbError>>,
    interp: Mrb<S>,
) -> bool {
    match progress {
        Progress::Pending(call) => {
            &&& call.interp() == interp
            &&& !(call is Converting)
            &&& call matches FuncallView::Releasing { result: Ok(value), .. }
                ==> !value.unreachable() && value.interp == interp
        },
        Progress::Done(Ok(value)) => !value.unreachable() && value.interp == interp,
        Progress::Done(Err(_)) => true,
    }
}

/// No reply makes a call for a value leave its interpreter or come to a value that is
/// internal to the VM.
proof fn lemma_value_call_keeps_to<S>(
    start: Progress<FuncallView<S, Value<S>>, Result<Value<S>, MrbError>>,
    interp: Mrb<S>,
    replies: Seq<Reply<Value<S>>>,
)
    requires
        value_call_keeps_to(start, interp),
    ensures
        value_call_keeps_to(run_to_value(start, replies), interp),
    decreases replies.len(),
{
    reveal_with_fuel(run_to_value, 2);
    if replies.len() > 0 {
        match start {
            Progress::Pending(call) => {
                lemma_value_call_keeps_to(
                    call.after_to_value(replies.first()),
                    interp,
                    replies.drop_first(),
                );
            },
            Progress::Done(_) => {},
        }
    }
}

/// Whatever the host replies, a call for a value that the library converts never comes
/// to a value that is internal to the VM, with a block or without, nor to one of
/// another interpreter, and the host is never asked to convert.
pub proof fn law_value_calls_return_reachable_values<S>(
    interp: Mrb<S>,
    slf: MrbValue,
    func: Seq<char>,
    args: Seq<MrbValue>,
    block: Option<MrbValue>,
    replies: Seq<Reply<Value<S>>>,
)
    ensures
        match run_to_value(
            crate::value::spec_funcall::<S, Value<S>>(interp, slf, func, args, block),
            replies,
        ) {
            Progress::Pending(call) => call.interp() == interp && !(call.request() is Convert),
            Progress::Done(Ok(value)) => !value.unreachable() && value.interp == interp,
            Progress::Done(Err(_)) => true,
        },
{
    lemma_value_call_keeps_to(
        crate::value::spec_funcall::<S, Value<S>>(interp, slf, func, args, block),
        interp,
        replies,
    );
}

/// Whatever the host replies, `itself`, for a value that the library converts, never
/// comes to a value that is internal to the VM.
pub proof fn law_itself_to_value_is_reachable<S>(
    receiver: Value<S>,
    replies: Seq<Reply<Value<S>>>,
)
    ensures
        run_to_value(
            Progress::Pending(
                FuncallView::start(receiver.interp, receiver.value, "itself"@, Seq::empty(), None),
            ),
            replies,
        ) matches Progress::Done(Ok(value)) ==> !value.unreachable() && value.interp
            == receiver.interp,
{
    law_value_calls_return_reachable_values(
        receiver.interp,
        receiver.value,
        "itself"@,
        Seq::empty(),
        None,
        replies,
    );
}

/// The call without its block.
pub open spec fn without_block<S, T>(
    progress: Progress<FuncallView<S, T>, Result<T, MrbError>>,
) -> Progress<FuncallView<S, T>, Result<T, MrbError>> {
    match progress {
        Progress::Pending(FuncallView::Running(CallView::Saving { interp, invocation })) => {
            Progress::Pending(
                FuncallView::Running(
                    CallView::Saving {
                        interp,
                        invocation: InvocationView { block: None, ..invocation },
                    },
                ),
            )
        },
        Progress::Pending(FuncallView::Running(CallView::Invoking { interp, invocation })) => {
            Progress::Pending(
                FuncallView::Running(
                    CallView::Invoking {
                        interp,
                        invocation: InvocationView { block: None, ..invocation },
                    },
                ),
            )
        },
        _ => progress,
    }
}

/// A call goes the same way with and without its block.
proof fn lemma_block_changes_only_the_call<S, T>(
    start: Progress<FuncallView<S, T>, Result<T, MrbError>>,
    replies: Seq<Reply<T>>,
)
    ensures
        run(without_block(start), replies) == without_block(run(start, replies)),
    decreases replies.len(),
{
    reveal_with_fuel(run, 2);
    if replies.len() > 0 {
        match start {
            Progress::Pending(call) => {
                lemma_block_changes_only_the_call(
                    call.after(replies.first()),
                    replies.drop_first(),
                );
            },
            Progress::Done(_) => {},
        }
    }
}

/// A block changes what the VM runs and nothing else: after the same replies, a call
/// with a block stands where the call without it stands, and comes to the same.
pub proof fn law_block_changes_only_the_call<S, T>(
    interp: Mrb<S>,
    slf: MrbValue,
    func: Seq<char>,
    args: Seq<MrbValue>,
    block: MrbValue,
    replies: Seq<Reply<T>>,
)
    ensures
        run(crate::value::spec_funcall::<S, T>(interp, slf, func, args, None), replies)
            == without_block(
            run(
                crate::value::spec_funcall::<S, T>(interp, slf, func, args, Some(block)),
                replies,
            ),
        ),
{
    lemma_block_changes_only_the_call(
        crate::value::spec_funcall::<S, T>(interp, slf, func, args, Some(block)),
        replies,
    );
}

/// Calling `itself` on a value and converting the value come to the same, provided
/// that `itself` returns the value and the value is not internal to the VM.
pub proof fn law_itself_agrees_with_try_into<S, T>(
    value: Value<S>,
    conversion: Result<T, ConvertError>,
)
    requires
        !value.unreachable(),
    ensures
        run(
            Progress::Pending(
                FuncallView::start(value.interp, value.value, "itself"@, Seq::empty(), None),
            ),
            seq![
                Reply::ArenaSaved,
                Reply::Protected { value: value.value, state: 0 },
                Reply::LastError(LastError::Clear),
                Reply::Converted(conversion),
                Reply::ArenaReleased,
            ],
        ) matches Progress::Done(result) && (Conversion { value }).after(
            Reply::Converted(conversion),
        ) == Progress::<Conversion<S>, _>::Done(result),
{
    reveal_with_fuel(run, 6);
    let replies: Seq<Reply<T>> = seq![
        Reply::ArenaSaved,
        Reply::Protected { value: value.value, state: 0 },
        Reply::LastError(LastError::Clear),
        Reply::Converted(conversion),
        Reply::ArenaReleased,
    ];
    assert(replies.drop_first()[0] == replies[1]);
    assert(replies.drop_first().drop_first()[0] == replies[2]);
    assert(replies.drop_first().drop_first().drop_first()[0] == replies[3]);
    assert(replies.drop_first().drop_first().drop_first().drop_first()[0] == replies[4]);
}

/// A value whose conversion to a value is itself, as [`Value::from_mrb`] has it, comes
/// out of the conversion as it went in.
pub proof fn law_try_into_a_value_keeps_it<S>(interp: Mrb<S>, raw: MrbValue)
    ensures
        ({
            let value = Value { interp, value: raw };
            let conversion = Conversion { value };
            &&& conversion.spec_request() == RequestView::Convert(value)
            &&& conversion.after(Reply::Converted(Ok(value))) == Progress::<Conversion<S>, _>::Done(
                Ok::<_, MrbError>(value),
            )
        }),
{
}

/// A rendering stands where its call stands.
proof fn lemma_rendering_follows_its_call<S>(
    kind: Option<Ruby>,
    start: Progress<FuncallView<S, String>, Result<String, MrbError>>,
    replies: Seq<Reply<String>>,
)
    ensures
        run_rendering(RenderingView::with(kind, start), replies) == RenderingView::with(
            kind,
            run(start, replies),
        ),
    decreases replies.len(),
{
    reveal_with_fuel(run, 2);
    reveal_with_fuel(run_rendering, 2);
    if replies.len() > 0 {
        match start {
            Progress::Pending(call) => {
                lemma_rendering_follows_its_call(
                    kind,
                    call.after(replies.first()),
                    replies.drop_first(),
                );
            },
            Progress::Done(_) => {},
        }
    }
}

/// To render a value does not fail: the text is what the value's method gives, and
/// `<unknown>` in place of every error.
pub proof fn law_rendering_never_fails<S>(call: FuncallView<S, String>, replies: Seq<Reply<String>>)
    ensures
        run_rendering(Progress::Pending(RenderingView { kind: None, call }), replies) == match run(
            Progress::Pending(call),
            replies,
        ) {
            Progress::Pending(call) => Progress::Pending(RenderingView { kind: None, call }),
            Progress::Done(Ok(text)) => Progress::Done(text@),
            Progress::Done(Err(_)) => Progress::Done("<unknown>"@),
        },
{
    lemma_rendering_follows_its_call(None, Progress::Pending(call), replies);
}

/// Whatever the host replies, every request of a rendering is for the interpreter of
/// the value.
pub proof fn law_rendering_keeps_its_interpreter<S>(
    kind: Option<Ruby>,
    value: Value<S>,
    func: Seq<char>,
    replies: Seq<Reply<String>>,
)
    ensures
        run_rendering(
            Progress::Pending(
                RenderingView {
                    kind,
                    call: FuncallView::start(value.interp, value.value, func, Seq::empty(), None),
                },
            ),
            replies,
        ) matches Progress::Pending(rendering) ==> {
            &&& rendering.interp() == value.interp
            &&& rendering.call matches FuncallView::Running(running) ==> running.interp()
                == value.interp
        },
{
    let call = FuncallView::start(value.interp, value.value, func, Seq::empty(), None);
    lemma_rendering_follows_its_call(kind, Progress::Pending(call), replies);
    lemma_call_keeps_to(call, value.interp, replies);
}

/// The text of a value is the text that its method's result converts to, unchanged:
/// a Ruby string whose `to_s` is the string itself reads as what the host converts the
/// string to.
pub proof fn law_rendered_text_is_the_converted_text<S>(
    value: Value<S>,
    func: Seq<char>,
    replies: Seq<Reply<String>>,
    i: int,
    text: String,
)
    requires
        answered(
            Progress::Pending(
                FuncallView::start(value.interp, value.value, func, Seq::empty(), None),
            ),
            replies,
        ),
        0 <= i < replies.len() - 1,
        replies[i] == Reply::<String>::Converted(Ok(text)),
    ensures
        run_rendering(
            Progress::Pending(
                RenderingView {
                    kind: None,
                    call: FuncallView::start(value.interp, value.value, func, Seq::empty(), None),
                },
            ),
            replies,
        ) == Progress::<RenderingView<S>, _>::Done(text@),
{
    reveal_with_fuel(run, 8);
    reveal_with_fuel(answered, 8);
    let call = FuncallView::start(value.interp, value.value, func, Seq::empty(), None);
    law_call_ends(call, replies);
    law_rendering_never_fails(call, replies);
}

/// What is shown for debugging is the name of the value's kind and, in angle
/// brackets, what `inspect` gives after the same replies.
pub proof fn law_debug_wraps_inspect<S>(value: Value<S>, replies: Seq<Reply<String>>)
    ensures
        ({
            let call = FuncallView::start(
                value.interp,
                value.value,
                "inspect"@,
                Seq::empty(),
                None,
            );
            let kind = Some(value.value.kind());
            let inspected = run_rendering(
                Progress::Pending(RenderingView { kind: None, call }),
                replies,
            );
            let debugged = run_rendering(
                Progress::Pending(RenderingView { kind, call }),
                replies,
            );
            match inspected {
                Progress::Pending(rendering) => debugged == Progress::<_, Seq<char>>::Pending(
                    RenderingView { kind, call: rendering.call },
                ),
                Progress::Done(text) => debugged == Progress::<RenderingView<S>, _>::Done(
                    value.value.kind().spec_class_name() + "<"@ + text + ">"@,
                ),
            }
        }),
{
    let call = FuncallView::start(value.interp, value.value, "inspect"@, Seq::empty(), None);
    lemma_rendering_follows_its_call(None, Progress::Pending(call), replies);
    lemma_rendering_follows_its_call(Some(value.value.kind()), Progress::Pending(call), replies);
}

/// An answer moves a question on; anything else leaves it where it is.
pub proof fn law_answers_move_a_question<S>(question: RespondToView<S>, reply: Reply<bool>)
    ensures
        question.request().answered_by(reply) ==> match question.after(reply) {
            Progress::Pending(next) => rank_respond_to(next) < rank_respond_to(question),
            Progress::Done(_) => true,
        },
        !question.request().answered_by(reply) ==> question.after(reply) == Progress::<
            _,
            Result<bool, MrbError>,
        >::Pending(question),
{
}

/// A question ends: it takes no more than twelve answers.
pub proof fn law_question_ends<S>(question: RespondToView<S>, replies: Seq<Reply<bool>>)
    requires
        answered_respond_to(Progress::Pending(question), replies),
    ensures
        replies.len() <= rank_respond_to(question) <= 12,
        replies.len() == rank_respond_to(question) ==> run_respond_to(
            Progress::Pending(question),
            replies,
        ) is Done,
    decreases replies.len(),
{
    reveal_with_fuel(run_respond_to, 2);
    reveal_with_fuel(answered_respond_to, 2);
    if replies.len() > 0 {
        law_answers_move_a_question(question, replies.first());
        match question.after(replies.first()) {
            Progress::Pending(next) => {
                law_question_ends(next, replies.drop_first());
            },
            Progress::Done(_) => {},
        }
    }
}

/// The question whose last call stands where `call` says.
pub open spec fn asking_stands_at<S>(
    call: Progress<FuncallView<S, bool>, Result<bool, MrbError>>,
) -> Progress<RespondToView<S>, Result<bool, MrbError>> {
    match call {
        Progress::Pending(call) => Progress::Pending(RespondToView::Asking { call }),
        Progress::Done(result) => Progress::Done(result),
    }
}

/// A question that is being asked stands where its call stands.
proof fn lemma_asking_follows_its_call<S>(
    start: Progress<FuncallView<S, bool>, Result<bool, MrbError>>,
    replies: Seq<Reply<bool>>,
)
    ensures
        run_respond_to(asking_stands_at(start), replies) == asking_stands_at(run(start, replies)),
    decreases replies.len(),
{
    reveal_with_fuel(run, 2);
    reveal_with_fuel(run_respond_to, 2);
    if replies.len() > 0 {
        match start {
            Progress::Pending(call) => {
                lemma_asking_follows_its_call(call.after(replies.first()), replies.drop_first());
            },
            Progress::Done(_) => {},
        }
    }
}

/// Once the call of `to_sym` is over, the question has what it came to. The replies
/// in `rest` come after those that the call takes.
proof fn lemma_symbolizing_follows_its_call<S>(
    receiver: Value<S>,
    to_sym: CallView<S>,
    replies: Seq<Reply<bool>>,
    rest: Seq<Reply<bool>>,
)
    requires
        answered_call(Progress::Pending(to_sym), replies),
    ensures
        run_call(Progress::Pending(to_sym), replies) matches Progress::Done(symbol)
            ==> run_respond_to(
            Progress::Pending(RespondToView::Symbolizing { receiver, to_sym }),
            replies + rest,
        ) == run_respond_to(
            Progress::Pending(RespondToView::Releasing { receiver, symbol }),
            rest,
        ),
    decreases replies.len(),
{
    reveal_with_fuel(run_call, 2);
    reveal_with_fuel(answered_call, 2);
    if replies.len() > 0 {
        let tail = replies.drop_first();
        assert((replies + rest).first() == replies.first());
        assert((replies + rest).drop_first() == tail + rest);
        match to_sym.after(replies.first()) {
            Progress::Pending(next) => {
                lemma_symbolizing_follows_its_call(receiver, next, tail, rest);
            },
            Progress::Done(_) => {
                assert(tail + rest == rest);
            },
        }
    }
}

/// A question first turns the method's name into a symbol, by a call of `to_sym` on
/// a new string, and releases that call's savepoint. If that fails, the error is the
/// answer and the receiver is not asked. Otherwise the question comes to what a call
/// of `respond_to?` on the receiver with the symbol comes to.
pub proof fn law_question_asks_the_receiver<S>(
    receiver: Value<S>,
    method: Seq<char>,
    name: MrbValue,
    symbolizing: Seq<Reply<bool>>,
    symbol: Result<Value<S>, MrbError>,
    asking: Seq<Reply<bool>>,
)
    requires
        ({
            let to_sym = Progress::Pending(
                CallView::start(receiver.interp, name, "to_sym"@, Seq::empty(), None),
            );
            &&& answered_call(to_sym, symbolizing)
            &&& run_call(to_sym, symbolizing) == Progress::<CallView<S>, _>::Done(symbol)
        }),
    ensures
        run_respond_to(
            Progress::Pending(RespondToView::Naming { receiver, method }),
            seq![Reply::NewString(name)] + symbolizing + seq![Reply::ArenaReleased] + asking,
        ) == match symbol {
            Ok(symbol) => asking_stands_at(
                run(
                    Progress::Pending(
                        FuncallView::start(
                            receiver.interp,
                            receiver.value,
                            "respond_to?"@,
                            seq![symbol.value],
                            None,
                        ),
                    ),
                    asking,
                ),
            ),
            Err(error) => Progress::Done(Err(error)),
        },
{
    reveal_with_fuel(run_respond_to, 2);
    let replies = seq![Reply::NewString(name)] + symbolizing + seq![Reply::ArenaReleased] + asking;
    let rest = seq![Reply::ArenaReleased] + asking;
    assert(replies.drop_first() == symbolizing + rest);
    assert(rest.drop_first() == asking);
    let to_sym = CallView::start(receiver.interp, name, "to_sym"@, Seq::empty(), None);
    lemma_symbolizing_follows_its_call(receiver, to_sym, symbolizing, rest);
    match symbol {
        Ok(symbol) => {
            lemma_asking_follows_its_call(
                Progress::Pending(
                    FuncallView::start(
                        receiver.interp,
                        receiver.value,
                        "respond_to?"@,
                        seq![symbol.value],
                        None,
                    ),
                ),
                asking,
            );
        },
        Err(_) => {},
    }
}

/// Whether none of `values` is internal to the VM.
pub open spec fn all_reachable(values: Seq<MrbValue>) -> bool {
    forall|i: int| 0 <= i < values.len() ==> (#[trigger] values[i]).kind() != Ruby::Unreachable
}

/// Whether nothing internal to the VM is handed on by a question at this point.
spec fn keeps_values_reachable<S>(question: RespondToView<S>) -> bool {
    match question {
        RespondToView::Naming { .. } => true,
        RespondToView::Symbolizing { .. } => true,
        RespondToView::Releasing { symbol, .. } => symbol matches Ok(symbol)
            ==> !symbol.unreachable(),
        RespondToView::Asking { call } => match call {
            FuncallView::Running(CallView::Saving { invocation, .. }) => all_reachable(
                invocation.args,
            ),
            FuncallView::Running(CallView::Invoking { invocation, .. }) => all_reachable(
                invocation.args,
            ),
            FuncallView::Converting(value) => !value.unreachable(),
            _ => true,
        },
    }
}

/// No reply makes a question hand on a value that is internal to the VM.
proof fn lemma_question_keeps_values_reachable<S>(
    question: RespondToView<S>,
    replies: Seq<Reply<bool>>,
)
    requires
        keeps_values_reachable(question),
    ensures
        run_respond_to(Progress::Pending(question), replies) matches Progress::Pending(next)
            ==> keeps_values_reachable(next),
    decreases replies.len(),
{
    reveal_with_fuel(run_respond_to, 2);
    if replies.len() > 0 {
        match question.after(replies.first()) {
            Progress::Pending(next) => {
                lemma_question_keeps_values_reachable(next, replies.drop_first());
            },
            Progress::Done(_) => {},
        }
    }
}

/// Whatever the host replies, a question never asks the receiver with a value that
/// is internal to the VM, and never asks to convert one.
pub proof fn law_question_hands_on_no_unreachable_value<S>(
    receiver: Value<S>,
    method: Seq<char>,
    replies: Seq<Reply<bool>>,
)
    ensures
        run_respond_to(
            Progress::Pending(RespondToView::Naming { receiver, method }),
            replies,
        ) matches Progress::Pending(RespondToView::Asking { call }) ==> {
            &&& call.request() matches RequestView::Protect(invocation) ==> all_reachable(
                invocation.args,
            )
            &&& call.request() matches RequestView::Convert(value) ==> !value.unreachable()
        },
{
    lemma_question_keeps_values_reachable(RespondToView::Naming { receiver, method }, replies);
}

/// Whether a question is in `interp`, with the receiver that it has yet to ask.
spec fn question_keeps_to<S>(question: RespondToView<S>, interp: Mrb<S>) -> bool {
    &&& question.interp() == interp
    &&& question matches RespondToView::Symbolizing { receiver, .. } ==> receiver.interp == interp
}

/// No reply makes a question leave its interpreter.
proof fn lemma_question_keeps_to<S>(
    question: RespondToView<S>,
    interp: Mrb<S>,
    replies: Seq<Reply<bool>>,
)
    requires
        question_keeps_to(question, interp),
    ensures
        run_respond_to(Progress::Pending(question), replies) matches Progress::Pending(next)
            ==> question_keeps_to(next, interp),
    decreases replies.len(),
{
    reveal_with_fuel(run_respond_to, 2);
    if replies.len() > 0 {
        match question.after(replies.first()) {
            Progress::Pending(next) => {
                lemma_question_keeps_to(next, interp, replies.drop_first());
            },
            Progress::Done(_) => {},
        }
    }
}

/// Whatever the host replies, every request of a question is for the interpreter of
/// the receiver: the new string, the call of `to_sym` and the call of `respond_to?`.
pub proof fn law_question_keeps_its_interpreter<S>(
    receiver: Value<S>,
    method: Seq<char>,
    replies: Seq<Reply<bool>>,
)
    ensures
        run_respond_to(
            Progress::Pending(RespondToView::Naming { receiver, method }),
            replies,
        ) matches Progress::Pending(question) ==> {
            &&& question.interp() == receiver.interp
            &&& question matches RespondToView::Symbolizing { to_sym, .. } ==> to_sym.interp()
                == receiver.interp
            &&& question matches RespondToView::Asking { call } ==> call.interp()
                == receiver.interp
        },
{
    lemma_question_keeps_to(
        RespondToView::Naming { receiver, method },
        receiver.interp,
        replies,
    );
}

/// How many savepoints `replies` take more than they release.
pub open spec fn savepoints_held<T>(replies: Seq<Reply<T>>) -> int
    decreases replies.len(),
{
    if replies.len() == 0 {
        0
    } else {
        let first = match replies.first() {
            Reply::ArenaSaved => 1int,
            Reply::ArenaReleased => -1int,
            _ => 0int,
        };
        first + savepoints_held(replies.drop_first())
    }
}

/// How many savepoints a question holds where it stands.
pub open spec fn holds_savepoints<S>(
    progress: Progress<RespondToView<S>, Result<bool, MrbError>>,
) -> int {
    match progress {
        Progress::Pending(RespondToView::Naming { .. }) => 0,
        Progress::Pending(RespondToView::Symbolizing { to_sym: CallView::Saving { .. }, .. }) => 0,
        Progress::Pending(
            RespondToView::Asking { call: FuncallView::Running(CallView::Saving { .. }) },
        ) => 0,
        Progress::Pending(_) => 1,
        Progress::Done(_) => 0,
    }
}

/// A question takes and releases savepoints as its standing says.
proof fn lemma_question_holds_savepoints<S>(
    start: Progress<RespondToView<S>, Result<bool, MrbError>>,
    replies: Seq<Reply<bool>>,
)
    requires
        answered_respond_to(start, replies),
    ensures
        holds_savepoints(start) + savepoints_held(replies) == holds_savepoints(
            run_respond_to(start, replies),
        ),
    decreases replies.len(),
{
    reveal_with_fuel(run_respond_to, 2);
    reveal_with_fuel(answered_respond_to, 2);
    if replies.len() > 0 {
        match start {
            Progress::Pending(question) => {
                lemma_question_holds_savepoints(
                    question.after(replies.first()),
                    replies.drop_first(),
                );
            },
            Progress::Done(_) => {},
        }
    }
}

/// A question holds one savepoint at most, and none when it is over.
pub proof fn law_question_releases_its_savepoints<S>(
    receiver: Value<S>,
    method: Seq<char>,
    replies: Seq<Reply<bool>>,
)
    requires
        answered_respond_to(
            Progress::Pending(RespondToView::Naming { receiver, method }),
            replies,
        ),
    ensures
        0 <= savepoints_held(replies) <= 1,
        run_respond_to(
            Progress::Pending(RespondToView::Naming { receiver, method }),
            replies,
        ) is Done ==> savepoints_held(replies) == 0,
{
    lemma_question_holds_savepoints(
        Progress::Pending(RespondToView::Naming { receiver, method }),
        replies,
    );
}

} // verus!
