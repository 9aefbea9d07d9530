//! What the operations do, told by what a host sees of them: each request, the
//! interpreter that it is for, and the result that the replies lead to.

use crate::call::{CallView, Conversion, FuncallView};
use crate::error::{ConvertError, LastError, MrbError};
use crate::exchange::{Progress, Reply, Request, RequestView};
use crate::liveness::Liveness;
use crate::protect::{ProtectArgs, ProtectArgsWithBlock};
use crate::render::{Rendering, RenderingView};
use crate::respond_to::RespondToView;
use crate::sys::MrbValue;
use crate::types::Ruby;
use crate::value::{Mrb, Value, ValueLike};
use vstd::prelude::*;

verus! {

/// The kind of a value is a matter of its tag, as mruby numbers the tags, whatever the
/// word beside it holds; only `nil` is told from `false` by that word. Each kind but
/// the unreachable one has its own tag, and `true` and `false` have one kind.
pub proof fn law_kind_of_each_tag(value: MrbValue)
    ensures
        value.spec_is_nil() <==> value.tt == 0 && value.payload == 0,
        value.kind() == Ruby::Nil <==> value.tt == 0 && value.payload == 0,
        value.kind() == Ruby::Bool <==> value.tt == 2 || value.tt == 0 && value.payload != 0,
        value.kind() == Ruby::Fixnum <==> value.tt == 3,
        value.kind() == Ruby::Symbol <==> value.tt == 4,
        value.kind() == Ruby::Float <==> value.tt == 6,
        value.kind() == Ruby::CPointer <==> value.tt == 7,
        value.kind() == Ruby::Object <==> value.tt == 8,
        value.kind() == Ruby::Class <==> value.tt == 9,
        value.kind() == Ruby::Module <==> value.tt == 10,
        value.kind() == Ruby::SingletonClass <==> value.tt == 12,
        value.kind() == Ruby::Proc <==> value.tt == 13,
        value.kind() == Ruby::Array <==> value.tt == 14,
        value.kind() == Ruby::Hash <==> value.tt == 15,
        value.kind() == Ruby::String <==> value.tt == 16,
        value.kind() == Ruby::Range <==> value.tt == 17,
        value.kind() == Ruby::Exception <==> value.tt == 18,
        value.kind() == Ruby::File <==> value.tt == 19,
        value.kind() == Ruby::Data <==> value.tt == 21,
        value.kind() == Ruby::Fiber <==> value.tt == 22,
        value.kind() == Ruby::InlineStruct <==> value.tt == 23,
        value.kind() == Ruby::Unreachable <==> {
            ||| value.tt == 1
            ||| value.tt == 5
            ||| value.tt == 11
            ||| value.tt == 20
            ||| value.tt >= 24
        },
{
}

/// The kind that a value converts to is its kind.
pub proof fn law_conversion_to_a_kind(value: MrbValue)
    ensures
        <Ruby as vstd::std_specs::convert::FromSpec<MrbValue>>::obeys_from_spec(),
        <Ruby as vstd::std_specs::convert::FromSpec<MrbValue>>::from_spec(value) == value.kind(),
{
}

/// Two values with one tag have one kind, unless just one of them is `nil`.
pub proof fn law_kind_ignores_the_payload(left: MrbValue, right: MrbValue)
    requires
        left.tt == right.tt,
        left.spec_is_nil() == right.spec_is_nil(),
    ensures
        left.kind() == right.kind(),
        left.spec_is_nil() <==> left.tt == 0 && left.payload == 0,
{
}

/// The name of each kind.
pub proof fn law_name_of_each_kind(kind: Ruby)
    ensures
        kind == Ruby::Array ==> kind.spec_class_name() == "Array"@,
        kind == Ruby::Bool ==> kind.spec_class_name() == "Boolean"@,
        kind == Ruby::CPointer ==> kind.spec_class_name() == "CPointer"@,
        kind == Ruby::Class ==> kind.spec_class_name() == "Class"@,
        kind == Ruby::Data ==> kind.spec_class_name() == "Data"@,
        kind == Ruby::Exception ==> kind.spec_class_name() == "Exception"@,
        kind == Ruby::Fiber ==> kind.spec_class_name() == "Fiber"@,
        kind == Ruby::File ==> kind.spec_class_name() == "File"@,
        kind == Ruby::Fixnum ==> kind.spec_class_name() == "Fixnum"@,
        kind == Ruby::Float ==> kind.spec_class_name() == "Float"@,
        kind == Ruby::Hash ==> kind.spec_class_name() == "Hash"@,
        kind == Ruby::InlineStruct ==> kind.spec_class_name() == "InlineStruct"@,
        kind == Ruby::Module ==> kind.spec_class_name() == "Module"@,
        kind == Ruby::Nil ==> kind.spec_class_name() == "NilClass"@,
        kind == Ruby::Object ==> kind.spec_class_name() == "Object"@,
        kind == Ruby::Proc ==> kind.spec_class_name() == "Proc"@,
        kind == Ruby::Range ==> kind.spec_class_name() == "Range"@,
        kind == Ruby::SingletonClass ==> kind.spec_class_name() == "SingletonClass"@,
        kind == Ruby::String ==> kind.spec_class_name() == "String"@,
        kind == Ruby::Symbol ==> kind.spec_class_name() == "Symbol"@,
        kind == Ruby::Unreachable ==> kind.spec_class_name() == "Unreachable"@,
{
}

/// A value stands for itself: its methods are called on it, in its interpreter.
pub proof fn law_value_stands_for_itself<S>(value: Value<S>)
    ensures
        value.raw() == value.value,
        value.handle() == value.interp,
        value.unreachable() <==> {
            ||| value.value.tt == 1
            ||| value.value.tt == 5
            ||| value.value.tt == 11
            ||| value.value.tt == 20
            ||| value.value.tt >= 24
        },
{
}

/// What a call is seen as is what its fields hold: nothing is left out, and the
/// arguments are in their order.
pub proof fn law_call_is_seen_as_it_is(plain: ProtectArgs, with_block: ProtectArgsWithBlock)
    ensures
        plain@.slf == plain.slf,
        plain@.func == plain.func@,
        plain@.args == plain.args@,
        plain@.block is None,
        with_block@.slf == with_block.slf,
        with_block@.func == with_block.func@,
        with_block@.args == with_block.args@,
        with_block@.block == Some(with_block.block),
{
}

/// What a request is seen as is what the host reads in it.
pub proof fn law_request_is_seen_as_it_is<'a, S>(request: Request<'a, S>)
    ensures
        match request {
            Request::NewString(text) => request@ == RequestView::<S>::NewString(text@),
            Request::SaveArena => request@ == RequestView::<S>::SaveArena,
            Request::Protect(call) => request@ matches RequestView::Protect(seen) && {
                &&& seen.slf == call.slf
                &&& seen.func == call.func@
                &&& seen.args == call.args@
                &&& seen.block is None
            },
            Request::ProtectWithBlock(call) => request@ matches RequestView::Protect(seen) && {
                &&& seen.slf == call.slf
                &&& seen.func == call.func@
                &&& seen.args == call.args@
                &&& seen.block == Some(call.block)
            },
            Request::SetException(exception) => request@ == RequestView::<S>::SetException(
                exception,
            ),
            Request::LastError => request@ == RequestView::<S>::LastError,
            Request::Convert(value) => request@ == RequestView::Convert(*value),
            Request::ReleaseArena => request@ == RequestView::<S>::ReleaseArena,
            Request::IsDead(value) => request@ == RequestView::<S>::IsDead(value),
        },
{
}

/// What progress is seen as tells a pending operation from one that is over, and shows
/// the result as it is.
pub proof fn law_progress_is_seen_as_it_is<M: View, O>(progress: Progress<M, O>)
    ensures
        match progress {
            Progress::Pending(machine) => progress@ == Progress::<M::V, O>::Pending(machine@),
            Progress::Done(output) => progress@ == Progress::<M::V, O>::Done(output),
        },
{
}

/// What the progress of a rendering is seen as shows the text as it is.
pub proof fn law_rendering_is_seen_as_it_is<S>(progress: Progress<Rendering<S>, String>)
    ensures
        match progress {
            Progress::Pending(rendering) => crate::render::rendering_view(progress)
                == Progress::<RenderingView<S>, Seq<char>>::Pending(rendering@),
            Progress::Done(text) => crate::render::rendering_view(progress) == Progress::<
                RenderingView<S>,
                Seq<char>,
            >::Done(text@),
        },
{
}

/// The argument count that C is given is the number of arguments, for every number
/// that C can be given.
pub proof fn law_argument_count(len: nat)
    ensures
        len <= 0x7fff_ffff_ffff_ffff ==> crate::protect::spec_argc(len) == len,
        len > 0x7fff_ffff_ffff_ffff ==> crate::protect::spec_argc(len) == 0,
{
}

/// A call with up to sixteen values as arguments hands the VM those values: as many,
/// and each in its place. A call with more is refused with both numbers.
pub proof fn law_arguments_reach_the_vm<S, T>(
    interp: Mrb<S>,
    slf: MrbValue,
    func: Seq<char>,
    args: Seq<Value<S>>,
    block: Option<MrbValue>,
)
    requires
        args.len() <= usize::MAX,
    ensures
        ({
            let start = crate::value::spec_funcall::<S, T>(
                interp,
                slf,
                func,
                crate::value::raw_values(args),
                block,
            );
            match start {
                Progress::Pending(saving) => {
                    &&& args.len() <= 16
                    &&& saving.request() == RequestView::<S>::SaveArena
                    &&& saving.after(Reply::ArenaSaved) matches Progress::Pending(invoking)
                    &&& invoking.request() matches RequestView::Protect(invocation)
                    &&& invocation.slf == slf
                    &&& invocation.func == func
                    &&& invocation.block == block
                    &&& invocation.args.len() == args.len()
                    &&& forall|i: int|
                        0 <= i < args.len() ==> #[trigger] invocation.args[i] == args[i].value
                },
                Progress::Done(result) => {
                    &&& args.len() > 16
                    &&& result matches Err(MrbError::TooManyArgs { given, max })
                    &&& given == args.len()
                    &&& max == 16
                },
            }
        }),
{
}

/// A call of values starts as the call of what they are in C does, which
/// [`law_call_conversation`] follows to its end.
pub proof fn law_funcall_starts_the_call<S, T>(
    interp: Mrb<S>,
    slf: MrbValue,
    func: Seq<char>,
    args: Seq<Value<S>>,
    block: Option<MrbValue>,
)
    requires
        args.len() <= 16,
    ensures
        crate::value::spec_funcall::<S, T>(
            interp,
            slf,
            func,
            crate::value::raw_values(args),
            block,
        ) == Progress::<_, Result<T, MrbError>>::Pending(
            FuncallView::<S, T>::start(
                interp,
                slf,
                func,
                Seq::new(args.len(), |i: int| args[i].value),
                block,
            ),
        ),
{
    assert(crate::value::raw_values(args) == Seq::new(args.len(), |i: int| args[i].value));
}

/// The whole conversation of a call. All of it is with the receiver's interpreter: a
/// savepoint; the call, exactly as it was given; the exception, if one ended the call;
/// the exception that the VM then holds; the conversion of the value that the call
/// left, unless there is an error; the release of the savepoint; the result.
pub proof fn law_call_conversation<S, T>(
    interp: Mrb<S>,
    slf: MrbValue,
    func: Seq<char>,
    args: Seq<MrbValue>,
    block: Option<MrbValue>,
    value: MrbValue,
    state: u8,
    last_error: LastError,
    conversion: Result<T, ConvertError>,
)
    ensures
        ({
            let saving = FuncallView::<S, T>::start(interp, slf, func, args, block);
            let error = match last_error {
                LastError::Exception(text) => Some(MrbError::Exec(text)),
                LastError::UnableToExtract(error) => Some(error),
                LastError::Clear => if value.tt == 1 || value.tt == 5 || value.tt == 11 || value.tt
                    == 20 || value.tt >= 24 {
                    Some(MrbError::UnreachableValue(value.tt))
                } else {
                    None
                },
            };
            &&& saving.interp() == interp
            &&& saving.request() == RequestView::<S>::SaveArena
            &&& saving.after(Reply::ArenaSaved) matches Progress::Pending(invoking) && {
                &&& invoking.interp() == interp
                &&& invoking.request() matches RequestView::Protect(invocation) && {
                    &&& invocation.slf == slf
                    &&& invocation.func == func
                    &&& invocation.args == args
                    &&& invocation.block == block
                }
                &&& invoking.after(Reply::Protected { value, state }) matches Progress::Pending(
                    left,
                ) && {
                    &&& left.interp() == interp
                    &&& state != 0 ==> left.request() == RequestView::<S>::SetException(value)
                    &&& (if state != 0 {
                        left.after(Reply::ExceptionSet)
                    } else {
                        Progress::Pending(left)
                    }) matches Progress::Pending(checking) && {
                        &&& checking.interp() == interp
                        &&& checking.request() == RequestView::<S>::LastError
                        &&& checking.after(Reply::LastError(last_error)) matches Progress::Pending(
                            checked,
                        ) && {
                            &&& checked.interp() == interp
                            &&& match error {
                                Some(error) => {
                                    &&& checked.request() == RequestView::<S>::ReleaseArena
                                    &&& checked.after(Reply::ArenaReleased) == Progress::<
                                        FuncallView<S, T>,
                                        Result<T, MrbError>,
                                    >::Done(Err(error))
                                },
                                None => {
                                    &&& checked.request() == RequestView::Convert(
                                        Value { interp, value },
                                    )
                                    &&& checked.after(Reply::Converted(conversion))
                                        matches Progress::Pending(releasing) && {
                                        &&& releasing.interp() == interp
                                        &&& releasing.request() == RequestView::<S>::ReleaseArena
                                        &&& releasing.after(Reply::ArenaReleased) == Progress::<
                                            FuncallView<S, T>,
                                            Result<T, MrbError>,
                                        >::Done(
                                            match conversion {
                                                Ok(output) => Ok(output),
                                                Err(error) => Err(MrbError::ConvertToRust(error)),
                                            },
                                        )
                                    }
                                },
                            }
                        }
                    }
                }
            }
        }),
{
}

/// The conversation of a call up to the value that it returns: that of any call, until
/// the exception that the VM holds and the value's tag have decided.
pub proof fn law_bare_call_conversation<S, T>(
    interp: Mrb<S>,
    slf: MrbValue,
    func: Seq<char>,
    args: Seq<MrbValue>,
    block: Option<MrbValue>,
    value: MrbValue,
    state: u8,
    last_error: LastError,
)
    ensures
        ({
            let saving = CallView::start(interp, slf, func, args, block);
            let result = match last_error {
                LastError::Exception(text) => Err(MrbError::Exec(text)),
                LastError::UnableToExtract(error) => Err(error),
                LastError::Clear => if value.tt == 1 || value.tt == 5 || value.tt == 11 || value.tt
                    == 20 || value.tt >= 24 {
                    Err(MrbError::UnreachableValue(value.tt))
                } else {
                    Ok(Value { interp, value })
                },
            };
            &&& saving.interp() == interp
            &&& saving.request() == RequestView::<S>::SaveArena
            &&& saving.after(Reply::<T>::ArenaSaved) matches Progress::Pending(invoking) && {
                &&& invoking.interp() == interp
                &&& invoking.request() matches RequestView::Protect(invocation) && {
                    &&& invocation.slf == slf
                    &&& invocation.func == func
                    &&& invocation.args == args
                    &&& invocation.block == block
                }
                &&& invoking.after(Reply::<T>::Protected { value, state })
                    matches Progress::Pending(left) && {
                    &&& left.interp() == interp
                    &&& state != 0 ==> left.request() == RequestView::<S>::SetException(value)
                    &&& (if state != 0 {
                        left.after(Reply::<T>::ExceptionSet)
                    } else {
                        Progress::Pending(left)
                    }) matches Progress::Pending(checking) && {
                        &&& checking.interp() == interp
                        &&& checking.request() == RequestView::<S>::LastError
                        &&& checking.after(Reply::<T>::LastError(last_error)) == Progress::<
                            CallView<S>,
                            _,
                        >::Done(result)
                    }
                }
            }
        }),
{
}

/// The whole conversation of a call for a value that the library converts. It is that
/// of any call, without the conversion: the value that the VM left, in the receiver's
/// interpreter, is the result, unless there is an error.
pub proof fn law_value_call_conversation<S>(
    interp: Mrb<S>,
    slf: MrbValue,
    func: Seq<char>,
    args: Seq<MrbValue>,
    block: Option<MrbValue>,
    value: MrbValue,
    state: u8,
    last_error: LastError,
)
    ensures
        ({
            let saving = FuncallView::<S, Value<S>>::start(interp, slf, func, args, block);
            let result = match last_error {
                LastError::Exception(text) => Err(MrbError::Exec(text)),
                LastError::UnableToExtract(error) => Err(error),
                LastError::Clear => if value.tt == 1 || value.tt == 5 || value.tt == 11 || value.tt
                    == 20 || value.tt >= 24 {
                    Err(MrbError::UnreachableValue(value.tt))
                } else {
                    Ok(Value { interp, value })
                },
            };
            &&& saving.request() == RequestView::<S>::SaveArena
            &&& saving.after_to_value(Reply::ArenaSaved) matches Progress::Pending(invoking) && {
                &&& invoking.interp() == interp
                &&& invoking.request() matches RequestView::Protect(invocation) && {
                    &&& invocation.slf == slf
                    &&& invocation.func == func
                    &&& invocation.args == args
                    &&& invocation.block == block
                }
                &&& invoking.after_to_value(Reply::Protected { value, state })
                    matches Progress::Pending(left) && {
                    &&& left.interp() == interp
                    &&& state != 0 ==> left.request() == RequestView::<S>::SetException(value)
                    &&& (if state != 0 {
                        left.after_to_value(Reply::ExceptionSet)
                    } else {
                        Progress::Pending(left)
                    }) matches Progress::Pending(checking) && {
                        &&& checking.interp() == interp
                        &&& checking.request() == RequestView::<S>::LastError
                        &&& checking.after_to_value(Reply::LastError(last_error))
                            matches Progress::Pending(releasing) && {
                            &&& releasing.interp() == interp
                            &&& releasing.request() == RequestView::<S>::ReleaseArena
                            &&& releasing.after_to_value(Reply::ArenaReleased) == Progress::<
                                FuncallView<S, Value<S>>,
                                _,
                            >::Done(result)
                        }
                    }
                }
            }
        }),
{
}

/// Whether each of `replies` answers the request that a call for a value waits for when
/// the reply comes, from `start` on.
pub open spec fn answered_to_value<S>(
    start: Progress<FuncallView<S, Value<S>>, Result<Value<S>, MrbError>>,
    replies: Seq<Reply<Value<S>>>,
) -> bool
    decreases replies.len(),
{
    replies.len() == 0 || match start {
        Progress::Pending(call) => {
            &&& call.request().answered_by(replies.first())
            &&& answered_to_value(call.after_to_value(replies.first()), replies.drop_first())
        },
        Progress::Done(_) => false,
    }
}

/// If a call for a value that the library converts comes to a value, it is the value
/// that the VM left, in the interpreter of the receiver, and the VM held no exception.
/// Conversely, a reachable value that the VM left without an exception is what the call
/// comes to.
pub proof fn law_value_call_gives_what_the_vm_left<S>(
    interp: Mrb<S>,
    slf: MrbValue,
    func: Seq<char>,
    args: Seq<MrbValue>,
    block: Option<MrbValue>,
    replies: Seq<Reply<Value<S>>>,
    result: Result<Value<S>, MrbError>,
)
    requires
        ({
            let start = Progress::Pending(FuncallView::start(interp, slf, func, args, block));
            &&& answered_to_value(start, replies)
            &&& crate::laws::run_to_value(start, replies) == Progress::<
                FuncallView<S, Value<S>>,
                _,
            >::Done(result)
        }),
    ensures
        replies.len() >= 4,
        replies[1] matches Reply::Protected { value: raw, .. } && {
            &&& result matches Ok(value) ==> {
                &&& value.value == raw
                &&& value.interp == interp
                &&& replies[replies.len() - 2] == Reply::<Value<S>>::LastError(LastError::Clear)
            }
            &&& replies[replies.len() - 2] == Reply::<Value<S>>::LastError(LastError::Clear) && !(
            raw.tt == 1 || raw.tt == 5 || raw.tt == 11 || raw.tt == 20 || raw.tt >= 24)
                ==> result == Ok::<_, MrbError>(Value { interp, value: raw })
        },
{
    reveal_with_fuel(crate::laws::run_to_value, 7);
    reveal_with_fuel(answered_to_value, 7);
}

/// The whole conversation of a rendering. It is that of a call of the rendering's
/// method, with the value's interpreter and without arguments; what the result
/// converts to is the text, and `<unknown>` stands in for every error. The name of a
/// kind, if there is one, goes around either.
pub proof fn law_rendering_conversation<S>(
    kind: Option<Ruby>,
    receiver: Value<S>,
    func: Seq<char>,
    value: MrbValue,
    state: u8,
    last_error: LastError,
    conversion: Result<String, ConvertError>,
)
    ensures
        ({
            let saving = RenderingView {
                kind,
                call: FuncallView::start(
                    receiver.interp,
                    receiver.value,
                    func,
                    Seq::empty(),
                    None,
                ),
            };
            let failed = !(last_error is Clear) || value.tt == 1 || value.tt == 5 || value.tt == 11
                || value.tt == 20 || value.tt >= 24;
            let text = match conversion {
                Ok(text) if !failed => text@,
                _ => "<unknown>"@,
            };
            let rendered = match kind {
                Some(kind) => kind.spec_class_name() + "<"@ + text + ">"@,
                None => text,
            };
            &&& saving.interp() == receiver.interp
            &&& saving.request() == RequestView::<S>::SaveArena
            &&& saving.after(Reply::ArenaSaved) matches Progress::Pending(invoking) && {
                &&& invoking.interp() == receiver.interp
                &&& invoking.request() matches RequestView::Protect(invocation) && {
                    &&& invocation.slf == receiver.value
                    &&& invocation.func == func
                    &&& invocation.args == Seq::<MrbValue>::empty()
                    &&& invocation.block is None
                }
                &&& invoking.after(Reply::Protected { value, state }) matches Progress::Pending(
                    left,
                ) && {
                    &&& left.interp() == receiver.interp
                    &&& state != 0 ==> left.request() == RequestView::<S>::SetException(value)
                    &&& (if state != 0 {
                        left.after(Reply::ExceptionSet)
                    } else {
                        Progress::Pending(left)
                    }) matches Progress::Pending(checking) && {
                        &&& checking.interp() == receiver.interp
                        &&& checking.request() == RequestView::<S>::LastError
                        &&& checking.after(Reply::LastError(last_error)) matches Progress::Pending(
                            checked,
                        ) && {
                            &&& checked.interp() == receiver.interp
                            &&& !failed ==> checked.request() == RequestView::Convert(
                                Value { interp: receiver.interp, value },
                            )
                            &&& (if failed {
                                Progress::Pending(checked)
                            } else {
                                checked.after(Reply::Converted(conversion))
                            }) matches Progress::Pending(releasing) && {
                                &&& releasing.interp() == receiver.interp
                                &&& releasing.request() == RequestView::<S>::ReleaseArena
                                &&& releasing.after(Reply::ArenaReleased) == Progress::<
                                    RenderingView<S>,
                                    _,
                                >::Done(rendered)
                            }
                        }
                    }
                }
            }
        }),
{
}

/// The text of a rendering, from the result of its call: for all texts, errors and
/// kinds.
pub proof fn law_rendered_text(kind: Ruby, text: String, error: MrbError)
    ensures
        crate::render::spec_text_or_unknown(Ok(text)) == text@,
        crate::render::spec_text_or_unknown(Err(error)) == "<unknown>"@,
        crate::render::spec_labelled(None, text@) == text@,
        crate::render::spec_labelled(Some(kind), text@) == kind.spec_class_name() + "<"@ + text@
            + ">"@,
{
}

/// The first half of a question's conversation, with the receiver's interpreter: a new
/// string with the method's name; a call of `to_sym` on that string, without arguments,
/// between a savepoint and its release. An error there is the answer. Otherwise the
/// receiver is asked, as [`law_question_asks_respond_to`] says, with what the call left.
pub proof fn law_question_calls_to_sym<S>(
    receiver: Value<S>,
    method: Seq<char>,
    name: MrbValue,
    value: MrbValue,
    state: u8,
    last_error: LastError,
)
    ensures
        ({
            let naming = RespondToView::Naming { receiver, method };
            let error = match last_error {
                LastError::Exception(text) => Some(MrbError::Exec(text)),
                LastError::UnableToExtract(error) => Some(error),
                LastError::Clear => if value.tt == 1 || value.tt == 5 || value.tt == 11 || value.tt
                    == 20 || value.tt >= 24 {
                    Some(MrbError::UnreachableValue(value.tt))
                } else {
                    None
                },
            };
            &&& naming.interp() == receiver.interp
            &&& naming.request() == RequestView::<S>::NewString(method)
            &&& naming.after(Reply::NewString(name)) matches Progress::Pending(saving) && {
                &&& saving.interp() == receiver.interp
                &&& saving.request() == RequestView::<S>::SaveArena
                &&& saving.after(Reply::ArenaSaved) matches Progress::Pending(invoking) && {
                    &&& invoking.interp() == receiver.interp
                    &&& invoking.request() matches RequestView::Protect(invocation) && {
                        &&& invocation.slf == name
                        &&& invocation.func == "to_sym"@
                        &&& invocation.args == Seq::<MrbValue>::empty()
                        &&& invocation.block is None
                    }
                    &&& invoking.after(Reply::Protected { value, state })
                        matches Progress::Pending(left) && {
                        &&& left.interp() == receiver.interp
                        &&& state != 0 ==> left.request() == RequestView::<S>::SetException(value)
                        &&& (if state != 0 {
                            left.after(Reply::ExceptionSet)
                        } else {
                            Progress::Pending(left)
                        }) matches Progress::Pending(checking) && {
                            &&& checking.interp() == receiver.interp
                            &&& checking.request() == RequestView::<S>::LastError
                            &&& checking.after(Reply::LastError(last_error))
                                matches Progress::Pending(releasing) && {
                                &&& releasing.interp() == receiver.interp
                                &&& releasing.request() == RequestView::<S>::ReleaseArena
                                &&& match error {
                                    Some(error) => releasing.after(Reply::ArenaReleased)
                                        == Progress::<
                                        RespondToView<S>,
                                        Result<bool, MrbError>,
                                    >::Done(Err(error)),
                                    None => releasing.after(Reply::ArenaReleased) == Progress::<
                                        _,
                                        Result<bool, MrbError>,
                                    >::Pending(
                                        RespondToView::asking(
                                            receiver,
                                            Value { interp: receiver.interp, value },
                                        ),
                                    ),
                                }
                            }
                        }
                    }
                }
            }
        }),
{
}

/// The second half of a question's conversation, with the receiver's interpreter: a
/// call of `respond_to?` on the receiver with the symbol as its one argument, between a
/// savepoint and its release, whose result is the answer.
pub proof fn law_question_asks_respond_to<S>(
    receiver: Value<S>,
    symbol: Value<S>,
    value: MrbValue,
    state: u8,
    last_error: LastError,
    conversion: Result<bool, ConvertError>,
)
    ensures
        ({
            let saving = RespondToView::asking(receiver, symbol);
            let error = match last_error {
                LastError::Exception(text) => Some(MrbError::Exec(text)),
                LastError::UnableToExtract(error) => Some(error),
                LastError::Clear => if value.tt == 1 || value.tt == 5 || value.tt == 11 || value.tt
                    == 20 || value.tt >= 24 {
                    Some(MrbError::UnreachableValue(value.tt))
                } else {
                    None
                },
            };
            let answer: Result<bool, MrbError> = match error {
                Some(error) => Err(error),
                None => match conversion {
                    Ok(answer) => Ok(answer),
                    Err(error) => Err(MrbError::ConvertToRust(error)),
                },
            };
            &&& saving.interp() == receiver.interp
            &&& saving.request() == RequestView::<S>::SaveArena
            &&& saving.after(Reply::ArenaSaved) matches Progress::Pending(invoking) && {
                &&& invoking.interp() == receiver.interp
                &&& invoking.request() matches RequestView::Protect(invocation) && {
                    &&& invocation.slf == receiver.value
                    &&& invocation.func == "respond_to?"@
                    &&& invocation.args.len() == 1
                    &&& invocation.args[0] == symbol.value
                    &&& invocation.block is None
                }
                &&& invoking.after(Reply::Protected { value, state }) matches Progress::Pending(
                    left,
                ) && {
                    &&& left.interp() == receiver.interp
                    &&& state != 0 ==> left.request() == RequestView::<S>::SetException(value)
                    &&& (if state != 0 {
                        left.after(Reply::ExceptionSet)
                    } else {
                        Progress::Pending(left)
                    }) matches Progress::Pending(checking) && {
                        &&& checking.interp() == receiver.interp
                        &&& checking.request() == RequestView::<S>::LastError
                        &&& checking.after(Reply::LastError(last_error)) matches Progress::Pending(
                            checked,
                        ) && {
                            &&& checked.interp() == receiver.interp
                            &&& error is None ==> checked.request() == RequestView::Convert(
                                Value { interp: receiver.interp, value },
                            )
                            &&& (if error is Some {
                                Progress::Pending(checked)
                            } else {
                                checked.after(Reply::Converted(conversion))
                            }) matches Progress::Pending(releasing) && {
                                &&& releasing.interp() == receiver.interp
                                &&& releasing.request() == RequestView::<S>::ReleaseArena
                                &&& releasing.after(Reply::ArenaReleased) == Progress::<
                                    RespondToView<S>,
                                    _,
                                >::Done(answer)
                            }
                        }
                    }
                }
            }
        }),
{
}

/// The conversion of a value asks for the conversion of that very value, and comes to
/// what the host makes of it.
pub proof fn law_conversion_conversation<S, T>(
    value: Value<S>,
    output: T,
    error: ConvertError,
)
    ensures
        (Conversion { value }).spec_request() == RequestView::Convert(value),
        (Conversion { value }).after(Reply::Converted(Ok::<T, _>(output))) == Progress::<
            Conversion<S>,
            _,
        >::Done(Ok::<T, MrbError>(output)),
        (Conversion { value }).after(Reply::Converted(Err::<T, _>(error))) == Progress::<
            Conversion<S>,
            _,
        >::Done(Err::<T, _>(MrbError::ConvertToRust(error))),
{
}

/// The question whether a value is dead is asked of that very value, and the answer of
/// the garbage collector is the result, whatever the value is.
pub proof fn law_liveness_conversation<S, T>(value: Value<S>, dead: bool)
    ensures
        (Liveness { value }).spec_request() == RequestView::<S>::IsDead(value.value),
        (Liveness { value }).after(Reply::<T>::Dead(dead)) == Progress::<Liveness<S>, _>::Done(
            dead,
        ),
{
}

/// What a value that a call left is worth: an exception first, then whether the tag may
/// leave the VM.
pub proof fn law_checked_value<S>(value: Value<S>, text: String, error: MrbError)
    ensures
        value.spec_checked(LastError::Exception(text)) == Err::<Value<S>, _>(MrbError::Exec(text)),
        value.spec_checked(LastError::UnableToExtract(error)) == Err::<Value<S>, _>(error),
        ({
            let tt = value.value.tt;
            if tt == 1 || tt == 5 || tt == 11 || tt == 20 || tt >= 24 {
                value.spec_checked(LastError::Clear) == Err::<Value<S>, _>(
                    MrbError::UnreachableValue(tt),
                )
            } else {
                value.spec_checked(LastError::Clear) == Ok::<_, MrbError>(value)
            }
        }),
{
}

/// What a host makes of a value is what an operation hands on.
pub proof fn law_converted<T>(output: T, error: ConvertError)
    ensures
        crate::call::spec_converted(Ok::<T, _>(output)) == Ok::<T, MrbError>(output),
        crate::call::spec_converted(Err::<T, _>(error)) == Err::<T, _>(
            MrbError::ConvertToRust(error),
        ),
{
}

/// A reply that does not answer what a call waits for leaves the call as it is, also
/// one for a value that the library converts.
pub proof fn law_other_replies_leave_a_call<S, T>(
    call: FuncallView<S, T>,
    reply: Reply<T>,
    value_call: FuncallView<S, Value<S>>,
    value_reply: Reply<Value<S>>,
)
    requires
        !(value_call is Converting),
    ensures
        call.after(reply) == Progress::<_, Result<T, MrbError>>::Pending(call)
            || match call.request() {
            RequestView::SaveArena => reply is ArenaSaved,
            RequestView::Protect(_) => reply is Protected,
            RequestView::SetException(_) => reply is ExceptionSet,
            RequestView::LastError => reply is LastError,
            RequestView::Convert(_) => reply is Converted,
            RequestView::ReleaseArena => reply is ArenaReleased,
            _ => false,
        },
        value_call.after_to_value(value_reply) == Progress::<
            _,
            Result<Value<S>, MrbError>,
        >::Pending(value_call) || match value_call.request() {
            RequestView::SaveArena => value_reply is ArenaSaved,
            RequestView::Protect(_) => value_reply is Protected,
            RequestView::SetException(_) => value_reply is ExceptionSet,
            RequestView::LastError => value_reply is LastError,
            RequestView::ReleaseArena => value_reply is ArenaReleased,
            _ => false,
        },
{
}

/// A reply that does not answer what a rendering, a question, a conversion or a liveness
/// question waits for leaves it as it is.
pub proof fn law_other_replies_leave_an_operation<S, T>(
    rendering: RenderingView<S>,
    text: Reply<String>,
    question: RespondToView<S>,
    answer: Reply<bool>,
    conversion: Conversion<S>,
    liveness: Liveness<S>,
    reply: Reply<T>,
)
    ensures
        rendering.after(text) == Progress::<_, Seq<char>>::Pending(rendering)
            || match rendering.request() {
            RequestView::SaveArena => text is ArenaSaved,
            RequestView::Protect(_) => text is Protected,
            RequestView::SetException(_) => text is ExceptionSet,
            RequestView::LastError => text is LastError,
            RequestView::Convert(_) => text is Converted,
            RequestView::ReleaseArena => text is ArenaReleased,
            _ => false,
        },
        question.after(answer) == Progress::<_, Result<bool, MrbError>>::Pending(question)
            || match question.request() {
            RequestView::NewString(_) => answer is NewString,
            RequestView::SaveArena => answer is ArenaSaved,
            RequestView::Protect(_) => answer is Protected,
            RequestView::SetException(_) => answer is ExceptionSet,
            RequestView::LastError => answer is LastError,
            RequestView::Convert(_) => answer is Converted,
            RequestView::ReleaseArena => answer is ArenaReleased,
            RequestView::IsDead(_) => false,
        },
        !(reply is Converted) ==> conversion.after(reply) == Progress::<
            _,
            Result<T, MrbError>,
        >::Pending(conversion),
        !(reply is Dead) ==> liveness.after(reply) == Progress::<_, bool>::Pending(liveness),
{
}

} // verus!
