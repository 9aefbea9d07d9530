//! Operations on values, run against a small in-memory virtual machine.

use mruby::call::{Conversion, Funcall};
use mruby::error::{ConvertError, LastError, MrbError};
use mruby::exchange::{Progress, Reply, Request};
use mruby::liveness::Liveness;
use mruby::protect::{ProtectArgs, MRB_FUNCALL_ARGC_MAX};
use mruby::render::Rendering;
use mruby::respond_to::RespondTo;
use mruby::sys::{
    MrbValue, MRB_TT_ARRAY, MRB_TT_EXCEPTION, MRB_TT_FALSE, MRB_TT_FIXNUM, MRB_TT_STRING,
    MRB_TT_SYMBOL, MRB_TT_TRUE, MRB_TT_UNDEF,
};
use mruby::types::Ruby;
use mruby::value::{Value, ValueLike};
use std::cell::{Cell, RefCell};
use std::rc::Rc;

/// An object on the heap of the virtual machine.
enum Object {
    Text(String),
    Symbol(String),
    List(Vec<MrbValue>),
    Exception(String),
}

/// A virtual machine that knows a few methods of a few classes.
struct Vm {
    heap: RefCell<Vec<Object>>,
    exc: RefCell<Option<String>>,
    /// What `last_error` says in place of the truth, if anything.
    unreadable: Cell<bool>,
    /// The objects that the garbage collector keeps because they are recent.
    arena: RefCell<Vec<usize>>,
    /// The savepoints of the arena that are held.
    savepoints: RefCell<Vec<usize>>,
    /// The object that the last evaluation gave.
    last: Cell<Option<usize>>,
    /// The objects that the garbage collector has freed.
    freed: RefCell<Vec<usize>>,
    /// The work that was asked for, in order.
    asked: RefCell<Vec<String>>,
}

struct Interpreter {
    vm: Rc<Vm>,
}

/// A Rust type that values convert to.
trait FromVm: Sized {
    fn from_vm(vm: &Vm, value: MrbValue) -> Result<Self, ConvertError>;
}

fn convert_error(value: MrbValue, to: &str) -> ConvertError {
    ConvertError { from: Ruby::from(value), to: to.to_owned() }
}

impl FromVm for bool {
    fn from_vm(_vm: &Vm, value: MrbValue) -> Result<Self, ConvertError> {
        match Ruby::from(value) {
            Ruby::Bool => Ok(value.tt == MRB_TT_TRUE),
            _ => Err(convert_error(value, "bool")),
        }
    }
}

impl FromVm for i64 {
    fn from_vm(_vm: &Vm, value: MrbValue) -> Result<Self, ConvertError> {
        match Ruby::from(value) {
            Ruby::Fixnum => Ok(value.payload as i64),
            _ => Err(convert_error(value, "i64")),
        }
    }
}

impl FromVm for String {
    fn from_vm(vm: &Vm, value: MrbValue) -> Result<Self, ConvertError> {
        vm.text(value).ok_or_else(|| convert_error(value, "String"))
    }
}

/// The C representation of a value, which a value converts to unchanged.
#[derive(Debug, PartialEq)]
struct Raw(MrbValue);

impl FromVm for Raw {
    fn from_vm(_vm: &Vm, value: MrbValue) -> Result<Self, ConvertError> {
        Ok(Raw(value))
    }
}

impl FromVm for Val {
    fn from_vm(_vm: &Vm, _value: MrbValue) -> Result<Self, ConvertError> {
        panic!("the library converts values to values");
    }
}

impl FromVm for Vec<String> {
    fn from_vm(vm: &Vm, value: MrbValue) -> Result<Self, ConvertError> {
        if value.tt != MRB_TT_ARRAY {
            return Err(convert_error(value, "Vec<String>"));
        }
        let items = match &vm.heap.borrow()[value.payload as usize] {
            Object::List(items) => items.clone(),
            _ => Vec::new(),
        };
        items.into_iter().map(|item| String::from_vm(vm, item)).collect()
    }
}

const NIL: MrbValue = MrbValue { tt: MRB_TT_FALSE, payload: 0 };
const FALSE: MrbValue = MrbValue { tt: MRB_TT_FALSE, payload: 1 };
const TRUE: MrbValue = MrbValue { tt: MRB_TT_TRUE, payload: 1 };

fn truth(b: bool) -> MrbValue {
    if b {
        TRUE
    } else {
        FALSE
    }
}

impl Vm {
    fn allocate(&self, tt: u32, object: Object) -> MrbValue {
        let mut heap = self.heap.borrow_mut();
        heap.push(object);
        self.arena.borrow_mut().push(heap.len() - 1);
        MrbValue { tt, payload: (heap.len() - 1) as u64 }
    }

    fn string(&self, text: &str) -> MrbValue {
        self.allocate(MRB_TT_STRING, Object::Text(text.to_owned()))
    }

    fn text(&self, value: MrbValue) -> Option<String> {
        if value.tt != MRB_TT_STRING {
            return None;
        }
        match &self.heap.borrow()[value.payload as usize] {
            Object::Text(text) => Some(text.clone()),
            _ => None,
        }
    }

    fn symbol(&self, value: MrbValue) -> Option<String> {
        if value.tt != MRB_TT_SYMBOL {
            return None;
        }
        match &self.heap.borrow()[value.payload as usize] {
            Object::Symbol(name) => Some(name.clone()),
            _ => None,
        }
    }

    fn on_heap(value: MrbValue) -> Option<usize> {
        match Ruby::from(value) {
            Ruby::Nil | Ruby::Bool | Ruby::Fixnum | Ruby::Unreachable => None,
            _ => Some(value.payload as usize),
        }
    }

    fn full_gc(&self) {
        for object in 0..self.heap.borrow().len() {
            let kept = self.arena.borrow().contains(&object) || self.last.get() == Some(object);
            if !kept {
                self.freed.borrow_mut().push(object);
            }
        }
    }

    fn save(&self) {
        let len = self.arena.borrow().len();
        self.savepoints.borrow_mut().push(len);
    }

    fn release(&self) {
        let len = self.savepoints.borrow_mut().pop().expect("a savepoint");
        self.arena.borrow_mut().truncate(len);
    }

    fn methods(&self, slf: MrbValue) -> &'static [&'static str] {
        if slf.tt == MRB_TT_STRING {
            &[
                "nil?", "itself", "==", "to_s", "inspect", "+", "split", "to_sym", "respond_to?",
                "undef", "count", "block",
            ]
        } else {
            &[
                "nil?", "itself", "==", "to_s", "inspect", "respond_to?", "undef", "count", "block",
            ]
        }
    }

    fn send(
        &self,
        slf: MrbValue,
        func: &str,
        args: &[MrbValue],
        block: Option<MrbValue>,
    ) -> Result<MrbValue, String> {
        if !self.methods(slf).contains(&func) {
            return Err(format!("NoMethodError: undefined method '{}'", func));
        }
        match func {
            "nil?" => Ok(truth(slf == NIL)),
            "itself" => Ok(slf),
            "==" => Ok(truth(
                slf == args[0]
                    || self.text(slf).is_some() && self.text(slf) == self.text(args[0]),
            )),
            "to_s" => Ok(match Ruby::from(slf) {
                Ruby::Nil => self.string(""),
                Ruby::Bool if slf == TRUE => self.string("true"),
                Ruby::Bool => self.string("false"),
                Ruby::Fixnum => self.string(&format!("{}", slf.payload as i64)),
                _ => slf,
            }),
            "inspect" => Ok(match Ruby::from(slf) {
                Ruby::Nil => self.string("nil"),
                Ruby::String => {
                    let text = self.text(slf).unwrap_or_default();
                    self.string(&format!("{:?}", text))
                }
                _ => return self.send(slf, "to_s", args, block),
            }),
            "+" => match (self.text(slf), self.text(args[0])) {
                (Some(left), Some(right)) => Ok(self.string(&format!("{}{}", left, right))),
                _ => Err("TypeError: expected String".to_owned()),
            },
            "split" => {
                let parts = self
                    .text(slf)
                    .unwrap_or_default()
                    .chars()
                    .map(|c| self.string(&format!("{}", c)))
                    .collect::<Vec<_>>();
                Ok(self.allocate(MRB_TT_ARRAY, Object::List(parts)))
            }
            "to_sym" => match self.text(slf) {
                Some(text) if text.is_empty() => Err("ArgumentError: empty symbol".to_owned()),
                Some(text) if text == "\u{0}" => Ok(MrbValue { tt: MRB_TT_UNDEF, payload: 0 }),
                Some(text) => Ok(self.allocate(MRB_TT_SYMBOL, Object::Symbol(text))),
                None => Err("TypeError: expected String".to_owned()),
            },
            "respond_to?" => {
                let name = self.symbol(args[0]).unwrap_or_default();
                Ok(truth(self.methods(slf).contains(&name.as_str())))
            }
            "undef" => Ok(MrbValue { tt: MRB_TT_UNDEF, payload: 0 }),
            "count" => Ok(MrbValue { tt: MRB_TT_FIXNUM, payload: args.len() as u64 }),
            "block" => Ok(block.unwrap_or(NIL)),
            _ => unreachable!(),
        }
    }

    fn protect<T>(
        &self,
        slf: MrbValue,
        func: &str,
        args: &[MrbValue],
        argc: i64,
        block: Option<MrbValue>,
    ) -> Reply<T> {
        assert_eq!(argc, args.len() as i64);
        assert_eq!(self.savepoints.borrow().len(), 1);
        match self.send(slf, func, args, block) {
            Ok(value) => Reply::Protected { value, state: 0 },
            Err(text) => Reply::Protected {
                value: self.allocate(MRB_TT_EXCEPTION, Object::Exception(text)),
                state: 1,
            },
        }
    }

    fn perform<T: FromVm>(&self, request: &Request<'_, Vm>) -> Reply<T> {
        match request {
            Request::NewString(text) => {
                self.asked.borrow_mut().push(format!("string {}", text));
                Reply::NewString(self.string(text))
            }
            Request::SaveArena => {
                self.asked.borrow_mut().push("save".to_owned());
                self.save();
                Reply::ArenaSaved
            }
            Request::Protect(call) => {
                self.asked.borrow_mut().push(format!("protect {}", call.func));
                self.protect(call.slf, &call.func, &call.args, call.argc(), None)
            }
            Request::ProtectWithBlock(call) => {
                self.asked.borrow_mut().push(format!("protect {} with block", call.func));
                self.protect(call.slf, &call.func, &call.args, call.argc(), Some(call.block))
            }
            Request::SetException(exception) => {
                self.asked.borrow_mut().push("set exception".to_owned());
                let text = match &self.heap.borrow()[exception.payload as usize] {
                    Object::Exception(text) => text.clone(),
                    _ => panic!("not an exception"),
                };
                *self.exc.borrow_mut() = Some(text);
                Reply::ExceptionSet
            }
            Request::LastError => {
                self.asked.borrow_mut().push("last error".to_owned());
                Reply::LastError(match self.exc.borrow_mut().take() {
                    Some(_) if self.unreadable.get() => LastError::UnableToExtract(
                        MrbError::Exec("unreadable".to_owned()),
                    ),
                    Some(text) => LastError::Exception(text),
                    None => LastError::Clear,
                })
            }
            Request::Convert(value) => {
                self.asked.borrow_mut().push("convert".to_owned());
                Reply::Converted(T::from_vm(self, value.inner()))
            }
            Request::ReleaseArena => {
                self.asked.borrow_mut().push("release".to_owned());
                self.release();
                Reply::ArenaReleased
            }
            Request::IsDead(value) => {
                self.asked.borrow_mut().push("is dead".to_owned());
                let freed = self.freed.borrow();
                Reply::Dead(Vm::on_heap(*value).map_or(false, |object| freed.contains(&object)))
            }
        }
    }
}

type Val = Value<Vm>;

/// A savepoint of the arena that is held outside of any operation.
struct Arena {
    vm: Rc<Vm>,
    len: usize,
}

impl Arena {
    fn restore(self) {
        self.vm.arena.borrow_mut().truncate(self.len);
    }
}

impl Interpreter {
    fn create() -> Result<Interpreter, MrbError> {
        Ok(Interpreter {
            vm: Rc::new(Vm {
                heap: RefCell::new(Vec::new()),
                exc: RefCell::new(None),
                unreadable: Cell::new(false),
                arena: RefCell::new(Vec::new()),
                savepoints: RefCell::new(Vec::new()),
                last: Cell::new(None),
                freed: RefCell::new(Vec::new()),
                asked: RefCell::new(Vec::new()),
            }),
        })
    }

    fn value(&self, value: MrbValue) -> Val {
        Value::new(&self.vm, value)
    }

    fn bool(&self, b: bool) -> Val {
        self.value(truth(b))
    }

    fn nil(&self) -> Val {
        self.value(NIL)
    }

    fn fixnum(&self, i: i64) -> Val {
        self.value(MrbValue { tt: MRB_TT_FIXNUM, payload: i as u64 })
    }

    fn string(&self, text: &str) -> Val {
        self.value(self.vm.string(text))
    }

    /// Evaluates a literal: a number, or a string in single quotes.
    fn eval(&self, code: &str) -> Result<Val, MrbError> {
        let value = match code.strip_prefix('\'') {
            Some(text) => self.string(text.trim_end_matches('\'')),
            None => self.fixnum(code.parse().expect("a number")),
        };
        self.vm.last.set(Vm::on_heap(value.inner()));
        Ok(value)
    }

    fn create_arena_savepoint(&self) -> Arena {
        Arena { vm: Rc::clone(&self.vm), len: self.vm.arena.borrow().len() }
    }

    fn full_gc(&self) {
        self.vm.full_gc();
    }

    /// Drives the question whether a value is dead to its end.
    fn dead(&self, mut progress: Progress<Liveness<Vm>, bool>) -> bool {
        loop {
            match progress {
                Progress::Pending(question) => {
                    let reply = question.interp().perform::<bool>(&question.request());
                    progress = question.step(reply);
                }
                Progress::Done(dead) => return dead,
            }
        }
    }

    /// Drives a call to its end.
    fn call<T: FromVm>(
        &self,
        mut progress: Progress<Funcall<Vm, T>, Result<T, MrbError>>,
    ) -> Result<T, MrbError> {
        loop {
            match progress {
                Progress::Pending(call) => {
                    let reply = call.interp().perform(&call.request());
                    progress = call.step(reply);
                }
                Progress::Done(result) => {
                    assert!(self.vm.savepoints.borrow().is_empty());
                    return result;
                }
            }
        }
    }

    /// Drives a call for a value, which the library converts, to its end.
    fn value_call(
        &self,
        mut progress: Progress<Funcall<Vm, Val>, Result<Val, MrbError>>,
    ) -> Result<Val, MrbError> {
        loop {
            match progress {
                Progress::Pending(call) => {
                    let reply = call.interp().perform(&call.request());
                    progress = call.step_to_value(reply);
                }
                Progress::Done(result) => {
                    assert!(self.vm.savepoints.borrow().is_empty());
                    return result;
                }
            }
        }
    }

    /// Drives a conversion to its end.
    fn convert<T: FromVm>(
        &self,
        mut progress: Progress<Conversion<Vm>, Result<T, MrbError>>,
    ) -> Result<T, MrbError> {
        loop {
            match progress {
                Progress::Pending(conversion) => {
                    let reply = conversion.interp().perform(&conversion.request());
                    progress = conversion.step(reply);
                }
                Progress::Done(result) => return result,
            }
        }
    }

    /// Drives a rendering to its end.
    fn text(&self, mut progress: Progress<Rendering<Vm>, String>) -> String {
        loop {
            match progress {
                Progress::Pending(rendering) => {
                    let reply = rendering.interp().perform(&rendering.request());
                    progress = rendering.step(reply);
                }
                Progress::Done(text) => {
                    assert!(self.vm.savepoints.borrow().is_empty());
                    return text;
                }
            }
        }
    }

    /// Drives a question to its end.
    fn answer(
        &self,
        mut progress: Progress<RespondTo<Vm>, Result<bool, MrbError>>,
    ) -> Result<bool, MrbError> {
        loop {
            match progress {
                Progress::Pending(question) => {
                    let reply = question.interp().perform(&question.request());
                    progress = question.step(reply);
                }
                Progress::Done(result) => {
                    assert!(self.vm.savepoints.borrow().is_empty());
                    return result;
                }
            }
        }
    }

    fn asked(&self) -> Vec<String> {
        self.vm.asked.borrow_mut().drain(..).collect()
    }
}

#[test]
fn to_s_true() {
    let interp = Interpreter::create().expect("mrb init");

    let value = interp.bool(true);
    let string = interp.text(value.to_s());
    assert_eq!(string, "true");
}

#[test]
fn debug_true() {
    let interp = Interpreter::create().expect("mrb init");

    let value = interp.bool(true);
    let debug = interp.text(value.to_s_debug());
    assert_eq!(debug, "Boolean<true>");
}

#[test]
fn inspect_true() {
    let interp = Interpreter::create().expect("mrb init");

    let value = interp.bool(true);
    let debug = interp.text(value.inspect());
    assert_eq!(debug, "true");
}

#[test]
fn to_s_false() {
    let interp = Interpreter::create().expect("mrb init");

    let value = interp.bool(false);
    let string = interp.text(value.to_s());
    assert_eq!(string, "false");
}

#[test]
fn debug_false() {
    let interp = Interpreter::create().expect("mrb init");

    let value = interp.bool(false);
    let debug = interp.text(value.to_s_debug());
    assert_eq!(debug, "Boolean<false>");
}

#[test]
fn inspect_false() {
    let interp = Interpreter::create().expect("mrb init");

    let value = interp.bool(false);
    let debug = interp.text(value.inspect());
    assert_eq!(debug, "false");
}

#[test]
fn to_s_nil() {
    let interp = Interpreter::create().expect("mrb init");

    let value = interp.nil();
    let string = interp.text(value.to_s());
    assert_eq!(string, "");
}

#[test]
fn debug_nil() {
    let interp = Interpreter::create().expect("mrb init");

    let value = interp.nil();
    let debug = interp.text(value.to_s_debug());
    assert_eq!(debug, "NilClass<nil>");
}

#[test]
fn inspect_nil() {
    let interp = Interpreter::create().expect("mrb init");

    let value = interp.nil();
    let debug = interp.text(value.inspect());
    assert_eq!(debug, "nil");
}

#[test]
fn to_s_fixnum() {
    let interp = Interpreter::create().expect("mrb init");

    let value = interp.fixnum(255);
    let string = interp.text(value.to_s());
    assert_eq!(string, "255");
}

#[test]
fn debug_fixnum() {
    let interp = Interpreter::create().expect("mrb init");

    let value = interp.fixnum(255);
    let debug = interp.text(value.to_s_debug());
    assert_eq!(debug, "Fixnum<255>");
}

#[test]
fn inspect_fixnum() {
    let interp = Interpreter::create().expect("mrb init");

    let value = interp.fixnum(255);
    let debug = interp.text(value.inspect());
    assert_eq!(debug, "255");
}

#[test]
fn to_s_string() {
    let interp = Interpreter::create().expect("mrb init");

    let value = interp.string("interstate");
    let string = interp.text(value.to_s());
    assert_eq!(string, "interstate");
}

#[test]
fn debug_string() {
    let interp = Interpreter::create().expect("mrb init");

    let value = interp.string("interstate");
    let debug = interp.text(value.to_s_debug());
    assert_eq!(debug, r#"String<"interstate">"#);
}

#[test]
fn inspect_string() {
    let interp = Interpreter::create().expect("mrb init");

    let value = interp.string("interstate");
    let debug = interp.text(value.inspect());
    assert_eq!(debug, r#""interstate""#);
}

#[test]
fn to_s_empty_string() {
    let interp = Interpreter::create().expect("mrb init");

    let value = interp.string("");
    let string = interp.text(value.to_s());
    assert_eq!(string, "");
}

#[test]
fn debug_empty_string() {
    let interp = Interpreter::create().expect("mrb init");

    let value = interp.string("");
    let debug = interp.text(value.to_s_debug());
    assert_eq!(debug, r#"String<"">"#);
}

#[test]
fn inspect_empty_string() {
    let interp = Interpreter::create().expect("mrb init");

    let value = interp.string("");
    let debug = interp.text(value.inspect());
    assert_eq!(debug, r#""""#);
}

#[test]
fn is_dead() {
    let interp = Interpreter::create().expect("mrb init");
    let arena = interp.create_arena_savepoint();
    let live = interp.eval("'dead'").expect("value");
    assert!(!interp.dead(live.is_dead()));
    let dead = live;
    let live = interp.eval("'live'").expect("value");
    arena.restore();
    interp.full_gc();
    // unreachable objects are dead after a full garbage collection
    assert!(interp.dead(dead.is_dead()));
    // the result of the most recent eval is always live even after a full
    // garbage collection
    assert!(!interp.dead(live.is_dead()));
}

#[test]
fn immediate_is_dead() {
    let interp = Interpreter::create().expect("mrb init");
    let arena = interp.create_arena_savepoint();
    let live = interp.eval("27").expect("value");
    assert!(!interp.dead(live.is_dead()));
    let immediate = live;
    let live = interp.eval("64").expect("value");
    arena.restore();
    interp.full_gc();
    // immediate objects are never dead
    assert!(!interp.dead(immediate.is_dead()));
    // the result of the most recent eval is always live even after a full
    // garbage collection
    assert!(!interp.dead(live.is_dead()));
    // Fixnums are immediate even if they are created directly without an
    // interpreter.
    let fixnum = interp.fixnum(99);
    assert!(!interp.dead(fixnum.is_dead()));
}

#[test]
fn funcall() {
    let interp = Interpreter::create().expect("mrb init");
    let nil = interp.nil();
    assert!(interp.call(nil.funcall::<bool>("nil?", &[])).expect("nil?"));
    let s = interp.string("foo");
    assert!(!interp.call(s.funcall::<bool>("nil?", &[])).expect("nil?"));
    let delim = interp.string("");
    let split = interp
        .call(s.funcall::<Vec<String>>("split", &[delim]))
        .expect("split");
    assert_eq!(split, vec!["f".to_owned(), "o".to_owned(), "o".to_owned()])
}

#[test]
fn funcall_different_types() {
    let interp = Interpreter::create().expect("mrb init");
    let nil = interp.nil();
    let s = interp.string("foo");
    let eql = interp.call(nil.funcall::<bool>("==", &[s]));
    assert_eq!(eql, Ok(false));
}

#[test]
fn funcall_type_error() {
    let interp = Interpreter::create().expect("mrb init");
    let nil = interp.nil();
    let s = interp.string("foo");
    let result = interp.call(s.funcall::<String>("+", &[nil]));
    assert_eq!(
        result,
        Err(MrbError::Exec("TypeError: expected String".to_owned()))
    );
}

#[test]
fn funcall_method_not_exists() {
    let interp = Interpreter::create().expect("mrb init");
    let nil = interp.nil();
    let s = interp.string("foo");
    let result = interp.call(nil.funcall::<bool>("garbage_method_name", &[s]));
    assert_eq!(
        result,
        Err(MrbError::Exec(
            "NoMethodError: undefined method 'garbage_method_name'".to_owned()
        ))
    );
}

#[test]
fn a_plain_call_asks_for_the_exception_once() {
    let interp = Interpreter::create().expect("mrb init");
    let nil = interp.nil();
    assert_eq!(interp.call(nil.funcall::<bool>("nil?", &[])), Ok(true));
    assert_eq!(interp.asked(), vec!["save", "protect nil?", "last error", "convert", "release"]);
}

#[test]
fn an_ended_call_sets_the_exception_before_it_takes_it() {
    let interp = Interpreter::create().expect("mrb init");
    let nil = interp.nil();
    let result = interp.call(nil.funcall::<bool>("missing", &[]));
    assert_eq!(
        result,
        Err(MrbError::Exec("NoMethodError: undefined method 'missing'".to_owned()))
    );
    assert_eq!(interp.asked(), vec!["save", "protect missing", "set exception", "last error", "release"]);
}

#[test]
fn an_unreadable_exception_is_the_error_that_reading_it_gave() {
    let interp = Interpreter::create().expect("mrb init");
    interp.vm.unreadable.set(true);
    let nil = interp.nil();
    let result = interp.call(nil.funcall::<bool>("missing", &[]));
    assert_eq!(result, Err(MrbError::Exec("unreadable".to_owned())));
}

#[test]
fn an_exception_comes_before_an_unreachable_value() {
    let interp = Interpreter::create().expect("mrb init");
    let undef = interp.value(MrbValue { tt: MRB_TT_UNDEF, payload: 0 });
    let result = undef.checked(LastError::Exception("RuntimeError: boom".to_owned()));
    assert_eq!(result.err(), Some(MrbError::Exec("RuntimeError: boom".to_owned())));
}

#[test]
fn an_unreachable_value_is_not_converted() {
    let interp = Interpreter::create().expect("mrb init");
    let nil = interp.nil();
    let result = interp.call(nil.funcall::<bool>("undef", &[]));
    assert_eq!(result, Err(MrbError::UnreachableValue(5)));
    assert_eq!(interp.asked(), vec!["save", "protect undef", "last error", "release"]);
}

#[test]
fn an_unreachable_value_is_not_returned_as_it_is() {
    let interp = Interpreter::create().expect("mrb init");
    let undef = interp.value(MrbValue { tt: MRB_TT_UNDEF, payload: 0 });
    let nil = interp.nil();
    assert_eq!(
        interp.call(nil.funcall::<Raw>("undef", &[])),
        Err(MrbError::UnreachableValue(MRB_TT_UNDEF))
    );
    assert_eq!(
        interp.call(nil.funcall_with_block::<Raw>("undef", &[], interp.nil())),
        Err(MrbError::UnreachableValue(MRB_TT_UNDEF))
    );
    assert_eq!(
        interp.call(undef.itself::<Raw>()),
        Err(MrbError::UnreachableValue(MRB_TT_UNDEF))
    );
    assert_eq!(interp.call(nil.itself::<Raw>()), Ok(Raw(NIL)));
    assert_eq!(interp.convert(nil.try_into::<Raw>()), Ok(Raw(NIL)));
}

#[test]
fn a_call_for_a_value_is_converted_by_the_library() {
    let interp = Interpreter::create().expect("mrb init");
    let s = interp.string("foo");
    let same = interp.value_call(s.itself::<Val>()).ok().expect("itself");
    assert_eq!(same.inner(), s.inner());
    assert!(Rc::ptr_eq(same.interp(), s.interp()));
    assert_eq!(interp.asked(), vec!["save", "protect itself", "last error", "release"]);
    let undef = interp.value_call(s.funcall::<Val>("undef", &[]));
    assert_eq!(undef.err(), Some(MrbError::UnreachableValue(MRB_TT_UNDEF)));
    let undef = interp.value_call(s.funcall_with_block::<Val>("undef", &[], interp.nil()));
    assert_eq!(undef.err(), Some(MrbError::UnreachableValue(MRB_TT_UNDEF)));
    let missing = interp.value_call(s.funcall::<Val>("missing", &[]));
    assert_eq!(
        missing.err(),
        Some(MrbError::Exec("NoMethodError: undefined method 'missing'".to_owned()))
    );
}

#[test]
fn operations_run_in_the_interpreter_of_the_receiver() {
    let interp = Interpreter::create().expect("mrb init");
    let other = Interpreter::create().expect("mrb init");
    let value = interp.fixnum(1);
    let progress = value.funcall_with_block::<i64>("count", &[other.nil()], other.nil());
    assert_eq!(interp.call(progress), Ok(1));
    assert_eq!(interp.text(value.to_s_debug()), "Fixnum<1>");
    assert_eq!(interp.answer(value.respond_to("to_s")), Ok(true));
    assert_eq!(interp.call(value.funcall::<bool>("missing", &[])).is_err(), true);
    assert!(!interp.dead(value.is_dead()));
    assert_eq!(interp.convert(value.try_into::<i64>()), Ok(1));
    assert!(!interp.asked().is_empty());
    assert!(other.asked().is_empty());
}

#[test]
fn a_failed_conversion_is_an_error() {
    let interp = Interpreter::create().expect("mrb init");
    let s = interp.string("foo");
    let result = interp.call(s.funcall::<i64>("itself", &[]));
    assert_eq!(
        result,
        Err(MrbError::ConvertToRust(ConvertError {
            from: Ruby::String,
            to: "i64".to_owned()
        }))
    );
}

#[test]
fn as_many_arguments_as_the_vm_takes() {
    let interp = Interpreter::create().expect("mrb init");
    let nil = interp.nil();
    let args = (0..16).map(|i| interp.fixnum(i)).collect::<Vec<_>>();
    assert_eq!(args.len(), MRB_FUNCALL_ARGC_MAX);
    assert_eq!(interp.call(nil.funcall::<i64>("count", &args)), Ok(16));
}

#[test]
fn one_argument_more_than_the_vm_takes() {
    let interp = Interpreter::create().expect("mrb init");
    let nil = interp.nil();
    let args = (0..17).map(|i| interp.fixnum(i)).collect::<Vec<_>>();
    let refusal = MrbError::TooManyArgs { given: 17, max: 16 };
    assert_eq!(interp.call(nil.funcall::<i64>("count", &args)), Err(refusal));
    let refusal = MrbError::TooManyArgs { given: 17, max: 16 };
    let block = interp.nil();
    assert_eq!(
        interp.call(nil.funcall_with_block::<i64>("count", &args, block)),
        Err(refusal)
    );
    assert!(interp.asked().is_empty());
}

#[test]
fn arguments_keep_their_order() {
    let interp = Interpreter::create().expect("mrb init");
    let slf = interp.string("self");
    let args = [interp.fixnum(3), interp.fixnum(1), interp.fixnum(2)];
    let progress = slf.funcall::<i64>("count", &args);
    let call = match progress {
        Progress::Pending(call) => call,
        Progress::Done(_) => panic!("refused"),
    };
    let call = match call.step(Reply::ArenaSaved) {
        Progress::Pending(call) => call,
        Progress::Done(_) => panic!("done"),
    };
    match call.request() {
        Request::Protect(call) => {
            assert_eq!(call.slf, slf.inner());
            assert_eq!(call.func, "count");
            assert_eq!(call.args.iter().map(|arg| arg.payload).collect::<Vec<_>>(), [3, 1, 2]);
            assert_eq!(call.argc(), 3);
        }
        _ => panic!("not a plain call"),
    };
}

#[test]
fn a_block_reaches_the_vm() {
    let interp = Interpreter::create().expect("mrb init");
    let nil = interp.nil();
    let block = interp.fixnum(7);
    let arg = interp.fixnum(1);
    let result = interp.call(nil.funcall_with_block::<i64>("block", &[arg], block));
    assert_eq!(result, Ok(7));
    assert_eq!(interp.asked(), vec!["save", "protect block with block", "last error", "convert", "release"]);
}

#[test]
fn a_block_changes_only_what_the_vm_runs() {
    let interp = Interpreter::create().expect("mrb init");
    let s = interp.string("foo");
    for func in ["count", "missing", "undef", "to_s"] {
        let plain = interp.call(s.funcall::<i64>(func, &[]));
        let with_block = interp.call(s.funcall_with_block::<i64>(func, &[], interp.nil()));
        assert_eq!(plain, with_block);
    }
}

#[test]
fn rendering_stands_in_for_errors() {
    let interp = Interpreter::create().expect("mrb init");
    let undef = interp.value(MrbValue { tt: MRB_TT_UNDEF, payload: 0 });
    // `to_s` of this value gives the value itself, which is unreachable.
    assert_eq!(interp.text(undef.to_s()), "<unknown>");
    assert_eq!(interp.text(undef.inspect()), "<unknown>");
    assert_eq!(interp.text(undef.to_s_debug()), "Unreachable<<unknown>>");
    let list = interp.value(interp.vm.allocate(MRB_TT_ARRAY, Object::List(Vec::new())));
    // `to_s` of this value gives the value itself, which is not text.
    assert_eq!(interp.text(list.to_s_debug()), "Array<<unknown>>");
}

#[test]
fn respond_to_asks_with_a_symbol() {
    let interp = Interpreter::create().expect("mrb init");
    let s = interp.string("foo");
    let nil = interp.nil();
    assert_eq!(interp.answer(s.respond_to("split")), Ok(true));
    assert_eq!(
        interp.asked(),
        vec![
            "string split",
            "save",
            "protect to_sym",
            "last error",
            "release",
            "save",
            "protect respond_to?",
            "last error",
            "convert",
            "release"
        ]
    );
    assert_eq!(interp.answer(nil.respond_to("split")), Ok(false));
}

#[test]
fn respond_to_ends_with_the_first_error() {
    let interp = Interpreter::create().expect("mrb init");
    let nil = interp.nil();
    assert_eq!(
        interp.answer(nil.respond_to("")),
        Err(MrbError::Exec("ArgumentError: empty symbol".to_owned()))
    );
    assert_eq!(
        interp.asked(),
        vec!["string ", "save", "protect to_sym", "set exception", "last error", "release"]
    );
    assert_eq!(
        interp.answer(nil.respond_to("\u{0}")),
        Err(MrbError::UnreachableValue(MRB_TT_UNDEF))
    );
}

#[test]
fn itself_and_try_into_agree() {
    let interp = Interpreter::create().expect("mrb init");
    let value = interp.fixnum(99);
    assert_eq!(interp.call(value.itself::<i64>()), Ok(99));
    assert_eq!(interp.asked(), vec!["save", "protect itself", "last error", "convert", "release"]);
    // `itself` leaves the value to its owner.
    assert_eq!(interp.convert(value.try_into::<i64>()), Ok(99));
    assert_eq!(interp.asked(), vec!["convert"]);
}

#[test]
fn try_into_reports_a_failed_conversion() {
    let interp = Interpreter::create().expect("mrb init");
    assert_eq!(
        interp.convert(interp.nil().try_into::<String>()),
        Err(MrbError::ConvertToRust(ConvertError {
            from: Ruby::Nil,
            to: "String".to_owned()
        }))
    );
}

#[test]
fn a_reply_to_another_request_is_dropped() {
    let interp = Interpreter::create().expect("mrb init");
    let nil = interp.nil();
    let call = match nil.funcall::<bool>("nil?", &[]) {
        Progress::Pending(call) => call,
        Progress::Done(_) => panic!("refused"),
    };
    let call = match call.step(Reply::Converted(Ok(false))) {
        Progress::Pending(call) => call,
        Progress::Done(_) => panic!("done"),
    };
    let call = match call.step(Reply::ExceptionSet) {
        Progress::Pending(call) => call,
        Progress::Done(_) => panic!("done"),
    };
    assert!(matches!(call.request(), Request::SaveArena));
    assert_eq!(interp.call(Progress::Pending(call)), Ok(true));
}

#[test]
fn a_value_is_its_own_conversion() {
    let interp = Interpreter::create().expect("mrb init");
    let value = interp.fixnum(27);
    let same = Value::from_mrb(&value.interp, interp.fixnum(27));
    assert_eq!(same.inner(), value.inner());
}

#[test]
fn a_value_keeps_its_interpreter() {
    let interp = Interpreter::create().expect("mrb init");
    let value = interp.fixnum(64);
    let other = Value::new(value.interp(), TRUE);
    assert!(Rc::ptr_eq(value.interp(), other.interp()));
    assert_eq!(ValueLike::inner(&other), TRUE);
}

#[test]
fn a_call_gains_a_block() {
    let slf = MrbValue { tt: MRB_TT_FIXNUM, payload: 1 };
    let call = ProtectArgs::new(slf, "each", vec![TRUE, NIL]);
    assert_eq!(call.argc(), 2);
    let call = call.with_block(FALSE);
    assert_eq!(call.slf, slf);
    assert_eq!(call.func, "each");
    assert_eq!(call.args, vec![TRUE, NIL]);
    assert_eq!(call.block, FALSE);
    assert_eq!(call.argc(), 2);
}
