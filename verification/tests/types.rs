//! Kinds of value.

use mruby::sys::{
    MrbValue, MRB_TT_ARRAY, MRB_TT_BREAK, MRB_TT_CLASS, MRB_TT_CPTR, MRB_TT_DATA, MRB_TT_ENV,
    MRB_TT_EXCEPTION, MRB_TT_FALSE, MRB_TT_FIBER, MRB_TT_FILE, MRB_TT_FIXNUM, MRB_TT_FLOAT,
    MRB_TT_FREE, MRB_TT_HASH, MRB_TT_ICLASS, MRB_TT_ISTRUCT, MRB_TT_MAXDEFINE, MRB_TT_MODULE,
    MRB_TT_OBJECT, MRB_TT_PROC, MRB_TT_RANGE, MRB_TT_SCLASS, MRB_TT_STRING, MRB_TT_SYMBOL,
    MRB_TT_TRUE, MRB_TT_UNDEF,
};
use mruby::types::Ruby;
use mruby::value::Value;
use std::rc::Rc;

fn kind(tt: u32, payload: u64) -> Ruby {
    Value::new(&Rc::new(()), MrbValue { tt, payload }).ruby_type()
}

#[test]
fn kinds_of_immediates() {
    assert_eq!(kind(MRB_TT_FALSE, 0), Ruby::Nil);
    assert_eq!(kind(MRB_TT_FALSE, 1), Ruby::Bool);
    assert_eq!(kind(MRB_TT_TRUE, 1), Ruby::Bool);
    assert_eq!(kind(MRB_TT_FIXNUM, 0), Ruby::Fixnum);
    assert_eq!(kind(MRB_TT_SYMBOL, 3), Ruby::Symbol);
    assert_eq!(kind(MRB_TT_FLOAT, 0), Ruby::Float);
    assert_eq!(kind(MRB_TT_CPTR, 0), Ruby::CPointer);
}

#[test]
fn kinds_and_names_of_objects() {
    let table = [
        (MRB_TT_ARRAY, Ruby::Array, "Array"),
        (MRB_TT_CLASS, Ruby::Class, "Class"),
        (MRB_TT_DATA, Ruby::Data, "Data"),
        (MRB_TT_EXCEPTION, Ruby::Exception, "Exception"),
        (MRB_TT_FIBER, Ruby::Fiber, "Fiber"),
        (MRB_TT_FILE, Ruby::File, "File"),
        (MRB_TT_HASH, Ruby::Hash, "Hash"),
        (MRB_TT_ISTRUCT, Ruby::InlineStruct, "InlineStruct"),
        (MRB_TT_MODULE, Ruby::Module, "Module"),
        (MRB_TT_OBJECT, Ruby::Object, "Object"),
        (MRB_TT_PROC, Ruby::Proc, "Proc"),
        (MRB_TT_RANGE, Ruby::Range, "Range"),
        (MRB_TT_SCLASS, Ruby::SingletonClass, "SingletonClass"),
        (MRB_TT_STRING, Ruby::String, "String"),
    ];
    for (tt, ruby, name) in table {
        assert_eq!(kind(tt, 64), ruby);
        assert_eq!(ruby.class_name(), name);
    }
}

#[test]
fn names_of_immediates() {
    assert_eq!(Ruby::Nil.class_name(), "NilClass");
    assert_eq!(Ruby::Bool.class_name(), "Boolean");
    assert_eq!(Ruby::Fixnum.class_name(), "Fixnum");
    assert_eq!(Ruby::Symbol.class_name(), "Symbol");
    assert_eq!(Ruby::Float.class_name(), "Float");
    assert_eq!(Ruby::CPointer.class_name(), "CPointer");
}

#[test]
fn internal_tags_are_unreachable() {
    let internal = [
        MRB_TT_FREE,
        MRB_TT_UNDEF,
        MRB_TT_ICLASS,
        MRB_TT_ENV,
        MRB_TT_BREAK,
        MRB_TT_MAXDEFINE,
        u32::MAX,
    ];
    for tt in internal {
        let value = Value::new(&Rc::new(()), MrbValue { tt, payload: 0 });
        assert!(value.is_unreachable());
        assert_eq!(value.ruby_type(), Ruby::Unreachable);
    }
    let nil = Value::new(&Rc::new(()), MrbValue { tt: MRB_TT_FALSE, payload: 0 });
    assert!(!nil.is_unreachable());
}
