//! The kinds of Ruby value that a host can meet.

use crate::sys::MrbValue;
use crate::sys::{
    MRB_TT_ARRAY, MRB_TT_CLASS, MRB_TT_CPTR, MRB_TT_DATA, MRB_TT_EXCEPTION, MRB_TT_FALSE,
    MRB_TT_FIBER, MRB_TT_FILE, MRB_TT_FIXNUM, MRB_TT_FLOAT, MRB_TT_HASH, MRB_TT_ISTRUCT,
    MRB_TT_MODULE, MRB_TT_OBJECT, MRB_TT_PROC, MRB_TT_RANGE, MRB_TT_SCLASS, MRB_TT_STRING,
    MRB_TT_SYMBOL, MRB_TT_TRUE,
};
use vstd::prelude::*;

verus! {

/// The kind of a Ruby value.
#[derive(Clone, Copy, Debug, PartialEq, Eq, Structural)]
pub enum Ruby {
    /// An `Array`.
    Array,
    /// `true` or `false`.
    Bool,
    /// A borrowed C pointer.
    CPointer,
    /// A `Class`.
    Class,
    /// An object that wraps host data.
    Data,
    /// An `Exception`.
    Exception,
    /// A `Fiber`.
    Fiber,
    /// A `File`.
    File,
    /// A `Fixnum`.
    Fixnum,
    /// A `Float`.
    Float,
    /// A `Hash`.
    Hash,
    /// A struct that is stored in its heap slot.
    InlineStruct,
    /// A `Module`.
    Module,
    /// `nil`.
    Nil,
    /// An instance of a Ruby class.
    Object,
    /// A `Proc`.
    Proc,
    /// A `Range`.
    Range,
    /// The singleton class of an object.
    SingletonClass,
    /// A `String`.
    String,
    /// A `Symbol`.
    Symbol,
    /// A value that is internal to the VM. To hand one to the C API is unspecified
    /// and may crash the process.
    Unreachable,
}

/// The kind of a value with tag `tt` that is not `nil`.
pub open spec fn kind_of_tag(tt: u32) -> Ruby {
    if tt == MRB_TT_FALSE || tt == MRB_TT_TRUE {
        Ruby::Bool
    } else if tt == MRB_TT_FIXNUM {
        Ruby::Fixnum
    } else if tt == MRB_TT_SYMBOL {
        Ruby::Symbol
    } else if tt == MRB_TT_FLOAT {
        Ruby::Float
    } else if tt == MRB_TT_CPTR {
        Ruby::CPointer
    } else if tt == MRB_TT_OBJECT {
        Ruby::Object
    } else if tt == MRB_TT_CLASS {
        Ruby::Class
    } else if tt == MRB_TT_MODULE {
        Ruby::Module
    } else if tt == MRB_TT_SCLASS {
        Ruby::SingletonClass
    } else if tt == MRB_TT_PROC {
        Ruby::Proc
    } else if tt == MRB_TT_ARRAY {
        Ruby::Array
    } else if tt == MRB_TT_HASH {
        Ruby::Hash
    } else if tt == MRB_TT_STRING {
        Ruby::String
    } else if tt == MRB_TT_RANGE {
        Ruby::Range
    } else if tt == MRB_TT_EXCEPTION {
        Ruby::Exception
    } else if tt == MRB_TT_FILE {
        Ruby::File
    } else if tt == MRB_TT_DATA {
        Ruby::Data
    } else if tt == MRB_TT_FIBER {
        Ruby::Fiber
    } else if tt == MRB_TT_ISTRUCT {
        Ruby::InlineStruct
    } else {
        Ruby::Unreachable
    }
}

impl MrbValue {
    /// The kind of the value: its tag decides, but for `nil`, which shares the tag
    /// of `false`.
    pub open spec fn kind(self) -> Ruby {
        if self.spec_is_nil() {
            Ruby::Nil
        } else {
            kind_of_tag(self.tt)
        }
    }
}

impl vstd::std_specs::convert::FromSpecImpl<MrbValue> for Ruby {
    open spec fn obeys_from_spec() -> bool {
        true
    }

    open spec fn from_spec(value: MrbValue) -> Ruby {
        value.kind()
    }
}

impl From<MrbValue> for Ruby {
    /// The kind of `value`.
    fn from(value: MrbValue) -> (kind: Ruby) {
        match value.tt {
            MRB_TT_FALSE => if value.is_nil() {
                Ruby::Nil
            } else {
                Ruby::Bool
            },
            MRB_TT_TRUE => Ruby::Bool,
            MRB_TT_FIXNUM => Ruby::Fixnum,
            MRB_TT_SYMBOL => Ruby::Symbol,
            MRB_TT_FLOAT => Ruby::Float,
            MRB_TT_CPTR => Ruby::CPointer,
            MRB_TT_OBJECT => Ruby::Object,
            MRB_TT_CLASS => Ruby::Class,
            MRB_TT_MODULE => Ruby::Module,
            MRB_TT_SCLASS => Ruby::SingletonClass,
            MRB_TT_PROC => Ruby::Proc,
            MRB_TT_ARRAY => Ruby::Array,
            MRB_TT_HASH => Ruby::Hash,
            MRB_TT_STRING => Ruby::String,
            MRB_TT_RANGE => Ruby::Range,
            MRB_TT_EXCEPTION => Ruby::Exception,
            MRB_TT_FILE => Ruby::File,
            MRB_TT_DATA => Ruby::Data,
            MRB_TT_FIBER => Ruby::Fiber,
            MRB_TT_ISTRUCT => Ruby::InlineStruct,
            _ => Ruby::Unreachable,
        }
    }
}

impl Ruby {
    /// The name under which values of this kind are shown.
    pub open spec fn spec_class_name(self) -> Seq<char> {
        match self {
            Ruby::Array => "Array"@,
            Ruby::Bool => "Boolean"@,
            Ruby::CPointer => "CPointer"@,
            Ruby::Class => "Class"@,
            Ruby::Data => "Data"@,
            Ruby::Exception => "Exception"@,
            Ruby::Fiber => "Fiber"@,
            Ruby::File => "File"@,
            Ruby::Fixnum => "Fixnum"@,
            Ruby::Float => "Float"@,
            Ruby::Hash => "Hash"@,
            Ruby::InlineStruct => "InlineStruct"@,
            Ruby::Module => "Module"@,
            Ruby::Nil => "NilClass"@,
            Ruby::Object => "Object"@,
            Ruby::Proc => "Proc"@,
            Ruby::Range => "Range"@,
            Ruby::SingletonClass => "SingletonClass"@,
            Ruby::String => "String"@,
            Ruby::Symbol => "Symbol"@,
            Ruby::Unreachable => "Unreachable"@,
        }
    }

    /// The name under which values of this kind are shown.
    pub fn class_name(&self) -> (name: &'static str)
        ensures
            name@ == self.spec_class_name(),
    {
        match self {
            Ruby::Array => "Array",
            Ruby::Bool => "Boolean",
            Ruby::CPointer => "CPointer",
            Ruby::Class => "Class",
            Ruby::Data => "Data",
            Ruby::Exception => "Exception",
            Ruby::Fiber => "Fiber",
            Ruby::File => "File",
            Ruby::Fixnum => "Fixnum",
            Ruby::Float => "Float",
            Ruby::Hash => "Hash",
            Ruby::InlineStruct => "InlineStruct",
            Ruby::Module => "Module",
            Ruby::Nil => "NilClass",
            Ruby::Object => "Object",
            Ruby::Proc => "Proc",
            Ruby::Range => "Range",
            Ruby::SingletonClass => "SingletonClass",
            Ruby::String => "String",
            Ruby::Symbol => "Symbol",
            Ruby::Unreachable => "Unreachable",
        }
    }
}

} // verus!
