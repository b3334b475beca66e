//! The runtime value that crosses the dynamic boundary, its shape-only
//! descriptor, and the errors that a decode site reports.
use vstd::prelude::*;

use crate::any::Any;

verus! {

broadcast use vstd::std_specs::vec::group_vec_axioms;

/// The shape of a `Value`, without its payload.
#[derive(Debug, PartialEq, Eq)]
pub enum ValueTy {
    Unknown,
    Void,
    Tuple(Vec<ValueTy>),
    Bool,
    Int8,
    Int16,
    Int32,
    Int64,
    Uint8,
    Uint16,
    Uint32,
    Uint64,
    Float32,
    Float64,
    Custom,
    CustomRef,
    CustomMut,
    Option(Box<ValueTy>),
    Array(Box<ValueTy>),
    String,
}

/// A usage error found while decoding the arguments of a call.
#[derive(Debug, PartialEq, Eq)]
pub enum Error {
    /// A method or property call without its leading self argument.
    MissingSelfArg,
    /// The number of arguments differs from the declared arity.
    WrongArgsNumber { expected: u16, found: u16 },
    /// The value's variant is not the one the decode site expects.
    WrongType { expected: ValueTy, found: ValueTy },
    /// The value holds a native object, of another concrete type than expected.
    WrongAny { expected: &'static str, found: &'static str },
}

pub type Result<T> = std::result::Result<T, Error>;

/// One runtime value. Floating-point numbers travel as their IEEE 754 bit
/// patterns.
#[derive(Debug)]
pub enum Value<'a> {
    Nil,
    Void,
    Tuple(Vec<Value<'a>>),
    Bool(bool),
    Int8(i8),
    Int16(i16),
    Int32(i32),
    Int64(i64),
    Uint8(u8),
    Uint16(u16),
    Uint32(u32),
    Uint64(u64),
    Float32(u32),
    Float64(u64),
    Custom(Any),
    CustomRef(&'a Any),
    CustomMut(&'a mut Any),
    Array(Vec<Value<'a>>),
    String(String),
    Error(Error),
}

impl ValueTy {
    /// Whether `self` is the descriptor of `v`: each variant has its own; a
    /// tuple's lists the descriptor of each item; an array's holds the
    /// descriptor of its items, read from the first (unknown when empty);
    /// absence and errors are unknown.
    pub open spec fn describes<'a>(self, v: Value<'a>) -> bool
        decreases v,
    {
        match v {
            Value::Nil => self == ValueTy::Unknown,
            Value::Void => self == ValueTy::Void,
            Value::Tuple(items) => match self {
                ValueTy::Tuple(tys) => tys@.len() == items@.len() && forall|i: int|
                    0 <= i < items@.len() ==> tys@[i].describes(items@[i]),
                _ => false,
            },
            Value::Bool(_) => self == ValueTy::Bool,
            Value::Int8(_) => self == ValueTy::Int8,
            Value::Int16(_) => self == ValueTy::Int16,
            Value::Int32(_) => self == ValueTy::Int32,
            Value::Int64(_) => self == ValueTy::Int64,
            Value::Uint8(_) => self == ValueTy::Uint8,
            Value::Uint16(_) => self == ValueTy::Uint16,
            Value::Uint32(_) => self == ValueTy::Uint32,
            Value::Uint64(_) => self == ValueTy::Uint64,
            Value::Float32(_) => self == ValueTy::Float32,
            Value::Float64(_) => self == ValueTy::Float64,
            Value::Custom(_) => self == ValueTy::Custom,
            Value::CustomRef(_) => self == ValueTy::CustomRef,
            Value::CustomMut(_) => self == ValueTy::CustomMut,
            Value::Array(items) => match self {
                ValueTy::Array(item) => if items@.len() == 0 {
                    *item == ValueTy::Unknown
                } else {
                    item.describes(items@[0])
                },
                _ => false,
            },
            Value::String(_) => self == ValueTy::String,
            Value::Error(_) => self == ValueTy::Unknown,
        }
    }
}

/// What resolving a value gives: its error, or the value itself.
pub open spec fn resolved<'a>(v: Value<'a>) -> Result<Value<'a>> {
    match v {
        Value::Error(e) => Err(e),
        other => Ok(other),
    }
}

/// What folding a result into a value gives: the value, or the error variant.
pub open spec fn folded<'a>(r: Result<Value<'a>>) -> Value<'a> {
    match r {
        Ok(v) => v,
        Err(e) => Value::Error(e),
    }
}

impl<'a> Value<'a> {
    /// Turns the error variant into a failure and any other value into a
    /// success: the one place where decode sites meet an error.
    pub fn into_res(self) -> (r: Result<Value<'a>>)
        ensures
            r == resolved(self),
    {
        match self {
            Value::Error(e) => Err(e),
            other => Ok(other),
        }
    }

    /// Folds a result into a value, a failure into the error variant.
    pub fn from_res(r: Result<Value<'a>>) -> (v: Value<'a>)
        ensures
            v == folded(r),
    {
        match r {
            Ok(v) => v,
            Err(e) => Value::Error(e),
        }
    }

    /// The descriptor of this value.
    pub fn ty(&self) -> (r: ValueTy)
        ensures
            r.describes(*self),
        decreases *self,
    {
        match self {
            Value::Nil => ValueTy::Unknown,
            Value::Void => ValueTy::Void,
            Value::Tuple(items) => {
                let mut tys: Vec<ValueTy> = Vec::new();
                let mut i: usize = 0;
                while i < items.len()
                    invariant
                        *self == Value::Tuple(*items),
                        0 <= i <= items@.len(),
                        tys@.len() == i,
                        forall|j: int| 0 <= j < i ==> #[trigger] tys@[j].describes(items@[j]),
                    decreases items@.len() - i,
                {
                    proof {
                        assert(decreases_to!(*self => self->Tuple_0));
                        assert(decreases_to!(self->Tuple_0 => self->Tuple_0@));
                        assert(decreases_to!(self->Tuple_0@ => items@[i as int]));
                    }
                    let t = items[i].ty();
                    tys.push(t);
                    i = i + 1;
                }
                let ghost v = *self;
                let r = ValueTy::Tuple(tys);
                proof {
                    assert(v->Tuple_0 == *items);
                    assert(r->Tuple_0 == tys);
                    assert(r.describes(v) == (tys@.len() == items@.len() && forall|j: int|
                        0 <= j < items@.len() ==> tys@[j].describes(items@[j])));
                }
                r
            },
            Value::Bool(_) => ValueTy::Bool,
            Value::Int8(_) => ValueTy::Int8,
            Value::Int16(_) => ValueTy::Int16,
            Value::Int32(_) => ValueTy::Int32,
            Value::Int64(_) => ValueTy::Int64,
            Value::Uint8(_) => ValueTy::Uint8,
            Value::Uint16(_) => ValueTy::Uint16,
            Value::Uint32(_) => ValueTy::Uint32,
            Value::Uint64(_) => ValueTy::Uint64,
            Value::Float32(_) => ValueTy::Float32,
            Value::Float64(_) => ValueTy::Float64,
            Value::Custom(_) => ValueTy::Custom,
            Value::CustomRef(_) => ValueTy::CustomRef,
            Value::CustomMut(_) => ValueTy::CustomMut,
            Value::Array(items) => if items.len() == 0 {
                ValueTy::Array(Box::new(ValueTy::Unknown))
            } else {
                proof {
                    assert(decreases_to!(*self => self->Array_0));
                    assert(decreases_to!(self->Array_0 => self->Array_0@));
                    assert(decreases_to!(self->Array_0@ => items@[0]));
                }
                ValueTy::Array(Box::new(items[0].ty()))
            },
            Value::String(_) => ValueTy::String,
            Value::Error(_) => ValueTy::Unknown,
        }
    }
}

} // verus!

