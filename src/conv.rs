//! Conversions between native values and `Value`: one value at a time
//! (`FromValue`, `IntoValue`), and a whole argument list checked against a
//! declared arity (`FromMultiValue`).
use vstd::prelude::*;

use crate::any::{Any, Native};
use crate::value::{Error, Result, Value, ValueTy};

verus! {

/// What a decode site expecting the variant described by `expected` gives
/// when the value is not the right variant: its error, if it is the error
/// variant, else a type mismatch.
pub open spec fn mismatch<'a, T>(expected: ValueTy, v: Value<'a>, r: Result<T>) -> bool {
    match v {
        Value::Error(e) => r == Err::<T, Error>(e),
        other => match r {
            Err(Error::WrongType { expected: exp, found }) => exp == expected && found.describes(other),
            _ => false,
        },
    }
}

/// Decodes one `Value` into a native value.
pub trait FromValue<'a>: Sized {
    /// The descriptor of the variant this type is decoded from.
    spec fn expected_ty() -> ValueTy;

    /// Whether decoding `v` may give `r`.
    spec fn decodes(v: Value<'a>, r: Result<Self>) -> bool;

    /// The descriptor of the variant this type is decoded from.
    fn out_ty() -> (r: ValueTy)
        ensures
            r == Self::expected_ty(),
    ;

    /// Decodes `v`; the error variant comes back as its own error.
    fn from(v: Value<'a>) -> (r: Result<Self>)
        ensures
            Self::decodes(v, r),
            v is Error ==> r == Err::<Self, Error>(v->Error_0),
    ;
}

impl<'a> FromValue<'a> for i8 {
    open spec fn expected_ty() -> ValueTy {
        ValueTy::Int8
    }

    open spec fn decodes(v: Value<'a>, r: Result<Self>) -> bool {
        match v {
            Value::Int8(x) => r == Ok::<Self, Error>(x),
            other => mismatch(ValueTy::Int8, other, r),
        }
    }

    fn out_ty() -> (r: ValueTy) {
        ValueTy::Int8
    }

    fn from(v: Value<'a>) -> (r: Result<Self>) {
        match v.into_res() {
            Err(e) => Err(e),
            Ok(Value::Int8(x)) => Ok(x),
            Ok(other) => Err(Error::WrongType { expected: ValueTy::Int8, found: other.ty() }),
        }
    }
}

impl<'a> FromValue<'a> for i16 {
    open spec fn expected_ty() -> ValueTy {
        ValueTy::Int16
    }

    open spec fn decodes(v: Value<'a>, r: Result<Self>) -> bool {
        match v {
            Value::Int16(x) => r == Ok::<Self, Error>(x),
            other => mismatch(ValueTy::Int16, other, r),
        }
    }

    fn out_ty() -> (r: ValueTy) {
        ValueTy::Int16
    }

    fn from(v: Value<'a>) -> (r: Result<Self>) {
        match v.into_res() {
            Err(e) => Err(e),
            Ok(Value::Int16(x)) => Ok(x),
            Ok(other) => Err(Error::WrongType { expected: ValueTy::Int16, found: other.ty() }),
        }
    }
}

impl<'a> FromValue<'a> for i32 {
    open spec fn expected_ty() -> ValueTy {
        ValueTy::Int32
    }

    open spec fn decodes(v: Value<'a>, r: Result<Self>) -> bool {
        match v {
            Value::Int32(x) => r == Ok::<Self, Error>(x),
            other => mismatch(ValueTy::Int32, other, r),
        }
    }

    fn out_ty() -> (r: ValueTy) {
        ValueTy::Int32
    }

    fn from(v: Value<'a>) -> (r: Result<Self>) {
        match v.into_res() {
            Err(e) => Err(e),
            Ok(Value::Int32(x)) => Ok(x),
            Ok(other) => Err(Error::WrongType { expected: ValueTy::Int32, found: other.ty() }),
        }
    }
}

impl<'a> FromValue<'a> for i64 {
    open spec fn expected_ty() -> ValueTy {
        ValueTy::Int64
    }

    open spec fn decodes(v: Value<'a>, r: Result<Self>) -> bool {
        match v {
            Value::Int64(x) => r == Ok::<Self, Error>(x),
            other => mismatch(ValueTy::Int64, other, r),
        }
    }

    fn out_ty() -> (r: ValueTy) {
        ValueTy::Int64
    }

    fn from(v: Value<'a>) -> (r: Result<Self>) {
        match v.into_res() {
            Err(e) => Err(e),
            Ok(Value::Int64(x)) => Ok(x),
            Ok(other) => Err(Error::WrongType { expected: ValueTy::Int64, found: other.ty() }),
        }
    }
}

impl<'a> FromValue<'a> for u8 {
    open spec fn expected_ty() -> ValueTy {
        ValueTy::Uint8
    }

    open spec fn decodes(v: Value<'a>, r: Result<Self>) -> bool {
        match v {
            Value::Uint8(x) => r == Ok::<Self, Error>(x),
            other => mismatch(ValueTy::Uint8, other, r),
        }
    }

    fn out_ty() -> (r: ValueTy) {
        ValueTy::Uint8
    }

    fn from(v: Value<'a>) -> (r: Result<Self>) {
        match v.into_res() {
            Err(e) => Err(e),
            Ok(Value::Uint8(x)) => Ok(x),
            Ok(other) => Err(Error::WrongType { expected: ValueTy::Uint8, found: other.ty() }),
        }
    }
}

impl<'a> FromValue<'a> for u16 {
    open spec fn expected_ty() -> ValueTy {
        ValueTy::Uint16
    }

    open spec fn decodes(v: Value<'a>, r: Result<Self>) -> bool {
        match v {
            Value::Uint16(x) => r == Ok::<Self, Error>(x),
            other => mismatch(ValueTy::Uint16, other, r),
        }
    }

    fn out_ty() -> (r: ValueTy) {
        ValueTy::Uint16
    }

    fn from(v: Value<'a>) -> (r: Result<Self>) {
        match v.into_res() {
            Err(e) => Err(e),
            Ok(Value::Uint16(x)) => Ok(x),
            Ok(other) => Err(Error::WrongType { expected: ValueTy::Uint16, found: other.ty() }),
        }
    }
}

impl<'a> FromValue<'a> for u32 {
    open spec fn expected_ty() -> ValueTy {
        ValueTy::Uint32
    }

    open spec fn decodes(v: Value<'a>, r: Result<Self>) -> bool {
        match v {
            Value::Uint32(x) => r == Ok::<Self, Error>(x),
            other => mismatch(ValueTy::Uint32, other, r),
        }
    }

    fn out_ty() -> (r: ValueTy) {
        ValueTy::Uint32
    }

    fn from(v: Value<'a>) -> (r: Result<Self>) {
        match v.into_res() {
            Err(e) => Err(e),
            Ok(Value::Uint32(x)) => Ok(x),
            Ok(other) => Err(Error::WrongType { expected: ValueTy::Uint32, found: other.ty() }),
        }
    }
}

impl<'a> FromValue<'a> for u64 {
    open spec fn expected_ty() -> ValueTy {
        ValueTy::Uint64
    }

    open spec fn decodes(v: Value<'a>, r: Result<Self>) -> bool {
        match v {
            Value::Uint64(x) => r == Ok::<Self, Error>(x),
            other => mismatch(ValueTy::Uint64, other, r),
        }
    }

    fn out_ty() -> (r: ValueTy) {
        ValueTy::Uint64
    }

    fn from(v: Value<'a>) -> (r: Result<Self>) {
        match v.into_res() {
            Err(e) => Err(e),
            Ok(Value::Uint64(x)) => Ok(x),
            Ok(other) => Err(Error::WrongType { expected: ValueTy::Uint64, found: other.ty() }),
        }
    }
}

impl<'a> FromValue<'a> for bool {
    open spec fn expected_ty() -> ValueTy {
        ValueTy::Bool
    }

    open spec fn decodes(v: Value<'a>, r: Result<Self>) -> bool {
        match v {
            Value::Bool(x) => r == Ok::<Self, Error>(x),
            other => mismatch(ValueTy::Bool, other, r),
        }
    }

    fn out_ty() -> (r: ValueTy) {
        ValueTy::Bool
    }

    fn from(v: Value<'a>) -> (r: Result<Self>) {
        match v.into_res() {
            Err(e) => Err(e),
            Ok(Value::Bool(x)) => Ok(x),
            Ok(other) => Err(Error::WrongType { expected: ValueTy::Bool, found: other.ty() }),
        }
    }
}

impl<'a> FromValue<'a> for String {
    open spec fn expected_ty() -> ValueTy {
        ValueTy::String
    }

    open spec fn decodes(v: Value<'a>, r: Result<Self>) -> bool {
        match v {
            Value::String(x) => r == Ok::<Self, Error>(x),
            other => mismatch(ValueTy::String, other, r),
        }
    }

    fn out_ty() -> (r: ValueTy) {
        ValueTy::String
    }

    fn from(v: Value<'a>) -> (r: Result<Self>) {
        match v.into_res() {
            Err(e) => Err(e),
            Ok(Value::String(x)) => Ok(x),
            Ok(other) => Err(Error::WrongType { expected: ValueTy::String, found: other.ty() }),
        }
    }
}

/// Whether `e` is the identity mismatch between the expected type `T` and an
/// object whose type is named `found`.
pub open spec fn wrong_any<T: Native>(e: Error, found: Seq<char>) -> bool {
    match e {
        Error::WrongAny { expected, found: f } => expected@ == T::IDENT@ && f@ == found,
        _ => false,
    }
}

impl<'a, T: FromValue<'a>> FromValue<'a> for Option<T> {
    open spec fn expected_ty() -> ValueTy {
        T::expected_ty()
    }

    open spec fn decodes(v: Value<'a>, r: Result<Self>) -> bool {
        match v {
            Value::Error(e) => r == Err::<Self, Error>(e),
            Value::Nil => r == Ok::<Self, Error>(None),
            other => match r {
                Ok(Some(x)) => T::decodes(other, Ok(x)),
                Ok(None) => false,
                Err(e) => T::decodes(other, Err(e)),
            },
        }
    }

    fn out_ty() -> (r: ValueTy) {
        T::out_ty()
    }

    fn from(v: Value<'a>) -> (r: Result<Self>) {
        match v.into_res() {
            Err(e) => Err(e),
            Ok(Value::Nil) => Ok(None),
            Ok(other) => match T::from(other) {
                Ok(x) => Ok(Some(x)),
                Err(e) => Err(e),
            },
        }
    }
}

impl<'a, T: Native> FromValue<'a> for &'a T {
    open spec fn expected_ty() -> ValueTy {
        ValueTy::CustomRef
    }

    open spec fn decodes(v: Value<'a>, r: Result<Self>) -> bool {
        match v {
            Value::CustomRef(obj) => match r {
                Ok(_) => true,
                Err(e) => wrong_any::<T>(e, obj.ident_spec()),
            },
            other => mismatch(ValueTy::CustomRef, other, r),
        }
    }

    fn out_ty() -> (r: ValueTy) {
        ValueTy::CustomRef
    }

    fn from(v: Value<'a>) -> (r: Result<Self>) {
        match v.into_res() {
            Err(e) => Err(e),
            Ok(Value::CustomRef(obj)) => match obj.downcast_ref::<T>() {
                Some(x) => Ok(x),
                None => Err(Error::WrongAny { expected: T::IDENT, found: obj.type_ident() }),
            },
            Ok(other) => Err(Error::WrongType { expected: ValueTy::CustomRef, found: other.ty() }),
        }
    }
}

impl<'a, T: Native> FromValue<'a> for &'a mut T {
    open spec fn expected_ty() -> ValueTy {
        ValueTy::CustomMut
    }

    open spec fn decodes(v: Value<'a>, r: Result<Self>) -> bool {
        match v {
            Value::CustomMut(obj) => match r {
                Ok(_) => true,
                Err(e) => wrong_any::<T>(e, obj.ident_spec()),
            },
            other => mismatch(ValueTy::CustomMut, other, r),
        }
    }

    fn out_ty() -> (r: ValueTy) {
        ValueTy::CustomMut
    }

    fn from(v: Value<'a>) -> (r: Result<Self>) {
        match v.into_res() {
            Err(e) => Err(e),
            Ok(Value::CustomMut(obj)) => {
                let found = obj.type_ident();
                match obj.downcast_mut::<T>() {
                    Some(x) => Ok(x),
                    None => Err(Error::WrongAny { expected: T::IDENT, found }),
                }
            },
            Ok(other) => Err(Error::WrongType { expected: ValueTy::CustomMut, found: other.ty() }),
        }
    }
}

/// Encodes a native value into a `Value`.
pub trait IntoValue: Sized {
    /// The descriptor of the variant this type is encoded into.
    spec fn produced_ty() -> ValueTy;

    /// Whether `v` is an encoding of `self`.
    spec fn encodes(self, v: Value<'static>) -> bool;

    /// The descriptor of the variant this type is encoded into.
    fn in_ty() -> (r: ValueTy)
        ensures
            r == Self::produced_ty(),
    ;

    /// Encodes `self`; this always succeeds, into the declared variant.
    fn into(self) -> (r: Result<Value<'static>>)
        ensures
            r is Ok,
            self.encodes(r->Ok_0),
            Self::produced_ty().describes(r->Ok_0),
    ;
}

impl IntoValue for () {
    open spec fn produced_ty() -> ValueTy {
        ValueTy::Void
    }

    open spec fn encodes(self, v: Value<'static>) -> bool {
        v == Value::<'static>::Void
    }

    fn in_ty() -> (r: ValueTy) {
        ValueTy::Void
    }

    fn into(self) -> (r: Result<Value<'static>>) {
        Ok(Value::Void)
    }
}

impl IntoValue for i8 {
    open spec fn produced_ty() -> ValueTy {
        ValueTy::Int8
    }

    open spec fn encodes(self, v: Value<'static>) -> bool {
        v == Value::<'static>::Int8(self)
    }

    fn in_ty() -> (r: ValueTy) {
        ValueTy::Int8
    }

    fn into(self) -> (r: Result<Value<'static>>) {
        Ok(Value::Int8(self))
    }
}

impl IntoValue for i16 {
    open spec fn produced_ty() -> ValueTy {
        ValueTy::Int16
    }

    open spec fn encodes(self, v: Value<'static>) -> bool {
        v == Value::<'static>::Int16(self)
    }

    fn in_ty() -> (r: ValueTy) {
        ValueTy::Int16
    }

    fn into(self) -> (r: Result<Value<'static>>) {
        Ok(Value::Int16(self))
    }
}

impl IntoValue for i32 {
    open spec fn produced_ty() -> ValueTy {
        ValueTy::Int32
    }

    open spec fn encodes(self, v: Value<'static>) -> bool {
        v == Value::<'static>::Int32(self)
    }

    fn in_ty() -> (r: ValueTy) {
        ValueTy::Int32
    }

    fn into(self) -> (r: Result<Value<'static>>) {
        Ok(Value::Int32(self))
    }
}

impl IntoValue for i64 {
    open spec fn produced_ty() -> ValueTy {
        ValueTy::Int64
    }

    open spec fn encodes(self, v: Value<'static>) -> bool {
        v == Value::<'static>::Int64(self)
    }

    fn in_ty() -> (r: ValueTy) {
        ValueTy::Int64
    }

    fn into(self) -> (r: Result<Value<'static>>) {
        Ok(Value::Int64(self))
    }
}

impl IntoValue for u8 {
    open spec fn produced_ty() -> ValueTy {
        ValueTy::Uint8
    }

    open spec fn encodes(self, v: Value<'static>) -> bool {
        v == Value::<'static>::Uint8(self)
    }

    fn in_ty() -> (r: ValueTy) {
        ValueTy::Uint8
    }

    fn into(self) -> (r: Result<Value<'static>>) {
        Ok(Value::Uint8(self))
    }
}

impl IntoValue for u16 {
    open spec fn produced_ty() -> ValueTy {
        ValueTy::Uint16
    }

    open spec fn encodes(self, v: Value<'static>) -> bool {
        v == Value::<'static>::Uint16(self)
    }

    fn in_ty() -> (r: ValueTy) {
        ValueTy::Uint16
    }

    fn into(self) -> (r: Result<Value<'static>>) {
        Ok(Value::Uint16(self))
    }
}

impl IntoValue for u32 {
    open spec fn produced_ty() -> ValueTy {
        ValueTy::Uint32
    }

    open spec fn encodes(self, v: Value<'static>) -> bool {
        v == Value::<'static>::Uint32(self)
    }

    fn in_ty() -> (r: ValueTy) {
        ValueTy::Uint32
    }

    fn into(self) -> (r: Result<Value<'static>>) {
        Ok(Value::Uint32(self))
    }
}

impl IntoValue for u64 {
    open spec fn produced_ty() -> ValueTy {
        ValueTy::Uint64
    }

    open spec fn encodes(self, v: Value<'static>) -> bool {
        v == Value::<'static>::Uint64(self)
    }

    fn in_ty() -> (r: ValueTy) {
        ValueTy::Uint64
    }

    fn into(self) -> (r: Result<Value<'static>>) {
        Ok(Value::Uint64(self))
    }
}

impl IntoValue for bool {
    open spec fn produced_ty() -> ValueTy {
        ValueTy::Bool
    }

    open spec fn encodes(self, v: Value<'static>) -> bool {
        v == Value::<'static>::Bool(self)
    }

    fn in_ty() -> (r: ValueTy) {
        ValueTy::Bool
    }

    fn into(self) -> (r: Result<Value<'static>>) {
        Ok(Value::Bool(self))
    }
}

impl IntoValue for String {
    open spec fn produced_ty() -> ValueTy {
        ValueTy::String
    }

    open spec fn encodes(self, v: Value<'static>) -> bool {
        v == Value::<'static>::String(self)
    }

    fn in_ty() -> (r: ValueTy) {
        ValueTy::String
    }

    fn into(self) -> (r: Result<Value<'static>>) {
        Ok(Value::String(self))
    }
}

impl<T: Native> IntoValue for Box<T> {
    open spec fn produced_ty() -> ValueTy {
        ValueTy::Custom
    }

    open spec fn encodes(self, v: Value<'static>) -> bool {
        v is Custom && v->Custom_0.ident_spec() == T::IDENT@
    }

    fn in_ty() -> (r: ValueTy) {
        ValueTy::Custom
    }

    fn into(self) -> (r: Result<Value<'static>>) {
        Ok(Value::Custom(Any::new(*self)))
    }
}

/// Whether every value that encodes `x` decodes back to `x`.
pub open spec fn round_trips<T: FromValue<'static> + IntoValue>(x: T) -> bool {
    forall|v: Value<'static>, r: Result<T>| x.encodes(v) && T::decodes(v, r) ==> r == Ok::<T, Error>(x)
}

/// Encoding a scalar or a string and decoding the value again gives back
/// the same native value.
pub proof fn lemma_scalar_round_trip(
    b: bool,
    i1: i8,
    i2: i16,
    i3: i32,
    i4: i64,
    u1: u8,
    u2: u16,
    u3: u32,
    u4: u64,
    s: String,
)
    ensures
        round_trips(b),
        round_trips(i1),
        round_trips(i2),
        round_trips(i3),
        round_trips(i4),
        round_trips(u1),
        round_trips(u2),
        round_trips(u3),
        round_trips(u4),
        round_trips(s),
{
}

/// The arguments of a call, in order.
pub type MultiVal<'a> = Vec<Value<'a>>;

/// The error for `found` arguments where `expected` were declared.
pub open spec fn arity_error(expected: nat, found: nat) -> Error {
    Error::WrongArgsNumber { expected: expected as u16, found: found as u16 }
}

/// Checks a count of arguments against the declared arity.
pub fn check_arity(found: usize, expected: u16) -> (r: Result<()>)
    ensures
        r == if found == expected as usize {
            Ok::<(), Error>(())
        } else {
            Err(arity_error(expected as nat, found as nat))
        },
{
    if found == expected as usize {
        Ok(())
    } else {
        Err(Error::WrongArgsNumber { expected, found: found as u16 })
    }
}

/// Decodes an ordered argument list into a tuple of native values.
pub trait FromMultiValue<'a>: Sized {
    /// The number of arguments.
    spec fn arity() -> nat;

    /// The descriptors of the arguments, in order.
    spec fn expected_tys() -> Seq<ValueTy>;

    /// Whether decoding the arguments `vs`, whose count is the arity, may give `r`.
    spec fn decodes_all(vs: Seq<Value<'a>>, r: Result<Self>) -> bool;

    /// The arity fits the count of an arity-mismatch error.
    proof fn lemma_arity_fits()
        ensures
            Self::arity() <= u16::MAX,
    ;

    /// The descriptors of the arguments, in order.
    fn multi_ty() -> (r: Vec<ValueTy>)
        ensures
            r@ == Self::expected_tys(),
            r@.len() == Self::arity(),
    ;

    /// Decodes the arguments; a count other than the arity fails before any
    /// argument is decoded.
    fn from(v: MultiVal<'a>) -> (r: Result<Self>)
        ensures
            v@.len() != Self::arity() ==> r == Err::<Self, Error>(arity_error(Self::arity(), v@.len())),
            v@.len() == Self::arity() ==> Self::decodes_all(v@, r),
    ;
}

impl<'a> FromMultiValue<'a> for () {
    open spec fn arity() -> nat {
        0
    }

    proof fn lemma_arity_fits() {
    }

    open spec fn expected_tys() -> Seq<ValueTy> {
        Seq::<ValueTy>::empty()
    }

    open spec fn decodes_all(vs: Seq<Value<'a>>, r: Result<Self>) -> bool {
        r == Ok::<Self, Error>(())
    }

    fn multi_ty() -> (r: Vec<ValueTy>) {
        Vec::new()
    }

    fn from(v: MultiVal<'a>) -> (r: Result<Self>) {
        match check_arity(v.len(), 0) {
            Err(e) => {
                return Err(e);
            },
            Ok(()) => {},
        }
        Ok(())
    }
}

impl<'a, A: FromValue<'a>> FromMultiValue<'a> for (A,) {
    open spec fn arity() -> nat {
        1
    }

    proof fn lemma_arity_fits() {
    }

    open spec fn expected_tys() -> Seq<ValueTy> {
        seq![A::expected_ty()]
    }

    open spec fn decodes_all(vs: Seq<Value<'a>>, r: Result<Self>) -> bool {
        match r {
            Ok((a,)) => A::decodes(vs[0], Ok(a)),
            Err(err) => A::decodes(vs[0], Err(err)),
        }
    }

    fn multi_ty() -> (r: Vec<ValueTy>) {
        let mut r: Vec<ValueTy> = Vec::new();
        r.push(A::out_ty());
        proof {
            assert(r@ =~= seq![A::expected_ty()]);
        }
        r
    }

    fn from(v: MultiVal<'a>) -> (r: Result<Self>) {
        match check_arity(v.len(), 1) {
            Err(e) => {
                return Err(e);
            },
            Ok(()) => {},
        }
        let mut v = v;
        let a = match A::from(v.remove(0)) {
            Ok(x) => x,
            Err(e) => {
                return Err(e);
            },
        };
        Ok((a,))
    }
}

impl<'a, A: FromValue<'a>, B: FromValue<'a>> FromMultiValue<'a> for (A, B) {
    open spec fn arity() -> nat {
        2
    }

    proof fn lemma_arity_fits() {
    }

    open spec fn expected_tys() -> Seq<ValueTy> {
        seq![A::expected_ty(), B::expected_ty()]
    }

    open spec fn decodes_all(vs: Seq<Value<'a>>, r: Result<Self>) -> bool {
        match r {
            Ok((a, b)) => A::decodes(vs[0], Ok(a)) && B::decodes(vs[1], Ok(b)),
            Err(err) => A::decodes(vs[0], Err(err))
                || (exists|a: A| #![trigger A::decodes(vs[0], Ok(a))] A::decodes(vs[0], Ok(a)) && B::decodes(vs[1], Err(err))),
        }
    }

    fn multi_ty() -> (r: Vec<ValueTy>) {
        let mut r: Vec<ValueTy> = Vec::new();
        r.push(A::out_ty());
        r.push(B::out_ty());
        proof {
            assert(r@ =~= seq![A::expected_ty(), B::expected_ty()]);
        }
        r
    }

    fn from(v: MultiVal<'a>) -> (r: Result<Self>) {
        match check_arity(v.len(), 2) {
            Err(e) => {
                return Err(e);
            },
            Ok(()) => {},
        }
        let mut v = v;
        let a = match A::from(v.remove(0)) {
            Ok(x) => x,
            Err(e) => {
                return Err(e);
            },
        };
        let b = match B::from(v.remove(0)) {
            Ok(x) => x,
            Err(e) => {
                return Err(e);
            },
        };
        Ok((a, b))
    }
}

impl<'a, A: FromValue<'a>, B: FromValue<'a>, C: FromValue<'a>> FromMultiValue<'a> for (A, B, C) {
    open spec fn arity() -> nat {
        3
    }

    proof fn lemma_arity_fits() {
    }

    open spec fn expected_tys() -> Seq<ValueTy> {
        seq![A::expected_ty(), B::expected_ty(), C::expected_ty()]
    }

    open spec fn decodes_all(vs: Seq<Value<'a>>, r: Result<Self>) -> bool {
        match r {
            Ok((a, b, c)) => A::decodes(vs[0], Ok(a)) && B::decodes(vs[1], Ok(b)) && C::decodes(vs[2], Ok(c)),
            Err(err) => A::decodes(vs[0], Err(err))
                || (exists|a: A| #![trigger A::decodes(vs[0], Ok(a))] A::decodes(vs[0], Ok(a)) && B::decodes(vs[1], Err(err)))
                || (exists|a: A, b: B| #![trigger A::decodes(vs[0], Ok(a)), B::decodes(vs[1], Ok(b))] A::decodes(vs[0], Ok(a)) && B::decodes(vs[1], Ok(b)) && C::decodes(vs[2], Err(err))),
        }
    }

    fn multi_ty() -> (r: Vec<ValueTy>) {
        let mut r: Vec<ValueTy> = Vec::new();
        r.push(A::out_ty());
        r.push(B::out_ty());
        r.push(C::out_ty());
        proof {
            assert(r@ =~= seq![A::expected_ty(), B::expected_ty(), C::expected_ty()]);
        }
        r
    }

    fn from(v: MultiVal<'a>) -> (r: Result<Self>) {
        match check_arity(v.len(), 3) {
            Err(e) => {
                return Err(e);
            },
            Ok(()) => {},
        }
        let mut v = v;
        let a = match A::from(v.remove(0)) {
            Ok(x) => x,
            Err(e) => {
                return Err(e);
            },
        };
        let b = match B::from(v.remove(0)) {
            Ok(x) => x,
            Err(e) => {
                return Err(e);
            },
        };
        let c = match C::from(v.remove(0)) {
            Ok(x) => x,
            Err(e) => {
                return Err(e);
            },
        };
        Ok((a, b, c))
    }
}

impl<'a, A: FromValue<'a>, B: FromValue<'a>, C: FromValue<'a>, D: FromValue<'a>> FromMultiValue<'a> for (A, B, C, D) {
    open spec fn arity() -> nat {
        4
    }

    proof fn lemma_arity_fits() {
    }

    open spec fn expected_tys() -> Seq<ValueTy> {
        seq![A::expected_ty(), B::expected_ty(), C::expected_ty(), D::expected_ty()]
    }

    open spec fn decodes_all(vs: Seq<Value<'a>>, r: Result<Self>) -> bool {
        match r {
            Ok((a, b, c, d)) => A::decodes(vs[0], Ok(a)) && B::decodes(vs[1], Ok(b)) && C::decodes(vs[2], Ok(c)) && D::decodes(vs[3], Ok(d)),
            Err(err) => A::decodes(vs[0], Err(err))
                || (exists|a: A| #![trigger A::decodes(vs[0], Ok(a))] A::decodes(vs[0], Ok(a)) && B::decodes(vs[1], Err(err)))
                || (exists|a: A, b: B| #![trigger A::decodes(vs[0], Ok(a)), B::decodes(vs[1], Ok(b))] A::decodes(vs[0], Ok(a)) && B::decodes(vs[1], Ok(b)) && C::decodes(vs[2], Err(err)))
                || (exists|a: A, b: B, c: C| #![trigger A::decodes(vs[0], Ok(a)), B::decodes(vs[1], Ok(b)), C::decodes(vs[2], Ok(c))] A::decodes(vs[0], Ok(a)) && B::decodes(vs[1], Ok(b)) && C::decodes(vs[2], Ok(c)) && D::decodes(vs[3], Err(err))),
        }
    }

    fn multi_ty() -> (r: Vec<ValueTy>) {
        let mut r: Vec<ValueTy> = Vec::new();
        r.push(A::out_ty());
        r.push(B::out_ty());
        r.push(C::out_ty());
        r.push(D::out_ty());
        proof {
            assert(r@ =~= seq![A::expected_ty(), B::expected_ty(), C::expected_ty(), D::expected_ty()]);
        }
        r
    }

    fn from(v: MultiVal<'a>) -> (r: Result<Self>) {
        match check_arity(v.len(), 4) {
            Err(e) => {
                return Err(e);
            },
            Ok(()) => {},
        }
        let mut v = v;
        let a = match A::from(v.remove(0)) {
            Ok(x) => x,
            Err(e) => {
                return Err(e);
            },
        };
        let b = match B::from(v.remove(0)) {
            Ok(x) => x,
            Err(e) => {
                return Err(e);
            },
        };
        let c = match C::from(v.remove(0)) {
            Ok(x) => x,
            Err(e) => {
                return Err(e);
            },
        };
        let d = match D::from(v.remove(0)) {
            Ok(x) => x,
            Err(e) => {
                return Err(e);
            },
        };
        Ok((a, b, c, d))
    }
}

impl<'a, A: FromValue<'a>, B: FromValue<'a>, C: FromValue<'a>, D: FromValue<'a>, E: FromValue<'a>> FromMultiValue<'a> for (A, B, C, D, E) {
    open spec fn arity() -> nat {
        5
    }

    proof fn lemma_arity_fits() {
    }

    open spec fn expected_tys() -> Seq<ValueTy> {
        seq![A::expected_ty(), B::expected_ty(), C::expected_ty(), D::expected_ty(), E::expected_ty()]
    }

    open spec fn decodes_all(vs: Seq<Value<'a>>, r: Result<Self>) -> bool {
        match r {
            Ok((a, b, c, d, e)) => A::decodes(vs[0], Ok(a)) && B::decodes(vs[1], Ok(b)) && C::decodes(vs[2], Ok(c)) && D::decodes(vs[3], Ok(d)) && E::decodes(vs[4], Ok(e)),
            Err(err) => A::decodes(vs[0], Err(err))
                || (exists|a: A| #![trigger A::decodes(vs[0], Ok(a))] A::decodes(vs[0], Ok(a)) && B::decodes(vs[1], Err(err)))
                || (exists|a: A, b: B| #![trigger A::decodes(vs[0], Ok(a)), B::decodes(vs[1], Ok(b))] A::decodes(vs[0], Ok(a)) && B::decodes(vs[1], Ok(b)) && C::decodes(vs[2], Err(err)))
                || (exists|a: A, b: B, c: C| #![trigger A::decodes(vs[0], Ok(a)), B::decodes(vs[1], Ok(b)), C::decodes(vs[2], Ok(c))] A::decodes(vs[0], Ok(a)) && B::decodes(vs[1], Ok(b)) && C::decodes(vs[2], Ok(c)) && D::decodes(vs[3], Err(err)))
                || (exists|a: A, b: B, c: C, d: D| #![trigger A::decodes(vs[0], Ok(a)), B::decodes(vs[1], Ok(b)), C::decodes(vs[2], Ok(c)), D::decodes(vs[3], Ok(d))] A::decodes(vs[0], Ok(a)) && B::decodes(vs[1], Ok(b)) && C::decodes(vs[2], Ok(c)) && D::decodes(vs[3], Ok(d)) && E::decodes(vs[4], Err(err))),
        }
    }

    fn multi_ty() -> (r: Vec<ValueTy>) {
        let mut r: Vec<ValueTy> = Vec::new();
        r.push(A::out_ty());
        r.push(B::out_ty());
        r.push(C::out_ty());
        r.push(D::out_ty());
        r.push(E::out_ty());
        proof {
            assert(r@ =~= seq![A::expected_ty(), B::expected_ty(), C::expected_ty(), D::expected_ty(), E::expected_ty()]);
        }
        r
    }

    fn from(v: MultiVal<'a>) -> (r: Result<Self>) {
        match check_arity(v.len(), 5) {
            Err(e) => {
                return Err(e);
            },
            Ok(()) => {},
        }
        let mut v = v;
        let a = match A::from(v.remove(0)) {
            Ok(x) => x,
            Err(e) => {
                return Err(e);
            },
        };
        let b = match B::from(v.remove(0)) {
            Ok(x) => x,
            Err(e) => {
                return Err(e);
            },
        };
        let c = match C::from(v.remove(0)) {
            Ok(x) => x,
            Err(e) => {
                return Err(e);
            },
        };
        let d = match D::from(v.remove(0)) {
            Ok(x) => x,
            Err(e) => {
                return Err(e);
            },
        };
        let e = match E::from(v.remove(0)) {
            Ok(x) => x,
            Err(e) => {
                return Err(e);
            },
        };
        Ok((a, b, c, d, e))
    }
}

impl<'a, A: FromValue<'a>, B: FromValue<'a>, C: FromValue<'a>, D: FromValue<'a>, E: FromValue<'a>, F: FromValue<'a>> FromMultiValue<'a> for (A, B, C, D, E, F) {
    open spec fn arity() -> nat {
        6
    }

    proof fn lemma_arity_fits() {
    }

    open spec fn expected_tys() -> Seq<ValueTy> {
        seq![A::expected_ty(), B::expected_ty(), C::expected_ty(), D::expected_ty(), E::expected_ty(), F::expected_ty()]
    }

    open spec fn decodes_all(vs: Seq<Value<'a>>, r: Result<Self>) -> bool {
        match r {
            Ok((a, b, c, d, e, f)) => A::decodes(vs[0], Ok(a)) && B::decodes(vs[1], Ok(b)) && C::decodes(vs[2], Ok(c)) && D::decodes(vs[3], Ok(d)) && E::decodes(vs[4], Ok(e)) && F::decodes(vs[5], Ok(f)),
            Err(err) => A::decodes(vs[0], Err(err))
                || (exists|a: A| #![trigger A::decodes(vs[0], Ok(a))] A::decodes(vs[0], Ok(a)) && B::decodes(vs[1], Err(err)))
                || (exists|a: A, b: B| #![trigger A::decodes(vs[0], Ok(a)), B::decodes(vs[1], Ok(b))] A::decodes(vs[0], Ok(a)) && B::decodes(vs[1], Ok(b)) && C::decodes(vs[2], Err(err)))
                || (exists|a: A, b: B, c: C| #![trigger A::decodes(vs[0], Ok(a)), B::decodes(vs[1], Ok(b)), C::decodes(vs[2], Ok(c))] A::decodes(vs[0], Ok(a)) && B::decodes(vs[1], Ok(b)) && C::decodes(vs[2], Ok(c)) && D::decodes(vs[3], Err(err)))
                || (exists|a: A, b: B, c: C, d: D| #![trigger A::decodes(vs[0], Ok(a)), B::decodes(vs[1], Ok(b)), C::decodes(vs[2], Ok(c)), D::decodes(vs[3], Ok(d))] A::decodes(vs[0], Ok(a)) && B::decodes(vs[1], Ok(b)) && C::decodes(vs[2], Ok(c)) && D::decodes(vs[3], Ok(d)) && E::decodes(vs[4], Err(err)))
                || (exists|a: A, b: B, c: C, d: D, e: E| #![trigger A::decodes(vs[0], Ok(a)), B::decodes(vs[1], Ok(b)), C::decodes(vs[2], Ok(c)), D::decodes(vs[3], Ok(d)), E::decodes(vs[4], Ok(e))] A::decodes(vs[0], Ok(a)) && B::decodes(vs[1], Ok(b)) && C::decodes(vs[2], Ok(c)) && D::decodes(vs[3], Ok(d)) && E::decodes(vs[4], Ok(e)) && F::decodes(vs[5], Err(err))),
        }
    }

    fn multi_ty() -> (r: Vec<ValueTy>) {
        let mut r: Vec<ValueTy> = Vec::new();
        r.push(A::out_ty());
        r.push(B::out_ty());
        r.push(C::out_ty());
        r.push(D::out_ty());
        r.push(E::out_ty());
        r.push(F::out_ty());
        proof {
            assert(r@ =~= seq![A::expected_ty(), B::expected_ty(), C::expected_ty(), D::expected_ty(), E::expected_ty(), F::expected_ty()]);
        }
        r
    }

    fn from(v: MultiVal<'a>) -> (r: Result<Self>) {
        match check_arity(v.len(), 6) {
            Err(e) => {
                return Err(e);
            },
            Ok(()) => {},
        }
        let mut v = v;
        let a = match A::from(v.remove(0)) {
            Ok(x) => x,
            Err(e) => {
                return Err(e);
            },
        };
        let b = match B::from(v.remove(0)) {
            Ok(x) => x,
            Err(e) => {
                return Err(e);
            },
        };
        let c = match C::from(v.remove(0)) {
            Ok(x) => x,
            Err(e) => {
                return Err(e);
            },
        };
        let d = match D::from(v.remove(0)) {
            Ok(x) => x,
            Err(e) => {
                return Err(e);
            },
        };
        let e = match E::from(v.remove(0)) {
            Ok(x) => x,
            Err(e) => {
                return Err(e);
            },
        };
        let f = match F::from(v.remove(0)) {
            Ok(x) => x,
            Err(e) => {
                return Err(e);
            },
        };
        Ok((a, b, c, d, e, f))
    }
}

/// A boolean decoded where an integer is expected fails with a type
/// mismatch: the integer's descriptor expected, the boolean's found.
pub proof fn lemma_bool_at_integer_site<'a>(
    b: bool,
    ri8: Result<i8>,
    ri16: Result<i16>,
    ri32: Result<i32>,
    ri64: Result<i64>,
    ru8: Result<u8>,
    ru16: Result<u16>,
    ru32: Result<u32>,
    ru64: Result<u64>,
)
    requires
        <i8 as FromValue<'a>>::decodes(Value::Bool(b), ri8),
        <i16 as FromValue<'a>>::decodes(Value::Bool(b), ri16),
        <i32 as FromValue<'a>>::decodes(Value::Bool(b), ri32),
        <i64 as FromValue<'a>>::decodes(Value::Bool(b), ri64),
        <u8 as FromValue<'a>>::decodes(Value::Bool(b), ru8),
        <u16 as FromValue<'a>>::decodes(Value::Bool(b), ru16),
        <u32 as FromValue<'a>>::decodes(Value::Bool(b), ru32),
        <u64 as FromValue<'a>>::decodes(Value::Bool(b), ru64),
    ensures
        ri8 == Err::<i8, Error>(Error::WrongType { expected: ValueTy::Int8, found: ValueTy::Bool }),
        ri16 == Err::<i16, Error>(Error::WrongType { expected: ValueTy::Int16, found: ValueTy::Bool }),
        ri32 == Err::<i32, Error>(Error::WrongType { expected: ValueTy::Int32, found: ValueTy::Bool }),
        ri64 == Err::<i64, Error>(Error::WrongType { expected: ValueTy::Int64, found: ValueTy::Bool }),
        ru8 == Err::<u8, Error>(Error::WrongType { expected: ValueTy::Uint8, found: ValueTy::Bool }),
        ru16 == Err::<u16, Error>(Error::WrongType { expected: ValueTy::Uint16, found: ValueTy::Bool }),
        ru32 == Err::<u32, Error>(Error::WrongType { expected: ValueTy::Uint32, found: ValueTy::Bool }),
        ru64 == Err::<u64, Error>(Error::WrongType { expected: ValueTy::Uint64, found: ValueTy::Bool }),
{
}

/// A borrowed native object decoded where a reference to `T` is expected
/// either gives the typed view or fails with the identity mismatch that
/// names `T` and the object's type.
pub proof fn lemma_identity_mismatch<'a, T: Native>(obj: &'a Any, r: Result<&'a T>)
    requires
        <&'a T as FromValue<'a>>::decodes(Value::CustomRef(obj), r),
        r is Err,
    ensures
        wrong_any::<T>(r->Err_0, obj.ident_spec()),
{
}

/// The same for an object borrowed exclusively, where an exclusive
/// reference to `T` is expected.
pub proof fn lemma_identity_mismatch_mut<'a, T: Native>(v: Value<'a>, r: Result<&'a mut T>)
    requires
        v is CustomMut,
        <&'a mut T as FromValue<'a>>::decodes(v, r),
        r is Err,
    ensures
        wrong_any::<T>(r->Err_0, v->CustomMut_0.ident_spec()),
{
}

} // verus!
