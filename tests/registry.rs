use std::any::TypeId;

use gsf::{
    check_arity, Any, Builder, Error, FromValue, IntoValue, Native, PropertyBuilder, TyBuilder,
    Value, ValueTy,
};

struct Foo(i32);

impl Native for Foo {
    const IDENT: &'static str = "Foo";
}

struct Bar;

impl Native for Bar {
    const IDENT: &'static str = "Bar";
}

fn foo_ty() -> TyBuilder<Foo> {
    TyBuilder::<Foo>::new("Foo")
        .with_function("new", |(nr,): (i32,)| Box::new(Foo(nr)))
        .with_function("sum_up", |(a, b): (u64, u64)| a + b)
        .with_method("foo_sq", |foo: &Foo, (): ()| foo.0 * foo.0)
        .with_method_mut("bump", |foo: &mut Foo, (by,): (i32,)| {
            foo.0 += by;
            foo.0
        })
        .with_property(
            PropertyBuilder::new("value")
                .with_getter(|this: &Foo| this.0)
                .with_setter(|this: &mut Foo, val: i32| this.0 = val),
        )
}

#[test]
fn sum_up_adds_and_checks_arity() {
    let ty = foo_ty();
    let sum_up = &ty.ty.functions[1];
    assert_eq!(sum_up.ident, "sum_up");
    assert_eq!(sum_up.args, vec![ValueTy::Uint64, ValueTy::Uint64]);
    assert_eq!(sum_up.ret, ValueTy::Uint64);
    let r = sum_up.call(vec![Value::Uint64(1), Value::Uint64(9)]);
    assert!(matches!(r, Value::Uint64(10)));
    let r = sum_up.call(vec![Value::Uint64(1)]);
    match r {
        Value::Error(e) => assert_eq!(e, Error::WrongArgsNumber { expected: 2, found: 1 }),
        _ => panic!("expected an arity error"),
    }
}

#[test]
fn too_many_arguments_report_both_counts() {
    let ty = foo_ty();
    let sum_up = &ty.ty.functions[1];
    let r = sum_up.call(vec![Value::Uint64(1), Value::Uint64(2), Value::Uint64(3)]);
    match r {
        Value::Error(e) => assert_eq!(e, Error::WrongArgsNumber { expected: 2, found: 3 }),
        _ => panic!("expected an arity error"),
    }
    let r = sum_up.call(vec![]);
    match r {
        Value::Error(e) => assert_eq!(e, Error::WrongArgsNumber { expected: 2, found: 0 }),
        _ => panic!("expected an arity error"),
    }
}

#[test]
fn arity_is_checked_before_any_decode() {
    let ty = foo_ty();
    let sum_up = &ty.ty.functions[1];
    let r = sum_up.call(vec![Value::Bool(true)]);
    match r {
        Value::Error(e) => assert_eq!(e, Error::WrongArgsNumber { expected: 2, found: 1 }),
        _ => panic!("expected an arity error"),
    }
}

#[test]
fn wrong_argument_type_is_reported() {
    let ty = foo_ty();
    let sum_up = &ty.ty.functions[1];
    let r = sum_up.call(vec![Value::Uint64(1), Value::Bool(false)]);
    match r {
        Value::Error(e) => assert_eq!(
            e,
            Error::WrongType { expected: ValueTy::Uint64, found: ValueTy::Bool }
        ),
        _ => panic!("expected a type error"),
    }
}

#[test]
fn property_set_then_get() {
    let ty = foo_ty();
    let new = &ty.ty.functions[0];
    let mut obj = match new.call(vec![Value::Int32(42)]) {
        Value::Custom(obj) => obj,
        _ => panic!("expected a native object"),
    };
    assert_eq!(obj.type_ident(), "Foo");
    let prop = &ty.ty.properties[0];
    assert_eq!(prop.ident, "value");
    assert_eq!(prop.ty, ValueTy::Int32);
    let set = prop.set.as_ref().unwrap();
    let get = prop.get.as_ref().unwrap();
    let r = set.call(vec![Value::CustomMut(&mut obj), Value::Int32(43)]);
    assert!(matches!(r, Value::Void));
    let r = get.call(vec![Value::CustomRef(&obj)]);
    assert!(matches!(r, Value::Int32(43)));
}

#[test]
fn methods_take_self_first() {
    let ty = foo_ty();
    let sq = &ty.ty.methods[0];
    assert_eq!(sq.args, vec![ValueTy::CustomRef]);
    assert_eq!(sq.ret, ValueTy::Int32);
    let mut obj = Any::new(Foo(8));
    let r = sq.call(vec![Value::CustomRef(&obj)]);
    assert!(matches!(r, Value::Int32(64)));
    let bump = &ty.ty.methods[1];
    assert_eq!(bump.args, vec![ValueTy::CustomMut, ValueTy::Int32]);
    let r = bump.call(vec![Value::CustomMut(&mut obj), Value::Int32(2)]);
    assert!(matches!(r, Value::Int32(10)));
    let r = sq.call(vec![Value::CustomRef(&obj)]);
    assert!(matches!(r, Value::Int32(100)));
}

#[test]
fn method_without_self_is_missing_self() {
    let ty = foo_ty();
    for m in ty.ty.methods.iter() {
        match m.call(vec![]) {
            Value::Error(e) => assert_eq!(e, Error::MissingSelfArg),
            _ => panic!("expected a missing self"),
        }
    }
    let prop = &ty.ty.properties[0];
    match prop.get.as_ref().unwrap().call(vec![]) {
        Value::Error(e) => assert_eq!(e, Error::MissingSelfArg),
        _ => panic!("expected a missing self"),
    }
    match prop.set.as_ref().unwrap().call(vec![]) {
        Value::Error(e) => assert_eq!(e, Error::MissingSelfArg),
        _ => panic!("expected a missing self"),
    }
}

#[test]
fn method_with_non_object_self_is_type_error() {
    let ty = foo_ty();
    let sq = &ty.ty.methods[0];
    match sq.call(vec![Value::Uint64(3)]) {
        Value::Error(e) => assert_eq!(
            e,
            Error::WrongType { expected: ValueTy::CustomRef, found: ValueTy::Uint64 }
        ),
        _ => panic!("expected a type error"),
    }
}

#[test]
fn method_arity_counts_arguments_after_self() {
    let ty = foo_ty();
    let bump = &ty.ty.methods[1];
    let mut obj = Any::new(Foo(1));
    match bump.call(vec![Value::CustomMut(&mut obj)]) {
        Value::Error(e) => assert_eq!(e, Error::WrongArgsNumber { expected: 1, found: 0 }),
        _ => panic!("expected an arity error"),
    }
}

#[test]
fn setter_without_value_is_arity_error() {
    let ty = foo_ty();
    let set = ty.ty.properties[0].set.as_ref().unwrap();
    let mut obj = Any::new(Foo(1));
    match set.call(vec![Value::CustomMut(&mut obj)]) {
        Value::Error(e) => assert_eq!(e, Error::WrongArgsNumber { expected: 1, found: 0 }),
        _ => panic!("expected an arity error"),
    }
}

#[test]
fn setter_with_wrong_value_type_is_type_error() {
    let ty = foo_ty();
    let set = ty.ty.properties[0].set.as_ref().unwrap();
    let mut obj = Any::new(Foo(1));
    match set.call(vec![Value::CustomMut(&mut obj), Value::String("x".to_string())]) {
        Value::Error(e) => assert_eq!(
            e,
            Error::WrongType { expected: ValueTy::Int32, found: ValueTy::String }
        ),
        _ => panic!("expected a type error"),
    }
}

#[test]
fn object_of_other_type_is_identity_mismatch() {
    let ty = foo_ty();
    let sq = &ty.ty.methods[0];
    let bar = Any::new(Bar);
    match sq.call(vec![Value::CustomRef(&bar)]) {
        Value::Error(e) => assert_eq!(e, Error::WrongAny { expected: "Foo", found: "Bar" }),
        _ => panic!("expected an identity mismatch"),
    }
    let r = <&Foo as FromValue>::from(Value::CustomRef(&bar));
    assert!(matches!(r, Err(Error::WrongAny { expected: "Foo", found: "Bar" })));
}

#[test]
fn exclusive_object_of_other_type_is_identity_mismatch() {
    let mut bar = Any::new(Bar);
    let r = <&mut Foo as FromValue>::from(Value::CustomMut(&mut bar));
    assert!(matches!(r, Err(Error::WrongAny { expected: "Foo", found: "Bar" })));
}

#[test]
fn bool_at_integer_site_is_type_error() {
    let r = <i64 as FromValue>::from(Value::Bool(true));
    assert_eq!(r, Err(Error::WrongType { expected: ValueTy::Int64, found: ValueTy::Bool }));
    let r = <u8 as FromValue>::from(Value::Bool(false));
    assert_eq!(r, Err(Error::WrongType { expected: ValueTy::Uint8, found: ValueTy::Bool }));
}

#[test]
fn error_value_propagates_through_decode() {
    let r = <u32 as FromValue>::from(Value::Error(Error::MissingSelfArg));
    assert_eq!(r, Err(Error::MissingSelfArg));
    let e = Error::WrongType { expected: ValueTy::Bool, found: ValueTy::Void };
    let r = <bool as FromValue>::from(Value::Error(e));
    assert_eq!(r, Err(Error::WrongType { expected: ValueTy::Bool, found: ValueTy::Void }));
}

fn round_trip<T: IntoValue + for<'a> FromValue<'a> + PartialEq + std::fmt::Debug + Clone>(x: T) {
    let v = IntoValue::into(x.clone()).unwrap();
    let back = <T as FromValue>::from(v).unwrap();
    assert_eq!(back, x);
}

#[test]
fn scalars_round_trip() {
    round_trip(true);
    round_trip(false);
    round_trip(-5i8);
    round_trip(i16::MIN);
    round_trip(i32::MAX);
    round_trip(-1i64);
    round_trip(u8::MAX);
    round_trip(7u16);
    round_trip(u32::MAX);
    round_trip(u64::MAX);
    round_trip("héllo".to_string());
    round_trip(String::new());
}

#[test]
fn floats_travel_as_bits() {
    let v = Value::Float32(1.5f32.to_bits());
    assert_eq!(v.ty(), ValueTy::Float32);
    match v {
        Value::Float32(bits) => assert_eq!(f32::from_bits(bits), 1.5f32),
        _ => panic!("expected a float"),
    }
    let v = Value::Float64((-0.25f64).to_bits());
    assert_eq!(v.ty(), ValueTy::Float64);
}

#[test]
fn encodings_have_declared_descriptors() {
    assert_eq!(<u16 as IntoValue>::in_ty(), ValueTy::Uint16);
    assert_eq!(<() as IntoValue>::in_ty(), ValueTy::Void);
    assert_eq!(<Box<Foo> as IntoValue>::in_ty(), ValueTy::Custom);
    assert!(matches!(IntoValue::into(()), Ok(Value::Void)));
    assert!(matches!(IntoValue::into(Box::new(Foo(1))), Ok(Value::Custom(_))));
}

#[test]
fn option_decodes_nil_as_none() {
    assert_eq!(<Option<u64> as FromValue>::from(Value::Nil), Ok(None));
    assert_eq!(<Option<u64> as FromValue>::from(Value::Uint64(4)), Ok(Some(4)));
    assert_eq!(
        <Option<u64> as FromValue>::from(Value::Int8(4)),
        Err(Error::WrongType { expected: ValueTy::Uint64, found: ValueTy::Int8 })
    );
    assert_eq!(<Option<u64> as FromValue>::out_ty(), ValueTy::Uint64);
}

#[test]
fn descriptors_of_values() {
    assert_eq!(Value::Nil.ty(), ValueTy::Unknown);
    assert_eq!(Value::Error(Error::MissingSelfArg).ty(), ValueTy::Unknown);
    assert_eq!(Value::Void.ty(), ValueTy::Void);
    assert_eq!(Value::Array(vec![]).ty(), ValueTy::Array(Box::new(ValueTy::Unknown)));
    assert_eq!(
        Value::Array(vec![Value::Bool(true), Value::Bool(false)]).ty(),
        ValueTy::Array(Box::new(ValueTy::Bool))
    );
    assert_eq!(
        Value::Array(vec![Value::Array(vec![Value::Uint32(1)])]).ty(),
        ValueTy::Array(Box::new(ValueTy::Array(Box::new(ValueTy::Uint32))))
    );
    assert_eq!(
        Value::Tuple(vec![Value::Int16(1), Value::String("a".to_string())]).ty(),
        ValueTy::Tuple(vec![ValueTy::Int16, ValueTy::String])
    );
    let obj = Any::new(Foo(0));
    assert_eq!(Value::CustomRef(&obj).ty(), ValueTy::CustomRef);
    assert_eq!(Value::Custom(obj).ty(), ValueTy::Custom);
}

#[test]
fn resolve_and_fold() {
    assert!(matches!(Value::Uint8(3).into_res(), Ok(Value::Uint8(3))));
    assert_eq!(
        Value::Error(Error::MissingSelfArg).into_res().err(),
        Some(Error::MissingSelfArg)
    );
    assert!(matches!(Value::from_res(Err(Error::MissingSelfArg)), Value::Error(_)));
    assert!(matches!(Value::from_res(Ok(Value::Bool(true))), Value::Bool(true)));
}

#[test]
fn arity_check_values() {
    assert_eq!(check_arity(2, 2), Ok(()));
    assert_eq!(check_arity(1, 2), Err(Error::WrongArgsNumber { expected: 2, found: 1 }));
    assert_eq!(check_arity(0, 3), Err(Error::WrongArgsNumber { expected: 3, found: 0 }));
}

#[test]
fn downcasts_check_identity() {
    let mut obj = Any::new(Foo(5));
    assert!(obj.is::<Foo>());
    assert!(!obj.is::<Bar>());
    assert_eq!(obj.type_id(), TypeId::of::<Foo>());
    assert_eq!(obj.downcast_ref::<Foo>().map(|f| f.0), Some(5));
    assert!(obj.downcast_ref::<Bar>().is_none());
    obj.downcast_mut::<Foo>().unwrap().0 = 6;
    assert!(obj.downcast_mut::<Bar>().is_none());
    assert_eq!(obj.downcast_ref::<Foo>().map(|f| f.0), Some(6));
}

#[test]
fn finish_freezes_registered_types() {
    let map = Builder::default().with_ty(foo_ty()).finish();
    assert_eq!(map.ids(), vec![TypeId::of::<Foo>()]);
    let ty = map.get(&TypeId::of::<Foo>()).unwrap();
    assert_eq!(ty.ident, "Foo");
    assert_eq!(ty.functions.len(), 2);
    assert_eq!(ty.methods.len(), 2);
    assert_eq!(ty.properties.len(), 1);
    let shared = map.clone();
    assert!(shared.contains_key(&TypeId::of::<Foo>()));
}

#[test]
fn registering_a_type_twice_replaces_it() {
    let mut b = Builder::new();
    assert!(b.map.is_empty());
    b.add_ty(TyBuilder::<Foo>::new("First"));
    b.add_ty(TyBuilder::<Bar>::new("Bar"));
    b.add_ty(TyBuilder::<Foo>::new("Second"));
    let map = b.finish();
    let mut ids = map.ids();
    assert_eq!(ids.len(), 2);
    ids.retain(|id| *id != TypeId::of::<Foo>() && *id != TypeId::of::<Bar>());
    assert!(ids.is_empty());
    assert_eq!(map.get(&TypeId::of::<Foo>()).unwrap().ident, "Second");
    assert_eq!(map.get(&TypeId::of::<Bar>()).unwrap().ident, "Bar");
    assert!(map.get(&TypeId::of::<u8>()).is_none());
    assert!(!map.contains_key(&TypeId::of::<u8>()));
}

#[test]
fn values_print_their_variant() {
    assert_eq!(format!("{:?}", Value::Uint8(3)), "Uint8(3)");
    assert_eq!(format!("{:?}", Value::Nil), "Nil");
    assert_eq!(
        format!("{:?}", Value::Error(Error::MissingSelfArg)),
        "Error(MissingSelfArg)"
    );
}

fn assert_shareable<X: Send + Sync>(_: &X) {}

#[test]
fn finished_registry_is_shareable() {
    let map = Builder::new().with_ty(foo_ty()).finish();
    assert_shareable(&map);
    let copy = map.clone();
    let ty = copy.get(&TypeId::of::<Foo>()).unwrap();
    let r = ty.functions[1].call(vec![Value::Uint64(2), Value::Uint64(3)]);
    assert!(matches!(r, Value::Uint64(5)));
}

#[test]
fn setter_runs_its_closure() {
    let ty = foo_ty();
    let prop = &ty.ty.properties[0];
    let mut obj = Any::new(Foo(0));
    let r = prop.set.as_ref().unwrap().call(vec![Value::CustomMut(&mut obj), Value::Int32(-7)]);
    assert!(matches!(r, Value::Void));
    assert_eq!(obj.downcast_ref::<Foo>().map(|f| f.0), Some(-7));
}

#[test]
fn failed_exclusive_downcast_leaves_object() {
    let mut obj = Any::new(Foo(9));
    assert!(obj.downcast_mut::<Bar>().is_none());
    assert_eq!(obj.type_ident(), "Foo");
    assert_eq!(obj.downcast_ref::<Foo>().map(|f| f.0), Some(9));
}
