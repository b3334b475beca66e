//! The erased callables that the builder makes from native closures: each
//! decodes the argument list, calls the closure and encodes its result,
//! folding any decode failure into the error variant.
use std::marker::PhantomData;
use vstd::prelude::*;

use crate::any::Native;
use crate::conv::{arity_error, FromMultiValue, FromValue, IntoValue};
use crate::registry::Callable;
use crate::value::{Error, Value};

verus! {

/// What calling a function over `f` with `args` may give: an arity
/// mismatch, else the first decode failure, else the encoded result.
pub open spec fn function_gives<'a, C, F, V>(f: C, args: Seq<Value<'a>>, r: Value<'static>) -> bool
    where
        C: Fn(F) -> V,
        F: FromMultiValue<'a>,
        V: IntoValue,
{
    if args.len() != F::arity() {
        r == Value::<'static>::Error(arity_error(F::arity(), args.len()))
    } else {
        (exists|e: Error| #[trigger] F::decodes_all(args, Err(e)) && r == Value::<'static>::Error(e))
            || (exists|a: F, res: V| #![trigger F::decodes_all(args, Ok(a)), f.ensures((a,), res)]
            F::decodes_all(args, Ok(a)) && f.ensures((a,), res) && res.encodes(r))
    }
}

/// The callable of a registered function over the closure `f`.
pub struct FnCall<C, F, V> {
    pub f: C,
    pub marker: PhantomData<(F, V)>,
}

impl<C, F, V> Callable for FnCall<C, F, V>
where
    C: Fn(F) -> V + Send + Sync,
    F: for<'a> FromMultiValue<'a> + Send + Sync,
    V: IntoValue + Send + Sync,
{
    open spec fn ready(&self) -> bool {
        forall|a: F| #[trigger] self.f.requires((a,))
    }

    open spec fn gives<'a>(&self, args: Seq<Value<'a>>, r: Value<'static>) -> bool {
        function_gives::<'a, C, F, V>(self.f, args, r)
    }

    fn call<'a>(&self, args: Vec<Value<'a>>) -> (r: Value<'static>) {
        match F::from(args) {
            Err(e) => Value::Error(e),
            Ok(a) => {
                let res = (self.f)(a);
                Value::from_res(IntoValue::into(res))
            },
        }
    }
}

/// What calling a method over `f` with `args` may give: a missing self
/// argument, else the failure to decode self, else what the rest of the
/// arguments give as for a function, with self passed first.
pub open spec fn method_gives<'a, T, C, F, V>(f: C, args: Seq<Value<'a>>, r: Value<'static>) -> bool
    where
        T: Native,
        C: Fn(&'a T, F) -> V,
        F: FromMultiValue<'a>,
        V: IntoValue,
{
    if args.len() == 0 {
        r == Value::<'static>::Error(Error::MissingSelfArg)
    } else {
        let rest = args.drop_first();
        (exists|e: Error| #[trigger] <&'a T as FromValue<'a>>::decodes(args[0], Err(e)) && r == Value::<'static>::Error(e))
            || (exists|this: &'a T| #[trigger] <&'a T as FromValue<'a>>::decodes(args[0], Ok(this)) && if rest.len() != F::arity() {
            r == Value::<'static>::Error(arity_error(F::arity(), rest.len()))
        } else {
            (exists|e: Error| #[trigger] F::decodes_all(rest, Err(e)) && r == Value::<'static>::Error(e))
                || (exists|a: F, res: V| #![trigger F::decodes_all(rest, Ok(a)), f.ensures((this, a), res)]
                F::decodes_all(rest, Ok(a)) && f.ensures((this, a), res) && res.encodes(r))
        })
    }
}

/// The callable of a registered method over the closure `f`, which takes
/// self by shared reference.
pub struct MethodCall<T, C, F, V> {
    pub f: C,
    pub marker: PhantomData<(T, F, V)>,
}

impl<T, C, F, V> Callable for MethodCall<T, C, F, V>
where
    T: Native,
    C: Fn(&T, F) -> V + Send + Sync,
    F: for<'a> FromMultiValue<'a> + Send + Sync,
    V: IntoValue + Send + Sync,
{
    open spec fn ready(&self) -> bool {
        forall|this: &T, a: F| #[trigger] self.f.requires((this, a))
    }

    open spec fn gives<'a>(&self, args: Seq<Value<'a>>, r: Value<'static>) -> bool {
        method_gives::<'a, T, C, F, V>(self.f, args, r)
    }

    fn call<'a>(&self, args: Vec<Value<'a>>) -> (r: Value<'static>) {
        let mut args = args;
        if args.len() == 0 {
            return Value::Error(Error::MissingSelfArg);
        }
        let ghost vs = args@;
        let first = args.remove(0);
        proof {
            assert(args@ =~= vs.drop_first());
        }
        let this = match <&'a T as FromValue<'a>>::from(first) {
            Ok(this) => this,
            Err(e) => {
                return Value::Error(e);
            },
        };
        match F::from(args) {
            Err(e) => Value::Error(e),
            Ok(a) => {
                let res = (self.f)(this, a);
                Value::from_res(IntoValue::into(res))
            },
        }
    }
}

/// What calling a method over `f`, which takes self by exclusive reference,
/// with `args` may give: as for `method_gives`, where the closure's
/// `ensures` holds of the exclusive reference it was handed.
pub open spec fn method_mut_gives<'a, T, C, F, V>(f: C, args: Seq<Value<'a>>, r: Value<'static>) -> bool
    where
        T: Native,
        C: Fn(&'a mut T, F) -> V,
        F: FromMultiValue<'a>,
        V: IntoValue,
{
    if args.len() == 0 {
        r == Value::<'static>::Error(Error::MissingSelfArg)
    } else {
        let rest = args.drop_first();
        (exists|e: Error| #[trigger] <&'a mut T as FromValue<'a>>::decodes(args[0], Err(e)) && r == Value::<'static>::Error(e))
            || (exists|this: &'a mut T| #[trigger] <&'a mut T as FromValue<'a>>::decodes(args[0], Ok(this)) && if rest.len() != F::arity() {
            r == Value::<'static>::Error(arity_error(F::arity(), rest.len()))
        } else {
            (exists|e: Error| #[trigger] F::decodes_all(rest, Err(e)) && r == Value::<'static>::Error(e))
                || (exists|passed: &'a mut T, a: F, res: V| #![trigger f.ensures((passed, a), res)]
                F::decodes_all(rest, Ok(a)) && f.ensures((passed, a), res) && res.encodes(r))
        })
    }
}

/// The callable of a registered method over the closure `f`, which takes
/// self by exclusive reference.
pub struct MethodMutCall<T, C, F, V> {
    pub f: C,
    pub marker: PhantomData<(T, F, V)>,
}

impl<T, C, F, V> Callable for MethodMutCall<T, C, F, V>
where
    T: Native,
    C: Fn(&mut T, F) -> V + Send + Sync,
    F: for<'a> FromMultiValue<'a> + Send + Sync,
    V: IntoValue + Send + Sync,
{
    open spec fn ready(&self) -> bool {
        forall|this: &mut T, a: F| #[trigger] self.f.requires((this, a))
    }

    open spec fn gives<'a>(&self, args: Seq<Value<'a>>, r: Value<'static>) -> bool {
        method_mut_gives::<'a, T, C, F, V>(self.f, args, r)
    }

    fn call<'a>(&self, args: Vec<Value<'a>>) -> (r: Value<'static>) {
        let mut args = args;
        if args.len() == 0 {
            return Value::Error(Error::MissingSelfArg);
        }
        let ghost vs = args@;
        let first = args.remove(0);
        proof {
            assert(args@ =~= vs.drop_first());
        }
        let this = match <&'a mut T as FromValue<'a>>::from(first) {
            Ok(this) => this,
            Err(e) => {
                return Value::Error(e);
            },
        };
        match F::from(args) {
            Err(e) => Value::Error(e),
            Ok(a) => {
                let res = (self.f)(this, a);
                Value::from_res(IntoValue::into(res))
            },
        }
    }
}

/// What calling a getter over `g` with `args` may give: a missing self
/// argument, else the failure to decode self, else the encoded value.
/// Arguments after self are not read.
pub open spec fn getter_gives<'a, T, G, P>(g: G, args: Seq<Value<'a>>, r: Value<'static>) -> bool
    where
        T: Native,
        G: Fn(&'a T) -> P,
        P: IntoValue,
{
    if args.len() == 0 {
        r == Value::<'static>::Error(Error::MissingSelfArg)
    } else {
        (exists|e: Error| #[trigger] <&'a T as FromValue<'a>>::decodes(args[0], Err(e)) && r == Value::<'static>::Error(e))
            || (exists|this: &'a T, p: P| #![trigger <&'a T as FromValue<'a>>::decodes(args[0], Ok(this)), g.ensures((this,), p)]
            <&'a T as FromValue<'a>>::decodes(args[0], Ok(this)) && g.ensures((this,), p) && p.encodes(r))
    }
}

/// The callable of a property getter over the closure `g`.
pub struct Getter<T, G, P> {
    pub g: G,
    pub marker: PhantomData<(T, P)>,
}

impl<T, G, P> Callable for Getter<T, G, P>
where
    T: Native,
    G: Fn(&T) -> P + Send + Sync,
    P: IntoValue + Send + Sync,
{
    open spec fn ready(&self) -> bool {
        forall|this: &T| #[trigger] self.g.requires((this,))
    }

    open spec fn gives<'a>(&self, args: Seq<Value<'a>>, r: Value<'static>) -> bool {
        getter_gives::<'a, T, G, P>(self.g, args, r)
    }

    fn call<'a>(&self, args: Vec<Value<'a>>) -> (r: Value<'static>) {
        let mut args = args;
        if args.len() == 0 {
            return Value::Error(Error::MissingSelfArg);
        }
        let first = args.remove(0);
        match <&'a T as FromValue<'a>>::from(first) {
            Err(e) => Value::Error(e),
            Ok(this) => {
                let p = (self.g)(this);
                Value::from_res(IntoValue::into(p))
            },
        }
    }
}

/// What calling a setter with `args` may give: a missing self argument,
/// else the failure to decode self, else a missing value (one argument
/// expected after self, none found), else the failure to decode the value,
/// else the unit variant, once `s` ran on an exclusive reference and the
/// value. Arguments after the value are not read.
pub open spec fn setter_gives<'a, T, S, P>(s: S, args: Seq<Value<'a>>, r: Value<'static>) -> bool
    where
        T: Native,
        S: Fn(&'a mut T, P),
        P: FromValue<'a>,
{
    if args.len() == 0 {
        r == Value::<'static>::Error(Error::MissingSelfArg)
    } else {
        (exists|e: Error| #[trigger] <&'a mut T as FromValue<'a>>::decodes(args[0], Err(e)) && r == Value::<'static>::Error(e))
            || (exists|this: &'a mut T| #[trigger] <&'a mut T as FromValue<'a>>::decodes(args[0], Ok(this)) && if args.len() == 1 {
            r == Value::<'static>::Error(Error::WrongArgsNumber { expected: 1, found: 0 })
        } else {
            (exists|e: Error| #[trigger] P::decodes(args[1], Err(e)) && r == Value::<'static>::Error(e))
                || (exists|passed: &'a mut T, p: P| #![trigger s.ensures((passed, p), ())]
                P::decodes(args[1], Ok(p)) && s.ensures((passed, p), ()) && r == Value::<'static>::Void)
        })
    }
}

/// The callable of a property setter over the closure `s`.
pub struct Setter<T, S, P> {
    pub s: S,
    pub marker: PhantomData<(T, P)>,
}

impl<T, S, P> Callable for Setter<T, S, P>
where
    T: Native,
    S: Fn(&mut T, P) + Send + Sync,
    P: for<'a> FromValue<'a> + Send + Sync,
{
    open spec fn ready(&self) -> bool {
        forall|this: &mut T, p: P| #[trigger] self.s.requires((this, p))
    }

    open spec fn gives<'a>(&self, args: Seq<Value<'a>>, r: Value<'static>) -> bool {
        setter_gives::<'a, T, S, P>(self.s, args, r)
    }

    fn call<'a>(&self, args: Vec<Value<'a>>) -> (r: Value<'static>) {
        let mut args = args;
        if args.len() == 0 {
            return Value::Error(Error::MissingSelfArg);
        }
        let ghost vs = args@;
        let first = args.remove(0);
        let this = match <&'a mut T as FromValue<'a>>::from(first) {
            Ok(this) => this,
            Err(e) => {
                return Value::Error(e);
            },
        };
        if args.len() == 0 {
            return Value::Error(Error::WrongArgsNumber { expected: 1, found: 0 });
        }
        let second = args.remove(0);
        proof {
            assert(second == vs[1]);
        }
        match P::from(second) {
            Err(e) => Value::Error(e),
            Ok(p) => {
                (self.s)(this, p);
                Value::Void
            },
        }
    }
}

/// Calling a registered function with fewer or more arguments than its
/// arity gives the arity-mismatch error, with the arity expected and the
/// number of arguments found.
pub proof fn lemma_function_arity_mismatch<'a, C, F, V>(f: C, args: Seq<Value<'a>>, r: Value<'static>)
    where
        C: Fn(F) -> V,
        F: FromMultiValue<'a>,
        V: IntoValue,
    requires
        function_gives::<'a, C, F, V>(f, args, r),
        args.len() != F::arity(),
        args.len() <= u16::MAX,
    ensures
        r matches Value::Error(Error::WrongArgsNumber { expected, found })
            && expected as nat == F::arity() && found as nat == args.len(),
{
    F::lemma_arity_fits();
}

/// Calling a registered method without any argument gives the missing-self
/// error.
pub proof fn lemma_method_missing_self<'a, T, C, F, V>(f: C, r: Value<'static>)
    where
        T: Native,
        C: Fn(&'a T, F) -> V,
        F: FromMultiValue<'a>,
        V: IntoValue,
    requires
        method_gives::<'a, T, C, F, V>(f, Seq::empty(), r),
    ensures
        r == Value::<'static>::Error(Error::MissingSelfArg),
{
}

/// The same for a method that takes self by exclusive reference.
pub proof fn lemma_method_mut_missing_self<'a, T, C, F, V>(f: C, r: Value<'static>)
    where
        T: Native,
        C: Fn(&'a mut T, F) -> V,
        F: FromMultiValue<'a>,
        V: IntoValue,
    requires
        method_mut_gives::<'a, T, C, F, V>(f, Seq::empty(), r),
    ensures
        r == Value::<'static>::Error(Error::MissingSelfArg),
{
}

/// The same for a property getter.
pub proof fn lemma_getter_missing_self<'a, T, G, P>(g: G, r: Value<'static>)
    where
        T: Native,
        G: Fn(&'a T) -> P,
        P: IntoValue,
    requires
        getter_gives::<'a, T, G, P>(g, Seq::empty(), r),
    ensures
        r == Value::<'static>::Error(Error::MissingSelfArg),
{
}

/// The same for a property setter.
pub proof fn lemma_setter_missing_self<'a, T, S, P>(s: S, r: Value<'static>)
    where
        T: Native,
        S: Fn(&'a mut T, P),
        P: FromValue<'a>,
    requires
        setter_gives::<'a, T, S, P>(s, Seq::empty(), r),
    ensures
        r == Value::<'static>::Error(Error::MissingSelfArg),
{
}

} // verus!
