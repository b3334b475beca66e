//! Fluent construction of the registry: a `Builder` of types, a `TyBuilder`
//! of one type's functions, methods and properties, and a `PropertyBuilder`
//! of one property's accessors. `finish` freezes the result.
use std::any::TypeId;
use std::marker::PhantomData;
use std::sync::Arc;
use vstd::prelude::*;

use crate::any::Native;
use crate::callable::{
    function_gives, getter_gives, method_gives, method_mut_gives, setter_gives, FnCall, Getter,
    MethodCall, MethodMutCall, Setter,
};
use crate::conv::{FromMultiValue, FromValue, IntoValue};
use crate::registry::{Callable, Function, Property, Ty};
use crate::value::{Value, ValueTy};

verus! {

#[verifier::external_type_specification]
#[verifier::external_body]
pub struct ExFnvHasher(fnv::FnvHasher);

#[verifier::external_type_specification]
#[verifier::external_body]
#[verifier::reject_recursive_types(H)]
pub struct ExBuildHasherDefault<H>(std::hash::BuildHasherDefault<H>);

/// Every registered type, by identity.
pub type TyMapMut = fnv::FnvHashMap<TypeId, Ty>;


/// Relies on `FnvHashMap::default`, which is std's `HashMap::default` with
/// fnv's hasher: an empty map.
#[verifier::external_body]
fn empty_map() -> (r: TyMapMut)
    ensures
        r@.dom() == Set::<TypeId>::empty(),
{
    TyMapMut::default()
}

/// Relies on std's `HashMap::insert` over fnv's hasher, which hashes a key
/// the same way each time, with `TypeId`, whose `==` agrees with its hash:
/// the map then holds `ty` at `id` and its other entries unchanged.
#[verifier::external_body]
fn insert_ty(map: &mut TyMapMut, id: TypeId, ty: Ty)
    ensures
        final(map)@ == old(map)@.insert(id, ty),
{
    map.insert(id, ty);
}

/// Relies on std's `HashMap::get` over fnv's hasher, with `TypeId` keys: the
/// entry at `id`, if there is one.
#[verifier::external_body]
fn lookup_ty<'m>(map: &'m TyMapMut, id: &TypeId) -> (r: Option<&'m Ty>)
    ensures
        r is Some == map@.contains_key(*id),
        r is Some ==> *r->Some_0 == map@[*id],
{
    map.get(id)
}

/// Relies on std's `HashMap::keys`: each key of the map once, in an order
/// that the map decides.
#[verifier::external_body]
fn keys_of(map: &TyMapMut) -> (r: Vec<TypeId>)
    ensures
        r@.no_duplicates(),
        r@.to_set() == map@.dom(),
{
    map.keys().copied().collect()
}

/// The frozen registry: shared, and read only. Nothing can be registered in
/// it; it only answers lookups.
#[derive(Clone)]
pub struct TyMap {
    map: Arc<TyMapMut>,
}

impl View for TyMap {
    type V = Map<TypeId, Ty>;

    closed spec fn view(&self) -> Map<TypeId, Ty> {
        self.map@
    }
}

impl TyMap {
    /// The registered type with identity `id`, if any.
    pub fn get(&self, id: &TypeId) -> (r: Option<&Ty>)
        ensures
            r is Some == self@.contains_key(*id),
            r is Some ==> *r->Some_0 == self@[*id],
    {
        lookup_ty(&self.map, id)
    }

    /// Whether a type with identity `id` is registered.
    pub fn contains_key(&self, id: &TypeId) -> (r: bool)
        ensures
            r == self@.contains_key(*id),
    {
        lookup_ty(&self.map, id).is_some()
    }

    /// The identities of the registered types, each once.
    pub fn ids(&self) -> (r: Vec<TypeId>)
        ensures
            r@.no_duplicates(),
            r@.to_set() == self@.dom(),
    {
        keys_of(&self.map)
    }
}

/// Accumulates registered types until `finish`.
pub struct Builder {
    pub map: TyMapMut,
}

impl Builder {
    /// Whether every registered type can be called on any arguments.
    pub open spec fn wf(&self) -> bool {
        forall|id: TypeId| #[trigger] self.map@.contains_key(id) ==> self.map@[id].wf()
    }

    /// A builder with no type.
    pub fn new() -> (r: Builder)
        ensures
            r.map@ == Map::<TypeId, Ty>::empty(),
            r.wf(),
    {
        let map = empty_map();
        proof {
            assert(map@ =~= Map::<TypeId, Ty>::empty());
        }
        Builder { map }
    }

    /// Registers the type that `builder` describes, under its identity; a
    /// type registered before under the same identity is replaced.
    pub fn add_ty<T: Native>(&mut self, builder: TyBuilder<T>)
        requires
            old(self).wf(),
            builder.wf(),
        ensures
            final(self).map@ == old(self).map@.insert(builder.ty.id, builder.ty),
            final(self).wf(),
    {
        let id = builder.ty.id;
        insert_ty(&mut self.map, id, builder.ty);
    }

    /// Registers the type that `builder` describes, as `add_ty` does.
    pub fn with_ty<T: Native>(self, builder: TyBuilder<T>) -> (r: Self)
        requires
            self.wf(),
            builder.wf(),
        ensures
            r.map@ == self.map@.insert(builder.ty.id, builder.ty),
            r.wf(),
    {
        let mut this = self;
        this.add_ty(builder);
        this
    }

    /// Freezes the registry: the builder is consumed, and the map is shared
    /// read-only from then on.
    pub fn finish(self) -> (r: TyMap)
        ensures
            r@ == self.map@,
    {
        TyMap { map: Arc::new(self.map) }
    }
}

impl Default for Builder {
    fn default() -> (r: Builder)
        ensures
            r.map@ == Map::<TypeId, Ty>::empty(),
            r.wf(),
    {
        Builder::new()
    }
}

/// Describes one native type `T` while it is being registered.
pub struct TyBuilder<T> {
    pub marker: PhantomData<T>,
    pub ty: Ty,
}

impl<T: Native> TyBuilder<T> {
    /// Whether every entry so far can be called on any arguments.
    pub open spec fn wf(&self) -> bool {
        self.ty.wf()
    }

    /// Whether only the functions of the type changed from `old` to `self`,
    /// by one entry at the end.
    pub open spec fn pushed_function(self, old: Self) -> bool {
        &&& self.ty.functions@.len() == old.ty.functions@.len() + 1
        &&& self.ty.functions@.drop_last() == old.ty.functions@
        &&& self.ty.id == old.ty.id
        &&& self.ty.ident == old.ty.ident
        &&& self.ty.methods == old.ty.methods
        &&& self.ty.properties == old.ty.properties
    }

    /// Whether only the methods of the type changed from `old` to `self`, by
    /// one entry at the end.
    pub open spec fn pushed_method(self, old: Self) -> bool {
        &&& self.ty.methods@.len() == old.ty.methods@.len() + 1
        &&& self.ty.methods@.drop_last() == old.ty.methods@
        &&& self.ty.id == old.ty.id
        &&& self.ty.ident == old.ty.ident
        &&& self.ty.functions == old.ty.functions
        &&& self.ty.properties == old.ty.properties
    }

    /// A type with no entry yet, under the identity of `T` and the name
    /// `ident`.
    pub fn new(ident: &'static str) -> (r: Self)
        ensures
            r.ty.ident == ident,
            r.ty.functions@.len() == 0,
            r.ty.methods@.len() == 0,
            r.ty.properties@.len() == 0,
            r.wf(),
    {
        TyBuilder {
            marker: PhantomData,
            ty: Ty {
                functions: Vec::new(),
                id: TypeId::of::<T>(),
                ident,
                methods: Vec::new(),
                properties: Vec::new(),
            },
        }
    }

    /// Registers `f` as a function of the type: its arguments are decoded
    /// as `F`, its result encoded from `V`, and both are declared from them.
    pub fn add_function<C, F, V>(&mut self, ident: &'static str, f: C)
        where
            C: Fn(F) -> V + Send + Sync + 'static,
            F: for<'a> FromMultiValue<'a> + Send + Sync + 'static,
            V: IntoValue + Send + Sync + 'static,
        requires
            old(self).wf(),
            forall|a: F| #[trigger] f.requires((a,)),
        ensures
            final(self).wf(),
            final(self).pushed_function(*old(self)),
            final(self).ty.functions@.last().ident == ident,
            final(self).ty.functions@.last().args@ == F::expected_tys(),
            final(self).ty.functions@.last().ret == V::produced_ty(),
            forall|args: Seq<Value<'static>>, r: Value<'static>|
                #[trigger] final(self).ty.functions@.last().callee.gives(args, r)
                    == function_gives::<'static, C, F, V>(f, args, r),
    {
        let call = FnCall::<C, F, V> { f, marker: PhantomData };
        let erased: Box<dyn Callable> = Box::new(call);
        let callee = Arc::new(erased);
        let function = Function { callee, ident, args: F::multi_ty(), ret: V::in_ty() };
        self.ty.functions.push(function);
        proof {
            assert(self.ty.functions@.drop_last() =~= old(self).ty.functions@);
        }
    }

    /// Registers `f` as a function of the type, as `add_function` does.
    pub fn with_function<C, F, V>(self, ident: &'static str, f: C) -> (r: Self)
        where
            C: Fn(F) -> V + Send + Sync + 'static,
            F: for<'a> FromMultiValue<'a> + Send + Sync + 'static,
            V: IntoValue + Send + Sync + 'static,
        requires
            self.wf(),
            forall|a: F| #[trigger] f.requires((a,)),
        ensures
            r.wf(),
            r.pushed_function(self),
            r.ty.functions@.last().ident == ident,
            r.ty.functions@.last().args@ == F::expected_tys(),
            r.ty.functions@.last().ret == V::produced_ty(),
            forall|args: Seq<Value<'static>>, v: Value<'static>|
                #[trigger] r.ty.functions@.last().callee.gives(args, v)
                    == function_gives::<'static, C, F, V>(f, args, v),
    {
        let mut this = self;
        this.add_function(ident, f);
        this
    }

    /// Registers `f` as a method of the type: self, taken by shared
    /// reference, comes first among the arguments and is declared first.
    pub fn add_method<C, F, V>(&mut self, ident: &'static str, f: C)
        where
            C: Fn(&T, F) -> V + Send + Sync + 'static,
            F: for<'a> FromMultiValue<'a> + Send + Sync + 'static,
            V: IntoValue + Send + Sync + 'static,
        requires
            old(self).wf(),
            forall|this: &T, a: F| #[trigger] f.requires((this, a)),
        ensures
            final(self).wf(),
            final(self).pushed_method(*old(self)),
            final(self).ty.methods@.last().ident == ident,
            final(self).ty.methods@.last().args@ == seq![ValueTy::CustomRef] + F::expected_tys(),
            final(self).ty.methods@.last().ret == V::produced_ty(),
            forall|args: Seq<Value<'static>>, r: Value<'static>|
                #[trigger] final(self).ty.methods@.last().callee.gives(args, r)
                    == method_gives::<'static, T, C, F, V>(f, args, r),
    {
        let call = MethodCall::<T, C, F, V> { f, marker: PhantomData };
        let erased: Box<dyn Callable> = Box::new(call);
        let callee = Arc::new(erased);
        let mut args = F::multi_ty();
        args.insert(0, <&'static T as FromValue<'static>>::out_ty());
        proof {
            assert(args@ =~= seq![ValueTy::CustomRef] + F::expected_tys());
        }
        let method = Function { callee, ident, args, ret: V::in_ty() };
        self.ty.methods.push(method);
        proof {
            assert(self.ty.methods@.drop_last() =~= old(self).ty.methods@);
        }
    }

    /// Registers `f` as a method of the type, as `add_method` does.
    pub fn with_method<C, F, V>(self, ident: &'static str, f: C) -> (r: Self)
        where
            C: Fn(&T, F) -> V + Send + Sync + 'static,
            F: for<'a> FromMultiValue<'a> + Send + Sync + 'static,
            V: IntoValue + Send + Sync + 'static,
        requires
            self.wf(),
            forall|this: &T, a: F| #[trigger] f.requires((this, a)),
        ensures
            r.wf(),
            r.pushed_method(self),
            r.ty.methods@.last().ident == ident,
            r.ty.methods@.last().args@ == seq![ValueTy::CustomRef] + F::expected_tys(),
            r.ty.methods@.last().ret == V::produced_ty(),
            forall|args: Seq<Value<'static>>, v: Value<'static>|
                #[trigger] r.ty.methods@.last().callee.gives(args, v)
                    == method_gives::<'static, T, C, F, V>(f, args, v),
    {
        let mut this = self;
        this.add_method(ident, f);
        this
    }

    /// Registers `f` as a method of the type: self, taken by exclusive
    /// reference, comes first among the arguments and is declared first.
    pub fn add_method_mut<C, F, V>(&mut self, ident: &'static str, f: C)
        where
            C: Fn(&mut T, F) -> V + Send + Sync + 'static,
            F: for<'a> FromMultiValue<'a> + Send + Sync + 'static,
            V: IntoValue + Send + Sync + 'static,
        requires
            old(self).wf(),
            forall|this: &mut T, a: F| #[trigger] f.requires((this, a)),
        ensures
            final(self).wf(),
            final(self).pushed_method(*old(self)),
            final(self).ty.methods@.last().ident == ident,
            final(self).ty.methods@.last().args@ == seq![ValueTy::CustomMut] + F::expected_tys(),
            final(self).ty.methods@.last().ret == V::produced_ty(),
            forall|args: Seq<Value<'static>>, r: Value<'static>|
                #[trigger] final(self).ty.methods@.last().callee.gives(args, r)
                    == method_mut_gives::<'static, T, C, F, V>(f, args, r),
    {
        let call = MethodMutCall::<T, C, F, V> { f, marker: PhantomData };
        let erased: Box<dyn Callable> = Box::new(call);
        let callee = Arc::new(erased);
        let mut args = F::multi_ty();
        args.insert(0, <&'static mut T as FromValue<'static>>::out_ty());
        proof {
            assert(args@ =~= seq![ValueTy::CustomMut] + F::expected_tys());
        }
        let method = Function { callee, ident, args, ret: V::in_ty() };
        self.ty.methods.push(method);
        proof {
            assert(self.ty.methods@.drop_last() =~= old(self).ty.methods@);
        }
    }

    /// Registers `f` as a method of the type, as `add_method_mut` does.
    pub fn with_method_mut<C, F, V>(self, ident: &'static str, f: C) -> (r: Self)
        where
            C: Fn(&mut T, F) -> V + Send + Sync + 'static,
            F: for<'a> FromMultiValue<'a> + Send + Sync + 'static,
            V: IntoValue + Send + Sync + 'static,
        requires
            self.wf(),
            forall|this: &mut T, a: F| #[trigger] f.requires((this, a)),
        ensures
            r.wf(),
            r.pushed_method(self),
            r.ty.methods@.last().ident == ident,
            r.ty.methods@.last().args@ == seq![ValueTy::CustomMut] + F::expected_tys(),
            r.ty.methods@.last().ret == V::produced_ty(),
            forall|args: Seq<Value<'static>>, v: Value<'static>|
                #[trigger] r.ty.methods@.last().callee.gives(args, v)
                    == method_mut_gives::<'static, T, C, F, V>(f, args, v),
    {
        let mut this = self;
        this.add_method_mut(ident, f);
        this
    }

    /// Attaches the property that `builder` describes.
    pub fn add_property<P>(&mut self, builder: PropertyBuilder<T, P>)
        requires
            old(self).wf(),
            builder.property.wf(),
        ensures
            final(self).wf(),
            final(self).ty.properties@ == old(self).ty.properties@.push(builder.property),
            final(self).ty.id == old(self).ty.id,
            final(self).ty.ident == old(self).ty.ident,
            final(self).ty.functions == old(self).ty.functions,
            final(self).ty.methods == old(self).ty.methods,
    {
        self.ty.properties.push(builder.property);
    }

    /// Attaches the property that `builder` describes, as `add_property` does.
    pub fn with_property<P>(self, builder: PropertyBuilder<T, P>) -> (r: Self)
        requires
            self.wf(),
            builder.property.wf(),
        ensures
            r.wf(),
            r.ty.properties@ == self.ty.properties@.push(builder.property),
            r.ty.id == self.ty.id,
            r.ty.ident == self.ty.ident,
            r.ty.functions == self.ty.functions,
            r.ty.methods == self.ty.methods,
    {
        let mut this = self;
        this.add_property(builder);
        this
    }
}

/// Describes one property of the native type `T`, of native type `P`,
/// while it is being registered.
pub struct PropertyBuilder<T, P> {
    pub property: Property,
    pub marker: PhantomData<(T, P)>,
}

impl<T, P> PropertyBuilder<T, P> where T: Native, P: for<'a> FromValue<'a> + IntoValue + Send + Sync + 'static {
    /// Whether each accessor so far can be called on any arguments.
    pub open spec fn wf(&self) -> bool {
        self.property.wf()
    }

    /// A property named `ident`, declared with the type of `P`, with no
    /// accessor yet.
    pub fn new(ident: &'static str) -> (r: Self)
        ensures
            r.property.ident == ident,
            r.property.ty == <P as FromValue<'static>>::expected_ty(),
            r.property.get is None,
            r.property.set is None,
            r.wf(),
    {
        PropertyBuilder {
            property: Property {
                ident,
                ty: <P as FromValue<'static>>::out_ty(),
                get: None,
                set: None,
            },
            marker: PhantomData,
        }
    }

    /// Sets the getter to `get`, which receives self as the first argument.
    pub fn add_getter<G>(&mut self, get: G)
        where
            G: Fn(&T) -> P + Send + Sync + 'static,
        requires
            old(self).wf(),
            forall|this: &T| #[trigger] get.requires((this,)),
        ensures
            final(self).wf(),
            final(self).property.ident == old(self).property.ident,
            final(self).property.ty == old(self).property.ty,
            final(self).property.set == old(self).property.set,
            final(self).property.get is Some,
            forall|args: Seq<Value<'static>>, r: Value<'static>|
                #[trigger] final(self).property.get->Some_0.gives(args, r)
                    == getter_gives::<'static, T, G, P>(get, args, r),
    {
        let call = Getter::<T, G, P> { g: get, marker: PhantomData };
        let erased: Box<dyn Callable> = Box::new(call);
        let callee = Arc::new(erased);
        self.property.get = Some(callee);
    }

    /// Sets the getter to `get`, as `add_getter` does.
    pub fn with_getter<G>(self, get: G) -> (r: Self)
        where
            G: Fn(&T) -> P + Send + Sync + 'static,
        requires
            self.wf(),
            forall|this: &T| #[trigger] get.requires((this,)),
        ensures
            r.wf(),
            r.property.ident == self.property.ident,
            r.property.ty == self.property.ty,
            r.property.set == self.property.set,
            r.property.get is Some,
            forall|args: Seq<Value<'static>>, v: Value<'static>|
                #[trigger] r.property.get->Some_0.gives(args, v)
                    == getter_gives::<'static, T, G, P>(get, args, v),
    {
        let mut this = self;
        this.add_getter(get);
        this
    }

    /// Sets the setter to `set`, which receives self as the first argument
    /// and the new value as the second.
    pub fn add_setter<S>(&mut self, set: S)
        where
            S: Fn(&mut T, P) + Send + Sync + 'static,
        requires
            old(self).wf(),
            forall|this: &mut T, p: P| #[trigger] set.requires((this, p)),
        ensures
            final(self).wf(),
            final(self).property.ident == old(self).property.ident,
            final(self).property.ty == old(self).property.ty,
            final(self).property.get == old(self).property.get,
            final(self).property.set is Some,
            forall|args: Seq<Value<'static>>, r: Value<'static>|
                #[trigger] final(self).property.set->Some_0.gives(args, r)
                    == setter_gives::<'static, T, S, P>(set, args, r),
    {
        let call = Setter::<T, S, P> { s: set, marker: PhantomData };
        let erased: Box<dyn Callable> = Box::new(call);
        let callee = Arc::new(erased);
        self.property.set = Some(callee);
    }

    /// Sets the setter to `set`, as `add_setter` does.
    pub fn with_setter<S>(self, set: S) -> (r: Self)
        where
            S: Fn(&mut T, P) + Send + Sync + 'static,
        requires
            self.wf(),
            forall|this: &mut T, p: P| #[trigger] set.requires((this, p)),
        ensures
            r.wf(),
            r.property.ident == self.property.ident,
            r.property.ty == self.property.ty,
            r.property.get == self.property.get,
            r.property.set is Some,
            forall|args: Seq<Value<'static>>, v: Value<'static>|
                #[trigger] r.property.set->Some_0.gives(args, v)
                    == setter_gives::<'static, T, S, P>(set, args, v),
    {
        let mut this = self;
        this.add_setter(set);
        this
    }
}

} // verus!
