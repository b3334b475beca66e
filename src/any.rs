//! Type erasure: a uniform identity for native types, and downcasts that
//! hand out a typed view only after the identity matched.
use std::any::TypeId;
use vstd::prelude::*;

verus! {

#[verifier::external_type_specification]
#[verifier::external_body]
pub struct ExTypeId(std::any::TypeId);

/// Relies on `TypeId::of`: the identity that the compiler gives `T`.
pub assume_specification<T: ?Sized + 'static>[ std::any::TypeId::of::<T> ]() -> std::any::TypeId;

/// Relies on `TypeId`'s `==`: two identities compare equal exactly when they are the same value.
pub assume_specification[ <std::any::TypeId as std::cmp::PartialEq>::eq ](
    a: &std::any::TypeId,
    b: &std::any::TypeId,
) -> (r: bool)
    ensures
        r == (*a == *b),
;

/// A native type that may travel inside a `Value`: it names itself for
/// diagnostics, and can be shared across threads, as the registry is.
pub trait Native: Send + Sync + 'static {
    /// The display name of the type.
    const IDENT: &'static str;
}

/// std's erased box, `Box<dyn std::any::Any>`, which Verus does not take in a
/// signature; held opaque, and read only through the functions below.
#[verifier::external_body]
#[derive(Debug)]
struct Erased {
    boxed: Box<dyn std::any::Any>,
}

/// Relies on std's unsizing of a box into `Box<dyn Any>`: the object keeps
/// its concrete type.
#[verifier::external_body]
fn std_erase<T: 'static>(obj: T) -> Erased {
    Erased { boxed: Box::new(obj) }
}

/// Relies on std's `<dyn Any>::downcast_ref`: it yields the object only when
/// its concrete type is `T`.
#[verifier::external_body]
fn std_downcast_ref<T: 'static>(obj: &Erased) -> Option<&T> {
    obj.boxed.downcast_ref::<T>()
}

/// Relies on std's `<dyn Any>::downcast_mut`: it yields the object only when
/// its concrete type is `T`, and leaves it untouched otherwise.
#[verifier::external_body]
fn std_downcast_mut<T: 'static>(obj: &mut Erased) -> (r: Option<&mut T>)
    ensures
        r is None ==> *final(obj) == *old(obj),
{
    obj.boxed.downcast_mut::<T>()
}

/// An erased native object: its concrete type is known only by identity,
/// recorded when it was erased, and a typed view comes out only after that
/// identity matched.
#[derive(Debug)]
pub struct Any {
    obj: Erased,
    id: TypeId,
    ident: &'static str,
}

impl Any {
    /// The identity of the object's concrete type.
    pub closed spec fn id_spec(&self) -> TypeId {
        self.id
    }

    /// The display name of the object's concrete type.
    pub closed spec fn ident_spec(&self) -> Seq<char> {
        self.ident@
    }

    /// Erases a native object.
    pub fn new<T: Native>(obj: T) -> (r: Any)
        ensures
            r.ident_spec() == T::IDENT@,
    {
        Any { obj: std_erase(obj), id: TypeId::of::<T>(), ident: T::IDENT }
    }

    /// The display name of the object's concrete type.
    pub fn type_ident(&self) -> (r: &'static str)
        ensures
            r@ == self.ident_spec(),
    {
        self.ident
    }

    /// The identity of the object's concrete type.
    pub fn type_id(&self) -> (r: TypeId)
        ensures
            r == self.id_spec(),
    {
        self.id
    }

    /// Whether the object's concrete type has the identity `id`.
    pub fn is_type_id(&self, id: &TypeId) -> (r: bool)
        ensures
            r == (self.id_spec() == *id),
    {
        self.id == *id
    }

    /// Whether the object's concrete type is `T`: its identity is compared
    /// with the one that the compiler gives `T`.
    pub fn is<T: Native>(&self) -> bool {
        let expected = TypeId::of::<T>();
        self.is_type_id(&expected)
    }

    /// A typed view of the object, when its concrete type is `T`.
    pub fn downcast_ref<T: Native>(&self) -> Option<&T> {
        if self.is::<T>() {
            std_downcast_ref::<T>(&self.obj)
        } else {
            None
        }
    }

    /// An exclusive typed view of the object, when its concrete type is `T`.
    pub fn downcast_mut<T: Native>(&mut self) -> (r: Option<&mut T>)
        ensures
            r is None ==> *final(self) == *old(self),
    {
        if self.is::<T>() {
            std_downcast_mut::<T>(&mut self.obj)
        } else {
            None
        }
    }
}

} // verus!
