//! The static description of what is exposed: functions, properties and
//! types, each call going through one erased callable.
use std::any::TypeId;
use std::sync::Arc;
use vstd::prelude::*;

use crate::value::{Value, ValueTy};

verus! {

/// A native closure behind a uniform call convention: an ordered list of
/// values in, one value out. A failure comes back as the error variant. A
/// callable can be shared across threads.
pub trait Callable: Send + Sync {
    /// Whether the captured closure accepts every argument it may be handed.
    spec fn ready(&self) -> bool;

    /// Whether calling with `args` may give `r`.
    spec fn gives(&self, args: Seq<Value<'_>>, r: Value<'static>) -> bool;

    /// Calls the captured closure.
    fn call(&self, args: Vec<Value<'_>>) -> (r: Value<'static>)
        requires
            self.ready(),
        ensures
            self.gives(args@, r),
    ;
}

/// A shared erased callable.
pub type FunPtr = Arc<Box<dyn Callable>>;

/// A registered function or method.
pub struct Function {
    pub callee: FunPtr,
    pub ident: &'static str,
    pub args: Vec<ValueTy>,
    pub ret: ValueTy,
}

impl Function {
    /// Whether the function can be called on any arguments.
    pub open spec fn wf(&self) -> bool {
        self.callee.ready()
    }

    /// Calls the function; a failure comes back as the error variant.
    pub fn call(&self, args: Vec<Value<'_>>) -> (r: Value<'static>)
        requires
            self.wf(),
        ensures
            self.callee.gives(args@, r),
    {
        self.callee.call(args)
    }
}

/// A registered property: its declared type and optional accessors.
pub struct Property {
    pub ident: &'static str,
    pub ty: ValueTy,
    pub get: Option<FunPtr>,
    pub set: Option<FunPtr>,
}

impl Property {
    /// Whether each accessor present can be called on any arguments.
    pub open spec fn wf(&self) -> bool {
        &&& (self.get matches Some(g) ==> g.ready())
        &&& (self.set matches Some(s) ==> s.ready())
    }
}

/// One registered native type.
pub struct Ty {
    pub functions: Vec<Function>,
    pub id: TypeId,
    pub ident: &'static str,
    pub methods: Vec<Function>,
    pub properties: Vec<Property>,
}

impl Ty {
    /// Whether every entry of the type can be called on any arguments.
    pub open spec fn wf(&self) -> bool {
        &&& forall|i: int| 0 <= i < self.functions@.len() ==> #[trigger] self.functions@[i].wf()
        &&& forall|i: int| 0 <= i < self.methods@.len() ==> #[trigger] self.methods@[i].wf()
        &&& forall|i: int| 0 <= i < self.properties@.len() ==> #[trigger] self.properties@[i].wf()
    }
}

} // verus!
