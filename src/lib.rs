//! A marshaling and reflection registry: native functions, methods and
//! properties exposed to a dynamically typed caller through one runtime
//! value type.
pub mod any;
pub mod builder;
pub mod callable;
pub mod conv;
pub mod registry;
pub mod value;

pub use any::{Any, Native};
pub use builder::{Builder, PropertyBuilder, TyBuilder, TyMap, TyMapMut};
pub use callable::{FnCall, Getter, MethodCall, MethodMutCall, Setter};
pub use conv::{check_arity, FromMultiValue, FromValue, IntoValue, MultiVal};
pub use registry::{Callable, FunPtr, Function, Property, Ty};
pub use value::{Error, Result, Value, ValueTy};
