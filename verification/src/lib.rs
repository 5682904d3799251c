//! The ActionScript 3 `Namespace` class of the AVM2 virtual machine: its
//! instance initializer and its `uri` getter, together with the small model
//! of AVM2 values, objects and namespaces that they work on.

pub mod activation;
pub mod globals;
pub mod namespace;
pub mod value;

pub use activation::{Activation, Error, Stub};
pub use globals::{get_uri, init};
pub use namespace::{ApiVersion, Namespace};
pub use value::{Object, QName, ScriptObject, ToStringMethod, Value};
