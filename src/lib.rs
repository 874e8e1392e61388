//! Zero-cost downcasting of generic values to concrete types.
//!
//! A value whose type is only known as a type parameter can be tried
//! against a concrete target type. When the two types are the same the
//! value comes back as the target type; otherwise it comes back unchanged.
pub mod cast;
pub mod identity;
pub mod internal;
mod reinterpret;

pub use cast::Cast;
pub use identity::{type_eq, TypeWitness};
pub use internal::{cast_request, AutoDerefLayer, CastRequest, TypeToken};
