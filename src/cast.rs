//! Casting as a method of the value itself.
//!
//! [`Cast<T>`] is implemented for every `'static` type. Each method tries the
//! value, or a reference to it, as a `T`, and succeeds only when the value's
//! type is `T`.
use crate::identity::{same_layout, type_eq};
use crate::reinterpret::{reinterpret, reinterpret_mut, reinterpret_ref};
use vstd::prelude::*;

verus! {

/// Tries a value, or a reference to it, as the target type `T`.
pub trait Cast<T>: Sized {
    /// A reference to `self` as a `T`, when `Self` is `T`.
    fn cast_ref(&self) -> (r: Option<&T>)
        ensures
            r is Some ==> same_layout::<Self, T>(),
            !same_layout::<Self, T>() ==> r is None,
    ;

    /// A mutable reference to `self` as a `T`, when `Self` is `T`; on
    /// failure `self` is left as it was.
    fn cast_mut(&mut self) -> (r: Option<&mut T>)
        ensures
            r is Some ==> same_layout::<Self, T>(),
            r is None ==> *final(self) == *old(self),
            !same_layout::<Self, T>() ==> r is None,
    ;

    /// `self` as a `T`, when `Self` is `T`; otherwise `self` itself.
    fn cast_into(self) -> (r: Result<T, Self>)
        ensures
            r matches Err(v) ==> v == self,
            r is Ok ==> same_layout::<Self, T>(),
            !same_layout::<Self, T>() ==> r == Err::<T, Self>(self),
    ;
}

impl<T: 'static, U: 'static> Cast<T> for U {
    fn cast_ref(&self) -> (r: Option<&T>) {
        if type_eq::<U, T>() {
            match reinterpret_ref::<U, T>(self) {
                Ok(t) => Some(t),
                Err(_) => None,
            }
        } else {
            None
        }
    }

    fn cast_mut(&mut self) -> (r: Option<&mut T>) {
        if type_eq::<U, T>() {
            match reinterpret_mut::<U, T>(self) {
                Ok(t) => Some(t),
                Err(_) => None,
            }
        } else {
            None
        }
    }

    fn cast_into(self) -> (r: Result<T, U>) {
        if type_eq::<U, T>() {
            reinterpret::<U, T>(self)
        } else {
            Err(self)
        }
    }
}

} // verus!
