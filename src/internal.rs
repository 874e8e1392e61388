//! The strategies of a cast, and how the most specific one is chosen.
//!
//! A cast is asked for with a pair of [`TypeToken`]s, one for the source and
//! one for the target, wrapped in several [`AutoDerefLayer`]s. Each strategy
//! is a `try_cast` method on the pair at one particular depth, with its own
//! bounds. Method resolution starts at the outermost layer and peels one
//! layer at a time through `Deref`, so the first depth whose bounds hold is
//! the strategy that runs; exactly one does. The three outermost depths
//! belong to strategies for source types that may borrow data; those
//! reinterpret with `unsafe` code and are not defined here.
//!
//! Every strategy either hands back the value at the target type, or hands
//! back the very value it was given. None of them succeeds unless the
//! source and target items have the same size and alignment.
use crate::identity::{same_layout, type_eq};
use crate::reinterpret::{
    reinterpret,
    reinterpret_mut,
    reinterpret_ref,
    reinterpret_slice,
    reinterpret_slice_mut,
};
use core::marker::PhantomData;
use core::ops::Deref;
use vstd::prelude::*;

verus! {

/// One layer of indirection around a cast request; see the module
/// documentation.
pub struct AutoDerefLayer<T: ?Sized>(pub T);

impl<T> Deref for AutoDerefLayer<AutoDerefLayer<T>> {
    type Target = AutoDerefLayer<T>;

    fn deref(&self) -> (r: &AutoDerefLayer<T>)
        ensures
            *r == self.0,
    {
        &self.0
    }
}

/// Names a type without holding a value of it.
pub struct TypeToken<T: ?Sized>(PhantomData<T>);

impl<T: ?Sized> TypeToken<T> {
    /// The token of the type of `_value`.
    pub fn of_val(_value: &T) -> (r: Self) {
        Self::of()
    }

    /// The token of `T`.
    pub fn of() -> (r: Self) {
        TypeToken(PhantomData)
    }
}

/// A cast request: the pair of tokens under seven layers, one for each
/// strategy that may serve it.
pub type CastRequest<S, D> = AutoDerefLayer<
    AutoDerefLayer<
        AutoDerefLayer<
            AutoDerefLayer<AutoDerefLayer<AutoDerefLayer<AutoDerefLayer<(TypeToken<S>, TypeToken<D>)>>>>,
        >,
    >,
>;

/// Wraps a source and a target token into a request; calling `try_cast`
/// on it runs the most specific strategy whose bounds the two types meet.
pub fn cast_request<S: ?Sized, D: ?Sized>(source: TypeToken<S>, target: TypeToken<D>) -> (r:
    CastRequest<S, D>)
    ensures
        r.0.0.0.0.0.0.0 == (source, target),
{
    AutoDerefLayer(
        AutoDerefLayer(
            AutoDerefLayer(AutoDerefLayer(AutoDerefLayer(AutoDerefLayer(AutoDerefLayer((source, target)))))),
        ),
    )
}

/// Mutable slices whose items are `'static`; the lifetime of the slice is
/// kept.
impl<'a, T: 'static, U: 'static> AutoDerefLayer<
    AutoDerefLayer<AutoDerefLayer<AutoDerefLayer<(TypeToken<&'a mut [T]>, TypeToken<&'a mut [U]>)>>>,
> {
    /// Casts a mutable slice of `T` to a mutable slice of `U` when `T` and
    /// `U` are the same type.
    pub fn try_cast(&self, value: &'a mut [T]) -> (r: Result<&'a mut [U], &'a mut [T]>)
        ensures
            r matches Err(v) ==> v@ == old(value)@ && final(v)@ == final(value)@,
            r matches Ok(v) ==> {
                &&& same_layout::<T, U>()
                &&& v@.len() == old(value)@.len()
                &&& final(v)@.len() == final(value)@.len()
            },
            !same_layout::<T, U>() ==> r is Err,
    {
        if type_eq::<T, U>() {
            reinterpret_slice_mut::<T, U>(value)
        } else {
            Err(value)
        }
    }
}

/// Slices whose items are `'static`; the lifetime of the slice is kept.
impl<'a, T: 'static, U: 'static> AutoDerefLayer<
    AutoDerefLayer<AutoDerefLayer<(TypeToken<&'a [T]>, TypeToken<&'a [U]>)>>,
> {
    /// Casts a slice of `T` to a slice of `U` when `T` and `U` are the
    /// same type.
    pub fn try_cast(&self, value: &'a [T]) -> (r: Result<&'a [U], &'a [T]>)
        ensures
            r matches Err(v) ==> v@ == value@,
            r matches Ok(v) ==> same_layout::<T, U>() && v@.len() == value@.len(),
            !same_layout::<T, U>() ==> r is Err,
    {
        if type_eq::<T, U>() {
            reinterpret_slice::<T, U>(value)
        } else {
            Err(value)
        }
    }
}

/// Mutable references whose target is `'static`; the lifetime of the
/// reference is kept.
impl<'a, T: 'static, U: 'static> AutoDerefLayer<
    AutoDerefLayer<(TypeToken<&'a mut T>, TypeToken<&'a mut U>)>,
> {
    /// Casts a mutable reference to `T` to one to `U` when `T` and `U` are
    /// the same type.
    pub fn try_cast(&self, value: &'a mut T) -> (r: Result<&'a mut U, &'a mut T>)
        ensures
            r matches Err(v) ==> *v == *old(value) && *final(v) == *final(value),
            r is Ok ==> same_layout::<T, U>(),
            !same_layout::<T, U>() ==> r is Err,
    {
        if type_eq::<T, U>() {
            reinterpret_mut::<T, U>(value)
        } else {
            Err(value)
        }
    }
}

/// References whose target is `'static`; the lifetime of the reference is
/// kept.
impl<'a, T: 'static, U: 'static> AutoDerefLayer<
    AutoDerefLayer<(TypeToken<&'a T>, TypeToken<&'a U>)>,
> {
    /// Casts a reference to `T` to one to `U` when `T` and `U` are the same
    /// type.
    pub fn try_cast(&self, value: &'a T) -> (r: Result<&'a U, &'a T>)
        ensures
            r matches Err(v) ==> v == value,
            r is Ok ==> same_layout::<T, U>(),
            !same_layout::<T, U>() ==> r == Err::<&'a U, &'a T>(value),
    {
        if type_eq::<T, U>() {
            reinterpret_ref::<T, U>(value)
        } else {
            Err(value)
        }
    }
}

/// Values of `'static` types.
impl<T: 'static, U: 'static> AutoDerefLayer<(TypeToken<T>, TypeToken<U>)> {
    /// Casts a value of `T` to `U` when `T` and `U` are the same type. This
    /// is the strategy of last resort among those for `'static` types.
    pub fn try_cast(&self, value: T) -> (r: Result<U, T>)
        ensures
            r matches Err(v) ==> v == value,
            r is Ok ==> same_layout::<T, U>(),
            !same_layout::<T, U>() ==> r == Err::<U, T>(value),
    {
        if type_eq::<T, U>() {
            reinterpret::<T, U>(value)
        } else {
            Err(value)
        }
    }
}

} // verus!
