//! Reinterpreting a value of one type as another once the types are known
//! to be the same.
//!
//! Each function hands the value through `<dyn Any>::downcast_ref`, which
//! succeeds only when the two types are one and the same; the result is
//! then the argument itself, seen at the target type. When the types differ
//! the argument is handed back untouched. What is downcast is an identity
//! function (`core::convert::identity`, or `Borrow::borrow` and
//! `BorrowMut::borrow_mut` on the type itself) from the source form to the
//! source form, tried as one from the source form to the target form. For
//! references that function's type is higher-ranked over the lifetime and
//! so `'static`, while the references are not; the caller's lifetime is
//! kept. Once the types are known this compiles down to the argument.
use core::any::Any;
use core::borrow::{Borrow, BorrowMut};
use vstd::prelude::*;

verus! {

/// Relies on `<dyn Any>::downcast_ref`: succeeds exactly for `T == U`, and
/// otherwise `value` is returned as it was.
#[verifier::external_body]
pub(crate) fn reinterpret<T: 'static, U: 'static>(value: T) -> (r: Result<U, T>)
    ensures
        r matches Err(v) ==> v == value,
{
    let same: fn(T) -> T = core::convert::identity;
    match (&same as &dyn Any).downcast_ref::<fn(T) -> U>() {
        Some(as_target) => Ok(as_target(value)),
        None => Err(value),
    }
}

/// Relies on `<dyn Any>::downcast_ref`: succeeds exactly for `T == U`, and
/// otherwise `value` is returned as it was.
#[verifier::external_body]
pub(crate) fn reinterpret_ref<'a, T: 'static, U: 'static>(value: &'a T) -> (r: Result<
    &'a U,
    &'a T,
>)
    ensures
        r matches Err(v) ==> v == value,
{
    (value as &dyn Any).downcast_ref::<U>().ok_or(value)
}

/// Relies on `<dyn Any>::downcast_ref`: succeeds exactly for `T == U`, and
/// otherwise `value` is returned as it was, still pointing at the same place.
#[verifier::external_body]
pub(crate) fn reinterpret_mut<'a, T: 'static, U: 'static>(value: &'a mut T) -> (r: Result<
    &'a mut U,
    &'a mut T,
>)
    ensures
        r matches Err(v) ==> *v == *old(value) && *final(v) == *final(value),
{
    let same: for<'x> fn(&'x mut T) -> &'x mut T = <T as BorrowMut<T>>::borrow_mut;
    match (&same as &dyn Any).downcast_ref::<for<'x> fn(&'x mut T) -> &'x mut U>() {
        Some(as_target) => Ok(as_target(value)),
        None => Err(value),
    }
}

/// Relies on `<dyn Any>::downcast_ref`: succeeds exactly for `T == U`; the
/// slice keeps its place and length, and on failure it is returned as it was.
#[verifier::external_body]
pub(crate) fn reinterpret_slice<'a, T: 'static, U: 'static>(value: &'a [T]) -> (r: Result<
    &'a [U],
    &'a [T],
>)
    ensures
        r matches Err(v) ==> v@ == value@,
        r matches Ok(v) ==> v@.len() == value@.len(),
{
    let same: for<'x> fn(&'x [T]) -> &'x [T] = <[T] as Borrow<[T]>>::borrow;
    match (&same as &dyn Any).downcast_ref::<for<'x> fn(&'x [T]) -> &'x [U]>() {
        Some(as_target) => Ok(as_target(value)),
        None => Err(value),
    }
}

/// Relies on `<dyn Any>::downcast_ref`: succeeds exactly for `T == U`; the
/// slice keeps its place and length, and on failure it is returned as it was.
#[verifier::external_body]
pub(crate) fn reinterpret_slice_mut<'a, T: 'static, U: 'static>(value: &'a mut [T]) -> (r: Result<
    &'a mut [U],
    &'a mut [T],
>)
    ensures
        r matches Err(v) ==> v@ == old(value)@ && final(v)@ == final(value)@,
        r matches Ok(v) ==> v@.len() == old(value)@.len() && final(v)@.len() == final(value)@.len(),
{
    let same: for<'x> fn(&'x mut [T]) -> &'x mut [T] = <[T] as BorrowMut<[T]>>::borrow_mut;
    match (&same as &dyn Any).downcast_ref::<for<'x> fn(&'x mut [T]) -> &'x mut [U]>() {
        Some(as_target) => Ok(as_target(value)),
        None => Err(value),
    }
}

} // verus!
