//! Deciding whether two type parameters stand for the same type.
//!
//! A type is read through a [`TypeWitness`]: its size, its alignment,
//! whether dropping it runs code, and an identity token. Two types are
//! reported the same only when all four agree, so a token that happened to
//! collide would still have to meet three independent checks.
use core::any::TypeId;
use vstd::layout::{align_of, size_of};
use vstd::prelude::*;

verus! {

#[verifier::external_type_specification]
#[verifier::external_body]
pub struct ExTypeId(TypeId);

/// Relies on `TypeId::of`: the process-wide token of a `'static` type.
/// Nothing about the token is stated here; only its comparison is.
pub assume_specification<T: ?Sized + 'static>[ TypeId::of::<T> ]() -> TypeId;

/// Relies on `core::mem::needs_drop`: whether dropping a `T` may run code.
pub assume_specification<T: ?Sized>[ core::mem::needs_drop::<T> ]() -> bool;

/// Relies on `TypeId`'s `==`: two tokens compare equal exactly when they are the same token.
#[verifier::external_body]
pub(crate) fn type_id_eq(lhs: TypeId, rhs: TypeId) -> (r: bool)
    ensures
        r == (lhs == rhs),
{
    lhs == rhs
}

/// Size and alignment of `T` and `U` are the same.
pub open spec fn same_layout<T, U>() -> bool {
    size_of::<T>() == size_of::<U>() && align_of::<T>() == align_of::<U>()
}

/// What the oracle reads of a type without knowing what it is.
pub struct TypeWitness {
    pub size: usize,
    pub align: usize,
    pub needs_drop: bool,
    pub id: TypeId,
}

impl TypeWitness {
    /// Two witnesses agree when size, alignment, drop obligation and token agree.
    pub open spec fn agrees_with(self, other: TypeWitness) -> bool {
        &&& self.size == other.size
        &&& self.align == other.align
        &&& self.needs_drop == other.needs_drop
        &&& self.id == other.id
    }

    /// Reads the layout and drop obligation of `T` and pairs them with a
    /// token for `T` obtained elsewhere.
    pub fn with_id<T>(id: TypeId) -> (r: TypeWitness)
        ensures
            r.size as nat == size_of::<T>(),
            r.align as nat == align_of::<T>(),
            r.id == id,
    {
        TypeWitness {
            size: core::mem::size_of::<T>(),
            align: core::mem::align_of::<T>(),
            needs_drop: core::mem::needs_drop::<T>(),
            id,
        }
    }

    /// Reads the witness of a `'static` type, with its `TypeId` as token.
    pub fn of<T: 'static>() -> (r: TypeWitness)
        ensures
            r.size as nat == size_of::<T>(),
            r.align as nat == align_of::<T>(),
    {
        Self::with_id::<T>(TypeId::of::<T>())
    }

    /// Compares two witnesses part by part.
    pub fn agrees(&self, other: &TypeWitness) -> (r: bool)
        ensures
            r == self.agrees_with(*other),
    {
        self.size == other.size && self.align == other.align && self.needs_drop
            == other.needs_drop && type_id_eq(self.id, other.id)
    }
}

/// A witness agrees with itself: the comparison never reports a type
/// different from itself.
pub proof fn lemma_witness_reflexive(w: TypeWitness)
    ensures
        w.agrees_with(w),
{
}

/// Witnesses whose tokens differ never agree, even when size, alignment and
/// drop obligation coincide: two distinct types of the same layout stay
/// apart.
pub proof fn lemma_distinct_tokens_disagree(a: TypeWitness, b: TypeWitness)
    requires
        a.id != b.id,
    ensures
        !a.agrees_with(b),
{
}

/// Witnesses whose layouts differ never agree, whatever their tokens: a
/// collision of tokens alone cannot make two types the same.
pub proof fn lemma_distinct_layouts_disagree(a: TypeWitness, b: TypeWitness)
    requires
        a.size != b.size || a.align != b.align || a.needs_drop != b.needs_drop,
    ensures
        !a.agrees_with(b),
{
}

/// Decides whether two `'static` types are the same.
pub fn type_eq<T: 'static, U: 'static>() -> (r: bool)
    ensures
        r ==> same_layout::<T, U>(),
{
    TypeWitness::of::<T>().agrees(&TypeWitness::of::<U>())
}

} // verus!
