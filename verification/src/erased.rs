//! Type identity and type-erased storage, as `std::any` provides them.
//!
//! Nothing in this file is proved: each item states what is taken on trust
//! from the standard library.

use std::any::Any;
use std::any::TypeId;
use vstd::prelude::*;

verus! {

/// `std::any::TypeId`, an opaque value that identifies one `'static` type.
#[verifier::external_type_specification]
#[verifier::external_body]
pub struct ExTypeId(TypeId);

/// A handler whose static type has been forgotten. It holds a
/// `Box<dyn std::any::Any>`, which the verifier cannot look into, so the
/// whole value is opaque.
#[verifier::external_body]
pub struct ErasedHandler {
    inner: Box<dyn Any>,
}

/// Calls `TypeId::of::<T>()`. Nothing is claimed of the identity returned.
#[verifier::external_body]
pub(crate) fn kind_of<T: ?Sized + 'static>() -> (kind: TypeId) {
    TypeId::of::<T>()
}

/// Calls `==` of `TypeId`, which compares the two identities as values: the
/// result is `true` exactly when they are the same identity.
#[verifier::external_body]
pub(crate) fn same_kind(a: &TypeId, b: &TypeId) -> (same: bool)
    ensures
        same == (*a == *b),
{
    a == b
}

/// Boxes `value` as `Box<dyn Any>`. Nothing is claimed of the result.
#[verifier::external_body]
pub(crate) fn erase<T: 'static>(value: T) -> (erased: ErasedHandler) {
    ErasedHandler { inner: Box::new(value) }
}

/// Calls `downcast_ref::<T>()` of `dyn Any`, which gives the value back only
/// if it was boxed as a `T`. Nothing is claimed of which of the two happens.
#[verifier::external_body]
pub(crate) fn recover<T: 'static>(erased: &ErasedHandler) -> (value: Option<&T>) {
    erased.inner.downcast_ref::<T>()
}

} // verus!
