//! Values stored without their static type.
//!
//! A slot of the registry can hold a state of any type. The value is kept
//! behind `dyn Any` and handed back by a checked downcast, so the functions
//! here are the only place where a stored value changes its static type.
use vstd::prelude::*;
use std::any::Any;
use std::any::TypeId;

verus! {

#[verifier::external_type_specification]
#[verifier::external_body]
pub struct ExTypeId(TypeId);

/// A boxed value of some `'static + Send` type. Nothing but the functions of
/// this module looks inside.
#[verifier::external_body]
pub struct Payload {
    inner: Box<dyn Any + Send>,
}

/// The identifier of the type of the value that a payload holds: what
/// `Any::type_id` returns for the boxed value.
pub uninterp spec fn payload_type(payload: Payload) -> TypeId;

/// `TypeId::of`: the identifier of the type `T`. Nothing is claimed about
/// the identifier itself; `is_tag_of` speaks of what this function returns.
#[verifier::external_body]
fn type_tag<T: 'static>() -> (r: TypeId) {
    TypeId::of::<T>()
}

/// Whether `tag` identifies the type `T`: whether it is what `TypeId::of`
/// returns for `T`.
pub closed spec fn is_tag_of<T: 'static>(tag: TypeId) -> bool {
    call_ensures(type_tag::<T>, (), tag)
}

/// The identifier of the type `T`.
pub(crate) fn tag_of<T: 'static>() -> (r: TypeId)
    ensures
        is_tag_of::<T>(r),
{
    type_tag::<T>()
}

/// `TypeId::eq`: two identifiers compare equal exactly when they are the
/// same identifier.
#[verifier::external_body]
pub(crate) fn same_type(a: &TypeId, b: &TypeId) -> (r: bool)
    ensures
        r == (*a == *b),
{
    a == b
}

/// `Any::type_id`: the identifier of the type of the value in `payload`.
#[verifier::external_body]
pub(crate) fn stored_type(payload: &Payload) -> (r: TypeId)
    ensures
        r == payload_type(*payload),
{
    (*payload.inner).type_id()
}

/// Whether looking at `payload` as a `T` gives `seen`: whether `seen` is
/// what `<dyn Any>::downcast_ref` returns for it.
pub closed spec fn yields<T: 'static>(payload: Payload, seen: Option<&T>) -> bool {
    call_ensures(downcast_ref::<T>, (&payload,), seen)
}

/// `Box::new`, with the box then seen as `dyn Any + Send`: moves `value`
/// onto the heap and forgets its static type. The box holds a `T`: the
/// type of what it holds is the identifier of `T`, which is the only one
/// that `T` has, and looking at it as a `T` gives `value`.
#[verifier::external_body]
pub(crate) fn erase<T: Send + 'static>(value: T) -> (r: Payload)
    ensures
        forall|tag: TypeId| #[trigger] is_tag_of::<T>(tag) <==> tag == payload_type(r),
        yields::<T>(r, Some(&value)),
{
    Payload { inner: Box::new(value) }
}

/// `<dyn Any>::downcast_ref`: the stored value, exactly where it is a `T`,
/// which is where the identifier of its type is that of `T`.
#[verifier::external_body]
fn downcast_ref<T: 'static>(payload: &Payload) -> (r: Option<&T>)
    ensures
        r is Some <==> is_tag_of::<T>(payload_type(*payload)),
{
    payload.inner.downcast_ref::<T>()
}

/// The value in `payload` as a `T`, exactly where it is one.
pub(crate) fn view_as<T: 'static>(payload: &Payload) -> (r: Option<&T>)
    ensures
        r is Some <==> is_tag_of::<T>(payload_type(*payload)),
        yields::<T>(*payload, r),
{
    downcast_ref::<T>(payload)
}

/// `<dyn Any>::downcast_mut`: the stored value for writing, exactly where
/// it is a `T`. Where it is not, the payload is left as it was. Where it
/// is, the reference is to the value that a look at the payload gives, and
/// what is written through it is what a look at the payload gives
/// afterwards: a `T` again, so the payload keeps its type.
#[verifier::external_body]
pub(crate) fn downcast_mut<T: 'static>(payload: &mut Payload) -> (r: Option<&mut T>)
    ensures
        r is Some <==> is_tag_of::<T>(payload_type(*old(payload))),
        r is None ==> *final(payload) == *old(payload),
        payload_type(*final(payload)) == payload_type(*old(payload)),
        r matches Some(state) ==> yields::<T>(*old(payload), Some(&*state)) && yields::<T>(
            *final(payload),
            Some(&*final(state)),
        ),
{
    payload.inner.downcast_mut::<T>()
}

} // verus!
