//! The sink capability: an appender consumes one formatted payload.

use vstd::prelude::*;
use std::sync::Arc;

verus! {

/// A sink capability. A sink's only required operation is to consume one
/// formatted payload of type `T`; it must tolerate concurrent invocation and
/// must swallow its own I/O failures rather than panic.
pub trait Appender<T>: Sized {
    /// Consume one formatted message.
    fn append_log_message(&self, message: &T);
}

/// A conversion capability that turns an ergonomic input into an appender.
pub trait IntoAppender<T>: Sized {
    /// The appender this input converts into.
    type Target: Appender<T>;

    /// Perform the conversion.
    fn into_appender(self) -> Self::Target;
}

impl<T, A: Appender<T>> IntoAppender<T> for A {
    type Target = A;

    fn into_appender(self) -> (r: A)
        ensures
            r == self,
    {
        self
    }
}

/// Relies on `Arc::clone`: the new handle shares the same underlying value.
#[verifier::external_body]
pub(crate) fn arc_share<A>(handle: &Arc<A>) -> (r: Arc<A>)
    ensures
        r == *handle,
{
    Arc::clone(handle)
}

/// Relies on `Arc`'s `Deref`: a shared handle borrows its underlying value.
#[verifier::external_body]
fn arc_get<A>(handle: &Arc<A>) -> (r: &A)
    ensures
        *r == **handle,
{
    &**handle
}

impl<T, A: Appender<T>> Appender<T> for Arc<A> {
    fn append_log_message(&self, message: &T) {
        arc_get(self).append_log_message(message);
    }
}

} // verus!
