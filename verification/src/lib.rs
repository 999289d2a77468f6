//! A lazily constructed, reference-counted singleton slot.
//!
//! A [`GlobalWeak`] handle owns a construction function and a lock-guarded
//! non-owning reference to the payload the function builds. The payload is
//! built on first demand, kept alive only while some caller holds a strong
//! reference to it, and rebuilt transparently on the next demand after the
//! last strong reference is gone.

mod weak_ref;

pub use weak_ref::WeakRef;

use std::sync::Arc;
use vstd::prelude::*;
use vstd::rwlock::RwLock;

verus! {

/// A handle for one lazily built, shared payload.
///
/// The slot starts empty; the first upgrade builds the payload and later
/// upgrades share it while any strong reference keeps it alive. The slot
/// holds only a non-owning reference, so the payload is dropped once the
/// last strong reference is released, and the next upgrade builds a fresh
/// one.
#[verifier::reject_recursive_types(T)]
#[verifier::reject_recursive_types(F)]
pub struct GlobalWeak<T, F: Fn() -> T> {
    wrapped: RwLock<WeakRef<T>, spec_fn(WeakRef<T>) -> bool>,
    builder: F,
}

impl<T, F: Fn() -> T> GlobalWeak<T, F> {
    /// The construction function this handle was created with.
    pub closed spec fn builder(self) -> F {
        self.builder
    }

    /// True of every value a strong reference handed out by this handle can
    /// carry: it is a possible result of the construction function.
    pub open spec fn built(self, v: T) -> bool {
        call_ensures(self.builder(), (), v)
    }

    /// The invariant the lock keeps of the slot: whatever the slot refers to
    /// came out of the construction function.
    spec fn slot_pred(builder: F) -> spec_fn(WeakRef<T>) -> bool {
        |s: WeakRef<T>| s.referent() matches Some(v) ==> call_ensures(builder, (), v)
    }

    #[verifier::type_invariant]
    spec fn wf(self) -> bool {
        &&& self.wrapped.pred() == Self::slot_pred(self.builder)
        &&& call_requires(self.builder, ())
    }

    /// Create a handle with an empty slot. The construction function is
    /// stored, not invoked; it runs once per generation, on the first
    /// upgrade after the slot is found empty or expired.
    pub fn new(builder: F) -> (handle: Self)
        requires
            call_requires(builder, ()),
        ensures
            handle.builder() == builder,
    {
        let slot = WeakRef::empty();
        GlobalWeak { wrapped: RwLock::new(slot, Ghost(Self::slot_pred(builder))), builder }
    }

    /// Return a strong reference to a live payload: the one already alive,
    /// or a newly built one if none was.
    ///
    /// The fast path only takes shared access and upgrades the slot's
    /// non-owning reference. If nothing is alive it releases shared access,
    /// takes exclusive access and re-checks, since another caller may have
    /// built the payload in between; only if the slot is still dead does it
    /// invoke the construction function — so at most one construction is in
    /// flight per handle — and store a non-owning reference to the result.
    ///
    /// The guarding lock is free of poisoning, so the result is never
    /// `None`; the `Option` stands for the one failure a synchronization
    /// primitive could otherwise report.
    pub fn upgrade(&self) -> (r: Option<Arc<T>>)
        ensures
            r is Some,
            r matches Some(strong) ==> self.built(*strong),
    {
        proof {
            use_type_invariant(self);
        }
        let read_handle = self.wrapped.acquire_read();
        let fast = read_handle.borrow().upgrade();
        read_handle.release_read();
        match fast {
            Some(strong) => Some(strong),
            None => {
                let (slot, write_handle) = self.wrapped.acquire_write();
                match slot.upgrade() {
                    Some(strong) => {
                        write_handle.release_write(slot);
                        Some(strong)
                    },
                    None => {
                        let value = (self.builder)();
                        let strong = Arc::new(value);
                        write_handle.release_write(WeakRef::downgrade(&strong));
                        Some(strong)
                    },
                }
            },
        }
    }

    /// Consume the handle and hand out its internal non-owning reference.
    /// No strong or weak count changes.
    pub fn into_weak(self) -> (r: WeakRef<T>)
        ensures
            r.referent() matches Some(v) ==> self.built(v),
    {
        proof {
            use_type_invariant(&self);
        }
        let GlobalWeak { wrapped, builder: _ } = self;
        wrapped.into_inner()
    }

    /// Create an additional non-owning reference to the slot contents,
    /// leaving the handle in place. The strong count is untouched; the weak
    /// count grows by one.
    pub fn to_weak(&self) -> (r: WeakRef<T>)
        ensures
            r.referent() matches Some(v) ==> self.built(v),
    {
        proof {
            use_type_invariant(self);
        }
        let read_handle = self.wrapped.acquire_read();
        let r = read_handle.borrow().duplicate();
        read_handle.release_read();
        r
    }
}

/// Law: upgrades are idempotent at the level of the payload value. Every
/// strong reference a handle hands out — directly or through an upgraded
/// non-owning reference — carries a result of the construction function, so
/// whenever that function determines its result, any two payloads obtained
/// from the handle are the same value, however many upgrades lie between.
pub proof fn lemma_upgrade_single_value<T, F: Fn() -> T>(
    handle: GlobalWeak<T, F>,
    expected: T,
    first: T,
    second: T,
)
    requires
        forall|v: T| call_ensures(handle.builder(), (), v) ==> v == expected,
        handle.built(first),
        handle.built(second),
    ensures
        first == expected,
        second == expected,
        first == second,
{
}

} // verus!
