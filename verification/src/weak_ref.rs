use vstd::prelude::*;

verus! {

/// Holder for `std::sync::Weak`, opaque to the verifier. The std type itself
/// cannot be declared to the verifier (its allocator type parameter has a
/// default), so it is kept behind this private field instead.
#[verifier::external_body]
#[verifier::reject_recursive_types(T)]
struct WeakCore<T> {
    inner: std::sync::Weak<T>,
}

/// A non-owning reference to a reference-counted allocation, paired with a
/// ghost record of the value that allocation held when the reference was
/// created.
///
/// The value behind a strong reference never changes, so a successful
/// upgrade of a non-owning reference always yields exactly the recorded
/// value; whether the upgrade succeeds depends on whether any strong
/// reference is still alive, which no contract here pins down.
#[verifier::reject_recursive_types(T)]
pub struct WeakRef<T> {
    core: WeakCore<T>,
    referent: Ghost<Option<T>>,
}

impl<T> WeakRef<T> {
    /// The value the referent allocation held when this reference was
    /// created; `None` for a reference created without a referent.
    pub closed spec fn referent(self) -> Option<T> {
        self.referent@
    }

    /// Relies on `std::sync::Weak::new`: a weak reference with no referent,
    /// whose upgrade always fails.
    #[verifier::external_body]
    pub(crate) fn empty() -> (r: Self)
        ensures
            r.referent() is None,
    {
        WeakRef { core: WeakCore { inner: std::sync::Weak::new() }, referent: Ghost(None) }
    }

    /// Relies on `std::sync::Arc::downgrade`: a weak reference to the arc's
    /// allocation, which holds `**strong` for as long as it stays alive.
    #[verifier::external_body]
    pub(crate) fn downgrade(strong: &std::sync::Arc<T>) -> (r: Self)
        ensures
            r.referent() == Some(**strong),
    {
        WeakRef {
            core: WeakCore { inner: std::sync::Arc::downgrade(strong) },
            referent: Ghost(Some(**strong)),
        }
    }

    /// Relies on `std::sync::Weak::upgrade`: it succeeds only while the
    /// referent allocation is still alive, and the strong reference it then
    /// returns carries the value the allocation was created with.
    #[verifier::external_body]
    pub fn upgrade(&self) -> (r: Option<std::sync::Arc<T>>)
        ensures
            r matches Some(strong) ==> self.referent() == Some(*strong),
    {
        self.core.inner.upgrade()
    }

    /// Relies on `std::sync::Weak::clone`: a second non-owning reference to
    /// the same referent; it changes no strong count.
    #[verifier::external_body]
    pub fn duplicate(&self) -> (r: Self)
        ensures
            r.referent() == self.referent(),
    {
        WeakRef { core: WeakCore { inner: self.core.inner.clone() }, referent: self.referent }
    }

    /// Relies on `std::sync::Weak::strong_count`: the number of strong
    /// references alive at some moment during the call. Other threads may
    /// change it at any time, so nothing is promised of the result.
    #[verifier::external_body]
    pub fn strong_count(&self) -> usize {
        self.core.inner.strong_count()
    }

    /// Relies on `std::sync::Weak::weak_count`: the number of non-owning
    /// references alive at some moment during the call, or zero once no
    /// strong reference is left. Nothing is promised of the result.
    #[verifier::external_body]
    pub fn weak_count(&self) -> usize {
        self.core.inner.weak_count()
    }
}

} // verus!
