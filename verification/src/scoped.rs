//! A reference that either borrows its target or shares the ownership of it.
//!
//! A handle that is derived from another one must not outlive it. A `Scoped`
//! is what the derived handle keeps of its parent: a borrow, which the
//! compiler holds to the parent's scope, or a share of the parent itself,
//! which keeps the parent alive for as long as the derived handle exists.
//! Either way the target can only be read through it.

use std::sync::Arc;
use vstd::prelude::*;
use vstd::std_specs::convert::FromSpecImpl;

verus! {

/// A read-only reference to a `T` that lives at least as long as `'a`.
#[derive(Debug)]
pub enum Scoped<'a, T> {
    /// The target lives elsewhere and outlives `'a`.
    Borrowed(&'a T),
    /// The target is kept alive by this reference and its shares.
    Shared(Arc<T>),
}

impl<'a, T> View for Scoped<'a, T> {
    type V = T;

    /// The value that the reference leads to.
    open spec fn view(&self) -> T {
        match self {
            Scoped::Borrowed(target) => **target,
            Scoped::Shared(target) => **target,
        }
    }
}

/// `Arc::clone` gives a second pointer to the allocation of the first, so
/// both lead to the same value.
#[verifier::external_body]
fn clone_shared<T>(shared: &Arc<T>) -> (other: Arc<T>)
    ensures
        other == *shared,
{
    Arc::clone(shared)
}

impl<'a, T> Scoped<'a, T> {
    /// Whether the target is kept alive by this reference.
    pub fn is_shared(&self) -> (shared: bool)
        ensures
            shared == (*self is Shared),
    {
        match self {
            Scoped::Borrowed(_) => false,
            Scoped::Shared(_) => true,
        }
    }

    /// Read access to the target.
    pub fn get(&self) -> (target: &T)
        ensures
            *target == self@,
    {
        match self {
            Scoped::Borrowed(target) => target,
            Scoped::Shared(target) => target,
        }
    }

    /// A second reference to the same target, of the same kind. The first
    /// one stays as it is.
    pub fn share(&self) -> (other: Self)
        ensures
            other == *self,
            other@ == self@,
    {
        match self {
            Scoped::Borrowed(target) => Scoped::Borrowed(target),
            Scoped::Shared(target) => Scoped::Shared(clone_shared(target)),
        }
    }
}

impl<'a, T> From<&'a T> for Scoped<'a, T> {
    fn from(target: &'a T) -> (scoped: Self) {
        Scoped::Borrowed(target)
    }
}

impl<'a, T> FromSpecImpl<&'a T> for Scoped<'a, T> {
    open spec fn obeys_from_spec() -> bool {
        true
    }

    open spec fn from_spec(target: &'a T) -> Self {
        Scoped::Borrowed(target)
    }
}

impl<'a, T> From<T> for Scoped<'a, T> {
    fn from(target: T) -> (scoped: Self) {
        Scoped::Shared(Arc::new(target))
    }
}

impl<'a, T> FromSpecImpl<T> for Scoped<'a, T> {
    open spec fn obeys_from_spec() -> bool {
        true
    }

    open spec fn from_spec(target: T) -> Self {
        Scoped::Shared(Arc::new(target))
    }
}

/// However a reference is made from a value, it leads to that value.
pub proof fn lemma_scoped_leads_to_target<'a, T>(target: &'a T)
    ensures
        <Scoped<'a, T> as vstd::std_specs::convert::FromSpec<&'a T>>::from_spec(target)@ == *target,
        <Scoped<'a, T> as vstd::std_specs::convert::FromSpec<T>>::from_spec(*target)@ == *target,
{
}

} // verus!
