//! The single-threaded tier: a copy-on-write handle over a plainly
//! reference-counted cell. The count discipline behind these operations —
//! aliasing, divergence, observer invalidation — is stated and proved in
//! [`crate::model`].

use std::rc::Rc;
use std::cmp::Ordering;
use vstd::prelude::*;
use vstd::std_specs::cmp::PartialEqSpec;
use vstd::std_specs::cmp::PartialOrdSpec;

verus! {

/// A copy-on-write handle around an [`Rc`]: shared for reads, cloned the
/// moment exclusive access is requested while the cell is not uniquely owned.
#[derive(Debug, Eq, Ord)]
pub struct CombRc<T: Clone> {
    inner: Rc<T>,
}

impl<T: Clone> CombRc<T> {
    /// The pointee: the value stored in the cell this handle owns.
    pub closed spec fn pointee(&self) -> T {
        *self.inner
    }

    /// Constructs a handle owning a fresh cell that holds `what`.
    pub fn new(what: T) -> (r: CombRc<T>)
        ensures
            r.pointee() == what,
    {
        CombRc { inner: Rc::new(what) }
    }

    /// Reads the pointee through this handle.
    pub fn get(&self) -> (r: &T)
        ensures
            *r == self.pointee(),
    {
        &*self.inner
    }

    /// Adopts an already-live [`Rc`] as a handle, without touching its counts.
    pub fn from_rc(what: Rc<T>) -> (r: CombRc<T>)
        ensures
            r.pointee() == what,
    {
        CombRc { inner: what }
    }

    /// Borrows the raw [`Rc`] underneath this handle, without touching its counts.
    pub fn get_rc(what: &CombRc<T>) -> (r: &Rc<T>)
        ensures
            **r == what.pointee(),
    {
        &what.inner
    }

    /// Clones the pointee into a fresh, uniquely owned cell, whether or not
    /// this handle was already the sole owner of its own cell.
    pub fn clone_unique(what: &CombRc<T>) -> (r: CombRc<T>)
        ensures
            cloned::<T>(what.pointee(), r.pointee()),
    {
        CombRc::new(what.get().clone())
    }

    /// Attempts to move the pointee out of this handle's cell. The move
    /// succeeds only when the cell is uniquely owned and unobserved at call
    /// time; otherwise the still-live handle comes back unchanged, so the
    /// caller may keep sharing or fall back to cloning.
    pub fn try_unwrap(what: CombRc<T>) -> (r: Result<T, CombRc<T>>)
        ensures
            match r {
                Ok(v) => v == what.pointee(),
                Err(h) => h.pointee() == what.pointee(),
            },
    {
        if rc_weak_count(&what.inner) == 0 {
            match Rc::try_unwrap(what.inner) {
                Ok(v) => Ok(v),
                Err(a) => Err(CombRc { inner: a }),
            }
        } else {
            Err(what)
        }
    }

    /// Moves the pointee out when the cell is uniquely owned and unobserved,
    /// and clones it otherwise; either way a value of the pointee comes back.
    pub fn make_inner(what: CombRc<T>) -> (r: T)
        ensures
            cloned::<T>(what.pointee(), r),
    {
        match CombRc::try_unwrap(what) {
            Ok(v) => v,
            Err(h) => h.get().clone(),
        }
    }

    /// Requests exclusive access to the pointee. If this handle is the sole
    /// owner of its cell, the view aims into the existing value; otherwise the
    /// pointee is cloned into a fresh, uniquely owned cell that this handle is
    /// rebound to, and the view aims there.
    pub fn make_mut(&mut self) -> (r: &mut T)
        ensures
            cloned::<T>(old(self).pointee(), *r),
            final(self).pointee() == *final(r),
    {
        rc_make_mut(&mut self.inner)
    }

    /// Overwrites the pointee through exclusive access: the cell diverges
    /// from any aliasing handles first, exactly as in [`CombRc::make_mut`].
    pub fn set(&mut self, what: T)
        ensures
            final(self).pointee() == what,
    {
        let r = self.make_mut();
        *r = what;
    }
}

impl<T: Clone> Clone for CombRc<T> {
    /// Clones the handle, not the pointee: the new handle aliases the same
    /// cell, whose strong count goes up by one.
    fn clone(&self) -> (r: Self)
        ensures
            r.pointee() == self.pointee(),
    {
        CombRc { inner: rc_clone(&self.inner) }
    }
}

impl<T: Clone + Default> Default for CombRc<T> {
    /// A handle owning a fresh cell that holds the pointee type's default.
    fn default() -> (r: Self)
        ensures
            T::default.ensures((), r.pointee()),
    {
        CombRc::new(T::default())
    }
}

impl<T: Clone> From<Rc<T>> for CombRc<T> {
    /// As [`CombRc::from_rc`]: adopts the raw handle, touching no count.
    fn from(value: Rc<T>) -> Self {
        CombRc::from_rc(value)
    }
}

impl<T: Clone> vstd::std_specs::convert::FromSpecImpl<Rc<T>> for CombRc<T> {
    closed spec fn obeys_from_spec() -> bool {
        true
    }

    closed spec fn from_spec(v: Rc<T>) -> Self {
        CombRc { inner: v }
    }
}

impl<T: Clone> From<CombRc<T>> for Rc<T> {
    /// Releases the raw handle underneath, touching no count.
    fn from(value: CombRc<T>) -> Self {
        value.inner
    }
}

impl<T: Clone> vstd::std_specs::convert::FromSpecImpl<CombRc<T>> for Rc<T> {
    closed spec fn obeys_from_spec() -> bool {
        true
    }

    closed spec fn from_spec(v: CombRc<T>) -> Self {
        v.inner
    }
}

/// What the two conversions mean: adopting a raw handle yields a handle with
/// that pointee, and releasing gives back a raw handle with the handle's
/// pointee; neither loses the value.
pub proof fn lemma_rc_conversions<T: Clone>(a: Rc<T>, h: CombRc<T>)
    ensures
        <CombRc<T> as vstd::std_specs::convert::FromSpec<Rc<T>>>::obeys_from_spec(),
        <CombRc<T> as vstd::std_specs::convert::FromSpec<Rc<T>>>::from_spec(a).pointee() == a,
        <Rc<T> as vstd::std_specs::convert::FromSpec<CombRc<T>>>::obeys_from_spec(),
        <Rc<T> as vstd::std_specs::convert::FromSpec<CombRc<T>>>::from_spec(h) == h.pointee(),
{
}

impl<T: Clone + PartialEq> PartialEq for CombRc<T> {
    /// Compares the pointees through the handles, never the handles' identity:
    /// two diverged cells holding equal values still compare equal.
    fn eq(&self, other: &Self) -> bool {
        *self.get() == *other.get()
    }
}

impl<T: Clone + PartialEq> vstd::std_specs::cmp::PartialEqSpecImpl for CombRc<T> {
    open spec fn obeys_eq_spec() -> bool {
        T::obeys_eq_spec()
    }

    open spec fn eq_spec(&self, other: &Self) -> bool {
        self.pointee().eq_spec(&other.pointee())
    }
}

impl<T: Clone + PartialEq> PartialEq<T> for CombRc<T> {
    /// Compares the pointee against a bare value of the pointee's type.
    fn eq(&self, other: &T) -> bool {
        *self.get() == *other
    }
}

impl<T: Clone + PartialEq> vstd::std_specs::cmp::PartialEqSpecImpl<T> for CombRc<T> {
    open spec fn obeys_eq_spec() -> bool {
        T::obeys_eq_spec()
    }

    open spec fn eq_spec(&self, other: &T) -> bool {
        self.pointee().eq_spec(other)
    }
}

impl<T: Clone + PartialOrd> PartialOrd for CombRc<T> {
    /// Orders the pointees through the handles, deeply, never by identity.
    fn partial_cmp(&self, other: &Self) -> Option<Ordering> {
        self.get().partial_cmp(other.get())
    }
}

impl<T: Clone + PartialOrd> vstd::std_specs::cmp::PartialOrdSpecImpl for CombRc<T> {
    open spec fn obeys_partial_cmp_spec() -> bool {
        T::obeys_partial_cmp_spec()
    }

    open spec fn partial_cmp_spec(&self, other: &Self) -> Option<Ordering> {
        self.pointee().partial_cmp_spec(&other.pointee())
    }
}

impl<T: Clone + PartialOrd> PartialOrd<T> for CombRc<T> {
    /// Orders the pointee against a bare value of the pointee's type.
    fn partial_cmp(&self, other: &T) -> Option<Ordering> {
        self.get().partial_cmp(other)
    }
}

impl<T: Clone + PartialOrd> vstd::std_specs::cmp::PartialOrdSpecImpl<T> for CombRc<T> {
    open spec fn obeys_partial_cmp_spec() -> bool {
        T::obeys_partial_cmp_spec()
    }

    open spec fn partial_cmp_spec(&self, other: &T) -> Option<Ordering> {
        self.pointee().partial_cmp_spec(other)
    }
}

/// Relies on `Rc::clone`: the clone is a new owning handle on the same
/// allocation, so it holds the very same value.
#[verifier::external_body]
fn rc_clone<T>(a: &Rc<T>) -> (r: Rc<T>)
    ensures
        r == a,
{
    Rc::clone(a)
}

/// Relies on `Rc::weak_count` for the number of live observing handles at
/// the moment of the call; the count moves as observers come and go, so
/// nothing is promised of the result.
#[verifier::external_body]
fn rc_weak_count<T>(a: &Rc<T>) -> usize {
    Rc::weak_count(a)
}

/// Relies on `Rc::make_mut`: it returns a mutable view of this handle's
/// value, cloning the value into a fresh uniquely owned allocation first
/// unless the strong count is exactly one.
#[verifier::external_body]
fn rc_make_mut<T: Clone>(a: &mut Rc<T>) -> (r: &mut T)
    ensures
        cloned::<T>(**old(a), *r),
        **final(a) == *final(r),
{
    Rc::make_mut(a)
}

} // verus!
