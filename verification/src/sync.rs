//! Thin owned cells over the atomic types of the `portable-atomic` crate.
//!
//! On the target these values are shared with interrupt handlers, which is why
//! the implementation stores them in hardware atomics.  Inside the library
//! every cell is owned exclusively, so each mutating operation takes `&mut
//! self` and its contract tracks the held value exactly.

use vstd::prelude::*;

verus! {

#[verifier::external_type_specification]
#[verifier::external_body]
#[verifier::reject_recursive_types(T)]
#[verifier::reject_recursive_types(R)]
pub struct ExSpinMutex<T: ?Sized, R>(spin::mutex::Mutex<T, R>);

#[verifier::external_type_specification]
#[verifier::external_body]
pub struct ExSpinRelax(spin::relax::Spin);

#[verifier::external_type_specification]
#[verifier::external_body]
pub struct ExAtomicU64(portable_atomic::AtomicU64);

#[verifier::external_type_specification]
#[verifier::external_body]
pub struct ExAtomicUsize(portable_atomic::AtomicUsize);

#[verifier::external_type_specification]
#[verifier::external_body]
pub struct ExAtomicBool(portable_atomic::AtomicBool);

/// An exclusively owned 64-bit counter backed by `portable_atomic::AtomicU64`.
pub struct AtomicU64Cell {
    inner: portable_atomic::AtomicU64,
    value: Ghost<u64>,
}

impl View for AtomicU64Cell {
    type V = u64;

    closed spec fn view(&self) -> u64 {
        self.value@
    }
}

impl AtomicU64Cell {
    /// Relies on portable_atomic::AtomicU64::new: stores exactly `v`.
    #[verifier::external_body]
    pub fn new(v: u64) -> (r: Self)
        ensures
            r@ == v,
    {
        AtomicU64Cell { inner: portable_atomic::AtomicU64::new(v), value: Ghost(v) }
    }

    /// Relies on portable_atomic::AtomicU64::load: returns the stored value.
    #[verifier::external_body]
    pub fn load(&self) -> (r: u64)
        ensures
            r == self@,
    {
        self.inner.load(portable_atomic::Ordering::Acquire)
    }

    /// Relies on portable_atomic::AtomicU64::store: replaces the stored value.
    #[verifier::external_body]
    pub fn store(&mut self, v: u64)
        ensures
            final(self)@ == v,
    {
        self.inner.store(v, portable_atomic::Ordering::Release);
    }

    /// Relies on portable_atomic::AtomicU64::fetch_add: adds with wraparound
    /// and returns the previous value.
    #[verifier::external_body]
    pub fn fetch_add(&mut self, d: u64) -> (r: u64)
        ensures
            r == old(self)@,
            final(self)@ as int == (old(self)@ as int + d as int) % (u64::MAX as int + 1),
    {
        self.inner.fetch_add(d, portable_atomic::Ordering::AcqRel)
    }
}

/// An exclusively owned counter backed by `portable_atomic::AtomicUsize`.
pub struct AtomicUsizeCell {
    inner: portable_atomic::AtomicUsize,
    value: Ghost<usize>,
}

impl View for AtomicUsizeCell {
    type V = usize;

    closed spec fn view(&self) -> usize {
        self.value@
    }
}

impl AtomicUsizeCell {
    /// Relies on portable_atomic::AtomicUsize::new: stores exactly `v`.
    #[verifier::external_body]
    pub fn new(v: usize) -> (r: Self)
        ensures
            r@ == v,
    {
        AtomicUsizeCell { inner: portable_atomic::AtomicUsize::new(v), value: Ghost(v) }
    }

    /// Relies on portable_atomic::AtomicUsize::load: returns the stored value.
    #[verifier::external_body]
    pub fn load(&self) -> (r: usize)
        ensures
            r == self@,
    {
        self.inner.load(portable_atomic::Ordering::Acquire)
    }

    /// Relies on portable_atomic::AtomicUsize::fetch_add: adds with wraparound
    /// and returns the previous value.
    #[verifier::external_body]
    pub fn fetch_add(&mut self, d: usize) -> (r: usize)
        ensures
            r == old(self)@,
            final(self)@ as int == (old(self)@ as int + d as int) % (usize::MAX as int + 1),
    {
        self.inner.fetch_add(d, portable_atomic::Ordering::AcqRel)
    }

    /// Relies on portable_atomic::AtomicUsize::fetch_sub: subtracts with
    /// wraparound and returns the previous value.
    #[verifier::external_body]
    pub fn fetch_sub(&mut self, d: usize) -> (r: usize)
        ensures
            r == old(self)@,
            final(self)@ as int == (old(self)@ as int - d as int) % (usize::MAX as int + 1),
    {
        self.inner.fetch_sub(d, portable_atomic::Ordering::AcqRel)
    }
}

/// An exclusively owned flag backed by `portable_atomic::AtomicBool`.
pub struct AtomicBoolCell {
    inner: portable_atomic::AtomicBool,
    value: Ghost<bool>,
}

impl View for AtomicBoolCell {
    type V = bool;

    closed spec fn view(&self) -> bool {
        self.value@
    }
}

impl AtomicBoolCell {
    /// Relies on portable_atomic::AtomicBool::new: stores exactly `v`.
    #[verifier::external_body]
    pub fn new(v: bool) -> (r: Self)
        ensures
            r@ == v,
    {
        AtomicBoolCell { inner: portable_atomic::AtomicBool::new(v), value: Ghost(v) }
    }

    /// Relies on portable_atomic::AtomicBool::load: returns the stored value.
    #[verifier::external_body]
    pub fn load(&self) -> (r: bool)
        ensures
            r == self@,
    {
        self.inner.load(portable_atomic::Ordering::Acquire)
    }

    /// Relies on portable_atomic::AtomicBool::store: replaces the stored value.
    #[verifier::external_body]
    pub fn store(&mut self, v: bool)
        ensures
            final(self)@ == v,
    {
        self.inner.store(v, portable_atomic::Ordering::Release);
    }
}

} // verus!
