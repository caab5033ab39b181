//! The shared, thread-affine guard of the native COM-style subsystem, and a
//! weak, non-owning handle to a native interface object.
//!
//! Initialization happens on first use and is idempotent; the guard value
//! makes the thread affinity explicit: everything created from it must live
//! on the thread that holds it.

use vstd::prelude::*;

verus! {

/// Witness that the COM-style native subsystem is initialized for the
/// current thread. Created uninitialized; `com_initialized` establishes it.
pub struct ComGuard {
    pub initialized: bool,
}

impl ComGuard {
    /// A fresh guard for a thread that has not touched the subsystem yet.
    pub fn new() -> (r: ComGuard)
        ensures
            !r.initialized,
    {
        ComGuard { initialized: false }
    }
}

/// Ensures that the subsystem is initialized in this thread: initializes it
/// on first use and leaves an already-initialized guard as it is.
pub fn com_initialized(guard: &mut ComGuard)
    ensures
        final(guard).initialized,
{
    if !guard.initialized {
        guard.initialized = true;
    }
}

/// A weak reference to a native interface object: a plain address, with no
/// ownership of the object's lifetime. Address zero is the null handle.
#[derive(Debug)]
pub struct WeakPtr<T> {
    pub addr: usize,
    pub interface: core::marker::PhantomData<T>,
}

/// The handle value holding a given address.
pub open spec fn weak_ptr_of<T>(addr: usize) -> WeakPtr<T> {
    WeakPtr { addr, interface: core::marker::PhantomData }
}

impl<T> WeakPtr<T> {
    /// The address this handle holds.
    pub open spec fn addr_spec(self) -> usize {
        self.addr
    }

    pub fn null() -> (r: Self)
        ensures
            r == weak_ptr_of::<T>(0),
            r.addr_spec() == 0,
    {
        WeakPtr { addr: 0, interface: core::marker::PhantomData }
    }

    pub fn from_raw(raw: usize) -> (r: Self)
        ensures
            r == weak_ptr_of::<T>(raw),
            r.addr_spec() == raw,
    {
        WeakPtr { addr: raw, interface: core::marker::PhantomData }
    }

    pub fn is_null(self) -> (r: bool)
        ensures
            r == (self.addr_spec() == 0),
    {
        self.addr == 0
    }

    pub fn as_ptr(self) -> (r: usize)
        ensures
            r == self.addr_spec(),
    {
        self.addr
    }

    pub fn as_mut_ptr(self) -> (r: usize)
        ensures
            r == self.addr_spec(),
    {
        self.addr
    }
}

impl<T> Clone for WeakPtr<T> {
    fn clone(&self) -> (r: Self)
        ensures
            r.addr_spec() == self.addr_spec(),
    {
        WeakPtr { addr: self.addr, interface: core::marker::PhantomData }
    }
}

impl<T> Copy for WeakPtr<T> {

}

} // verus!
