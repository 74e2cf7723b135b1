use vstd::prelude::*;
use vstd::string::StringExecFns;
use crate::error::HelperError;

verus! {

/// Ownership record of one native allocation, kept by its address.
/// A handle is live while it still owns the allocation; it is neither
/// `Clone` nor `Copy`, so an allocation has one owner at a time.
#[derive(Debug)]
pub struct NativeHandle {
    addr: usize,
}

impl NativeHandle {
    /// The address of the owned allocation; zero once released.
    pub closed spec fn addr_spec(&self) -> usize {
        self.addr
    }

    /// The handle still owns its allocation.
    pub open spec fn live(&self) -> bool {
        self.addr_spec() != 0
    }

    /// Takes ownership of what the native allocator `routine` returned.
    /// A null address is an allocation failure and yields no handle.
    pub fn from_alloc(addr: usize, routine: &str) -> (r: Result<NativeHandle, HelperError>)
        ensures
            r is Err <==> addr == 0,
            r matches Ok(h) ==> h.addr_spec() == addr && h.live(),
            r matches Err(e) ==> (e matches HelperError::AllocationFailed { routine: x } && x@
                == routine@),
    {
        if addr == 0 {
            Err(HelperError::AllocationFailed { routine: String::from_str(routine) })
        } else {
            Ok(NativeHandle { addr })
        }
    }

    /// The address of the owned allocation; zero once released.
    pub fn addr(&self) -> (r: usize)
        ensures
            r == self.addr_spec(),
    {
        self.addr
    }

    /// Whether the handle still owns its allocation.
    pub fn is_live(&self) -> (r: bool)
        ensures
            r == self.live(),
    {
        self.addr != 0
    }

    /// Hands out the address to be freed, once: the first call on a live
    /// handle returns it and clears the handle, later calls return `None`.
    pub fn take_for_release(&mut self) -> (r: Option<usize>)
        ensures
            release_step(*old(self), *final(self), r),
    {
        if self.addr == 0 {
            None
        } else {
            let a = self.addr;
            self.addr = 0;
            Some(a)
        }
    }
}

/// One release step: a live handle gives up its address and is left
/// released; a released handle gives nothing and stays as it is.
pub open spec fn release_step(before: NativeHandle, after: NativeHandle, r: Option<usize>) -> bool {
    &&& !after.live()
    &&& before.live() ==> r == Some(before.addr_spec())
    &&& !before.live() ==> r is None && after == before
}

/// A handle built from a non-null allocation releases that allocation
/// exactly once: the first release hands out its address, any second
/// release hands out nothing.
pub proof fn lemma_release_exactly_once(
    addr: usize,
    h0: NativeHandle,
    h1: NativeHandle,
    h2: NativeHandle,
    r1: Option<usize>,
    r2: Option<usize>,
)
    requires
        h0.addr_spec() == addr,
        addr != 0,
        release_step(h0, h1, r1),
        release_step(h1, h2, r2),
    ensures
        r1 == Some(addr),
        r2 is None,
        !h2.live(),
{
}

} // verus!
