//! The thread-bound environment handle: the capability through which a
//! single thread performs operations against the foreign runtime.
use vstd::prelude::*;

use std::marker::PhantomData;
use std::rc::Rc;

use crate::jvm::JavaVM;

verus! {

/// A non-null handle bound to exactly one thread and to the lifetime of the
/// runtime instance that issued it.
///
/// The lifetime parameter scopes the handle to the extent in which it remains
/// valid; the `Rc` marker strips `Send` and `Sync`, so the handle cannot leave
/// the thread that obtained it; and the ghost thread tag lets contracts state
/// that two handles (or a handle and a thread-scoped reference) belong to the
/// same thread.
///
/// The handle also records the runtime instance it belongs to, so that
/// deriving the owning instance from an environment needs no foreign
/// reverse lookup.
#[derive(Clone, Copy)]
pub struct JniEnv<'a> {
    addr: usize,
    vm: JavaVM,
    thread: Ghost<int>,
    _scope: PhantomData<&'a ()>,
    _thread_bound: PhantomData<Rc<()>>,
}

impl<'a> JniEnv<'a> {
    /// Every environment handle is non-null.
    #[verifier::type_invariant]
    pub closed spec fn inv(self) -> bool {
        self.addr != 0
    }

    pub closed spec fn spec_addr(self) -> usize {
        self.addr
    }

    /// The runtime instance this environment belongs to.
    pub closed spec fn spec_vm(self) -> JavaVM {
        self.vm
    }

    /// The tag of the one thread this environment is bound to.
    pub closed spec fn spec_thread(self) -> int {
        self.thread@
    }

    /// Wraps a raw environment address issued by the given runtime instance
    /// for the calling thread. A null address would violate the foreign
    /// interface's contract, so the caller rules it out first.
    pub fn from_raw(addr: usize, vm: JavaVM) -> (r: JniEnv<'a>)
        requires
            addr != 0,
        ensures
            r.spec_addr() == addr,
            r.spec_vm() == vm,
    {
        JniEnv { addr, vm, thread: Ghost(arbitrary()), _scope: PhantomData, _thread_bound: PhantomData }
    }

    /// The raw environment address, for handing back into foreign calls.
    pub fn addr(&self) -> (r: usize)
        ensures
            r == self.spec_addr(),
            r != 0,
    {
        proof {
            use_type_invariant(self);
        }
        self.addr
    }

    /// The runtime instance this environment belongs to.
    pub fn vm(&self) -> (r: JavaVM)
        ensures
            r == self.spec_vm(),
    {
        self.vm
    }
}

} // verus!
