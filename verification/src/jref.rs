//! The reference ownership model: cross-thread, refcounted global references;
//! thread-and-frame-scoped local and auto references; their bound-object
//! forms; and the upgrade/downgrade conversions between them.
use vstd::prelude::*;

use std::marker::PhantomData;
use std::rc::Rc;
use std::sync::Arc;

use crate::env::JniEnv;
use crate::jvm::JavaVM;

verus! {

/// A non-null opaque handle to a foreign-runtime-managed object. Never
/// dereferenced by this layer; only passed back into foreign calls.
#[derive(Debug, Clone, Copy, PartialEq, Eq, Structural)]
pub struct RawObject {
    addr: usize,
}

impl RawObject {
    /// Every raw object handle carried by any reference type is non-null.
    #[verifier::type_invariant]
    pub closed spec fn inv(self) -> bool {
        self.addr != 0
    }

    pub closed spec fn spec_addr(self) -> usize {
        self.addr
    }

    /// Wraps a raw object address. A null address where the foreign contract
    /// guarantees an object is a contract violation the caller rules out
    /// first.
    pub fn from_addr(addr: usize) -> (r: RawObject)
        requires
            addr != 0,
        ensures
            r.spec_addr() == addr,
    {
        RawObject { addr }
    }

    /// The raw object address, for handing back into foreign calls.
    pub fn addr(&self) -> (r: usize)
        ensures
            r == self.spec_addr(),
            r != 0,
    {
        proof {
            use_type_invariant(self);
        }
        self.addr
    }
}

/// A polymorphic foreign-type binding. Its descriptor — a global class
/// reference plus resolved member identifiers, supplied by the external
/// descriptor provider — is resolved at most once per process and shared
/// thereafter through refcounted ownership, so it outlives every reference
/// that points to it.
pub trait RichJavaType: Sized {
    /// The cached class/member metadata of this binding. Immutable once
    /// built, and safe to share across threads and invocations for as long as
    /// the runtime instance is alive.
    type IDs;

    /// Resolves (or retrieves) the shared descriptor of this binding, using
    /// the given thread's environment handle.
    fn descriptors<'t>(env: JniEnv<'t>) -> Arc<Self::IDs>;
}

/// A cacheable, thread-safe global reference to a non-null foreign object:
/// valid for as long as the owning runtime instance is, independent of any
/// particular thread. Owners may be cloned across threads; the shared raw
/// handle is released exactly once, when the last owner is gone.
pub struct GlobalRef<T: RichJavaType> {
    jvm: JavaVM,
    obj: Arc<RawObject>,
    desc: Arc<T::IDs>,
    _phantom: PhantomData<T>,
}

/// A local reference to a non-null foreign object: valid only within the
/// local-reference frame of the thread that produced it, and never to be
/// observed from another thread. Carries no refcount; it is reclaimed when
/// its frame is popped or it is explicitly deleted.
pub struct LocalRef<T: RichJavaType> {
    obj: RawObject,
    thread: Ghost<int>,
    _thread_bound: PhantomData<(Rc<()>, T)>,
}

/// A local, scoped reference to a non-null foreign object. It differs from a
/// local reference only in its release contract: the holder guarantees the
/// foreign delete-local-reference operation runs on every exit path of its
/// scope, normal or early.
pub struct AutoRef<T: RichJavaType> {
    obj: RawObject,
    thread: Ghost<int>,
    _thread_bound: PhantomData<(Rc<()>, T)>,
}

/// A global reference bound to one thread's environment handle: this object,
/// usable for foreign calls on this thread, right now.
pub struct GlobalObj<'a, T: RichJavaType> {
    env: JniEnv<'a>,
    obj: Arc<RawObject>,
    desc: Arc<T::IDs>,
    _phantom: PhantomData<&'a T>,
}

/// A local reference bound to the environment handle of the one thread it may
/// be used from.
pub struct LocalObj<'a, T: RichJavaType> {
    env: JniEnv<'a>,
    obj: RawObject,
    desc: Arc<T::IDs>,
    _phantom: PhantomData<&'a T>,
}

/// A scoped local reference bound to the environment handle of the one thread
/// it may be used from, under the scoped release contract of [`AutoRef`].
pub struct AutoObj<'a, T: RichJavaType> {
    env: JniEnv<'a>,
    obj: RawObject,
    desc: Arc<T::IDs>,
    _phantom: PhantomData<&'a T>,
}

impl<T: RichJavaType> GlobalRef<T> {
    /// The owning runtime instance.
    pub closed spec fn spec_jvm(self) -> JavaVM {
        self.jvm
    }

    /// The shared raw object handle.
    pub closed spec fn spec_obj(self) -> RawObject {
        *self.obj
    }

    /// The shared descriptor.
    pub closed spec fn spec_desc(self) -> T::IDs {
        *self.desc
    }

    /// Wraps a raw object handle owned by the given runtime instance,
    /// together with the binding's shared descriptor.
    pub fn new(jvm: JavaVM, obj: RawObject, desc: Arc<T::IDs>) -> (r: GlobalRef<T>)
        ensures
            r.spec_jvm() == jvm,
            r.spec_obj() == obj,
            r.spec_desc() == *desc,
    {
        GlobalRef { jvm, obj: Arc::new(obj), desc, _phantom: PhantomData }
    }

    /// An additional owner of the same shared raw handle and descriptor.
    pub fn clone_ref(&self) -> (r: GlobalRef<T>)
        ensures
            r.spec_jvm() == self.spec_jvm(),
            r.spec_obj() == self.spec_obj(),
            r.spec_desc() == self.spec_desc(),
    {
        GlobalRef {
            jvm: self.jvm,
            obj: Arc::clone(&self.obj),
            desc: Arc::clone(&self.desc),
            _phantom: PhantomData,
        }
    }

    /// The owning runtime instance.
    pub fn jvm(&self) -> (r: JavaVM)
        ensures
            r == self.spec_jvm(),
    {
        self.jvm
    }

    /// The raw object address, for handing back into foreign calls.
    pub fn raw_addr(&self) -> (r: usize)
        ensures
            r == self.spec_obj().spec_addr(),
    {
        (*self.obj).addr()
    }

    /// The shared descriptor, as one more owner of the same instance.
    pub fn descriptor(&self) -> (r: Arc<T::IDs>)
        ensures
            *r == self.spec_desc(),
    {
        Arc::clone(&self.desc)
    }

    /// Binds this cross-thread reference to the calling thread's environment
    /// handle, so that foreign calls become possible. Cheap: clones the
    /// shared owners and performs no foreign call.
    pub fn upgrade<'a>(&'_ self, env: &'a JniEnv<'a>) -> (r: GlobalObj<'a, T>)
        ensures
            spec_upgrade_rel(*self, *env, r),
    {
        GlobalObj {
            env: *env,
            obj: Arc::clone(&self.obj),
            desc: Arc::clone(&self.desc),
            _phantom: PhantomData,
        }
    }
}

/// What upgrading a global reference means: the bound object carries the
/// given environment and shares the reference's raw handle and descriptor.
pub open spec fn spec_upgrade_rel<'a, T: RichJavaType>(
    r: GlobalRef<T>,
    env: JniEnv<'a>,
    up: GlobalObj<'a, T>,
) -> bool {
    up.spec_env() == env && up.spec_obj() == r.spec_obj() && up.spec_desc() == r.spec_desc()
}

/// What downgrading a bound global object means: the reference shares the
/// object's raw handle and descriptor, and its owning runtime handle is
/// derived from the environment the object was bound to.
pub open spec fn spec_downgrade_rel<'a, T: RichJavaType>(
    up: GlobalObj<'a, T>,
    r: GlobalRef<T>,
) -> bool {
    r.spec_jvm() == up.spec_env().spec_vm() && r.spec_obj() == up.spec_obj() && r.spec_desc()
        == up.spec_desc()
}

impl<'a, T: RichJavaType> GlobalObj<'a, T> {
    /// The environment this object is bound to.
    pub closed spec fn spec_env(self) -> JniEnv<'a> {
        self.env
    }

    /// The shared raw object handle.
    pub closed spec fn spec_obj(self) -> RawObject {
        *self.obj
    }

    /// The shared descriptor.
    pub closed spec fn spec_desc(self) -> T::IDs {
        *self.desc
    }

    /// The raw object address, for handing back into foreign calls.
    pub fn raw_addr(&self) -> (r: usize)
        ensures
            r == self.spec_obj().spec_addr(),
    {
        (*self.obj).addr()
    }

    /// The shared descriptor, as one more owner of the same instance.
    pub fn descriptor(&self) -> (r: Arc<T::IDs>)
        ensures
            *r == self.spec_desc(),
    {
        Arc::clone(&self.desc)
    }

    /// Detaches the environment binding, producing a reference safe to store
    /// beyond the current thread or call. The owning runtime handle is the
    /// one the environment belongs to, so no foreign reverse lookup is
    /// needed.
    pub fn downgrade(&self) -> (r: GlobalRef<T>)
        ensures
            spec_downgrade_rel(*self, r),
    {
        GlobalRef {
            jvm: self.env.vm(),
            obj: Arc::clone(&self.obj),
            desc: Arc::clone(&self.desc),
            _phantom: PhantomData,
        }
    }
}

/// Upgrade then downgrade round-trips: the reference produced by detaching an
/// upgraded global reference carries the same raw object handle and the same
/// descriptor as the original, and is owned by the runtime instance of the
/// environment it passed through.
pub proof fn lemma_upgrade_downgrade_round_trip<'a, T: RichJavaType>(
    r: GlobalRef<T>,
    env: JniEnv<'a>,
    up: GlobalObj<'a, T>,
    back: GlobalRef<T>,
)
    requires
        spec_upgrade_rel(r, env, up),
        spec_downgrade_rel(up, back),
    ensures
        back.spec_obj() == r.spec_obj(),
        back.spec_desc() == r.spec_desc(),
        back.spec_jvm() == env.spec_vm(),
{
}

/// The release bookkeeping of one shared, refcounted reference: how many
/// owners (clones) of it are alive. The underlying foreign delete operation
/// fires exactly when the owner count falls from one to zero — once, at the
/// last drop, whatever threads the owners lived on and in whatever order they
/// are dropped: the count alone decides.
pub struct ReleaseCounter {
    owners: usize,
}

impl ReleaseCounter {
    pub closed spec fn spec_owners(self) -> usize {
        self.owners
    }

    /// The bookkeeping of a freshly created reference: one owner.
    pub fn new() -> (r: ReleaseCounter)
        ensures
            r.spec_owners() == 1,
    {
        ReleaseCounter { owners: 1 }
    }

    /// Records a clone: one more owner.
    pub fn clone_owner(&mut self)
        requires
            old(self).spec_owners() < usize::MAX,
        ensures
            final(self).spec_owners() == old(self).spec_owners() + 1,
    {
        self.owners = self.owners + 1;
    }

    /// Records a drop: one owner fewer. Returns whether the underlying
    /// foreign delete operation fires now — exactly at the drop of the last
    /// owner.
    pub fn drop_owner(&mut self) -> (fires: bool)
        requires
            old(self).spec_owners() >= 1,
        ensures
            final(self).spec_owners() == old(self).spec_owners() - 1,
            fires == (old(self).spec_owners() == 1),
    {
        self.owners = self.owners - 1;
        self.owners == 0
    }
}

/// How many times the foreign delete operation has fired after `k` of `n`
/// owners of one shared reference were dropped: a drop fires it exactly when
/// it takes the last owner.
pub open spec fn spec_deletes_over_drops(owners: nat, k: nat) -> nat
    decreases k,
{
    if k == 0 {
        0
    } else {
        spec_deletes_over_drops(owners, (k - 1) as nat) + if owners - (k - 1) == 1 {
            1nat
        } else {
            0nat
        }
    }
}

/// For any number of owners of one shared reference, dropping all of them
/// fires the underlying foreign delete operation exactly once — at the last
/// drop — and dropping fewer fires it not at all. Drop order and thread
/// placement play no part: the owner count alone decides.
pub proof fn lemma_delete_fires_exactly_once(owners: nat, k: nat)
    requires
        1 <= owners,
        k <= owners,
    ensures
        spec_deletes_over_drops(owners, k) == if k == owners {
            1nat
        } else {
            0nat
        },
    decreases k,
{
    if k > 0 {
        lemma_delete_fires_exactly_once(owners, (k - 1) as nat);
    }
}

impl<T: RichJavaType> LocalRef<T> {
    /// The raw object handle.
    pub closed spec fn spec_obj(self) -> RawObject {
        self.obj
    }

    /// The tag of the one thread this reference belongs to.
    pub closed spec fn spec_thread(self) -> int {
        self.thread@
    }

    /// Wraps a raw object handle produced on the thread of the given
    /// environment. The reference is bound to that thread.
    pub fn from_raw<'a>(obj: RawObject, env: &JniEnv<'a>) -> (r: LocalRef<T>)
        ensures
            r.spec_obj() == obj,
            r.spec_thread() == env.spec_thread(),
    {
        LocalRef { obj, thread: Ghost(env.spec_thread()), _thread_bound: PhantomData }
    }

    /// The raw object address, for handing back into foreign calls.
    pub fn raw_addr(&self) -> (r: usize)
        ensures
            r == self.spec_obj().spec_addr(),
    {
        self.obj.addr()
    }

    /// Binds this reference to an environment handle of the thread that
    /// produced it. An environment of any other thread is rejected: a local
    /// reference never crosses threads.
    pub fn upgrade<'a>(self, env: &'a JniEnv<'a>) -> (r: LocalObj<'a, T>)
        requires
            self.spec_thread() == env.spec_thread(),
        ensures
            r.spec_env() == *env,
            r.spec_obj() == self.spec_obj(),
    {
        LocalObj { env: *env, obj: self.obj, desc: T::descriptors(*env), _phantom: PhantomData }
    }
}

impl<'a, T: RichJavaType> LocalObj<'a, T> {
    /// The environment this object is bound to.
    pub closed spec fn spec_env(self) -> JniEnv<'a> {
        self.env
    }

    /// The raw object handle.
    pub closed spec fn spec_obj(self) -> RawObject {
        self.obj
    }

    /// The shared descriptor.
    pub closed spec fn spec_desc(self) -> T::IDs {
        *self.desc
    }

    /// The raw object address, for handing back into foreign calls.
    pub fn raw_addr(&self) -> (r: usize)
        ensures
            r == self.spec_obj().spec_addr(),
    {
        self.obj.addr()
    }

    /// The shared descriptor, as one more owner of the same instance.
    pub fn descriptor(&self) -> (r: Arc<T::IDs>)
        ensures
            *r == self.spec_desc(),
    {
        Arc::clone(&self.desc)
    }

    /// Detaches the environment binding. The reference stays bound to the
    /// environment's thread.
    pub fn downgrade(&self) -> (r: LocalRef<T>)
        ensures
            r.spec_obj() == self.spec_obj(),
            r.spec_thread() == self.spec_env().spec_thread(),
    {
        LocalRef {
            obj: self.obj,
            thread: Ghost(self.env.spec_thread()),
            _thread_bound: PhantomData,
        }
    }
}

impl<T: RichJavaType> AutoRef<T> {
    /// The raw object handle.
    pub closed spec fn spec_obj(self) -> RawObject {
        self.obj
    }

    /// The tag of the one thread this reference belongs to.
    pub closed spec fn spec_thread(self) -> int {
        self.thread@
    }

    /// Wraps a raw object handle produced on the thread of the given
    /// environment, under the scoped release contract: the holder deletes the
    /// reference on every exit path of its scope.
    pub fn from_raw<'a>(obj: RawObject, env: &JniEnv<'a>) -> (r: AutoRef<T>)
        ensures
            r.spec_obj() == obj,
            r.spec_thread() == env.spec_thread(),
    {
        AutoRef { obj, thread: Ghost(env.spec_thread()), _thread_bound: PhantomData }
    }

    /// The raw object address, for handing back into foreign calls.
    pub fn raw_addr(&self) -> (r: usize)
        ensures
            r == self.spec_obj().spec_addr(),
    {
        self.obj.addr()
    }

    /// Binds this reference to an environment handle of the thread that
    /// produced it. An environment of any other thread is rejected: a scoped
    /// local reference never crosses threads.
    pub fn upgrade<'a>(self, env: &'a JniEnv<'a>) -> (r: AutoObj<'a, T>)
        requires
            self.spec_thread() == env.spec_thread(),
        ensures
            r.spec_env() == *env,
            r.spec_obj() == self.spec_obj(),
    {
        AutoObj { env: *env, obj: self.obj, desc: T::descriptors(*env), _phantom: PhantomData }
    }
}

impl<'a, T: RichJavaType> AutoObj<'a, T> {
    /// The environment this object is bound to.
    pub closed spec fn spec_env(self) -> JniEnv<'a> {
        self.env
    }

    /// The raw object handle.
    pub closed spec fn spec_obj(self) -> RawObject {
        self.obj
    }

    /// The shared descriptor.
    pub closed spec fn spec_desc(self) -> T::IDs {
        *self.desc
    }

    /// The raw object address, for handing back into foreign calls.
    pub fn raw_addr(&self) -> (r: usize)
        ensures
            r == self.spec_obj().spec_addr(),
    {
        self.obj.addr()
    }

    /// The shared descriptor, as one more owner of the same instance.
    pub fn descriptor(&self) -> (r: Arc<T::IDs>)
        ensures
            *r == self.spec_desc(),
    {
        Arc::clone(&self.desc)
    }

    /// Detaches the environment binding. The reference stays bound to the
    /// environment's thread and keeps its scoped release contract.
    pub fn downgrade(&self) -> (r: AutoRef<T>)
        ensures
            r.spec_obj() == self.spec_obj(),
            r.spec_thread() == self.spec_env().spec_thread(),
    {
        AutoRef {
            obj: self.obj,
            thread: Ghost(self.env.spec_thread()),
            _thread_bound: PhantomData,
        }
    }
}

} // verus!
