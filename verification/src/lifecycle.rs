//! The runtime lifecycle: one instance per process, moving through
//! `Uninitialized -> Created -> Destroyed` (terminal), with double-create and
//! double-destroy guarded by explicit state checks.
//!
//! The foreign calls that actually create and destroy an instance happen
//! outside this crate. The driver asks this machine for a decision, performs
//! the call, and records the outcome; every decision and every recording step
//! carries a contract.
use vstd::prelude::*;

use crate::codec::{cesu8_decoded, cesu8_of, decode_cesu8, encode_cesu8};
use crate::jvm::{JavaVM, JniVersion, VmError, VmOptions};
use crate::{j2r_bool, r2j_bool, JNI_TRUE};

verus! {

/// An option string that names an alternate output, exit or abort capability.
/// The foreign runtime's behavior under these is unspecified by this layer's
/// contract, so a configuration carrying one is rejected as fatal misuse
/// before any foreign call is attempted.
pub open spec fn spec_is_forbidden_option(s: Seq<char>) -> bool {
    s == "vfprintf"@ || s == "exit"@ || s == "abort"@
}

/// Whether any entry of the configuration names an unsupported capability.
pub open spec fn spec_has_forbidden_option(opts: Seq<Seq<char>>) -> bool {
    exists|i: int| 0 <= i < opts.len() && spec_is_forbidden_option(#[trigger] opts[i])
}

/// Checks a configuration for entries that name capabilities this layer
/// cannot safely support. A caller must treat a positive answer as fatal
/// misuse, not as a recoverable error.
pub fn has_forbidden_option(opts: &VmOptions) -> (r: bool)
    ensures
        r == spec_has_forbidden_option(opts.spec_options()),
{
    let vf = String::from_str("vfprintf");
    let ex = String::from_str("exit");
    let ab = String::from_str("abort");
    let options = opts.options();
    let mut i: usize = 0;
    while i < options.len()
        invariant
            0 <= i <= options.len(),
            options.deep_view() == opts.spec_options(),
            vf@ == "vfprintf"@,
            ex@ == "exit"@,
            ab@ == "abort"@,
            forall|j: int| 0 <= j < i ==> !spec_is_forbidden_option(#[trigger] opts.spec_options()[j]),
        decreases options.len() - i,
    {
        let s = &options[i];
        proof {
            assert(opts.spec_options()[i as int] == s@);
        }
        if *s == vf || *s == ex || *s == ab {
            return true;
        }
        i += 1;
    }
    false
}

/// Everything the foreign creation call needs, with the option strings
/// already carried over into the runtime's native text encoding.
pub struct CreateRequest {
    /// The target version, in the interface's packed form.
    pub version_native: u32,
    /// One encoded string per configured option, in order.
    pub encoded_options: Vec<Vec<u8>>,
    /// Whether the runtime should ignore unrecognized options, as a foreign
    /// boolean.
    pub ignore_unrecognized: u8,
}

/// Encodes every option string of a configuration into the runtime's native
/// text encoding, in order. Encoding is total.
pub fn encode_options(opts: &VmOptions) -> (r: Vec<Vec<u8>>)
    ensures
        r.deep_view().len() == opts.spec_options().len(),
        forall|i: int|
            0 <= i < r.deep_view().len() ==> #[trigger] r.deep_view()[i] == cesu8_of(
                opts.spec_options()[i],
            ),
{
    let options = opts.options();
    let mut out: Vec<Vec<u8>> = Vec::new();
    let mut i: usize = 0;
    while i < options.len()
        invariant
            0 <= i <= options.len(),
            options.deep_view() == opts.spec_options(),
            out.deep_view().len() == i,
            forall|j: int|
                0 <= j < i ==> #[trigger] out.deep_view()[j] == cesu8_of(opts.spec_options()[j]),
        decreases options.len() - i,
    {
        let s = &options[i];
        proof {
            assert(opts.spec_options()[i as int] == s@);
        }
        let ghost prev: Seq<Seq<u8>> = out.deep_view();
        out.push(encode_cesu8(s.as_str()));
        proof {
            assert forall|j: int| 0 <= j < i + 1 implies #[trigger] out.deep_view()[j] == cesu8_of(
                opts.spec_options()[j],
            ) by {
                assert(out.deep_view()[j] == out@[j].deep_view());
                if j < i {
                    assert(prev[j] == cesu8_of(opts.spec_options()[j]));
                }
            }
        }
        i += 1;
    }
    out
}

impl Lifecycle {
    /// Prepares a creation: checks the stage gate and encodes the
    /// configuration for the foreign call. The caller has already ruled out
    /// configuration entries that name unsupported capabilities; those are
    /// fatal misuse, not an error this function returns.
    pub fn begin_create(&self, opts: &VmOptions) -> (r: Result<CreateRequest, VmError>)
        requires
            !spec_has_forbidden_option(opts.spec_options()),
        ensures
            match self.spec_create_gate() {
                Ok(_) => r matches Ok(req) && req.version_native
                    == opts.spec_version().spec_native() && req.encoded_options.deep_view().len()
                    == opts.spec_options().len() && (forall|i: int|
                    0 <= i < opts.spec_options().len()
                        ==> #[trigger] req.encoded_options.deep_view()[i] == cesu8_of(
                        opts.spec_options()[i],
                    )) && req.ignore_unrecognized == (if opts.spec_ignore_unrecognized() {
                    1u8
                } else {
                    0u8
                }),
                Err(e) => r == Err::<CreateRequest, VmError>(e),
            },
    {
        match self.create_gate() {
            Ok(_) => Ok(
                CreateRequest {
                    version_native: opts.version().as_native(),
                    encoded_options: encode_options(opts),
                    ignore_unrecognized: r2j_bool(opts.ignores_unrecognized()),
                },
            ),
            Err(e) => Err(e),
        }
    }
}

/// The stages a process's runtime instance moves through. `Destroyed` is
/// terminal.
#[derive(Debug, Clone, Copy, PartialEq, Eq, Structural)]
pub enum VmStage {
    Uninitialized,
    Created,
    Destroyed,
}

/// The per-process lifecycle bookkeeping: the current stage, and the handle
/// of the instance while one is alive.
#[derive(Debug, Clone, Copy)]
pub struct Lifecycle {
    stage: VmStage,
    vm: Option<JavaVM>,
}

impl Lifecycle {
    /// The machine knows a handle exactly while an instance is alive.
    #[verifier::type_invariant]
    pub closed spec fn inv(self) -> bool {
        self.vm is Some <==> self.stage == VmStage::Created
    }

    pub closed spec fn spec_stage(self) -> VmStage {
        self.stage
    }

    pub closed spec fn spec_vm(self) -> Option<JavaVM> {
        self.vm
    }

    /// The instances created in this process, as an enumeration: one while an
    /// instance is alive, none otherwise.
    pub open spec fn spec_created_jvms(self) -> Seq<JavaVM> {
        match self.spec_vm() {
            Some(vm) => seq![vm],
            None => Seq::empty(),
        }
    }

    /// The lookup carried inside the already-exists error: the live handle
    /// when the machine knows one, otherwise the lookup's own failure.
    pub open spec fn spec_lookup_existing(self) -> Result<JavaVM, Box<VmError>> {
        match self.spec_vm() {
            Some(vm) => Ok(vm),
            None => Err(Box::new(VmError::Unknown)),
        }
    }

    /// The decision whether a create may proceed: only from `Uninitialized`.
    /// A second create while an instance is alive fails with the
    /// already-exists error, carrying the enumeration's result; a create
    /// after destruction fails with the already-gone error.
    pub open spec fn spec_create_gate(self) -> Result<(), VmError> {
        match self.spec_stage() {
            VmStage::Uninitialized => Ok(()),
            VmStage::Created => Err(VmError::VMExists(self.spec_lookup_existing())),
            VmStage::Destroyed => Err(VmError::Detached),
        }
    }

    /// The decision whether a destroy may proceed: only while an instance is
    /// alive; otherwise the already-gone error.
    pub open spec fn spec_destroy_gate(self) -> Result<JavaVM, VmError> {
        match self.spec_vm() {
            Some(vm) => Ok(vm),
            None => Err(VmError::Detached),
        }
    }

    /// The machine after a creation is recorded.
    pub closed spec fn spec_note_created(self, vm: JavaVM) -> Lifecycle {
        Lifecycle { stage: VmStage::Created, vm: Some(vm) }
    }

    /// The machine after a destruction is recorded.
    pub closed spec fn spec_note_destroyed(self) -> Lifecycle {
        Lifecycle { stage: VmStage::Destroyed, vm: None }
    }

    /// A fresh machine: no instance has been created in this process.
    pub fn new() -> (r: Lifecycle)
        ensures
            r.spec_stage() == VmStage::Uninitialized,
    {
        Lifecycle { stage: VmStage::Uninitialized, vm: None }
    }

    pub fn stage(&self) -> (r: VmStage)
        ensures
            r == self.spec_stage(),
    {
        self.stage
    }

    /// Enumerates the runtime instances already created in this process.
    pub fn created_jvms(&self) -> (r: Vec<JavaVM>)
        ensures
            r@ == self.spec_created_jvms(),
    {
        proof {
            use_type_invariant(self);
        }
        let mut r: Vec<JavaVM> = Vec::new();
        match &self.vm {
            Some(vm) => {
                r.push(*vm);
                proof {
                    assert(r@ =~= self.spec_created_jvms());
                }
            },
            None => {
                proof {
                    assert(r@ =~= self.spec_created_jvms());
                }
            },
        }
        r
    }

    /// The lookup handed to [`VmError::assert_ok`] when a foreign call
    /// reports that an instance already exists.
    pub fn lookup_existing(&self) -> (r: Result<JavaVM, Box<VmError>>)
        ensures
            r == self.spec_lookup_existing(),
    {
        match &self.vm {
            Some(vm) => Ok(*vm),
            None => Err(Box::new(VmError::Unknown)),
        }
    }

    /// Asks whether a create may proceed now.
    pub fn create_gate(&self) -> (r: Result<(), VmError>)
        ensures
            r == self.spec_create_gate(),
    {
        proof {
            use_type_invariant(self);
        }
        match self.stage {
            VmStage::Uninitialized => Ok(()),
            VmStage::Created => Err(VmError::VMExists(self.lookup_existing())),
            VmStage::Destroyed => Err(VmError::Detached),
        }
    }

    /// Asks whether a destroy may proceed now; on success, hands out the
    /// handle to destroy.
    pub fn destroy_gate(&self) -> (r: Result<JavaVM, VmError>)
        ensures
            r == self.spec_destroy_gate(),
    {
        match &self.vm {
            Some(vm) => Ok(*vm),
            None => Err(VmError::Detached),
        }
    }

    /// Records that the foreign runtime reported a successful creation, with
    /// the calling thread attached as the primary thread.
    pub fn note_created(&mut self, vm: JavaVM)
        requires
            old(self).spec_stage() == VmStage::Uninitialized,
        ensures
            *final(self) == old(self).spec_note_created(vm),
            final(self).spec_stage() == VmStage::Created,
            final(self).spec_vm() == Some(vm),
    {
        *self = Lifecycle { stage: VmStage::Created, vm: Some(vm) };
    }

    /// Records that the foreign runtime reported a successful destruction.
    /// The stage after it is terminal.
    pub fn note_destroyed(&mut self)
        requires
            old(self).spec_stage() == VmStage::Created,
        ensures
            *final(self) == old(self).spec_note_destroyed(),
            final(self).spec_stage() == VmStage::Destroyed,
            final(self).spec_vm() is None,
    {
        *self = Lifecycle { stage: VmStage::Destroyed, vm: None };
    }
}

/// The documented default capacity of the probe buffer for the
/// default-options query.
pub const DEFAULT_OPTION_CAPACITY: usize = 64;

/// Everything the foreign default-options query needs: a probe of the given
/// capacity for the given target version.
pub struct DefaultArgsRequest {
    /// The target version, in the interface's packed form.
    pub version_native: u32,
    /// How many option slots the probe buffer allocates. The foreign call
    /// reports the true count only after being called once.
    pub capacity: usize,
    /// The probe's unrecognized-options field, as a foreign boolean.
    pub ignore_unrecognized: u8,
}

/// Prepares the foreign default-options query with a probe buffer of the
/// given capacity.
pub fn default_args_request(target_version: JniVersion, capacity: usize) -> (r: DefaultArgsRequest)
    ensures
        r.version_native == target_version.spec_native(),
        r.capacity == capacity,
        r.ignore_unrecognized == JNI_TRUE,
{
    DefaultArgsRequest {
        version_native: target_version.as_native(),
        capacity,
        ignore_unrecognized: r2j_bool(true),
    }
}

/// The configuration-limit rule of the default-options query: the true option
/// count the foreign call reports must fit the probe buffer's capacity. A
/// count over capacity must fail loudly — as fatal misuse of the documented
/// limit — rather than have the option list silently truncated.
pub fn accept_default_count(capacity: usize, true_count: usize) -> (r: bool)
    ensures
        r == (true_count <= capacity),
{
    true_count <= capacity
}

/// Whether every raw option string the foreign call handed back decodes from
/// the runtime's native text encoding.
pub open spec fn spec_all_options_decode(raw: Seq<Seq<u8>>) -> bool {
    forall|i: int| 0 <= i < raw.len() ==> cesu8_decoded(#[trigger] raw[i]) is Some
}

/// Decodes the raw option strings a foreign call handed back, in order,
/// failing with a decoding error exactly when one of them is malformed.
pub fn decode_options(raw: &Vec<Vec<u8>>) -> (r: Result<Vec<String>, VmError>)
    ensures
        match r {
            Ok(v) => spec_all_options_decode(raw.deep_view()) && v.deep_view().len()
                == raw.deep_view().len() && (forall|i: int|
                0 <= i < raw.deep_view().len() ==> Some(#[trigger] v.deep_view()[i])
                    == cesu8_decoded(raw.deep_view()[i])),
            Err(e) => !spec_all_options_decode(raw.deep_view()) && e matches VmError::BadCesu8String(
                _,
            ),
        },
{
    let mut out: Vec<String> = Vec::new();
    let mut i: usize = 0;
    while i < raw.len()
        invariant
            0 <= i <= raw.len(),
            out.deep_view().len() == i,
            forall|j: int|
                0 <= j < i ==> Some(#[trigger] out.deep_view()[j]) == cesu8_decoded(
                    raw.deep_view()[j],
                ),
        decreases raw.len() - i,
    {
        let entry = &raw[i];
        proof {
            assert(raw.deep_view()[i as int] == entry@);
        }
        match decode_cesu8(entry.as_slice()) {
            Ok(s) => {
                let ghost prev: Seq<Seq<char>> = out.deep_view();
                out.push(s);
                proof {
                    assert forall|j: int| 0 <= j < i + 1 implies Some(
                        #[trigger] out.deep_view()[j],
                    ) == cesu8_decoded(raw.deep_view()[j]) by {
                        assert(out.deep_view()[j] == out@[j].deep_view());
                        if j < i {
                            assert(Some(prev[j]) == cesu8_decoded(raw.deep_view()[j]));
                        }
                    }
                }
            },
            Err(e) => {
                return Err(VmError::BadCesu8String(e));
            },
        }
        i += 1;
    }
    proof {
        assert forall|k: int| 0 <= k < raw.deep_view().len() implies cesu8_decoded(
            #[trigger] raw.deep_view()[k],
        ) is Some by {
            assert(Some(out.deep_view()[k]) == cesu8_decoded(raw.deep_view()[k]));
        }
    }
    Ok(out)
}

/// Builds the startup configuration the foreign default-options query
/// reported: the version it settled on, its option strings decoded into owned
/// memory, and its unrecognized-options flag. Fails with a decoding error
/// exactly when one of the raw strings is malformed.
pub fn finish_default_args(
    version_native: u32,
    raw_options: &Vec<Vec<u8>>,
    ignore_unrecognized: u8,
) -> (r: Result<VmOptions, VmError>)
    ensures
        match r {
            Ok(o) => spec_all_options_decode(raw_options.deep_view()) && o.spec_version().major == (
            version_native >> 16) as u16 && o.spec_version().minor == (version_native & 0xFFFF)
                as u16 && o.spec_options().len() == raw_options.deep_view().len() && (forall|i: int|
                0 <= i < raw_options.deep_view().len() ==> Some(#[trigger] o.spec_options()[i])
                    == cesu8_decoded(raw_options.deep_view()[i]))
                && o.spec_ignore_unrecognized() == (ignore_unrecognized != 0),
            Err(e) => !spec_all_options_decode(raw_options.deep_view())
                && e matches VmError::BadCesu8String(_),
        },
{
    match decode_options(raw_options) {
        Ok(decoded) => {
            let mut opts = VmOptions::with_opts(JniVersion::from_native(version_native), decoded);
            opts.allow_unrecognized_options(j2r_bool(ignore_unrecognized));
            Ok(opts)
        },
        Err(e) => Err(e),
    }
}

/// The regrow rule of the two-call sizing protocol: probe again exactly when
/// the true count the foreign call reported exceeds the buffer offered to it.
pub fn probe_again(buf_len: usize, true_len: usize) -> (r: bool)
    ensures
        r == (true_len > buf_len),
{
    true_len > buf_len
}

/// Wraps the instance addresses a foreign enumeration handed back, in order.
/// A null address among them would violate the foreign interface's contract,
/// so the caller rules that out first.
pub fn collect_created_jvms(addrs: &Vec<usize>) -> (r: Vec<JavaVM>)
    requires
        forall|i: int| 0 <= i < addrs@.len() ==> addrs@[i] != 0,
    ensures
        r@.len() == addrs@.len(),
        forall|i: int| 0 <= i < addrs@.len() ==> #[trigger] r@[i].spec_addr() == addrs@[i],
{
    let mut out: Vec<JavaVM> = Vec::new();
    let mut i: usize = 0;
    while i < addrs.len()
        invariant
            0 <= i <= addrs.len(),
            out@.len() == i,
            forall|j: int| 0 <= j < addrs@.len() ==> addrs@[j] != 0,
            forall|j: int| 0 <= j < i ==> #[trigger] out@[j].spec_addr() == addrs@[j],
        decreases addrs.len() - i,
    {
        out.push(JavaVM::from_addr(addrs[i]));
        i += 1;
    }
    out
}

/// The composition rule of create-run-destroy: run the body, then destroy
/// unconditionally; when destruction fails, the failure and the
/// already-computed body result are both surfaced, neither discarding the
/// other.
pub fn pair_destroy_result<O>(body_result: O, destroy_result: Result<(), VmError>) -> (r: Result<
    O,
    (VmError, Option<O>),
>)
    ensures
        match destroy_result {
            Ok(_) => r matches Ok(b) && b == body_result,
            Err(e) => r matches Err(p) && p.0 == e && p.1 == Some(body_result),
        },
{
    match destroy_result {
        Ok(_) => Ok(body_result),
        Err(e) => Err((e, Some(body_result))),
    }
}

/// Creating then destroying an instance succeeds exactly once per lifecycle:
/// once a creation is recorded, the first destroy decision succeeds and hands
/// out the created handle, and once the destruction is recorded, a second
/// destroy decision fails with the already-gone error.
pub proof fn lemma_create_destroy_once(fresh: Lifecycle, vm: JavaVM)
    requires
        fresh.spec_stage() == VmStage::Uninitialized,
    ensures
        ({
            let created = fresh.spec_note_created(vm);
            let destroyed = created.spec_note_destroyed();
            created.spec_destroy_gate() == Ok::<JavaVM, VmError>(vm)
                && destroyed.spec_destroy_gate() == Err::<JavaVM, VmError>(VmError::Detached)
        }),
{
}

/// While an instance is alive, a second create fails with the already-exists
/// error, and the lookup that error carries, where successful, equals the
/// enumeration of the created instances.
pub proof fn lemma_second_create_carries_enumeration(lc: Lifecycle)
    requires
        lc.spec_stage() == VmStage::Created,
        lc.inv(),
    ensures
        lc.spec_create_gate() matches Err(e) && e matches VmError::VMExists(lookup)
            && lookup matches Ok(vm) && lc.spec_created_jvms() == seq![vm],
{
}

} // verus!
