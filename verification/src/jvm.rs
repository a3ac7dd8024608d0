//! Startup configuration for the foreign runtime: the interface version a
//! caller targets and the option strings handed over at creation.
use vstd::prelude::*;
use vstd::string::StringExecFns;

verus! {

/// An interface version of the foreign runtime, as a major/minor pair.
#[derive(Debug, Clone, Copy, PartialEq, Eq, Structural)]
pub struct JniVersion {
    pub major: u16,
    pub minor: u16,
}

impl JniVersion {
    /// The packed form the foreign interface uses: major in the high half,
    /// minor in the low half.
    pub open spec fn spec_native(self) -> u32 {
        ((self.major as u32) << 16) | (self.minor as u32)
    }

    pub fn new(major: u16, minor: u16) -> (r: JniVersion)
        ensures
            r.major == major,
            r.minor == minor,
    {
        JniVersion { major, minor }
    }

    /// Packs the version into the foreign interface's single-word form.
    pub fn as_native(&self) -> (r: u32)
        ensures
            r == self.spec_native(),
    {
        ((self.major as u32) << 16) | (self.minor as u32)
    }

    /// The version as text: the major part, a dot, the minor part.
    pub fn to_text(&self) -> (r: String)
        ensures
            r@ == spec_decimal(self.major as int) + seq!['.'] + spec_decimal(self.minor as int),
    {
        let mut out = String::new();
        push_decimal(&mut out, self.major);
        out.push('.');
        push_decimal(&mut out, self.minor);
        proof {
            assert(out@ =~= spec_decimal(self.major as int) + seq!['.'] + spec_decimal(
                self.minor as int,
            ));
        }
        out
    }

    /// Unpacks a version from the foreign interface's single-word form.
    pub fn from_native(n: u32) -> (r: JniVersion)
        ensures
            r.major == (n >> 16) as u16,
            r.minor == (n & 0xFFFF) as u16,
    {
        JniVersion { major: (n >> 16) as u16, minor: (n & 0xFFFF) as u16 }
    }
}

/// The decimal digit of a value below ten.
pub open spec fn spec_dec_digit(d: int) -> char {
    if d == 0 {
        '0'
    } else if d == 1 {
        '1'
    } else if d == 2 {
        '2'
    } else if d == 3 {
        '3'
    } else if d == 4 {
        '4'
    } else if d == 5 {
        '5'
    } else if d == 6 {
        '6'
    } else if d == 7 {
        '7'
    } else if d == 8 {
        '8'
    } else {
        '9'
    }
}

/// The decimal text of a non-negative value, highest digit first, no leading
/// zeros (a lone zero for zero).
pub open spec fn spec_decimal(n: int) -> Seq<char>
    decreases n,
{
    if n < 10 {
        seq![spec_dec_digit(n)]
    } else {
        spec_decimal(n / 10).push(spec_dec_digit(n % 10))
    }
}

fn dec_digit(d: u32) -> (r: char)
    requires
        d < 10,
    ensures
        r == spec_dec_digit(d as int),
{
    if d == 0 {
        '0'
    } else if d == 1 {
        '1'
    } else if d == 2 {
        '2'
    } else if d == 3 {
        '3'
    } else if d == 4 {
        '4'
    } else if d == 5 {
        '5'
    } else if d == 6 {
        '6'
    } else if d == 7 {
        '7'
    } else if d == 8 {
        '8'
    } else {
        '9'
    }
}

fn push_decimal(out: &mut String, n: u16)
    ensures
        final(out)@ == old(out)@ + spec_decimal(n as int),
    decreases n,
{
    if n >= 10 {
        push_decimal(out, n / 10);
        out.push(dec_digit((n % 10) as u32));
        proof {
            assert(out@ =~= old(out)@ + spec_decimal(n as int));
        }
    } else {
        out.push(dec_digit(n as u32));
        proof {
            assert(out@ =~= old(out)@ + spec_decimal(n as int));
        }
    }
}

/// Packing a version and unpacking it again gives the version back: the two
/// halves never bleed into each other.
pub proof fn lemma_version_native_round_trip(v: JniVersion)
    ensures
        (v.spec_native() >> 16) as u16 == v.major,
        (v.spec_native() & 0xFFFF) as u16 == v.minor,
{
    lemma_pack_unpack(v.major, v.minor);
}

proof fn lemma_pack_unpack(major: u16, minor: u16)
    ensures
        ((((major as u32) << 16) | (minor as u32)) >> 16) as u16 == major,
        ((((major as u32) << 16) | (minor as u32)) & 0xFFFF) as u16 == minor,
{
    assert(((((major as u32) << 16) | (minor as u32)) >> 16) as u16 == major) by (bit_vector);
    assert(((((major as u32) << 16) | (minor as u32)) & 0xFFFF) as u16 == minor) by (bit_vector);
}

/// The foreign interface's result code for success.
pub const JNI_OK: i32 = 0;

/// The foreign interface's result code for an unspecified failure.
pub const JNI_ERR: i32 = -1;

/// The foreign interface's result code for a thread that is not attached.
pub const JNI_EDETACHED: i32 = -2;

/// The foreign interface's result code for an unsupported version.
pub const JNI_EVERSION: i32 = -3;

/// The foreign interface's result code for memory exhaustion.
pub const JNI_ENOMEM: i32 = -4;

/// The foreign interface's result code for a runtime instance that already
/// exists.
pub const JNI_EEXIST: i32 = -5;

/// The foreign interface's result code for invalid arguments.
pub const JNI_EINVAL: i32 = -6;

/// A thread-safe handle to an existing (but not necessarily active) foreign
/// runtime instance. The address is never dereferenced by this layer; it only
/// travels back into foreign calls.
#[derive(Debug, Clone, Copy, PartialEq, Eq, Structural)]
pub struct JavaVM {
    addr: usize,
}

impl JavaVM {
    /// Every runtime handle is non-null.
    #[verifier::type_invariant]
    pub closed spec fn inv(self) -> bool {
        self.addr != 0
    }

    pub closed spec fn spec_addr(self) -> usize {
        self.addr
    }

    /// Wraps a raw instance address. A null address would violate the foreign
    /// interface's contract for a successfully returned instance, so the
    /// caller rules it out first.
    pub fn from_addr(addr: usize) -> (r: JavaVM)
        requires
            addr != 0,
        ensures
            r.spec_addr() == addr,
    {
        JavaVM { addr }
    }

    /// The raw instance address, for handing back into foreign calls.
    pub fn addr(&self) -> (r: usize)
        ensures
            r == self.spec_addr(),
            r != 0,
    {
        proof {
            use_type_invariant(self);
        }
        self.addr
    }
}

/// The closed error taxonomy: the foreign interface's documented error codes
/// plus this layer's own synthesized conditions (a missing function-table
/// entry, a string-decoding failure).
#[derive(Debug)]
pub enum VmError {
    /// An unknown error.
    Unknown,
    /// The calling thread is not attached to a runtime instance, or the
    /// instance it points at is already gone.
    Detached,
    /// The requested interface version is not supported.
    BadVersion,
    /// The runtime ran out of memory.
    NotEnoughMemory,
    /// A runtime instance already exists in this process. Carries the lookup
    /// of the existing instance, or the failure of that lookup itself.
    VMExists(Result<JavaVM, Box<VmError>>),
    /// Invalid arguments were passed to a foreign function.
    InvalidArguments,
    /// A requested operation is absent from the runtime's function table
    /// (an incompatible runtime version, degraded to a reportable error).
    MissingFunction(&'static str),
    /// The codec failed to decode a string handed back by the runtime.
    BadCesu8String(cesu8::Cesu8DecodingError),
}

impl VmError {
    /// The mapping from a raw result code to the taxonomy. Any code that
    /// matches no error constant passes through as success; success is not
    /// assumed to be zero.
    pub open spec fn spec_assert_ok(code: i32, existing: Result<JavaVM, Box<VmError>>) -> Result<
        i32,
        VmError,
    > {
        if code == JNI_ERR {
            Err(VmError::Unknown)
        } else if code == JNI_EDETACHED {
            Err(VmError::Detached)
        } else if code == JNI_EVERSION {
            Err(VmError::BadVersion)
        } else if code == JNI_ENOMEM {
            Err(VmError::NotEnoughMemory)
        } else if code == JNI_EEXIST {
            Err(VmError::VMExists(existing))
        } else if code == JNI_EINVAL {
            Err(VmError::InvalidArguments)
        } else {
            Ok(code)
        }
    }

    /// Checks that a raw result code (from a foreign call) does not name an
    /// error constant; a code that does is translated into the taxonomy, any
    /// other passes through unchanged.
    ///
    /// `existing` is the enumeration of the instances already created in this
    /// process, supplied by the caller; it is carried inside the
    /// already-exists error and ignored otherwise.
    pub fn assert_ok(func_result: i32, existing: Result<JavaVM, Box<VmError>>) -> (r: Result<
        i32,
        VmError,
    >)
        ensures
            r == VmError::spec_assert_ok(func_result, existing),
    {
        if func_result == JNI_ERR {
            Err(VmError::Unknown)
        } else if func_result == JNI_EDETACHED {
            Err(VmError::Detached)
        } else if func_result == JNI_EVERSION {
            Err(VmError::BadVersion)
        } else if func_result == JNI_ENOMEM {
            Err(VmError::NotEnoughMemory)
        } else if func_result == JNI_EEXIST {
            Err(VmError::VMExists(existing))
        } else if func_result == JNI_EINVAL {
            Err(VmError::InvalidArguments)
        } else {
            Ok(func_result)
        }
    }
}

/// The function-table dispatch rule: a foreign operation is a capability
/// lookup, and an unpopulated slot degrades to a reportable error instead of
/// a null-pointer failure. `present` says whether the caller found the named
/// slot populated.
pub fn require_function(name: &'static str, present: bool) -> (r: Result<(), VmError>)
    ensures
        present <==> r is Ok,
        !present ==> r == Err::<(), VmError>(VmError::MissingFunction(name)),
{
    if present {
        Ok(())
    } else {
        Err(VmError::MissingFunction(name))
    }
}

/// The startup configuration handed to the foreign runtime at creation: the
/// target version, an ordered list of option strings (duplicates allowed,
/// order preserved), and whether the runtime should ignore options it does
/// not recognize instead of failing.
#[derive(Debug, Clone)]
pub struct VmOptions {
    version: JniVersion,
    options: Vec<String>,
    ignore_unrecognized: bool,
}

impl VmOptions {
    pub closed spec fn spec_version(self) -> JniVersion {
        self.version
    }

    pub closed spec fn spec_options(self) -> Seq<Seq<char>> {
        self.options.deep_view()
    }

    pub closed spec fn spec_ignore_unrecognized(self) -> bool {
        self.ignore_unrecognized
    }

    /// A basic configuration: an empty option list for the given target
    /// version, with unrecognized options treated as errors.
    pub fn new(version: JniVersion) -> (r: VmOptions)
        ensures
            r.spec_version() == version,
            r.spec_options() == Seq::<Seq<char>>::empty(),
            !r.spec_ignore_unrecognized(),
    {
        VmOptions { version, options: Vec::new(), ignore_unrecognized: false }
    }

    /// A configuration with the given option list; the runtime will fail at
    /// creation on any option it does not recognize.
    pub fn with_opts(version: JniVersion, opts: Vec<String>) -> (r: VmOptions)
        ensures
            r.spec_version() == version,
            r.spec_options() == opts.deep_view(),
            !r.spec_ignore_unrecognized(),
    {
        VmOptions { version, options: opts, ignore_unrecognized: false }
    }

    /// A configuration with the given option list; the runtime will ignore
    /// any option it does not recognize at creation.
    pub fn with_unrecognized_opts(version: JniVersion, opts: Vec<String>) -> (r: VmOptions)
        ensures
            r.spec_version() == version,
            r.spec_options() == opts.deep_view(),
            r.spec_ignore_unrecognized(),
    {
        VmOptions { version, options: opts, ignore_unrecognized: true }
    }

    /// Replaces the whole option list.
    pub fn replace_options(&mut self, opts: Vec<String>)
        ensures
            final(self).spec_options() == opts.deep_view(),
            final(self).spec_version() == old(self).spec_version(),
            final(self).spec_ignore_unrecognized() == old(self).spec_ignore_unrecognized(),
    {
        self.options = opts;
    }

    /// The option strings, in the order they will be handed to the runtime.
    pub fn options(&self) -> (r: &Vec<String>)
        ensures
            r.deep_view() == self.spec_options(),
    {
        &self.options
    }

    /// The target version of this configuration.
    pub fn version(&self) -> (r: JniVersion)
        ensures
            r == self.spec_version(),
    {
        self.version
    }

    /// Whether the runtime will ignore unrecognized options at creation.
    pub fn ignores_unrecognized(&self) -> (r: bool)
        ensures
            r == self.spec_ignore_unrecognized(),
    {
        self.ignore_unrecognized
    }

    /// Sets whether the runtime ignores unrecognized options at creation.
    pub fn allow_unrecognized_options(&mut self, allow: bool)
        ensures
            final(self).spec_ignore_unrecognized() == allow,
            final(self).spec_version() == old(self).spec_version(),
            final(self).spec_options() == old(self).spec_options(),
    {
        self.ignore_unrecognized = allow;
    }

    /// Appends a system-property option of the runtime's documented
    /// `-D<name>=<value>` shape to the option list.
    pub fn push_property(&mut self, name: &str, value: &str)
        ensures
            final(self).spec_options() == old(self).spec_options().push(
                "-D"@ + name@ + "="@ + value@,
            ),
            final(self).spec_version() == old(self).spec_version(),
            final(self).spec_ignore_unrecognized() == old(self).spec_ignore_unrecognized(),
    {
        let mut entry = String::from_str("-D");
        entry.append(name);
        entry.append("=");
        entry.append(value);
        self.options.push(entry);
        proof {
            assert(self.options.deep_view() =~= old(self).spec_options().push(
                "-D"@ + name@ + "="@ + value@,
            ));
        }
    }
}

} // verus!
