//! A safety layer between application code and a foreign managed runtime's
//! native invocation interface.
//!
//! The library models the runtime lifecycle (create, attach, destroy), the
//! reference ownership model (cross-thread refcounted references versus
//! thread-and-frame-scoped ones), and the translation of the foreign
//! interface's raw result codes into a structured error taxonomy. The raw
//! foreign calls themselves live outside this crate; every decision around
//! them is made here, under contract.
use vstd::prelude::*;

pub mod codec;
pub mod env;
pub mod jref;
pub mod jvm;
pub mod lifecycle;
pub mod native;

verus! {

/// Appends one character to a string. Relies on String::push: the string
/// afterwards is the old string with the character at its end.
pub assume_specification [ String::push ](s: &mut String, ch: char)
    ensures
        final(s)@ == old(s)@.push(ch),
;

/// The foreign runtime's boolean truth value.
pub const JNI_TRUE: u8 = 1;

/// The foreign runtime's boolean false value.
pub const JNI_FALSE: u8 = 0;

/// Translates a Rust bool to the foreign runtime's boolean.
pub fn r2j_bool(val: bool) -> (r: u8)
    ensures
        r == if val {
            JNI_TRUE
        } else {
            JNI_FALSE
        },
{
    if val {
        JNI_TRUE
    } else {
        JNI_FALSE
    }
}

/// Translates a foreign boolean to a Rust bool. Any non-zero value counts as
/// true: the foreign interface promises zero or one, but is not trusted to
/// keep that promise.
pub fn j2r_bool(val: u8) -> (r: bool)
    ensures
        r == (val != JNI_FALSE),
{
    val != JNI_FALSE
}

} // verus!
