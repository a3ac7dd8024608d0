use yajnir::jvm::{
    JavaVM, JniVersion, VmError, VmOptions, JNI_EDETACHED, JNI_EEXIST, JNI_EINVAL, JNI_ENOMEM,
    JNI_ERR, JNI_EVERSION, JNI_OK,
};
use yajnir::jvm::require_function;
use yajnir::{j2r_bool, r2j_bool};

#[test]
fn version_packs_and_unpacks() {
    let v = JniVersion::new(1, 8);
    assert_eq!(v.as_native(), 0x00010008);
    assert_eq!(JniVersion::from_native(0x00010008), v);
    let w = JniVersion::new(10, 0);
    assert_eq!(w.as_native(), 0x000a0000);
    assert_eq!(JniVersion::from_native(w.as_native()), w);
}

#[test]
fn version_renders_as_major_dot_minor() {
    assert_eq!(JniVersion::new(1, 8).to_text(), "1.8");
    assert_eq!(JniVersion::new(10, 0).to_text(), "10.0");
    assert_eq!(JniVersion::new(65535, 305).to_text(), "65535.305");
}

#[test]
fn options_builders_keep_their_fields() {
    let v = JniVersion::new(1, 6);
    let base = VmOptions::new(v);
    assert_eq!(base.version(), v);
    assert!(base.options().is_empty());
    assert!(!base.ignores_unrecognized());

    let listed = VmOptions::with_opts(v, vec![String::from("-Xint"), String::from("-Xint")]);
    assert_eq!(listed.options().as_slice(), &["-Xint", "-Xint"]);
    assert!(!listed.ignores_unrecognized());

    let lax = VmOptions::with_unrecognized_opts(v, vec![String::from("-Xwhatever")]);
    assert!(lax.ignores_unrecognized());

    let mut edited = listed.clone();
    edited.replace_options(vec![String::from("-ea")]);
    assert_eq!(edited.options().as_slice(), &["-ea"]);
    edited.allow_unrecognized_options(true);
    assert!(edited.ignores_unrecognized());
}

#[test]
fn push_property_appends_the_documented_shape() {
    let mut opts = VmOptions::new(JniVersion::new(1, 8));
    opts.push_property("user.language", "en");
    opts.push_property("a", "");
    assert_eq!(
        opts.options().as_slice(),
        &["-Duser.language=en", "-Da="]
    );
}

#[test]
fn every_error_code_maps_to_its_variant() {
    let lookup = || -> Result<JavaVM, Box<VmError>> { Err(Box::new(VmError::Unknown)) };
    assert!(matches!(VmError::assert_ok(JNI_ERR, lookup()), Err(VmError::Unknown)));
    assert!(matches!(VmError::assert_ok(JNI_EDETACHED, lookup()), Err(VmError::Detached)));
    assert!(matches!(VmError::assert_ok(JNI_EVERSION, lookup()), Err(VmError::BadVersion)));
    assert!(matches!(VmError::assert_ok(JNI_ENOMEM, lookup()), Err(VmError::NotEnoughMemory)));
    assert!(matches!(VmError::assert_ok(JNI_EINVAL, lookup()), Err(VmError::InvalidArguments)));
    match VmError::assert_ok(JNI_EEXIST, Ok(JavaVM::from_addr(0x40))) {
        Err(VmError::VMExists(Ok(vm))) => assert_eq!(vm.addr(), 0x40),
        other => panic!("expected the already-exists error, got {:?}", other),
    }
}

#[test]
fn non_error_codes_pass_through_unchanged() {
    let lookup = || -> Result<JavaVM, Box<VmError>> { Err(Box::new(VmError::Unknown)) };
    assert_eq!(VmError::assert_ok(JNI_OK, lookup()).unwrap(), 0);
    assert_eq!(VmError::assert_ok(3, lookup()).unwrap(), 3);
    assert_eq!(VmError::assert_ok(-7, lookup()).unwrap(), -7);
}

#[test]
fn missing_function_is_reported_by_name() {
    assert!(require_function("DestroyJavaVM", true).is_ok());
    match require_function("DestroyJavaVM", false) {
        Err(VmError::MissingFunction(name)) => assert_eq!(name, "DestroyJavaVM"),
        other => panic!("expected the missing-function error, got {:?}", other),
    }
}

#[test]
fn boolean_translation_follows_the_foreign_convention() {
    assert_eq!(r2j_bool(true), 1);
    assert_eq!(r2j_bool(false), 0);
    assert!(!j2r_bool(0));
    assert!(j2r_bool(1));
    // Non-zero, non-one values count as true.
    assert!(j2r_bool(3));
}
