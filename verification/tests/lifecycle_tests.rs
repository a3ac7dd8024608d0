use yajnir::jvm::{JavaVM, JniVersion, VmError, VmOptions};
use yajnir::lifecycle::{
    accept_default_count, collect_created_jvms, decode_options, default_args_request,
    encode_options, finish_default_args, has_forbidden_option, pair_destroy_result, probe_again,
    Lifecycle, VmStage, DEFAULT_OPTION_CAPACITY,
};

#[test]
fn create_then_destroy_succeeds_exactly_once() {
    let mut lc = Lifecycle::new();
    assert_eq!(lc.stage(), VmStage::Uninitialized);
    assert!(lc.create_gate().is_ok());
    lc.note_created(JavaVM::from_addr(0x1000));
    assert_eq!(lc.stage(), VmStage::Created);

    let first = lc.destroy_gate();
    assert_eq!(first.unwrap().addr(), 0x1000);
    lc.note_destroyed();
    assert_eq!(lc.stage(), VmStage::Destroyed);

    let second = lc.destroy_gate();
    assert!(matches!(second, Err(VmError::Detached)));
}

#[test]
fn second_create_fails_with_existing_instance() {
    let mut lc = Lifecycle::new();
    lc.note_created(JavaVM::from_addr(0x2000));

    let gate = lc.create_gate();
    match gate {
        Err(VmError::VMExists(Ok(vm))) => {
            let listed = lc.created_jvms();
            assert_eq!(listed.len(), 1);
            assert_eq!(listed[0].addr(), vm.addr());
        }
        other => panic!("expected the already-exists error, got {:?}", other),
    }
}

#[test]
fn create_after_destroy_is_rejected() {
    let mut lc = Lifecycle::new();
    lc.note_created(JavaVM::from_addr(0x3000));
    lc.note_destroyed();
    assert!(matches!(lc.create_gate(), Err(VmError::Detached)));
}

#[test]
fn enumeration_is_empty_until_creation() {
    let lc = Lifecycle::new();
    assert!(lc.created_jvms().is_empty());
}

#[test]
fn small_capacity_fails_instead_of_truncating() {
    // A true option count over the probe capacity is a configuration-limit
    // violation, never a silent truncation.
    assert!(!accept_default_count(2, 5));
    assert!(accept_default_count(DEFAULT_OPTION_CAPACITY, 64));
    assert!(accept_default_count(64, 0));
}

#[test]
fn default_args_request_is_filled_in() {
    let req = default_args_request(JniVersion::new(10, 0), DEFAULT_OPTION_CAPACITY);
    assert_eq!(req.version_native, 0x000a0000);
    assert_eq!(req.capacity, 64);
    assert_eq!(req.ignore_unrecognized, 1);
}

#[test]
fn default_args_round_trip_through_codec() {
    let mut opts = VmOptions::new(JniVersion::new(9, 0));
    opts.push_property("x", "\u{10401}");
    let encoded = encode_options(&opts);
    assert_eq!(encoded.len(), 1);
    // The supplementary character becomes a six-byte surrogate pair in the
    // runtime's modified-UTF form, not its four-byte UTF-8 form.
    assert_eq!(
        encoded[0],
        vec![b'-', b'D', b'x', b'=', 0xED, 0xA0, 0x81, 0xED, 0xB0, 0x81]
    );

    let back = finish_default_args(0x00090000, &encoded, 1).unwrap();
    assert_eq!(back.version(), JniVersion::new(9, 0));
    assert_eq!(back.options().len(), 1);
    assert_eq!(back.options()[0], "-Dx=\u{10401}");
    assert!(back.ignores_unrecognized());
}

#[test]
fn malformed_option_string_is_a_decoding_error() {
    let raw = vec![vec![0xFFu8]];
    let r = decode_options(&raw);
    assert!(matches!(r, Err(VmError::BadCesu8String(_))));
    let f = finish_default_args(0x00090000, &raw, 0);
    assert!(matches!(f, Err(VmError::BadCesu8String(_))));
}

#[test]
fn forbidden_options_are_detected() {
    let opts = VmOptions::with_opts(
        JniVersion::new(10, 0),
        vec![String::from("-Xmx512m"), String::from("exit")],
    );
    assert!(has_forbidden_option(&opts));
    let opts = VmOptions::with_opts(JniVersion::new(10, 0), vec![String::from("vfprintf")]);
    assert!(has_forbidden_option(&opts));
    let opts = VmOptions::with_opts(JniVersion::new(10, 0), vec![String::from("abort")]);
    assert!(has_forbidden_option(&opts));
    let opts = VmOptions::with_opts(
        JniVersion::new(10, 0),
        vec![String::from("-Xmx512m"), String::from("-Dexit=1")],
    );
    assert!(!has_forbidden_option(&opts));
}

#[test]
fn begin_create_encodes_the_configuration() {
    let lc = Lifecycle::new();
    let mut opts = VmOptions::new(JniVersion::new(1, 8));
    opts.push_property("a.b", "c");
    let req = lc.begin_create(&opts).unwrap();
    assert_eq!(req.version_native, 0x00010008);
    assert_eq!(req.ignore_unrecognized, 0);
    assert_eq!(req.encoded_options.len(), 1);
    assert_eq!(req.encoded_options[0], b"-Da.b=c".to_vec());
}

#[test]
fn probe_again_exactly_when_the_buffer_was_too_small() {
    assert!(probe_again(1, 2));
    assert!(!probe_again(2, 2));
    assert!(!probe_again(4, 2));
}

#[test]
fn collected_instances_keep_their_addresses() {
    let vms = collect_created_jvms(&vec![0x10, 0x20]);
    assert_eq!(vms.len(), 2);
    assert_eq!(vms[0].addr(), 0x10);
    assert_eq!(vms[1].addr(), 0x20);
}

#[test]
fn destroy_failure_surfaces_both_outcomes() {
    let ok: Result<i32, (VmError, Option<i32>)> = pair_destroy_result(7, Ok(()));
    assert_eq!(ok.unwrap(), 7);
    let err = pair_destroy_result(7, Err(VmError::Unknown));
    match err {
        Err((VmError::Unknown, Some(7))) => {}
        other => panic!("expected both the failure and the body result, got {:?}", other),
    }
}
