use yajnir::native::{native_name, NativeEscapeError};

#[test]
fn native_names() {
    assert_eq!(
        Ok("Java_p_q_r_A_f"),
        native_name("p/q/r/A", "f", None).as_ref().map(|s| s.as_str())
    );
    assert_eq!(
        Ok("Java_p_q_r_A_f__ILjava_lang_String_2"),
        native_name("p/q/r/A", "f", Some("ILjava/lang/String;")).as_ref().map(|s| s.as_str())
    );
}

#[test]
fn reserved_punctuation_is_escaped() {
    assert_eq!(
        Ok("Java_a_1b_c_3_2"),
        native_name("a_b", "c[;", None).as_ref().map(|s| s.as_str())
    );
}

#[test]
fn digit_after_separator_is_rejected() {
    let r = native_name("p/3x", "f", None);
    assert_eq!(
        r,
        Err(NativeEscapeError {
            class: String::from("p/3x"),
            method: String::from("f"),
            overload_signature: None,
        })
    );
}

#[test]
fn digit_elsewhere_passes_through() {
    assert_eq!(
        Ok("Java_p3x_f"),
        native_name("p3x", "f", None).as_ref().map(|s| s.as_str())
    );
}

#[test]
fn rejected_signature_is_carried_back() {
    let r = native_name("A", "f", Some("p/1"));
    assert_eq!(
        r,
        Err(NativeEscapeError {
            class: String::from("A"),
            method: String::from("f"),
            overload_signature: Some(String::from("p/1")),
        })
    );
}

#[test]
fn non_ascii_gets_four_digit_escape() {
    // U+00E9 is neither a separator nor ASCII-alphanumeric.
    assert_eq!(
        Ok("Java_a_000e9_f"),
        native_name("a\u{00e9}", "f", None).as_ref().map(|s| s.as_str())
    );
}

#[test]
fn supplementary_char_keeps_low_sixteen_bits() {
    // U+10401: only the low sixteen bits of the code point survive.
    assert_eq!(
        Ok("Java_a_00401_f"),
        native_name("a\u{10401}", "f", None).as_ref().map(|s| s.as_str())
    );
}
