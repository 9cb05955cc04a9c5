use ffi_common::error::{
    clear_last_err_msg, contains_nul, get_last_err_msg, get_last_err_msg_for_c, set_last_err_msg, LastError,
};

#[test]
fn can_get_error() {
    let error = "dummy error";
    let mut store = LastError::new();
    set_last_err_msg(&mut store, error.to_string());
    let returned_error = get_last_err_msg(&store).expect("Failed to get str from CStr");
    assert_eq!(error, returned_error);
}

#[test]
fn can_clear_error() {
    let error = "dummy error".to_string();
    let mut store = LastError::new();
    set_last_err_msg(&mut store, error);
    clear_last_err_msg(&mut store);
    assert_eq!(None, get_last_err_msg(&store));
}

#[test]
fn a_new_store_holds_no_error() {
    let store = LastError::new();
    assert_eq!(None, get_last_err_msg(&store));
}

#[test]
fn setting_replaces_the_previous_error() {
    let mut store = LastError::new();
    set_last_err_msg(&mut store, "first".to_string());
    set_last_err_msg(&mut store, "second".to_string());
    assert_eq!(Some("second".to_string()), get_last_err_msg(&store));
}

#[test]
fn message_with_nul_is_replaced_by_its_description() {
    let mut store = LastError::new();
    set_last_err_msg(&mut store, "bad\0msg".to_string());
    let r = get_last_err_msg_for_c(&mut store, |m| format!("cannot pass {} characters", m.chars().count()));
    assert_eq!(r, None);
    assert_eq!(get_last_err_msg(&store), Some("cannot pass 7 characters".to_string()));
}

#[test]
fn message_without_nul_is_handed_over() {
    let mut store = LastError::new();
    set_last_err_msg(&mut store, "dummy error".to_string());
    let r = get_last_err_msg_for_c(&mut store, |_| "unused".to_string());
    assert_eq!(r, Some("dummy error".to_string()));
    assert_eq!(get_last_err_msg(&store), Some("dummy error".to_string()));
    clear_last_err_msg(&mut store);
    assert_eq!(get_last_err_msg_for_c(&mut store, |_| "unused".to_string()), None);
}

#[test]
fn nul_characters_are_found() {
    assert!(contains_nul("a\0b"));
    assert!(contains_nul("\0"));
    assert!(!contains_nul("plain é text"));
    assert!(!contains_nul(""));
}
