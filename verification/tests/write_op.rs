use text_writer::failure_message;
use text_writer::write_result;

#[test]
fn success_outcome_is_ok() {
    assert_eq!(write_result(None), Ok(()));
}

#[test]
fn failure_outcome_carries_message() {
    let os_text = "No such file or directory (os error 2)";
    let r = write_result(Some(String::from(os_text)));
    assert_eq!(
        r,
        Err(String::from(
            "write_text_file failed: No such file or directory (os error 2)"
        ))
    );
}

#[test]
fn permission_denied_outcome_is_failure_with_prefix() {
    let r = write_result(Some(String::from("Permission denied (os error 13)")));
    let message = r.unwrap_err();
    assert!(message.contains("write_text_file failed:"));
    assert_eq!(
        message,
        "write_text_file failed: Permission denied (os error 13)"
    );
}

#[test]
fn failure_message_exact() {
    let m = failure_message("denied");
    assert_eq!(m, "write_text_file failed: denied");
}

#[test]
fn failure_message_empty_error_is_bare_prefix() {
    let m = failure_message("");
    assert_eq!(m, "write_text_file failed: ");
}

#[test]
fn failure_message_starts_with_prefix() {
    let m = failure_message("anything at all");
    assert!(m.starts_with("write_text_file failed:"));
    assert!(m.ends_with("anything at all"));
}
