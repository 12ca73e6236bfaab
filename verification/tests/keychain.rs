use alfred_pinboard_rs::command::{trimmed_output, CommandOutput};
use alfred_pinboard_rs::error::AlfredError;
use alfred_pinboard_rs::keychain;
use alfred_pinboard_rs::keychain::{get, get_args, service, set_args};

fn reply(success: bool, stdout: &[u8], stderr: &[u8]) -> CommandOutput {
    CommandOutput { success, stdout: stdout.to_vec(), stderr: stderr.to_vec() }
}

#[test]
fn service_is_the_bundle_id() {
    assert_eq!(service(Some("com.example.pinboard".to_string())), Ok("com.example.pinboard".to_string()));
    assert_eq!(service(None), Err(AlfredError::MissingBundleId));
}

#[test]
fn lookup_arguments_name_service_and_account() {
    assert_eq!(
        get_args("svc"),
        vec!["find-generic-password", "-s", "svc", "-a", "pinboard-api-token", "-w"]
    );
}

#[test]
fn store_arguments_update_in_place() {
    assert_eq!(
        set_args("svc", "user:TOKEN"),
        vec![
            "add-generic-password",
            "-U",
            "-s",
            "svc",
            "-a",
            "pinboard-api-token",
            "-D",
            "application password",
            "-j",
            "Pinboard API token used by the Alfred Pinboard workflow",
            "-w",
            "user:TOKEN",
        ]
    );
}

#[test]
fn get_reads_the_trimmed_token() {
    assert_eq!(get(Some(reply(true, b"  user:ABC123\n", b""))), Some("user:ABC123".to_string()));
}

#[test]
fn get_reports_no_token_when_there_is_none() {
    assert_eq!(get(None), None);
    assert_eq!(get(Some(reply(false, b"user:ABC", b"not found"))), None);
    assert_eq!(get(Some(reply(true, b" \n\t", b""))), None);
    assert_eq!(get(Some(reply(true, b"", b""))), None);
}

#[test]
fn set_reports_what_went_wrong() {
    assert_eq!(keychain::set(Ok(reply(true, b"", b"whatever"))), Ok(()));
    assert_eq!(
        keychain::set(Ok(reply(false, b"", b"security: SecKeychainItemModifyContent: denied\n"))),
        Err(AlfredError::KeychainError(
            "security: SecKeychainItemModifyContent: denied".to_string()
        ))
    );
    assert_eq!(
        keychain::set(Err("No such file or directory (os error 2)".to_string())),
        Err(AlfredError::KeychainError("No such file or directory (os error 2)".to_string()))
    );
}

#[test]
fn lossy_decoding_replaces_invalid_bytes() {
    assert_eq!(trimmed_output(b"caf\xc3\xa9"), "caf\u{e9}");
    assert_eq!(trimmed_output(b"a\xffb"), "a\u{fffd}b");
    assert_eq!(trimmed_output(b" \xff \n"), "\u{fffd}");
    assert_eq!(get(Some(reply(true, b"\xfe tok", b""))), Some("\u{fffd} tok".to_string()));
}
