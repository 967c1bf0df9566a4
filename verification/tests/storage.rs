use actioneer::storage::secret_portal::{
    advertises_secret_interface, detection_enabled_for, parse_flag, secret_portal_answer, PortalDetectionError,
};
use actioneer::storage::token_storage::{
    begin_open, delete_token_result, get_token_result, has_existing_token, has_token_result, keyring_test_passed,
    keyring_test_value, open_result, open_step, save_token_result, KeyringAnswer, KeyringFailure, OpenAction,
    OpenCall, OpenStage, StorageError,
};

#[test]
fn parses_truthy_flags() {
    for value in ["1", "true", "TRUE", "True", "yes", "YES", "Yes", "on", "ON", "On"] {
        assert!(parse_flag(value), "Expected '{value}' to be recognized as true");
    }
    assert!(!parse_flag("0"));
    assert!(!parse_flag("false"));
    assert!(!parse_flag(""));
}

#[test]
fn detection_needs_a_truthy_variable() {
    assert!(!detection_enabled_for(None));
    assert!(detection_enabled_for(Some("yes")));
    assert!(!detection_enabled_for(Some("tRUE")));
}

#[test]
fn secret_interface_is_found_in_introspection() {
    let xml = "<node><interface name=\"org.freedesktop.portal.Secret\"/></node>";
    assert!(advertises_secret_interface(xml));
    assert!(!advertises_secret_interface("<node><interface name=\"org.freedesktop.portal.Settings\"/></node>"));
    assert!(!advertises_secret_interface(""));
}

#[test]
fn keyring_answers_become_storage_results() {
    assert!(has_existing_token(&Ok("tok".to_string())));
    assert!(!has_existing_token(&Err(KeyringFailure::NoEntry("No matching entry found in secure storage".to_string()))));
    assert!(!has_existing_token(&Err(KeyringFailure::Other("locked".to_string()))));

    assert_eq!(get_token_result(Ok("ghp_1".to_string())), Ok("ghp_1".to_string()));
    assert_eq!(get_token_result(Err(KeyringFailure::NoEntry("No matching entry found in secure storage".to_string()))), Err(StorageError::TokenNotFound));
    assert_eq!(
        get_token_result(Err(KeyringFailure::Other("dbus".to_string()))),
        Err(StorageError::KeyringError("dbus".to_string()))
    );

    assert_eq!(delete_token_result(Err(KeyringFailure::NoEntry("No matching entry found in secure storage".to_string()))), Ok(()));
    assert_eq!(
        delete_token_result(Err(KeyringFailure::Other("x".to_string()))),
        Err(StorageError::KeyringError("x".to_string()))
    );
    assert_eq!(
        save_token_result(Err(KeyringFailure::NoEntry("No matching entry found in secure storage".to_string()))),
        Err(StorageError::KeyringError("No matching entry found in secure storage".to_string()))
    );
    assert_eq!(save_token_result(Ok(())), Ok(()));
    assert!(has_token_result(&Ok("t".to_string())));
    assert!(!has_token_result(&Err(KeyringFailure::NoEntry("No matching entry found in secure storage".to_string()))));
}

#[test]
fn keyring_test_round_trip() {
    let value = keyring_test_value(1700000000);
    assert_eq!(value, "test_1700000000");
    assert!(keyring_test_passed(&Ok(()), &Ok(value.clone()), &value));
    assert!(!keyring_test_passed(&Ok(()), &Ok("other".to_string()), &value));
    assert!(!keyring_test_passed(&Err(KeyringFailure::Other("w".to_string())), &Ok(value.clone()), &value));
    assert_eq!(open_result(false), Err(StorageError::KeyringUnavailable));
    assert_eq!(open_result(true), Ok(()));
}

#[test]
fn portal_answers_and_errors() {
    let xml = "<node><interface name=\"org.freedesktop.portal.Secret\"/></node>";
    assert_eq!(secret_portal_answer(Some(xml)), Ok(true));
    assert_eq!(secret_portal_answer(Some("<node/>")), Ok(false));
    assert_eq!(secret_portal_answer(None), Err(PortalDetectionError::UnexpectedIntrospection));
    assert_eq!(
        PortalDetectionError::UnexpectedIntrospection.message(),
        "portal introspection response was not a string"
    );
    assert_eq!(
        PortalDetectionError::Bus("no bus".to_string()).message(),
        "failed to connect to session bus: no bus"
    );
}

fn no_entry() -> KeyringFailure {
    KeyringFailure::NoEntry("No matching entry found in secure storage".to_string())
}

#[test]
fn opening_with_an_existing_token_skips_the_test() {
    let (stage, call) = begin_open(1700000000);
    assert_eq!(call, OpenCall::ReadToken);
    let (_, action) = open_step(stage, KeyringAnswer::Password(Ok("tok".to_string())));
    assert_eq!(action, OpenAction::Finish(Ok(())));
}

#[test]
fn opening_tests_the_keyring_with_the_test_key() {
    let (stage, _) = begin_open(42);
    let (stage, action) = open_step(stage, KeyringAnswer::Password(Err(no_entry())));
    assert_eq!(action, OpenAction::Call(OpenCall::WriteTest("test_42".to_string())));
    let (stage, action) = open_step(stage, KeyringAnswer::Done(Ok(())));
    assert_eq!(action, OpenAction::Call(OpenCall::ReadTest));
    let (stage, action) = open_step(stage, KeyringAnswer::Password(Ok("test_42".to_string())));
    assert_eq!(action, OpenAction::Call(OpenCall::DeleteTest));
    assert_eq!(stage, OpenStage::AwaitTestDelete { works: true });
    let (_, action) = open_step(stage, KeyringAnswer::Done(Err(no_entry())));
    assert_eq!(action, OpenAction::Finish(Ok(())));
}

#[test]
fn opening_fails_when_the_keyring_does_not_keep_the_value() {
    let (stage, _) = begin_open(42);
    let (stage, _) = open_step(stage, KeyringAnswer::Password(Err(KeyringFailure::Other("locked".to_string()))));
    let (failed, action) = open_step(stage.clone(), KeyringAnswer::Done(Err(KeyringFailure::Other("denied".to_string()))));
    assert_eq!(action, OpenAction::Finish(Err(StorageError::KeyringUnavailable)));
    assert_eq!(failed, OpenStage::AwaitTestWrite { test_value: "test_42".to_string() });
    let (stage, _) = open_step(stage, KeyringAnswer::Done(Ok(())));
    let (_, action) = open_step(stage.clone(), KeyringAnswer::Password(Err(no_entry())));
    assert_eq!(action, OpenAction::Finish(Err(StorageError::KeyringUnavailable)));
    let (stage, action) = open_step(stage, KeyringAnswer::Password(Ok("other".to_string())));
    assert_eq!(action, OpenAction::Call(OpenCall::DeleteTest));
    let (_, action) = open_step(stage, KeyringAnswer::Done(Ok(())));
    assert_eq!(action, OpenAction::Finish(Err(StorageError::KeyringUnavailable)));
}
