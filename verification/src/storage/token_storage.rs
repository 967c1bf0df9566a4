//! Token storage in the system keyring: how keyring answers become storage
//! results. The keyring calls themselves are made by the caller.
use crate::text::{decimal_text, push_decimal, str_eq};
use vstd::prelude::*;

verus! {

pub const SERVICE_NAME: &'static str = "me.spaceinbox.actioneer";

pub const TOKEN_KEY: &'static str = "github_token";

/// A separate key used to test that the keyring works, so that a real token
/// is never disturbed.
pub const TEST_KEY: &'static str = "github_token_test";

/// How a keyring operation failed.
#[derive(Debug, Clone, PartialEq)]
pub enum KeyringFailure {
    /// No credential is stored under the key, with the keyring's
    /// description of that.
    NoEntry(String),
    /// Any other keyring error, with its description.
    Other(String),
}

#[derive(Debug, Clone, PartialEq)]
pub enum StorageError {
    /// The keyring reported an error.
    KeyringError(String),
    TokenNotFound,
    KeyringUnavailable,
}

/// Opening the storage: a token already stored means the keyring works and
/// needs no test; no entry or an error means it must be tested.
pub fn has_existing_token(probe: &Result<String, KeyringFailure>) -> (found: bool)
    ensures
        found == probe is Ok,
{
    match probe {
        Ok(_) => true,
        Err(_) => false,
    }
}

/// The value written under the test key: `test_<unix seconds>`.
pub fn keyring_test_value(unix_secs: u64) -> (v: String)
    ensures
        v@ == "test_"@ + decimal_text(unix_secs as int),
{
    let mut v = String::from_str("test_");
    push_decimal(&mut v, unix_secs as i128);
    v
}

/// The keyring works when the test value was written and reads back
/// unchanged.
pub fn keyring_test_passed(
    write: &Result<(), KeyringFailure>,
    read_back: &Result<String, KeyringFailure>,
    expected: &str,
) -> (works: bool)
    ensures
        works == (write is Ok && match read_back {
            Ok(v) => v@ == expected@,
            Err(_) => false,
        }),
{
    match write {
        Ok(()) => match read_back {
            Ok(v) => str_eq(v.as_str(), expected),
            Err(_) => false,
        },
        Err(_) => false,
    }
}

/// The result of opening the storage after the keyring test.
pub fn open_result(works: bool) -> (r: Result<(), StorageError>)
    ensures
        works ==> r == Ok::<(), StorageError>(()),
        !works ==> r == Err::<(), StorageError>(StorageError::KeyringUnavailable),
{
    if works {
        Ok(())
    } else {
        Err(StorageError::KeyringUnavailable)
    }
}

/// The description of a keyring failure, as `keyring::Error` displays it.
pub open spec fn keyring_error_for(f: KeyringFailure) -> Seq<char> {
    match f {
        KeyringFailure::NoEntry(m) => m@,
        KeyringFailure::Other(m) => m@,
    }
}

fn failure_message(f: KeyringFailure) -> (m: String)
    ensures
        m@ == keyring_error_for(f),
{
    match f {
        KeyringFailure::NoEntry(m) => m,
        KeyringFailure::Other(m) => m,
    }
}

/// `e` is a keyring error carrying the description `message`.
pub open spec fn storage_error_says(e: StorageError, message: Seq<char>) -> bool {
    match e {
        StorageError::KeyringError(m) => m@ == message,
        _ => false,
    }
}

/// Saving fails exactly when the keyring write fails.
pub fn save_token_result(write: Result<(), KeyringFailure>) -> (r: Result<(), StorageError>)
    ensures
        match write {
            Ok(()) => r is Ok,
            Err(f) => match r {
                Err(e) => storage_error_says(e, keyring_error_for(f)),
                Ok(_) => false,
            },
        },
{
    match write {
        Ok(()) => Ok(()),
        Err(f) => Err(StorageError::KeyringError(failure_message(f))),
    }
}

/// Reading the token: a missing entry is `TokenNotFound`, other failures are
/// keyring errors.
pub fn get_token_result(read: Result<String, KeyringFailure>) -> (r: Result<String, StorageError>)
    ensures
        match read {
            Ok(t) => r matches Ok(u) && u@ == t@,
            Err(KeyringFailure::NoEntry(_)) => r == Err::<String, StorageError>(StorageError::TokenNotFound),
            Err(KeyringFailure::Other(m)) => match r {
                Err(e) => storage_error_says(e, m@),
                Ok(_) => false,
            },
        },
{
    match read {
        Ok(t) => Ok(t),
        Err(KeyringFailure::NoEntry(_)) => Err(StorageError::TokenNotFound),
        Err(KeyringFailure::Other(m)) => Err(StorageError::KeyringError(m)),
    }
}

/// Deleting the token: a missing entry counts as deleted.
pub fn delete_token_result(delete: Result<(), KeyringFailure>) -> (r: Result<(), StorageError>)
    ensures
        match delete {
            Ok(()) => r is Ok,
            Err(KeyringFailure::NoEntry(_)) => r is Ok,
            Err(KeyringFailure::Other(m)) => match r {
                Err(e) => storage_error_says(e, m@),
                Ok(_) => false,
            },
        },
{
    match delete {
        Ok(()) => Ok(()),
        Err(KeyringFailure::NoEntry(_)) => Ok(()),
        Err(KeyringFailure::Other(m)) => Err(StorageError::KeyringError(m)),
    }
}

/// A token exists when reading it succeeds.
pub fn has_token_result(read: &Result<String, KeyringFailure>) -> (found: bool)
    ensures
        found == read is Ok,
{
    read.is_ok()
}

/// A keyring call made while opening the storage. None of them writes the
/// real token key: only the test key is written and deleted.
#[derive(Debug, Clone, PartialEq)]
pub enum OpenCall {
    /// Read the password under the token key.
    ReadToken,
    /// Write this value under the test key.
    WriteTest(String),
    /// Read the password under the test key.
    ReadTest,
    /// Delete the credential under the test key.
    DeleteTest,
}

/// What the keyring answered to the last call.
#[derive(Debug, PartialEq)]
pub enum KeyringAnswer {
    /// The answer to a read.
    Password(Result<String, KeyringFailure>),
    /// The answer to a write or a delete.
    Done(Result<(), KeyringFailure>),
}

/// Where opening the storage stands: which call it waits on, and the test
/// value in play.
#[derive(Debug, Clone, PartialEq)]
pub enum OpenStage {
    AwaitToken { test_value: String },
    AwaitTestWrite { test_value: String },
    AwaitTestRead { test_value: String },
    /// The test value was read back; whether it matched.
    AwaitTestDelete { works: bool },
}

/// What opening does next.
#[derive(Debug, PartialEq)]
pub enum OpenAction {
    Call(OpenCall),
    Finish(Result<(), StorageError>),
}

/// The answer kind fits the call the stage waits on.
pub open spec fn answer_fits(stage: OpenStage, answer: KeyringAnswer) -> bool {
    match stage {
        OpenStage::AwaitToken { .. } => answer is Password,
        OpenStage::AwaitTestWrite { .. } => answer is Done,
        OpenStage::AwaitTestRead { .. } => answer is Password,
        OpenStage::AwaitTestDelete { .. } => answer is Done,
    }
}

/// One step of opening: an existing token ends it at once; otherwise the
/// test value is written, read back, and (only after a successful read)
/// deleted; the storage opens when the value read back is the one written.
pub open spec fn open_transition(stage: OpenStage, answer: KeyringAnswer) -> (OpenStage, OpenAction) {
    match (stage, answer) {
        (OpenStage::AwaitToken { test_value }, KeyringAnswer::Password(r)) => if r is Ok {
            (OpenStage::AwaitToken { test_value }, OpenAction::Finish(Ok(())))
        } else {
            (
                OpenStage::AwaitTestWrite { test_value },
                OpenAction::Call(OpenCall::WriteTest(test_value)),
            )
        },
        (OpenStage::AwaitTestWrite { test_value }, KeyringAnswer::Done(r)) => if r is Ok {
            (OpenStage::AwaitTestRead { test_value }, OpenAction::Call(OpenCall::ReadTest))
        } else {
            (
                OpenStage::AwaitTestWrite { test_value },
                OpenAction::Finish(Err(StorageError::KeyringUnavailable)),
            )
        },
        (OpenStage::AwaitTestRead { test_value }, KeyringAnswer::Password(r)) => match r {
            Ok(v) => (
                OpenStage::AwaitTestDelete { works: v@ == test_value@ },
                OpenAction::Call(OpenCall::DeleteTest),
            ),
            Err(_) => (
                OpenStage::AwaitTestRead { test_value },
                OpenAction::Finish(Err(StorageError::KeyringUnavailable)),
            ),
        },
        (OpenStage::AwaitTestDelete { works }, _) => (
            OpenStage::AwaitTestDelete { works },
            OpenAction::Finish(
                if works {
                    Ok(())
                } else {
                    Err(StorageError::KeyringUnavailable)
                },
            ),
        ),
        (s, _) => (s, OpenAction::Finish(Err(StorageError::KeyringUnavailable))),
    }
}

/// Starts opening the storage at `unix_secs`: the token key is read first,
/// and the test value `test_<unix_secs>` is kept for the keyring test.
pub fn begin_open(unix_secs: u64) -> (r: (OpenStage, OpenCall))
    ensures
        r.1 == OpenCall::ReadToken,
        match r.0 {
            OpenStage::AwaitToken { test_value } => test_value@ == "test_"@ + decimal_text(
                unix_secs as int,
            ),
            _ => false,
        },
{
    (OpenStage::AwaitToken { test_value: keyring_test_value(unix_secs) }, OpenCall::ReadToken)
}

/// Takes one step of opening the storage after the keyring answered.
pub fn open_step(stage: OpenStage, answer: KeyringAnswer) -> (r: (OpenStage, OpenAction))
    requires
        answer_fits(stage, answer),
    ensures
        r == open_transition(stage, answer),
{
    match stage {
        OpenStage::AwaitToken { test_value } => match answer {
            KeyringAnswer::Password(r) => if has_existing_token(&r) {
                (OpenStage::AwaitToken { test_value }, OpenAction::Finish(Ok(())))
            } else {
                let write = OpenCall::WriteTest(test_value.clone());
                (OpenStage::AwaitTestWrite { test_value }, OpenAction::Call(write))
            },
            KeyringAnswer::Done(_) => (
                OpenStage::AwaitToken { test_value },
                OpenAction::Finish(Err(StorageError::KeyringUnavailable)),
            ),
        },
        OpenStage::AwaitTestWrite { test_value } => match answer {
            KeyringAnswer::Done(r) => if r.is_ok() {
                (OpenStage::AwaitTestRead { test_value }, OpenAction::Call(OpenCall::ReadTest))
            } else {
                (
                    OpenStage::AwaitTestWrite { test_value },
                    OpenAction::Finish(Err(StorageError::KeyringUnavailable)),
                )
            },
            KeyringAnswer::Password(_) => (
                OpenStage::AwaitTestWrite { test_value },
                OpenAction::Finish(Err(StorageError::KeyringUnavailable)),
            ),
        },
        OpenStage::AwaitTestRead { test_value } => match answer {
            KeyringAnswer::Password(r) => match r {
                Ok(v) => {
                    let works = str_eq(v.as_str(), test_value.as_str());
                    (OpenStage::AwaitTestDelete { works }, OpenAction::Call(OpenCall::DeleteTest))
                },
                Err(_) => (
                    OpenStage::AwaitTestRead { test_value },
                    OpenAction::Finish(Err(StorageError::KeyringUnavailable)),
                ),
            },
            KeyringAnswer::Done(_) => (
                OpenStage::AwaitTestRead { test_value },
                OpenAction::Finish(Err(StorageError::KeyringUnavailable)),
            ),
        },
        OpenStage::AwaitTestDelete { works } => (OpenStage::AwaitTestDelete { works }, OpenAction::Finish(open_result(works))),
    }
}

/// The test key is deleted only right after its value was read back, and
/// the storage opens after a test only when the value read back is the one
/// written.
pub proof fn law_test_key_deleted_only_after_read_back(stage: OpenStage, answer: KeyringAnswer)
    requires
        answer_fits(stage, answer),
    ensures
        open_transition(stage, answer).1 == OpenAction::Call(OpenCall::DeleteTest) ==> (
        stage is AwaitTestRead && answer matches KeyringAnswer::Password(Ok(_))),
        stage matches OpenStage::AwaitTestDelete { works } ==> (open_transition(stage, answer).1
            == OpenAction::Finish(Ok(())) <==> works),
{
}

} // verus!
