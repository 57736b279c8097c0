use latchnott::platform::windows::single_instance::{
    acquisition_outcome, wide_string, SingleInstanceError, MUTEX_NAME,
};
use windows_sys::Win32::Foundation::ERROR_ALREADY_EXISTS;

#[test]
fn generated_mutex_name_is_null_terminated() {
    let value = wide_string(MUTEX_NAME);

    assert_eq!(value.last(), Some(&0));
    assert!(value.len() > 1);
}

#[test]
fn existing_mutex_means_already_running() {
    let error = acquisition_outcome(false, ERROR_ALREADY_EXISTS)
        .expect_err("second acquisition should report existing instance");

    assert!(error.is_already_running());
    assert_eq!(error.to_string(), "another Latchnott instance is already running");
}

#[test]
fn failed_creation_is_not_already_running() {
    let error = acquisition_outcome(true, 5).expect_err("no handle");

    assert!(!error.is_already_running());
    assert_eq!(error.to_string(), "CreateMutexW failed with Win32 error 5");
    assert!(acquisition_outcome(false, 0).is_ok());
    assert!(!SingleInstanceError::new("x".to_owned(), false).is_already_running());
}
