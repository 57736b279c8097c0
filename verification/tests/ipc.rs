use latchnott::platform::windows::ipc::{
    after_accept, connect_outcome, next_send_step, open_failure, read_outcome, send_timeout, write_outcome,
    IpcCommand, IpcError, IpcServer, SendStep, ServerStep, ERROR_FILE_NOT_FOUND, ERROR_PIPE_BUSY,
    ERROR_PIPE_CONNECTED, PIPE_NAME,
};
use latchnott::platform::windows::ipc::trim_trailing_nul_and_whitespace;

#[test]
fn serializes_show_input_command() {
    assert_eq!(IpcCommand::ShowInput.as_bytes(), b"ShowInput");
}

#[test]
fn parses_show_input_command() {
    assert_eq!(
        IpcCommand::from_bytes(b"ShowInput").expect("valid command should parse"),
        IpcCommand::ShowInput
    );
}

#[test]
fn parses_show_input_command_with_trailing_whitespace() {
    assert_eq!(
        IpcCommand::from_bytes(b"ShowInput\n").expect("valid command should parse"),
        IpcCommand::ShowInput
    );
}

#[test]
fn rejects_unknown_command() {
    let error =
        IpcCommand::from_bytes(b"SomethingElse").expect_err("unknown command should fail");

    assert_eq!(error.to_string(), "unknown IPC command");
}

#[test]
fn rejects_empty_command() {
    let error = IpcCommand::from_bytes(b"").expect_err("empty command should fail");

    assert_eq!(error.to_string(), "unknown IPC command");
}

#[test]
fn trailing_nul_and_ascii_whitespace_are_dropped_but_leading_are_not() {
    assert_eq!(trim_trailing_nul_and_whitespace(b"ShowInput\0\0 \r\n\t\x0c"), b"ShowInput");
    assert_eq!(trim_trailing_nul_and_whitespace(b"\0 \n"), b"");
    assert!(IpcCommand::from_bytes(b"ShowInput\0\0\0").is_ok());
    assert!(IpcCommand::from_bytes(b" ShowInput").is_err());
    assert!(IpcCommand::from_bytes(b"ShowInpu").is_err());
    assert!(IpcCommand::from_bytes(b"showinput").is_err());
}

#[test]
fn server_uses_the_application_pipe() {
    assert_eq!(IpcServer::new().pipe_name(), PIPE_NAME);
    assert_eq!(PIPE_NAME, r"\\.\pipe\Latchnott");
    assert_eq!(IpcServer::with_pipe_name("x").pipe_name(), "x");
}

#[test]
fn client_retries_only_while_the_pipe_is_missing_or_busy() {
    assert!(open_failure(ERROR_FILE_NOT_FOUND).is_ok());
    assert!(open_failure(ERROR_PIPE_BUSY).is_ok());
    assert_eq!(
        open_failure(5).expect_err("access denied ends the send").to_string(),
        "CreateFileW failed with Win32 error 5"
    );
    assert_eq!(
        send_timeout().to_string(),
        "timed out while waiting for Latchnott IPC server"
    );
}

#[test]
fn writes_must_be_complete() {
    assert!(write_outcome(true, 0, 9, 9).is_ok());
    assert_eq!(
        write_outcome(true, 0, 4, 9).expect_err("partial").to_string(),
        "IPC command was only partially written"
    );
    assert_eq!(
        write_outcome(false, 232, 0, 9).expect_err("failed").to_string(),
        "WriteFile failed with Win32 error 232"
    );
}

#[test]
fn server_reads_commands_from_what_arrived() {
    assert!(connect_outcome(true, 0).is_ok());
    assert!(connect_outcome(false, ERROR_PIPE_CONNECTED).is_ok());
    assert_eq!(
        connect_outcome(false, 6).expect_err("failed").to_string(),
        "ConnectNamedPipe failed with Win32 error 6"
    );

    let mut buffer = [0u8; 64];
    buffer[..9].copy_from_slice(b"ShowInput");
    assert_eq!(read_outcome(true, 0, &buffer, 9), Ok(IpcCommand::ShowInput));
    assert_eq!(read_outcome(true, 0, &buffer, 64), Ok(IpcCommand::ShowInput));
    assert!(read_outcome(true, 0, &buffer, 4).is_err());
    assert_eq!(
        read_outcome(false, 109, &buffer, 0).expect_err("failed").to_string(),
        "ReadFile failed with Win32 error 109"
    );
}

#[test]
fn stopping_server_neither_dispatches_nor_fails() {
    assert_eq!(
        after_accept(false, Ok(IpcCommand::ShowInput)),
        ServerStep::Dispatch(IpcCommand::ShowInput)
    );
    assert_eq!(after_accept(true, Ok(IpcCommand::ShowInput)), ServerStep::Continue);
    let error = IpcError::new("boom".to_owned());
    assert_eq!(after_accept(false, Err(error.clone())), ServerStep::Fail(error.clone()));
    assert_eq!(after_accept(true, Err(error)), ServerStep::Continue);
}

#[test]
fn client_retries_missing_or_busy_pipes_until_its_tries_are_used() {
    assert_eq!(next_send_step(1, ERROR_FILE_NOT_FOUND), SendStep::RetryAfterPause);
    assert_eq!(next_send_step(9, ERROR_PIPE_BUSY), SendStep::RetryAfterPause);

    match next_send_step(10, ERROR_PIPE_BUSY) {
        SendStep::GiveUpAfterPause(error) => assert_eq!(
            error.to_string(),
            "timed out while waiting for Latchnott IPC server"
        ),
        other => panic!("expected a timeout, got {other:?}"),
    }

    match next_send_step(1, 5) {
        SendStep::Fail(error) => {
            assert_eq!(error.to_string(), "CreateFileW failed with Win32 error 5")
        }
        other => panic!("expected a failure, got {other:?}"),
    }
}
