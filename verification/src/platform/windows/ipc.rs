//! The local IPC protocol between a second instance and the resident one:
//! the command bytes, the pipe's name, and the decisions the client and the
//! server take on what Win32 reports.
use vstd::prelude::*;

use super::win32::{win32_failure_message, win32_failure_text};
use crate::text::{is_ascii_whitespace_byte, owned};

pub use crate::text::wide_string;

verus! {

/// The named pipe the resident instance listens on.
pub const PIPE_NAME: &'static str = "\\\\.\\pipe\\Latchnott";

/// The largest command the server reads.
pub const MAX_COMMAND_SIZE: usize = 64;

/// `ERROR_FILE_NOT_FOUND`: no server pipe exists yet.
pub const ERROR_FILE_NOT_FOUND: u32 = 2;

/// `ERROR_PIPE_BUSY`: every server pipe instance is in use.
pub const ERROR_PIPE_BUSY: u32 = 231;

/// `ERROR_PIPE_CONNECTED`: a client connected before the server waited.
pub const ERROR_PIPE_CONNECTED: u32 = 535;

/// How many times a client tries to open the pipe.
pub const SEND_ATTEMPTS: u32 = 10;

/// How long a client waits between two tries, in milliseconds.
pub const SEND_RETRY_PAUSE_MILLIS: u64 = 10;

/// The bytes of the one command: `ShowInput`.
pub open spec fn show_input_bytes() -> Seq<u8> {
    seq![
        0x53u8,
        0x68u8,
        0x6Fu8,
        0x77u8,
        0x49u8,
        0x6Eu8,
        0x70u8,
        0x75u8,
        0x74u8,
    ]
}

/// A command sent over the pipe.
#[derive(Debug, Clone, Copy, PartialEq, Eq)]
pub enum IpcCommand {
    ShowInput,
}

/// An error of the IPC channel.
#[derive(Debug, Clone, PartialEq, Eq)]
pub struct IpcError {
    message: String,
}

impl View for IpcError {
    type V = Seq<char>;

    closed spec fn view(&self) -> Seq<char> {
        self.message@
    }
}

impl IpcError {
    /// An error with the given message.
    pub fn new(message: String) -> (r: Self)
        ensures
            r@ == message@,
    {
        IpcError { message }
    }

    /// The error of a failed Win32 call.
    pub fn win32(operation: &str, error: u32) -> (r: Self)
        ensures
            r@ == win32_failure_text(operation@, error),
    {
        IpcError { message: win32_failure_message(operation, error) }
    }

    /// The error's message.
    pub fn message(&self) -> (r: &str)
        ensures
            r@ == self@,
    {
        self.message.as_str()
    }

    /// The error's message, as its `Display` would write it.
    pub fn to_string(&self) -> (r: String)
        ensures
            r@ == self@,
    {
        owned(self.message.as_str())
    }
}

pub open spec fn unknown_command_text() -> Seq<char> {
    "unknown IPC command"@
}

/// The length that remains of `bytes` once trailing NUL bytes and ASCII
/// white space are dropped.
pub open spec fn trimmed_len(bytes: Seq<u8>) -> nat
    decreases bytes.len(),
{
    if bytes.len() == 0 {
        0
    } else if bytes.last() == 0 || is_ascii_whitespace_byte(bytes.last()) {
        trimmed_len(bytes.drop_last())
    } else {
        bytes.len()
    }
}

/// Bytes that a reader drops after a command: NUL and ASCII white space.
pub open spec fn is_padding(bytes: Seq<u8>) -> bool {
    forall|i: int| 0 <= i < bytes.len() ==> bytes[i] == 0 || is_ascii_whitespace_byte(#[trigger] bytes[i])
}

proof fn lemma_trimmed_len_of_padded(command: Seq<u8>, padding: Seq<u8>)
    requires
        command.len() > 0,
        command.last() != 0,
        !is_ascii_whitespace_byte(command.last()),
        is_padding(padding),
    ensures
        trimmed_len(command + padding) == command.len(),
    decreases padding.len(),
{
    if padding.len() == 0 {
        assert(command + padding =~= command);
    } else {
        assert((command + padding).drop_last() =~= command + padding.drop_last());
        assert((command + padding).last() == padding.last());
        assert(padding.last() == padding[padding.len() - 1]);
        lemma_trimmed_len_of_padded(command, padding.drop_last());
    }
}

/// What a client writes, the server reads back as the same command, also
/// when the read brings trailing NUL bytes or ASCII white space after it.
pub proof fn lemma_written_command_reads_back(padding: Seq<u8>)
    requires
        is_padding(padding),
    ensures
        ({
            let read = show_input_bytes() + padding;
            read.take(trimmed_len(read) as int) == show_input_bytes()
        }),
{
    let command = show_input_bytes();
    lemma_trimmed_len_of_padded(command, padding);
    assert((command + padding).take(command.len() as int) =~= command);
}

fn byte_is_ascii_whitespace(b: u8) -> (r: bool)
    ensures
        r == is_ascii_whitespace_byte(b),
{
    b == 0x20 || b == 0x09 || b == 0x0A || b == 0x0C || b == 0x0D
}

/// `bytes` without its trailing NUL bytes and ASCII white space.
pub fn trim_trailing_nul_and_whitespace(bytes: &[u8]) -> (r: &[u8])
    ensures
        r@ == bytes@.take(trimmed_len(bytes@) as int),
{
    let mut end = bytes.len();
    assert(bytes@.take(end as int) =~= bytes@);
    while end > 0 && (bytes[end - 1] == 0 || byte_is_ascii_whitespace(bytes[end - 1]))
        invariant
            end <= bytes@.len(),
            trimmed_len(bytes@) == trimmed_len(bytes@.take(end as int)),
        decreases end,
    {
        proof {
            assert(bytes@.take(end as int).drop_last() =~= bytes@.take(end - 1));
        }
        end = end - 1;
    }
    proof {
        if end > 0 {
            assert(bytes@.take(end as int).last() == bytes@[end - 1]);
        }
        assert(trimmed_len(bytes@.take(end as int)) == end);
    }
    vstd::slice::slice_subrange(bytes, 0, end)
}

impl IpcCommand {
    /// The bytes that carry the command.
    pub fn as_bytes(self) -> (r: Vec<u8>)
        ensures
            r@ == show_input_bytes(),
    {
        let mut r: Vec<u8> = Vec::new();
        r.push(0x53u8);
        r.push(0x68u8);
        r.push(0x6Fu8);
        r.push(0x77u8);
        r.push(0x49u8);
        r.push(0x6Eu8);
        r.push(0x70u8);
        r.push(0x75u8);
        r.push(0x74u8);
        proof {
            assert(r@ =~= show_input_bytes());
        }
        r
    }

    /// The command carried by `bytes`, once trailing NUL bytes and ASCII
    /// white space are dropped; any other content is an unknown command.
    pub fn from_bytes(bytes: &[u8]) -> (r: Result<Self, IpcError>)
        ensures
            bytes@.take(trimmed_len(bytes@) as int) == show_input_bytes() ==> r == Ok::<
                IpcCommand,
                IpcError,
            >(IpcCommand::ShowInput),
            bytes@.take(trimmed_len(bytes@) as int) != show_input_bytes() ==> (r matches Err(e)
                && e@ == unknown_command_text()),
    {
        let command = trim_trailing_nul_and_whitespace(bytes);
        let expected = IpcCommand::ShowInput.as_bytes();
        if command.len() == expected.len() {
            let mut i: usize = 0;
            while i < command.len()
                invariant
                    command@.len() == expected@.len(),
                    expected@ == show_input_bytes(),
                    command@ == bytes@.take(trimmed_len(bytes@) as int),
                    i <= command@.len(),
                    forall|j: int| 0 <= j < i ==> command@[j] == expected@[j],
                decreases command@.len() - i,
            {
                if command[i] != expected[i] {
                    proof {
                        assert(command@[i as int] != show_input_bytes()[i as int]);
                    }
                    return Err(IpcError::new(owned("unknown IPC command")));
                }
                i = i + 1;
            }
            proof {
                assert(command@ =~= expected@);
            }
            return Ok(IpcCommand::ShowInput);
        }
        Err(IpcError::new(owned("unknown IPC command")))
    }
}

/// The server side of the pipe.
#[derive(Debug)]
pub struct IpcServer {
    pipe_name: String,
}

impl IpcServer {
    /// A server on the application's pipe.
    pub fn new() -> (r: Self)
        ensures
            r.pipe_name_view() == PIPE_NAME@,
    {
        IpcServer { pipe_name: owned(PIPE_NAME) }
    }

    /// A server on another pipe.
    pub fn with_pipe_name(pipe_name: &str) -> (r: Self)
        ensures
            r.pipe_name_view() == pipe_name@,
    {
        IpcServer { pipe_name: owned(pipe_name) }
    }

    pub closed spec fn pipe_name_view(&self) -> Seq<char> {
        self.pipe_name@
    }

    /// The pipe the server listens on.
    pub fn pipe_name(&self) -> (r: &str)
        ensures
            r@ == self.pipe_name_view(),
    {
        self.pipe_name.as_str()
    }
}

/// A client's decision after opening the pipe failed with `error`: the
/// pipe missing or busy is worth another try (`Ok`); anything else ends the
/// send.
pub fn open_failure(error: u32) -> (r: Result<(), IpcError>)
    ensures
        (error == ERROR_FILE_NOT_FOUND || error == ERROR_PIPE_BUSY) ==> r is Ok,
        !(error == ERROR_FILE_NOT_FOUND || error == ERROR_PIPE_BUSY) ==> (r matches Err(e) && e@
            == win32_failure_text("CreateFileW"@, error)),
{
    if error != ERROR_FILE_NOT_FOUND && error != ERROR_PIPE_BUSY {
        return Err(IpcError::win32("CreateFileW", error));
    }
    Ok(())
}

/// The error of a client that ran out of tries.
pub fn send_timeout() -> (r: IpcError)
    ensures
        r@ == "timed out while waiting for Latchnott IPC server"@,
{
    IpcError::new(owned("timed out while waiting for Latchnott IPC server"))
}

/// What a client does after a try to open the pipe failed.
#[derive(Debug, Clone, PartialEq, Eq)]
pub enum SendStep {
    /// Pause, then try again.
    RetryAfterPause,
    /// Pause, then give up with this error: every try is used.
    GiveUpAfterPause(IpcError),
    /// Give up at once with this error.
    Fail(IpcError),
}

/// An error on opening the pipe that is worth another try: no server pipe
/// yet, or every instance busy.
pub open spec fn retryable_open_error(error: u32) -> bool {
    error == ERROR_FILE_NOT_FOUND || error == ERROR_PIPE_BUSY
}

/// A client's next step once its `attempts_made`-th try (counting the one
/// that just failed) to open the pipe failed with `open_error`: another try
/// after a pause while tries remain out of `SEND_ATTEMPTS`; a timeout after
/// the pause once they are used up; any other error ends the send at once.
pub fn next_send_step(attempts_made: u32, open_error: u32) -> (r: SendStep)
    ensures
        retryable_open_error(open_error) && attempts_made < SEND_ATTEMPTS ==> r
            == SendStep::RetryAfterPause,
        retryable_open_error(open_error) && attempts_made >= SEND_ATTEMPTS ==> (r matches SendStep::GiveUpAfterPause(
            e,
        ) && e@ == "timed out while waiting for Latchnott IPC server"@),
        !retryable_open_error(open_error) ==> (r matches SendStep::Fail(e) && e@
            == win32_failure_text("CreateFileW"@, open_error)),
{
    match open_failure(open_error) {
        Err(error) => SendStep::Fail(error),
        Ok(()) => if attempts_made < SEND_ATTEMPTS {
            SendStep::RetryAfterPause
        } else {
            SendStep::GiveUpAfterPause(send_timeout())
        },
    }
}

/// A client's verdict on writing the command: the write must succeed and
/// write every byte.
pub fn write_outcome(succeeded: bool, error: u32, written: u32, expected: usize) -> (r: Result<
    (),
    IpcError,
>)
    ensures
        !succeeded ==> (r matches Err(e) && e@ == win32_failure_text("WriteFile"@, error)),
        succeeded && written as int != expected as int ==> (r matches Err(e) && e@
            == "IPC command was only partially written"@),
        succeeded && written as int == expected as int ==> r is Ok,
{
    if !succeeded {
        return Err(IpcError::win32("WriteFile", error));
    }
    if written as u64 != expected as u64 {
        return Err(IpcError::new(owned("IPC command was only partially written")));
    }
    Ok(())
}

/// The server's verdict on creating its pipe.
pub fn create_pipe_outcome(valid_handle: bool, error: u32) -> (r: Result<(), IpcError>)
    ensures
        valid_handle ==> r is Ok,
        !valid_handle ==> (r matches Err(e) && e@ == win32_failure_text("CreateNamedPipeW"@, error)),
{
    if !valid_handle {
        return Err(IpcError::win32("CreateNamedPipeW", error));
    }
    Ok(())
}

/// The server's verdict on waiting for a client: a client that connected
/// before the wait counts as connected.
pub fn connect_outcome(connected: bool, error: u32) -> (r: Result<(), IpcError>)
    ensures
        (connected || error == ERROR_PIPE_CONNECTED) ==> r is Ok,
        !(connected || error == ERROR_PIPE_CONNECTED) ==> (r matches Err(e) && e@
            == win32_failure_text("ConnectNamedPipe"@, error)),
{
    if !connected && error != ERROR_PIPE_CONNECTED {
        return Err(IpcError::win32("ConnectNamedPipe", error));
    }
    Ok(())
}

/// The server's verdict on reading: the command in the bytes read.
pub fn read_outcome(succeeded: bool, error: u32, buffer: &[u8], bytes_read: u32) -> (r: Result<
    IpcCommand,
    IpcError,
>)
    requires
        bytes_read as int <= buffer@.len(),
    ensures
        !succeeded ==> (r matches Err(e) && e@ == win32_failure_text("ReadFile"@, error)),
        succeeded ==> {
            let read = buffer@.take(bytes_read as int);
            &&& read.take(trimmed_len(read) as int) == show_input_bytes() ==> r == Ok::<
                IpcCommand,
                IpcError,
            >(IpcCommand::ShowInput)
            &&& read.take(trimmed_len(read) as int) != show_input_bytes() ==> (r matches Err(e)
                && e@ == unknown_command_text())
        },
{
    if !succeeded {
        return Err(IpcError::win32("ReadFile", error));
    }
    let read = vstd::slice::slice_subrange(buffer, 0, bytes_read as usize);
    IpcCommand::from_bytes(read)
}

/// What the server does after a client's command was read or failed.
#[derive(Debug, Clone, PartialEq, Eq)]
pub enum ServerStep {
    /// Hand the command to the application.
    Dispatch(IpcCommand),
    /// Go on listening without acting.
    Continue,
    /// Stop with this error.
    Fail(IpcError),
}

/// Once stopping was requested, nothing is dispatched and errors are
/// swallowed; before that, a command is dispatched and an error ends the
/// server.
pub fn after_accept(stopping: bool, result: Result<IpcCommand, IpcError>) -> (r: ServerStep)
    ensures
        stopping ==> r == ServerStep::Continue,
        !stopping ==> match result {
            Ok(command) => r == ServerStep::Dispatch(command),
            Err(e) => r == ServerStep::Fail(e),
        },
{
    match result {
        Ok(command) => if stopping {
            ServerStep::Continue
        } else {
            ServerStep::Dispatch(command)
        },
        Err(error) => if stopping {
            ServerStep::Continue
        } else {
            ServerStep::Fail(error)
        },
    }
}

} // verus!
