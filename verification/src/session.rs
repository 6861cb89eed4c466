//! The operations on live sessions: finding the session that a request
//! names, and settling what the host's step on it produced.
//!
//! An operation on an existing session runs in three parts. [`lookup`]
//! finds the session under the table's lock. The host then releases that
//! lock, takes the one resource that the operation needs and performs the
//! step on it. The function named after the operation turns what the step
//! produced into the answer for the caller.

use crate::failure::{
    missing_process_id, settle, step_failure, unavailable_handle, Failure, Fault, Operation, Step,
};
use crate::session_table::{PtyHandler, SessionTable};
use vstd::prelude::*;
use vstd::slice::slice_subrange;

verus! {

/// How many bytes one read takes at most.
pub const READ_BUFFER_SIZE: usize = 1024;

/// The size of a terminal, in cells and in pixels.
#[derive(Clone, Copy, Debug, PartialEq, Eq, Structural)]
pub struct TerminalSize {
    pub rows: u16,
    pub cols: u16,
    pub pixel_width: u16,
    pub pixel_height: u16,
}

/// Whether a shell has exited, and with which code.
#[derive(Clone, Copy, Debug, PartialEq, Eq)]
pub struct ShellStatus {
    pub has_exited: bool,
    pub exit_code: Option<u32>,
}

/// How the process tree of a session is brought down.
#[derive(Debug)]
pub struct KillRequest {
    pub signal: String,
    pub include_target: bool,
}

/// The text that std's lossy decoding makes of `bytes`: the text that the
/// bytes encode in UTF-8, with a replacement character wherever they encode
/// none.
pub uninterp spec fn lossy_text(bytes: Seq<u8>) -> Seq<char>;

/// Calls `String::from_utf8_lossy` of std and takes the result as an owned
/// string. The contract names the result, the same text for the same bytes,
/// and claims that no bytes give an empty text.
#[verifier::external_body]
fn decode_lossy(bytes: &[u8]) -> (text: String)
    ensures
        text@ == lossy_text(bytes@),
        bytes@.len() == 0 ==> text@.len() == 0,
{
    String::from_utf8_lossy(bytes).into_owned()
}

/// Finds the session that `operation` is asked to work on.
///
/// A handle that is in the table gives its session. A handle that is not
/// gives the failure that reports it: the error "unavailable handle" for the
/// caller and exactly one notification, at error level, for the user.
pub fn lookup<'a, S>(table: &'a SessionTable<S>, operation: Operation, handle: PtyHandler) -> (answer:
    Result<&'a S, Failure>)
    ensures
        table@.contains_key(handle) ==> (answer matches Ok(session) && *session
            == table@[handle]),
        !table@.contains_key(handle) ==> (answer matches Err(failure) && failure@
            == unavailable_handle(operation, handle)),
{
    match table.get(handle) {
        Some(session) => Ok(session),
        None => Err(Failure::unavailable(operation, handle)),
    }
}

/// Settles a write: `written` is what writing all the bytes to the
/// session's writer gave.
pub fn write_to_session(written: Result<(), Fault>) -> (answer: Result<(), Failure>)
    ensures
        match written {
            Ok(_) => answer is Ok,
            Err(fault) => answer matches Err(failure) && failure@ == step_failure(
                Operation::Write,
                Step::WriteAll,
                fault.message@,
                fault.diagnostic@,
            ),
        },
{
    settle(Operation::Write, Step::WriteAll, written)
}

/// Settles a read: `buffer` is what one read from the session's reader
/// filled, and `count` what that read returned. The answer is the text of
/// exactly the bytes read; a read of no bytes gives an empty text, and is
/// no failure.
pub fn read_from_session(buffer: &[u8], count: Result<usize, Fault>) -> (answer: Result<
    String,
    Failure,
>)
    requires
        count matches Ok(n) ==> n <= buffer@.len(),
    ensures
        match count {
            Ok(n) => answer matches Ok(text) && text@ == lossy_text(buffer@.subrange(0, n as int))
                && (n == 0 ==> text@.len() == 0),
            Err(fault) => answer matches Err(failure) && failure@ == step_failure(
                Operation::Read,
                Step::Read,
                fault.message@,
                fault.diagnostic@,
            ),
        },
{
    match count {
        Ok(n) => Ok(decode_lossy(slice_subrange(buffer, 0, n))),
        Err(fault) => Err(Failure::of_step(Operation::Read, Step::Read, fault)),
    }
}

/// The size that a resize asks of the terminal: the given cells, and no
/// pixel dimensions.
pub fn resize_request(cols: u16, rows: u16) -> (size: TerminalSize)
    ensures
        size == (TerminalSize { rows, cols, pixel_width: 0, pixel_height: 0 }),
{
    TerminalSize { rows, cols, pixel_width: 0, pixel_height: 0 }
}

/// Settles a resize: `resized` is what resizing the session's master side
/// gave.
pub fn resize(resized: Result<(), Fault>) -> (answer: Result<(), Failure>)
    ensures
        match resized {
            Ok(_) => answer is Ok,
            Err(fault) => answer matches Err(failure) && failure@ == step_failure(
                Operation::Resize,
                Step::Resize,
                fault.message@,
                fault.diagnostic@,
            ),
        },
{
    settle(Operation::Resize, Step::Resize, resized)
}

/// How a session is ended: the whole process tree is killed, the shell
/// itself included.
pub fn end_session_request() -> (request: KillRequest)
    ensures
        request.signal@ == "SIGKILL"@,
        request.include_target,
{
    KillRequest { signal: "SIGKILL".to_owned(), include_target: true }
}

/// Settles the end of a session: `killed` is what killing the process tree
/// gave. The table is not touched: the entry stays until the caller removes
/// it.
pub fn end_session(killed: Result<(), Fault>) -> (answer: Result<(), Failure>)
    ensures
        match killed {
            Ok(_) => answer is Ok,
            Err(fault) => answer matches Err(failure) && failure@ == step_failure(
                Operation::End,
                Step::KillTree,
                fault.message@,
                fault.diagnostic@,
            ),
        },
{
    settle(Operation::End, Step::KillTree, killed)
}

/// Settles a wait: `waited` is the exit code that waiting on the session's
/// child gave.
pub fn wait_for_exit(waited: Result<u32, Fault>) -> (answer: Result<u32, Failure>)
    ensures
        match waited {
            Ok(code) => answer == Ok::<u32, Failure>(code),
            Err(fault) => answer matches Err(failure) && failure@ == step_failure(
                Operation::Wait,
                Step::Wait,
                fault.message@,
                fault.diagnostic@,
            ),
        },
{
    settle(Operation::Wait, Step::Wait, waited)
}

/// The status that a poll of the child stands for: an exit code means that
/// the shell has exited with it, none that it still runs.
pub open spec fn status_of(polled: Option<u32>) -> ShellStatus {
    match polled {
        Some(code) => ShellStatus { has_exited: true, exit_code: Some(code) },
        None => ShellStatus { has_exited: false, exit_code: None },
    }
}

/// Settles a status check: `polled` is what a poll of the session's child
/// gave, without blocking.
pub fn check_exit_status(polled: Result<Option<u32>, Fault>) -> (answer: Result<
    ShellStatus,
    Failure,
>)
    ensures
        match polled {
            Ok(exit) => answer == Ok::<ShellStatus, Failure>(status_of(exit)),
            Err(fault) => answer matches Err(failure) && failure@ == step_failure(
                Operation::CheckStatus,
                Step::TryWait,
                fault.message@,
                fault.diagnostic@,
            ),
        },
{
    match polled {
        Ok(Some(code)) => Ok(ShellStatus { has_exited: true, exit_code: Some(code) }),
        Ok(None) => Ok(ShellStatus { has_exited: false, exit_code: None }),
        Err(fault) => Err(Failure::of_step(Operation::CheckStatus, Step::TryWait, fault)),
    }
}

/// Enters a freshly spawned session into the table.
///
/// With a process id the session goes under it, every other entry stays as
/// it was, and the id is the session's handle. Without one the table stays
/// as it was and the create fails.
pub fn register_session<S>(
    table: &mut SessionTable<S>,
    process_id: Option<u32>,
    session: S,
) -> (answer: Result<PtyHandler, Failure>)
    ensures
        match process_id {
            Some(handle) => answer == Ok::<u32, Failure>(handle) && final(table)@ == old(
                table,
            )@.insert(handle, session),
            None => final(table)@ == old(table)@ && (answer matches Err(failure) && failure@
                == missing_process_id()),
        },
{
    match process_id {
        Some(handle) => {
            table.insert(handle, session);
            Ok(handle)
        },
        None => Err(Failure::no_process_id()),
    }
}

/// Two sessions that were registered under different handles are both in
/// the table afterwards, each under its own handle, and entering the
/// second leaves the first as it was.
pub proof fn lemma_distinct_handles_keep_their_sessions<S>(
    table: Map<u32, S>,
    first: u32,
    first_session: S,
    second: u32,
    second_session: S,
)
    requires
        first != second,
    ensures
        table.insert(first, first_session).insert(second, second_session)[first] == first_session,
        table.insert(first, first_session).insert(second, second_session)[second]
            == second_session,
        table.insert(first, first_session).insert(second, second_session).contains_key(first),
        table.insert(first, first_session).insert(second, second_session).contains_key(second),
{
}

} // verus!
