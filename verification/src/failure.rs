//! How a failed step of a session operation is reported: as an error for
//! the caller, and as one notification for the user.

use crate::notification::{Level, NotificationEvent, NotificationView};
use crate::text::{joined, decimal, render_decimal};
use vstd::prelude::*;

verus! {

/// The requests that the interface can make.
#[derive(Clone, Copy, Debug, PartialEq, Eq, Structural)]
pub enum Operation {
    Create,
    Write,
    Read,
    Resize,
    End,
    Wait,
    CheckStatus,
    UserConfig,
    SystemInfo,
}

impl Operation {
    /// The sentence shown to the user when the operation fails.
    pub open spec fn failure_text(self) -> Seq<char> {
        match self {
            Operation::Create => "There was an error creating the shell session."@,
            Operation::Write => "There was an error writing to the shell session."@,
            Operation::Read => "There was an error reading from the shell session."@,
            Operation::Resize => "There was an error resizing the shell session."@,
            Operation::End => "There was an error ending the shell session."@,
            Operation::Wait => "There was an error waiting for the shell session to exit"@,
            Operation::CheckStatus => "There was an error getting the shell session exit code."@,
            Operation::UserConfig => "There was an error getting the user configuration file."@,
            Operation::SystemInfo => "There was an error getting the user configuration file."@,
        }
    }

    /// The sentence shown to the user when the operation fails.
    pub fn failure_message(self) -> (text: String)
        ensures
            text@ == self.failure_text(),
    {
        match self {
            Operation::Create => "There was an error creating the shell session.".to_owned(),
            Operation::Write => "There was an error writing to the shell session.".to_owned(),
            Operation::Read => "There was an error reading from the shell session.".to_owned(),
            Operation::Resize => "There was an error resizing the shell session.".to_owned(),
            Operation::End => "There was an error ending the shell session.".to_owned(),
            Operation::Wait => "There was an error waiting for the shell session to exit".to_owned(),
            Operation::CheckStatus =>
                "There was an error getting the shell session exit code.".to_owned(),
            Operation::UserConfig =>
                "There was an error getting the user configuration file.".to_owned(),
            Operation::SystemInfo =>
                "There was an error getting the user configuration file.".to_owned(),
        }
    }
}

/// The steps that the host carries out on behalf of an operation, each of
/// which can fail.
#[derive(Clone, Copy, Debug, PartialEq, Eq, Structural)]
pub enum Step {
    BuildCommand,
    OpenPty,
    TakeWriter,
    CloneReader,
    Spawn,
    WriteAll,
    Read,
    Resize,
    KillTree,
    Wait,
    TryWait,
    Encode,
}

impl Step {
    /// The tag by which a log line names the step.
    pub open spec fn origin_text(self) -> Seq<char> {
        match self {
            Step::BuildCommand => "CommandBuilder::arg"@,
            Step::OpenPty => "pty_system.openpty"@,
            Step::TakeWriter => "pair.master.take_writer"@,
            Step::CloneReader => "pair.master.try_clone_reader"@,
            Step::Spawn => "pair.slave.spawn_command"@,
            Step::WriteAll => "session.clone().writer.lock().await.write_all"@,
            Step::Read => "session.reader.lock().await.read"@,
            Step::Resize => "session.pair.lock().await.master.resize"@,
            Step::KillTree => "kill_tree::tokio::kill_tree_with_config().await"@,
            Step::Wait => "session.clone().child.lock().await.wait()"@,
            Step::TryWait => "session.child.lock().await.try_wait"@,
            Step::Encode => "serde_json::to_string"@,
        }
    }

    /// The tag by which a log line names the step.
    pub fn origin(self) -> (text: String)
        ensures
            text@ == self.origin_text(),
    {
        match self {
            Step::BuildCommand => "CommandBuilder::arg".to_owned(),
            Step::OpenPty => "pty_system.openpty".to_owned(),
            Step::TakeWriter => "pair.master.take_writer".to_owned(),
            Step::CloneReader => "pair.master.try_clone_reader".to_owned(),
            Step::Spawn => "pair.slave.spawn_command".to_owned(),
            Step::WriteAll => "session.clone().writer.lock().await.write_all".to_owned(),
            Step::Read => "session.reader.lock().await.read".to_owned(),
            Step::Resize => "session.pair.lock().await.master.resize".to_owned(),
            Step::KillTree => "kill_tree::tokio::kill_tree_with_config().await".to_owned(),
            Step::Wait => "session.clone().child.lock().await.wait()".to_owned(),
            Step::TryWait => "session.child.lock().await.try_wait".to_owned(),
            Step::Encode => "serde_json::to_string".to_owned(),
        }
    }
}

/// An error of the host's making, in the two forms in which it is passed
/// on: the plain message, and the full diagnostic.
#[derive(Debug)]
pub struct Fault {
    pub message: String,
    pub diagnostic: String,
}

/// A failed operation: the error that the caller gets, the line for the
/// log, and the one notification that the user sees.
#[derive(Debug)]
pub struct Failure {
    pub error: String,
    pub log: String,
    pub notification: NotificationEvent,
}

/// What a [`Failure`] holds, as plain mathematical values.
pub struct FailureView {
    pub error: Seq<char>,
    pub log: Seq<char>,
    pub notification: NotificationView,
}

impl View for Failure {
    type V = FailureView;

    open spec fn view(&self) -> FailureView {
        FailureView { error: self.error@, log: self.log@, notification: self.notification@ }
    }
}

/// The report of a step that failed with the message `message` and the
/// diagnostic `diagnostic`: the caller gets the message as it is, the log
/// names the step, and the user is shown the operation's sentence with the
/// diagnostic, at error level.
pub open spec fn step_failure(
    operation: Operation,
    step: Step,
    message: Seq<char>,
    diagnostic: Seq<char>,
) -> FailureView {
    FailureView {
        error: message,
        log: "Error on "@ + step.origin_text() + ": "@ + diagnostic,
        notification: NotificationView {
            level: Level::Error.spec_code(),
            message: operation.failure_text(),
            details: diagnostic,
        },
    }
}

/// The report for a handle under which no session stands.
pub open spec fn unavailable_handle(operation: Operation, handle: u32) -> FailureView {
    FailureView {
        error: "unavailable handle"@,
        log: "Error on state.sessions.read().await.get - session with pid="@ + decimal(handle as nat) + " not found"@,
        notification: NotificationView {
            level: Level::Error.spec_code(),
            message: operation.failure_text(),
            details: "Session not found for pid "@ + decimal(handle as nat),
        },
    }
}

/// The report for a shell that was spawned but has no process id.
pub open spec fn missing_process_id() -> FailureView {
    FailureView {
        error: "no process id for spawned child"@,
        log: "child.process_id() returned None"@,
        notification: NotificationView {
            level: Level::Error.spec_code(),
            message: "Could not open terminal"@,
            details: "When attempting to fork child process for new terminal instance, pid was not found"@,
        },
    }
}

/// Whatever fails, the user is told at error level: of a failed step with
/// the operation's sentence and the step's diagnostic, of a handle that is
/// not in the table with the operation's sentence.
pub proof fn lemma_failures_notify_at_error_level(
    operation: Operation,
    step: Step,
    message: Seq<char>,
    diagnostic: Seq<char>,
    handle: u32,
)
    ensures
        step_failure(operation, step, message, diagnostic).notification.level == 3,
        step_failure(operation, step, message, diagnostic).notification.message
            == operation.failure_text(),
        step_failure(operation, step, message, diagnostic).notification.details == diagnostic,
        unavailable_handle(operation, handle).notification.level == 3,
        unavailable_handle(operation, handle).notification.message == operation.failure_text(),
        unavailable_handle(operation, handle).error == "unavailable handle"@,
        missing_process_id().notification.level == 3,
{
}

impl Failure {
    /// Reports that `step` of `operation` failed with `fault`.
    pub fn of_step(operation: Operation, step: Step, fault: Fault) -> (failure: Self)
        ensures
            failure@ == step_failure(operation, step, fault.message@, fault.diagnostic@),
    {
        let origin = step.origin();
        let head = joined("Error on ", origin.as_str());
        let head = joined(head.as_str(), ": ");
        let log = joined(head.as_str(), fault.diagnostic.as_str());
        let notification = NotificationEvent::new(
            Level::Error,
            operation.failure_message(),
            fault.diagnostic,
        );
        Failure { error: fault.message, log, notification }
    }

    /// Reports that `operation` was asked for a handle that is not in the
    /// table.
    pub fn unavailable(operation: Operation, handle: u32) -> (failure: Self)
        ensures
            failure@ == unavailable_handle(operation, handle),
    {
        let number = render_decimal(handle);
        let head = joined("Error on state.sessions.read().await.get - session with pid=", number.as_str());
        let log = joined(head.as_str(), " not found");
        let details = joined("Session not found for pid ", number.as_str());
        let notification = NotificationEvent::new(
            Level::Error,
            operation.failure_message(),
            details,
        );
        Failure { error: "unavailable handle".to_owned(), log, notification }
    }

    /// Reports that the spawned shell has no process id.
    pub fn no_process_id() -> (failure: Self)
        ensures
            failure@ == missing_process_id(),
    {
        let notification = NotificationEvent::new(
            Level::Error,
            "Could not open terminal".to_owned(),
            "When attempting to fork child process for new terminal instance, pid was not found".to_owned(),
        );
        Failure {
            error: "no process id for spawned child".to_owned(),
            log: "child.process_id() returned None".to_owned(),
            notification,
        }
    }
}

/// Settles a step of `operation`: what the step produced is handed on, and
/// a fault becomes the failure that reports it.
pub fn settle<T>(operation: Operation, step: Step, outcome: Result<T, Fault>) -> (answer: Result<
    T,
    Failure,
>)
    ensures
        match outcome {
            Ok(value) => answer == Ok::<T, Failure>(value),
            Err(fault) => answer matches Err(failure) && failure@ == step_failure(
                operation,
                step,
                fault.message@,
                fault.diagnostic@,
            ),
        },
{
    match outcome {
        Ok(value) => Ok(value),
        Err(fault) => Err(Failure::of_step(operation, step, fault)),
    }
}

} // verus!
