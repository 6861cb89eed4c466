//! How a new session is launched: which program runs with which arguments
//! and environment, at what size, in which directory, and in what order the
//! host carries out the steps.

use crate::config::Shell;
use crate::failure::{step_failure, Failure, FailureView, Fault, Operation, Step};
use crate::session::TerminalSize;
use crate::string_map::StringMap;
use crate::text::{clone_texts, texts};
use vstd::prelude::*;

verus! {

/// The width of a new terminal where the request names none.
pub const DEFAULT_COLS: u16 = 200;

/// The height of a new terminal where the request names none.
pub const DEFAULT_ROWS: u16 = 100;

/// What a request for a new session may override.
#[derive(Debug)]
pub struct SessionRequest {
    pub args: Option<Vec<String>>,
    pub cols: Option<u16>,
    pub rows: Option<u16>,
    pub env: Option<StringMap>,
}

/// What the host is to launch. No `program` stands for the platform's
/// default shell.
#[derive(Debug)]
pub struct LaunchPlan {
    pub program: Option<String>,
    pub args: Vec<String>,
    pub env: StringMap,
    pub size: TerminalSize,
}

/// The arguments that a launch uses: those of the request if it names any,
/// else those of the configuration.
pub open spec fn effective_args(configured: Seq<String>, requested: Option<Vec<String>>) -> Seq<
    Seq<char>,
> {
    match requested {
        Some(args) => texts(args@),
        None => texts(configured),
    }
}

/// The environment that a launch lays over the process's own: that of the
/// request if it names one, else that of the configuration.
pub open spec fn effective_env(
    configured: Map<Seq<char>, Seq<char>>,
    requested: Option<StringMap>,
) -> Map<Seq<char>, Seq<char>> {
    match requested {
        Some(env) => env@,
        None => configured,
    }
}

/// The size that a launch uses: each of the two dimensions is that of the
/// request if it names one, else the default; pixel dimensions are not
/// tracked.
pub open spec fn effective_size(cols: Option<u16>, rows: Option<u16>) -> TerminalSize {
    TerminalSize {
        rows: match rows {
            Some(r) => r,
            None => DEFAULT_ROWS,
        },
        cols: match cols {
            Some(c) => c,
            None => DEFAULT_COLS,
        },
        pixel_width: 0,
        pixel_height: 0,
    }
}

/// Resolves what to launch from the configured shell and the request.
///
/// The program is always the configured one. Arguments, environment,
/// columns and rows are each taken from the request where it names them and
/// from the configuration or the defaults where it does not, one
/// independently of the other.
pub fn plan_session(shell: &Shell, request: SessionRequest) -> (plan: LaunchPlan)
    ensures
        shell.program@.len() == 0 ==> plan.program is None,
        shell.program@.len() != 0 ==> (plan.program matches Some(p) && p@ == shell.program@),
        texts(plan.args@) == effective_args(shell.args@, request.args),
        plan.env@ == effective_env(shell.env@, request.env),
        plan.size == effective_size(request.cols, request.rows),
{
    let program = if shell.program.as_str().is_empty() {
        None
    } else {
        Some(shell.program.clone())
    };
    let args = match request.args {
        Some(args) => args,
        None => clone_texts(&shell.args),
    };
    let env = match request.env {
        Some(env) => env,
        None => shell.env.clone(),
    };
    let cols = match request.cols {
        Some(c) => c,
        None => DEFAULT_COLS,
    };
    let rows = match request.rows {
        Some(r) => r,
        None => DEFAULT_ROWS,
    };
    LaunchPlan { program, args, env, size: TerminalSize { rows, cols, pixel_width: 0, pixel_height: 0 } }
}

/// What the host has to find out next before the working directory of a
/// new session is known.
#[derive(Debug)]
pub enum CwdProbe {
    /// Whether this requested directory exists.
    Requested(String),
    /// The working directory of this process, and whether it exists.
    Referring(u32),
    /// Nothing: the shell starts in its own default directory.
    Unspecified,
}

/// What is known of the working directory once the requested directory has
/// been looked at.
#[derive(Debug)]
pub enum CwdAnswer {
    /// The shell starts in this directory.
    Use(String),
    /// The directory of this referring process is to be looked at next.
    Look(u32),
    /// The shell starts in its own default directory.
    Unset,
}

/// The working directory that a new session is owed.
///
/// `requested` is the directory that the request names and
/// `requested_exists` whether it is on disk; `referring` is the referring
/// session that the request names, `referring_directory` the working
/// directory of its process, if that could be inspected, and
/// `referring_exists` whether that directory is on disk. The requested
/// directory is used if it exists; else that of the referring process if
/// there is one and it exists; else none, which leaves the shell in its own
/// default directory.
pub open spec fn working_directory(
    requested: Option<Seq<char>>,
    requested_exists: bool,
    referring: Option<u32>,
    referring_directory: Option<Seq<char>>,
    referring_exists: bool,
) -> Option<Seq<char>> {
    if requested is Some && requested_exists {
        requested
    } else if referring is Some && referring_directory is Some && referring_exists {
        referring_directory
    } else {
        None
    }
}

/// What is looked at first: the requested directory if there is one, else
/// the referring process if there is one.
pub open spec fn first_probe(requested: Option<String>, referring: Option<u32>) -> CwdProbe {
    match requested {
        Some(path) => CwdProbe::Requested(path),
        None => match referring {
            Some(handle) => CwdProbe::Referring(handle),
            None => CwdProbe::Unspecified,
        },
    }
}

/// What follows from a look at the requested directory `path`: it is used
/// if it exists; if it does not, the referring process is looked at next,
/// if there is one.
pub open spec fn after_requested(path: String, exists: bool, referring: Option<u32>) -> CwdAnswer {
    if exists {
        CwdAnswer::Use(path)
    } else {
        match referring {
            Some(handle) => CwdAnswer::Look(handle),
            None => CwdAnswer::Unset,
        }
    }
}

/// What follows from a look at the referring process: its directory, if
/// the process could be inspected, has one and it exists.
pub open spec fn after_referring(directory: Option<String>, exists: bool) -> Option<String> {
    if exists {
        directory
    } else {
        None
    }
}

/// Decides what to look at first for the working directory of a new
/// session.
pub fn cwd_probe(requested: Option<String>, referring: Option<u32>) -> (probe: CwdProbe)
    ensures
        probe == first_probe(requested, referring),
{
    match requested {
        Some(path) => CwdProbe::Requested(path),
        None => match referring {
            Some(handle) => CwdProbe::Referring(handle),
            None => CwdProbe::Unspecified,
        },
    }
}

/// Decides what follows from a look at the requested directory `path`,
/// where `exists` says whether it is on disk and `referring` is the
/// referring session of the request, if it names one.
pub fn cwd_from_requested(path: String, exists: bool, referring: Option<u32>) -> (next: CwdAnswer)
    ensures
        next == after_requested(path, exists, referring),
{
    if exists {
        CwdAnswer::Use(path)
    } else {
        match referring {
            Some(handle) => CwdAnswer::Look(handle),
            None => CwdAnswer::Unset,
        }
    }
}

/// The working directory taken from a referring process: `directory` is
/// its working directory, if the process could be inspected and has one,
/// and `exists` says whether that directory is on disk.
pub fn cwd_from_referring(directory: Option<String>, exists: bool) -> (cwd: Option<String>)
    ensures
        cwd == after_referring(directory, exists),
{
    if exists {
        directory
    } else {
        None
    }
}

/// The text of a directory, if there is one.
pub open spec fn directory_text(directory: Option<String>) -> Option<Seq<char>> {
    match directory {
        Some(path) => Some(path@),
        None => None,
    }
}

/// The directory that the looks arrive at, taken one after the other as
/// the host takes them: the first probe, then what follows from the
/// requested directory, then what follows from the referring process.
pub open spec fn directory_found(
    requested: Option<String>,
    requested_exists: bool,
    referring: Option<u32>,
    referring_directory: Option<String>,
    referring_exists: bool,
) -> Option<String> {
    match first_probe(requested, referring) {
        CwdProbe::Requested(path) => match after_requested(path, requested_exists, referring) {
            CwdAnswer::Use(directory) => Some(directory),
            CwdAnswer::Look(_) => after_referring(referring_directory, referring_exists),
            CwdAnswer::Unset => None,
        },
        CwdProbe::Referring(_) => after_referring(referring_directory, referring_exists),
        CwdProbe::Unspecified => None,
    }
}

/// The looks arrive at the working directory that the session is owed. In
/// particular a requested directory that does not exist gives way to the
/// directory of the referring process.
pub proof fn lemma_looks_find_the_working_directory(
    requested: Option<String>,
    requested_exists: bool,
    referring: Option<u32>,
    referring_directory: Option<String>,
    referring_exists: bool,
)
    ensures
        directory_text(
            directory_found(
                requested,
                requested_exists,
                referring,
                referring_directory,
                referring_exists,
            ),
        ) == working_directory(
            directory_text(requested),
            requested_exists,
            referring,
            directory_text(referring_directory),
            referring_exists,
        ),
{
}

/// The steps by which the host creates a session on the system.
#[derive(Clone, Copy, Debug, PartialEq, Eq, Structural)]
pub enum CreationStep {
    /// Open a pty of the planned size.
    OpenPty,
    /// Take the writer of the master side.
    TakeWriter,
    /// Clone the reader of the master side.
    CloneReader,
    /// Spawn the command on the slave side.
    Spawn,
}

impl CreationStep {
    /// The step as failures name it.
    pub open spec fn spec_step(self) -> Step {
        match self {
            CreationStep::OpenPty => Step::OpenPty,
            CreationStep::TakeWriter => Step::TakeWriter,
            CreationStep::CloneReader => Step::CloneReader,
            CreationStep::Spawn => Step::Spawn,
        }
    }

    /// The step as failures name it.
    #[verifier::when_used_as_spec(spec_step)]
    pub fn step(self) -> (step: Step)
        ensures
            step == self.spec_step(),
    {
        match self {
            CreationStep::OpenPty => Step::OpenPty,
            CreationStep::TakeWriter => Step::TakeWriter,
            CreationStep::CloneReader => Step::CloneReader,
            CreationStep::Spawn => Step::Spawn,
        }
    }
}

/// The steps of a creation in the order in which they are carried out.
pub open spec fn creation_order() -> Seq<CreationStep> {
    seq![
        CreationStep::OpenPty,
        CreationStep::TakeWriter,
        CreationStep::CloneReader,
        CreationStep::Spawn,
    ]
}

/// The step that comes after `step`, if any does.
pub open spec fn following(step: CreationStep) -> Option<CreationStep> {
    match step {
        CreationStep::OpenPty => Some(CreationStep::TakeWriter),
        CreationStep::TakeWriter => Some(CreationStep::CloneReader),
        CreationStep::CloneReader => Some(CreationStep::Spawn),
        CreationStep::Spawn => None,
    }
}

#[derive(Debug)]
enum Stage {
    Perform(CreationStep),
    Failed(Failure),
    Complete,
}

/// Where the creation of a session stands. A creation begins with
/// [`begin_creation`] and moves on only through [`advance_creation`], so
/// the host cannot take a step out of turn.
#[derive(Debug)]
pub struct Creation {
    stage: Stage,
}

/// Where a creation stands, as plain mathematical values.
pub enum CreationView {
    /// The host is to carry out this step next.
    Perform(CreationStep),
    /// A step failed: the creation has ended with this report, and nothing
    /// is entered into the table.
    Failed(FailureView),
    /// Every step went well: the session can be entered into the table.
    Complete,
}

impl View for Creation {
    type V = CreationView;

    closed spec fn view(&self) -> CreationView {
        match self.stage {
            Stage::Perform(step) => CreationView::Perform(step),
            Stage::Failed(failure) => CreationView::Failed(failure@),
            Stage::Complete => CreationView::Complete,
        }
    }
}

/// Where a creation that stood at `state` stands once the step that it
/// asked for gave `outcome`: at the following step if the step went well,
/// complete if it was the last, and failed with the step's report if it did
/// not. A creation that has failed or is complete stays as it is.
pub open spec fn creation_after(state: CreationView, outcome: Result<(), Fault>) -> CreationView {
    match state {
        CreationView::Perform(step) => match outcome {
            Ok(_) => match following(step) {
                Some(next) => CreationView::Perform(next),
                None => CreationView::Complete,
            },
            Err(fault) => CreationView::Failed(
                step_failure(Operation::Create, step.spec_step(), fault.message@, fault.diagnostic@),
            ),
        },
        CreationView::Failed(failure) => CreationView::Failed(failure),
        CreationView::Complete => CreationView::Complete,
    }
}

/// Where a creation stands after the steps that it asked for gave
/// `outcomes`, one after the other.
pub open spec fn creation_reached(outcomes: Seq<Result<(), Fault>>) -> CreationView
    decreases outcomes.len(),
{
    if outcomes.len() == 0 {
        CreationView::Perform(CreationStep::OpenPty)
    } else {
        creation_after(creation_reached(outcomes.drop_last()), outcomes.last())
    }
}

/// Begins the creation of a session: the pty is opened first.
pub fn begin_creation() -> (creation: Creation)
    ensures
        creation@ == creation_reached(Seq::<Result<(), Fault>>::empty()),
        creation@ == CreationView::Perform(CreationStep::OpenPty),
{
    Creation { stage: Stage::Perform(CreationStep::OpenPty) }
}

/// Moves a creation on, once the host has carried out the step that it
/// asked for and the step gave `outcome`.
pub fn advance_creation(creation: Creation, outcome: Result<(), Fault>) -> (next: Creation)
    ensures
        next@ == creation_after(creation@, outcome),
{
    match creation.stage {
        Stage::Perform(step) => match outcome {
            Ok(_) => match step {
                CreationStep::OpenPty => Creation { stage: Stage::Perform(CreationStep::TakeWriter) },
                CreationStep::TakeWriter => Creation {
                    stage: Stage::Perform(CreationStep::CloneReader),
                },
                CreationStep::CloneReader => Creation { stage: Stage::Perform(CreationStep::Spawn) },
                CreationStep::Spawn => Creation { stage: Stage::Complete },
            },
            Err(fault) => Creation {
                stage: Stage::Failed(Failure::of_step(Operation::Create, step.step(), fault)),
            },
        },
        Stage::Failed(failure) => Creation { stage: Stage::Failed(failure) },
        Stage::Complete => Creation { stage: Stage::Complete },
    }
}

impl Creation {
    /// The step that the host is to carry out next; none once the creation
    /// has failed or is complete.
    pub fn next_step(&self) -> (step: Option<CreationStep>)
        ensures
            match self@ {
                CreationView::Perform(asked) => step == Some(asked),
                _ => step is None,
            },
    {
        match &self.stage {
            Stage::Perform(step) => Some(*step),
            _ => None,
        }
    }

    /// Takes the creation's turn: the step to carry out with the creation
    /// to move on afterwards, or the report of the step that failed, or
    /// word that every step went well.
    pub fn turn(self) -> (turn: CreationTurn)
        ensures
            match self@ {
                CreationView::Perform(asked) => turn matches CreationTurn::Perform(step, pending)
                    && step == asked && pending@ == self@,
                CreationView::Failed(report) => turn matches CreationTurn::Failed(failure)
                    && failure@ == report,
                CreationView::Complete => turn is Complete,
            },
    {
        match self.stage {
            Stage::Perform(step) => CreationTurn::Perform(
                step,
                Creation { stage: Stage::Perform(step) },
            ),
            Stage::Failed(failure) => CreationTurn::Failed(failure),
            Stage::Complete => CreationTurn::Complete,
        }
    }
}

/// What a creation asks of the host at its turn.
#[derive(Debug)]
pub enum CreationTurn {
    /// Carry out this step, then move this creation on with the outcome.
    Perform(CreationStep, Creation),
    /// A step failed: report this, and enter nothing into the table.
    Failed(Failure),
    /// Every step went well: enter the session into the table.
    Complete,
}

/// A creation carries out its steps in order and ends at the first that
/// fails. It asks for a step only after every step before it went well, and
/// it is complete only after all of them went well. A creation that failed
/// did so at one of its steps.
pub proof fn lemma_creation_keeps_order(outcomes: Seq<Result<(), Fault>>)
    ensures
        match creation_reached(outcomes) {
            CreationView::Perform(step) => {
                &&& outcomes.len() < creation_order().len()
                &&& step == creation_order()[outcomes.len() as int]
                &&& forall|j: int| 0 <= j < outcomes.len() ==> (#[trigger] outcomes[j]) is Ok
            },
            CreationView::Complete => {
                &&& outcomes.len() >= creation_order().len()
                &&& forall|j: int|
                    0 <= j < creation_order().len() ==> (#[trigger] outcomes[j]) is Ok
            },
            CreationView::Failed(_) => exists|j: int|
                0 <= j < outcomes.len() && j < creation_order().len() && (#[trigger] outcomes[j]) is Err,
        },
    decreases outcomes.len(),
{
    if outcomes.len() > 0 {
        let earlier = outcomes.drop_last();
        lemma_creation_keeps_order(earlier);
        assert(forall|j: int| 0 <= j < earlier.len() ==> earlier[j] == outcomes[j]);
        match creation_reached(earlier) {
            CreationView::Perform(step) => {
                if outcomes.last() is Err {
                    assert(outcomes[outcomes.len() - 1] is Err);
                }
            },
            CreationView::Complete => {},
            CreationView::Failed(_) => {
                let j = choose|j: int|
                    0 <= j < earlier.len() && j < creation_order().len() && (#[trigger] earlier[j]) is Err;
                assert(outcomes[j] is Err);
            },
        }
    }
}

/// The writer and the reader of the master side are both taken before the
/// shell is spawned, so that nothing the shell prints can be lost between
/// its start and the first read.
pub proof fn lemma_streams_are_taken_before_spawn()
    ensures
        creation_order().index_of(CreationStep::OpenPty) < creation_order().index_of(
            CreationStep::TakeWriter,
        ),
        creation_order().index_of(CreationStep::TakeWriter) < creation_order().index_of(
            CreationStep::Spawn,
        ),
        creation_order().index_of(CreationStep::CloneReader) < creation_order().index_of(
            CreationStep::Spawn,
        ),
        creation_order().no_duplicates(),
{
    let order = creation_order();
    assert(order[0] == CreationStep::OpenPty);
    assert(order[1] == CreationStep::TakeWriter);
    assert(order[2] == CreationStep::CloneReader);
    assert(order[3] == CreationStep::Spawn);
    assert(order.contains(CreationStep::OpenPty));
    assert(order.contains(CreationStep::TakeWriter));
    assert(order.contains(CreationStep::CloneReader));
    assert(order.contains(CreationStep::Spawn));
}

} // verus!
