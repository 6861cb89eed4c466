//! Building the command that a new session spawns.

use crate::failure::{step_failure, Failure, FailureView, Fault, Operation, Step};
use crate::launch::LaunchPlan;
use crate::string_map::StringMap;
use crate::text::texts;
use portable_pty::CommandBuilder;
use vstd::prelude::*;

verus! {

/// The command builder of the pty library. Nothing of its inside is known
/// here; what it holds is spoken of through [`command_argv`],
/// [`command_cwd`], [`command_env`] and [`command_overlay`].
#[verifier::external_type_specification]
#[verifier::external_body]
pub struct ExCommandBuilder(portable_pty::CommandBuilder);

/// The argument vector that `command` holds, program first, as `get_argv`
/// gives it; each argument as text.
pub uninterp spec fn command_argv(command: CommandBuilder) -> Seq<Seq<char>>;

/// The working directory that `command` was given, as `get_cwd` gives it.
pub uninterp spec fn command_cwd(command: CommandBuilder) -> Option<Seq<char>>;

/// The environment of `command`: each name for which `get_env` finds a
/// value, with that value as text.
pub uninterp spec fn command_env(command: CommandBuilder) -> Map<Seq<char>, Seq<char>>;

/// The variables that were set on `command` by hand, as
/// `iter_extra_env_as_str` hands them out: each name that was given to
/// `env` and still stands, with its value. What the builder took from the
/// environment of the process is not among them.
pub uninterp spec fn command_overlay(command: CommandBuilder) -> Map<Seq<char>, Seq<char>>;

/// Calls `CommandBuilder::new`. The contract claims that the argument
/// vector is the program alone, that no working directory is set and that
/// no variable is set by hand. It claims nothing of the environment, which
/// the builder takes from the process.
#[verifier::external_body]
fn command_for(program: &str) -> (command: CommandBuilder)
    ensures
        command_argv(command) == seq![program@],
        command_cwd(command) is None,
        forall|name: Seq<char>| !(#[trigger] command_overlay(command).contains_key(name)),
{
    CommandBuilder::new(program)
}

/// Calls `CommandBuilder::new_default_prog`. The contract claims that the
/// argument vector is empty, that no working directory is set and that no
/// variable is set by hand.
#[verifier::external_body]
fn command_for_default_program() -> (command: CommandBuilder)
    ensures
        command_argv(command) == Seq::<Seq<char>>::empty(),
        command_cwd(command) is None,
        forall|name: Seq<char>| !(#[trigger] command_overlay(command).contains_key(name)),
{
    CommandBuilder::new_default_prog()
}

/// Calls `CommandBuilder::arg`, which panics on a builder without a
/// program: such a builder is left out. The contract claims that the
/// argument goes last and that directory, environment and the variables
/// set by hand stay.
#[verifier::external_body]
fn push_argument(command: &mut CommandBuilder, argument: &str)
    requires
        command_argv(*old(command)).len() > 0,
    ensures
        command_argv(*final(command)) == command_argv(*old(command)).push(argument@),
        command_cwd(*final(command)) == command_cwd(*old(command)),
        command_env(*final(command)) == command_env(*old(command)),
        command_overlay(*final(command)) == command_overlay(*old(command)),
{
    command.arg(argument)
}

/// Calls `CommandBuilder::cwd`. The contract claims that the directory is
/// the given one afterwards and that arguments, environment and the
/// variables set by hand stay.
#[verifier::external_body]
fn set_directory(command: &mut CommandBuilder, directory: &str)
    ensures
        command_cwd(*final(command)) == Some(directory@),
        command_argv(*final(command)) == command_argv(*old(command)),
        command_env(*final(command)) == command_env(*old(command)),
        command_overlay(*final(command)) == command_overlay(*old(command)),
{
    command.cwd(directory)
}

/// Calls `CommandBuilder::env`. The contract claims that `name` has the
/// value `value` afterwards, in the environment and among the variables set
/// by hand, and that arguments and directory stay. Of other names it claims
/// only what holds whether or not the platform tells names apart by case: a
/// name that had a value in the environment has one still, the same as
/// before or `value`; and every other name among the variables set by hand
/// was among them before, with the same value.
#[verifier::external_body]
fn set_variable(command: &mut CommandBuilder, name: &str, value: &str)
    ensures
        command_env(*final(command)).contains_key(name@),
        command_env(*final(command))[name@] == value@,
        forall|other: Seq<char>| #[trigger]
            command_env(*old(command)).contains_key(other) ==> command_env(
                *final(command),
            ).contains_key(other) && (command_env(*final(command))[other] == command_env(
                *old(command),
            )[other] || command_env(*final(command))[other] == value@),
        command_overlay(*final(command)).contains_key(name@),
        command_overlay(*final(command))[name@] == value@,
        forall|other: Seq<char>|
            other != name@ && #[trigger] command_overlay(*final(command)).contains_key(other)
                ==> command_overlay(*old(command)).contains_key(other) && command_overlay(
                *old(command),
            )[other] == command_overlay(*final(command))[other],
        command_argv(*final(command)) == command_argv(*old(command)),
        command_cwd(*final(command)) == command_cwd(*old(command)),
{
    command.env(name, value)
}

/// The argument vector that a plan asks for: the program, then the
/// arguments; empty where the platform's default shell is to run.
pub open spec fn planned_argv(plan: LaunchPlan) -> Seq<Seq<char>> {
    match plan.program {
        Some(program) => seq![program@] + texts(plan.args@),
        None => Seq::<Seq<char>>::empty(),
    }
}

/// Whether a plan can be built: the platform's default shell takes no
/// arguments.
pub open spec fn buildable(plan: LaunchPlan) -> bool {
    plan.program is Some || plan.args@.len() == 0
}

/// Whether the first `count` of `variables` lie over the environment
/// `env`: each of their names has a value in `env`, its own or that of one
/// of them that was set after it (which happens only where the platform
/// does not tell the two names apart).
pub open spec fn overlaid_first(
    env: Map<Seq<char>, Seq<char>>,
    variables: StringMap,
    count: int,
) -> bool {
    forall|i: int|
        0 <= i < count ==> env.contains_key(#[trigger] variables.keys()[i]) && exists|j: int|
            i <= j < count && env[variables.keys()[i]] == variables@[#[trigger] variables.keys()[j]]
}

/// Whether all of `variables` lie over the environment `env`.
pub open spec fn overlaid(env: Map<Seq<char>, Seq<char>>, variables: StringMap) -> bool {
    overlaid_first(env, variables, variables.keys().len() as int)
}

/// Whether every variable of `overlay` is one of `variables`, with the
/// same value: nothing is set that `variables` do not name.
pub open spec fn within(
    overlay: Map<Seq<char>, Seq<char>>,
    variables: Map<Seq<char>, Seq<char>>,
) -> bool {
    forall|name: Seq<char>| #[trigger]
        overlay.contains_key(name) ==> variables.contains_key(name) && overlay[name]
            == variables[name]
}

/// The report for a plan that names arguments but no program.
pub open spec fn arguments_without_program() -> FailureView {
    step_failure(
        Operation::Create,
        Step::BuildCommand,
        "attempted to add args to a default_prog builder"@,
        "attempted to add args to a default_prog builder"@,
    )
}

/// Builds the command for `plan`, to run in `cwd` if one is given.
///
/// A plan that names arguments for the platform's default shell cannot be
/// built and is reported as a failed create. Otherwise the command holds
/// the program and the arguments in order, the directory as given, and the
/// plan's variables laid over the environment of the process: each of them
/// has a value there, and no variable is set by hand but the plan's own,
/// each with the plan's value.
pub fn build_command(plan: &LaunchPlan, cwd: &Option<String>) -> (answer: Result<
    CommandBuilder,
    Failure,
>)
    ensures
        !buildable(*plan) ==> (answer matches Err(failure) && failure@
            == arguments_without_program()),
        buildable(*plan) ==> (answer matches Ok(command) && {
            &&& command_argv(command) == planned_argv(*plan)
            &&& command_cwd(command) == match *cwd {
                Some(directory) => Some(directory@),
                None => None,
            }
            &&& overlaid(command_env(command), plan.env)
            &&& within(command_overlay(command), plan.env@)
        }),
{
    let mut command = match &plan.program {
        Some(program) => command_for(program.as_str()),
        None => {
            if plan.args.len() > 0 {
                return Err(
                    Failure::of_step(
                        Operation::Create,
                        Step::BuildCommand,
                        Fault {
                            message: "attempted to add args to a default_prog builder".to_owned(),
                            diagnostic: "attempted to add args to a default_prog builder".to_owned(),
                        },
                    ),
                );
            }
            command_for_default_program()
        },
    };
    if plan.program.is_some() {
        let mut i: usize = 0;
        while i < plan.args.len()
            invariant
                i <= plan.args@.len(),
                plan.program is Some,
                command_cwd(command) is None,
                forall|name: Seq<char>| !(#[trigger] command_overlay(command).contains_key(name)),
                command_argv(command) == seq![plan.program.unwrap()@] + texts(plan.args@).take(
                    i as int,
                ),
            decreases plan.args@.len() - i,
        {
            push_argument(&mut command, plan.args[i].as_str());
            proof {
                assert(texts(plan.args@).take(i + 1) =~= texts(plan.args@).take(i as int).push(
                    plan.args@[i as int]@,
                ));
                assert(command_argv(command) =~= seq![plan.program.unwrap()@] + texts(
                    plan.args@,
                ).take(i + 1));
            }
            i += 1;
        }
        proof {
            assert(texts(plan.args@).take(i as int) =~= texts(plan.args@));
        }
    }
    match cwd {
        Some(directory) => {
            set_directory(&mut command, directory.as_str());
        },
        None => {},
    }
    let count = plan.env.len();
    let mut k: usize = 0;
    while k < count
        invariant
            k <= count,
            count == plan.env.keys().len(),
            plan.env.keys_match_view(),
            command_argv(command) == planned_argv(*plan),
            command_cwd(command) == match *cwd {
                Some(directory) => Some(directory@),
                None => None,
            },
            overlaid_first(command_env(command), plan.env, k as int),
            within(command_overlay(command), plan.env@),
        decreases count - k,
    {
        let ghost before = command_env(command);
        let ghost names = plan.env.keys();
        let name = plan.env.key_at(k);
        let value = plan.env.value_at(k);
        set_variable(&mut command, name.as_str(), value.as_str());
        proof {
            let after = command_env(command);
            assert forall|a: int| 0 <= a < k + 1 implies after.contains_key(#[trigger] names[a])
                && exists|b: int|
                a <= b < k + 1 && after[names[a]] == plan.env@[#[trigger] names[b]] by {
                if a == k {
                    assert(after[names[a]] == plan.env@[names[k as int]]);
                } else {
                    assert(before.contains_key(names[a]));
                    let b = choose|b: int|
                        a <= b < k && before[names[a]] == plan.env@[#[trigger] names[b]];
                    if after[names[a]] == before[names[a]] {
                        assert(after[names[a]] == plan.env@[names[b]]);
                    } else {
                        assert(after[names[a]] == plan.env@[names[k as int]]);
                    }
                }
            }
        }
        k += 1;
    }
    Ok(command)
}

} // verus!
