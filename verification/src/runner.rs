//! Turning a configured command line into a concrete launch plan.
//!
//! The splitting of the command line and the PATH lookup go through outside
//! crates behind trusted wrappers; everything assembled around them is
//! verified. Spawning the planned process is blocking I/O and is left to the
//! caller.

use vstd::prelude::*;

use crate::config::CommandError;
use crate::config::ErrorModel;
use crate::envblock::{env_entries_spec, parse_env_block, EnvEntry, EnvPair};
use crate::text::{trim_spec, trim_str};

verus! {

/// What `winsplit::split` returns on a command line: its argument vector
/// under the VC++ 2008 splitting rules, a function of the text alone.
pub uninterp spec fn split_args(s: Seq<char>) -> Seq<Seq<char>>;

/// Relies on `winsplit::split`: splits a command line into arguments by the
/// VC++ 2008 rules; `split_args` names its result.
#[verifier::external_body]
fn split_command_line(s: &str) -> (r: Vec<String>)
    ensures
        r.deep_view() == split_args(s@),
{
    winsplit::split(s)
}

/// Relies on `which::which`: resolves a program name to the path of an
/// executable found on PATH. The outcome depends on the machine's file
/// system, so nothing is assumed of it; callers handle both cases.
#[verifier::external_body]
fn resolve_program(name: &str) -> (r: Option<String>) {
    match which::which(name) {
        Ok(path) => Some(path.to_string_lossy().into_owned()),
        Err(_) => None,
    }
}

/// Everything needed to spawn one run's child process.
#[derive(Clone, Debug, PartialEq, Eq)]
pub struct LaunchPlan {
    /// The absolute path of the program, as PATH resolution returned it.
    pub program: String,
    /// The arguments following the program name.
    pub args: Vec<String>,
    /// The working directory, when one is configured non-blank.
    pub working_dir: Option<String>,
    /// Environment overrides, additive over the inherited environment.
    pub env: Vec<EnvPair>,
}

/// The mathematical content of a [`LaunchPlan`].
pub struct PlanModel {
    pub program: Seq<char>,
    pub args: Seq<Seq<char>>,
    pub working_dir: Option<Seq<char>>,
    pub env: Seq<EnvEntry>,
}

impl View for LaunchPlan {
    type V = PlanModel;

    open spec fn view(&self) -> PlanModel {
        PlanModel {
            program: self.program@,
            args: self.args.deep_view(),
            working_dir: match self.working_dir {
                Some(ref d) => Some(d@),
                None => None,
            },
            env: self.env@.map_values(|p: EnvPair| p@),
        }
    }
}

/// The working directory a run uses: the configured one, trimmed, and only
/// when that leaves something.
pub open spec fn working_dir_spec(configured: Seq<char>) -> Option<Seq<char>> {
    if trim_spec(configured).len() == 0 {
        None
    } else {
        Some(trim_spec(configured))
    }
}

/// Assembles the launch plan around an already resolved program path: the
/// split arguments after the first, the trimmed working directory when
/// non-blank, and the parsed environment overrides.
fn build_plan(
    program: String,
    args: &Vec<String>,
    working_dir: &str,
    environments: &str,
) -> (p: LaunchPlan)
    requires
        args@.len() >= 1,
    ensures
        p@.program == program@,
        p@.args == args.deep_view().subrange(1, args.deep_view().len() as int),
        p@.working_dir == working_dir_spec(working_dir@),
        p@.env == env_entries_spec(environments@),
{
    let mut rest: Vec<String> = Vec::new();
    let n = args.len();
    let mut i: usize = 1;
    while i < n
        invariant
            1 <= i <= n,
            n == args@.len(),
            rest@ =~= args@.subrange(1, i as int),
        decreases n - i,
    {
        rest.push(args[i].clone());
        proof {
            assert(rest@ =~= args@.subrange(1, i + 1));
        }
        i = i + 1;
    }
    let wd = trim_str(working_dir);
    let working = if wd.unicode_len() == 0 {
        None
    } else {
        Some(String::from_str(wd))
    };
    let env = parse_env_block(environments);
    proof {
        assert(rest@ =~= args@.subrange(1, args@.len() as int));
        assert forall|k: int| 0 <= k < rest.deep_view().len() implies rest.deep_view()[k]
            == args.deep_view().subrange(1, args.deep_view().len() as int)[k] by {
            assert(rest@[k] == args@[k + 1]);
        }
        assert(rest.deep_view() =~= args.deep_view().subrange(1, args.deep_view().len() as int));
    }
    LaunchPlan { program, args: rest, working_dir: working, env }
}

/// Whether a command line is one that a run rejects as empty: blank text, or
/// text that splits into no arguments at all.
pub open spec fn command_is_empty(command: Seq<char>) -> bool {
    trim_spec(command).len() == 0 || split_args(trim_spec(command)).len() == 0
}

/// The argument vector of the trimmed command line.
pub open spec fn argv_spec(command: Seq<char>) -> Seq<Seq<char>> {
    split_args(trim_spec(command))
}

/// Turns the configured command line into a launch plan, or the error the
/// run reports instead: the split, the PATH lookup, the working directory
/// and the environment overrides of one run.
pub fn prepare_launch(command: &str, working_dir: &str, environments: &str) -> (r: Result<
    LaunchPlan,
    CommandError,
>)
    ensures
        command_is_empty(command@) <==> (r matches Err(e) && e@ == ErrorModel::EmptyCommand),
        !command_is_empty(command@) ==> (r matches Err(e) ==> e@ == ErrorModel::ProgramNotFound(
            argv_spec(command@)[0],
        )),
        r matches Ok(p) ==> {
            &&& !command_is_empty(command@)
            &&& p@.args == argv_spec(command@).subrange(1, argv_spec(command@).len() as int)
            &&& p@.working_dir == working_dir_spec(working_dir@)
            &&& p@.env == env_entries_spec(environments@)
        },
{
    let cmd = trim_str(command);
    if cmd.unicode_len() == 0 {
        return Err(CommandError::EmptyCommand);
    }
    let args = split_command_line(cmd);
    if args.len() == 0 {
        return Err(CommandError::EmptyCommand);
    }
    let name = args[0].clone();
    match resolve_program(name.as_str()) {
        None => Err(CommandError::ProgramNotFound(name)),
        Some(path) => Ok(build_plan(path, &args, working_dir, environments)),
    }
}

} // verus!
