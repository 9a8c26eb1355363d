use vstd::prelude::*;
use crate::paths::PathParts;

verus! {

/// A command-line argument or environment value: plain text, or a path.
pub enum Arg {
    Text(String),
    Path(PathParts),
}

pub enum ArgModel {
    Text(Seq<char>),
    Path(Seq<Seq<char>>),
}

impl View for Arg {
    type V = ArgModel;

    open spec fn view(&self) -> ArgModel {
        match self {
            Arg::Text(s) => ArgModel::Text(s@),
            Arg::Path(p) => ArgModel::Path(p@),
        }
    }
}

/// One environment variable handed to a child process.
pub struct EnvVar {
    pub name: String,
    pub value: Arg,
}

pub struct EnvVarModel {
    pub name: Seq<char>,
    pub value: ArgModel,
}

impl View for EnvVar {
    type V = EnvVarModel;

    open spec fn view(&self) -> EnvVarModel {
        EnvVarModel { name: self.name@, value: self.value@ }
    }
}

/// A child process to launch: program, arguments, working directory (the
/// caller's own where `None`), and the variables added to the inherited
/// environment.
pub struct CommandSpec {
    pub program: String,
    pub args: Vec<Arg>,
    pub cwd: Option<PathParts>,
    pub env: Vec<EnvVar>,
}

pub struct CommandModel {
    pub program: Seq<char>,
    pub args: Seq<ArgModel>,
    pub cwd: Option<Seq<Seq<char>>>,
    pub env: Seq<EnvVarModel>,
}

pub open spec fn opt_path_view(p: Option<PathParts>) -> Option<Seq<Seq<char>>> {
    match p {
        Some(q) => Some(q@),
        None => None,
    }
}

impl View for CommandSpec {
    type V = CommandModel;

    open spec fn view(&self) -> CommandModel {
        CommandModel {
            program: self.program@,
            args: self.args@.map_values(|a: Arg| a@),
            cwd: opt_path_view(self.cwd),
            env: self.env@.map_values(|v: EnvVar| v@),
        }
    }
}

/// Whether the variable `name` is set by a list of additions.
pub open spec fn sets_var(env: Seq<EnvVarModel>, name: Seq<char>) -> bool {
    exists|i: int| 0 <= i < env.len() && (#[trigger] env[i]).name == name
}

/// What a finished child process reported: its exit status and its output
/// streams as text, or the reason it could not be launched.
pub enum ProcessOutcome {
    Exited { success: bool, stdout: String, stderr: String },
    LaunchFailed(String),
}

pub enum ProcessOutcomeModel {
    Exited { success: bool, stdout: Seq<char>, stderr: Seq<char> },
    LaunchFailed(Seq<char>),
}

impl View for ProcessOutcome {
    type V = ProcessOutcomeModel;

    open spec fn view(&self) -> ProcessOutcomeModel {
        match self {
            ProcessOutcome::Exited { success, stdout, stderr } => ProcessOutcomeModel::Exited {
                success: *success,
                stdout: stdout@,
                stderr: stderr@,
            },
            ProcessOutcome::LaunchFailed(e) => ProcessOutcomeModel::LaunchFailed(e@),
        }
    }
}

/// Whether a process ran and exited with success.
pub open spec fn succeeded(o: ProcessOutcomeModel) -> bool {
    o matches ProcessOutcomeModel::Exited { success, .. } && success
}

impl ProcessOutcome {
    /// Whether the process ran and exited with success.
    pub fn is_success(&self) -> (r: bool)
        ensures
            r == succeeded(self@),
    {
        match self {
            ProcessOutcome::Exited { success, .. } => *success,
            ProcessOutcome::LaunchFailed(_) => false,
        }
    }
}

/// A list of text arguments.
pub fn text_args(words: &[&str]) -> (r: Vec<Arg>)
    ensures
        r@.map_values(|a: Arg| a@) == words@.map_values(|w: &str| ArgModel::Text(w@)),
{
    let mut out: Vec<Arg> = Vec::new();
    let n = words.len();
    for i in 0..n
        invariant
            n == words@.len(),
            out@.len() == i,
            forall|k: int| 0 <= k < i ==> #[trigger] out@[k]@ == ArgModel::Text(words@[k]@),
    {
        out.push(Arg::Text(String::from_str(words[i])));
    }
    assert(out@.map_values(|a: Arg| a@) =~= words@.map_values(|w: &str| ArgModel::Text(w@)));
    out
}

} // verus!
