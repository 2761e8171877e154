//! The process-launch descriptor and the host capabilities that this
//! extension declines.

use vstd::prelude::*;
use vstd::string::*;

verus! {

/// How the host starts the language server.
#[derive(Clone, Debug, PartialEq, Eq)]
pub struct LaunchCommand {
    pub command: String,
    pub args: Vec<String>,
    pub env: Vec<(String, String)>,
}

/// Mathematical content of a [`LaunchCommand`].
pub struct LaunchCommandModel {
    pub command: Seq<char>,
    pub args: Seq<Seq<char>>,
    pub env: Seq<(Seq<char>, Seq<char>)>,
}

impl DeepView for LaunchCommand {
    type V = LaunchCommandModel;

    open spec fn deep_view(&self) -> LaunchCommandModel {
        LaunchCommandModel {
            command: self.command@,
            args: self.args.deep_view(),
            env: self.env.deep_view(),
        }
    }
}

/// The descriptor for a resolved binary: the binary is the command, it gets
/// no arguments, and the one environment variable `PATH` holds the binary's
/// own path (not its directory).
pub open spec fn launch_command_of(binary_path: Seq<char>) -> LaunchCommandModel {
    LaunchCommandModel {
        command: binary_path,
        args: Seq::empty(),
        env: seq![("PATH"@, binary_path)],
    }
}

/// Builds the launch descriptor for the executable at `binary_path`.
pub fn launch_command(binary_path: String) -> (command: LaunchCommand)
    ensures
        command.deep_view() == launch_command_of(binary_path@),
{
    let mut env: Vec<(String, String)> = Vec::new();
    env.push((String::from_str("PATH"), binary_path.clone()));
    let args: Vec<String> = Vec::new();
    proof {
        assert(env.deep_view() =~= seq![("PATH"@, binary_path@)]);
        assert(args.deep_view() =~= Seq::<Seq<char>>::empty());
    }
    LaunchCommand { command: binary_path, args, env }
}

/// Text of the failure reported for running a slash command.
pub open spec fn run_slash_command_refusal() -> Seq<char> {
    "`run_slash_command` not implemented"@
}

/// Text of the failure reported for indexing documentation.
pub open spec fn index_docs_refusal() -> Seq<char> {
    "`index_docs` not implemented"@
}

/// Completions offered for a slash command's argument: always none.
pub fn complete_slash_command_argument(args: &Vec<String>) -> (completions: Result<
    Vec<String>,
    String,
>)
    ensures
        completions is Ok,
        completions->Ok_0@.len() == 0,
{
    Ok(Vec::new())
}

/// Running a slash command is declined, whatever the arguments.
pub fn run_slash_command(args: &Vec<String>) -> (output: Result<String, String>)
    ensures
        output is Err,
        output->Err_0@ == run_slash_command_refusal(),
{
    Err(String::from_str("`run_slash_command` not implemented"))
}

/// Documentation packages suggested for a provider: always none.
pub fn suggest_docs_packages(provider: &str) -> (packages: Result<Vec<String>, String>)
    ensures
        packages is Ok,
        packages->Ok_0@.len() == 0,
{
    Ok(Vec::new())
}

/// Indexing documentation is declined, whatever the provider and package.
pub fn index_docs(provider: &str, package: &str) -> (outcome: Result<(), String>)
    ensures
        outcome is Err,
        outcome->Err_0@ == index_docs_refusal(),
{
    Err(String::from_str("`index_docs` not implemented"))
}

} // verus!
