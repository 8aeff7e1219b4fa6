//! The project's dependency manager, asked whether it provides a gem.

use vstd::prelude::*;
use vstd::string::*;
use crate::gateway::{
    interpret_run, run_result, text_result, CommandExecutor, CommandSpec, CommandView,
    ProcessOutput,
};
use crate::gemset::{copy_env, run};
use crate::text::{join, join_path};

verus! {

/// The manifest that `bundle` is pointed at: `<project>/Gemfile`.
pub open spec fn gemfile_path(workdir: Seq<char>) -> Seq<char> {
    join_path(workdir, "Gemfile"@)
}

/// `bundle info --version <name>`, in the ambient environment with the
/// manifest's path pinned last.
pub open spec fn bundle_info_command(
    workdir: Seq<char>,
    ambient: Seq<(Seq<char>, Seq<char>)>,
    name: Seq<char>,
) -> CommandView {
    CommandView {
        program: "bundle"@,
        args: seq!["info"@, "--version"@, name],
        envs: ambient.push(("BUNDLE_GEMFILE"@, gemfile_path(workdir))),
    }
}

/// What a run of `bundle info` comes to: the version text that it printed,
/// or an error with the status and the standard error.
pub open spec fn bundle_result(outcome: Result<ProcessOutput, String>) -> Result<
    Seq<char>,
    Seq<char>,
> {
    run_result(outcome, "'bundle' command failed"@, "Failed to execute 'bundle' command: "@)
}

/// Interprets a run of `bundle info`, see [`bundle_result`].
pub fn bundle_outcome(outcome: Result<ProcessOutput, String>) -> (r: Result<String, String>)
    ensures
        text_result(r) == bundle_result(outcome),
{
    interpret_run(outcome, "'bundle' command failed", "Failed to execute 'bundle' command: ")
}

/// The dependency manager of the project at `working_dir`.
pub struct Bundler {
    pub working_dir: String,
    pub envs: Vec<(String, String)>,
}

impl Bundler {
    pub fn new(working_dir: String, envs: Vec<(String, String)>) -> (r: Self)
        ensures
            r.working_dir@ == working_dir@,
            r.envs.deep_view() == envs.deep_view(),
    {
        Bundler { working_dir, envs }
    }

    /// The command that asks for the version of `name` in the bundle.
    pub fn info_command(&self, name: &str) -> (r: CommandSpec)
        ensures
            r@ == bundle_info_command(self.working_dir@, self.envs.deep_view(), name@),
    {
        let mut args: Vec<String> = Vec::new();
        args.push(String::from_str("info"));
        args.push(String::from_str("--version"));
        args.push(String::from_str(name));
        assert(args.deep_view() =~= seq!["info"@, "--version"@, name@]);
        let mut envs = copy_env(&self.envs);
        let ghost before = envs.deep_view();
        let entry = (String::from_str("BUNDLE_GEMFILE"), join(self.working_dir.as_str(), "Gemfile"));
        let ghost entry_view = entry.deep_view();
        envs.push(entry);
        assert(envs.deep_view() =~= before.push(entry_view));
        CommandSpec { program: String::from_str("bundle"), args, envs }
    }

    /// The version of `name` that the bundle holds, or why there is none.
    pub fn installed_gem_version<E: CommandExecutor>(&self, exec: &E, name: &str) -> (r: Result<
        String,
        String,
    >)
        ensures
            exists|o: Result<ProcessOutput, String>| text_result(r) == bundle_result(o),
    {
        let outcome = run(exec, self.info_command(name));
        bundle_outcome(outcome)
    }
}

} // verus!
