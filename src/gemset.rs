//! A private gem cache: a gem home of our own, independent of any project.

use vstd::prelude::*;
use vstd::string::*;
use crate::gateway::{
    exited_zero, failure_text, run_error, succeeded, CommandExecutor, CommandSpec, CommandView,
    ProcessOutput,
};
use crate::listing::{listed_version, listing_mentions, opt_text, outdated_lists, version_in_listing};
use crate::text::{join, join_path};

verus! {

/// The view of a list of environment variables.
pub open spec fn env_view(v: Seq<(String, String)>) -> Seq<(Seq<char>, Seq<char>)> {
    v.map_values(|e: (String, String)| (e.0@, e.1@))
}

/// Whether `dir` already heads the search path `v`.
pub open spec fn has_head(v: Seq<char>, dir: Seq<char>) -> bool {
    v == dir || (v.len() > dir.len() && v.subrange(0, dir.len() as int) == dir && v[dir.len() as int]
        == ':')
}

/// The search path `v` with `dir` in front, unless `dir` already heads it.
pub open spec fn prepend_dir(dir: Seq<char>, v: Seq<char>) -> Seq<char> {
    if has_head(v, dir) {
        v
    } else {
        dir + ":"@ + v
    }
}

/// The directory of a gem home that holds the installed executables.
pub open spec fn bin_dir(home: Seq<char>) -> Seq<char> {
    join_path(home, "bin"@)
}

/// One ambient variable as the cache's environment passes it on.
pub open spec fn merged_entry(home: Seq<char>, e: (Seq<char>, Seq<char>)) -> (Seq<char>, Seq<char>) {
    if e.0 == "GEM_PATH"@ {
        (e.0, prepend_dir(home, e.1))
    } else if e.0 == "PATH"@ {
        (e.0, prepend_dir(bin_dir(home), e.1))
    } else {
        e
    }
}

pub open spec fn has_key(env: Seq<(Seq<char>, Seq<char>)>, k: Seq<char>) -> bool {
    exists|i: int| 0 <= i < env.len() && env[i].0 == k
}

/// The environment of a cache at `home` over the ambient environment: the
/// ambient variables in order, the gem search path and the executable search
/// path with the cache's directories in front, and a fresh entry for each of
/// those two that the ambient environment lacks.
pub open spec fn merged_env(home: Seq<char>, ambient: Seq<(Seq<char>, Seq<char>)>) -> Seq<
    (Seq<char>, Seq<char>),
> {
    let base = ambient.map_values(|e: (Seq<char>, Seq<char>)| merged_entry(home, e));
    let with_gem = if has_key(ambient, "GEM_PATH"@) {
        base
    } else {
        base.push(("GEM_PATH"@, home + ":$GEM_PATH"@))
    };
    if has_key(ambient, "PATH"@) {
        with_gem
    } else {
        with_gem.push(("PATH"@, bin_dir(home) + ":$PATH"@))
    }
}

/// The ambient variables without those named `k`.
pub open spec fn without_key(env: Seq<(Seq<char>, Seq<char>)>, k: Seq<char>) -> Seq<
    (Seq<char>, Seq<char>),
>
    decreases env.len(),
{
    if env.len() == 0 {
        env
    } else {
        let rest = without_key(env.drop_last(), k);
        if env.last().0 == k {
            rest
        } else {
            rest.push(env.last())
        }
    }
}

/// A `gem` invocation: the subcommand, the flag that skips the user's
/// configuration file, and the arguments; the cache's home, gem path and
/// project directory, then the ambient variables but any that names the home.
pub open spec fn gem_command(
    home: Seq<char>,
    workdir: Seq<char>,
    ambient: Seq<(Seq<char>, Seq<char>)>,
    sub: Seq<char>,
    args: Seq<Seq<char>>,
) -> CommandView {
    CommandView {
        program: "gem"@,
        args: seq![sub, "--norc"@] + args,
        envs: seq![("GEM_HOME"@, home), ("GEM_PATH"@, home), ("RBENV_DIR"@, workdir)]
            + without_key(ambient, "GEM_HOME"@),
    }
}

pub open spec fn install_args(name: Seq<char>) -> Seq<Seq<char>> {
    seq!["--no-user-install"@, "--no-format-executable"@, "--no-document"@, name]
}

pub open spec fn uninstall_args(name: Seq<char>, version: Seq<char>) -> Seq<Seq<char>> {
    seq![name, "--version"@, version]
}

pub open spec fn list_args(name: Seq<char>) -> Seq<Seq<char>> {
    seq!["--exact"@, name]
}

/// The error of a `gem` run that did not exit with status 0.
pub open spec fn gem_error(outcome: Result<ProcessOutput, String>) -> Seq<char> {
    run_error(outcome, "Gem command failed"@, "Failed to execute gem command: "@)
}

/// The result of an operation that only has to succeed: `action` names it
/// in the message, as in `Failed to install gem 'name': ...`.
pub open spec fn step_result(
    action: Seq<char>,
    name: Seq<char>,
    outcome: Result<ProcessOutput, String>,
) -> Result<(), Seq<char>> {
    if exited_zero(outcome) {
        Ok(())
    } else {
        Err("Failed to "@ + action + " gem '"@ + name + "': "@ + gem_error(outcome))
    }
}

/// The result of `list --exact name`.
pub open spec fn listing_result(name: Seq<char>, outcome: Result<ProcessOutput, String>) -> Result<
    Option<Seq<char>>,
    Seq<char>,
> {
    if exited_zero(outcome) {
        Ok(listed_version(name, outcome->Ok_0.stdout@))
    } else {
        Err(gem_error(outcome))
    }
}

/// The result of `outdated` for `name`.
pub open spec fn outdated_result(name: Seq<char>, outcome: Result<ProcessOutput, String>) -> Result<
    bool,
    Seq<char>,
> {
    if exited_zero(outcome) {
        Ok(outdated_lists(name, outcome->Ok_0.stdout@))
    } else {
        Err(gem_error(outcome))
    }
}

pub open spec fn unit_view(r: Result<(), String>) -> Result<(), Seq<char>> {
    match r {
        Ok(()) => Ok(()),
        Err(e) => Err(e@),
    }
}

pub open spec fn version_view(r: Result<Option<String>, String>) -> Result<
    Option<Seq<char>>,
    Seq<char>,
> {
    match r {
        Ok(v) => Ok(opt_text(v)),
        Err(e) => Err(e@),
    }
}

pub open spec fn flag_view(r: Result<bool, String>) -> Result<bool, Seq<char>> {
    match r {
        Ok(b) => Ok(b),
        Err(e) => Err(e@),
    }
}

fn gem_error_text(outcome: &Result<ProcessOutput, String>) -> (r: String)
    ensures
        r@ == gem_error(*outcome),
{
    failure_text(outcome, "Gem command failed", "Failed to execute gem command: ")
}

/// Interprets the run of an install, update or uninstall, see [`step_result`].
pub fn step_outcome(action: &str, name: &str, outcome: &Result<ProcessOutput, String>) -> (r: Result<
    (),
    String,
>)
    ensures
        unit_view(r) == step_result(action@, name@, *outcome),
{
    if succeeded(outcome) {
        Ok(())
    } else {
        let mut msg = String::from_str("Failed to ");
        msg.append(action);
        msg.append(" gem '");
        msg.append(name);
        msg.append("': ");
        msg.append(gem_error_text(outcome).as_str());
        Err(msg)
    }
}

/// Interprets the run of `list --exact name`, see [`listing_result`].
pub fn listing_outcome(name: &str, outcome: &Result<ProcessOutput, String>) -> (r: Result<
    Option<String>,
    String,
>)
    ensures
        version_view(r) == listing_result(name@, *outcome),
{
    if succeeded(outcome) {
        match outcome {
            Ok(out) => Ok(version_in_listing(name, out.stdout.as_slice())),
            Err(e) => Err(e.clone()),
        }
    } else {
        Err(gem_error_text(outcome))
    }
}

/// Interprets the run of `outdated` for `name`, see [`outdated_result`].
pub fn outdated_outcome(name: &str, outcome: &Result<ProcessOutput, String>) -> (r: Result<
    bool,
    String,
>)
    ensures
        flag_view(r) == outdated_result(name@, *outcome),
{
    if succeeded(outcome) {
        match outcome {
            Ok(out) => Ok(listing_mentions(name, out.stdout.as_slice())),
            Err(e) => Err(e.clone()),
        }
    } else {
        Err(gem_error_text(outcome))
    }
}

/// Copies a list of strings.
pub fn copy_strings(v: &Vec<String>) -> (r: Vec<String>)
    ensures
        r.deep_view() == v.deep_view(),
{
    let mut r: Vec<String> = Vec::new();
    let mut i: usize = 0;
    while i < v.len()
        invariant
            0 <= i <= v@.len(),
            r@.len() == i,
            forall|k: int| 0 <= k < i ==> r@[k]@ == v@[k]@,
        decreases v@.len() - i,
    {
        r.push(v[i].clone());
        i = i + 1;
    }
    assert(r.deep_view() =~= v.deep_view());
    r
}

/// Copies a list of environment variables.
pub fn copy_env(v: &Vec<(String, String)>) -> (r: Vec<(String, String)>)
    ensures
        r.deep_view() == v.deep_view(),
{
    let mut r: Vec<(String, String)> = Vec::new();
    let mut i: usize = 0;
    while i < v.len()
        invariant
            0 <= i <= v@.len(),
            r@.len() == i,
            forall|k: int| 0 <= k < i ==> r@[k].0@ == v@[k].0@ && r@[k].1@ == v@[k].1@,
        decreases v@.len() - i,
    {
        let k = v[i].0.clone();
        let val = v[i].1.clone();
        r.push((k, val));
        i = i + 1;
    }
    assert(r.deep_view() =~= v.deep_view());
    r
}

/// Whether `dir` already heads the search path `v`.
pub fn headed_by(v: &str, dir: &str) -> (r: bool)
    ensures
        r == has_head(v@, dir@),
{
    let n = dir.unicode_len();
    let m = v.unicode_len();
    if m < n {
        return false;
    }
    let mut k: usize = 0;
    while k < n
        invariant
            k <= n <= m,
            n == dir@.len(),
            m == v@.len(),
            forall|j: int| 0 <= j < k ==> v@[j] == dir@[j],
        decreases n - k,
    {
        if v.get_char(k) != dir.get_char(k) {
            proof {
                assert(v@.subrange(0, n as int)[k as int] != dir@[k as int]);
            }
            return false;
        }
        k = k + 1;
    }
    assert(v@.subrange(0, n as int) =~= dir@);
    if m == n {
        assert(v@ =~= dir@);
        true
    } else {
        v.get_char(n) == ':'
    }
}

/// The search path `v` with `dir` in front, see [`prepend_dir`].
pub fn prepended(dir: &str, v: &str) -> (r: String)
    ensures
        r@ == prepend_dir(dir@, v@),
{
    if headed_by(v, dir) {
        String::from_str(v)
    } else {
        let mut out = String::from_str(dir);
        out.append(":");
        out.append(v);
        out
    }
}

/// Computes [`merged_env`].
pub fn merge_env(home: &str, ambient: &Vec<(String, String)>) -> (r: Vec<(String, String)>)
    ensures
        r.deep_view() == merged_env(home@, ambient.deep_view()),
{
    let gem_key = String::from_str("GEM_PATH");
    let path_key = String::from_str("PATH");
    let bin = join(home, "bin");
    proof {
        reveal_strlit("GEM_PATH");
        reveal_strlit("PATH");
        assert("GEM_PATH"@.len() != "PATH"@.len());
    }
    let ghost amb = ambient.deep_view();
    let mut out: Vec<(String, String)> = Vec::new();
    let mut seen_gem = false;
    let mut seen_path = false;
    let mut i: usize = 0;
    while i < ambient.len()
        invariant
            0 <= i <= ambient@.len(),
            amb == ambient.deep_view(),
            gem_key@ == "GEM_PATH"@,
            path_key@ == "PATH"@,
            "GEM_PATH"@ != "PATH"@,
            bin@ == bin_dir(home@),
            out@.len() == i,
            forall|k: int|
                0 <= k < i ==> (out@[k].0@, out@[k].1@) == merged_entry(home@, amb[k]),
            seen_gem == has_key(amb.subrange(0, i as int), "GEM_PATH"@),
            seen_path == has_key(amb.subrange(0, i as int), "PATH"@),
        decreases ambient@.len() - i,
    {
        let ghost before = amb.subrange(0, i as int);
        let key = &ambient[i].0;
        let value = &ambient[i].1;
        let entry = if *key == gem_key {
            seen_gem = true;
            (key.clone(), prepended(home, value.as_str()))
        } else if *key == path_key {
            seen_path = true;
            (key.clone(), prepended(bin.as_str(), value.as_str()))
        } else {
            (key.clone(), value.clone())
        };
        out.push(entry);
        i = i + 1;
        proof {
            let now = amb.subrange(0, i as int);
            assert(now =~= before.push(amb[i - 1]));
            if has_key(now, "GEM_PATH"@) && !has_key(before, "GEM_PATH"@) {
                assert(amb[i - 1].0 == "GEM_PATH"@);
            }
            if has_key(now, "PATH"@) && !has_key(before, "PATH"@) {
                assert(amb[i - 1].0 == "PATH"@);
            }
            if has_key(before, "GEM_PATH"@) {
                let j = choose|j: int| 0 <= j < before.len() && before[j].0 == "GEM_PATH"@;
                assert(now[j].0 == "GEM_PATH"@);
            }
            if has_key(before, "PATH"@) {
                let j = choose|j: int| 0 <= j < before.len() && before[j].0 == "PATH"@;
                assert(now[j].0 == "PATH"@);
            }
            if amb[i - 1].0 == "GEM_PATH"@ {
                assert(now[i - 1].0 == "GEM_PATH"@);
            }
            if amb[i - 1].0 == "PATH"@ {
                assert(now[i - 1].0 == "PATH"@);
            }
        }
    }
    assert(amb.subrange(0, i as int) =~= amb);
    assert(out.deep_view() =~= amb.map_values(|e: (Seq<char>, Seq<char>)| merged_entry(home@, e)));
    if !seen_gem {
        let mut v = String::from_str(home);
        v.append(":$GEM_PATH");
        out.push((gem_key, v));
    }
    if !seen_path {
        let mut v = bin;
        v.append(":$PATH");
        out.push((path_key, v));
    }
    out
}

/// A private gem cache rooted at `gem_home`, with the ambient environment
/// that its commands run in.
pub struct Gemset {
    gem_home: String,
    working_dir: String,
    envs: Vec<(String, String)>,
    env_memo: Option<Vec<(String, String)>>,
}

impl Gemset {
    /// The cache's root directory.
    pub closed spec fn home(&self) -> Seq<char> {
        self.gem_home@
    }

    /// The project directory that commands run for.
    pub closed spec fn workdir(&self) -> Seq<char> {
        self.working_dir@
    }

    /// The ambient environment.
    pub closed spec fn ambient(&self) -> Seq<(Seq<char>, Seq<char>)> {
        self.envs.deep_view()
    }

    /// The remembered environment, once computed, is the merged one.
    pub closed spec fn wf(&self) -> bool {
        match self.env_memo {
            Some(m) => m.deep_view() == merged_env(self.gem_home@, self.envs.deep_view()),
            None => true,
        }
    }

    /// The view of a `gem` command of this cache.
    pub open spec fn command_view(&self, sub: Seq<char>, args: Seq<Seq<char>>) -> CommandView {
        gem_command(self.home(), self.workdir(), self.ambient(), sub, args)
    }

    pub fn new(gem_home: String, working_dir: String, envs: Option<Vec<(String, String)>>) -> (r:
        Self)
        ensures
            r.wf(),
            r.home() == gem_home@,
            r.workdir() == working_dir@,
            r.ambient() == match envs {
                Some(v) => v.deep_view(),
                None => Seq::empty(),
            },
    {
        let envs = match envs {
            Some(v) => v,
            None => {
                let v: Vec<(String, String)> = Vec::new();
                assert(v.deep_view() =~= Seq::empty());
                v
            },
        };
        Gemset { gem_home, working_dir, envs, env_memo: None }
    }

    /// The path of an installed executable: `<home>/bin/<bin_name>`.
    pub fn gem_bin_path(&self, bin_name: &str) -> (r: Result<String, String>)
        ensures
            r is Ok,
            r->Ok_0@ == join_path(bin_dir(self.home()), bin_name@),
    {
        let bin = join(self.gem_home.as_str(), "bin");
        Ok(join(bin.as_str(), bin_name))
    }

    /// The environment for running the cache's executables, computed on the
    /// first call and the same on every later one.
    pub fn env(&mut self) -> (r: Vec<(String, String)>)
        requires
            old(self).wf(),
        ensures
            final(self).wf(),
            final(self).home() == old(self).home(),
            final(self).workdir() == old(self).workdir(),
            final(self).ambient() == old(self).ambient(),
            r.deep_view() == merged_env(old(self).home(), old(self).ambient()),
    {
        match &self.env_memo {
            Some(m) => copy_env(m),
            None => {
                let merged = merge_env(self.gem_home.as_str(), &self.envs);
                let r = copy_env(&merged);
                self.env_memo = Some(merged);
                r
            },
        }
    }

    /// Builds the `gem` command for `sub` and `args`, see [`gem_command`].
    pub fn gem_command(&self, sub: &str, args: Vec<String>) -> (r: CommandSpec)
        ensures
            r@ == self.command_view(sub@, args.deep_view()),
    {
        let mut full: Vec<String> = Vec::new();
        full.push(String::from_str(sub));
        full.push(String::from_str("--norc"));
        let mut i: usize = 0;
        while i < args.len()
            invariant
                0 <= i <= args@.len(),
                full@.len() == i + 2,
                full@[0]@ == sub@,
                full@[1]@ == "--norc"@,
                forall|k: int| 0 <= k < i ==> full@[k + 2]@ == args@[k]@,
            decreases args@.len() - i,
        {
            full.push(args[i].clone());
            i = i + 1;
        }
        assert(full.deep_view() =~= seq![sub@, "--norc"@] + args.deep_view());
        let mut envs: Vec<(String, String)> = Vec::new();
        envs.push((String::from_str("GEM_HOME"), self.gem_home.clone()));
        envs.push((String::from_str("GEM_PATH"), self.gem_home.clone()));
        envs.push((String::from_str("RBENV_DIR"), self.working_dir.clone()));
        let home_key = String::from_str("GEM_HOME");
        let ghost amb = self.envs.deep_view();
        let ghost head = seq![
            ("GEM_HOME"@, self.home()),
            ("GEM_PATH"@, self.home()),
            ("RBENV_DIR"@, self.workdir()),
        ];
        assert(envs.deep_view() =~= head);
        let mut j: usize = 0;
        while j < self.envs.len()
            invariant
                0 <= j <= self.envs@.len(),
                amb == self.envs.deep_view(),
                home_key@ == "GEM_HOME"@,
                envs.deep_view() == head + without_key(amb.subrange(0, j as int), "GEM_HOME"@),
            decreases self.envs@.len() - j,
        {
            let ghost before = envs.deep_view();
            if self.envs[j].0 != home_key {
                let entry = (self.envs[j].0.clone(), self.envs[j].1.clone());
                assert(entry.deep_view() == amb[j as int]);
                envs.push(entry);
                assert(envs.deep_view() =~= before.push(amb[j as int]));
            } else {
                assert(amb[j as int].0 == "GEM_HOME"@);
            }
            j = j + 1;
            proof {
                let now = amb.subrange(0, j as int);
                assert(now.drop_last() =~= amb.subrange(0, j - 1));
                assert(now.last() == amb[j - 1]);
                assert(envs.deep_view() =~= head + without_key(now, "GEM_HOME"@));
            }
        }
        assert(amb.subrange(0, j as int) =~= amb);
        CommandSpec { program: String::from_str("gem"), args: full, envs }
    }

    /// The command that installs `name`.
    pub fn install_command(&self, name: &str) -> (r: CommandSpec)
        ensures
            r@ == self.command_view("install"@, install_args(name@)),
    {
        let mut args: Vec<String> = Vec::new();
        args.push(String::from_str("--no-user-install"));
        args.push(String::from_str("--no-format-executable"));
        args.push(String::from_str("--no-document"));
        args.push(String::from_str(name));
        assert(args.deep_view() =~= install_args(name@));
        self.gem_command("install", args)
    }

    /// The command that updates `name`.
    pub fn update_command(&self, name: &str) -> (r: CommandSpec)
        ensures
            r@ == self.command_view("update"@, seq![name@]),
    {
        let mut args: Vec<String> = Vec::new();
        args.push(String::from_str(name));
        assert(args.deep_view() =~= seq![name@]);
        self.gem_command("update", args)
    }

    /// The command that uninstalls `version` of `name`.
    pub fn uninstall_command(&self, name: &str, version: &str) -> (r: CommandSpec)
        ensures
            r@ == self.command_view("uninstall"@, uninstall_args(name@, version@)),
    {
        let mut args: Vec<String> = Vec::new();
        args.push(String::from_str(name));
        args.push(String::from_str("--version"));
        args.push(String::from_str(version));
        assert(args.deep_view() =~= uninstall_args(name@, version@));
        self.gem_command("uninstall", args)
    }

    /// The command that lists the installed versions of `name`.
    pub fn list_command(&self, name: &str) -> (r: CommandSpec)
        ensures
            r@ == self.command_view("list"@, list_args(name@)),
    {
        let mut args: Vec<String> = Vec::new();
        args.push(String::from_str("--exact"));
        args.push(String::from_str(name));
        assert(args.deep_view() =~= list_args(name@));
        self.gem_command("list", args)
    }

    /// The command that lists the outdated gems.
    pub fn outdated_command(&self) -> (r: CommandSpec)
        ensures
            r@ == self.command_view("outdated"@, Seq::empty()),
    {
        let args: Vec<String> = Vec::new();
        assert(args.deep_view() =~= Seq::<Seq<char>>::empty());
        self.gem_command("outdated", args)
    }
}

/// Runs a command through the executor.
pub fn run<E: CommandExecutor>(exec: &E, cmd: CommandSpec) -> Result<ProcessOutput, String> {
    exec.execute(cmd.program.as_str(), cmd.args, cmd.envs)
}

impl Gemset {
    /// Installs `name` into the cache.
    pub fn install_gem<E: CommandExecutor>(&self, exec: &E, name: &str) -> (r: Result<(), String>)
        ensures
            exists|o: Result<ProcessOutput, String>|
                unit_view(r) == step_result("install"@, name@, o),
    {
        let outcome = run(exec, self.install_command(name));
        step_outcome("install", name, &outcome)
    }

    /// Updates `name` in the cache.
    pub fn update_gem<E: CommandExecutor>(&self, exec: &E, name: &str) -> (r: Result<(), String>)
        ensures
            exists|o: Result<ProcessOutput, String>|
                unit_view(r) == step_result("update"@, name@, o),
    {
        let outcome = run(exec, self.update_command(name));
        step_outcome("update", name, &outcome)
    }

    /// Uninstalls `version` of `name` from the cache.
    pub fn uninstall_gem<E: CommandExecutor>(&self, exec: &E, name: &str, version: &str) -> (r:
        Result<(), String>)
        ensures
            exists|o: Result<ProcessOutput, String>|
                unit_view(r) == step_result("uninstall"@, name@, o),
    {
        let outcome = run(exec, self.uninstall_command(name, version));
        step_outcome("uninstall", name, &outcome)
    }

    /// The installed version of `name`, or `None` when it is not installed.
    pub fn installed_gem_version<E: CommandExecutor>(&self, exec: &E, name: &str) -> (r: Result<
        Option<String>,
        String,
    >)
        ensures
            exists|o: Result<ProcessOutput, String>| version_view(r) == listing_result(name@, o),
    {
        let outcome = run(exec, self.list_command(name));
        listing_outcome(name, &outcome)
    }

    /// Whether a newer version of `name` is available.
    pub fn is_outdated_gem<E: CommandExecutor>(&self, exec: &E, name: &str) -> (r: Result<
        bool,
        String,
    >)
        ensures
            exists|o: Result<ProcessOutput, String>| flag_view(r) == outdated_result(name@, o),
    {
        let outcome = run(exec, self.outdated_command());
        outdated_outcome(name, &outcome)
    }
}

proof fn lemma_prepend_heads(dir: Seq<char>, v: Seq<char>)
    ensures
        has_head(prepend_dir(dir, v), dir),
{
    if !has_head(v, dir) {
        let w = dir + ":"@ + v;
        reveal_strlit(":");
        assert(w.subrange(0, dir.len() as int) =~= dir);
        assert(w[dir.len() as int] == ':');
    }
}

proof fn lemma_fresh_heads(dir: Seq<char>, tail: Seq<char>)
    requires
        tail.len() > 0,
        tail[0] == ':',
    ensures
        has_head(dir + tail, dir),
{
    let w = dir + tail;
    assert(w.subrange(0, dir.len() as int) =~= dir);
    assert(w[dir.len() as int] == tail[0]);
}

proof fn lemma_merged_shape(home: Seq<char>, ambient: Seq<(Seq<char>, Seq<char>)>)
    ensures
        ({
            let m = merged_env(home, ambient);
            let g = if has_key(ambient, "GEM_PATH"@) { 0int } else { 1int };
            let p = if has_key(ambient, "PATH"@) { 0int } else { 1int };
            &&& m.len() == ambient.len() + g + p
            &&& forall|i: int|
                0 <= i < ambient.len() ==> #[trigger] m[i] == merged_entry(home, ambient[i])
            &&& g == 1 ==> m[ambient.len() as int] == ("GEM_PATH"@, home + ":$GEM_PATH"@)
            &&& p == 1 ==> m[ambient.len() + g] == ("PATH"@, bin_dir(home) + ":$PATH"@)
        }),
{
}

/// In the cache's environment the cache's directories head both search
/// paths: the gem path starts with the cache root and the executable path
/// with its `bin` directory; both are present; every other ambient variable
/// stands unchanged at its place.
pub proof fn lemma_env_cache_first(home: Seq<char>, ambient: Seq<(Seq<char>, Seq<char>)>)
    ensures
        ({
            let m = merged_env(home, ambient);
            &&& forall|i: int|
                0 <= i < m.len() && m[i].0 == "GEM_PATH"@ ==> has_head(#[trigger] m[i].1, home)
            &&& forall|i: int|
                0 <= i < m.len() && m[i].0 == "PATH"@ ==> has_head(#[trigger] m[i].1, bin_dir(home))
            &&& forall|i: int|
                0 <= i < ambient.len() && ambient[i].0 != "GEM_PATH"@ && ambient[i].0 != "PATH"@
                    ==> #[trigger] m[i] == ambient[i]
            &&& has_key(m, "GEM_PATH"@)
            &&& has_key(m, "PATH"@)
        }),
{
    reveal_strlit("GEM_PATH");
    reveal_strlit("PATH");
    reveal_strlit(":$GEM_PATH");
    reveal_strlit(":$PATH");
    assert("GEM_PATH"@.len() != "PATH"@.len());
    let m = merged_env(home, ambient);
    lemma_merged_shape(home, ambient);
    let g = if has_key(ambient, "GEM_PATH"@) { 0int } else { 1int };
    assert forall|i: int| 0 <= i < m.len() && m[i].0 == "GEM_PATH"@ implies has_head(
        #[trigger] m[i].1,
        home,
    ) by {
        if i < ambient.len() {
            lemma_prepend_heads(home, ambient[i].1);
        } else if i == ambient.len() && g == 1 {
            lemma_fresh_heads(home, ":$GEM_PATH"@);
        }
    }
    assert forall|i: int| 0 <= i < m.len() && m[i].0 == "PATH"@ implies has_head(
        #[trigger] m[i].1,
        bin_dir(home),
    ) by {
        if i < ambient.len() {
            lemma_prepend_heads(bin_dir(home), ambient[i].1);
        } else if i == ambient.len() + g {
            lemma_fresh_heads(bin_dir(home), ":$PATH"@);
        }
    }
    if has_key(ambient, "GEM_PATH"@) {
        let j = choose|j: int| 0 <= j < ambient.len() && ambient[j].0 == "GEM_PATH"@;
        assert(m[j].0 == "GEM_PATH"@);
    } else {
        assert(m[ambient.len() as int].0 == "GEM_PATH"@);
    }
    if has_key(ambient, "PATH"@) {
        let j = choose|j: int| 0 <= j < ambient.len() && ambient[j].0 == "PATH"@;
        assert(m[j].0 == "PATH"@);
    } else {
        assert(m[ambient.len() + g].0 == "PATH"@);
    }
}

/// The cache's environment is its own fixed point: merging it once more over
/// itself changes nothing, so a search path that the cache's directory
/// already heads never gets that directory a second time.
pub proof fn lemma_env_idempotent(home: Seq<char>, ambient: Seq<(Seq<char>, Seq<char>)>)
    ensures
        merged_env(home, merged_env(home, ambient)) == merged_env(home, ambient),
{
    let m = merged_env(home, ambient);
    lemma_env_cache_first(home, ambient);
    let again = m.map_values(|e: (Seq<char>, Seq<char>)| merged_entry(home, e));
    assert forall|i: int| 0 <= i < m.len() implies again[i] == m[i] by {
        if m[i].0 == "GEM_PATH"@ {
            assert(has_head(m[i].1, home));
        } else if m[i].0 == "PATH"@ {
            assert(has_head(m[i].1, bin_dir(home)));
        }
    }
    assert(again =~= m);
}

/// A search path value that the cache's directory already heads is passed
/// on as it is, not with that directory once more in front.
pub proof fn lemma_env_no_duplicate(
    home: Seq<char>,
    ambient: Seq<(Seq<char>, Seq<char>)>,
    i: int,
)
    requires
        0 <= i < ambient.len(),
        (ambient[i].0 == "GEM_PATH"@ && has_head(ambient[i].1, home)) || (ambient[i].0 == "PATH"@
            && has_head(ambient[i].1, bin_dir(home))),
    ensures
        merged_env(home, ambient)[i] == ambient[i],
{
    reveal_strlit("GEM_PATH");
    reveal_strlit("PATH");
    assert("GEM_PATH"@.len() != "PATH"@.len());
    lemma_merged_shape(home, ambient);
}

/// The values of the two search paths: an ambient value that the cache's
/// directory does not head gets that directory and `:` in front; a search
/// path that the ambient environment lacks gets a fresh entry naming the
/// cache's directory in front of the variable itself.
pub proof fn lemma_env_prepends(home: Seq<char>, ambient: Seq<(Seq<char>, Seq<char>)>, i: int)
    requires
        0 <= i < ambient.len(),
    ensures
        ambient[i].0 == "GEM_PATH"@ && !has_head(ambient[i].1, home) ==> merged_env(home, ambient)[i]
            == ("GEM_PATH"@, home + ":"@ + ambient[i].1),
        ambient[i].0 == "PATH"@ && !has_head(ambient[i].1, bin_dir(home)) ==> merged_env(
            home,
            ambient,
        )[i] == ("PATH"@, bin_dir(home) + ":"@ + ambient[i].1),
        !has_key(ambient, "GEM_PATH"@) ==> merged_env(home, ambient)[ambient.len() as int] == (
            "GEM_PATH"@,
            home + ":$GEM_PATH"@,
        ),
        !has_key(ambient, "PATH"@) ==> merged_env(home, ambient).last() == (
            "PATH"@,
            bin_dir(home) + ":$PATH"@,
        ),
{
    reveal_strlit("GEM_PATH");
    reveal_strlit("PATH");
    assert("GEM_PATH"@.len() != "PATH"@.len());
    lemma_merged_shape(home, ambient);
}

/// Whether no two variables share a name.
pub open spec fn keys_unique(env: Seq<(Seq<char>, Seq<char>)>) -> bool {
    forall|i: int, j: int| 0 <= i < j < env.len() ==> env[i].0 != env[j].0
}

/// When the ambient variables have distinct names, so do the cache's: each
/// search path appears exactly once.
pub proof fn lemma_env_keys_unique(home: Seq<char>, ambient: Seq<(Seq<char>, Seq<char>)>)
    requires
        keys_unique(ambient),
    ensures
        keys_unique(merged_env(home, ambient)),
{
    reveal_strlit("GEM_PATH");
    reveal_strlit("PATH");
    assert("GEM_PATH"@.len() != "PATH"@.len());
    lemma_merged_shape(home, ambient);
    let m = merged_env(home, ambient);
    let n = ambient.len() as int;
    assert forall|i: int, j: int| 0 <= i < j < m.len() implies m[i].0 != m[j].0 by {
        if j < n {
            assert(m[i].0 == ambient[i].0);
            assert(m[j].0 == ambient[j].0);
        } else if i < n {
            assert(m[i].0 == ambient[i].0);
            if m[j].0 == "GEM_PATH"@ {
                assert(!has_key(ambient, "GEM_PATH"@));
            } else {
                assert(!has_key(ambient, "PATH"@));
            }
        }
    }
}

} // verus!
