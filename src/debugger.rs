//! The arguments of the `rdbg` debug adapter.

use vstd::prelude::*;
use vstd::string::*;
use crate::bundler::{bundle_outcome, bundle_result, Bundler};
use crate::gateway::{CommandExecutor, ProcessOutput};
use crate::gemset::{bin_dir, copy_strings, run, step_outcome, step_result, Gemset};
use crate::worktree::WorktreeLike;
use crate::text::{decimal, digits_of, join_path};

verus! {

/// What a launch runs: a script file, or a command found on the path.
pub enum DebugProgram {
    Script(String),
    Command(String),
}

/// Which program a launch configuration names: its script, else its
/// command, else its script-or-command, which is a command when the search
/// path finds it.
pub open spec fn chosen_program(
    script: Option<Seq<char>>,
    command: Option<Seq<char>>,
    script_or_command: Option<Seq<char>>,
    on_path: bool,
) -> Option<(bool, Seq<char>)> {
    match script {
        Some(s) => Some((false, s)),
        None => match command {
            Some(c) => Some((true, c)),
            None => match script_or_command {
                Some(x) => Some((on_path, x)),
                None => None,
            },
        },
    }
}

pub open spec fn program_view(p: DebugProgram) -> (bool, Seq<char>) {
    match p {
        DebugProgram::Script(s) => (false, s@),
        DebugProgram::Command(c) => (true, c@),
    }
}

/// Picks the program of a launch, see [`chosen_program`]; an error when the
/// configuration names none.
pub fn choose_program(
    script: Option<String>,
    command: Option<String>,
    script_or_command: Option<String>,
    on_path: bool,
) -> (r: Result<DebugProgram, String>)
    ensures
        match chosen_program(
            script.deep_view(),
            command.deep_view(),
            script_or_command.deep_view(),
            on_path,
        ) {
            Some(p) => r is Ok && program_view(r->Ok_0) == p,
            None => r is Err,
        },
{
    match script {
        Some(s) => Ok(DebugProgram::Script(s)),
        None => match command {
            Some(c) => Ok(DebugProgram::Command(c)),
            None => match script_or_command {
                Some(x) => if on_path {
                    Ok(DebugProgram::Command(x))
                } else {
                    Ok(DebugProgram::Script(x))
                },
                None => Err(
                    String::from_str(
                        "Ruby debug config must have 'script', 'command', or 'script_or_command' arg",
                    ),
                ),
            },
        },
    }
}

/// How a debug session starts.
pub enum DebugLaunch {
    /// Run a program; `open` is whether the environment already opens the
    /// debugger's port itself.
    Launch { program: DebugProgram, args: Vec<String>, open: bool },
    /// Attach to a running process.
    Attach,
}

/// An option with its value written in decimal: `--host=<n>`.
pub open spec fn decimal_option(name: Seq<char>, n: nat) -> Seq<char> {
    "--"@ + name + "="@ + digits_of(n)
}

/// The arguments of `rdbg`: the host and port unless the environment sets
/// them; for a launch `--open` unless the environment opens the port,
/// `--stop-at-load`, `--command` for a command, the program, `--` and its
/// arguments; for an attach `--attach`; all behind `exec rdbg` when it runs
/// through the bundle.
pub open spec fn rdbg_args(
    host: Option<u32>,
    port: Option<u16>,
    launch: Option<((bool, Seq<char>), Seq<Seq<char>>, bool)>,
    use_bundler: bool,
) -> Seq<Seq<char>> {
    let head = if use_bundler { seq!["exec"@, "rdbg"@] } else { Seq::empty() };
    let host_arg = match host {
        Some(h) => seq![decimal_option("host"@, h as nat)],
        None => Seq::empty(),
    };
    let port_arg = match port {
        Some(p) => seq![decimal_option("port"@, p as nat)],
        None => Seq::empty(),
    };
    let tail = match launch {
        Some(l) => {
            let open = if l.2 { Seq::empty() } else { seq!["--open"@] };
            let command = if l.0.0 { seq!["--command"@] } else { Seq::empty() };
            open + seq!["--stop-at-load"@] + command + seq![l.0.1, "--"@] + l.1
        },
        None => seq!["--attach"@],
    };
    head + host_arg + port_arg + tail
}

pub open spec fn launch_view(l: DebugLaunch) -> Option<((bool, Seq<char>), Seq<Seq<char>>, bool)> {
    match l {
        DebugLaunch::Launch { program, args, open } => Some(
            (program_view(program), args.deep_view(), open),
        ),
        DebugLaunch::Attach => None,
    }
}

fn push_all(out: &mut Vec<String>, more: &Vec<String>)
    ensures
        final(out).deep_view() == old(out).deep_view() + more.deep_view(),
{
    let ghost start = out.deep_view();
    let mut i: usize = 0;
    while i < more.len()
        invariant
            0 <= i <= more@.len(),
            out.deep_view() == start + more.deep_view().subrange(0, i as int),
        decreases more@.len() - i,
    {
        let ghost before = out.deep_view();
        let item = more[i].clone();
        out.push(item);
        assert(out.deep_view() =~= before.push(more@[i as int]@));
        i = i + 1;
        assert(out.deep_view() =~= start + more.deep_view().subrange(0, i as int));
    }
    assert(more.deep_view().subrange(0, i as int) =~= more.deep_view());
}

fn push_text(out: &mut Vec<String>, s: &str)
    ensures
        final(out).deep_view() == old(out).deep_view().push(s@),
{
    let ghost before = out.deep_view();
    out.push(String::from_str(s));
    assert(out.deep_view() =~= before.push(s@));
}

fn decimal_arg(name: &str, n: u64) -> (r: String)
    ensures
        r@ == decimal_option(name@, n as nat),
{
    let mut out = String::from_str("--");
    out.append(name);
    out.append("=");
    out.append(decimal(n).as_str());
    out
}

/// Builds [`rdbg_args`].
pub fn rdbg_arguments(
    host: Option<u32>,
    port: Option<u16>,
    launch: DebugLaunch,
    use_bundler: bool,
) -> (r: Vec<String>)
    ensures
        r.deep_view() == rdbg_args(host, port, launch_view(launch), use_bundler),
{
    let ghost lv = launch_view(launch);
    let mut out: Vec<String> = Vec::new();
    assert(out.deep_view() =~= Seq::<Seq<char>>::empty());
    if use_bundler {
        push_text(&mut out, "exec");
        push_text(&mut out, "rdbg");
    }
    let ghost head = out.deep_view();
    match host {
        Some(h) => {
            let arg = decimal_arg("host", h as u64);
            push_text(&mut out, arg.as_str());
        },
        None => {},
    }
    match port {
        Some(p) => {
            let arg = decimal_arg("port", p as u64);
            push_text(&mut out, arg.as_str());
        },
        None => {},
    }
    let ghost prefix = out.deep_view();
    match launch {
        DebugLaunch::Launch { program, args, open } => {
            if !open {
                push_text(&mut out, "--open");
            }
            push_text(&mut out, "--stop-at-load");
            let name = match program {
                DebugProgram::Script(s) => s,
                DebugProgram::Command(c) => {
                    push_text(&mut out, "--command");
                    c
                },
            };
            push_text(&mut out, name.as_str());
            push_text(&mut out, "--");
            push_all(&mut out, &args);
            proof {
                let l = lv->Some_0;
                let open_part = if l.2 { Seq::empty() } else { seq!["--open"@] };
                let command = if l.0.0 { seq!["--command"@] } else { Seq::<Seq<char>>::empty() };
                assert(out.deep_view() =~= prefix + (open_part + seq!["--stop-at-load"@] + command
                    + seq![l.0.1, "--"@] + l.1));
            }
        },
        DebugLaunch::Attach => {
            push_text(&mut out, "--attach");
        },
    }
    proof {
        let hv = if use_bundler { seq!["exec"@, "rdbg"@] } else { Seq::<Seq<char>>::empty() };
        assert(head =~= hv);
    }
    assert(out.deep_view() =~= rdbg_args(host, port, lv, use_bundler));
    out
}

/// Where `rdbg` comes from, and whether it runs through the bundle, given
/// what the outside answered: whether the search path finds the adapter;
/// the outcome of asking the bundle for the `debug` gem; where the search
/// path finds `bundle`; the outcome of installing `debug` into the cache.
pub open spec fn rdbg_result(
    adapter: Seq<char>,
    cache_root: Seq<char>,
    on_path: bool,
    bundled: Result<ProcessOutput, String>,
    bundle_at: Option<Seq<char>>,
    installed: Result<ProcessOutput, String>,
) -> Result<(Seq<char>, bool), Seq<char>> {
    if on_path {
        Ok((adapter, false))
    } else if bundle_result(bundled) is Ok {
        match bundle_at {
            Some(p) => Ok((p, true)),
            None => Err("Unable to find 'bundle' command"@),
        }
    } else {
        match step_result("install"@, "debug"@, installed) {
            Ok(()) => Ok((join_path(bin_dir(cache_root), "rdbg"@), false)),
            Err(e) => Err("Failed to install debug gem: "@ + e),
        }
    }
}

pub open spec fn rdbg_view(r: Result<(String, bool), String>) -> Result<(Seq<char>, bool), Seq<char>> {
    match r {
        Ok(p) => Ok((p.0@, p.1)),
        Err(e) => Err(e@),
    }
}

/// Locates `rdbg` as [`rdbg_result`] says, asking the bundle with
/// `bundle info --version debug` and installing with the cache at
/// `cache_root`; whatever the outside answers, the result is the one that
/// [`rdbg_result`] gives for those answers.
pub fn locate_rdbg<E: CommandExecutor, W: WorktreeLike>(
    adapter_name: &str,
    exec: &E,
    worktree: &W,
    cache_root: String,
) -> (r: Result<(String, bool), String>)
    ensures
        exists|
            on_path: bool,
            bundled: Result<ProcessOutput, String>,
            bundle_at: Option<Seq<char>>,
            installed: Result<ProcessOutput, String>,
        |
            rdbg_view(r) == #[trigger] rdbg_result(
                adapter_name@,
                cache_root@,
                on_path,
                bundled,
                bundle_at,
                installed,
            ),
{
    let ghost root = cache_root@;
    if worktree.which(adapter_name).is_some() {
        let r = Ok((String::from_str(adapter_name), false));
        let ghost none: Result<ProcessOutput, String> = arbitrary();
        assert(rdbg_view(r) == rdbg_result(adapter_name@, root, true, none, None, none));
        return r;
    }
    let bundler = Bundler::new(worktree.root_path(), worktree.shell_env());
    let bundled = run(exec, bundler.info_command("debug"));
    let ghost bundled_view = bundled;
    let ghost none: Result<ProcessOutput, String> = arbitrary();
    match bundle_outcome(bundled) {
        Ok(_) => match worktree.which("bundle") {
            Some(p) => {
                let r = Ok((p, true));
                assert(rdbg_view(r) == rdbg_result(
                    adapter_name@,
                    root,
                    false,
                    bundled_view,
                    Some(r->Ok_0.0@),
                    none,
                ));
                r
            },
            None => {
                let r = Err(String::from_str("Unable to find 'bundle' command"));
                assert(rdbg_view(r) == rdbg_result(
                    adapter_name@,
                    root,
                    false,
                    bundled_view,
                    None,
                    none,
                ));
                r
            },
        },
        Err(_) => {
            let gemset = Gemset::new(cache_root, worktree.root_path(), Some(worktree.shell_env()));
            let installed = run(exec, gemset.install_command("debug"));
            let ghost installed_view = installed;
            match step_outcome("install", "debug", &installed) {
                Ok(()) => {
                    let p = match gemset.gem_bin_path("rdbg") {
                        Ok(p) => p,
                        Err(e) => {
                            return Err(e);
                        },
                    };
                    let r = Ok((p, false));
                    assert(rdbg_view(r) == rdbg_result(
                        adapter_name@,
                        root,
                        false,
                        bundled_view,
                        None,
                        installed_view,
                    ));
                    r
                },
                Err(e) => {
                    let mut msg = String::from_str("Failed to install debug gem: ");
                    msg.append(e.as_str());
                    let r = Err(msg);
                    assert(rdbg_view(r) == rdbg_result(
                        adapter_name@,
                        root,
                        false,
                        bundled_view,
                        None,
                        installed_view,
                    ));
                    r
                },
            }
        },
    }
}

} // verus!
