//! Deciding where a language tool's executable comes from: a configured
//! override, the project's bundle, the search path, or the private gem cache.
//!
//! The decisions are a step function from a stage and the outcome of the
//! last outside operation to the next stage and the next operation, so that
//! every outside effect (running a program, searching the path) is named by
//! the function and performed by whoever drives it.

use vstd::prelude::*;
use vstd::string::*;
use crate::bundler::{bundle_info_command, bundle_outcome, bundle_result, Bundler};
use crate::fingerprint::{cache_root_for, runtime_cache_root};
use crate::gateway::{
    exited_zero, failure_text, run_error, succeeded, CommandExecutor, CommandSpec, CommandView,
    ProcessOutput,
};
use crate::gemset::{
    bin_dir, copy_env, copy_strings, gem_command, install_args, list_args, listing_outcome,
    listing_result, merged_env, outdated_outcome, outdated_result, run, step_outcome, step_result,
    uninstall_args, Gemset,
};
use crate::text::join_path;
use crate::worktree::WorktreeLike;

verus! {

/// The names of a language tool: the identifier the editor knows it by, the
/// executable to run and the gem that provides it.
pub struct ToolIdentity {
    pub server_id: String,
    pub executable_name: String,
    pub gem_name: String,
}

/// A ready invocation of a language server: `args` and `env`, when given,
/// replace the tool's own arguments and the empty environment.
#[derive(Clone, Debug)]
pub struct LanguageServerBinary {
    pub path: String,
    pub args: Option<Vec<String>>,
    pub env: Option<Vec<(String, String)>>,
}

/// The mathematical value of a [`LanguageServerBinary`].
pub struct BinaryView {
    pub path: Seq<char>,
    pub args: Option<Seq<Seq<char>>>,
    pub env: Option<Seq<(Seq<char>, Seq<char>)>>,
}

impl View for LanguageServerBinary {
    type V = BinaryView;

    open spec fn view(&self) -> BinaryView {
        BinaryView { path: self.path@, args: self.args.deep_view(), env: self.env.deep_view() }
    }
}

/// Everything a resolution starts from.
pub struct ResolveRequest {
    pub identity: ToolIdentity,
    /// The project's root directory.
    pub project_root: String,
    /// The ambient environment of the project's shell.
    pub shell_env: Vec<(String, String)>,
    /// An executable configured for this tool, which wins over every source.
    pub override_path: Option<String>,
    /// The arguments configured with the override.
    pub override_args: Option<Vec<String>>,
    /// Whether the project's bundle may provide the tool: the tool's policy
    /// and the project's settings together.
    pub use_bundler: bool,
    /// The arguments the tool runs with.
    pub tool_args: Vec<String>,
    /// The directory under which the private gem caches lie, one for each
    /// version of the runtime.
    pub cache_base: String,
}

/// The mathematical value of a [`ResolveRequest`].
pub struct RequestView {
    pub exe: Seq<char>,
    pub gem: Seq<char>,
    pub root: Seq<char>,
    pub env: Seq<(Seq<char>, Seq<char>)>,
    pub override_path: Option<Seq<char>>,
    pub override_args: Option<Seq<Seq<char>>>,
    pub use_bundler: bool,
    pub tool_args: Seq<Seq<char>>,
    pub cache_base: Seq<char>,
}

impl View for ResolveRequest {
    type V = RequestView;

    open spec fn view(&self) -> RequestView {
        RequestView {
            exe: self.identity.executable_name@,
            gem: self.identity.gem_name@,
            root: self.project_root@,
            env: self.shell_env.deep_view(),
            override_path: self.override_path.deep_view(),
            override_args: self.override_args.deep_view(),
            use_bundler: self.use_bundler,
            tool_args: self.tool_args.deep_view(),
            cache_base: self.cache_base@,
        }
    }
}

/// Where a resolution stands: which outcome it waits for.
pub enum Stage {
    Start,
    /// The bundle was asked for the gem's version.
    BundledVersion,
    /// The search path is searched for `bundle`.
    BundlePath,
    /// The search path is searched for the tool's executable.
    ToolPath,
    /// The runtime was asked for its version, which names the cache.
    Probing,
    /// The cache was asked for the gem's version.
    CachedVersion,
    /// The cache holds this version and was asked what is outdated.
    Outdated(String),
    /// The cache held this version and was told to update the gem.
    Updated(String),
    /// The cache was told to uninstall the version it held before.
    Uninstalled,
    /// The cache was told to install the gem.
    Installed,
    Finished,
}

/// Where a resolution stands; each stage of the private cache carries the
/// cache's root.
pub enum StageView {
    Start,
    BundledVersion,
    BundlePath,
    ToolPath,
    Probing,
    CachedVersion(Seq<char>),
    Outdated(Seq<char>, Seq<char>),
    Updated(Seq<char>, Seq<char>),
    Uninstalled(Seq<char>),
    Installed(Seq<char>),
    Finished,
}

/// What the outside world answered to the last action.
pub enum Event {
    /// The resolution is asked to begin.
    Begin,
    /// The outcome of running the last command.
    Ran(Result<ProcessOutput, String>),
    /// What a search of the path found.
    Found(Option<String>),
}

/// What the resolution asks for next.
pub enum Action {
    /// Run this command and report [`Event::Ran`].
    Run(CommandSpec),
    /// Search the ambient path for this executable and report [`Event::Found`].
    Lookup(String),
    /// The resolution is done.
    Done(LanguageServerBinary),
    /// The resolution failed with this message.
    Fail(String),
}

pub enum ActionView {
    Run(CommandView),
    Lookup(Seq<char>),
    Done(BinaryView),
    Fail(Seq<char>),
}

impl View for Action {
    type V = ActionView;

    open spec fn view(&self) -> ActionView {
        match self {
            Action::Run(c) => ActionView::Run(c@),
            Action::Lookup(n) => ActionView::Lookup(n@),
            Action::Done(b) => ActionView::Done(b@),
            Action::Fail(m) => ActionView::Fail(m@),
        }
    }
}

/// The program whose version names the private cache.
pub const RUNTIME: &'static str = "ruby";

/// `ruby --version`, in the ambient environment.
pub open spec fn probe_command(q: RequestView) -> CommandView {
    CommandView { program: RUNTIME@, args: seq!["--version"@], envs: q.env }
}

/// A `gem` command of the private cache at `root`.
pub open spec fn cache_command(
    q: RequestView,
    root: Seq<char>,
    sub: Seq<char>,
    args: Seq<Seq<char>>,
) -> ActionView {
    ActionView::Run(gem_command(root, q.root, q.env, sub, args))
}

/// The tool as the private cache at `root` provides it.
pub open spec fn cache_binary(q: RequestView, root: Seq<char>) -> ActionView {
    ActionView::Done(
        BinaryView {
            path: join_path(bin_dir(root), q.exe),
            args: Some(q.tool_args),
            env: Some(merged_env(root, q.env)),
        },
    )
}

/// The message of a failed version probe.
pub open spec fn probe_error(o: Result<ProcessOutput, String>) -> Seq<char> {
    run_error(o, "runtime version probe failed"@, "Failed to execute runtime version probe: "@)
}

/// A failure of the private cache, which ends the resolution.
pub open spec fn cache_failure(m: Seq<char>) -> ActionView {
    ActionView::Fail("private gem cache: "@ + m)
}

pub open spec fn unexpected() -> ActionView {
    ActionView::Fail("unexpected event for this stage of resolution"@)
}

/// The step function of resolution: from a stage and an event, the next
/// stage and the action to take.
pub open spec fn transition(q: RequestView, s: StageView, e: Event) -> (StageView, ActionView) {
    match s {
        StageView::Start => match e {
            Event::Begin => if q.override_path is Some {
                (
                    StageView::Finished,
                    ActionView::Done(
                        BinaryView {
                            path: q.override_path->Some_0,
                            args: q.override_args,
                            env: Some(q.env),
                        },
                    ),
                )
            } else if q.use_bundler {
                (StageView::BundledVersion, ActionView::Run(bundle_info_command(q.root, q.env, q.gem)))
            } else {
                (StageView::ToolPath, ActionView::Lookup(q.exe))
            },
            _ => (StageView::Finished, unexpected()),
        },
        StageView::BundledVersion => match e {
            Event::Ran(o) => if bundle_result(o) is Ok {
                (StageView::BundlePath, ActionView::Lookup("bundle"@))
            } else {
                (StageView::ToolPath, ActionView::Lookup(q.exe))
            },
            _ => (StageView::Finished, unexpected()),
        },
        StageView::BundlePath => match e {
            Event::Found(Some(p)) => (
                StageView::Finished,
                ActionView::Done(
                    BinaryView {
                        path: p@,
                        args: Some(seq!["exec"@, q.exe] + q.tool_args),
                        env: Some(q.env),
                    },
                ),
            ),
            Event::Found(None) => (
                StageView::Finished,
                ActionView::Fail("Unable to find 'bundle' command"@),
            ),
            _ => (StageView::Finished, unexpected()),
        },
        StageView::ToolPath => match e {
            Event::Found(Some(p)) => (
                StageView::Finished,
                ActionView::Done(
                    BinaryView { path: p@, args: Some(q.tool_args), env: Some(q.env) },
                ),
            ),
            Event::Found(None) => (StageView::Probing, ActionView::Run(probe_command(q))),
            _ => (StageView::Finished, unexpected()),
        },
        StageView::Probing => match e {
            Event::Ran(o) => if exited_zero(o) {
                let root = runtime_cache_root(q.cache_base, o->Ok_0.stdout@);
                (StageView::CachedVersion(root), cache_command(q, root, "list"@, list_args(q.gem)))
            } else {
                (StageView::Finished, cache_failure(probe_error(o)))
            },
            _ => (StageView::Finished, unexpected()),
        },
        StageView::CachedVersion(root) => match e {
            Event::Ran(o) => match listing_result(q.gem, o) {
                Err(m) => (StageView::Finished, cache_failure(m)),
                Ok(Some(v)) => (
                    StageView::Outdated(root, v),
                    cache_command(q, root, "outdated"@, Seq::empty()),
                ),
                Ok(None) => (
                    StageView::Installed(root),
                    cache_command(q, root, "install"@, install_args(q.gem)),
                ),
            },
            _ => (StageView::Finished, unexpected()),
        },
        StageView::Outdated(root, v) => match e {
            Event::Ran(o) => match outdated_result(q.gem, o) {
                Err(m) => (StageView::Finished, cache_failure(m)),
                Ok(true) => (
                    StageView::Updated(root, v),
                    cache_command(q, root, "update"@, seq![q.gem]),
                ),
                Ok(false) => (StageView::Finished, cache_binary(q, root)),
            },
            _ => (StageView::Finished, unexpected()),
        },
        StageView::Updated(root, v) => match e {
            Event::Ran(o) => match step_result("update"@, q.gem, o) {
                Err(m) => (StageView::Finished, cache_failure(m)),
                Ok(()) => (
                    StageView::Uninstalled(root),
                    cache_command(q, root, "uninstall"@, uninstall_args(q.gem, v)),
                ),
            },
            _ => (StageView::Finished, unexpected()),
        },
        StageView::Uninstalled(root) => match e {
            Event::Ran(o) => match step_result("uninstall"@, q.gem, o) {
                Err(m) => (StageView::Finished, cache_failure(m)),
                Ok(()) => (StageView::Finished, cache_binary(q, root)),
            },
            _ => (StageView::Finished, unexpected()),
        },
        StageView::Installed(root) => match e {
            Event::Ran(o) => match step_result("install"@, q.gem, o) {
                Err(m) => (StageView::Finished, cache_failure(m)),
                Ok(()) => (StageView::Finished, cache_binary(q, root)),
            },
            _ => (StageView::Finished, unexpected()),
        },
        StageView::Finished => (StageView::Finished, unexpected()),
    }
}

/// How many steps a stage is at most from its end.
pub open spec fn rank(s: StageView) -> nat {
    match s {
        StageView::Start => 10,
        StageView::BundledVersion => 9,
        StageView::BundlePath => 8,
        StageView::ToolPath => 7,
        StageView::Probing => 6,
        StageView::CachedVersion(_) => 5,
        StageView::Outdated(_, _) => 4,
        StageView::Updated(_, _) => 3,
        StageView::Uninstalled(_) => 2,
        StageView::Installed(_) => 2,
        StageView::Finished => 0,
    }
}

/// Whether an action ends the resolution.
pub open spec fn is_final(a: ActionView) -> bool {
    a is Done || a is Fail
}

/// Whether an event answers an action: a run outcome a run, a search
/// result a search.
pub open spec fn answers(a: ActionView, e: Event) -> bool {
    (a is Run && e is Ran) || (a is Lookup && e is Found)
}

/// The stage and the action after a history of events, from the start.
pub open spec fn after(q: RequestView, evs: Seq<Event>) -> (StageView, ActionView)
    decreases evs.len(),
{
    if evs.len() == 0 {
        (StageView::Start, ActionView::Fail(Seq::empty()))
    } else {
        transition(q, after(q, evs.drop_last()).0, evs.last())
    }
}

/// Whether a history is one run of a resolution: it begins, each later
/// event answers the action before it, and no action before the last ends
/// the resolution.
pub open spec fn is_run(q: RequestView, evs: Seq<Event>) -> bool {
    &&& evs.len() > 0
    &&& evs[0] is Begin
    &&& forall|i: int|
        1 <= i < evs.len() ==> !is_final(#[trigger] after(q, evs.take(i)).1) && answers(
            after(q, evs.take(i)).1,
            evs[i],
        )
}

/// The action that ends a resolution with this result.
pub open spec fn result_action(r: Result<LanguageServerBinary, String>) -> ActionView {
    match r {
        Ok(b) => ActionView::Done(b@),
        Err(m) => ActionView::Fail(m@),
    }
}

/// A resolution in progress.
pub struct Resolver {
    request: ResolveRequest,
    bundler: Bundler,
    gemset: Option<Gemset>,
    stage: Stage,
}

fn copy_opt_strings(v: &Option<Vec<String>>) -> (r: Option<Vec<String>>)
    ensures
        r.deep_view() == v.deep_view(),
{
    match v {
        Some(v) => Some(copy_strings(v)),
        None => None,
    }
}

fn cache_failure_action(m: String) -> (r: Action)
    ensures
        r@ == cache_failure(m@),
{
    let mut msg = String::from_str("private gem cache: ");
    msg.append(m.as_str());
    Action::Fail(msg)
}

fn unexpected_action() -> (r: Action)
    ensures
        r@ == unexpected(),
{
    Action::Fail(String::from_str("unexpected event for this stage of resolution"))
}

impl Resolver {
    pub closed spec fn request_view(&self) -> RequestView {
        self.request@
    }

    /// The root of the private cache, once the runtime named it.
    closed spec fn root(&self) -> Seq<char> {
        match self.gemset {
            Some(g) => g.home(),
            None => Seq::empty(),
        }
    }

    pub closed spec fn stage_view(&self) -> StageView {
        match self.stage {
            Stage::Start => StageView::Start,
            Stage::BundledVersion => StageView::BundledVersion,
            Stage::BundlePath => StageView::BundlePath,
            Stage::ToolPath => StageView::ToolPath,
            Stage::Probing => StageView::Probing,
            Stage::CachedVersion => StageView::CachedVersion(self.root()),
            Stage::Outdated(v) => StageView::Outdated(self.root(), v@),
            Stage::Updated(v) => StageView::Updated(self.root(), v@),
            Stage::Uninstalled => StageView::Uninstalled(self.root()),
            Stage::Installed => StageView::Installed(self.root()),
            Stage::Finished => StageView::Finished,
        }
    }

    /// The bundle is the project's; the cache, once there, serves the
    /// project in its environment.
    pub closed spec fn wf(&self) -> bool {
        &&& self.bundler.working_dir@ == self.request.project_root@
        &&& self.bundler.envs.deep_view() == self.request.shell_env.deep_view()
        &&& match self.gemset {
            Some(g) => {
                &&& g.wf()
                &&& g.workdir() == self.request.project_root@
                &&& g.ambient() == self.request.shell_env.deep_view()
            },
            None => true,
        }
        &&& match self.stage {
            Stage::CachedVersion | Stage::Outdated(_) | Stage::Updated(_) | Stage::Uninstalled
            | Stage::Installed => self.gemset is Some,
            _ => true,
        }
    }

    pub fn new(request: ResolveRequest) -> (r: Self)
        ensures
            r.wf(),
            r.request_view() == request@,
            r.stage_view() == StageView::Start,
    {
        let bundler = Bundler::new(request.project_root.clone(), copy_env(&request.shell_env));
        Resolver { request, bundler, gemset: None, stage: Stage::Start }
    }

    fn cache_binary_action(&mut self) -> (r: Action)
        requires
            old(self).wf(),
            old(self).gemset is Some,
        ensures
            final(self).wf(),
            final(self).request == old(self).request,
            final(self).stage == old(self).stage,
            final(self).root() == old(self).root(),
            r@ == cache_binary(old(self).request@, old(self).root()),
    {
        let exe = self.request.identity.executable_name.as_str();
        let args = copy_strings(&self.request.tool_args);
        match &mut self.gemset {
            Some(gemset) => {
                let path = match gemset.gem_bin_path(exe) {
                    Ok(p) => p,
                    Err(e) => {
                        return Action::Fail(e);
                    },
                };
                let env = gemset.env();
                Action::Done(LanguageServerBinary { path, args: Some(args), env: Some(env) })
            },
            None => unexpected_action(),
        }
    }

    /// Takes one step: answers `event` with the next action, as
    /// [`transition`] says.
    pub fn step(&mut self, event: Event) -> (r: Action)
        requires
            old(self).wf(),
        ensures
            final(self).wf(),
            final(self).request_view() == old(self).request_view(),
            (final(self).stage_view(), r@) == transition(
                old(self).request_view(),
                old(self).stage_view(),
                event,
            ),
    {
        let ghost root = self.root();
        let mut stage = Stage::Finished;
        core::mem::swap(&mut self.stage, &mut stage);
        let gem = self.request.identity.gem_name.as_str();
        match stage {
            Stage::Start => match event {
                Event::Begin => match &self.request.override_path {
                    Some(p) => {
                        Action::Done(
                            LanguageServerBinary {
                                path: p.clone(),
                                args: copy_opt_strings(&self.request.override_args),
                                env: Some(copy_env(&self.request.shell_env)),
                            },
                        )
                    },
                    None => {
                        if self.request.use_bundler {
                            self.stage = Stage::BundledVersion;
                            Action::Run(self.bundler.info_command(gem))
                        } else {
                            self.stage = Stage::ToolPath;
                            Action::Lookup(self.request.identity.executable_name.clone())
                        }
                    },
                },
                _ => unexpected_action(),
            },
            Stage::BundledVersion => match event {
                Event::Ran(o) => {
                    match bundle_outcome(o) {
                        Ok(_) => {
                            self.stage = Stage::BundlePath;
                            Action::Lookup(String::from_str("bundle"))
                        },
                        Err(_) => {
                            self.stage = Stage::ToolPath;
                            Action::Lookup(self.request.identity.executable_name.clone())
                        },
                    }
                },
                _ => unexpected_action(),
            },
            Stage::BundlePath => match event {
                Event::Found(Some(p)) => {
                    let mut args: Vec<String> = Vec::new();
                    args.push(String::from_str("exec"));
                    args.push(self.request.identity.executable_name.clone());
                    let mut i: usize = 0;
                    while i < self.request.tool_args.len()
                        invariant
                            0 <= i <= self.request.tool_args@.len(),
                            args@.len() == i + 2,
                            args@[0]@ == "exec"@,
                            args@[1]@ == self.request.identity.executable_name@,
                            forall|k: int|
                                0 <= k < i ==> args@[k + 2]@ == self.request.tool_args@[k]@,
                        decreases self.request.tool_args@.len() - i,
                    {
                        args.push(self.request.tool_args[i].clone());
                        i = i + 1;
                    }
                    assert(args.deep_view() =~= seq!["exec"@, self.request.identity.executable_name@]
                        + self.request.tool_args.deep_view());
                    Action::Done(
                        LanguageServerBinary {
                            path: p,
                            args: Some(args),
                            env: Some(copy_env(&self.request.shell_env)),
                        },
                    )
                },
                Event::Found(None) => Action::Fail(String::from_str("Unable to find 'bundle' command")),
                _ => unexpected_action(),
            },
            Stage::ToolPath => match event {
                Event::Found(Some(p)) => {
                    Action::Done(
                        LanguageServerBinary {
                            path: p,
                            args: Some(copy_strings(&self.request.tool_args)),
                            env: Some(copy_env(&self.request.shell_env)),
                        },
                    )
                },
                Event::Found(None) => {
                    self.stage = Stage::Probing;
                    let mut args: Vec<String> = Vec::new();
                    args.push(String::from_str("--version"));
                    assert(args.deep_view() =~= seq!["--version"@]);
                    Action::Run(
                        CommandSpec {
                            program: String::from_str(RUNTIME),
                            args,
                            envs: copy_env(&self.request.shell_env),
                        },
                    )
                },
                _ => unexpected_action(),
            },
            Stage::Probing => match event {
                Event::Ran(o) => {
                    if succeeded(&o) {
                        let root = match &o {
                            Ok(out) => cache_root_for(
                                self.request.cache_base.as_str(),
                                out.stdout.as_slice(),
                            ),
                            Err(_) => String::new(),
                        };
                        let gemset = Gemset::new(
                            root,
                            self.request.project_root.clone(),
                            Some(copy_env(&self.request.shell_env)),
                        );
                        let cmd = gemset.list_command(gem);
                        self.gemset = Some(gemset);
                        self.stage = Stage::CachedVersion;
                        Action::Run(cmd)
                    } else {
                        cache_failure_action(
                            failure_text(
                                &o,
                                "runtime version probe failed",
                                "Failed to execute runtime version probe: ",
                            ),
                        )
                    }
                },
                _ => unexpected_action(),
            },
            Stage::CachedVersion => match event {
                Event::Ran(o) => match listing_outcome(gem, &o) {
                    Err(m) => cache_failure_action(m),
                    Ok(Some(v)) => match &self.gemset {
                        Some(g) => {
                            let cmd = g.outdated_command();
                            self.stage = Stage::Outdated(v);
                            Action::Run(cmd)
                        },
                        None => unexpected_action(),
                    },
                    Ok(None) => match &self.gemset {
                        Some(g) => {
                            let cmd = g.install_command(gem);
                            self.stage = Stage::Installed;
                            Action::Run(cmd)
                        },
                        None => unexpected_action(),
                    },
                },
                _ => unexpected_action(),
            },
            Stage::Outdated(v) => match event {
                Event::Ran(o) => match outdated_outcome(gem, &o) {
                    Err(m) => cache_failure_action(m),
                    Ok(true) => match &self.gemset {
                        Some(g) => {
                            let cmd = g.update_command(gem);
                            self.stage = Stage::Updated(v);
                            Action::Run(cmd)
                        },
                        None => unexpected_action(),
                    },
                    Ok(false) => self.cache_binary_action(),
                },
                _ => unexpected_action(),
            },
            Stage::Updated(v) => match event {
                Event::Ran(o) => match step_outcome("update", gem, &o) {
                    Err(m) => cache_failure_action(m),
                    Ok(()) => match &self.gemset {
                        Some(g) => {
                            let cmd = g.uninstall_command(gem, v.as_str());
                            self.stage = Stage::Uninstalled;
                            Action::Run(cmd)
                        },
                        None => unexpected_action(),
                    },
                },
                _ => unexpected_action(),
            },
            Stage::Uninstalled => match event {
                Event::Ran(o) => match step_outcome("uninstall", gem, &o) {
                    Err(m) => cache_failure_action(m),
                    Ok(()) => self.cache_binary_action(),
                },
                _ => unexpected_action(),
            },
            Stage::Installed => match event {
                Event::Ran(o) => match step_outcome("install", gem, &o) {
                    Err(m) => cache_failure_action(m),
                    Ok(()) => self.cache_binary_action(),
                },
                _ => unexpected_action(),
            },
            Stage::Finished => unexpected_action(),
        }
    }
}

/// Whether `t` occurs in `s`.
pub open spec fn contains(s: Seq<char>, t: Seq<char>) -> bool {
    exists|i: int| 0 <= i && i + t.len() <= s.len() && #[trigger] s.subrange(i, i + t.len()) == t
}

/// Every step that does not end the resolution moves it closer to its end.
pub proof fn lemma_progress(q: RequestView, s: StageView, e: Event)
    ensures
        !is_final(transition(q, s, e).1) ==> rank(transition(q, s, e).0) < rank(s),
{
}

/// With an override configured, resolution ends at its first step with the
/// override, and a finished resolution asks for nothing more: no program is
/// ever run.
pub proof fn lemma_override_runs_nothing(q: RequestView, e: Event)
    requires
        q.override_path is Some,
    ensures
        transition(q, StageView::Start, Event::Begin) == (
            StageView::Finished,
            ActionView::Done(
                BinaryView {
                    path: q.override_path->Some_0,
                    args: q.override_args,
                    env: Some(q.env),
                },
            ),
        ),
        transition(q, StageView::Finished, e) == (StageView::Finished, unexpected()),
{
}

/// Without an override, when the bundle does not provide the gem and the
/// search path lacks the executable, the runtime is asked for its version,
/// which names the cache; the cache is asked for the gem and, finding none,
/// told to install it; the step after that ends the resolution, so the
/// install runs exactly once.
pub proof fn lemma_absent_installs_once(
    q: RequestView,
    bundled: Result<ProcessOutput, String>,
    probed: Result<ProcessOutput, String>,
    listed: Result<ProcessOutput, String>,
    e: Event,
)
    requires
        q.override_path is None,
        !(bundle_result(bundled) is Ok),
        exited_zero(probed),
        listing_result(q.gem, listed) == Ok::<Option<Seq<char>>, Seq<char>>(None),
    ensures
        ({
            let root = runtime_cache_root(q.cache_base, probed->Ok_0.stdout@);
            let t1 = transition(q, StageView::Start, Event::Begin);
            let t2 = if q.use_bundler { transition(q, t1.0, Event::Ran(bundled)) } else { t1 };
            let t3 = transition(q, t2.0, Event::Found(None));
            let t4 = transition(q, t3.0, Event::Ran(probed));
            let t5 = transition(q, t4.0, Event::Ran(listed));
            &&& q.use_bundler ==> t1.1 == ActionView::Run(bundle_info_command(q.root, q.env, q.gem))
            &&& t2.1 == ActionView::Lookup(q.exe)
            &&& t3.1 == ActionView::Run(probe_command(q))
            &&& t4.1 == cache_command(q, root, "list"@, list_args(q.gem))
            &&& t5.1 == cache_command(q, root, "install"@, install_args(q.gem))
            &&& is_final(transition(q, t5.0, e).1)
        }),
{
}

/// When the cache holds a version that is outdated, it is told to update the
/// gem and then, once that succeeded, to uninstall the version it held
/// before the update.
pub proof fn lemma_update_then_uninstall(
    q: RequestView,
    root: Seq<char>,
    listed: Result<ProcessOutput, String>,
    outdated: Result<ProcessOutput, String>,
    updated: Result<ProcessOutput, String>,
)
    requires
        listing_result(q.gem, listed) is Ok,
        listing_result(q.gem, listed)->Ok_0 is Some,
        outdated_result(q.gem, outdated) == Ok::<bool, Seq<char>>(true),
        step_result("update"@, q.gem, updated) == Ok::<(), Seq<char>>(()),
    ensures
        ({
            let v = listing_result(q.gem, listed)->Ok_0->Some_0;
            let t1 = transition(q, StageView::CachedVersion(root), Event::Ran(listed));
            let t2 = transition(q, t1.0, Event::Ran(outdated));
            let t3 = transition(q, t2.0, Event::Ran(updated));
            &&& t1.1 == cache_command(q, root, "outdated"@, Seq::empty())
            &&& t2.1 == cache_command(q, root, "update"@, seq![q.gem])
            &&& t3.1 == cache_command(q, root, "uninstall"@, uninstall_args(q.gem, v))
        }),
{
}

/// When the program cannot even be started while the cache installs the
/// gem, the resolution fails with a message that holds the executor's own.
pub proof fn lemma_spawn_failure_surfaces(q: RequestView, root: Seq<char>, m: String)
    ensures
        transition(q, StageView::Installed(root), Event::Ran(Err(m))).1 is Fail,
        contains(transition(q, StageView::Installed(root), Event::Ran(Err(m))).1->Fail_0, m@),
{
    let msg = transition(q, StageView::Installed(root), Event::Ran(Err(m))).1->Fail_0;
    let i = msg.len() - m@.len();
    assert(msg.subrange(i, i + m@.len()) =~= m@);
}

/// With an override configured, a run of the resolution is its first step
/// alone: no event follows it, so no command is ever run and no path is
/// searched.
pub proof fn lemma_override_run_is_one_step(q: RequestView, evs: Seq<Event>)
    requires
        q.override_path is Some,
        is_run(q, evs),
    ensures
        evs.len() == 1,
        after(q, evs).1 is Done,
{
    if evs.len() > 1 {
        let first = evs.take(1);
        assert(first.drop_last() =~= Seq::<Event>::empty());
        assert(!is_final(after(q, first).1));
    }
    assert(evs.drop_last() =~= Seq::<Event>::empty());
    assert(evs.last() == evs[0]);
    assert(after(q, Seq::<Event>::empty()).0 == StageView::Start);
    assert(after(q, evs.drop_last()).0 == StageView::Start);
    assert(after(q, evs) == transition(q, StageView::Start, Event::Begin));
}

/// Runs a resolution to its end: each command goes to `exec`, each search
/// of the path to `worktree`, and each answer back to the step function.
/// Whatever the answers, the result is the final action of one run of
/// [`transition`]; with an override configured, it is the override and no
/// command runs.
pub fn resolve<E: CommandExecutor, W: WorktreeLike>(
    request: ResolveRequest,
    exec: &E,
    worktree: &W,
) -> (r: Result<LanguageServerBinary, String>)
    ensures
        exists|evs: Seq<Event>|
            is_run(request@, evs) && #[trigger] after(request@, evs).1 == result_action(r),
        request@.override_path is Some ==> r is Ok && ActionView::Done(r->Ok_0@) == transition(
            request@,
            StageView::Start,
            Event::Begin,
        ).1,
{
    let ghost q = request@;
    let mut resolver = Resolver::new(request);
    let mut event = Event::Begin;
    let ghost mut hist: Seq<Event> = Seq::empty();
    loop
        invariant
            resolver.wf(),
            resolver.request_view() == q,
            q == request@,
            resolver.stage_view() == after(q, hist).0,
            hist.len() == 0 ==> event is Begin,
            hist.len() > 0 ==> hist[0] is Begin && !is_final(after(q, hist).1) && answers(
                after(q, hist).1,
                event,
            ),
            forall|i: int|
                1 <= i < hist.len() ==> !is_final(#[trigger] after(q, hist.take(i)).1) && answers(
                    after(q, hist.take(i)).1,
                    hist[i],
                ),
            q.override_path is Some ==> hist.len() == 0,
        decreases rank(resolver.stage_view()),
    {
        let ghost before = resolver.stage_view();
        let ghost happened = event;
        let ghost now = hist.push(happened);
        let action = resolver.step(event);
        proof {
            lemma_progress(q, before, happened);
            assert(now.drop_last() =~= hist);
            assert(after(q, now) == transition(q, before, happened));
            assert forall|i: int| 1 <= i < now.len() implies !is_final(
                #[trigger] after(q, now.take(i)).1,
            ) && answers(after(q, now.take(i)).1, now[i]) by {
                if i < hist.len() {
                    assert(now.take(i) =~= hist.take(i));
                } else {
                    assert(now.take(i) =~= hist);
                }
            }
            assert(is_run(q, now) ==> after(q, now).1 == action@);
        }
        match action {
            Action::Run(cmd) => {
                event = Event::Ran(run(exec, cmd));
            },
            Action::Lookup(name) => {
                event = Event::Found(worktree.which(name.as_str()));
            },
            Action::Done(b) => {
                assert(is_run(q, now));
                return Ok(b);
            },
            Action::Fail(m) => {
                assert(is_run(q, now));
                return Err(m);
            },
        }
        proof {
            hist = now;
        }
    }
}

} // verus!
