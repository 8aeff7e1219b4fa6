use std::cell::RefCell;
use zed_ruby::fingerprint::cache_root_for;
use zed_ruby::{
    request_for, resolve, Action, CommandExecutor, Event, FakeWorktree, LanguageServer,
    LspBinarySettings,
    ProcessOutput, ResolveRequest, Resolver, RubyLsp, Sorbet, ToolIdentity,
};

struct ScriptedExecutor {
    calls: RefCell<Vec<(String, Vec<String>)>>,
    outputs: RefCell<Vec<Result<ProcessOutput, String>>>,
}

impl ScriptedExecutor {
    fn new(outputs: Vec<Result<ProcessOutput, String>>) -> Self {
        ScriptedExecutor {
            calls: RefCell::new(Vec::new()),
            outputs: RefCell::new(outputs),
        }
    }

    fn calls(&self) -> Vec<(String, Vec<String>)> {
        self.calls.borrow().clone()
    }
}

impl CommandExecutor for ScriptedExecutor {
    fn execute(
        &self,
        cmd: &str,
        args: Vec<String>,
        _envs: Vec<(String, String)>,
    ) -> Result<ProcessOutput, String> {
        self.calls.borrow_mut().push((cmd.to_string(), args));
        self.outputs.borrow_mut().remove(0)
    }
}

fn output(status: i32, stdout: &str, stderr: &str) -> Result<ProcessOutput, String> {
    Ok(ProcessOutput {
        status: Some(status),
        stdout: stdout.as_bytes().to_vec(),
        stderr: stderr.as_bytes().to_vec(),
    })
}

fn request_of<S: LanguageServer>(
    server: &S,
    worktree: &FakeWorktree,
    use_bundler_setting: Option<bool>,
    cache_base: &str,
) -> Result<ResolveRequest, String> {
    request_for(
        server.identity(),
        server.use_bundler_by_default(),
        server.get_executable_args(worktree),
        worktree,
        use_bundler_setting,
        cache_base.to_string(),
    )
}

fn strings(v: &[&str]) -> Vec<String> {
    v.iter().map(|s| s.to_string()).collect()
}

const PROBE: &str = "ruby 3.3.0 (2023-12-25 revision 5124f9ac75) [x86_64-linux]\n";

fn probe() -> Result<ProcessOutput, String> {
    output(0, PROBE, "")
}

fn cache_root() -> String {
    cache_root_for("/cache", PROBE.as_bytes())
}

fn request(use_bundler: bool) -> ResolveRequest {
    ResolveRequest {
        identity: ToolIdentity {
            server_id: "ruby-lsp".to_string(),
            executable_name: "ruby-lsp".to_string(),
            gem_name: "ruby-lsp".to_string(),
        },
        project_root: "/proj".to_string(),
        shell_env: vec![("PATH".to_string(), "/usr/bin".to_string())],
        override_path: None,
        override_args: None,
        use_bundler,
        tool_args: strings(&["--x"]),
        cache_base: "/cache".to_string(),
    }
}

#[test]
fn override_runs_no_program() {
    let mut worktree = FakeWorktree::new("/proj".to_string());
    worktree.add_lsp_binary_setting(
        RubyLsp::SERVER_ID.to_string(),
        Ok(Some(LspBinarySettings {
            path: Some("/opt/ruby-lsp".to_string()),
            arguments: Some(strings(&["--debug"])),
        })),
    );
    let req = request_of(&RubyLsp::new(), &worktree, None, "/cache").unwrap();
    let exec = ScriptedExecutor::new(Vec::new());
    let binary = resolve(req, &exec, &worktree).unwrap();
    assert_eq!(binary.path, "/opt/ruby-lsp");
    assert_eq!(binary.args, Some(strings(&["--debug"])));
    assert_eq!(binary.env, Some(Vec::new()));
    assert!(exec.calls().is_empty());
}

#[test]
fn absent_everywhere_installs_once() {
    let worktree = FakeWorktree::new("/proj".to_string());
    let exec = ScriptedExecutor::new(vec![
        output(10, "", "Could not locate Gemfile"),
        probe(),
        output(0, "*** LOCAL GEMS ***\n", ""),
        output(0, "Successfully installed ruby-lsp-1.0.0", ""),
    ]);
    let binary = resolve(request(true), &exec, &worktree).unwrap();
    let calls = exec.calls();
    assert_eq!(calls.len(), 4);
    assert_eq!(calls[0].0, "bundle");
    assert_eq!(calls[1], ("ruby".to_string(), strings(&["--version"])));
    assert_eq!(calls[2].1, strings(&["list", "--norc", "--exact", "ruby-lsp"]));
    assert_eq!(
        calls[3].1,
        strings(&[
            "install",
            "--norc",
            "--no-user-install",
            "--no-format-executable",
            "--no-document",
            "ruby-lsp"
        ])
    );
    let installs = calls.iter().filter(|c| c.1[0] == "install").count();
    assert_eq!(installs, 1);
    let root = cache_root();
    assert_eq!(binary.path, format!("{root}/bin/ruby-lsp"));
    assert_eq!(binary.args, Some(strings(&["--x"])));
    assert_eq!(
        binary.env,
        Some(vec![
            ("PATH".to_string(), format!("{root}/bin:/usr/bin")),
            ("GEM_PATH".to_string(), format!("{root}:$GEM_PATH")),
        ])
    );
}

#[test]
fn outdated_gem_is_updated_then_old_version_uninstalled() {
    let worktree = FakeWorktree::new("/proj".to_string());
    let exec = ScriptedExecutor::new(vec![
        probe(),
        output(0, "ruby-lsp (0.9.0)\n", ""),
        output(0, "csv (3.3.2 < 3.3.4)\nruby-lsp (0.9.0 < 1.0.0)\n", ""),
        output(0, "Gems updated: ruby-lsp", ""),
        output(0, "Successfully uninstalled ruby-lsp-0.9.0", ""),
    ]);
    let binary = resolve(request(false), &exec, &worktree).unwrap();
    let subcommands: Vec<Vec<String>> = exec.calls().into_iter().map(|c| c.1).collect();
    assert_eq!(
        subcommands,
        vec![
            strings(&["--version"]),
            strings(&["list", "--norc", "--exact", "ruby-lsp"]),
            strings(&["outdated", "--norc"]),
            strings(&["update", "--norc", "ruby-lsp"]),
            strings(&["uninstall", "--norc", "ruby-lsp", "--version", "0.9.0"]),
        ]
    );
    assert_eq!(binary.path, format!("{}/bin/ruby-lsp", cache_root()));
}

#[test]
fn current_gem_is_used_as_is() {
    let worktree = FakeWorktree::new("/proj".to_string());
    let exec = ScriptedExecutor::new(vec![
        probe(),
        output(0, "ruby-lsp (1.0.0)\n", ""),
        output(0, "csv (3.3.2 < 3.3.4)\n", ""),
    ]);
    let binary = resolve(request(false), &exec, &worktree).unwrap();
    assert_eq!(exec.calls().len(), 3);
    assert_eq!(binary.path, format!("{}/bin/ruby-lsp", cache_root()));
}

#[test]
fn runtimes_with_different_versions_get_different_caches() {
    let worktree = FakeWorktree::new("/proj".to_string());
    let exec = ScriptedExecutor::new(vec![
        output(0, "ruby 3.4.1\n", ""),
        output(0, "ruby-lsp (1.0.0)\n", ""),
        output(0, "", ""),
    ]);
    let binary = resolve(request(false), &exec, &worktree).unwrap();
    let other = cache_root_for("/cache", b"ruby 3.4.1\n");
    assert_ne!(other, cache_root());
    assert_eq!(binary.path, format!("{other}/bin/ruby-lsp"));
}

#[test]
fn failed_runtime_probe_ends_resolution() {
    let worktree = FakeWorktree::new("/proj".to_string());
    let exec = ScriptedExecutor::new(vec![Err("ruby: not found".to_string())]);
    assert_eq!(
        resolve(request(false), &exec, &worktree).unwrap_err(),
        "private gem cache: ruby: not found"
    );
    let exec = ScriptedExecutor::new(vec![output(1, "", "bad")]);
    assert_eq!(
        resolve(request(false), &exec, &worktree).unwrap_err(),
        "private gem cache: runtime version probe failed (status: 1)\nError: bad"
    );
}

#[test]
fn failed_uninstall_after_update_is_fatal() {
    let worktree = FakeWorktree::new("/proj".to_string());
    let exec = ScriptedExecutor::new(vec![
        probe(),
        output(0, "ruby-lsp (0.9.0)\n", ""),
        output(0, "ruby-lsp (0.9.0 < 1.0.0)\n", ""),
        output(0, "", ""),
        output(1, "", "not installed"),
    ]);
    let err = resolve(request(false), &exec, &worktree).unwrap_err();
    assert!(err.contains("Failed to uninstall gem 'ruby-lsp'"));
    assert!(err.contains("not installed"));
}

#[test]
fn spawn_failure_during_install_surfaces() {
    let worktree = FakeWorktree::new("/proj".to_string());
    let exec = ScriptedExecutor::new(vec![
        probe(),
        output(0, "", ""),
        Err("could not spawn 'gem': No such file or directory".to_string()),
    ]);
    let err = resolve(request(false), &exec, &worktree).unwrap_err();
    assert!(err.contains("could not spawn 'gem': No such file or directory"));
    assert!(err.starts_with("private gem cache: "));
}

#[test]
fn bundled_gem_runs_through_bundle_exec() {
    let mut worktree = FakeWorktree::new("/proj".to_string());
    worktree.add_executable("bundle".to_string(), "/usr/bin/bundle".to_string());
    let exec = ScriptedExecutor::new(vec![output(0, "0.23.0\n", "")]);
    let binary = resolve(request(true), &exec, &worktree).unwrap();
    assert_eq!(binary.path, "/usr/bin/bundle");
    assert_eq!(binary.args, Some(strings(&["exec", "ruby-lsp", "--x"])));
    assert_eq!(
        exec.calls(),
        vec![(
            "bundle".to_string(),
            strings(&["info", "--version", "ruby-lsp"])
        )]
    );
}

#[test]
fn bundled_gem_without_bundle_on_path_fails() {
    let worktree = FakeWorktree::new("/proj".to_string());
    let exec = ScriptedExecutor::new(vec![output(0, "0.23.0\n", "")]);
    assert_eq!(
        resolve(request(true), &exec, &worktree).unwrap_err(),
        "Unable to find 'bundle' command"
    );
}

#[test]
fn executable_on_search_path_is_used_directly() {
    let mut worktree = FakeWorktree::new("/proj".to_string());
    worktree.add_executable("ruby-lsp".to_string(), "/usr/local/bin/ruby-lsp".to_string());
    let exec = ScriptedExecutor::new(Vec::new());
    let binary = resolve(request(false), &exec, &worktree).unwrap();
    assert_eq!(binary.path, "/usr/local/bin/ruby-lsp");
    assert_eq!(
        binary.env,
        Some(vec![("PATH".to_string(), "/usr/bin".to_string())])
    );
    assert!(exec.calls().is_empty());
}

#[test]
fn settings_can_turn_the_bundle_off() {
    let worktree = FakeWorktree::new("/proj".to_string());
    let req = request_of(&Sorbet::new(), &worktree, Some(false), "/c").unwrap();
    assert!(!req.use_bundler);
    assert_eq!(req.identity.executable_name, "srb");
    assert_eq!(req.tool_args, strings(&["tc", "--lsp", "--dir", "./"]));
    let req = request_of(&Sorbet::new(), &worktree, None, "/c").unwrap();
    assert!(req.use_bundler);
}

#[test]
fn unreadable_settings_fail_the_request() {
    let mut worktree = FakeWorktree::new("/proj".to_string());
    worktree.add_lsp_binary_setting(RubyLsp::SERVER_ID.to_string(), Err("bad json".to_string()));
    assert!(request_of(&RubyLsp::new(), &worktree, None, "/c").is_err());
}

#[test]
fn unexpected_event_fails_the_step() {
    let mut resolver = Resolver::new(request(false));
    match resolver.step(Event::Found(None)) {
        Action::Fail(m) => assert!(m.contains("unexpected event")),
        _ => panic!("expected a failure"),
    }
    match resolver.step(Event::Begin) {
        Action::Fail(_) => {}
        _ => panic!("a finished resolution stays finished"),
    }
}

#[test]
fn tool_policy_can_rule_out_the_bundle() {
    let worktree = FakeWorktree::new("/proj".to_string());
    let req = request_for(
        RubyLsp::tool_identity(),
        false,
        Vec::new(),
        &worktree,
        Some(true),
        "/c".to_string(),
    )
    .unwrap();
    assert!(!req.use_bundler);
    assert_eq!(req.project_root, "/proj");
    assert_eq!(req.cache_base, "/c");
    assert_eq!(req.override_path, None);
}

#[test]
fn settings_without_a_path_configure_no_override() {
    let mut worktree = FakeWorktree::new("/proj".to_string());
    worktree.add_lsp_binary_setting(
        RubyLsp::SERVER_ID.to_string(),
        Ok(Some(LspBinarySettings {
            path: None,
            arguments: Some(strings(&["--ignored"])),
        })),
    );
    let req = request_of(&RubyLsp::new(), &worktree, None, "/c").unwrap();
    assert_eq!(req.override_path, None);
    assert_eq!(req.override_args, None);
}
