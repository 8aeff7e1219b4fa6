use std::cell::RefCell;
use zed_ruby::{Bundler, CommandExecutor, Gemset, ProcessOutput};

type Call = (String, Vec<String>, Vec<(String, String)>);

struct MockExecutor {
    calls: RefCell<Vec<Call>>,
    outputs: RefCell<Vec<Result<ProcessOutput, String>>>,
}

impl MockExecutor {
    fn returning(output: Result<ProcessOutput, String>) -> Self {
        MockExecutor {
            calls: RefCell::new(Vec::new()),
            outputs: RefCell::new(vec![output]),
        }
    }

    fn only_call(&self) -> Call {
        let calls = self.calls.borrow();
        assert_eq!(calls.len(), 1, "Mock: expected exactly one call");
        calls[0].clone()
    }
}

impl CommandExecutor for MockExecutor {
    fn execute(
        &self,
        cmd: &str,
        args: Vec<String>,
        envs: Vec<(String, String)>,
    ) -> Result<ProcessOutput, String> {
        self.calls.borrow_mut().push((cmd.to_string(), args, envs));
        self.outputs.borrow_mut().remove(0)
    }
}

fn output(status: Option<i32>, stdout: &str, stderr: &str) -> Result<ProcessOutput, String> {
    Ok(ProcessOutput {
        status,
        stdout: stdout.as_bytes().to_vec(),
        stderr: stderr.as_bytes().to_vec(),
    })
}

const TEST_GEM_HOME: &str = "/test/gem_home";
const TEST_WORKING_DIR: &str = "/test/my_project";

fn create_gemset() -> Gemset {
    Gemset::new(TEST_GEM_HOME.into(), TEST_WORKING_DIR.into(), None)
}

fn strings(v: &[&str]) -> Vec<String> {
    v.iter().map(|s| s.to_string()).collect()
}

fn pairs(v: &[(&str, &str)]) -> Vec<(String, String)> {
    v.iter().map(|(k, v)| (k.to_string(), v.to_string())).collect()
}

fn base_envs() -> Vec<(String, String)> {
    pairs(&[
        ("GEM_HOME", TEST_GEM_HOME),
        ("GEM_PATH", TEST_GEM_HOME),
        ("RBENV_DIR", TEST_WORKING_DIR),
    ])
}

#[test]
fn test_gem_bin_path() {
    let gemset = create_gemset();
    let path = gemset.gem_bin_path("ruby-lsp").unwrap();
    assert_eq!(path, "/test/gem_home/bin/ruby-lsp");
}

#[test]
fn test_gem_env() {
    let mut gemset = create_gemset();
    let env = gemset.env();
    assert_eq!(env.len(), 2);
    assert_eq!(env[0].0, "GEM_PATH");
    assert_eq!(env[0].1, "/test/gem_home:$GEM_PATH");
}

#[test]
fn test_gem_env_with_env_vars() {
    let mut gemset = Gemset::new(
        TEST_GEM_HOME.into(),
        TEST_WORKING_DIR.into(),
        Some(pairs(&[("GEM_HOME", "/home/user/.gem")])),
    );
    let env = gemset.env();
    assert_eq!(env.len(), 3);

    let env_map: std::collections::HashMap<String, String> = env.into_iter().collect();
    assert_eq!(env_map.get("GEM_HOME").unwrap(), "/home/user/.gem");
    assert_eq!(env_map.get("GEM_PATH").unwrap(), "/test/gem_home:$GEM_PATH");
    assert_eq!(env_map.get("PATH").unwrap(), "/test/gem_home/bin:$PATH");
}

#[test]
fn test_gem_env_with_env_vars_overwrite() {
    let mut gemset = Gemset::new(
        TEST_GEM_HOME.into(),
        TEST_WORKING_DIR.into(),
        Some(pairs(&[("GEM_PATH", "/home/user/.gem")])),
    );
    let env = gemset.env();
    // the ambient gem path stays, behind the cache's root, in one entry
    assert_eq!(env.len(), 2);

    let env_map: std::collections::HashMap<String, String> = env.into_iter().collect();
    assert_eq!(
        env_map.get("GEM_PATH").unwrap(),
        "/test/gem_home:/home/user/.gem"
    );
    assert_eq!(env_map.get("PATH").unwrap(), "/test/gem_home/bin:$PATH");
}

#[test]
fn gem_env_is_the_same_on_every_call() {
    let mut gemset = Gemset::new(
        TEST_GEM_HOME.into(),
        TEST_WORKING_DIR.into(),
        Some(pairs(&[("PATH", "/usr/bin"), ("HOME", "/home/u")])),
    );
    let first = gemset.env();
    let second = gemset.env();
    assert_eq!(first, second);
    assert_eq!(
        first,
        pairs(&[
            ("PATH", "/test/gem_home/bin:/usr/bin"),
            ("HOME", "/home/u"),
            ("GEM_PATH", "/test/gem_home:$GEM_PATH"),
        ])
    );
}

#[test]
fn gem_env_does_not_repeat_a_leading_cache_path() {
    let mut gemset = Gemset::new(
        TEST_GEM_HOME.into(),
        TEST_WORKING_DIR.into(),
        Some(pairs(&[
            ("GEM_PATH", "/test/gem_home:/other"),
            ("PATH", "/test/gem_home/bin"),
        ])),
    );
    assert_eq!(
        gemset.env(),
        pairs(&[
            ("GEM_PATH", "/test/gem_home:/other"),
            ("PATH", "/test/gem_home/bin"),
        ])
    );
    let mut prefixed = Gemset::new(
        TEST_GEM_HOME.into(),
        TEST_WORKING_DIR.into(),
        Some(pairs(&[("GEM_PATH", "/test/gem_home2")])),
    );
    assert_eq!(
        prefixed.env()[0],
        (
            "GEM_PATH".to_string(),
            "/test/gem_home:/test/gem_home2".to_string()
        )
    );
}

#[test]
fn test_install_gem_success() {
    let mock = MockExecutor::returning(output(
        Some(0),
        "Successfully installed ruby-lsp-1.0.0",
        "",
    ));
    let gemset = create_gemset();
    assert!(gemset.install_gem(&mock, "ruby-lsp").is_ok());
    assert_eq!(
        mock.only_call(),
        (
            "gem".to_string(),
            strings(&[
                "install",
                "--norc",
                "--no-user-install",
                "--no-format-executable",
                "--no-document",
                "ruby-lsp",
            ]),
            base_envs()
        )
    );
}

#[test]
fn test_install_gem_with_custom_env() {
    let mock = MockExecutor::returning(output(
        Some(0),
        "Successfully installed ruby-lsp-1.0.0",
        "",
    ));
    let gemset = Gemset::new(
        TEST_GEM_HOME.into(),
        TEST_WORKING_DIR.into(),
        Some(pairs(&[("CUSTOM_VAR", "custom_value")])),
    );
    assert!(gemset.install_gem(&mock, "ruby-lsp").is_ok());
    let mut envs = base_envs();
    envs.push(("CUSTOM_VAR".to_string(), "custom_value".to_string()));
    assert_eq!(mock.only_call().2, envs);
}

#[test]
fn ambient_gem_home_does_not_override_the_cache() {
    let mock = MockExecutor::returning(output(Some(0), "", ""));
    let gemset = Gemset::new(
        TEST_GEM_HOME.into(),
        TEST_WORKING_DIR.into(),
        Some(pairs(&[("GEM_HOME", "/elsewhere"), ("A", "b")])),
    );
    assert!(gemset.update_gem(&mock, "ruby-lsp").is_ok());
    let mut envs = base_envs();
    envs.push(("A".to_string(), "b".to_string()));
    assert_eq!(mock.only_call().2, envs);
}

#[test]
fn test_install_gem_failure() {
    let mock = MockExecutor::returning(output(Some(1), "", "Installation error"));
    let gemset = create_gemset();
    let result = gemset.install_gem(&mock, "ruby-lsp");
    assert!(result.is_err());
    assert_eq!(
        result.unwrap_err(),
        "Failed to install gem 'ruby-lsp': Gem command failed (status: 1)\nError: Installation error"
    );
}

#[test]
fn test_update_gem_success() {
    let mock = MockExecutor::returning(output(Some(0), "Gems updated: ruby-lsp", ""));
    let gemset = create_gemset();
    assert!(gemset.update_gem(&mock, "ruby-lsp").is_ok());
    assert_eq!(
        mock.only_call(),
        (
            "gem".to_string(),
            strings(&["update", "--norc", "ruby-lsp"]),
            base_envs()
        )
    );
}

#[test]
fn test_update_gem_failure() {
    let mock = MockExecutor::returning(output(Some(1), "", "Update error"));
    let gemset = create_gemset();
    let result = gemset.update_gem(&mock, "ruby-lsp");
    assert!(result.is_err());
    assert!(result
        .unwrap_err()
        .contains("Failed to update gem 'ruby-lsp'"));
}

#[test]
fn test_installed_gem_version_found() {
    let gem_list_output = format!(
        "{}\n{} ({})\n{}",
        "ignore this", "ruby-lsp", "1.2.3", "other_gem (3.2.1)"
    );
    let mock = MockExecutor::returning(output(Some(0), &gem_list_output, ""));
    let gemset = create_gemset();
    let version = gemset.installed_gem_version(&mock, "ruby-lsp").unwrap();
    assert_eq!(version, Some("1.2.3".to_string()));
    assert_eq!(
        mock.only_call(),
        (
            "gem".to_string(),
            strings(&["list", "--norc", "--exact", "ruby-lsp"]),
            base_envs()
        )
    );
}

#[test]
fn test_installed_gem_version_found_with_default() {
    let gem_list_output = format!(
        "{}\n{} ({})\n{}",
        "*** LOCAL GEMS ***", "prism", "default: 1.2.0", "abbrev (0.1.2)"
    );
    let mock = MockExecutor::returning(output(Some(0), &gem_list_output, ""));
    let gemset = create_gemset();
    let version = gemset.installed_gem_version(&mock, "prism").unwrap();
    assert_eq!(version, Some("default: 1.2.0".to_string()));
}

#[test]
fn test_installed_gem_version_not_found() {
    let mock = MockExecutor::returning(output(
        Some(0),
        "other_gem (1.0.0)\nanother_gem (2.0.0)",
        "",
    ));
    let gemset = create_gemset();
    let version = gemset
        .installed_gem_version(&mock, "non_existent_gem")
        .unwrap();
    assert_eq!(version, None);
}

#[test]
fn installed_version_needs_an_exact_name_and_shape() {
    let mock = MockExecutor::returning(output(
        Some(0),
        "ruby-lsp-extra (9.9)\r\nruby-lsp 1.0\nruby-lsp ()\nruby-lsp (2.0.1, 1.9)\r\n",
        "",
    ));
    let gemset = create_gemset();
    let version = gemset.installed_gem_version(&mock, "ruby-lsp").unwrap();
    assert_eq!(version, Some("2.0.1, 1.9".to_string()));
}

#[test]
fn test_installed_gem_version_command_failure() {
    let mock = MockExecutor::returning(output(Some(127), "", "gem list error"));
    let gemset = create_gemset();
    let result = gemset.installed_gem_version(&mock, "ruby-lsp");
    assert!(result.is_err());
    assert!(result
        .unwrap_err()
        .contains("Gem command failed (status: 127)"));
}

#[test]
fn installed_version_without_status() {
    let mock = MockExecutor::returning(output(None, "", "killed"));
    let gemset = create_gemset();
    assert_eq!(
        gemset.installed_gem_version(&mock, "ruby-lsp"),
        Err("Failed to execute gem command: killed".to_string())
    );
}

#[test]
fn test_is_outdated_gem_true() {
    let outdated_output = format!(
        "{} (3.3.2 < 3.3.4)\n{} (2.9.1 < 2.11.3)\n{} (0.5.6 < 0.5.8)",
        "csv", "ruby-lsp", "net-imap"
    );
    let mock = MockExecutor::returning(output(Some(0), &outdated_output, ""));
    let gemset = create_gemset();
    assert!(gemset.is_outdated_gem(&mock, "ruby-lsp").unwrap());
    assert_eq!(
        mock.only_call(),
        (
            "gem".to_string(),
            strings(&["outdated", "--norc"]),
            base_envs()
        )
    );
}

#[test]
fn test_is_outdated_gem_false() {
    let mock = MockExecutor::returning(output(Some(0), "csv (3.3.2 < 3.3.4)", ""));
    let gemset = create_gemset();
    assert!(!gemset.is_outdated_gem(&mock, "ruby-lsp").unwrap());
}

#[test]
fn outdated_detection_example() {
    let text = "csv (3.3.2 < 3.3.4)\nfoo (1.0 < 2.0)";
    let gemset = create_gemset();
    let mock = MockExecutor::returning(output(Some(0), text, ""));
    assert!(gemset.is_outdated_gem(&mock, "foo").unwrap());
    let mock = MockExecutor::returning(output(Some(0), text, ""));
    assert!(!gemset.is_outdated_gem(&mock, "bar").unwrap());
    let mock = MockExecutor::returning(output(Some(0), "  \t\n   foo\t(1 < 2)", ""));
    assert!(gemset.is_outdated_gem(&mock, "foo").unwrap());
}

#[test]
fn test_is_outdated_gem_command_failure() {
    let mock = MockExecutor::returning(output(Some(1), "", "outdated command error"));
    let gemset = create_gemset();
    let result = gemset.is_outdated_gem(&mock, "ruby-lsp");
    assert!(result.is_err());
    assert!(result
        .unwrap_err()
        .contains("Gem command failed (status: 1)"));
}

#[test]
fn test_uninstall_gem_success() {
    let mock = MockExecutor::returning(output(
        Some(0),
        "Successfully uninstalled solargraph-0.55.1",
        "",
    ));
    let gemset = create_gemset();
    assert!(gemset.uninstall_gem(&mock, "solargraph", "0.55.1").is_ok());
    assert_eq!(
        mock.only_call(),
        (
            "gem".to_string(),
            strings(&["uninstall", "--norc", "solargraph", "--version", "0.55.1"]),
            base_envs()
        )
    );
}

#[test]
fn test_uninstall_gem_failure() {
    let mock = MockExecutor::returning(output(
        Some(1),
        "",
        "ERROR: While executing gem ... (Gem::InstallError)\n    gem \"solargraph\" is not installed",
    ));
    let gemset = create_gemset();
    let result = gemset.uninstall_gem(&mock, "solargraph", "0.55.1");
    assert!(result.is_err());
    assert!(result
        .unwrap_err()
        .contains("Failed to uninstall gem 'solargraph'"));
}

#[test]
fn test_uninstall_gem_command_execution_error() {
    let mock = MockExecutor::returning(Err("Command not found: gem".to_string()));
    let gemset = create_gemset();
    let result = gemset.uninstall_gem(&mock, "solargraph", "0.55.1");
    assert!(result.is_err());
    let error_message = result.unwrap_err();
    assert!(error_message.contains("Failed to uninstall gem 'solargraph'"));
    assert!(error_message.contains("Command not found: gem"));
}

#[test]
fn negative_status_is_written_with_its_sign() {
    let mock = MockExecutor::returning(output(Some(-12), "", "x"));
    let gemset = create_gemset();
    assert_eq!(
        gemset.install_gem(&mock, "a"),
        Err("Failed to install gem 'a': Gem command failed (status: -12)\nError: x".to_string())
    );
}

#[test]
fn test_installed_gem_version_success() {
    let mock = MockExecutor::returning(output(Some(0), "8.0.0", ""));
    let bundler = Bundler::new("test_dir".into(), Vec::new());
    let version = bundler
        .installed_gem_version(&mock, "rails")
        .expect("Expected successful version");
    assert_eq!(version, "8.0.0", "Installed gem version should match");
}

#[test]
fn test_installed_gem_version_command_error() {
    let error_output = "Could not find gem 'unknown_gem'.";
    let mock = MockExecutor::returning(output(Some(1), "", error_output));
    let bundler = Bundler::new("test_dir".into(), Vec::new());
    let result = bundler.installed_gem_version(&mock, "unknown_gem");

    assert!(
        result.is_err(),
        "Expected error for failed gem version check"
    );
    let err_msg = result.unwrap_err();
    assert!(
        err_msg.contains("'bundle' command failed (status: 1)"),
        "Error message should contain status"
    );
    assert!(
        err_msg.contains(error_output),
        "Error message should contain stderr output"
    );
    assert_eq!(
        mock.only_call(),
        (
            "bundle".to_string(),
            strings(&["info", "--version", "unknown_gem"]),
            pairs(&[("BUNDLE_GEMFILE", "test_dir/Gemfile")])
        )
    );
}

#[test]
fn test_installed_gem_version_execution_failure_from_executor() {
    let specific_error_msg = "Mocked execution failure";
    let mock = MockExecutor::returning(Err(specific_error_msg.to_string()));
    let bundler = Bundler::new("test_dir".into(), Vec::new());
    let result = bundler.installed_gem_version(&mock, "critical_gem");

    assert!(result.is_err(), "Expected error from executor failure");
    assert_eq!(
        result.unwrap_err(),
        specific_error_msg,
        "Error message should match executor error"
    );
}

#[test]
fn bundler_keeps_ambient_env_and_pins_gemfile_last() {
    let mock = MockExecutor::returning(output(Some(0), "1.0\n", ""));
    let bundler = Bundler::new("/proj/".into(), pairs(&[("PATH", "/bin")]));
    assert_eq!(
        bundler.installed_gem_version(&mock, "rake"),
        Ok("1.0\n".to_string())
    );
    assert_eq!(
        mock.only_call().2,
        pairs(&[("PATH", "/bin"), ("BUNDLE_GEMFILE", "/proj/Gemfile")])
    );
}
