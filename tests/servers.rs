use zed_ruby::{
    FakeWorktree, Herb, Kanayago, LanguageServer, LspBinarySettings, Rubocop, RubyLsp, Solargraph,
    Sorbet, Standard, Standardrb, Steep, ToolIdentity, WorktreeLike,
};

struct TestServer {}

impl TestServer {
    fn new() -> Self {
        Self {}
    }
}

impl LanguageServer for TestServer {
    fn identity(&self) -> ToolIdentity {
        ToolIdentity {
            server_id: "test-server".to_string(),
            executable_name: "test-exe".to_string(),
            gem_name: "test".to_string(),
        }
    }

    fn get_executable_args<T: WorktreeLike>(&self, _worktree: &T) -> Vec<String> {
        vec!["--test-arg".into()]
    }

    fn use_bundler_by_default(&self) -> bool {
        true
    }
}

#[test]
fn test_default_executable_args() {
    let test_server = TestServer::new();
    let mock_worktree = FakeWorktree::new("/path/to/project".to_string());

    assert_eq!(
        test_server.get_executable_args(&mock_worktree),
        vec!["--test-arg"],
        "Default executable args should match expected vector"
    );
}

#[test]
fn test_new_extension_initial_state() {
    let ext = Herb::new();
    assert!(
        !ext.did_find_server,
        "A new extension instance should have did_find_server as false by default."
    );
}

#[test]
fn kanayago_test_server_id() {
    assert_eq!(Kanayago::SERVER_ID, "kanayago");
}

#[test]
fn kanayago_test_executable_name() {
    assert_eq!(Kanayago::EXECUTABLE_NAME, "kanayago");
}

#[test]
fn kanayago_test_executable_args() {
    let kanayago = Kanayago::new();
    let mock_worktree = FakeWorktree::new("/path/to/project".to_string());

    assert_eq!(kanayago.get_executable_args(&mock_worktree), vec!["--lsp"]);
}

#[test]
fn rubocop_test_server_id() {
    assert_eq!(Rubocop::SERVER_ID, "rubocop");
}

#[test]
fn rubocop_test_executable_name() {
    assert_eq!(Rubocop::EXECUTABLE_NAME, "rubocop");
}

#[test]
fn rubocop_test_executable_args() {
    let rubocop = Rubocop::new();
    let mock_worktree = FakeWorktree::new("/path/to/project".to_string());

    assert_eq!(rubocop.get_executable_args(&mock_worktree), vec!["--lsp"]);
}

#[test]
fn ruby_lsp_test_server_id() {
    assert_eq!(RubyLsp::SERVER_ID, "ruby-lsp");
}

#[test]
fn ruby_lsp_test_executable_name() {
    assert_eq!(RubyLsp::EXECUTABLE_NAME, "ruby-lsp");
}

#[test]
fn ruby_lsp_test_executable_args() {
    let ruby_lsp = RubyLsp::new();
    let mock_worktree = FakeWorktree::new("/path/to/project".to_string());

    assert_eq!(
        ruby_lsp.get_executable_args(&mock_worktree),
        vec![] as Vec<String>
    );
}

#[test]
fn solargraph_test_server_id() {
    assert_eq!(Solargraph::SERVER_ID, "solargraph");
}

#[test]
fn solargraph_test_executable_name() {
    assert_eq!(Solargraph::EXECUTABLE_NAME, "solargraph");
}

#[test]
fn solargraph_test_executable_args() {
    let solargraph = Solargraph::new();
    let mock_worktree = FakeWorktree::new("/path/to/project".to_string());

    assert_eq!(
        solargraph.get_executable_args(&mock_worktree),
        vec!["stdio"]
    );
}

#[test]
fn sorbet_test_server_id() {
    assert_eq!(Sorbet::SERVER_ID, "sorbet");
}

#[test]
fn sorbet_test_executable_name() {
    assert_eq!(Sorbet::EXECUTABLE_NAME, "srb");
}

#[test]
fn test_executable_args_no_config_file() {
    let sorbet = Sorbet::new();
    let mut fake_worktree = FakeWorktree::new("/path/to/project".to_string());

    fake_worktree.add_file(
        "sorbet/config".to_string(),
        Err("File not found".to_string()),
    );
    fake_worktree.add_lsp_binary_setting(Sorbet::SERVER_ID.to_string(), Ok(None));

    let expected_args_no_config = vec![
        "tc".to_string(),
        "--lsp".to_string(),
        "--dir".to_string(),
        "./".to_string(),
    ];
    assert_eq!(
        sorbet.get_executable_args(&fake_worktree),
        expected_args_no_config,
        "Should use fallback arguments when sorbet/config is not found"
    );
}

#[test]
fn test_executable_args_with_config_and_custom_settings() {
    let sorbet = Sorbet::new();
    let mut fake_worktree = FakeWorktree::new("/path/to/project".to_string());

    fake_worktree.add_file("sorbet/config".to_string(), Ok("--dir\n.".to_string()));

    let custom_args = vec!["--custom-arg1".to_string(), "value1".to_string()];
    fake_worktree.add_lsp_binary_setting(
        Sorbet::SERVER_ID.to_string(),
        Ok(Some(LspBinarySettings {
            path: None,
            arguments: Some(custom_args.clone()),
        })),
    );

    assert_eq!(
        sorbet.get_executable_args(&fake_worktree),
        custom_args,
        "Should use custom arguments when config and settings are present"
    );
}

#[test]
fn test_executable_args_with_config_no_custom_settings() {
    let sorbet = Sorbet::new();
    let mut fake_worktree = FakeWorktree::new("/path/to/project".to_string());

    fake_worktree.add_file("sorbet/config".to_string(), Ok("--dir\n.".to_string()));
    fake_worktree.add_lsp_binary_setting(Sorbet::SERVER_ID.to_string(), Ok(None));

    let expected_default_args = vec![
        "tc".to_string(),
        "--lsp".to_string(),
        "--enable-experimental-lsp-document-highlight".to_string(),
    ];
    assert_eq!(
        sorbet.get_executable_args(&fake_worktree),
        expected_default_args,
        "Should use default arguments when config is present but no custom settings"
    );
}

#[test]
fn test_executable_args_with_config_lsp_settings_is_empty_struct() {
    let sorbet = Sorbet::new();
    let mut fake_worktree = FakeWorktree::new("/path/to/project".to_string());

    fake_worktree.add_file("sorbet/config".to_string(), Ok("--dir\n.".to_string()));
    fake_worktree.add_lsp_binary_setting(
        Sorbet::SERVER_ID.to_string(),
        Ok(Some(LspBinarySettings::default())),
    );

    let expected_default_args = vec![
        "tc".to_string(),
        "--lsp".to_string(),
        "--enable-experimental-lsp-document-highlight".to_string(),
    ];
    assert_eq!(
        sorbet.get_executable_args(&fake_worktree),
        expected_default_args,
        "Should use default arguments when config is present and LSP settings have no arguments"
    );
}

#[test]
fn standard_test_server_id() {
    assert_eq!(Standard::SERVER_ID, "standard");
}

#[test]
fn standard_test_executable_name() {
    assert_eq!(Standard::EXECUTABLE_NAME, "standardrb");
}

#[test]
fn standard_test_executable_args() {
    assert_eq!(Standard::get_executable_args(), vec!["--lsp"]);
}

#[test]
fn standard_test_default_use_bundler() {
    assert!(Standard::default_use_bundler());
}

#[test]
fn standardrb_test_server_id() {
    assert_eq!(Standardrb::SERVER_ID, "standardrb");
}

#[test]
fn standardrb_test_executable_name() {
    assert_eq!(Standardrb::EXECUTABLE_NAME, "standardrb");
}

#[test]
fn standardrb_test_executable_args() {
    assert_eq!(Standardrb::get_executable_args(), vec!["--lsp"]);
}

#[test]
fn standardrb_test_default_use_bundler() {
    assert!(Standardrb::default_use_bundler());
}

#[test]
fn steep_test_server_id() {
    assert_eq!(Steep::SERVER_ID, "steep");
}

#[test]
fn steep_test_executable_name() {
    assert_eq!(Steep::EXECUTABLE_NAME, "steep");
}

#[test]
fn steep_test_executable_args() {
    let steep = Steep::new();
    let mock_worktree = FakeWorktree::new("/path/to/project".to_string());

    assert_eq!(
        steep.get_executable_args(&mock_worktree),
        vec!["langserver"]
    );
}

#[test]
fn steep_requires_steepfile_unless_lifted() {
    let err = Steep::check_steepfile(true, false).unwrap_err();
    assert!(err.starts_with("Steep language server requires a Steepfile in the project root."));
    assert!(Steep::check_steepfile(true, true).is_ok());
    assert!(Steep::check_steepfile(false, false).is_ok());
}

#[test]
fn herb_install_decisions() {
    assert!(Herb::needs_install(false, Some("1.0.0".to_string()), "1.0.0"));
    assert!(Herb::needs_install(true, Some("0.9.0".to_string()), "1.0.0"));
    assert!(Herb::needs_install(true, None, "1.0.0"));
    assert!(!Herb::needs_install(true, Some("1.0.0".to_string()), "1.0.0"));

    let mut herb = Herb::new();
    assert!(!herb.can_reuse(true));
    let missing = herb.install_outcome(Ok(()), false).unwrap_err();
    assert!(missing.contains("did not contain expected path"));
    assert!(!herb.did_find_server);
    assert_eq!(
        herb.install_outcome(Err("npm failed".to_string()), false),
        Err("npm failed".to_string())
    );
    let path = herb.install_outcome(Err("npm failed".to_string()), true).unwrap();
    assert_eq!(
        path,
        "node_modules/@herb-tools/language-server/dist/herb-language-server"
    );
    assert!(herb.can_reuse(true));
    assert!(!herb.can_reuse(false));
}

#[test]
fn fake_worktree_reads_latest_file() {
    let mut wt = FakeWorktree::new("/p".to_string());
    assert_eq!(
        wt.read_text_file("Gemfile"),
        Err("File not found: Gemfile".to_string())
    );
    wt.add_file("Gemfile".to_string(), Ok("a".to_string()));
    wt.add_file("Gemfile".to_string(), Ok("b".to_string()));
    assert_eq!(wt.read_text_file("Gemfile"), Ok("b".to_string()));
    assert_eq!(WorktreeLike::root_path(&wt), "/p");
    assert_eq!(wt.which("bundle"), None);
    wt.add_executable("bundle".to_string(), "/usr/bin/bundle".to_string());
    assert_eq!(wt.which("bundle"), Some("/usr/bin/bundle".to_string()));
}
