//! The language tools that can be resolved, each with its names and the
//! arguments it runs with.

use vstd::prelude::*;
use vstd::string::*;
use crate::resolver::{RequestView, ResolveRequest, ToolIdentity};
use crate::worktree::{LspBinarySettings, WorktreeLike};

verus! {

/// A language tool that resolution can provide.
pub trait LanguageServer {
    /// The tool's names.
    fn identity(&self) -> ToolIdentity;

    /// The arguments the tool runs with in `worktree`.
    fn get_executable_args<T: WorktreeLike>(&self, worktree: &T) -> Vec<String>;

    /// Whether the project's bundle may provide the tool unless the
    /// project's settings say otherwise.
    fn use_bundler_by_default(&self) -> bool;
}

/// The names of a tool as text.
pub open spec fn identity_view(t: ToolIdentity) -> (Seq<char>, Seq<char>, Seq<char>) {
    (t.server_id@, t.executable_name@, t.gem_name@)
}

fn make_identity(id: &str, exe: &str, gem: &str) -> (r: ToolIdentity)
    ensures
        identity_view(r) == (id@, exe@, gem@),
{
    ToolIdentity {
        server_id: String::from_str(id),
        executable_name: String::from_str(exe),
        gem_name: String::from_str(gem),
    }
}

/// The Ruby LSP language server.
pub struct RubyLsp {}

impl RubyLsp {
    pub const SERVER_ID: &'static str = "ruby-lsp";
    pub const EXECUTABLE_NAME: &'static str = "ruby-lsp";
    pub const GEM_NAME: &'static str = "ruby-lsp";

    pub fn new() -> Self {
        RubyLsp {}
    }

    /// The tool's names.
    pub fn tool_identity() -> (r: ToolIdentity)
        ensures
            identity_view(r) == (Self::SERVER_ID@, Self::EXECUTABLE_NAME@, Self::GEM_NAME@),
    {
        make_identity(Self::SERVER_ID, Self::EXECUTABLE_NAME, Self::GEM_NAME)
    }

    /// Whether the project's bundle may provide the tool by default.
    pub fn default_use_bundler() -> (r: bool)
        ensures
            r,
    {
        true
    }

    /// The arguments the tool always runs with.
    pub fn executable_args() -> (r: Vec<String>)
        ensures
            r.deep_view() == Seq::<Seq<char>>::empty(),
    {
        let v: Vec<String> = Vec::new();
        assert(v.deep_view() =~= Seq::<Seq<char>>::empty());
        v
    }
}

impl LanguageServer for RubyLsp {
    fn identity(&self) -> ToolIdentity {
        Self::tool_identity()
    }

    fn get_executable_args<T: WorktreeLike>(&self, _worktree: &T) -> Vec<String> {
        Self::executable_args()
    }

    fn use_bundler_by_default(&self) -> bool {
        Self::default_use_bundler()
    }
}

/// The Solargraph language server.
pub struct Solargraph {}

impl Solargraph {
    pub const SERVER_ID: &'static str = "solargraph";
    pub const EXECUTABLE_NAME: &'static str = "solargraph";
    pub const GEM_NAME: &'static str = "solargraph";

    pub fn new() -> Self {
        Solargraph {}
    }

    /// The tool's names.
    pub fn tool_identity() -> (r: ToolIdentity)
        ensures
            identity_view(r) == (Self::SERVER_ID@, Self::EXECUTABLE_NAME@, Self::GEM_NAME@),
    {
        make_identity(Self::SERVER_ID, Self::EXECUTABLE_NAME, Self::GEM_NAME)
    }

    /// Whether the project's bundle may provide the tool by default.
    pub fn default_use_bundler() -> (r: bool)
        ensures
            r,
    {
        true
    }

    /// The arguments the tool always runs with.
    pub fn executable_args() -> (r: Vec<String>)
        ensures
            r.deep_view() == seq!["stdio"@],
    {
        let mut v: Vec<String> = Vec::new();
        v.push(String::from_str("stdio"));
        assert(v.deep_view() =~= seq!["stdio"@]);
        v
    }
}

impl LanguageServer for Solargraph {
    fn identity(&self) -> ToolIdentity {
        Self::tool_identity()
    }

    fn get_executable_args<T: WorktreeLike>(&self, _worktree: &T) -> Vec<String> {
        Self::executable_args()
    }

    fn use_bundler_by_default(&self) -> bool {
        Self::default_use_bundler()
    }
}

/// RuboCop's language server.
pub struct Rubocop {}

impl Rubocop {
    pub const SERVER_ID: &'static str = "rubocop";
    pub const EXECUTABLE_NAME: &'static str = "rubocop";
    pub const GEM_NAME: &'static str = "rubocop";

    pub fn new() -> Self {
        Rubocop {}
    }

    /// The tool's names.
    pub fn tool_identity() -> (r: ToolIdentity)
        ensures
            identity_view(r) == (Self::SERVER_ID@, Self::EXECUTABLE_NAME@, Self::GEM_NAME@),
    {
        make_identity(Self::SERVER_ID, Self::EXECUTABLE_NAME, Self::GEM_NAME)
    }

    /// Whether the project's bundle may provide the tool by default.
    pub fn default_use_bundler() -> (r: bool)
        ensures
            r,
    {
        true
    }

    /// The arguments the tool always runs with.
    pub fn executable_args() -> (r: Vec<String>)
        ensures
            r.deep_view() == seq!["--lsp"@],
    {
        let mut v: Vec<String> = Vec::new();
        v.push(String::from_str("--lsp"));
        assert(v.deep_view() =~= seq!["--lsp"@]);
        v
    }
}

impl LanguageServer for Rubocop {
    fn identity(&self) -> ToolIdentity {
        Self::tool_identity()
    }

    fn get_executable_args<T: WorktreeLike>(&self, _worktree: &T) -> Vec<String> {
        Self::executable_args()
    }

    fn use_bundler_by_default(&self) -> bool {
        Self::default_use_bundler()
    }
}

/// The Kanayago language server.
pub struct Kanayago {}

impl Kanayago {
    pub const SERVER_ID: &'static str = "kanayago";
    pub const EXECUTABLE_NAME: &'static str = "kanayago";
    pub const GEM_NAME: &'static str = "kanayago";

    pub fn new() -> Self {
        Kanayago {}
    }

    /// The tool's names.
    pub fn tool_identity() -> (r: ToolIdentity)
        ensures
            identity_view(r) == (Self::SERVER_ID@, Self::EXECUTABLE_NAME@, Self::GEM_NAME@),
    {
        make_identity(Self::SERVER_ID, Self::EXECUTABLE_NAME, Self::GEM_NAME)
    }

    /// Whether the project's bundle may provide the tool by default.
    pub fn default_use_bundler() -> (r: bool)
        ensures
            r,
    {
        true
    }

    /// The arguments the tool always runs with.
    pub fn executable_args() -> (r: Vec<String>)
        ensures
            r.deep_view() == seq!["--lsp"@],
    {
        let mut v: Vec<String> = Vec::new();
        v.push(String::from_str("--lsp"));
        assert(v.deep_view() =~= seq!["--lsp"@]);
        v
    }
}

impl LanguageServer for Kanayago {
    fn identity(&self) -> ToolIdentity {
        Self::tool_identity()
    }

    fn get_executable_args<T: WorktreeLike>(&self, _worktree: &T) -> Vec<String> {
        Self::executable_args()
    }

    fn use_bundler_by_default(&self) -> bool {
        Self::default_use_bundler()
    }
}

/// Steep's language server.
pub struct Steep {}

impl Steep {
    pub const SERVER_ID: &'static str = "steep";
    pub const EXECUTABLE_NAME: &'static str = "steep";
    pub const GEM_NAME: &'static str = "steep";

    pub fn new() -> Self {
        Steep {}
    }

    /// The tool's names.
    pub fn tool_identity() -> (r: ToolIdentity)
        ensures
            identity_view(r) == (Self::SERVER_ID@, Self::EXECUTABLE_NAME@, Self::GEM_NAME@),
    {
        make_identity(Self::SERVER_ID, Self::EXECUTABLE_NAME, Self::GEM_NAME)
    }

    /// Whether the project's bundle may provide the tool by default.
    pub fn default_use_bundler() -> (r: bool)
        ensures
            r,
    {
        true
    }

    /// The arguments the tool always runs with.
    pub fn executable_args() -> (r: Vec<String>)
        ensures
            r.deep_view() == seq!["langserver"@],
    {
        let mut v: Vec<String> = Vec::new();
        v.push(String::from_str("langserver"));
        assert(v.deep_view() =~= seq!["langserver"@]);
        v
    }
}

impl LanguageServer for Steep {
    fn identity(&self) -> ToolIdentity {
        Self::tool_identity()
    }

    fn get_executable_args<T: WorktreeLike>(&self, _worktree: &T) -> Vec<String> {
        Self::executable_args()
    }

    fn use_bundler_by_default(&self) -> bool {
        Self::default_use_bundler()
    }
}

/// The Standard Ruby language server.
pub struct Standard {}

impl Standard {
    pub const SERVER_ID: &'static str = "standard";
    pub const EXECUTABLE_NAME: &'static str = "standardrb";
    pub const GEM_NAME: &'static str = "standard";

    pub fn new() -> Self {
        Standard {}
    }

    /// The tool's names.
    pub fn tool_identity() -> (r: ToolIdentity)
        ensures
            identity_view(r) == (Self::SERVER_ID@, Self::EXECUTABLE_NAME@, Self::GEM_NAME@),
    {
        make_identity(Self::SERVER_ID, Self::EXECUTABLE_NAME, Self::GEM_NAME)
    }

    /// Whether the project's bundle may provide the tool by default.
    pub fn default_use_bundler() -> (r: bool)
        ensures
            r,
    {
        true
    }

    /// The arguments the tool always runs with.
    pub fn get_executable_args() -> (r: Vec<String>)
        ensures
            r.deep_view() == seq!["--lsp"@],
    {
        let mut v: Vec<String> = Vec::new();
        v.push(String::from_str("--lsp"));
        assert(v.deep_view() =~= seq!["--lsp"@]);
        v
    }
}

impl LanguageServer for Standard {
    fn identity(&self) -> ToolIdentity {
        Self::tool_identity()
    }

    fn get_executable_args<T: WorktreeLike>(&self, _worktree: &T) -> Vec<String> {
        Self::get_executable_args()
    }

    fn use_bundler_by_default(&self) -> bool {
        Self::default_use_bundler()
    }
}

/// The Standard Ruby language server, by its executable's name.
pub struct Standardrb {}

impl Standardrb {
    pub const SERVER_ID: &'static str = "standardrb";
    pub const EXECUTABLE_NAME: &'static str = "standardrb";
    pub const GEM_NAME: &'static str = "standard";

    pub fn new() -> Self {
        Standardrb {}
    }

    /// The tool's names.
    pub fn tool_identity() -> (r: ToolIdentity)
        ensures
            identity_view(r) == (Self::SERVER_ID@, Self::EXECUTABLE_NAME@, Self::GEM_NAME@),
    {
        make_identity(Self::SERVER_ID, Self::EXECUTABLE_NAME, Self::GEM_NAME)
    }

    /// Whether the project's bundle may provide the tool by default.
    pub fn default_use_bundler() -> (r: bool)
        ensures
            r,
    {
        true
    }

    /// The arguments the tool always runs with.
    pub fn get_executable_args() -> (r: Vec<String>)
        ensures
            r.deep_view() == seq!["--lsp"@],
    {
        let mut v: Vec<String> = Vec::new();
        v.push(String::from_str("--lsp"));
        assert(v.deep_view() =~= seq!["--lsp"@]);
        v
    }
}

impl LanguageServer for Standardrb {
    fn identity(&self) -> ToolIdentity {
        Self::tool_identity()
    }

    fn get_executable_args<T: WorktreeLike>(&self, _worktree: &T) -> Vec<String> {
        Self::get_executable_args()
    }

    fn use_bundler_by_default(&self) -> bool {
        Self::default_use_bundler()
    }
}

/// Sorbet's arguments: with a `sorbet/config` in the project, the arguments
/// configured for it or else the defaults; without one, an empty
/// configuration rooted at the project so that Sorbet does not fail.
pub open spec fn sorbet_args(config_present: bool, custom: Option<Seq<Seq<char>>>) -> Seq<Seq<char>> {
    if config_present {
        match custom {
            Some(a) => a,
            None => seq!["tc"@, "--lsp"@, "--enable-experimental-lsp-document-highlight"@],
        }
    } else {
        seq!["tc"@, "--lsp"@, "--dir"@, "./"@]
    }
}

/// The language server of Sorbet, a gradual type system for Ruby.
pub struct Sorbet {}

impl Sorbet {
    pub const SERVER_ID: &'static str = "sorbet";
    pub const EXECUTABLE_NAME: &'static str = "srb";
    pub const GEM_NAME: &'static str = "sorbet";

    pub fn new() -> Self {
        Sorbet {}
    }

    /// The tool's names.
    pub fn tool_identity() -> (r: ToolIdentity)
        ensures
            identity_view(r) == (Self::SERVER_ID@, Self::EXECUTABLE_NAME@, Self::GEM_NAME@),
    {
        make_identity(Self::SERVER_ID, Self::EXECUTABLE_NAME, Self::GEM_NAME)
    }

    /// Whether the project's bundle may provide the tool by default.
    pub fn default_use_bundler() -> (r: bool)
        ensures
            r,
    {
        true
    }

    /// The arguments as [`sorbet_args`] gives them.
    pub fn arguments_for(config_present: bool, custom: Option<Vec<String>>) -> (r: Vec<String>)
        ensures
            r.deep_view() == sorbet_args(config_present, custom.deep_view()),
    {
        if config_present {
            match custom {
                Some(a) => a,
                None => {
                    let mut v: Vec<String> = Vec::new();
                    v.push(String::from_str("tc"));
                    v.push(String::from_str("--lsp"));
                    v.push(String::from_str("--enable-experimental-lsp-document-highlight"));
                    assert(v.deep_view() =~= seq![
                        "tc"@,
                        "--lsp"@,
                        "--enable-experimental-lsp-document-highlight"@,
                    ]);
                    v
                },
            }
        } else {
            let mut v: Vec<String> = Vec::new();
            v.push(String::from_str("tc"));
            v.push(String::from_str("--lsp"));
            v.push(String::from_str("--dir"));
            v.push(String::from_str("./"));
            assert(v.deep_view() =~= seq!["tc"@, "--lsp"@, "--dir"@, "./"@]);
            v
        }
    }
}

impl LanguageServer for Sorbet {
    fn identity(&self) -> ToolIdentity {
        Self::tool_identity()
    }

    fn get_executable_args<T: WorktreeLike>(&self, worktree: &T) -> Vec<String> {
        let custom = match worktree.lsp_binary_settings(Self::SERVER_ID) {
            Ok(Some(settings)) => settings.arguments,
            _ => None,
        };
        let config_present = worktree.read_text_file("sorbet/config").is_ok();
        Self::arguments_for(config_present, custom)
    }

    fn use_bundler_by_default(&self) -> bool {
        Self::default_use_bundler()
    }
}

/// Why Steep cannot start in a project without a `Steepfile`.
pub const STEEPFILE_REQUIRED: &'static str = "Steep language server requires a Steepfile in the project root. You can disable this requirement by setting 'require_root_steepfile': false in your LSP settings.";

impl Steep {
    /// Whether Steep may start: unless the project's settings lift the
    /// requirement, the project's root must hold a `Steepfile`.
    pub fn check_steepfile(require_root_steepfile: bool, steepfile_present: bool) -> (r: Result<
        (),
        String,
    >)
        ensures
            r is Err <==> (require_root_steepfile && !steepfile_present),
            r matches Err(m) ==> m@ == STEEPFILE_REQUIRED@,
    {
        if require_root_steepfile && !steepfile_present {
            Err(String::from_str(STEEPFILE_REQUIRED))
        } else {
            Ok(())
        }
    }
}

/// Where the Herb language server's script lies, under the extension's
/// directory.
pub const HERB_SERVER_PATH: &'static str =
    "node_modules/@herb-tools/language-server/dist/herb-language-server";

/// The npm package that provides the Herb language server.
pub const HERB_PACKAGE_NAME: &'static str = "@herb-tools/language-server";

/// The Herb language server for ERB templates, installed from npm.
pub struct Herb {
    /// Whether the server's script was found or installed before.
    pub did_find_server: bool,
}

impl Herb {
    pub const SERVER_ID: &'static str = "herb";
    pub const EXECUTABLE_NAME: &'static str = "herb";
    pub const GEM_NAME: &'static str = "herb";

    pub fn new() -> (r: Self)
        ensures
            !r.did_find_server,
    {
        Herb { did_find_server: false }
    }

    /// The tool's names.
    pub fn tool_identity() -> (r: ToolIdentity)
        ensures
            identity_view(r) == (Self::SERVER_ID@, Self::EXECUTABLE_NAME@, Self::GEM_NAME@),
    {
        make_identity(Self::SERVER_ID, Self::EXECUTABLE_NAME, Self::GEM_NAME)
    }

    /// The arguments the server runs with.
    pub fn executable_args() -> (r: Vec<String>)
        ensures
            r.deep_view() == seq!["--stdio"@],
    {
        let mut v: Vec<String> = Vec::new();
        v.push(String::from_str("--stdio"));
        assert(v.deep_view() =~= seq!["--stdio"@]);
        v
    }

    /// Whether the script found before can be used without asking npm.
    pub fn can_reuse(&self, server_exists: bool) -> (r: bool)
        ensures
            r == (self.did_find_server && server_exists),
    {
        self.did_find_server && server_exists
    }

    /// Whether the package must be installed: the script is missing, or the
    /// installed version is not the latest.
    pub fn needs_install(server_exists: bool, installed: Option<String>, latest: &str) -> (r: bool)
        ensures
            r == (!server_exists || installed.deep_view() != Some(latest@)),
    {
        if !server_exists {
            return true;
        }
        match installed {
            Some(v) => {
                let wanted = String::from_str(latest);
                !(v == wanted)
            },
            None => true,
        }
    }

    /// What an install attempt comes to: the script is there afterwards, or
    /// the install's error, or an error that names the missing script.
    pub fn install_outcome(&mut self, result: Result<(), String>, exists_after: bool) -> (r: Result<
        String,
        String,
    >)
        ensures
            r is Ok <==> exists_after,
            r is Ok ==> r->Ok_0@ == HERB_SERVER_PATH@ && final(self).did_find_server,
            !exists_after ==> match result {
                Ok(()) => r->Err_0@ == "installed package '"@ + HERB_PACKAGE_NAME@
                    + "' did not contain expected path '"@ + HERB_SERVER_PATH@ + "'"@,
                Err(e) => r->Err_0@ == e@,
            },
            !exists_after ==> final(self).did_find_server == old(self).did_find_server,
    {
        if exists_after {
            self.did_find_server = true;
            return Ok(String::from_str(HERB_SERVER_PATH));
        }
        match result {
            Ok(()) => {
                let mut msg = String::from_str("installed package '");
                msg.append(HERB_PACKAGE_NAME);
                msg.append("' did not contain expected path '");
                msg.append(HERB_SERVER_PATH);
                msg.append("'");
                Err(msg)
            },
            Err(e) => Err(e),
        }
    }
}

impl LanguageServer for Herb {
    fn identity(&self) -> ToolIdentity {
        Self::tool_identity()
    }

    fn get_executable_args<T: WorktreeLike>(&self, _worktree: &T) -> Vec<String> {
        Self::executable_args()
    }

    fn use_bundler_by_default(&self) -> bool {
        true
    }
}

/// The override that the settings configure: an executable path, with the
/// arguments configured beside it.
pub open spec fn override_of(settings: Option<LspBinarySettings>) -> (Option<Seq<char>>, Option<
    Seq<Seq<char>>,
>) {
    match settings {
        Some(s) => match s.path {
            Some(p) => (Some(p@), s.arguments.deep_view()),
            None => (None, None),
        },
        None => (None, None),
    }
}

/// Splits configured settings into the override path and its arguments, see
/// [`override_of`].
pub fn split_override(settings: Option<LspBinarySettings>) -> (r: (Option<String>, Option<Vec<String>>))
    ensures
        (r.0.deep_view(), r.1.deep_view()) == override_of(settings),
{
    match settings {
        Some(s) => match s.path {
            Some(p) => (Some(p), s.arguments),
            None => (None, None),
        },
        None => (None, None),
    }
}

/// Whether resolution may ask the project's bundle: the tool's policy and
/// the project's setting, which defaults to yes.
pub open spec fn bundler_allowed(by_default: bool, setting: Option<bool>) -> bool {
    by_default && match setting {
        Some(b) => b,
        None => true,
    }
}

/// The request for a tool with these names, policy and arguments, in a
/// project at `project_root` with `shell_env`, given its settings.
pub open spec fn built_request(
    identity: ToolIdentity,
    settings: Option<LspBinarySettings>,
    by_default: bool,
    use_bundler_setting: Option<bool>,
    project_root: Seq<char>,
    shell_env: Seq<(Seq<char>, Seq<char>)>,
    tool_args: Seq<Seq<char>>,
    cache_base: Seq<char>,
) -> RequestView {
    RequestView {
        exe: identity.executable_name@,
        gem: identity.gem_name@,
        root: project_root,
        env: shell_env,
        override_path: override_of(settings).0,
        override_args: override_of(settings).1,
        use_bundler: bundler_allowed(by_default, use_bundler_setting),
        tool_args,
        cache_base,
    }
}

/// Assembles a request, see [`built_request`].
pub fn build_request(
    identity: ToolIdentity,
    settings: Option<LspBinarySettings>,
    by_default: bool,
    use_bundler_setting: Option<bool>,
    project_root: String,
    shell_env: Vec<(String, String)>,
    tool_args: Vec<String>,
    cache_base: String,
) -> (r: ResolveRequest)
    ensures
        r@ == built_request(
            identity,
            settings,
            by_default,
            use_bundler_setting,
            project_root@,
            shell_env.deep_view(),
            tool_args.deep_view(),
            cache_base@,
        ),
        identity_view(r.identity) == identity_view(identity),
{
    let (override_path, override_args) = split_override(settings);
    let use_bundler = by_default && match use_bundler_setting {
        Some(b) => b,
        None => true,
    };
    ResolveRequest {
        identity,
        project_root,
        shell_env,
        override_path,
        override_args,
        use_bundler,
        tool_args,
        cache_base,
    }
}

/// The request that resolves the tool named by `identity` in `worktree`,
/// with the bundle allowed by `by_default` and the project's setting, the
/// tool's arguments `tool_args` and the private caches under `cache_base`.
/// The settings of `identity.server_id` come from `worktree`; when they
/// cannot be read, their error is the result.
pub fn request_for<W: WorktreeLike>(
    identity: ToolIdentity,
    by_default: bool,
    tool_args: Vec<String>,
    worktree: &W,
    use_bundler_setting: Option<bool>,
    cache_base: String,
) -> (r: Result<ResolveRequest, String>)
    ensures
        r is Ok ==> exists|
            settings: Option<LspBinarySettings>,
            root: Seq<char>,
            env: Seq<(Seq<char>, Seq<char>)>,
        |
            r->Ok_0@ == #[trigger] built_request(
                identity,
                settings,
                by_default,
                use_bundler_setting,
                root,
                env,
                tool_args.deep_view(),
                cache_base@,
            ),
        r is Ok ==> identity_view(r->Ok_0.identity) == identity_view(identity),
{
    let settings = match worktree.lsp_binary_settings(identity.server_id.as_str()) {
        Ok(s) => s,
        Err(e) => {
            return Err(e);
        },
    };
    let project_root = worktree.root_path();
    let shell_env = worktree.shell_env();
    Ok(
        build_request(
            identity,
            settings,
            by_default,
            use_bundler_setting,
            project_root,
            shell_env,
            tool_args,
            cache_base,
        ),
    )
}

} // verus!
