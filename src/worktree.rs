//! What resolution needs to know of the project: its files, settings,
//! environment and search path.

use vstd::prelude::*;
use vstd::string::*;
use crate::gemset::{copy_env, copy_strings};

verus! {

/// The executable that the project's settings configure for a tool.
#[derive(Debug, Default)]
pub struct LspBinarySettings {
    pub path: Option<String>,
    pub arguments: Option<Vec<String>>,
}

/// The mathematical value of [`LspBinarySettings`].
pub struct SettingsView {
    pub path: Option<Seq<char>>,
    pub arguments: Option<Seq<Seq<char>>>,
}

impl View for LspBinarySettings {
    type V = SettingsView;

    open spec fn view(&self) -> SettingsView {
        SettingsView { path: self.path.deep_view(), arguments: self.arguments.deep_view() }
    }
}

impl LspBinarySettings {
    /// A copy of these settings.
    pub fn duplicate(&self) -> (r: LspBinarySettings)
        ensures
            r@ == self@,
    {
        let path = match &self.path {
            Some(p) => Some(p.clone()),
            None => None,
        };
        let arguments = match &self.arguments {
            Some(a) => Some(copy_strings(a)),
            None => None,
        };
        LspBinarySettings { path, arguments }
    }
}

/// A project as the editor shows it.
pub trait WorktreeLike {
    /// The project's root directory.
    fn root_path(&self) -> String;

    /// The environment of the project's shell.
    fn shell_env(&self) -> Vec<(String, String)>;

    /// A file of the project, by its path relative to the root.
    fn read_text_file(&self, path: &str) -> Result<String, String>;

    /// The executable settings configured for a language server.
    fn lsp_binary_settings(&self, server_id: &str) -> Result<Option<LspBinarySettings>, String>;

    /// Where the shell's search path finds an executable.
    fn which(&self, name: &str) -> Option<String>;
}

/// The keys of a list of keyed entries.
pub open spec fn keys_of<T>(entries: Seq<(String, T)>) -> Seq<Seq<char>> {
    entries.map_values(|e: (String, T)| e.0@)
}

/// The index of the last key equal to `key`, if any.
pub open spec fn last_key_index(keys: Seq<Seq<char>>, key: Seq<char>) -> Option<int>
    decreases keys.len(),
{
    if keys.len() == 0 {
        None
    } else if keys.last() == key {
        Some(keys.len() - 1)
    } else {
        last_key_index(keys.drop_last(), key)
    }
}

pub open spec fn opt_index(r: Option<usize>) -> Option<int> {
    match r {
        Some(i) => Some(i as int),
        None => None,
    }
}

/// The index of the last entry with key `key`.
pub fn last_index<T>(entries: &Vec<(String, T)>, key: &str) -> (r: Option<usize>)
    ensures
        opt_index(r) == last_key_index(keys_of(entries@), key@),
        r matches Some(i) ==> i < entries@.len(),
{
    let wanted = String::from_str(key);
    let ghost keys = keys_of(entries@);
    let mut i: usize = entries.len();
    assert(keys.subrange(0, i as int) =~= keys);
    while i > 0
        invariant
            i <= entries@.len(),
            wanted@ == key@,
            keys == keys_of(entries@),
            last_key_index(keys, key@) == last_key_index(keys.subrange(0, i as int), key@),
        decreases i,
    {
        assert(keys.subrange(0, i as int).drop_last() =~= keys.subrange(0, i - 1));
        if entries[i - 1].0 == wanted {
            return Some(i - 1);
        }
        i = i - 1;
    }
    None
}

pub open spec fn text_view(r: Result<String, String>) -> Result<Seq<char>, Seq<char>> {
    match r {
        Ok(s) => Ok(s@),
        Err(e) => Err(e@),
    }
}

pub open spec fn settings_view(r: Result<Option<LspBinarySettings>, String>) -> Result<
    Option<SettingsView>,
    Seq<char>,
> {
    match r {
        Ok(Some(s)) => Ok(Some(s@)),
        Ok(None) => Ok(None),
        Err(e) => Err(e@),
    }
}

fn copy_text_result(r: &Result<String, String>) -> (c: Result<String, String>)
    ensures
        text_view(c) == text_view(*r),
{
    match r {
        Ok(s) => Ok(s.clone()),
        Err(e) => Err(e.clone()),
    }
}

fn copy_settings_result(r: &Result<Option<LspBinarySettings>, String>) -> (c: Result<
    Option<LspBinarySettings>,
    String,
>)
    ensures
        settings_view(c) == settings_view(*r),
{
    match r {
        Ok(Some(s)) => Ok(Some(s.duplicate())),
        Ok(None) => Ok(None),
        Err(e) => Err(e.clone()),
    }
}

/// An in-memory project: files, settings and executables are whatever was
/// added, the last addition for a key winning.
pub struct FakeWorktree {
    root_path: String,
    shell_env: Vec<(String, String)>,
    files: Vec<(String, Result<String, String>)>,
    settings: Vec<(String, Result<Option<LspBinarySettings>, String>)>,
    executables: Vec<(String, String)>,
}

impl FakeWorktree {
    pub closed spec fn root(&self) -> Seq<char> {
        self.root_path@
    }

    pub closed spec fn env(&self) -> Seq<(Seq<char>, Seq<char>)> {
        self.shell_env.deep_view()
    }

    pub closed spec fn files(&self) -> Seq<(String, Result<String, String>)> {
        self.files@
    }

    pub closed spec fn settings(&self) -> Seq<(String, Result<Option<LspBinarySettings>, String>)> {
        self.settings@
    }

    pub closed spec fn executables(&self) -> Seq<(String, String)> {
        self.executables@
    }

    /// An empty project at `root_path`.
    pub fn new(root_path: String) -> (r: Self)
        ensures
            r.root() == root_path@,
            r.env() == Seq::<(Seq<char>, Seq<char>)>::empty(),
            r.files().len() == 0,
            r.settings().len() == 0,
            r.executables().len() == 0,
    {
        let shell_env: Vec<(String, String)> = Vec::new();
        assert(shell_env.deep_view() =~= Seq::<(Seq<char>, Seq<char>)>::empty());
        FakeWorktree {
            root_path,
            shell_env,
            files: Vec::new(),
            settings: Vec::new(),
            executables: Vec::new(),
        }
    }

    /// Makes `path` read as `content`.
    pub fn add_file(&mut self, path: String, content: Result<String, String>)
        ensures
            final(self).files() == old(self).files().push((path, content)),
            final(self).settings() == old(self).settings(),
            final(self).executables() == old(self).executables(),
            final(self).root() == old(self).root(),
            final(self).env() == old(self).env(),
    {
        self.files.push((path, content));
    }

    /// Makes the settings of `server_id` read as `settings`.
    pub fn add_lsp_binary_setting(
        &mut self,
        server_id: String,
        settings: Result<Option<LspBinarySettings>, String>,
    )
        ensures
            final(self).settings() == old(self).settings().push((server_id, settings)),
            final(self).files() == old(self).files(),
            final(self).executables() == old(self).executables(),
            final(self).root() == old(self).root(),
            final(self).env() == old(self).env(),
    {
        self.settings.push((server_id, settings));
    }

    /// Puts `name` on the search path at `path`.
    pub fn add_executable(&mut self, name: String, path: String)
        ensures
            final(self).executables() == old(self).executables().push((name, path)),
            final(self).files() == old(self).files(),
            final(self).settings() == old(self).settings(),
            final(self).root() == old(self).root(),
            final(self).env() == old(self).env(),
    {
        self.executables.push((name, path));
    }

    /// Sets the shell's environment.
    pub fn set_shell_env(&mut self, env: Vec<(String, String)>)
        ensures
            final(self).env() == env.deep_view(),
            final(self).files() == old(self).files(),
            final(self).settings() == old(self).settings(),
            final(self).executables() == old(self).executables(),
            final(self).root() == old(self).root(),
    {
        self.shell_env = env;
    }

    /// The content added last for `path`, or an error naming it.
    pub fn read_text_file(&self, path: &str) -> (r: Result<String, String>)
        ensures
            match last_key_index(keys_of(self.files()), path@) {
                Some(i) => text_view(r) == text_view(self.files()[i].1),
                None => text_view(r) == Err::<Seq<char>, Seq<char>>("File not found: "@ + path@),
            },
    {
        let found = last_index(&self.files, path);
        match found {
            Some(i) => copy_text_result(&self.files[i].1),
            None => {
                let mut msg = String::from_str("File not found: ");
                msg.append(path);
                Err(msg)
            },
        }
    }
}

impl WorktreeLike for FakeWorktree {
    fn root_path(&self) -> String {
        self.root_path.clone()
    }

    fn shell_env(&self) -> Vec<(String, String)> {
        copy_env(&self.shell_env)
    }

    fn read_text_file(&self, path: &str) -> Result<String, String> {
        self.read_text_file(path)
    }

    fn lsp_binary_settings(&self, server_id: &str) -> Result<Option<LspBinarySettings>, String> {
        match last_index(&self.settings, server_id) {
            Some(i) => copy_settings_result(&self.settings[i].1),
            None => Ok(None),
        }
    }

    fn which(&self, name: &str) -> Option<String> {
        match last_index(&self.executables, name) {
            Some(i) => Some(self.executables[i].1.clone()),
            None => None,
        }
    }
}

} // verus!
