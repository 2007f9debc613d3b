//! The workspace registry and the choice of the credential to use.
//!
//! A registry names workspaces, each with one API key, and marks one of them
//! as current. Every operation is a step on a registry in memory and returns
//! the lines to show to the user.

use crate::assoc::{
    absent_from, assoc_map, distinct_keys, lemma_assoc_contains, lemma_assoc_last,
    lemma_assoc_push, lemma_assoc_update, lemma_without_key_distinct, lemma_without_key_map,
    lemma_without_key_empty, lemma_without_key_step, without_key,
};
use crate::text::{concat3, str_eq, texts};
use vstd::prelude::*;

verus! {

/// A named credential profile.
#[derive(Debug, PartialEq, Eq)]
pub struct Workspace {
    /// The name that identifies the workspace in the registry.
    pub name: String,
    /// The credential of the workspace.
    pub api_key: String,
}

impl Clone for Workspace {
    fn clone(&self) -> (r: Self)
        ensures
            r.name@ == self.name@,
            r.api_key@ == self.api_key@,
    {
        Workspace { name: self.name.clone(), api_key: self.api_key.clone() }
    }
}

/// The workspace registry.
///
/// Where a name occurs more than once in `workspaces`, the last entry counts.
#[derive(Debug, PartialEq, Eq)]
pub struct Config {
    /// Name of the current workspace.
    pub current: Option<String>,
    /// The registered workspaces.
    pub workspaces: Vec<Workspace>,
    /// A key stored by an earlier format, before workspaces had names.
    pub api_key: Option<String>,
}

/// The text of an optional string.
pub open spec fn text_of(s: Option<String>) -> Option<Seq<char>> {
    match s {
        Some(s) => Some(s@),
        None => None,
    }
}

/// The name/key pairs of a list of workspaces, in order.
pub open spec fn pairs_of(workspaces: Seq<Workspace>) -> Seq<(Seq<char>, Seq<char>)> {
    Seq::new(workspaces.len(), |i: int| (workspaces[i].name@, workspaces[i].api_key@))
}

/// The mathematical content of a [`Config`].
pub struct ConfigView {
    /// Name of the current workspace.
    pub current: Option<Seq<char>>,
    /// Names and keys of the workspaces, in registry order.
    pub entries: Seq<(Seq<char>, Seq<char>)>,
    /// The key of the earlier format.
    pub legacy_key: Option<Seq<char>>,
}

/// The name that takes a key stored without one.
pub open spec fn default_name() -> Seq<char> {
    "default"@
}

impl ConfigView {
    /// The registry as a map from name to key.
    pub open spec fn workspaces(self) -> Map<Seq<char>, Seq<char>> {
        assoc_map(self.entries)
    }

    /// Whether a workspace of that name is registered.
    pub open spec fn has(self, name: Seq<char>) -> bool {
        self.workspaces().contains_key(name)
    }

    /// No name is registered twice.
    pub open spec fn well_formed(self) -> bool {
        distinct_keys(self.entries)
    }

    /// The current workspace is registered.
    pub open spec fn current_is_registered(self) -> bool {
        match self.current {
            Some(name) => self.has(name),
            None => false,
        }
    }

    /// The registry with a workspace added: it goes to the end, and becomes
    /// current where no workspace was.
    pub open spec fn added(self, name: Seq<char>, api_key: Seq<char>) -> ConfigView {
        ConfigView {
            current: if self.current is None {
                Some(name)
            } else {
                self.current
            },
            entries: self.entries.push((name, api_key)),
            legacy_key: self.legacy_key,
        }
    }

    /// The registry with another workspace made current.
    pub open spec fn switched(self, name: Seq<char>) -> ConfigView {
        ConfigView { current: Some(name), ..self }
    }

    /// The registry with a workspace removed. Where it was the current one,
    /// the first workspace that is left becomes current, or none where none
    /// is left.
    pub open spec fn removed(self, name: Seq<char>) -> ConfigView {
        let left = without_key(self.entries, name);
        ConfigView {
            current: if self.current == Some(name) {
                if left.len() > 0 {
                    Some(left[0].0)
                } else {
                    None
                }
            } else {
                self.current
            },
            entries: left,
            legacy_key: self.legacy_key,
        }
    }

    /// The lines that show the current workspace and its masked key;
    /// `none_text` is shown where no workspace is current.
    pub open spec fn current_lines(self, none_text: Seq<char>) -> Seq<Seq<char>> {
        match self.current {
            Some(name) => if self.has(name) {
                seq![
                    "Current workspace: "@ + name,
                    "API Key: "@ + masked(self.workspaces()[name]),
                ]
            } else {
                seq!["Current workspace: "@ + name]
            },
            None => seq![none_text],
        }
    }

    /// The lines that show the registry file and the current workspace.
    pub open spec fn show_lines(self, path: Seq<char>) -> Seq<Seq<char>> {
        seq!["Config file: "@ + path, Seq::<char>::empty()] + self.current_lines(
            "No workspace configured. Run: linear workspace add <name>"@,
        )
    }

    /// The row of the list for the entry at position `i`: a marker for the
    /// current workspace, the name, and the masked key in brackets.
    pub open spec fn list_row(self, i: int) -> Seq<char> {
        let marker = if self.current == Some(self.entries[i].0) {
            "*"@
        } else {
            " "@
        };
        marker + " "@ + self.entries[i].0 + " ("@ + masked(self.entries[i].1) + ")"@
    }

    /// The lines of the list of workspaces, one row for each entry in
    /// registry order.
    pub open spec fn list_lines(self) -> Seq<Seq<char>> {
        if self.entries.len() == 0 {
            seq!["No workspaces configured. Run: linear workspace add <name>"@]
        } else {
            seq!["Configured workspaces:"@, Seq::<char>::empty()] + Seq::new(
                self.entries.len(),
                |i: int| self.list_row(i),
            ) + seq![Seq::<char>::empty(), "* = current workspace"@]
        }
    }

    /// The lines shown after a workspace was added.
    pub open spec fn added_lines(self, name: Seq<char>) -> Seq<Seq<char>> {
        if self.current is None || self.current == Some(name) {
            seq![
                "Workspace '"@ + name + "' added successfully!"@,
                "Switched to workspace '"@ + name + "'"@,
            ]
        } else {
            seq!["Workspace '"@ + name + "' added successfully!"@]
        }
    }

    /// The lines shown after a workspace was removed.
    pub open spec fn removed_lines(self, name: Seq<char>) -> Seq<Seq<char>> {
        match self.removed(name).current {
            Some(next) => if self.current == Some(name) {
                seq![
                    "Switched to workspace '"@ + next + "'"@,
                    "Workspace '"@ + name + "' removed."@,
                ]
            } else {
                seq!["Workspace '"@ + name + "' removed."@]
            },
            None => seq!["Workspace '"@ + name + "' removed."@],
        }
    }

    /// The registry after a load: a key of the earlier format becomes the
    /// workspace `default`, unless a workspace of that name exists, and
    /// becomes current if none is; the key itself is dropped either way.
    pub open spec fn migrated(self) -> ConfigView {
        match self.legacy_key {
            Some(key) => if self.has(default_name()) {
                ConfigView { legacy_key: None, ..self }
            } else {
                ConfigView {
                    current: if self.current is None {
                        Some(default_name())
                    } else {
                        self.current
                    },
                    entries: self.entries.push((default_name(), key)),
                    legacy_key: None,
                }
            },
            None => self,
        }
    }

    /// Whether a load changes what must be stored.
    pub open spec fn needs_migration(self) -> bool {
        self.legacy_key is Some && !self.has(default_name())
    }

    /// The name under which a key set without a name is stored: the current
    /// workspace, or `default` where none is current.
    pub open spec fn key_target(self) -> Seq<char> {
        match self.current {
            Some(name) => name,
            None => default_name(),
        }
    }
}

impl View for Config {
    type V = ConfigView;

    open spec fn view(&self) -> ConfigView {
        ConfigView {
            current: text_of(self.current),
            entries: pairs_of(self.workspaces@),
            legacy_key: text_of(self.api_key),
        }
    }
}

impl Default for Config {
    /// The empty registry.
    fn default() -> (config: Config)
        ensures
            config@.current is None,
            config@.entries.len() == 0,
            config@.legacy_key is None,
    {
        Config { current: None, workspaces: Vec::new(), api_key: None }
    }
}

/// Why a registry operation was refused.
#[derive(Debug, PartialEq, Eq)]
pub enum ConfigError {
    /// No workspace is current.
    NoWorkspaceSelected,
    /// The current workspace is not registered.
    CurrentWorkspaceMissing { name: String },
    /// A workspace to add is registered already.
    WorkspaceExists { name: String },
    /// A workspace to switch to is not registered.
    UnknownWorkspace { name: String },
    /// A workspace to remove is not registered.
    WorkspaceNotFound { name: String },
}

/// The mathematical content of a [`ConfigError`].
pub enum ConfigErrorView {
    NoWorkspaceSelected,
    CurrentWorkspaceMissing { name: Seq<char> },
    WorkspaceExists { name: Seq<char> },
    UnknownWorkspace { name: Seq<char> },
    WorkspaceNotFound { name: Seq<char> },
}

impl ConfigErrorView {
    /// The message shown for the error.
    pub open spec fn message(self) -> Seq<char> {
        match self {
            ConfigErrorView::NoWorkspaceSelected =>
                "No workspace selected. Run: linear workspace add <name>"@,
            ConfigErrorView::CurrentWorkspaceMissing { name } => "Workspace '"@ + name
                + "' not found. Run: linear workspace add <name>"@,
            ConfigErrorView::WorkspaceExists { name } => "Workspace '"@ + name
                + "' already exists. Use 'workspace remove' first to replace it."@,
            ConfigErrorView::UnknownWorkspace { name } => "Workspace '"@ + name
                + "' not found. Use 'workspace list' to see available workspaces."@,
            ConfigErrorView::WorkspaceNotFound { name } => "Workspace '"@ + name
                + "' not found."@,
        }
    }
}

impl View for ConfigError {
    type V = ConfigErrorView;

    open spec fn view(&self) -> ConfigErrorView {
        match self {
            ConfigError::NoWorkspaceSelected => ConfigErrorView::NoWorkspaceSelected,
            ConfigError::CurrentWorkspaceMissing { name } => ConfigErrorView::CurrentWorkspaceMissing {
                name: name@,
            },
            ConfigError::WorkspaceExists { name } => ConfigErrorView::WorkspaceExists {
                name: name@,
            },
            ConfigError::UnknownWorkspace { name } => ConfigErrorView::UnknownWorkspace {
                name: name@,
            },
            ConfigError::WorkspaceNotFound { name } => ConfigErrorView::WorkspaceNotFound {
                name: name@,
            },
        }
    }
}

impl ConfigError {
    /// The message to show for the error.
    pub fn message(&self) -> (text: String)
        ensures
            text@ == self@.message(),
    {
        match self {
            ConfigError::NoWorkspaceSelected => {
                "No workspace selected. Run: linear workspace add <name>".to_owned()
            },
            ConfigError::CurrentWorkspaceMissing { name } => concat3(
                "Workspace '",
                name.as_str(),
                "' not found. Run: linear workspace add <name>",
            ),
            ConfigError::WorkspaceExists { name } => concat3(
                "Workspace '",
                name.as_str(),
                "' already exists. Use 'workspace remove' first to replace it.",
            ),
            ConfigError::UnknownWorkspace { name } => concat3(
                "Workspace '",
                name.as_str(),
                "' not found. Use 'workspace list' to see available workspaces.",
            ),
            ConfigError::WorkspaceNotFound { name } => concat3(
                "Workspace '",
                name.as_str(),
                "' not found.",
            ),
        }
    }
}

/// A key as it is shown: the first eight and the last four characters around
/// an ellipsis where it has more than twelve, the whole key otherwise.
pub open spec fn masked(key: Seq<char>) -> Seq<char> {
    if key.len() > 12 {
        key.subrange(0, 8) + "..."@ + key.subrange(key.len() - 4, key.len() as int)
    } else {
        key
    }
}

/// Masks a key for display.
pub fn mask_key(key: &str) -> (shown: String)
    ensures
        shown@ == masked(key@),
{
    let len: usize = key.unicode_len();
    if len > 12 {
        concat3(key.substring_char(0, 8), "...", key.substring_char(len - 4, len))
    } else {
        key.to_owned()
    }
}

/// The position of the last workspace named `name`, if there is one.
fn find_workspace(workspaces: &Vec<Workspace>, name: &str) -> (found: Option<usize>)
    ensures
        match found {
            Some(i) => i < workspaces.len() && workspaces@[i as int].name@ == name@ && absent_from(
                pairs_of(workspaces@),
                name@,
                i + 1,
            ),
            None => absent_from(pairs_of(workspaces@), name@, 0),
        },
        found is Some <==> assoc_map(pairs_of(workspaces@)).contains_key(name@),
        found matches Some(i) ==> assoc_map(pairs_of(workspaces@))[name@]
            == workspaces@[i as int].api_key@,
{
    let mut i: usize = workspaces.len();
    proof {
        lemma_assoc_contains(pairs_of(workspaces@), name@);
    }
    while i > 0
        invariant
            i <= workspaces.len(),
            absent_from(pairs_of(workspaces@), name@, i as int),
            !absent_from(pairs_of(workspaces@), name@, 0) <==> assoc_map(
                pairs_of(workspaces@),
            ).contains_key(name@),
        decreases i,
    {
        i -= 1;
        if str_eq(workspaces[i].name.as_str(), name) {
            proof {
                lemma_assoc_last(pairs_of(workspaces@), i as int);
                assert(pairs_of(workspaces@)[i as int].0 == name@);
            }
            return Some(i);
        }
    }
    None
}

/// Whether a workspace of that name is registered.
pub fn has_workspace(config: &Config, name: &str) -> (found: bool)
    ensures
        found == config@.has(name@),
{
    find_workspace(&config.workspaces, name).is_some()
}

/// The key of the workspace of that name.
pub fn workspace_key(config: &Config, name: &str) -> (key: Option<String>)
    ensures
        match key {
            Some(k) => config@.has(name@) && k@ == config@.workspaces()[name@],
            None => !config@.has(name@),
        },
{
    match find_workspace(&config.workspaces, name) {
        Some(i) => Some(config.workspaces[i].api_key.clone()),
        None => None,
    }
}

/// Registers `api_key` under `name`, in place of a key registered under that
/// name before.
fn put_workspace(workspaces: &mut Vec<Workspace>, name: &str, api_key: &str)
    ensures
        assoc_map(pairs_of(final(workspaces)@)) == assoc_map(pairs_of(old(workspaces)@)).insert(
            name@,
            api_key@,
        ),
        assoc_map(pairs_of(old(workspaces)@)).contains_key(name@) ==> final(workspaces)@.len()
            == old(workspaces)@.len(),
        !assoc_map(pairs_of(old(workspaces)@)).contains_key(name@) ==> pairs_of(
            final(workspaces)@,
        ) == pairs_of(old(workspaces)@).push((name@, api_key@)),
        distinct_keys(pairs_of(old(workspaces)@)) ==> distinct_keys(pairs_of(final(workspaces)@)),
{
    let ghost before = pairs_of(workspaces@);
    let entry = Workspace { name: name.to_owned(), api_key: api_key.to_owned() };
    match find_workspace(workspaces, name) {
        Some(i) => {
            workspaces.set(i, entry);
            proof {
                lemma_assoc_update(before, i as int, api_key@);
                assert(pairs_of(workspaces@) =~= before.update(i as int, (name@, api_key@)));
                if distinct_keys(before) {
                    let after = pairs_of(workspaces@);
                    assert forall|a: int, b: int| 0 <= a < b < after.len() implies (
                    #[trigger] after[a]).0 != (#[trigger] after[b]).0 by {
                        assert(after[a].0 == before[a].0);
                        assert(after[b].0 == before[b].0);
                    }
                }
            }
        },
        None => {
            workspaces.push(entry);
            proof {
                lemma_assoc_push(before, name@, api_key@);
                assert(pairs_of(workspaces@) =~= before.push((name@, api_key@)));
                if distinct_keys(before) {
                    let after = pairs_of(workspaces@);
                    assert forall|a: int, b: int| 0 <= a < b < after.len() implies (
                    #[trigger] after[a]).0 != (#[trigger] after[b]).0 by {
                        assert(after[a] == before[a]);
                        if b < before.len() {
                            assert(after[b] == before[b]);
                        }
                    }
                }
            }
        },
    }
}

/// Completes a load of the registry. `stored` is what the registry file
/// holds, or nothing where there is no file. A key of the earlier format is
/// moved to the workspace `default`; the flag says whether the registry
/// changed by that and has to be stored again.
pub fn load_config(stored: Option<Config>) -> (loaded: (Config, bool))
    ensures
        match stored {
            Some(config) => loaded.0@ == config@.migrated() && loaded.1
                == config@.needs_migration(),
            None => loaded.0@.current is None && loaded.0@.entries.len() == 0
                && loaded.0@.legacy_key is None && !loaded.1,
        },
        loaded.0@.legacy_key is None,
{
    match stored {
        Some(config) => {
            let mut config = config;
            let mut changed: bool = false;
            let legacy = config.api_key;
            config.api_key = None;
            match legacy {
                Some(key) => {
                    if !has_workspace(&config, "default") {
                        let ghost before = pairs_of(config.workspaces@);
                        config.workspaces.push(
                            Workspace { name: "default".to_owned(), api_key: key },
                        );
                        assert(pairs_of(config.workspaces@) =~= before.push(
                            (default_name(), key@),
                        ));
                        if config.current.is_none() {
                            config.current = Some("default".to_owned());
                        }
                        changed = true;
                    }
                },
                None => {},
            }
            (config, changed)
        },
        None => (Config::default(), false),
    }
}

/// Stores `key` for the current workspace, or for `default` where none is
/// current; `default` then becomes current.
pub fn set_api_key(config: &mut Config, key: &str)
    ensures
        final(config)@.workspaces() == old(config)@.workspaces().insert(
            old(config)@.key_target(),
            key@,
        ),
        final(config)@.current == Some(old(config)@.key_target()),
        final(config)@.legacy_key == old(config)@.legacy_key,
        old(config)@.well_formed() ==> final(config)@.well_formed(),
{
    let name: String = match &config.current {
        Some(current) => current.clone(),
        None => "default".to_owned(),
    };
    put_workspace(&mut config.workspaces, name.as_str(), key);
    if config.current.is_none() {
        config.current = Some("default".to_owned());
    }
}

/// The key that the environment gives: the value of the override variable
/// where it is set and not empty.
pub fn env_api_key(env_value: Option<String>) -> (key: Option<String>)
    ensures
        match env_value {
            Some(value) => if value@.len() > 0 {
                text_of(key) == Some(value@)
            } else {
                key is None
            },
            None => key is None,
        },
{
    match env_value {
        Some(value) => {
            if value.as_str().unicode_len() > 0 {
                Some(value)
            } else {
                None
            }
        },
        None => None,
    }
}

/// The key that a call is to use, as the text of the key or the error.
pub open spec fn resolved_key(env_value: Option<Seq<char>>, config: ConfigView) -> Result<
    Seq<char>,
    ConfigErrorView,
> {
    if env_value is Some && env_value->0.len() > 0 {
        Ok(env_value->0)
    } else {
        match config.current {
            Some(name) => if config.has(name) {
                Ok(config.workspaces()[name])
            } else {
                Err(ConfigErrorView::CurrentWorkspaceMissing { name })
            },
            None => Err(ConfigErrorView::NoWorkspaceSelected),
        }
    }
}

/// The text of a key or the content of an error.
pub open spec fn outcome_of(result: Result<String, ConfigError>) -> Result<
    Seq<char>,
    ConfigErrorView,
> {
    match result {
        Ok(key) => Ok(key@),
        Err(e) => Err(e@),
    }
}

/// Chooses the key to use. A value of the override variable that is set and
/// not empty wins over the registry. Otherwise the registry must have a
/// current workspace, and that workspace must be registered.
pub fn get_api_key(env_value: Option<String>, config: &Config) -> (result: Result<
    String,
    ConfigError,
>)
    ensures
        outcome_of(result) == resolved_key(text_of(env_value), config@),
{
    match env_api_key(env_value) {
        Some(key) => Ok(key),
        None => match &config.current {
            Some(current) => match workspace_key(config, current.as_str()) {
                Some(key) => Ok(key),
                None => Err(ConfigError::CurrentWorkspaceMissing { name: current.clone() }),
            },
            None => Err(ConfigError::NoWorkspaceSelected),
        },
    }
}

/// The lines of an outcome, or the content of the error.
pub open spec fn lines_of(result: Result<Vec<String>, ConfigError>) -> Result<
    Seq<Seq<char>>,
    ConfigErrorView,
> {
    match result {
        Ok(lines) => Ok(texts(lines@)),
        Err(e) => Err(e@),
    }
}

/// Whether `current` names the workspace `name`.
fn is_current(current: &Option<String>, name: &str) -> (same: bool)
    ensures
        same == (text_of(*current) == Some(name@)),
{
    match current {
        Some(current) => str_eq(current.as_str(), name),
        None => false,
    }
}

/// The lines that show the current workspace and its masked key.
fn current_lines(config: &Config, none_text: &str) -> (lines: Vec<String>)
    ensures
        texts(lines@) == config@.current_lines(none_text@),
{
    let mut lines: Vec<String> = Vec::new();
    match &config.current {
        Some(current) => {
            let mut line: String = "Current workspace: ".to_owned();
            line.append(current.as_str());
            lines.push(line);
            match workspace_key(config, current.as_str()) {
                Some(key) => {
                    let mut line: String = "API Key: ".to_owned();
                    line.append(mask_key(key.as_str()).as_str());
                    lines.push(line);
                },
                None => {},
            }
        },
        None => {
            lines.push(none_text.to_owned());
        },
    }
    assert(texts(lines@) =~= config@.current_lines(none_text@));
    lines
}

/// The lines that show where the registry is stored and which workspace is
/// current, with its masked key.
pub fn show_config(config: &Config, path: &str) -> (lines: Vec<String>)
    ensures
        texts(lines@) == config@.show_lines(path@),
{
    let mut lines: Vec<String> = Vec::new();
    let mut line: String = "Config file: ".to_owned();
    line.append(path);
    lines.push(line);
    lines.push(String::new());
    let mut rest = current_lines(
        config,
        "No workspace configured. Run: linear workspace add <name>",
    );
    let ghost head = lines@;
    let ghost tail = rest@;
    lines.append(&mut rest);
    assert(texts(lines@) =~= texts(head) + texts(tail));
    assert(texts(head) =~= seq!["Config file: "@ + path@, Seq::<char>::empty()]);
    lines
}

/// Registers a new workspace. A name that is registered already is refused
/// and the registry stays as it is. The first workspace of a registry
/// without a current one becomes current.
pub fn workspace_add(config: &mut Config, name: &str, api_key: &str) -> (result: Result<
    Vec<String>,
    ConfigError,
>)
    ensures
        old(config)@.has(name@) ==> lines_of(result) == Err::<Seq<Seq<char>>, ConfigErrorView>(
            ConfigErrorView::WorkspaceExists { name: name@ },
        ) && final(config)@ == old(config)@,
        !old(config)@.has(name@) ==> lines_of(result) == Ok::<Seq<Seq<char>>, ConfigErrorView>(
            old(config)@.added_lines(name@),
        ) && final(config)@ == old(config)@.added(name@, api_key@),
        final(config)@.workspaces() == if old(config)@.has(name@) {
            old(config)@.workspaces()
        } else {
            old(config)@.workspaces().insert(name@, api_key@)
        },
        old(config)@.well_formed() ==> final(config)@.well_formed(),
{
    if has_workspace(config, name) {
        return Err(ConfigError::WorkspaceExists { name: name.to_owned() });
    }
    put_workspace(&mut config.workspaces, name, api_key);
    if config.current.is_none() {
        config.current = Some(name.to_owned());
    }
    let mut lines: Vec<String> = Vec::new();
    lines.push(concat3("Workspace '", name, "' added successfully!"));
    if is_current(&config.current, name) {
        lines.push(concat3("Switched to workspace '", name, "'"));
    }
    assert(texts(lines@) =~= old(config)@.added_lines(name@));
    Ok(lines)
}

/// The lines of the list of workspaces: each with its name and masked key,
/// the current one marked.
pub fn workspace_list(config: &Config) -> (lines: Vec<String>)
    ensures
        texts(lines@) == config@.list_lines(),
{
    let mut lines: Vec<String> = Vec::new();
    if config.workspaces.len() == 0 {
        lines.push("No workspaces configured. Run: linear workspace add <name>".to_owned());
        assert(texts(lines@) =~= config@.list_lines());
        return lines;
    }
    lines.push("Configured workspaces:".to_owned());
    lines.push(String::new());
    let mut i: usize = 0;
    while i < config.workspaces.len()
        invariant
            i <= config.workspaces.len(),
            lines@.len() == i + 2,
            lines@[0]@ == "Configured workspaces:"@,
            lines@[1]@ == Seq::<char>::empty(),
            forall|j: int| 0 <= j < i ==> lines@[j + 2]@ == config@.list_row(j),
        decreases config.workspaces.len() - i,
    {
        let workspace = &config.workspaces[i];
        let marker = if is_current(&config.current, workspace.name.as_str()) {
            "*"
        } else {
            " "
        };
        let mut line: String = marker.to_owned();
        line.append(" ");
        line.append(workspace.name.as_str());
        line.append(" (");
        line.append(mask_key(workspace.api_key.as_str()).as_str());
        line.append(")");
        lines.push(line);
        i += 1;
    }
    lines.push(String::new());
    lines.push("* = current workspace".to_owned());
    assert(texts(lines@) =~= config@.list_lines());
    lines
}

/// Makes a registered workspace current. A name that is not registered is
/// refused and the registry stays as it is.
pub fn workspace_switch(config: &mut Config, name: &str) -> (result: Result<
    Vec<String>,
    ConfigError,
>)
    ensures
        !old(config)@.has(name@) ==> lines_of(result) == Err::<Seq<Seq<char>>, ConfigErrorView>(
            ConfigErrorView::UnknownWorkspace { name: name@ },
        ) && final(config)@ == old(config)@,
        old(config)@.has(name@) ==> lines_of(result) == Ok::<Seq<Seq<char>>, ConfigErrorView>(
            seq!["Switched to workspace '"@ + name@ + "'"@],
        ) && final(config)@ == old(config)@.switched(name@),
{
    if !has_workspace(config, name) {
        return Err(ConfigError::UnknownWorkspace { name: name.to_owned() });
    }
    config.current = Some(name.to_owned());
    let mut lines: Vec<String> = Vec::new();
    lines.push(concat3("Switched to workspace '", name, "'"));
    assert(texts(lines@) =~= seq!["Switched to workspace '"@ + name@ + "'"@]);
    Ok(lines)
}

/// The lines that show the current workspace with its masked key.
pub fn workspace_current(config: &Config) -> (lines: Vec<String>)
    ensures
        texts(lines@) == config@.current_lines(
            "No workspace selected. Run: linear workspace add <name>"@,
        ),
{
    current_lines(config, "No workspace selected. Run: linear workspace add <name>")
}

/// The workspaces that are left when every one named `name` is taken out.
fn workspaces_without(workspaces: &Vec<Workspace>, name: &str) -> (left: Vec<Workspace>)
    ensures
        pairs_of(left@) == without_key(pairs_of(workspaces@), name@),
{
    let mut left: Vec<Workspace> = Vec::new();
    let ghost all = pairs_of(workspaces@);
    let mut i: usize = 0;
    proof {
        lemma_without_key_empty(all, name@);
        assert(pairs_of(left@) =~= without_key(all.take(0), name@));
    }
    while i < workspaces.len()
        invariant
            i <= workspaces.len(),
            all == pairs_of(workspaces@),
            pairs_of(left@) == without_key(all.take(i as int), name@),
        decreases workspaces.len() - i,
    {
        proof {
            lemma_without_key_step(all, name@, i as int);
        }
        let ghost before = pairs_of(left@);
        if !str_eq(workspaces[i].name.as_str(), name) {
            left.push(workspaces[i].clone());
            assert(pairs_of(left@) =~= before.push(all[i as int]));
        }
        i += 1;
    }
    assert(all.take(workspaces.len() as int) =~= all);
    left
}

/// Removes a registered workspace. A name that is not registered is refused
/// and the registry stays as it is. Where the current workspace is removed,
/// the first one that is left becomes current.
pub fn workspace_remove(config: &mut Config, name: &str) -> (result: Result<
    Vec<String>,
    ConfigError,
>)
    ensures
        !old(config)@.has(name@) ==> lines_of(result) == Err::<Seq<Seq<char>>, ConfigErrorView>(
            ConfigErrorView::WorkspaceNotFound { name: name@ },
        ) && final(config)@ == old(config)@,
        old(config)@.has(name@) ==> lines_of(result) == Ok::<Seq<Seq<char>>, ConfigErrorView>(
            old(config)@.removed_lines(name@),
        ) && final(config)@ == old(config)@.removed(name@),
        final(config)@.workspaces() == old(config)@.workspaces().remove(name@),
        old(config)@.well_formed() ==> final(config)@.well_formed(),
{
    proof {
        lemma_without_key_map(config@.entries, name@);
        if config@.well_formed() {
            lemma_without_key_distinct(config@.entries, name@);
        }
    }
    if !has_workspace(config, name) {
        assert(config@.workspaces().remove(name@) =~= config@.workspaces());
        return Err(ConfigError::WorkspaceNotFound { name: name.to_owned() });
    }
    let was_current: bool = is_current(&config.current, name);
    let left = workspaces_without(&config.workspaces, name);
    config.workspaces = left;
    let mut lines: Vec<String> = Vec::new();
    if was_current {
        if config.workspaces.len() > 0 {
            let next: String = config.workspaces[0].name.clone();
            lines.push(concat3("Switched to workspace '", next.as_str(), "'"));
            config.current = Some(next);
        } else {
            config.current = None;
        }
    }
    lines.push(concat3("Workspace '", name, "' removed."));
    assert(texts(lines@) =~= old(config)@.removed_lines(name@));
    Ok(lines)
}

} // verus!
