//! The configuration: its settings and transports, the checks it must pass,
//! the files it is read from, and the steps of editing it.
use vstd::prelude::*;

use crate::text::{
    all_white, decimal, decimal_string, is_blank, push_char, same_text, split_whitespace, words,
};
use crate::transport::{Transport, TransportService};
use crate::utils::{joined, path_join};

verus! {

/// Where the program keeps its data and its configuration.
pub struct Folders {
    pub _data_dir: String,
    pub _config_dir: String,
}

/// General settings.
pub struct Settings {
    /// Whether to send a notification when the command starts.
    pub notify_on_start: Option<bool>,
    /// The host name to put in notifications in place of the machine's.
    pub override_hostname: Option<String>,
}

/// The whole configuration.
pub struct Config {
    pub _folders: Folders,
    pub settings: Settings,
    pub transports: Vec<Transport>,
}

impl Default for Folders {
    fn default() -> (r: Folders)
        ensures
            r._data_dir@.len() == 0,
            r._config_dir@.len() == 0,
    {
        Folders { _data_dir: String::new(), _config_dir: String::new() }
    }
}

impl Default for Settings {
    fn default() -> (r: Settings)
        ensures
            r.notify_on_start is None,
            r.override_hostname is None,
    {
        Settings { notify_on_start: None, override_hostname: None }
    }
}

impl Default for Config {
    fn default() -> (r: Config)
        ensures
            r._folders._data_dir@.len() == 0,
            r._folders._config_dir@.len() == 0,
            r.settings.notify_on_start is None,
            r.settings.override_hostname is None,
            r.transports@.len() == 0,
    {
        Config {
            _folders: Folders { _data_dir: String::new(), _config_dir: String::new() },
            settings: Settings { notify_on_start: None, override_hostname: None },
            transports: Vec::new(),
        }
    }
}

/// Why a configuration is refused.
pub enum ConfigError {
    /// Two transports bear this name.
    DuplicateTransportName(String),
}

impl ConfigError {
    /// The text that describes the error.
    pub fn message(&self) -> (r: String)
        ensures
            self matches ConfigError::DuplicateTransportName(n) && r@ == "Duplicate transport name found: '"@
                + n@ + "'. Each transport must have a unique name."@,
    {
        match self {
            ConfigError::DuplicateTransportName(n) => {
                let mut s = "Duplicate transport name found: '".to_owned();
                s.append(n.as_str());
                s.append("'. Each transport must have a unique name.");
                s
            },
        }
    }
}

/// The names of the transports, in order.
pub open spec fn transport_names(ts: Seq<Transport>) -> Seq<Seq<char>> {
    ts.map_values(|t: Transport| t.transport_name())
}

/// The name at `i` was already borne by an earlier transport.
pub open spec fn repeats_earlier(names: Seq<Seq<char>>, i: int) -> bool {
    exists|j: int| 0 <= j < i && names[j] == names[i]
}

/// The first index at or after `i` whose name was already borne by an
/// earlier transport.
pub open spec fn first_repeat(names: Seq<Seq<char>>, i: nat) -> Option<nat>
    decreases names.len() - i,
{
    if i >= names.len() {
        None
    } else if repeats_earlier(names, i as int) {
        Some(i)
    } else {
        first_repeat(names, i + 1)
    }
}

/// The host-name override once checked: one that is blank counts as none.
pub open spec fn checked_hostname(h: Option<String>) -> Option<String> {
    match h {
        Some(s) => if all_white(s@) {
            None
        } else {
            Some(s)
        },
        None => None,
    }
}

/// What `validate` gives for transports with these names: an error that
/// names the first name borne twice, if any.
pub open spec fn validation_result(names: Seq<Seq<char>>) -> Option<Seq<char>> {
    match first_repeat(names, 0) {
        Some(i) => Some(names[i as int]),
        None => None,
    }
}

proof fn lemma_first_repeat_facts(names: Seq<Seq<char>>, i: nat)
    ensures
        first_repeat(names, i) matches Some(k) ==> i <= k < names.len() && repeats_earlier(
            names,
            k as int,
        ) && forall|m: int| i <= m < k ==> !#[trigger] repeats_earlier(names, m),
        first_repeat(names, i) is None ==> forall|m: int|
            i <= m < names.len() ==> !#[trigger] repeats_earlier(names, m),
    decreases names.len() - i,
{
    if i < names.len() && !repeats_earlier(names, i as int) {
        lemma_first_repeat_facts(names, i + 1);
    }
}

impl Config {
    /// Checks the configuration after it is read: a blank host-name override
    /// is dropped, and two transports must not bear the same name.
    pub fn validate(&mut self) -> (r: Result<(), ConfigError>)
        ensures
            final(self).settings.override_hostname == checked_hostname(
                old(self).settings.override_hostname,
            ),
            final(self).settings.notify_on_start == old(self).settings.notify_on_start,
            final(self).transports@ == old(self).transports@,
            final(self)._folders == old(self)._folders,
            match validation_result(transport_names(old(self).transports@)) {
                Some(n) => r matches Err(ConfigError::DuplicateTransportName(e)) && e@ == n,
                None => r is Ok,
            },
    {
        let blank = match &self.settings.override_hostname {
            Some(h) => is_blank(h.as_str()),
            None => false,
        };
        if blank {
            self.settings.override_hostname = None;
        }
        let ghost names = transport_names(self.transports@);
        let n = self.transports.len();
        let mut i: usize = 0;
        while i < n
            invariant
                self.settings.override_hostname == checked_hostname(old(self).settings.override_hostname),
                self.settings.notify_on_start == old(self).settings.notify_on_start,
                self.transports@ == old(self).transports@,
                self._folders == old(self)._folders,
                n == self.transports@.len(),
                names == transport_names(self.transports@),
                i <= n,
                first_repeat(names, 0) == first_repeat(names, i as nat),
            decreases n - i,
        {
            let name = self.transports[i].name();
            let mut j: usize = 0;
            while j < i
                invariant
                    self.settings.override_hostname == checked_hostname(old(self).settings.override_hostname),
                    self.settings.notify_on_start == old(self).settings.notify_on_start,
                    self.transports@ == old(self).transports@,
                    self._folders == old(self)._folders,
                    n == self.transports@.len(),
                    names == transport_names(self.transports@),
                    j <= i < n,
                    first_repeat(names, 0) == first_repeat(names, i as nat),
                    name@ == names[i as int],
                    forall|m: int| 0 <= m < j ==> names[m] != names[i as int],
                decreases i - j,
            {
                if same_text(self.transports[j].name(), name) {
                    assert(names[j as int] == names[i as int]);
                    assert(repeats_earlier(names, i as int));
                    assert(names.len() == n);
                    assert(first_repeat(names, i as nat) == Some(i as nat));
                    return Err(ConfigError::DuplicateTransportName(name.to_owned()));
                }
                j = j + 1;
            }
            assert(!repeats_earlier(names, i as int));
            i = i + 1;
        }
        Ok(())
    }

    /// The configuration as it is used, from what the configuration files
    /// gave (`loaded`) and the built-in defaults: checked as `validate`
    /// checks it, with the default for `notify_on_start` where the files left
    /// it unset. A configuration it gives has distinct transport names and no
    /// blank host-name override.
    pub fn new(loaded: Config, defaults: &Config) -> (r: Result<Config, ConfigError>)
        ensures
            r matches Ok(c) ==> transport_names(c.transports@).no_duplicates() && (
            c.settings.override_hostname matches Some(h) ==> !all_white(h@)),
            match validation_result(transport_names(loaded.transports@)) {
                Some(n) => r matches Err(ConfigError::DuplicateTransportName(e)) && e@ == n,
                None => r matches Ok(c) && c.transports@ == loaded.transports@ && c._folders
                    == loaded._folders && c.settings.override_hostname == checked_hostname(
                    loaded.settings.override_hostname,
                ) && c.settings.notify_on_start == (match loaded.settings.notify_on_start {
                    Some(b) => Some(b),
                    None => defaults.settings.notify_on_start,
                }),
            },
    {
        proof {
            law_validate_accepts_distinct_names(transport_names(loaded.transports@));
        }
        let mut cfg = loaded;
        match cfg.validate() {
            Err(e) => Err(e),
            Ok(()) => {
                if cfg.settings.notify_on_start.is_none() {
                    cfg.settings.notify_on_start = defaults.settings.notify_on_start;
                }
                Ok(cfg)
            },
        }
    }

    /// The lines that list the configured transports.
    pub fn list_transports(&self) -> (r: Vec<String>)
        ensures
            self.transports@.len() == 0 ==> r@.len() == 1 && r@[0]@ == "No transports configured."@,
            self.transports@.len() > 0 ==> r@.len() == self.transports@.len() + 1 && r@[0]@
                == "Configured transports:"@ && forall|k: int|
                0 <= k < self.transports@.len() ==> #[trigger] r@[k + 1]@ == "- [HTTP] "@
                    + self.transports@[k].transport_name(),
    {
        let mut lines: Vec<String> = Vec::new();
        if self.transports.len() == 0 {
            lines.push("No transports configured.".to_owned());
            return lines;
        }
        lines.push("Configured transports:".to_owned());
        let mut i: usize = 0;
        while i < self.transports.len()
            invariant
                i <= self.transports@.len(),
                lines@.len() == i + 1,
                lines@[0]@ == "Configured transports:"@,
                forall|k: int|
                    0 <= k < i ==> #[trigger] lines@[k + 1]@ == "- [HTTP] "@
                        + self.transports@[k].transport_name(),
            decreases self.transports@.len() - i,
        {
            let mut line = "- ".to_owned();
            let shown = self.transports[i].display();
            line.append(shown.as_str());
            assert("- "@ + ("[HTTP] "@ + self.transports@[i as int].transport_name()) =~= "- [HTTP] "@
                + self.transports@[i as int].transport_name()) by {
                reveal_strlit("- ");
                reveal_strlit("[HTTP] ");
                reveal_strlit("- [HTTP] ");
            }
            lines.push(line);
            i = i + 1;
        }
        lines
    }
}

/// Transports with names that no other transport bears pass the check, and
/// only they do.
pub proof fn law_validate_accepts_distinct_names(names: Seq<Seq<char>>)
    ensures
        validation_result(names) is None <==> names.no_duplicates(),
{
    lemma_first_repeat_facts(names, 0);
    if validation_result(names) is None {
        assert forall|a: int, b: int| 0 <= a < names.len() && 0 <= b < names.len() && a != b implies names[a]
            != names[b] by {
            if a < b {
                assert(!repeats_earlier(names, b));
            } else {
                assert(!repeats_earlier(names, a));
            }
        }
    } else {
        let k = first_repeat(names, 0)->0;
        let j = choose|j: int| 0 <= j < k && names[j] == names[k as int];
        assert(names[j] == names[k as int]);
    }
}

/// Checking a configuration twice leaves it as checking it once does: the
/// host-name override is settled by the first check (and the transports,
/// which no check changes, give the same verdict again).
pub proof fn law_validate_idempotent(h: Option<String>)
    ensures
        checked_hostname(checked_hostname(h)) == checked_hostname(h),
{
}

/// The formats in which a configuration file may be written.
#[derive(Clone, Copy, Debug, PartialEq, Eq, Structural)]
pub enum ConfigFormat {
    Json5,
    Json,
    Yaml,
    Toml,
    Ini,
}

/// The file names that hold a configuration, in the order in which they are
/// looked for.
pub open spec fn candidate_names() -> Seq<Seq<char>> {
    seq!["config.json5"@, "config.json"@, "config.yaml"@, "config.toml"@, "config.ini"@]
}

/// The format of each file name of `candidate_names`.
pub open spec fn candidate_formats() -> Seq<ConfigFormat> {
    seq![ConfigFormat::Json5, ConfigFormat::Json, ConfigFormat::Yaml, ConfigFormat::Toml, ConfigFormat::Ini]
}

/// The file extension that names a format.
pub open spec fn extension(f: ConfigFormat) -> Seq<char> {
    match f {
        ConfigFormat::Json5 => "json5"@,
        ConfigFormat::Json => "json"@,
        ConfigFormat::Yaml => "yaml"@,
        ConfigFormat::Toml => "toml"@,
        ConfigFormat::Ini => "ini"@,
    }
}

/// Each candidate file is read in the format its extension names: its name
/// is `config.` followed by that format's extension; and no two candidates
/// share a format.
pub proof fn law_candidates_read_by_extension()
    ensures
        candidate_names().len() == 5,
        candidate_formats().len() == 5,
        forall|k: int| 0 <= k < 5 ==> #[trigger] candidate_names()[k] == "config."@ + extension(
            candidate_formats()[k],
        ),
        forall|a: int, b: int|
            0 <= a < b < 5 ==> #[trigger] candidate_formats()[a] != #[trigger] candidate_formats()[b],
{
    reveal_strlit("config.");
    reveal_strlit("json5");
    reveal_strlit("json");
    reveal_strlit("yaml");
    reveal_strlit("toml");
    reveal_strlit("ini");
    reveal_strlit("config.json5");
    reveal_strlit("config.json");
    reveal_strlit("config.yaml");
    reveal_strlit("config.toml");
    reveal_strlit("config.ini");
    assert(candidate_names()[0] =~= "config."@ + extension(candidate_formats()[0]));
    assert(candidate_names()[1] =~= "config."@ + extension(candidate_formats()[1]));
    assert(candidate_names()[2] =~= "config."@ + extension(candidate_formats()[2]));
    assert(candidate_names()[3] =~= "config."@ + extension(candidate_formats()[3]));
    assert(candidate_names()[4] =~= "config."@ + extension(candidate_formats()[4]));
}

/// The editor command comes from `VISUAL` when that is set and not blank;
/// else from `EDITOR` when that is set and not blank; else it is `vi`.
pub proof fn law_editor_precedence(visual: Option<String>, editor: Option<String>)
    ensures
        (visual matches Some(v) && !all_white(v@)) ==> chosen_editor(visual, editor) == visual->0@,
        (visual is None || all_white(visual->0@)) ==> ((editor matches Some(e) && !all_white(e@))
            ==> chosen_editor(visual, editor) == editor->0@),
        (visual is None || all_white(visual->0@)) && (editor is None || all_white(editor->0@))
            ==> chosen_editor(visual, editor) == "vi"@,
{
}

/// The file name of a configuration that is created.
pub const PREFERRED_CONFIG_FILENAME: &'static str = "config.toml";

/// The file names that may hold a configuration, each with its format, in
/// the order in which they are looked for.
pub fn config_file_candidates() -> (r: Vec<(String, ConfigFormat)>)
    ensures
        r@.len() == 5,
        r@[0].0@ == "config.json5"@ && r@[0].1 == ConfigFormat::Json5,
        r@[1].0@ == "config.json"@ && r@[1].1 == ConfigFormat::Json,
        r@[2].0@ == "config.yaml"@ && r@[2].1 == ConfigFormat::Yaml,
        r@[3].0@ == "config.toml"@ && r@[3].1 == ConfigFormat::Toml,
        r@[4].0@ == "config.ini"@ && r@[4].1 == ConfigFormat::Ini,
        forall|k: int| 0 <= k < 5 ==> (#[trigger] r@[k]).0@ == candidate_names()[k] && r@[k].1
            == candidate_formats()[k],
{
    let mut r: Vec<(String, ConfigFormat)> = Vec::new();
    r.push(("config.json5".to_owned(), ConfigFormat::Json5));
    r.push(("config.json".to_owned(), ConfigFormat::Json));
    r.push(("config.yaml".to_owned(), ConfigFormat::Yaml));
    r.push(("config.toml".to_owned(), ConfigFormat::Toml));
    r.push(("config.ini".to_owned(), ConfigFormat::Ini));
    r
}

/// The path of a configuration that is created in `config_dir`.
pub fn preferred_config_path(config_dir: &str) -> (r: String)
    ensures
        r@ == joined(config_dir@, PREFERRED_CONFIG_FILENAME@),
{
    path_join(config_dir, PREFERRED_CONFIG_FILENAME)
}

/// The paths of the files in `config_dir` that may hold a configuration, in
/// the order in which they are looked for.
pub fn config_file_paths(config_dir: &str) -> (r: Vec<String>)
    ensures
        r@.len() == 5,
        forall|k: int| 0 <= k < 5 ==> (#[trigger] r@[k])@ == joined(config_dir@, candidate_names()[k]),
{
    let candidates = config_file_candidates();
    let mut r: Vec<String> = Vec::new();
    let mut i: usize = 0;
    while i < 5
        invariant
            candidates@.len() == 5,
            forall|k: int| 0 <= k < 5 ==> (#[trigger] candidates@[k]).0@ == candidate_names()[k],
            i <= 5,
            r@.len() == i,
            forall|k: int| 0 <= k < i ==> (#[trigger] r@[k])@ == joined(config_dir@, candidate_names()[k]),
        decreases 5 - i,
    {
        r.push(path_join(config_dir, candidates[i].0.as_str()));
        i = i + 1;
    }
    r
}

/// The first index at or after `i` whose flag is set.
pub open spec fn first_set(flags: Seq<bool>, i: nat) -> Option<nat>
    decreases flags.len() - i,
{
    if i >= flags.len() {
        None
    } else if flags[i as int] {
        Some(i)
    } else {
        first_set(flags, i + 1)
    }
}

/// The flags that have a path beside them.
pub open spec fn flags_for(paths: Seq<String>, exists: Seq<bool>) -> Seq<bool> {
    if exists.len() <= paths.len() {
        exists
    } else {
        exists.take(paths.len() as int)
    }
}

/// Of the candidate `paths`, the first whose file exists, `exists` telling for
/// each whether it does (a path without a flag counts as missing).
pub fn existing_config_path(paths: &Vec<String>, exists: &Vec<bool>) -> (r: Option<String>)
    ensures
        match first_set(flags_for(paths@, exists@), 0) {
            Some(k) => r matches Some(p) && p@ == paths@[k as int]@,
            None => r is None,
        },
{
    let ghost flags = flags_for(paths@, exists@);
    let n = if exists.len() <= paths.len() {
        exists.len()
    } else {
        paths.len()
    };
    let mut i: usize = 0;
    while i < n
        invariant
            n == flags.len(),
            n <= paths@.len(),
            flags == flags_for(paths@, exists@),
            forall|k: int| 0 <= k < n ==> flags[k] == exists@[k],
            i <= n,
            first_set(flags, 0) == first_set(flags, i as nat),
        decreases n - i,
    {
        if exists[i] {
            return Some(paths[i].clone());
        }
        i = i + 1;
    }
    None
}

/// The built-in configuration, written to a configuration file that is
/// missing or empty.
pub const DEFAULT_CONFIG: &'static str = "[settings]\nnotify_on_start = false\n";

/// The built-in configuration.
pub fn default_config_contents() -> (r: &'static str)
    ensures
        r@ == DEFAULT_CONFIG@,
{
    DEFAULT_CONFIG
}

/// The permissions of a configuration file that is created: read and write
/// for its owner alone.
pub const CONFIG_FILE_MODE: u32 = 0o600;

/// Whether a configuration file must be (re)written with the built-in
/// configuration before it is edited: when it is missing (`None`) or holds
/// nothing but white space.
pub fn needs_default_config(contents: Option<&str>) -> (r: bool)
    ensures
        r == match contents {
            Some(c) => all_white(c@),
            None => true,
        },
{
    match contents {
        Some(c) => is_blank(c),
        None => true,
    }
}

/// What is appended to a configuration file to add `contents`: a line break,
/// the contents and two more line breaks.
pub fn appended_text(contents: &str) -> (r: String)
    ensures
        r@ == seq!['\n'] + contents@ + seq!['\n', '\n'],
{
    let mut s = String::new();
    push_char(&mut s, '\n');
    s.append(contents);
    push_char(&mut s, '\n');
    push_char(&mut s, '\n');
    assert(s@ =~= seq!['\n'] + contents@ + seq!['\n', '\n']);
    s
}

/// The configuration entry of a transport, from the transport's serialized
/// settings: the array-of-tables header `[[transports]]` on a line of its own,
/// then the settings.
pub fn transport_entry(serialized: &str) -> (r: String)
    ensures
        r@ == "[[transports]]\n"@ + serialized@,
{
    let mut s = "[[transports]]\n".to_owned();
    s.append(serialized);
    s
}

/// Why editing the configuration failed.
pub enum EditError {
    /// The editor command holds no program.
    UnparsableEditor,
    /// The editor exited unsuccessfully, with this exit code if it had one.
    EditorFailed(Option<i32>),
}

/// `i` in decimal, with a minus sign when it is negative.
pub open spec fn signed_decimal(i: int) -> Seq<char> {
    if i < 0 {
        seq!['-'] + decimal((-i) as nat)
    } else {
        decimal(i as nat)
    }
}

/// An optional exit code as `{:?}` writes it: `Some(code)` or `None`.
pub open spec fn debug_code(code: Option<i32>) -> Seq<char> {
    match code {
        Some(c) => "Some("@ + signed_decimal(c as int) + ")"@,
        None => "None"@,
    }
}

fn signed_decimal_string(i: i32) -> (r: String)
    ensures
        r@ == signed_decimal(i as int),
{
    if i < 0 {
        let magnitude: u64 = if i == i32::MIN {
            2147483648
        } else {
            (-i) as u64
        };
        let mut s = String::new();
        push_char(&mut s, '-');
        let digits = decimal_string(magnitude);
        s.append(digits.as_str());
        assert(s@ =~= seq!['-'] + decimal((-(i as int)) as nat));
        s
    } else {
        decimal_string(i as u64)
    }
}

impl EditError {
    /// The text that describes the error.
    pub fn message(&self) -> (r: String)
        ensures
            self is UnparsableEditor ==> r@ == "Could not parse editor command"@,
            self matches EditError::EditorFailed(code) ==> r@ == "Editor exited with status code "@
                + debug_code(*code),
    {
        match self {
            EditError::UnparsableEditor => "Could not parse editor command".to_owned(),
            EditError::EditorFailed(code) => {
                let mut s = "Editor exited with status code ".to_owned();
                match code {
                    Some(c) => {
                        s.append("Some(");
                        let digits = signed_decimal_string(*c);
                        s.append(digits.as_str());
                        s.append(")");
                    },
                    None => {
                        s.append("None");
                    },
                }
                s
            },
        }
    }
}

/// An editor setting counts when it is set and not blank.
pub open spec fn usable(v: Option<String>) -> bool {
    v matches Some(s) && !all_white(s@)
}

/// The editor command: `VISUAL` when it counts, else `EDITOR` when it counts,
/// else `vi`.
pub open spec fn chosen_editor(visual: Option<String>, editor: Option<String>) -> Seq<char> {
    if usable(visual) {
        visual->0@
    } else if usable(editor) {
        editor->0@
    } else {
        "vi"@
    }
}

/// The program to run to edit a file, and the arguments that come before the
/// file's path.
pub struct EditorCommand {
    pub program: String,
    pub args: Vec<String>,
}

/// The editor command to run, from the values of `VISUAL` and `EDITOR` (each
/// when it is set): its first word is the program and the other words are its
/// arguments.
pub fn editor_command(visual: Option<String>, editor: Option<String>) -> (r: Result<
    EditorCommand,
    EditError,
>)
    ensures
        words(chosen_editor(visual, editor)).len() == 0 ==> r matches Err(
            EditError::UnparsableEditor,
        ),
        words(chosen_editor(visual, editor)).len() > 0 ==> (r matches Ok(c) && c.program@ == words(
            chosen_editor(visual, editor),
        )[0] && c.args@.map_values(|a: String| a@) == words(
            chosen_editor(visual, editor),
        ).drop_first()),
{
    let ghost chosen = chosen_editor(visual, editor);
    let command: String = match visual {
        Some(v) if !is_blank(v.as_str()) => v,
        _ => match editor {
            Some(e) if !is_blank(e.as_str()) => e,
            _ => "vi".to_owned(),
        },
    };
    assert(command@ == chosen);
    let mut parts = split_whitespace(command.as_str());
    if parts.len() == 0 {
        return Err(EditError::UnparsableEditor);
    }
    let ghost all = parts@.map_values(|a: String| a@);
    let program = parts.remove(0);
    assert(parts@.map_values(|a: String| a@) =~= all.drop_first());
    Ok(EditorCommand { program, args: parts })
}

/// The outcome of editing, from how the editor exited.
pub fn editor_outcome(success: bool, code: Option<i32>) -> (r: Result<(), EditError>)
    ensures
        success ==> r is Ok,
        !success ==> r == Err::<(), EditError>(EditError::EditorFailed(code)),
{
    if success {
        Ok(())
    } else {
        Err(EditError::EditorFailed(code))
    }
}

/// The first step of editing the configuration in `config_dir`: the files to
/// look for, in order, and the file to create when none exists.
pub struct ConfigEdit {
    pub candidates: Vec<String>,
    pub preferred: String,
}

/// Starts editing the configuration in `config_dir`; the caller then tells
/// which candidates exist, writes the built-in configuration where
/// `needs_default_config` says so, and runs the `editor_command` on the file.
pub fn edit_config_file(config_dir: &str) -> (r: ConfigEdit)
    ensures
        r.candidates@.len() == 5,
        forall|k: int|
            0 <= k < 5 ==> (#[trigger] r.candidates@[k])@ == joined(config_dir@, candidate_names()[k]),
        r.preferred@ == joined(config_dir@, PREFERRED_CONFIG_FILENAME@),
{
    ConfigEdit { candidates: config_file_paths(config_dir), preferred: preferred_config_path(config_dir) }
}

impl ConfigEdit {
    /// The file to edit: the first candidate that exists, else the file to
    /// create.
    pub fn path(&self, exists: &Vec<bool>) -> (r: String)
        ensures
            match first_set(flags_for(self.candidates@, exists@), 0) {
                Some(k) => r@ == self.candidates@[k as int]@,
                None => r@ == self.preferred@,
            },
    {
        match existing_config_path(&self.candidates, exists) {
            Some(p) => p,
            None => self.preferred.clone(),
        }
    }
}

} // verus!
