//! Where the program keeps its data and its configuration, and how paths are
//! joined.
use vstd::prelude::*;
use vstd::string::StrSliceExecFns;

verus! {

/// The name of the program, as its files and directories use it.
pub const PACKAGE_NAME: &'static str = "croak";

/// The environment variable that overrides the data directory.
pub const DATA_DIR_VAR: &'static str = "CROAK_DATA";

/// The environment variable that overrides the configuration directory.
pub const CONFIG_DIR_VAR: &'static str = "CROAK_CONFIG";

/// The environment variable that overrides the export directory.
pub const EXPORT_DIR_VAR: &'static str = "CROAK_EXPORT";

/// The environment variable that overrides the favorites directory.
pub const FAVORITES_DIR_VAR: &'static str = "CROAK_FAVORITES";

/// The environment variable that sets the log level.
pub const LOG_LEVEL_VAR: &'static str = "CROAK_LOGLEVEL";

/// The name of the log file in the data directory.
pub const LOG_FILE: &'static str = "croak.log";

/// `base` joined with `rel` as a Unix path: an absolute `rel` replaces
/// `base`; otherwise a separator is put between them unless `base` is empty
/// or already ends with one.
pub open spec fn joined(base: Seq<char>, rel: Seq<char>) -> Seq<char> {
    if rel.len() > 0 && rel[0] == '/' {
        rel
    } else if base.len() == 0 {
        rel
    } else if base.last() == '/' {
        base + rel
    } else {
        base + seq!['/'] + rel
    }
}

/// `base` joined with `rel`, as `Path::join` joins them on Unix.
pub fn path_join(base: &str, rel: &str) -> (r: String)
    ensures
        r@ == joined(base@, rel@),
{
    let rl = rel.unicode_len();
    if rl > 0 && rel.get_char(0) == '/' {
        return rel.to_owned();
    }
    let bl = base.unicode_len();
    if bl == 0 {
        return rel.to_owned();
    }
    let mut s = base.to_owned();
    if base.get_char(bl - 1) != '/' {
        crate::text::push_char(&mut s, '/');
    }
    s.append(rel);
    s
}

/// The data directory: the override when it is set, else `croak` under
/// `XDG_DATA_HOME` when that is set, else `.local/share/croak` under the home
/// directory when there is one, else `./.data`.
pub open spec fn data_dir_spec(
    data_override: Option<Seq<char>>,
    xdg_data_home: Option<Seq<char>>,
    home: Option<Seq<char>>,
) -> Seq<char> {
    match data_override {
        Some(d) => d,
        None => match xdg_data_home {
            Some(x) => joined(x, PACKAGE_NAME@),
            None => match home {
                Some(h) => joined(joined(h, ".local/share"@), PACKAGE_NAME@),
                None => joined("."@, ".data"@),
            },
        },
    }
}

/// The configuration directory: the override when it is set, else `croak`
/// under `XDG_CONFIG_HOME` when that is set, else `.config/croak` under the
/// home directory when there is one, else `./.config`.
pub open spec fn config_dir_spec(
    config_override: Option<Seq<char>>,
    xdg_config_home: Option<Seq<char>>,
    home: Option<Seq<char>>,
) -> Seq<char> {
    match config_override {
        Some(d) => d,
        None => match xdg_config_home {
            Some(x) => joined(x, PACKAGE_NAME@),
            None => match home {
                Some(h) => joined(joined(h, ".config"@), PACKAGE_NAME@),
                None => joined("."@, ".config"@),
            },
        },
    }
}

/// An optional string as optional text.
pub open spec fn opt_view(o: Option<String>) -> Option<Seq<char>> {
    match o {
        Some(s) => Some(s@),
        None => None,
    }
}

/// The data directory, given the value of `CROAK_DATA`, of `XDG_DATA_HOME`
/// and the home directory, each when there is one.
pub fn get_data_dir(data_override: Option<String>, xdg_data_home: Option<String>, home: Option<String>) -> (r:
    String)
    ensures
        r@ == data_dir_spec(opt_view(data_override), opt_view(xdg_data_home), opt_view(home)),
{
    match data_override {
        Some(d) => d,
        None => match xdg_data_home {
            Some(x) => path_join(x.as_str(), PACKAGE_NAME),
            None => match home {
                Some(h) => {
                    let share = path_join(h.as_str(), ".local/share");
                    path_join(share.as_str(), PACKAGE_NAME)
                },
                None => path_join(".", ".data"),
            },
        },
    }
}

/// The configuration directory, given the value of `CROAK_CONFIG`, of
/// `XDG_CONFIG_HOME` and the home directory, each when there is one.
pub fn get_config_dir(
    config_override: Option<String>,
    xdg_config_home: Option<String>,
    home: Option<String>,
) -> (r: String)
    ensures
        r@ == config_dir_spec(opt_view(config_override), opt_view(xdg_config_home), opt_view(home)),
{
    match config_override {
        Some(d) => d,
        None => match xdg_config_home {
            Some(x) => path_join(x.as_str(), PACKAGE_NAME),
            None => match home {
                Some(h) => {
                    let dot = path_join(h.as_str(), ".config");
                    path_join(dot.as_str(), PACKAGE_NAME)
                },
                None => path_join(".", ".config"),
            },
        },
    }
}

/// The version text: the version, the authors, and the two directories.
pub open spec fn version_text_spec(
    version: Seq<char>,
    authors: Seq<char>,
    config_dir: Seq<char>,
    data_dir: Seq<char>,
) -> Seq<char> {
    version + "\n\nAuthors: "@ + authors + "\n\nConfig directory: "@ + config_dir + "\nData directory: "@
        + data_dir
}

/// The version text shown by `--version`.
pub fn version_text(version: &str, authors: &str, config_dir: &str, data_dir: &str) -> (r: String)
    ensures
        r@ == version_text_spec(version@, authors@, config_dir@, data_dir@),
{
    let mut s = version.to_owned();
    s.append("\n\nAuthors: ");
    s.append(authors);
    s.append("\n\nConfig directory: ");
    s.append(config_dir);
    s.append("\nData directory: ");
    s.append(data_dir);
    s
}

} // verus!
