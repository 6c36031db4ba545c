use croak::utils::{get_config_dir, get_data_dir, path_join};
use std::path::Path;

#[test]
fn path_join_agrees_with_std() {
    for (a, b) in [("/home/u", "croak"), ("/home/u/", "croak"), ("", "croak"), ("x", "/abs"), (".", ".data"), ("/a", ".local/share")] {
        assert_eq!(path_join(a, b), Path::new(a).join(b).to_str().unwrap(), "{:?} {:?}", a, b);
    }
}

#[test]
fn data_dir_precedence() {
    let s = |v: &str| Some(v.to_string());
    assert_eq!(get_data_dir(s("/d"), s("/x"), s("/h")), "/d");
    assert_eq!(get_data_dir(None, s("/x"), s("/h")), "/x/croak");
    assert_eq!(get_data_dir(None, None, s("/h")), "/h/.local/share/croak");
    assert_eq!(get_data_dir(None, None, None), "./.data");
}

#[test]
fn config_dir_precedence() {
    let s = |v: &str| Some(v.to_string());
    assert_eq!(get_config_dir(s("/c"), s("/x"), s("/h")), "/c");
    assert_eq!(get_config_dir(None, s("/x/"), s("/h")), "/x/croak");
    assert_eq!(get_config_dir(None, None, s("/h")), "/h/.config/croak");
    assert_eq!(get_config_dir(None, None, None), "./.config");
}

use croak::log::{log_line, shown_on_terminal, to_error_stream, Level};
use croak::utils::version_text;

#[test]
fn log_lines() {
    assert_eq!(log_line("2024-01-01 00:00:00", Level::Info, "hi"), "[2024-01-01 00:00:00][INFO] hi");
    assert_eq!(log_line("t", Level::Error, "bad"), "[t][ERROR] bad");
    assert_eq!(log_line("t", Level::Warn, ""), "[t][WARN] ");
    assert_eq!(log_line("t", Level::Debug, "d"), "[t][DEBUG] d");
    assert!(!shown_on_terminal(Level::Debug) && shown_on_terminal(Level::Warn));
    assert!(to_error_stream(Level::Error) && !to_error_stream(Level::Info));
}

#[test]
fn version_lists_authors_and_directories() {
    assert_eq!(
        version_text("1.0-x (d)", "Ann", "/c", "/d"),
        "1.0-x (d)\n\nAuthors: Ann\n\nConfig directory: /c\nData directory: /d"
    );
}
