use croak::text::{
    decimal_string, find, is_blank, is_whitespace, repeat_char, same_text, split_once, split_whitespace,
    trim,
};

const SAMPLES: [&str; 12] = [
    "",
    "   ",
    "vi",
    "  code --wait  ",
    "\t nano\n",
    "a  b\tc\u{3000}d",
    "\u{2000}x\u{85}",
    "emacs -nw -q",
    "\u{A0}\u{1680} y \u{205F}",
    "héllo wörld",
    "k: v: w",
    "x=1=2",
];

#[test]
fn is_whitespace_agrees_with_std_on_every_char() {
    for code in 0u32..=0x10FFFF {
        if let Some(c) = char::from_u32(code) {
            assert_eq!(is_whitespace(c), c.is_whitespace(), "char {:x}", code);
        }
    }
}

#[test]
fn trim_agrees_with_std() {
    for s in SAMPLES {
        assert_eq!(trim(s), s.trim(), "{:?}", s);
    }
    assert_eq!(trim("  ab "), "ab");
    assert_eq!(trim(" \u{3000} "), "");
}

#[test]
fn trim_twice_is_trim_once() {
    for s in SAMPLES {
        assert_eq!(trim(trim(s)), trim(s));
    }
}

#[test]
fn blank_exactly_when_trim_is_empty() {
    for s in SAMPLES {
        assert_eq!(is_blank(s), trim(s).is_empty(), "{:?}", s);
    }
    assert!(is_blank(""));
    assert!(is_blank(" \t\n"));
    assert!(!is_blank(" a "));
}

#[test]
fn split_whitespace_agrees_with_std() {
    for s in SAMPLES {
        let ours = split_whitespace(s);
        let theirs: Vec<String> = s.split_whitespace().map(|w| w.to_string()).collect();
        assert_eq!(ours, theirs, "{:?}", s);
    }
    assert_eq!(split_whitespace("  code --wait  "), vec!["code".to_string(), "--wait".to_string()]);
}

#[test]
fn words_are_nonempty_and_hold_no_white_space() {
    for s in SAMPLES {
        for w in split_whitespace(s) {
            assert!(!w.is_empty());
            assert!(!w.chars().any(|c| c.is_whitespace()));
        }
    }
}

#[test]
fn split_once_agrees_with_std() {
    for s in SAMPLES {
        for c in [':', '=', ' '] {
            assert_eq!(split_once(s, c), s.split_once(c), "{:?} {:?}", s, c);
        }
    }
    assert_eq!(split_once("Key: Value", ':'), Some(("Key", " Value")));
    assert_eq!(split_once("novalue", '='), None);
}

#[test]
fn find_gives_first_char_index() {
    assert_eq!(find("a:b:c", ':'), Some(1));
    assert_eq!(find("héllo:", ':'), Some(5));
    assert_eq!(find("abc", ':'), None);
}

#[test]
fn decimal_string_agrees_with_to_string() {
    for n in [0u64, 1, 9, 10, 42, 99, 100, 12345, u32::MAX as u64, u64::MAX] {
        assert_eq!(decimal_string(n), n.to_string());
    }
    assert_eq!(decimal_string(42), "42");
}

#[test]
fn repeat_char_repeats() {
    assert_eq!(repeat_char('-', 0), "");
    assert_eq!(repeat_char('-', 5), "-----");
}

#[test]
fn same_text_compares_characters() {
    assert!(same_text("POST", "POST"));
    assert!(!same_text("POST", "POS"));
    assert!(!same_text("PUT", "PAT"));
    assert!(same_text("", ""));
}

#[test]
fn splitting_joined_words_gives_them_back() {
    for ws in [vec![], vec!["vi"], vec!["code", "--wait", "-n"], vec!["é", "ü\u{2028}".trim()]] {
        let joined = ws.join(" ");
        let back = split_whitespace(&joined);
        assert_eq!(back, ws.iter().map(|w| w.to_string()).collect::<Vec<_>>());
    }
}
