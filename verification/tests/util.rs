use lazymc::util::cli::{answer_bool, derive_bool, prompt_answer, prompt_options};
use lazymc::util::error::{ErrorHints, ErrorHintsBuilder};
use lazymc::util::text::{decimal, hex, starts_with, trim};

#[test]
fn derive_bool_short_answers() {
    for yes in ["y", "ye", "t", "1", "Y", " T "] {
        assert_eq!(derive_bool(yes), Some(true), "{yes}");
    }
    for no in ["n", "f", "0", "N", "\tF\n"] {
        assert_eq!(derive_bool(no), Some(false), "{no}");
    }
}

#[test]
fn derive_bool_long_answers() {
    assert_eq!(derive_bool("yes"), Some(true));
    assert_eq!(derive_bool("  YES please "), Some(true));
    assert_eq!(derive_bool("True"), Some(true));
    assert_eq!(derive_bool("no"), Some(false));
    assert_eq!(derive_bool("nope"), Some(false));
    assert_eq!(derive_bool("FALSE!"), Some(false));
    assert_eq!(derive_bool(""), None);
    assert_eq!(derive_bool("maybe"), None);
    assert_eq!(derive_bool("2"), None);
    assert_eq!(answer_bool("Yes"), None);
    assert_eq!(answer_bool("yes"), Some(true));
}

#[test]
fn prompt_options_show_default() {
    assert_eq!(prompt_options(None), "[y/n]");
    assert_eq!(prompt_options(Some(true)), "[Y/n]");
    assert_eq!(prompt_options(Some(false)), "[y/N]");
}

#[test]
fn prompt_answer_uses_default_for_empty_reply() {
    assert_eq!(prompt_answer("", Some(true)), Some(true));
    assert_eq!(prompt_answer("", Some(false)), Some(false));
    assert_eq!(prompt_answer("", None), None);
    assert_eq!(prompt_answer("n", Some(true)), Some(false));
    assert_eq!(prompt_answer("what", Some(true)), None);
}

#[test]
fn error_hints_default_and_any() {
    let hints = ErrorHints::default();
    assert!(hints.info.is_empty());
    assert!(!hints.config && !hints.config_generate && !hints.config_test);
    assert!(hints.verbose && hints.help);
    assert!(hints.any());
    let none = ErrorHintsBuilder::default().verbose(false).help(false).build();
    assert!(!none.any());
}

#[test]
fn error_hints_builder_adds_info() {
    let hints = ErrorHintsBuilder::default()
        .add_info("one".to_string())
        .add_info("two".to_string())
        .config(true)
        .build();
    assert_eq!(hints.info, vec!["one".to_string(), "two".to_string()]);
    assert!(hints.config);
    assert!(hints.verbose);
}

#[test]
fn error_hint_lines() {
    let hints = ErrorHintsBuilder::default()
        .add_info("check the file".to_string())
        .config_generate(true)
        .config_test(true)
        .help(false)
        .build();
    assert_eq!(
        hints.lines("lazymc", true),
        vec![
            "info: check the file",
            "",
            "Use 'lazymc config generate' to generate a new config file",
            "Use 'lazymc config test -c FILE' to test a config file",
            "For a detailed log add '--verbose'",
            "",
        ]
    );
    let quiet = ErrorHintsBuilder::default()
        .add_info("x".to_string())
        .verbose(false)
        .help(false)
        .build();
    assert_eq!(quiet.lines("lazymc", true), vec!["info: x"]);
}

#[test]
fn text_helpers() {
    assert_eq!(trim("  a b \r\n"), "a b");
    assert_eq!(trim("\u{3000}\u{a0}x\u{2028}"), "x");
    assert_eq!(trim(" \t "), "");
    assert_eq!(trim("é"), "é");
    assert_eq!(hex(0), "0");
    assert_eq!(hex(0xdb8), "db8");
    assert_eq!(hex(0xffff), "ffff");
    assert!(starts_with("yesterday", "yes"));
    assert!(!starts_with("ye", "yes"));
    assert!(starts_with("abc", ""));
    assert_eq!(decimal(0), "0");
    assert_eq!(decimal(7), "7");
    assert_eq!(decimal(25565), "25565");
    assert_eq!(decimal(4294967295), "4294967295");
}
