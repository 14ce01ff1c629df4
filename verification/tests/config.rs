use autolock::config::{find_option, Config};
use autolock::mode::InputMode;
use autolock::program::ProgramClassifier;

fn options(pairs: &[(&str, &str)]) -> Vec<(String, String)> {
    pairs.iter().map(|(k, v)| (k.to_string(), v.to_string())).collect()
}

#[test]
fn the_locked_programs_are_read_from_their_option() {
    let c = Config::load(&options(&[("locked_mode_programs", "vim, nvim")]), "/bin/sh".to_string());
    assert_eq!(c.classifier().default_mode("vim"), InputMode::Locked);
    assert_eq!(c.classifier().default_mode("nvim"), InputMode::Locked);
    assert_eq!(c.classifier().default_mode("sh"), InputMode::Normal);
    assert_eq!(c.classifier().classify(""), "sh");
    assert!(!c.hide_self());
}

#[test]
fn without_options_nothing_is_locked_and_nothing_hidden() {
    let c = Config::load(&Vec::new(), String::new());
    assert!(!c.classifier().is_locked(""));
    assert!(!c.classifier().is_locked("vim"));
    assert_eq!(c.classifier().classify(""), "");
    assert!(!c.hide_self());
}

#[test]
fn an_empty_list_locks_the_empty_name_only() {
    let c = Config::load(&options(&[("locked_mode_programs", "")]), String::new());
    assert!(c.classifier().is_locked(""));
    assert!(!c.classifier().is_locked("vim"));
}

#[test]
fn hide_is_on_only_for_the_value_true() {
    let shell = || "/bin/sh".to_string();
    assert!(Config::load(&options(&[("hide", "true")]), shell()).hide_self());
    assert!(!Config::load(&options(&[("hide", "false")]), shell()).hide_self());
    assert!(!Config::load(&options(&[("hide", "True")]), shell()).hide_self());
    assert!(!Config::load(&options(&[("hide", " true")]), shell()).hide_self());
    assert!(!Config::load(&options(&[("hide", "")]), shell()).hide_self());
    assert!(!Config::load(&options(&[("Hide", "true")]), shell()).hide_self());
}

#[test]
fn other_options_are_passed_over() {
    let c = Config::load(
        &options(&[("theme", "dark"), ("hide", "true"), ("locked_mode_programs", "hx"), ("x", "")]),
        "fish".to_string(),
    );
    assert!(c.hide_self());
    assert!(c.classifier().is_locked("hx"));
    assert!(!c.classifier().is_locked("dark"));
    assert_eq!(c.classifier().classify("  "), "fish");
}

#[test]
fn of_two_options_with_one_key_the_first_counts() {
    let o = options(&[("hide", "false"), ("hide", "true"), ("locked_mode_programs", "a"), ("locked_mode_programs", "b")]);
    assert_eq!(find_option(&o, "hide"), Some("false"));
    let c = Config::load(&o, String::new());
    assert!(!c.hide_self());
    assert!(c.classifier().is_locked("a"));
    assert!(!c.classifier().is_locked("b"));
}

#[test]
fn find_option_matches_the_whole_key() {
    let o = options(&[("hid", "1"), ("hide ", "2"), ("hide", "3")]);
    assert_eq!(find_option(&o, "hide"), Some("3"));
    assert_eq!(find_option(&o, "hid"), Some("1"));
    assert_eq!(find_option(&o, "h"), None);
    assert_eq!(find_option(&Vec::new(), "hide"), None);
}

#[test]
fn a_config_can_be_made_from_its_parts() {
    let c = Config::new(ProgramClassifier::from_list("vim", "sh".to_string()), true);
    assert!(c.hide_self());
    assert!(c.classifier().is_locked("vim"));
}
