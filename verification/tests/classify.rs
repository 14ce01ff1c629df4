use autolock::mode::InputMode;
use autolock::program::{parse_program, ProgramClassifier};
use autolock::text::{chars_of, is_space_char, same_text, scan_spaces, scan_to, scan_word, trimmed};

fn classifier(list: &str, shell: &str) -> ProgramClassifier {
    ProgramClassifier::from_list(list, shell.to_string())
}

#[test]
fn sudo_is_unwrapped_to_the_wrapped_program() {
    let c = classifier("vim", "/bin/sh");
    assert_eq!(c.classify("sudo vim f"), "vim");
    assert_eq!(c.classify("vim f"), "vim");
    assert_eq!(c.classify("sudo vim f"), c.classify("vim f"));
}

#[test]
fn doas_is_unwrapped_to_the_wrapped_program() {
    let c = classifier("", "/bin/sh");
    assert_eq!(c.classify("doas nvim notes.txt"), "nvim");
    assert_eq!(parse_program("doas nvim notes.txt"), Some("nvim"));
}

#[test]
fn the_path_of_the_first_word_is_dropped() {
    assert_eq!(parse_program("/usr/bin/vim file"), Some("vim"));
    assert_eq!(parse_program("./target/debug/app --flag"), Some("app"));
    assert_eq!(parse_program("htop"), Some("htop"));
}

#[test]
fn a_wrapper_is_known_behind_its_path() {
    assert_eq!(parse_program("/usr/bin/sudo nvim x"), Some("nvim"));
    assert_eq!(parse_program("/opt/doas hx"), Some("hx"));
}

#[test]
fn the_word_behind_a_wrapper_loses_its_path_too() {
    assert_eq!(parse_program("sudo /usr/bin/vim f"), Some("vim"));
    assert_eq!(parse_program("doas ./target/debug/app --flag"), Some("app"));
    assert_eq!(parse_program("/usr/bin/sudo /usr/local/bin/nvim"), Some("nvim"));
    assert_eq!(parse_program("sudo /usr/bin/ x"), Some(""));
    assert_eq!(parse_program("sudo   /"), Some(""));
}

#[test]
fn only_the_first_wrapper_is_unwrapped() {
    assert_eq!(parse_program("sudo sudo vim"), Some("sudo"));
    assert_eq!(parse_program("sudo /usr/bin/doas vim"), Some("doas"));
    assert_eq!(parse_program("sudo -u root vim"), Some("-u"));
}

#[test]
fn a_line_behind_a_wrapper_names_what_the_line_names_alone() {
    for line in ["vim f", "/usr/bin/vim f", "  ./a/b/c  x y", "htop", "dir/ x", "編集/ファイル z"] {
        let alone = parse_program(line);
        assert!(alone.is_some());
        for wrapper in ["sudo", "doas", "/usr/bin/sudo", "  /opt/doas"] {
            let wrapped = format!("{} {}", wrapper, line);
            assert_eq!(parse_program(&wrapped), alone, "{:?}", wrapped);
        }
    }
}

#[test]
fn words_are_split_on_any_white_space() {
    assert_eq!(parse_program("   vim   f"), Some("vim"));
    assert_eq!(parse_program("\t\nvim\tf"), Some("vim"));
    assert_eq!(parse_program("sudo\t \u{a0}vim\u{3000}f"), Some("vim"));
    assert_eq!(parse_program("vim\u{2003}f"), Some("vim"));
}

#[test]
fn names_that_only_start_like_a_wrapper_are_programs() {
    assert_eq!(parse_program("sudoedit f"), Some("sudoedit"));
    assert_eq!(parse_program("sud vim"), Some("sud"));
    assert_eq!(parse_program("doas2 vim"), Some("doas2"));
    assert_eq!(parse_program("SUDO vim"), Some("SUDO"));
}

#[test]
fn a_first_word_that_ends_in_a_slash_names_the_empty_program() {
    assert_eq!(parse_program("/usr/bin/ x"), Some(""));
    assert_eq!(parse_program("/"), Some(""));
}

#[test]
fn a_line_without_a_program_names_none() {
    assert_eq!(parse_program(""), None);
    assert_eq!(parse_program("   \t "), None);
    assert_eq!(parse_program("sudo"), None);
    assert_eq!(parse_program("  doas   "), None);
}

#[test]
fn an_empty_line_is_classified_as_the_default_shell() {
    let c = classifier("zsh", "/usr/bin/zsh -l");
    assert_eq!(c.classify(""), "zsh");
    assert_eq!(c.classify("   "), "zsh");
    assert_eq!(c.classify("sudo"), "zsh");
    assert_eq!(c.mode_for(None), InputMode::Locked);
    assert_eq!(c.mode_for(Some("")), InputMode::Locked);
    assert_eq!(c.mode_for(Some("ls")), InputMode::Normal);
}

#[test]
fn without_a_shell_an_empty_line_is_classified_as_the_empty_name() {
    let c = classifier("vim", "");
    assert_eq!(c.classify(""), "");
    assert_eq!(c.classify("sudo"), "");
    assert_eq!(c.mode_for(None), InputMode::Normal);
    let d = classifier("vim,", "");
    assert!(d.is_locked(""));
    assert_eq!(d.mode_for(None), InputMode::Locked);
}

#[test]
fn non_ascii_program_names_are_kept_whole() {
    assert_eq!(parse_program("/opt/értelmező/naïve arg"), Some("naïve"));
    assert_eq!(parse_program("sudo 編集 ファイル"), Some("編集"));
}

#[test]
fn locked_programs_get_locked_mode_and_all_others_normal() {
    let c = classifier("vim,nvim,hx", "/bin/sh");
    for p in ["vim", "nvim", "hx"] {
        assert!(c.is_locked(p));
        assert_eq!(c.default_mode(p), InputMode::Locked);
    }
    for p in ["", "vi", "vimm", "sh", "Vim", " vim", "vim,nvim"] {
        assert!(!c.is_locked(p));
        assert_eq!(c.default_mode(p), InputMode::Normal);
    }
}

#[test]
fn a_new_classifier_locks_nothing_until_told() {
    let mut c = ProgramClassifier::new("/bin/sh".to_string());
    assert_eq!(c.default_mode("vim"), InputMode::Normal);
    c.lock("vim");
    assert_eq!(c.default_mode("vim"), InputMode::Locked);
    assert_eq!(c.default_mode("nvim"), InputMode::Normal);
    assert_eq!(c.classify(""), "sh");
}

#[test]
fn listed_names_are_trimmed() {
    let c = classifier(" vim ,\tnvim\n, hx", "/bin/sh");
    assert!(c.is_locked("vim"));
    assert!(c.is_locked("nvim"));
    assert!(c.is_locked("hx"));
    assert!(!c.is_locked(" vim "));
    assert!(!c.is_locked(""));
}

#[test]
fn empty_pieces_of_a_list_name_the_empty_program() {
    assert!(classifier("", "").is_locked(""));
    assert!(classifier("a,,b", "").is_locked(""));
    assert!(classifier("a, ", "").is_locked(""));
    assert!(classifier(",a", "").is_locked(""));
    assert!(!classifier("a,b", "").is_locked(""));
    assert!(classifier("a,,b", "").is_locked("a"));
    assert!(classifier("a,,b", "").is_locked("b"));
}

#[test]
fn names_may_hold_white_space_inside() {
    let c = classifier("my editor ,x", "");
    assert!(c.is_locked("my editor"));
    assert!(!c.is_locked("my"));
    assert!(c.is_locked("x"));
}

#[test]
fn classification_and_mode_go_together() {
    let c = classifier("vim", "/bin/bash");
    assert_eq!(c.default_mode(c.classify("sudo vim /etc/hosts")), InputMode::Locked);
    assert_eq!(c.default_mode(c.classify("/usr/bin/vim")), InputMode::Locked);
    assert_eq!(c.default_mode(c.classify("sudo /usr/bin/vim")), InputMode::Locked);
    assert_eq!(c.default_mode(c.classify("sudo /usr/bin/vimdiff")), InputMode::Normal);
    assert_eq!(c.default_mode(c.classify("less vim")), InputMode::Normal);
    assert_eq!(c.mode_for(Some("doas vim")), InputMode::Locked);
}

#[test]
fn white_space_is_what_the_standard_library_calls_so() {
    let mut n: u32 = 0;
    while n <= 0x10FFFF {
        if let Some(c) = char::from_u32(n) {
            assert_eq!(is_space_char(c), c.is_whitespace(), "U+{:04X}", n);
        }
        n += 1;
    }
}

#[test]
fn trimming_agrees_with_the_standard_library() {
    for s in ["", " ", "a", " a", "a ", "  a b  ", "\t\u{a0}x y\u{2028}\n", " \u{3000} ", "é ", " 編 集 "] {
        assert_eq!(trimmed(s), s.trim(), "{:?}", s);
    }
}

#[test]
fn trimming_keeps_what_is_inside() {
    assert_eq!(trimmed("  cd  "), "cd");
    assert_eq!(trimmed("ab"), "ab");
    assert_eq!(trimmed(" a  b "), "a  b");
    assert_eq!(trimmed("   "), "");
    assert_eq!(trimmed(""), "");
}

#[test]
fn chars_of_lists_the_characters_in_order() {
    assert_eq!(chars_of(""), Vec::<char>::new());
    assert_eq!(chars_of("añ編"), vec!['a', 'ñ', '編']);
}

#[test]
fn same_text_compares_character_by_character() {
    assert!(same_text("", ""));
    assert!(same_text("hide", "hide"));
    assert!(!same_text("hide", "hid"));
    assert!(!same_text("hide", "hidE"));
    assert!(!same_text("", " "));
}

#[test]
fn scans_stop_where_they_should() {
    let s = chars_of("  ab cd,e");
    assert_eq!(scan_spaces(&s, 0), 2);
    assert_eq!(scan_spaces(&s, 2), 2);
    assert_eq!(scan_word(&s, 2), 4);
    assert_eq!(scan_word(&s, 4), 4);
    assert_eq!(scan_word(&s, 5), 9);
    assert_eq!(scan_to(&s, ',', 0), 7);
    assert_eq!(scan_to(&s, ',', 8), 9);
    assert_eq!(scan_spaces(&s, 9), 9);
    let blank = chars_of("   ");
    assert_eq!(scan_spaces(&blank, 0), 3);
    assert_eq!(scan_word(&blank, 0), 0);
    assert_eq!(scan_spaces(&blank, 7), 7);
    assert_eq!(scan_word(&blank, 7), 7);
    assert_eq!(scan_to(&blank, ',', 7), 7);
}
