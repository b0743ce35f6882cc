use std::path::Path;

use syscfg::paths::join;
use syscfg::ss::{appconfig_ss_path, appconfig_sys_path, config_path, font_ss_path, font_sys_path};
use syscfg::text::{chars_of, str_eq, trim};

#[test]
fn trim_cuts_whitespace_on_both_sides() {
    assert_eq!(trim("  hello world \n"), "hello world");
    assert_eq!(trim("\t\r\n"), "");
    assert_eq!(trim(""), "");
    assert_eq!(trim("x"), "x");
    assert_eq!(trim("\u{a0}a b\u{3000}"), "a b");
}

#[test]
fn trim_agrees_with_std_trim() {
    for s in ["", " ", " a", "a ", " M file.txt\n?? other\n", "\n\n", "é ü", "  \u{2003}x\u{2003}  "] {
        assert_eq!(trim(s), s.trim());
    }
}

#[test]
fn str_eq_compares_characters() {
    assert!(str_eq("", ""));
    assert!(str_eq("mksnap", "mksnap"));
    assert!(!str_eq("mksnap", "mksna"));
    assert!(!str_eq("save", "load"));
}

#[test]
fn chars_of_keeps_every_character() {
    assert_eq!(chars_of("aé*"), vec!['a', 'é', '*']);
}

#[test]
fn join_text_puts_separator_between() {
    let list = vec!["-C".to_string(), "/tmp/x".to_string(), "add".to_string()];
    assert_eq!(syscfg::text::join(&list, " "), "-C /tmp/x add");
    assert_eq!(syscfg::text::join(&Vec::new(), " "), "");
    assert_eq!(syscfg::text::join(&vec!["one".to_string()], ", "), "one");
}

#[test]
fn join_path_relative_and_absolute() {
    assert_eq!(join("/home/u", ".config"), "/home/u/.config");
    assert_eq!(join("/home/u/", ".config"), "/home/u/.config");
    assert_eq!(join("", "a"), "a");
    assert_eq!(join("/home/u", "/etc"), "/etc");
    assert_eq!(join("/home/u", ""), "/home/u/");
    assert_eq!(join("/", "x"), "/x");
}

#[test]
fn join_path_agrees_with_std_path_join() {
    let bases = ["", "/", "a", "a/", "/home/u", "rel/dir/"];
    let names = ["", "x", "x/y", "/abs", ".hidden"];
    for b in bases {
        for n in names {
            let expected = Path::new(b).join(n);
            assert_eq!(join(b, n), expected.to_str().unwrap(), "base {b:?} name {n:?}");
        }
    }
}

#[test]
fn system_paths_live_under_home() {
    assert_eq!(appconfig_sys_path("/home/u", "nvim"), "/home/u/.config/nvim");
    assert_eq!(font_sys_path("/home/u", "Hack.ttf"), "/home/u/.local/share/fonts/Hack.ttf");
    assert_eq!(font_sys_path("/home/u", ""), "/home/u/.local/share/fonts/");
}

#[test]
fn snapshot_paths_live_under_snapshot() {
    assert_eq!(appconfig_ss_path("/snap", "nvim"), "/snap/AppConfig/nvim");
    assert_eq!(font_ss_path("/snap", ""), "/snap/Fonts/");
    assert_eq!(font_ss_path("/snap/", "Hack.ttf"), "/snap/Fonts/Hack.ttf");
    assert_eq!(config_path("/snap"), "/snap/SnapshotConfig.json");
}

#[test]
fn app_config_and_font_paths_differ() {
    assert_ne!(appconfig_ss_path("/snap", "x"), font_ss_path("/snap", "x"));
    assert_ne!(appconfig_sys_path("/home/u", "x"), font_sys_path("/home/u", "x"));
}

#[test]
fn relative_join_extends_base() {
    for (b, n) in [("/snap", "AppConfig"), ("/snap/", "x/y"), ("", "z"), ("rel", "")] {
        assert!(join(b, n).starts_with(b));
    }
}

#[test]
fn white_space_agrees_with_std_on_every_char() {
    for u in 0..=0x10ffffu32 {
        if let Some(c) = char::from_u32(u) {
            assert_eq!(syscfg::text::is_white_space(c), c.is_whitespace(), "U+{u:04X}");
        }
    }
}
