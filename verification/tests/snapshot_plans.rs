use syscfg::cli::{subcommand_specs, Cli, CliCommand};
use syscfg::config::Config;
use syscfg::snapshot::{
    commit_if_changed, load, mksnap, save, snapshot_path, FontSave, SnapshotError, Transfer,
};

fn strs(v: &[&str]) -> Vec<String> {
    v.iter().map(|s| s.to_string()).collect()
}

fn config(apps: &[&str], font: &str) -> Config {
    Config { app_config: strs(apps), font: font.to_string(), package: Vec::new() }
}

fn transfer(name: &str, from: &str, to: &str) -> Transfer {
    Transfer { name: name.to_string(), from: from.to_string(), to: to.to_string() }
}

#[test]
fn default_config_selects_all_fonts() {
    let c = Config::default();
    assert!(c.app_config.is_empty());
    assert_eq!(c.font, "*");
    assert!(c.package.is_empty());
    assert!(c.fonts_supported());
    assert!(!config(&[], "Hack").fonts_supported());
}

#[test]
fn cli_from_matches_maps_subcommands() {
    assert_eq!(
        Cli::from_matches("mksnap", Some("/tmp/s".to_string())),
        Some(Cli { command: CliCommand::MkSnap { output: Some("/tmp/s".to_string()) } })
    );
    assert_eq!(
        Cli::from_matches("save", None),
        Some(Cli { command: CliCommand::Save { output: None } })
    );
    assert_eq!(
        Cli::from_matches("load", Some("p".to_string())),
        Some(Cli { command: CliCommand::Load { input: Some("p".to_string()) } })
    );
    assert_eq!(Cli::from_matches("push", None), None);
}

#[test]
fn cli_grammar_lists_three_subcommands() {
    let specs = subcommand_specs();
    let names: Vec<_> = specs.iter().map(|s| (s.name, s.option, s.short)).collect();
    assert_eq!(
        names,
        vec![("mksnap", "output", 'o'), ("save", "output", 'o'), ("load", "input", 'i')]
    );
}

#[test]
fn snapshot_path_given_or_default() {
    assert_eq!(snapshot_path(Some("/x".to_string()), None), Ok("/x".to_string()));
    assert_eq!(
        snapshot_path(None, Some("/home/u".to_string())),
        Ok("/home/u/.config/syscfg".to_string())
    );
    assert_eq!(snapshot_path(None, None), Err(SnapshotError::NoHomeDirectory));
}

#[test]
fn error_messages() {
    assert_eq!(SnapshotError::NoHomeDirectory.message(), "failed to determine home directory");
    assert_eq!(
        SnapshotError::UnsupportedFonts.message(),
        "anything other than * is not currently supported for fonts"
    );
}

#[test]
fn mksnap_plan() {
    let p = mksnap("/snap");
    assert_eq!(p.init, vec![strs(&["init", "/snap"])]);
    assert_eq!(p.config_path, "/snap/SnapshotConfig.json");
    assert_eq!(
        p.commit,
        vec![
            strs(&["-C", "/snap", "add", "-A"]),
            strs(&["-C", "/snap", "commit", "-m", "Created Snapshot"]),
        ]
    );
}

#[test]
fn save_plan_copies_system_into_snapshot() {
    let p = save(&config(&["nvim", "kitty"], "*"), "/snap", Some("/home/u")).ok().unwrap();
    assert_eq!(
        p.app_configs,
        vec![
            transfer("nvim", "/home/u/.config/nvim", "/snap/AppConfig/nvim"),
            transfer("kitty", "/home/u/.config/kitty", "/snap/AppConfig/kitty"),
        ]
    );
    assert_eq!(p.fonts, transfer("", "/home/u/.local/share/fonts/", "/snap/Fonts/"));
    assert_eq!(p.status, vec![strs(&["-C", "/snap", "status", "--porcelain"])]);
    assert_eq!(
        p.commit,
        vec![
            strs(&["-C", "/snap", "add", "-A"]),
            strs(&["-C", "/snap", "commit", "-m", "Saved Snapshot"]),
        ]
    );
}

#[test]
fn load_plan_copies_snapshot_onto_system() {
    let p = load(&config(&["nvim"], "*"), "/snap", Some("/home/u")).ok().unwrap();
    assert_eq!(p.app_configs, vec![transfer("nvim", "/snap/AppConfig/nvim", "/home/u/.config/nvim")]);
    assert_eq!(p.fonts_dir, "/snap/Fonts/");
}

#[test]
fn load_mirrors_save() {
    let c = config(&["a", "b/c", "d"], "*");
    let s = save(&c, "/snap", Some("/home/u")).ok().unwrap();
    let l = load(&c, "/snap", Some("/home/u")).ok().unwrap();
    assert_eq!(s.app_configs.len(), l.app_configs.len());
    for (x, y) in s.app_configs.iter().zip(l.app_configs.iter()) {
        assert_eq!(x.name, y.name);
        assert_eq!(x.from, y.to);
        assert_eq!(x.to, y.from);
    }
}

#[test]
fn save_and_load_refuse_other_fonts() {
    assert!(matches!(save(&config(&["a"], "Hack"), "/s", Some("/h")), Err(SnapshotError::UnsupportedFonts)));
    assert!(matches!(load(&config(&[], ""), "/s", Some("/h")), Err(SnapshotError::UnsupportedFonts)));
}

#[test]
fn save_needs_home_directory() {
    assert!(matches!(save(&config(&[], "*"), "/s", None), Err(SnapshotError::NoHomeDirectory)));
    assert!(matches!(save(&config(&[], "x"), "/s", None), Err(SnapshotError::UnsupportedFonts)));
}

#[test]
fn load_needs_home_only_for_app_configs() {
    let p = load(&config(&[], "*"), "/snap", None).ok().unwrap();
    assert!(p.app_configs.is_empty());
    assert_eq!(p.fonts_dir, "/snap/Fonts/");
    assert!(matches!(load(&config(&["a"], "*"), "/s", None), Err(SnapshotError::NoHomeDirectory)));
}

#[test]
fn fonts_step_replaces_or_creates() {
    let p = save(&config(&[], "*"), "/snap", Some("/home/u")).ok().unwrap();
    assert_eq!(
        p.fonts_step(true),
        FontSave::Replace {
            from: "/home/u/.local/share/fonts/".to_string(),
            to: "/snap/Fonts/".to_string()
        }
    );
    assert_eq!(p.fonts_step(false), FontSave::CreateEmpty { dir: "/snap/Fonts/".to_string() });
}

#[test]
fn fonts_source_only_when_present() {
    let p = load(&config(&[], "*"), "/snap", Some("/home/u")).ok().unwrap();
    assert_eq!(p.fonts_source(true), Some("/snap/Fonts/".to_string()));
    assert_eq!(p.fonts_source(false), None);
}

#[test]
fn commit_only_with_changes() {
    let c = vec![strs(&["-C", "/snap", "add", "-A"])];
    assert_eq!(commit_if_changed(c.clone(), " M a\n"), Some(c.clone()));
    assert_eq!(commit_if_changed(c, " \n"), None);
}
