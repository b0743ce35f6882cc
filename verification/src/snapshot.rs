//! The decisions behind `mksnap`, `save` and `load`: where the snapshot is, what
//! is copied from where to where, and which git commands record it.

use vstd::prelude::*;

use crate::config::{all_fonts, Config};
use crate::gitutils::{commit, has_changes, in_repo, init, plan_views, status};
use crate::paths::{join, spec_join};
use crate::ss::{
    appconfig_ss_path, appconfig_sys_path, config_path, font_ss_path, font_sys_path,
    spec_appconfig_ss_path, spec_appconfig_sys_path, spec_config_path, spec_font_ss_path,
    spec_font_sys_path,
};
use crate::text::{is_blank, views};

verus! {

/// Why a snapshot operation cannot go ahead.
#[derive(Debug, Clone, Copy, PartialEq, Eq)]
pub enum SnapshotError {
    /// No snapshot path was given and the home directory is unknown.
    NoHomeDirectory,
    /// The configuration selects fonts other than `*`.
    UnsupportedFonts,
}

impl SnapshotError {
    /// The message reported for this error.
    pub fn message(&self) -> (m: String)
        ensures
            m@ == spec_error_message(*self),
    {
        match self {
            SnapshotError::NoHomeDirectory => String::from_str("failed to determine home directory"),
            SnapshotError::UnsupportedFonts => String::from_str(
                "anything other than * is not currently supported for fonts",
            ),
        }
    }
}

pub open spec fn spec_error_message(e: SnapshotError) -> Seq<char> {
    match e {
        SnapshotError::NoHomeDirectory => "failed to determine home directory"@,
        SnapshotError::UnsupportedFonts => "anything other than * is not currently supported for fonts"@,
    }
}

/// One copy: the object `name`, from `from` to `to`.
#[derive(Debug, Clone, PartialEq, Eq)]
pub struct Transfer {
    pub name: String,
    pub from: String,
    pub to: String,
}

pub open spec fn transfer_view(t: Transfer) -> (Seq<char>, Seq<char>, Seq<char>) {
    (t.name@, t.from@, t.to@)
}

pub open spec fn transfer_views(ts: Seq<Transfer>) -> Seq<(Seq<char>, Seq<char>, Seq<char>)> {
    ts.map_values(|t: Transfer| transfer_view(t))
}

/// The commit message of a new snapshot.
pub open spec fn created_message() -> Seq<char> {
    "Created Snapshot"@
}

/// The commit message of a saved snapshot.
pub open spec fn saved_message() -> Seq<char> {
    "Saved Snapshot"@
}

/// The snapshot directory used when none is given: `home/.config/syscfg`.
pub open spec fn spec_default_snapshot_path(home: Seq<char>) -> Seq<char> {
    spec_join(spec_join(home, ".config"@), "syscfg"@)
}

/// The snapshot directory: the one given, or the default one under `home`.
pub open spec fn spec_snapshot_path(path: Option<Seq<char>>, home: Option<Seq<char>>) -> Result<
    Seq<char>,
    SnapshotError,
> {
    match path {
        Some(p) => Ok(p),
        None => match home {
            Some(h) => Ok(spec_default_snapshot_path(h)),
            None => Err(SnapshotError::NoHomeDirectory),
        },
    }
}

pub open spec fn opt_view(o: Option<String>) -> Option<Seq<char>> {
    match o {
        Some(s) => Some(s@),
        None => None,
    }
}

/// The snapshot directory for the path the user gave, if any, and the home
/// directory, if it is known.
pub fn snapshot_path(path: Option<String>, home: Option<String>) -> (r: Result<String, SnapshotError>)
    ensures
        match (r, spec_snapshot_path(opt_view(path), opt_view(home))) {
            (Ok(p), Ok(q)) => p@ == q,
            (Err(e), Err(f)) => e == f,
            _ => false,
        },
{
    match path {
        Some(p) => Ok(p),
        None => match home {
            Some(h) => {
                let config_dir = join(h.as_str(), ".config");
                Ok(join(config_dir.as_str(), "syscfg"))
            },
            None => Err(SnapshotError::NoHomeDirectory),
        },
    }
}

/// What `mksnap` does once the snapshot directory exists: make it a repository,
/// write the default configuration to `config_path`, then commit.
pub struct MkSnapPlan {
    pub init: Vec<Vec<String>>,
    pub config_path: String,
    pub commit: Vec<Vec<String>>,
}

/// The plan of `mksnap` for the snapshot directory `ss_path`.
pub fn mksnap(ss_path: &str) -> (p: MkSnapPlan)
    ensures
        plan_views(p.init@) == seq![seq!["init"@, ss_path@]],
        p.config_path@ == spec_config_path(ss_path@),
        plan_views(p.commit@) == seq![
            in_repo(ss_path@, seq!["add"@, "-A"@]),
            in_repo(ss_path@, seq!["commit"@, "-m"@, created_message()]),
        ],
{
    MkSnapPlan {
        init: init(ss_path),
        config_path: config_path(ss_path),
        commit: commit(ss_path, "Created Snapshot"),
    }
}

/// The copies that save the configurations of `names`: each from the system
/// into the snapshot.
pub open spec fn spec_save_transfers(names: Seq<Seq<char>>, ss_path: Seq<char>, home: Seq<char>) -> Seq<
    (Seq<char>, Seq<char>, Seq<char>),
> {
    Seq::new(
        names.len(),
        |i: int|
            (names[i], spec_appconfig_sys_path(home, names[i]), spec_appconfig_ss_path(ss_path, names[i])),
    )
}

/// The copies that load the configurations of `names`: each from the snapshot
/// onto the system.
pub open spec fn spec_load_transfers(names: Seq<Seq<char>>, ss_path: Seq<char>, home: Seq<char>) -> Seq<
    (Seq<char>, Seq<char>, Seq<char>),
> {
    Seq::new(
        names.len(),
        |i: int|
            (names[i], spec_appconfig_ss_path(ss_path, names[i]), spec_appconfig_sys_path(home, names[i])),
    )
}

/// What `save` does: replace each configuration in the snapshot by the one on
/// the system, then the fonts directory likewise (or create an empty one in the
/// snapshot if the system has none), then, if `status` shows changes, commit.
pub struct SavePlan {
    pub app_configs: Vec<Transfer>,
    pub fonts: Transfer,
    pub status: Vec<Vec<String>>,
    pub commit: Vec<Vec<String>>,
}

/// What `load` does: copy each configuration from the snapshot onto the system,
/// then each entry of `fonts_dir`, if it exists, into the system's fonts.
pub struct LoadPlan {
    pub app_configs: Vec<Transfer>,
    pub fonts_dir: String,
}

/// The copies of the application configurations, in either direction.
fn app_transfers(config: &Config, ss_path: &str, home: &str, saving: bool) -> (ts: Vec<Transfer>)
    ensures
        saving ==> transfer_views(ts@) == spec_save_transfers(views(config.app_config@), ss_path@, home@),
        !saving ==> transfer_views(ts@) == spec_load_transfers(views(config.app_config@), ss_path@, home@),
{
    let ghost names = views(config.app_config@);
    let mut ts: Vec<Transfer> = Vec::new();
    let mut i: usize = 0;
    while i < config.app_config.len()
        invariant
            names == views(config.app_config@),
            i <= config.app_config@.len(),
            saving ==> transfer_views(ts@) == spec_save_transfers(names, ss_path@, home@).take(i as int),
            !saving ==> transfer_views(ts@) == spec_load_transfers(names, ss_path@, home@).take(i as int),
        decreases config.app_config@.len() - i,
    {
        let name = config.app_config[i].as_str();
        let sys = appconfig_sys_path(home, name);
        let snap = appconfig_ss_path(ss_path, name);
        let t = if saving {
            Transfer { name: String::from_str(name), from: sys, to: snap }
        } else {
            Transfer { name: String::from_str(name), from: snap, to: sys }
        };
        let ghost before = ts@;
        ts.push(t);
        proof {
            assert(transfer_views(ts@) =~= transfer_views(before).push(transfer_view(t)));
            if saving {
                assert(spec_save_transfers(names, ss_path@, home@).take(i + 1) =~= spec_save_transfers(
                    names,
                    ss_path@,
                    home@,
                ).take(i as int).push(transfer_view(t)));
            } else {
                assert(spec_load_transfers(names, ss_path@, home@).take(i + 1) =~= spec_load_transfers(
                    names,
                    ss_path@,
                    home@,
                ).take(i as int).push(transfer_view(t)));
            }
        }
        i = i + 1;
    }
    proof {
        assert(spec_save_transfers(names, ss_path@, home@).take(names.len() as int) =~= spec_save_transfers(
            names,
            ss_path@,
            home@,
        ));
        assert(spec_load_transfers(names, ss_path@, home@).take(names.len() as int) =~= spec_load_transfers(
            names,
            ss_path@,
            home@,
        ));
    }
    ts
}

/// The plan of `save` for the configuration `config` read from the snapshot at
/// `ss_path`, with home directory `home` if it is known. It is refused unless
/// the configuration selects every font, and it needs the home directory, since
/// the fonts are always saved from there.
pub fn save(config: &Config, ss_path: &str, home: Option<&str>) -> (r: Result<SavePlan, SnapshotError>)
    ensures
        r is Ok <==> config.font@ == all_fonts() && home is Some,
        config.font@ != all_fonts() ==> r == Err::<SavePlan, SnapshotError>(
            SnapshotError::UnsupportedFonts,
        ),
        config.font@ == all_fonts() && home is None ==> r == Err::<SavePlan, SnapshotError>(
            SnapshotError::NoHomeDirectory,
        ),
        r matches Ok(p) ==> (home matches Some(h) && {
            &&& transfer_views(p.app_configs@) == spec_save_transfers(
                views(config.app_config@),
                ss_path@,
                h@,
            )
            &&& transfer_view(p.fonts) == (
                Seq::<char>::empty(),
                spec_font_sys_path(h@, Seq::empty()),
                spec_font_ss_path(ss_path@, Seq::empty()),
            )
            &&& plan_views(p.status@) == seq![in_repo(ss_path@, seq!["status"@, "--porcelain"@])]
            &&& plan_views(p.commit@) == seq![
                in_repo(ss_path@, seq!["add"@, "-A"@]),
                in_repo(ss_path@, seq!["commit"@, "-m"@, saved_message()]),
            ]
        }),
{
    if !config.fonts_supported() {
        return Err(SnapshotError::UnsupportedFonts);
    }
    let home = match home {
        Some(h) => h,
        None => {
            return Err(SnapshotError::NoHomeDirectory);
        },
    };
    let fonts = Transfer {
        name: String::new(),
        from: font_sys_path(home, ""),
        to: font_ss_path(ss_path, ""),
    };
    proof {
        reveal_strlit("");
        assert(""@ =~= Seq::<char>::empty());
    }
    Ok(
        SavePlan {
            app_configs: app_transfers(config, ss_path, home, true),
            fonts,
            status: status(ss_path),
            commit: commit(ss_path, "Saved Snapshot"),
        },
    )
}

/// What to do with the fonts when saving.
#[derive(Debug, Clone, PartialEq, Eq)]
pub enum FontSave {
    /// Replace the snapshot's fonts directory `to` by the system's `from`.
    Replace { from: String, to: String },
    /// The system has no fonts directory: create an empty `dir` in the snapshot.
    CreateEmpty { dir: String },
}

impl SavePlan {
    /// The fonts step of the save, given whether the system's fonts directory
    /// exists.
    pub fn fonts_step(&self, system_fonts_exist: bool) -> (r: FontSave)
        ensures
            system_fonts_exist ==> (r matches FontSave::Replace { from, to } && from@
                == self.fonts.from@ && to@ == self.fonts.to@),
            !system_fonts_exist ==> (r matches FontSave::CreateEmpty { dir } && dir@
                == self.fonts.to@),
    {
        if system_fonts_exist {
            FontSave::Replace { from: self.fonts.from.clone(), to: self.fonts.to.clone() }
        } else {
            FontSave::CreateEmpty { dir: self.fonts.to.clone() }
        }
    }
}

/// The commit that ends a save, given what the `status` commands printed: the
/// save's commit when the output shows changes, none when it is blank.
pub fn commit_if_changed(commit: Vec<Vec<String>>, status_output: &str) -> (r: Option<
    Vec<Vec<String>>,
>)
    ensures
        r == if !is_blank(status_output@) {
            Some(commit)
        } else {
            None
        },
{
    if has_changes(status_output) {
        Some(commit)
    } else {
        None
    }
}

/// The plan of `load` for the configuration `config` read from the snapshot at
/// `ss_path`, with home directory `home` if it is known. It is refused unless
/// the configuration selects every font, and it needs the home directory when
/// there are application configurations to put there.
pub fn load(config: &Config, ss_path: &str, home: Option<&str>) -> (r: Result<LoadPlan, SnapshotError>)
    ensures
        r is Ok <==> config.font@ == all_fonts() && (home is Some || config.app_config@.len() == 0),
        config.font@ != all_fonts() ==> r == Err::<LoadPlan, SnapshotError>(
            SnapshotError::UnsupportedFonts,
        ),
        config.font@ == all_fonts() && home is None && config.app_config@.len() > 0 ==> r == Err::<
            LoadPlan,
            SnapshotError,
        >(SnapshotError::NoHomeDirectory),
        r matches Ok(p) ==> {
            &&& home matches Some(h) ==> transfer_views(p.app_configs@) == spec_load_transfers(
                views(config.app_config@),
                ss_path@,
                h@,
            )
            &&& home is None ==> p.app_configs@.len() == 0
            &&& p.fonts_dir@ == spec_font_ss_path(ss_path@, Seq::empty())
        },
{
    if !config.fonts_supported() {
        return Err(SnapshotError::UnsupportedFonts);
    }
    let app_configs = match home {
        Some(h) => app_transfers(config, ss_path, h, false),
        None => {
            if config.app_config.len() > 0 {
                return Err(SnapshotError::NoHomeDirectory);
            }
            Vec::new()
        },
    };
    let fonts_dir = font_ss_path(ss_path, "");
    proof {
        reveal_strlit("");
        assert(""@ =~= Seq::<char>::empty());
    }
    Ok(LoadPlan { app_configs, fonts_dir })
}

impl LoadPlan {
    /// The directory whose entries are loaded as fonts, given whether the
    /// snapshot's fonts directory exists; none when it does not.
    pub fn fonts_source(&self, snapshot_fonts_exist: bool) -> (r: Option<String>)
        ensures
            snapshot_fonts_exist ==> (r matches Some(d) && d@ == self.fonts_dir@),
            !snapshot_fonts_exist ==> r is None,
    {
        if snapshot_fonts_exist {
            Some(self.fonts_dir.clone())
        } else {
            None
        }
    }
}

/// Loading puts every configuration back where saving took it from: the copies
/// of `load` are those of `save` with source and destination exchanged.
pub proof fn lemma_load_mirrors_save(names: Seq<Seq<char>>, ss_path: Seq<char>, home: Seq<char>)
    ensures
        spec_load_transfers(names, ss_path, home).len() == spec_save_transfers(names, ss_path, home).len(),
        forall|i: int|
            0 <= i < names.len() ==> {
                let s = #[trigger] spec_save_transfers(names, ss_path, home)[i];
                spec_load_transfers(names, ss_path, home)[i] == (s.0, s.2, s.1)
            },
{
}

/// Saving copies, for every listed name and in the listed order, from
/// `home/.config/name` on the system to `ss_path/AppConfig/name` in the
/// snapshot; loading copies the same pairs the other way.
pub proof fn lemma_transfer_directions(names: Seq<Seq<char>>, ss_path: Seq<char>, home: Seq<char>)
    ensures
        spec_save_transfers(names, ss_path, home).len() == names.len(),
        spec_load_transfers(names, ss_path, home).len() == names.len(),
        forall|i: int|
            0 <= i < names.len() ==> #[trigger] spec_save_transfers(names, ss_path, home)[i] == (
                names[i],
                spec_join(spec_join(home, ".config"@), names[i]),
                spec_join(spec_join(ss_path, "AppConfig"@), names[i]),
            ),
        forall|i: int|
            0 <= i < names.len() ==> #[trigger] spec_load_transfers(names, ss_path, home)[i] == (
                names[i],
                spec_join(spec_join(ss_path, "AppConfig"@), names[i]),
                spec_join(spec_join(home, ".config"@), names[i]),
            ),
{
}

/// A given snapshot path is used as it is, whatever the home directory; without
/// one the snapshot is `home/.config/syscfg`; with neither there is none.
pub proof fn lemma_snapshot_path_choice(path: Seq<char>, home: Option<Seq<char>>, h: Seq<char>)
    ensures
        spec_snapshot_path(Some(path), home) == Ok::<Seq<char>, SnapshotError>(path),
        spec_snapshot_path(None, Some(h)) == Ok::<Seq<char>, SnapshotError>(
            spec_join(spec_join(h, ".config"@), "syscfg"@),
        ),
        spec_snapshot_path(None, None) == Err::<Seq<char>, SnapshotError>(
            SnapshotError::NoHomeDirectory,
        ),
{
}

} // verus!
