//! Where each saved object lives: on the system (`*_sys_path`, under the home
//! directory) and in the snapshot (`*_ss_path`, under the snapshot directory).

use vstd::prelude::*;

use crate::paths::{dir_prefix, is_absolute, join, lemma_join_relative, spec_join};

verus! {

/// `home/.config/name`: where an application keeps its configuration.
pub open spec fn spec_appconfig_sys_path(home: Seq<char>, name: Seq<char>) -> Seq<char> {
    spec_join(spec_join(home, ".config"@), name)
}

/// `ss_path/AppConfig/name`: where the snapshot keeps an application's configuration.
pub open spec fn spec_appconfig_ss_path(ss_path: Seq<char>, name: Seq<char>) -> Seq<char> {
    spec_join(spec_join(ss_path, "AppConfig"@), name)
}

/// `home/.local/share/fonts/name`: where the user's fonts live.
pub open spec fn spec_font_sys_path(home: Seq<char>, name: Seq<char>) -> Seq<char> {
    spec_join(spec_join(spec_join(spec_join(home, ".local"@), "share"@), "fonts"@), name)
}

/// `ss_path/Fonts/name`: where the snapshot keeps the fonts.
pub open spec fn spec_font_ss_path(ss_path: Seq<char>, name: Seq<char>) -> Seq<char> {
    spec_join(spec_join(ss_path, "Fonts"@), name)
}

/// `ss_path/SnapshotConfig.json`: the snapshot's configuration file.
pub open spec fn spec_config_path(ss_path: Seq<char>) -> Seq<char> {
    spec_join(ss_path, "SnapshotConfig.json"@)
}

/// The system location of the configuration of application `name`, for the
/// home directory `home`.
pub fn appconfig_sys_path(home: &str, name: &str) -> (r: String)
    ensures
        r@ == spec_appconfig_sys_path(home@, name@),
{
    let config_dir = join(home, ".config");
    join(config_dir.as_str(), name)
}

/// The snapshot location of the configuration of application `name`.
pub fn appconfig_ss_path(ss_path: &str, name: &str) -> (r: String)
    ensures
        r@ == spec_appconfig_ss_path(ss_path@, name@),
{
    let dir = join(ss_path, "AppConfig");
    join(dir.as_str(), name)
}

/// The system location of font `name` (the fonts directory itself for an
/// empty name), for the home directory `home`.
pub fn font_sys_path(home: &str, name: &str) -> (r: String)
    ensures
        r@ == spec_font_sys_path(home@, name@),
{
    let local = join(home, ".local");
    let share = join(local.as_str(), "share");
    let fonts = join(share.as_str(), "fonts");
    join(fonts.as_str(), name)
}

/// The snapshot location of font `name` (the snapshot's fonts directory for an
/// empty name).
pub fn font_ss_path(ss_path: &str, name: &str) -> (r: String)
    ensures
        r@ == spec_font_ss_path(ss_path@, name@),
{
    let dir = join(ss_path, "Fonts");
    join(dir.as_str(), name)
}

/// The location of the snapshot's configuration file.
pub fn config_path(ss_path: &str) -> (r: String)
    ensures
        r@ == spec_config_path(ss_path@),
{
    join(ss_path, "SnapshotConfig.json")
}

/// As text, the path that the snapshot or the system gives a relative name
/// starts with the root (the snapshot or home directory) and its separator.
/// This is a statement about the text only: a name with `..` components still
/// starts with the root as text but can lead outside it on disk.
pub proof fn lemma_paths_stay_inside(root: Seq<char>, name: Seq<char>)
    requires
        !is_absolute(name),
    ensures
        dir_prefix(root).is_prefix_of(spec_appconfig_ss_path(root, name)),
        dir_prefix(root).is_prefix_of(spec_font_ss_path(root, name)),
        dir_prefix(root).is_prefix_of(spec_config_path(root)),
        dir_prefix(root).is_prefix_of(spec_appconfig_sys_path(root, name)),
        dir_prefix(root).is_prefix_of(spec_font_sys_path(root, name)),
{
    reveal_strlit("AppConfig");
    reveal_strlit("Fonts");
    reveal_strlit("SnapshotConfig.json");
    reveal_strlit(".config");
    reveal_strlit(".local");
    reveal_strlit("share");
    reveal_strlit("fonts");
    lemma_prefix_through(root, "AppConfig"@, name);
    lemma_prefix_through(root, "Fonts"@, name);
    lemma_join_relative(root, "SnapshotConfig.json"@);
    lemma_prefix_through(root, ".config"@, name);
    let local = spec_join(root, ".local"@);
    let share = spec_join(local, "share"@);
    let fonts = spec_join(share, "fonts"@);
    lemma_join_relative(root, ".local"@);
    lemma_join_relative(local, "share"@);
    lemma_join_relative(share, "fonts"@);
    lemma_join_relative(fonts, name);
    lemma_prefix_trans(dir_prefix(root), local, share);
    lemma_prefix_trans(dir_prefix(root), share, fonts);
    lemma_prefix_trans(dir_prefix(root), fonts, spec_join(fonts, name));
}

/// In the snapshot, the path text of an application's configuration and that
/// of a font always differ, whatever their (relative) names. As with any text,
/// `..` components can still make two different paths lead to one place.
pub proof fn lemma_appconfig_font_ss_disjoint(ss_path: Seq<char>, app: Seq<char>, font: Seq<char>)
    requires
        !is_absolute(app),
        !is_absolute(font),
    ensures
        spec_appconfig_ss_path(ss_path, app) != spec_font_ss_path(ss_path, font),
{
    reveal_strlit("AppConfig");
    reveal_strlit("Fonts");
    let p = dir_prefix(ss_path);
    let a = spec_appconfig_ss_path(ss_path, app);
    let f = spec_font_ss_path(ss_path, font);
    lemma_prefix_through(ss_path, "AppConfig"@, app);
    lemma_prefix_through(ss_path, "Fonts"@, font);
    assert(a[p.len() as int] == 'A');
    assert(f[p.len() as int] == 'F');
}

/// On the system, the path text of an application's configuration and that of a
/// font always differ, whatever their (relative) names. As with any text, `..`
/// components can still make two different paths lead to one place.
pub proof fn lemma_appconfig_font_sys_disjoint(home: Seq<char>, app: Seq<char>, font: Seq<char>)
    requires
        !is_absolute(app),
        !is_absolute(font),
    ensures
        spec_appconfig_sys_path(home, app) != spec_font_sys_path(home, font),
{
    reveal_strlit(".config");
    reveal_strlit(".local");
    reveal_strlit("share");
    reveal_strlit("fonts");
    let p = dir_prefix(home);
    let a = spec_appconfig_sys_path(home, app);
    let f = spec_font_sys_path(home, font);
    lemma_prefix_through(home, ".config"@, app);
    let local = spec_join(home, ".local"@);
    let share = spec_join(local, "share"@);
    let fonts = spec_join(share, "fonts"@);
    lemma_join_relative(home, ".local"@);
    lemma_join_relative(local, "share"@);
    lemma_join_relative(share, "fonts"@);
    lemma_join_relative(fonts, font);
    lemma_prefix_trans(local, share, fonts);
    lemma_prefix_trans(local, fonts, f);
    assert(local[p.len() + 1int] == 'l');
    assert(a[p.len() + 1int] == 'c');
    assert(f[p.len() + 1int] == 'l');
}

/// `root/dir/name` starts with `root/dir`, which starts with the root and its
/// separator followed by `dir`.
proof fn lemma_prefix_through(root: Seq<char>, dir: Seq<char>, name: Seq<char>)
    requires
        !is_absolute(dir),
        !is_absolute(name),
    ensures
        (dir_prefix(root) + dir).is_prefix_of(spec_join(spec_join(root, dir), name)),
        dir_prefix(root).is_prefix_of(spec_join(spec_join(root, dir), name)),
{
    lemma_join_relative(root, dir);
    lemma_join_relative(spec_join(root, dir), name);
    assert(dir_prefix(root).is_prefix_of(dir_prefix(root) + dir));
    lemma_prefix_trans(dir_prefix(root), dir_prefix(root) + dir, spec_join(spec_join(root, dir), name));
}

/// Being a prefix is transitive.
proof fn lemma_prefix_trans(a: Seq<char>, b: Seq<char>, c: Seq<char>)
    requires
        a.is_prefix_of(b),
        b.is_prefix_of(c),
    ensures
        a.is_prefix_of(c),
{
    assert(a.len() <= c.len());
    assert forall|i: int| 0 <= i < a.len() implies a[i] == c[i] by {
        assert(a[i] == b[i]);
    }
    assert(c.subrange(0, a.len() as int) =~= a);
}

/// `root/dir/name`, for a relative directory `dir` without a trailing `/` and a
/// relative `name`, is the root and its separator, `dir`, `/` and the name.
proof fn lemma_join_dir(root: Seq<char>, dir: Seq<char>, name: Seq<char>)
    requires
        dir.len() > 0,
        dir[0] != '/',
        dir.last() != '/',
        !is_absolute(name),
    ensures
        spec_join(spec_join(root, dir), name) == dir_prefix(root) + dir + seq!['/'] + name,
{
    lemma_join_relative(root, dir);
    let d = spec_join(root, dir);
    assert(d.last() == dir.last());
    lemma_join_relative(d, name);
    assert(spec_join(d, name) =~= dir_prefix(root) + dir + seq!['/'] + name);
}

/// As text, the system location of the configuration of a relatively named
/// application `n` is the home directory and its separator, then `.config/`,
/// then `n`.
pub proof fn lemma_appconfig_sys_layout(home: Seq<char>, n: Seq<char>)
    requires
        !is_absolute(n),
    ensures
        spec_appconfig_sys_path(home, n) == dir_prefix(home) + ".config/"@ + n,
{
    reveal_strlit(".config");
    reveal_strlit(".config/");
    lemma_join_dir(home, ".config"@, n);
    assert(".config"@ + seq!['/'] =~= ".config/"@);
    assert(dir_prefix(home) + ".config"@ + seq!['/'] + n =~= dir_prefix(home) + ".config/"@ + n);
}

/// As text, the snapshot location of the configuration of a relatively named
/// application `n` is the snapshot directory and its separator, then
/// `AppConfig/`, then `n`.
pub proof fn lemma_appconfig_ss_layout(ss_path: Seq<char>, n: Seq<char>)
    requires
        !is_absolute(n),
    ensures
        spec_appconfig_ss_path(ss_path, n) == dir_prefix(ss_path) + "AppConfig/"@ + n,
{
    reveal_strlit("AppConfig");
    reveal_strlit("AppConfig/");
    lemma_join_dir(ss_path, "AppConfig"@, n);
    assert(dir_prefix(ss_path) + "AppConfig"@ + seq!['/'] + n =~= dir_prefix(ss_path)
        + "AppConfig/"@ + n);
}

/// As text, the snapshot location of a relatively named font `n` is the
/// snapshot directory and its separator, then `Fonts/`, then `n`.
pub proof fn lemma_font_ss_layout(ss_path: Seq<char>, n: Seq<char>)
    requires
        !is_absolute(n),
    ensures
        spec_font_ss_path(ss_path, n) == dir_prefix(ss_path) + "Fonts/"@ + n,
{
    reveal_strlit("Fonts");
    reveal_strlit("Fonts/");
    lemma_join_dir(ss_path, "Fonts"@, n);
    assert(dir_prefix(ss_path) + "Fonts"@ + seq!['/'] + n =~= dir_prefix(ss_path) + "Fonts/"@
        + n);
}

/// As text, the system location of a relatively named font `n` is the home
/// directory and its separator, then `.local/share/fonts/`, then `n`.
pub proof fn lemma_font_sys_layout(home: Seq<char>, n: Seq<char>)
    requires
        !is_absolute(n),
    ensures
        spec_font_sys_path(home, n) == dir_prefix(home) + ".local/share/fonts/"@ + n,
{
    reveal_strlit(".local");
    reveal_strlit("share");
    reveal_strlit("fonts");
    reveal_strlit(".local/share/fonts/");
    let local = spec_join(home, ".local"@);
    lemma_join_dir(home, ".local"@, "share"@);
    let share = spec_join(local, "share"@);
    assert(share.last() == 'e');
    lemma_join_dir(local, "share"@, "fonts"@);
    lemma_join_dir(share, "fonts"@, n);
    assert(dir_prefix(local) == local + seq!['/']);
    assert(dir_prefix(share) == share + seq!['/']);
    assert(spec_font_sys_path(home, n) =~= dir_prefix(home) + ".local/share/fonts/"@ + n);
}

/// As text, the snapshot's configuration file is the snapshot directory and its
/// separator, then `SnapshotConfig.json`.
pub proof fn lemma_config_path_layout(ss_path: Seq<char>)
    ensures
        spec_config_path(ss_path) == dir_prefix(ss_path) + "SnapshotConfig.json"@,
{
    reveal_strlit("SnapshotConfig.json");
    lemma_join_relative(ss_path, "SnapshotConfig.json"@);
}

} // verus!
