//! The snapshot's configuration: which application configurations to save, which
//! fonts, and which packages.
//!
//! On disk it is the JSON object `{"AppConfig": [..], "Font": "..", "Package": [..]}`
//! stored in `SnapshotConfig.json` at the root of the snapshot.

use vstd::prelude::*;

use crate::text::str_eq;

verus! {

/// The font selection that means "every font"; it is the only one supported.
pub open spec fn all_fonts() -> Seq<char> {
    "*"@
}

/// The contents of `SnapshotConfig.json`.
#[derive(Debug, Clone, PartialEq, Eq)]
pub struct Config {
    /// Names of directories or files under `~/.config` to keep in the snapshot.
    pub app_config: Vec<String>,
    /// Which fonts to keep; only `*` (all of them) is supported.
    pub font: String,
    /// Packages that belong to the system.
    pub package: Vec<String>,
}

impl Default for Config {
    /// No application configurations, every font, no packages.
    fn default() -> (c: Self)
        ensures
            c.app_config@.len() == 0,
            c.font@ == all_fonts(),
            c.package@.len() == 0,
    {
        Config { app_config: Vec::new(), font: String::from_str("*"), package: Vec::new() }
    }
}

impl Config {
    /// Whether the font selection is one that saving and loading support.
    pub fn fonts_supported(&self) -> (b: bool)
        ensures
            b == (self.font@ == all_fonts()),
    {
        str_eq(self.font.as_str(), "*")
    }
}

} // verus!
