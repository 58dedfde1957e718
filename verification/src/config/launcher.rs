//! The launcher's own settings.

use crate::path::{LocalPath, PathView};
use vstd::prelude::*;

verus! {

/// Settings of the launcher itself, apart from any profile.
#[derive(Debug)]
pub struct LauncherConfig {
    pub install_dir: Option<LocalPath>,
}

impl View for LauncherConfig {
    type V = Option<PathView>;

    open spec fn view(&self) -> Option<PathView> {
        self.install_dir.deep_view()
    }
}

impl Default for LauncherConfig {
    fn default() -> (r: Self)
        ensures
            r@ is None,
    {
        LauncherConfig { install_dir: None }
    }
}

impl Clone for LauncherConfig {
    fn clone(&self) -> (r: Self)
        ensures
            r@ == self@,
    {
        LauncherConfig {
            install_dir: match &self.install_dir {
                Some(p) => Some(p.clone()),
                None => None,
            },
        }
    }
}

/// The name of the file that holds the launcher's settings.
pub const LAUNCHER_CONFIG_FILENAME: &'static str = "config.json";

impl LauncherConfig {
    /// Where the settings are stored below the application's data directory.
    pub fn get_path(dir: &LocalPath) -> (r: LocalPath)
        ensures
            r@ == dir@.join(LAUNCHER_CONFIG_FILENAME@),
    {
        dir.join(LAUNCHER_CONFIG_FILENAME)
    }
}

} // verus!
