//! What the launcher keeps while it runs.

use crate::config::launcher::LauncherConfig;
use crate::config::profiles::Profiles;
use crate::path::LocalPath;
use crate::task_registry::TaskRegistry;
use crate::update_cache::UpdateCache;
use vstd::prelude::*;

verus! {

/// The state that the launcher's commands work on: one value, owned by the
/// application and handed to each command.
pub struct AppStateData {
    /// The application's own directory for data.
    pub local_data_dir: LocalPath,
    pub config: LauncherConfig,
    pub profiles: Profiles,
    /// What servers were found to publish, until an update makes use of it.
    pub update_cache: UpdateCache,
    /// The pipelines that are under way.
    pub ongoing_tasks: TaskRegistry,
}

impl AppStateData {
    /// The state is well formed when its cache is.
    pub open spec fn wf(&self) -> bool {
        self.update_cache.wf()
    }

    /// The state at the start: the settings and profiles as they were
    /// loaded, nothing cached and no pipeline under way.
    pub fn new(local_data_dir: LocalPath, config: LauncherConfig, profiles: Profiles) -> (r:
        AppStateData)
        ensures
            r.wf(),
            r.local_data_dir == local_data_dir,
            r.config == config,
            r.profiles == profiles,
            r.update_cache@ == Map::<Seq<char>, crate::check_game::VersionsInfoView>::empty(),
            r.ongoing_tasks@ == Map::<u32, tokio_util::sync::CancellationToken>::empty(),
    {
        AppStateData {
            local_data_dir,
            config,
            profiles,
            update_cache: UpdateCache::new(),
            ongoing_tasks: TaskRegistry::new(),
        }
    }

    /// Where the launcher's settings are stored.
    pub fn config_path(&self) -> (r: LocalPath)
        ensures
            r@ == self.local_data_dir@.join(crate::config::launcher::LAUNCHER_CONFIG_FILENAME@),
    {
        LauncherConfig::get_path(&self.local_data_dir)
    }

    /// Where the profiles are stored.
    pub fn profiles_path(&self) -> (r: LocalPath)
        ensures
            r@ == self.local_data_dir@.join(crate::config::profiles::PROFILES_CONFIG_FILENAME@),
    {
        Profiles::get_path(&self.local_data_dir)
    }
}

} // verus!
