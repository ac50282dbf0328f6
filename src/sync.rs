//! The sync orchestrator: the aggregate that holds the synchronised data, and the refresh
//! sequence that replaces it.
use std::collections::HashMap;

use vstd::prelude::*;

use crate::catalog::CatalogError;
use crate::champion::Champion;
use crate::freshness::Status;
use crate::plugin::Plugin;

verus! {

broadcast use vstd::std_specs::hash::group_hash_axioms;

/// Where the aggregate keeps its files; fixed at construction.
#[derive(Clone, Debug)]
pub struct Config {
    pub cache_dir: String,
    pub data_dir: String,
    pub config_dir: String,
}

/// The aggregate: the last plugin list and entity map that a refresh committed, and the
/// synchronisation state.
pub struct CDragon {
    pub config: Config,
    pub status: Status,
    pub plugins: Vec<Plugin>,
    pub champions: HashMap<u64, Champion>,
}

/// The steps of a refresh, in order.
#[derive(Clone, Copy, Debug, PartialEq, Eq, Structural)]
pub enum UpdateStage {
    FetchPlugins,
    SavePlugins,
    FetchChampions,
    SaveChampions,
    Done,
}

/// What the step that a refresh asked for came to.
pub enum UpdateEvent {
    /// The plugin list was fetched, or the fetch failed.
    PluginsFetched(Result<Vec<Plugin>, CatalogError>),
    /// The plugin list was written to the cache (`true`) or the write failed.
    PluginsSaved(bool),
    /// Every entity was fetched and joined, or the fan-out failed.
    ChampionsFetched(Result<HashMap<u64, Champion>, CatalogError>),
    /// The entity map was written to the cache (`true`) or the write failed.
    ChampionsSaved(bool),
}

/// Why a refresh was aborted, by the stage that failed.
#[derive(Clone, Copy, Debug, PartialEq, Eq, Structural)]
pub enum UpdateError {
    /// Updating the plugins failed.
    Plugins(CatalogError),
    /// Caching the updated plugins failed.
    PluginCache,
    /// Updating the champions failed.
    Champions(CatalogError),
    /// Caching the updated champions failed.
    ChampionCache,
}

/// A refresh in progress: the next step, and what has been fetched but not committed yet.
pub struct UpdateRun {
    pub stage: UpdateStage,
    pub plugins: Vec<Plugin>,
    pub champions: HashMap<u64, Champion>,
}

impl UpdateRun {
    /// A refresh that has not started: its first step fetches the plugin list.
    pub fn new() -> (r: UpdateRun)
        ensures
            r.stage == UpdateStage::FetchPlugins,
            r.plugins@.len() == 0,
            r.champions@ == Map::<u64, Champion>::empty(),
    {
        UpdateRun { stage: UpdateStage::FetchPlugins, plugins: Vec::new(), champions: HashMap::new() }
    }
}

/// The event answers the step that the refresh is at.
pub open spec fn answers_stage(stage: UpdateStage, event: UpdateEvent) -> bool {
    match event {
        UpdateEvent::PluginsFetched(_) => stage == UpdateStage::FetchPlugins,
        UpdateEvent::PluginsSaved(_) => stage == UpdateStage::SavePlugins,
        UpdateEvent::ChampionsFetched(_) => stage == UpdateStage::FetchChampions,
        UpdateEvent::ChampionsSaved(_) => stage == UpdateStage::SaveChampions,
    }
}

impl CDragon {
    /// An aggregate with nothing synchronised yet.
    pub fn new(config: Config) -> (r: CDragon)
        ensures
            r.config == config,
            r.status == Status::Uninitialized,
            r.plugins@.len() == 0,
            r.champions@ == Map::<u64, Champion>::empty(),
    {
        CDragon { config, status: Status::Uninitialized, plugins: Vec::new(), champions: HashMap::new() }
    }

    /// Advances a refresh by the outcome of its current step: fetch plugins, cache them,
    /// fetch every entity, cache them. A failure aborts the refresh with the stage that
    /// failed and leaves the aggregate as it was; only the last step commits the fetched
    /// plugins and entities and marks the data up to date.
    pub fn update(&mut self, run: UpdateRun, event: UpdateEvent) -> (r: Result<
        UpdateRun,
        UpdateError,
    >)
        requires
            answers_stage(run.stage, event),
        ensures
            final(self).config == old(self).config,
            match event {
                UpdateEvent::PluginsFetched(Ok(p)) => r matches Ok(next) && next.stage
                    == UpdateStage::SavePlugins && next.plugins@ == p@ && next.champions@
                    == run.champions@ && *final(self) == *old(self),
                UpdateEvent::PluginsFetched(Err(e)) => r == Err::<UpdateRun, UpdateError>(
                    UpdateError::Plugins(e),
                ) && *final(self) == *old(self),
                UpdateEvent::PluginsSaved(true) => r matches Ok(next) && next.stage
                    == UpdateStage::FetchChampions && next.plugins@ == run.plugins@
                    && next.champions@ == run.champions@ && *final(self) == *old(self),
                UpdateEvent::PluginsSaved(false) => r == Err::<UpdateRun, UpdateError>(
                    UpdateError::PluginCache,
                ) && *final(self) == *old(self),
                UpdateEvent::ChampionsFetched(Ok(m)) => r matches Ok(next) && next.stage
                    == UpdateStage::SaveChampions && next.plugins@ == run.plugins@
                    && next.champions@ == m@ && *final(self) == *old(self),
                UpdateEvent::ChampionsFetched(Err(e)) => r == Err::<UpdateRun, UpdateError>(
                    UpdateError::Champions(e),
                ) && *final(self) == *old(self),
                UpdateEvent::ChampionsSaved(true) => r matches Ok(next) && next.stage
                    == UpdateStage::Done && final(self).plugins@ == run.plugins@
                    && final(self).champions@ == run.champions@ && final(self).status
                    == Status::UpToDate,
                UpdateEvent::ChampionsSaved(false) => r == Err::<UpdateRun, UpdateError>(
                    UpdateError::ChampionCache,
                ) && *final(self) == *old(self),
            },
    {
        match event {
            UpdateEvent::PluginsFetched(Ok(plugins)) => Ok(
                UpdateRun { stage: UpdateStage::SavePlugins, plugins, champions: run.champions },
            ),
            UpdateEvent::PluginsFetched(Err(e)) => Err(UpdateError::Plugins(e)),
            UpdateEvent::PluginsSaved(true) => Ok(
                UpdateRun {
                    stage: UpdateStage::FetchChampions,
                    plugins: run.plugins,
                    champions: run.champions,
                },
            ),
            UpdateEvent::PluginsSaved(false) => Err(UpdateError::PluginCache),
            UpdateEvent::ChampionsFetched(Ok(champions)) => Ok(
                UpdateRun { stage: UpdateStage::SaveChampions, plugins: run.plugins, champions },
            ),
            UpdateEvent::ChampionsFetched(Err(e)) => Err(UpdateError::Champions(e)),
            UpdateEvent::ChampionsSaved(true) => {
                self.plugins = run.plugins;
                self.champions = run.champions;
                self.status = Status::UpToDate;
                Ok(
                    UpdateRun {
                        stage: UpdateStage::Done,
                        plugins: Vec::new(),
                        champions: HashMap::new(),
                    },
                )
            },
            UpdateEvent::ChampionsSaved(false) => Err(UpdateError::ChampionCache),
        }
    }
}

} // verus!
