//! The catalog's plugins: named data bundles with a modification time.
use vstd::prelude::*;

use crate::catalog::{CatalogError, ErrorKind};
use crate::mtime_format::{deserialize, formatted_utc, parsed_utc_seconds, Timestamp, MTIME_FORMAT};

verus! {

/// The known plugin names, with `PluginManifest` standing for every name that is not known.
#[derive(Clone, Copy, Debug, PartialEq, Eq, Structural)]
pub enum PluginName {
    Unnamed,
    RcpBeLolGameData,
    RcpBeLolLicenseAgreement,
    RcpBeSanitizer,
    RcpFeAudio,
    RcpFeCommonLibs,
    RcpFeEmberLibs,
    RcpFeLolCareerStats,
    RcpFeLolChampSelect,
    RcpFeLolChampionDetails,
    RcpFeLolChampionStatistics,
    RcpFeLolClash,
    RcpFeLolCollections,
    RcpFeLolEsportsSpectate,
    RcpFeLolEventHub,
    RcpFeLolEventShop,
    RcpFeLolHighlights,
    RcpFeLolHonor,
    RcpFeLolKickout,
    RcpFeLolL10n,
    RcpFeLolLeagues,
    RcpFeLolLockAndLoad,
    RcpFeLolLoot,
    RcpFeLolMatchHistory,
    RcpFeLolNavigation,
    RcpFeLolNewPlayerExperience,
    RcpFeLolNpeRewards,
    RcpFeLolParties,
    RcpFeLolPaw,
    RcpFeLolPft,
    RcpFeLolPostgame,
    RcpFeLolPremadeVoice,
    RcpFeLolProfiles,
    RcpFeLolSettings,
    RcpFeLolSharedComponents,
    RcpFeLolSkinsPicker,
    RcpFeLolSocial,
    RcpFeLolStartup,
    RcpFeLolStaticAssets,
    RcpFeLolStore,
    RcpFeLolTft,
    RcpFeLolTftTeamPlanner,
    RcpFeLolTftTroves,
    RcpFeLolTypekit,
    RcpFeLolUikit,
    RcpFeLolYourshop,
    RcpFePluginRunner,
    PluginManifest,
}

/// Whether a plugin is a single file or a directory.
#[derive(Clone, Copy, Debug, PartialEq, Eq, Structural)]
pub enum PluginKind {
    File,
    Directory,
}

/// One entry of the catalog's plugin list. Its identity is `name`.
#[derive(Clone, Copy, Debug, PartialEq, Eq, Structural)]
pub struct Plugin {
    pub name: PluginName,
    pub kind: PluginKind,
    pub mtime: Timestamp,
    pub size: Option<i32>,
}

impl Plugin {
    pub fn new(name: PluginName, kind: PluginKind, mtime: Timestamp, size: Option<i32>) -> (r: Plugin)
        ensures
            r == (Plugin { name, kind, mtime, size }),
    {
        Plugin { name, kind, mtime, size }
    }

    /// Whether the plugin was modified strictly after `date`.
    pub fn updated_since(&self, date: Timestamp) -> (r: bool)
        ensures
            r == (self.mtime.secs > date.secs),
    {
        self.mtime.secs > date.secs
    }
}


/// A plugin name as the catalog writes it (kebab case).
pub open spec fn wire_name_of(name: PluginName) -> Seq<char> {
    match name {
        PluginName::Unnamed => "none"@,
        PluginName::RcpBeLolGameData => "rcp-be-lol-game-data"@,
        PluginName::RcpBeLolLicenseAgreement => "rcp-be-lol-license-agreement"@,
        PluginName::RcpBeSanitizer => "rcp-be-sanitizer"@,
        PluginName::RcpFeAudio => "rcp-fe-audio"@,
        PluginName::RcpFeCommonLibs => "rcp-fe-common-libs"@,
        PluginName::RcpFeEmberLibs => "rcp-fe-ember-libs"@,
        PluginName::RcpFeLolCareerStats => "rcp-fe-lol-career-stats"@,
        PluginName::RcpFeLolChampSelect => "rcp-fe-lol-champ-select"@,
        PluginName::RcpFeLolChampionDetails => "rcp-fe-lol-champion-details"@,
        PluginName::RcpFeLolChampionStatistics => "rcp-fe-lol-champion-statistics"@,
        PluginName::RcpFeLolClash => "rcp-fe-lol-clash"@,
        PluginName::RcpFeLolCollections => "rcp-fe-lol-collections"@,
        PluginName::RcpFeLolEsportsSpectate => "rcp-fe-lol-esports-spectate"@,
        PluginName::RcpFeLolEventHub => "rcp-fe-lol-event-hub"@,
        PluginName::RcpFeLolEventShop => "rcp-fe-lol-event-shop"@,
        PluginName::RcpFeLolHighlights => "rcp-fe-lol-highlights"@,
        PluginName::RcpFeLolHonor => "rcp-fe-lol-honor"@,
        PluginName::RcpFeLolKickout => "rcp-fe-lol-kickout"@,
        PluginName::RcpFeLolL10n => "rcp-fe-lol-l10n"@,
        PluginName::RcpFeLolLeagues => "rcp-fe-lol-leagues"@,
        PluginName::RcpFeLolLockAndLoad => "rcp-fe-lol-lock-and-load"@,
        PluginName::RcpFeLolLoot => "rcp-fe-lol-loot"@,
        PluginName::RcpFeLolMatchHistory => "rcp-fe-lol-match-history"@,
        PluginName::RcpFeLolNavigation => "rcp-fe-lol-navigation"@,
        PluginName::RcpFeLolNewPlayerExperience => "rcp-fe-lol-new-player-experience"@,
        PluginName::RcpFeLolNpeRewards => "rcp-fe-lol-npe-rewards"@,
        PluginName::RcpFeLolParties => "rcp-fe-lol-parties"@,
        PluginName::RcpFeLolPaw => "rcp-fe-lol-paw"@,
        PluginName::RcpFeLolPft => "rcp-fe-lol-pft"@,
        PluginName::RcpFeLolPostgame => "rcp-fe-lol-postgame"@,
        PluginName::RcpFeLolPremadeVoice => "rcp-fe-lol-premade-voice"@,
        PluginName::RcpFeLolProfiles => "rcp-fe-lol-profiles"@,
        PluginName::RcpFeLolSettings => "rcp-fe-lol-settings"@,
        PluginName::RcpFeLolSharedComponents => "rcp-fe-lol-shared-components"@,
        PluginName::RcpFeLolSkinsPicker => "rcp-fe-lol-skins-picker"@,
        PluginName::RcpFeLolSocial => "rcp-fe-lol-social"@,
        PluginName::RcpFeLolStartup => "rcp-fe-lol-startup"@,
        PluginName::RcpFeLolStaticAssets => "rcp-fe-lol-static-assets"@,
        PluginName::RcpFeLolStore => "rcp-fe-lol-store"@,
        PluginName::RcpFeLolTft => "rcp-fe-lol-tft"@,
        PluginName::RcpFeLolTftTeamPlanner => "rcp-fe-lol-tft-team-planner"@,
        PluginName::RcpFeLolTftTroves => "rcp-fe-lol-tft-troves"@,
        PluginName::RcpFeLolTypekit => "rcp-fe-lol-typekit"@,
        PluginName::RcpFeLolUikit => "rcp-fe-lol-uikit"@,
        PluginName::RcpFeLolYourshop => "rcp-fe-lol-yourshop"@,
        PluginName::RcpFePluginRunner => "rcp-fe-plugin-runner"@,
        PluginName::PluginManifest => "plugin-manifest"@,
    }
}

/// The plugin named by `s` in the catalog's text; any name that is not known, including
/// `"plugin-manifest"` itself, is `PluginManifest`.
pub open spec fn name_of_wire(s: Seq<char>) -> PluginName {
    if s == "none"@ {
        PluginName::Unnamed
    } else if s == "rcp-be-lol-game-data"@ {
        PluginName::RcpBeLolGameData
    } else if s == "rcp-be-lol-license-agreement"@ {
        PluginName::RcpBeLolLicenseAgreement
    } else if s == "rcp-be-sanitizer"@ {
        PluginName::RcpBeSanitizer
    } else if s == "rcp-fe-audio"@ {
        PluginName::RcpFeAudio
    } else if s == "rcp-fe-common-libs"@ {
        PluginName::RcpFeCommonLibs
    } else if s == "rcp-fe-ember-libs"@ {
        PluginName::RcpFeEmberLibs
    } else if s == "rcp-fe-lol-career-stats"@ {
        PluginName::RcpFeLolCareerStats
    } else if s == "rcp-fe-lol-champ-select"@ {
        PluginName::RcpFeLolChampSelect
    } else if s == "rcp-fe-lol-champion-details"@ {
        PluginName::RcpFeLolChampionDetails
    } else if s == "rcp-fe-lol-champion-statistics"@ {
        PluginName::RcpFeLolChampionStatistics
    } else if s == "rcp-fe-lol-clash"@ {
        PluginName::RcpFeLolClash
    } else if s == "rcp-fe-lol-collections"@ {
        PluginName::RcpFeLolCollections
    } else if s == "rcp-fe-lol-esports-spectate"@ {
        PluginName::RcpFeLolEsportsSpectate
    } else if s == "rcp-fe-lol-event-hub"@ {
        PluginName::RcpFeLolEventHub
    } else if s == "rcp-fe-lol-event-shop"@ {
        PluginName::RcpFeLolEventShop
    } else if s == "rcp-fe-lol-highlights"@ {
        PluginName::RcpFeLolHighlights
    } else if s == "rcp-fe-lol-honor"@ {
        PluginName::RcpFeLolHonor
    } else if s == "rcp-fe-lol-kickout"@ {
        PluginName::RcpFeLolKickout
    } else if s == "rcp-fe-lol-l10n"@ {
        PluginName::RcpFeLolL10n
    } else if s == "rcp-fe-lol-leagues"@ {
        PluginName::RcpFeLolLeagues
    } else if s == "rcp-fe-lol-lock-and-load"@ {
        PluginName::RcpFeLolLockAndLoad
    } else if s == "rcp-fe-lol-loot"@ {
        PluginName::RcpFeLolLoot
    } else if s == "rcp-fe-lol-match-history"@ {
        PluginName::RcpFeLolMatchHistory
    } else if s == "rcp-fe-lol-navigation"@ {
        PluginName::RcpFeLolNavigation
    } else if s == "rcp-fe-lol-new-player-experience"@ {
        PluginName::RcpFeLolNewPlayerExperience
    } else if s == "rcp-fe-lol-npe-rewards"@ {
        PluginName::RcpFeLolNpeRewards
    } else if s == "rcp-fe-lol-parties"@ {
        PluginName::RcpFeLolParties
    } else if s == "rcp-fe-lol-paw"@ {
        PluginName::RcpFeLolPaw
    } else if s == "rcp-fe-lol-pft"@ {
        PluginName::RcpFeLolPft
    } else if s == "rcp-fe-lol-postgame"@ {
        PluginName::RcpFeLolPostgame
    } else if s == "rcp-fe-lol-premade-voice"@ {
        PluginName::RcpFeLolPremadeVoice
    } else if s == "rcp-fe-lol-profiles"@ {
        PluginName::RcpFeLolProfiles
    } else if s == "rcp-fe-lol-settings"@ {
        PluginName::RcpFeLolSettings
    } else if s == "rcp-fe-lol-shared-components"@ {
        PluginName::RcpFeLolSharedComponents
    } else if s == "rcp-fe-lol-skins-picker"@ {
        PluginName::RcpFeLolSkinsPicker
    } else if s == "rcp-fe-lol-social"@ {
        PluginName::RcpFeLolSocial
    } else if s == "rcp-fe-lol-startup"@ {
        PluginName::RcpFeLolStartup
    } else if s == "rcp-fe-lol-static-assets"@ {
        PluginName::RcpFeLolStaticAssets
    } else if s == "rcp-fe-lol-store"@ {
        PluginName::RcpFeLolStore
    } else if s == "rcp-fe-lol-tft"@ {
        PluginName::RcpFeLolTft
    } else if s == "rcp-fe-lol-tft-team-planner"@ {
        PluginName::RcpFeLolTftTeamPlanner
    } else if s == "rcp-fe-lol-tft-troves"@ {
        PluginName::RcpFeLolTftTroves
    } else if s == "rcp-fe-lol-typekit"@ {
        PluginName::RcpFeLolTypekit
    } else if s == "rcp-fe-lol-uikit"@ {
        PluginName::RcpFeLolUikit
    } else if s == "rcp-fe-lol-yourshop"@ {
        PluginName::RcpFeLolYourshop
    } else if s == "rcp-fe-plugin-runner"@ {
        PluginName::RcpFePluginRunner
    } else {
        PluginName::PluginManifest
    }
}

/// Whether two texts are the same.
fn same_text(a: &str, b: &str) -> (r: bool)
    ensures
        r == (a@ == b@),
{
    a.to_owned() == b.to_owned()
}

impl PluginName {
    /// The name as the catalog writes it.
    pub fn wire_name(&self) -> (r: &'static str)
        ensures
            r@ == wire_name_of(*self),
    {
        match self {
            PluginName::Unnamed => "none",
            PluginName::RcpBeLolGameData => "rcp-be-lol-game-data",
            PluginName::RcpBeLolLicenseAgreement => "rcp-be-lol-license-agreement",
            PluginName::RcpBeSanitizer => "rcp-be-sanitizer",
            PluginName::RcpFeAudio => "rcp-fe-audio",
            PluginName::RcpFeCommonLibs => "rcp-fe-common-libs",
            PluginName::RcpFeEmberLibs => "rcp-fe-ember-libs",
            PluginName::RcpFeLolCareerStats => "rcp-fe-lol-career-stats",
            PluginName::RcpFeLolChampSelect => "rcp-fe-lol-champ-select",
            PluginName::RcpFeLolChampionDetails => "rcp-fe-lol-champion-details",
            PluginName::RcpFeLolChampionStatistics => "rcp-fe-lol-champion-statistics",
            PluginName::RcpFeLolClash => "rcp-fe-lol-clash",
            PluginName::RcpFeLolCollections => "rcp-fe-lol-collections",
            PluginName::RcpFeLolEsportsSpectate => "rcp-fe-lol-esports-spectate",
            PluginName::RcpFeLolEventHub => "rcp-fe-lol-event-hub",
            PluginName::RcpFeLolEventShop => "rcp-fe-lol-event-shop",
            PluginName::RcpFeLolHighlights => "rcp-fe-lol-highlights",
            PluginName::RcpFeLolHonor => "rcp-fe-lol-honor",
            PluginName::RcpFeLolKickout => "rcp-fe-lol-kickout",
            PluginName::RcpFeLolL10n => "rcp-fe-lol-l10n",
            PluginName::RcpFeLolLeagues => "rcp-fe-lol-leagues",
            PluginName::RcpFeLolLockAndLoad => "rcp-fe-lol-lock-and-load",
            PluginName::RcpFeLolLoot => "rcp-fe-lol-loot",
            PluginName::RcpFeLolMatchHistory => "rcp-fe-lol-match-history",
            PluginName::RcpFeLolNavigation => "rcp-fe-lol-navigation",
            PluginName::RcpFeLolNewPlayerExperience => "rcp-fe-lol-new-player-experience",
            PluginName::RcpFeLolNpeRewards => "rcp-fe-lol-npe-rewards",
            PluginName::RcpFeLolParties => "rcp-fe-lol-parties",
            PluginName::RcpFeLolPaw => "rcp-fe-lol-paw",
            PluginName::RcpFeLolPft => "rcp-fe-lol-pft",
            PluginName::RcpFeLolPostgame => "rcp-fe-lol-postgame",
            PluginName::RcpFeLolPremadeVoice => "rcp-fe-lol-premade-voice",
            PluginName::RcpFeLolProfiles => "rcp-fe-lol-profiles",
            PluginName::RcpFeLolSettings => "rcp-fe-lol-settings",
            PluginName::RcpFeLolSharedComponents => "rcp-fe-lol-shared-components",
            PluginName::RcpFeLolSkinsPicker => "rcp-fe-lol-skins-picker",
            PluginName::RcpFeLolSocial => "rcp-fe-lol-social",
            PluginName::RcpFeLolStartup => "rcp-fe-lol-startup",
            PluginName::RcpFeLolStaticAssets => "rcp-fe-lol-static-assets",
            PluginName::RcpFeLolStore => "rcp-fe-lol-store",
            PluginName::RcpFeLolTft => "rcp-fe-lol-tft",
            PluginName::RcpFeLolTftTeamPlanner => "rcp-fe-lol-tft-team-planner",
            PluginName::RcpFeLolTftTroves => "rcp-fe-lol-tft-troves",
            PluginName::RcpFeLolTypekit => "rcp-fe-lol-typekit",
            PluginName::RcpFeLolUikit => "rcp-fe-lol-uikit",
            PluginName::RcpFeLolYourshop => "rcp-fe-lol-yourshop",
            PluginName::RcpFePluginRunner => "rcp-fe-plugin-runner",
            PluginName::PluginManifest => "plugin-manifest",
        }
    }

    /// Reads a plugin name of the catalog's text, with `PluginManifest` for any name that is
    /// not known.
    pub fn from_wire_name(text: &str) -> (r: PluginName)
        ensures
            r == name_of_wire(text@),
    {
        if same_text(text, "none") {
            PluginName::Unnamed
        } else if same_text(text, "rcp-be-lol-game-data") {
            PluginName::RcpBeLolGameData
        } else if same_text(text, "rcp-be-lol-license-agreement") {
            PluginName::RcpBeLolLicenseAgreement
        } else if same_text(text, "rcp-be-sanitizer") {
            PluginName::RcpBeSanitizer
        } else if same_text(text, "rcp-fe-audio") {
            PluginName::RcpFeAudio
        } else if same_text(text, "rcp-fe-common-libs") {
            PluginName::RcpFeCommonLibs
        } else if same_text(text, "rcp-fe-ember-libs") {
            PluginName::RcpFeEmberLibs
        } else if same_text(text, "rcp-fe-lol-career-stats") {
            PluginName::RcpFeLolCareerStats
        } else if same_text(text, "rcp-fe-lol-champ-select") {
            PluginName::RcpFeLolChampSelect
        } else if same_text(text, "rcp-fe-lol-champion-details") {
            PluginName::RcpFeLolChampionDetails
        } else if same_text(text, "rcp-fe-lol-champion-statistics") {
            PluginName::RcpFeLolChampionStatistics
        } else if same_text(text, "rcp-fe-lol-clash") {
            PluginName::RcpFeLolClash
        } else if same_text(text, "rcp-fe-lol-collections") {
            PluginName::RcpFeLolCollections
        } else if same_text(text, "rcp-fe-lol-esports-spectate") {
            PluginName::RcpFeLolEsportsSpectate
        } else if same_text(text, "rcp-fe-lol-event-hub") {
            PluginName::RcpFeLolEventHub
        } else if same_text(text, "rcp-fe-lol-event-shop") {
            PluginName::RcpFeLolEventShop
        } else if same_text(text, "rcp-fe-lol-highlights") {
            PluginName::RcpFeLolHighlights
        } else if same_text(text, "rcp-fe-lol-honor") {
            PluginName::RcpFeLolHonor
        } else if same_text(text, "rcp-fe-lol-kickout") {
            PluginName::RcpFeLolKickout
        } else if same_text(text, "rcp-fe-lol-l10n") {
            PluginName::RcpFeLolL10n
        } else if same_text(text, "rcp-fe-lol-leagues") {
            PluginName::RcpFeLolLeagues
        } else if same_text(text, "rcp-fe-lol-lock-and-load") {
            PluginName::RcpFeLolLockAndLoad
        } else if same_text(text, "rcp-fe-lol-loot") {
            PluginName::RcpFeLolLoot
        } else if same_text(text, "rcp-fe-lol-match-history") {
            PluginName::RcpFeLolMatchHistory
        } else if same_text(text, "rcp-fe-lol-navigation") {
            PluginName::RcpFeLolNavigation
        } else if same_text(text, "rcp-fe-lol-new-player-experience") {
            PluginName::RcpFeLolNewPlayerExperience
        } else if same_text(text, "rcp-fe-lol-npe-rewards") {
            PluginName::RcpFeLolNpeRewards
        } else if same_text(text, "rcp-fe-lol-parties") {
            PluginName::RcpFeLolParties
        } else if same_text(text, "rcp-fe-lol-paw") {
            PluginName::RcpFeLolPaw
        } else if same_text(text, "rcp-fe-lol-pft") {
            PluginName::RcpFeLolPft
        } else if same_text(text, "rcp-fe-lol-postgame") {
            PluginName::RcpFeLolPostgame
        } else if same_text(text, "rcp-fe-lol-premade-voice") {
            PluginName::RcpFeLolPremadeVoice
        } else if same_text(text, "rcp-fe-lol-profiles") {
            PluginName::RcpFeLolProfiles
        } else if same_text(text, "rcp-fe-lol-settings") {
            PluginName::RcpFeLolSettings
        } else if same_text(text, "rcp-fe-lol-shared-components") {
            PluginName::RcpFeLolSharedComponents
        } else if same_text(text, "rcp-fe-lol-skins-picker") {
            PluginName::RcpFeLolSkinsPicker
        } else if same_text(text, "rcp-fe-lol-social") {
            PluginName::RcpFeLolSocial
        } else if same_text(text, "rcp-fe-lol-startup") {
            PluginName::RcpFeLolStartup
        } else if same_text(text, "rcp-fe-lol-static-assets") {
            PluginName::RcpFeLolStaticAssets
        } else if same_text(text, "rcp-fe-lol-store") {
            PluginName::RcpFeLolStore
        } else if same_text(text, "rcp-fe-lol-tft") {
            PluginName::RcpFeLolTft
        } else if same_text(text, "rcp-fe-lol-tft-team-planner") {
            PluginName::RcpFeLolTftTeamPlanner
        } else if same_text(text, "rcp-fe-lol-tft-troves") {
            PluginName::RcpFeLolTftTroves
        } else if same_text(text, "rcp-fe-lol-typekit") {
            PluginName::RcpFeLolTypekit
        } else if same_text(text, "rcp-fe-lol-uikit") {
            PluginName::RcpFeLolUikit
        } else if same_text(text, "rcp-fe-lol-yourshop") {
            PluginName::RcpFeLolYourshop
        } else if same_text(text, "rcp-fe-plugin-runner") {
            PluginName::RcpFePluginRunner
        } else {
            PluginName::PluginManifest
        }
    }
}

/// Reading a plugin's written name gives the plugin name back.
pub proof fn lemma_wire_name_round_trip(name: PluginName)
    ensures
        name_of_wire(wire_name_of(name)) == name,
{
    // Any two written names differ in length or, where the lengths agree, at a character.
    reveal_strlit("none");
    reveal_strlit("rcp-be-lol-game-data");
    reveal_strlit("rcp-be-lol-license-agreement");
    reveal_strlit("rcp-be-sanitizer");
    reveal_strlit("rcp-fe-audio");
    reveal_strlit("rcp-fe-common-libs");
    reveal_strlit("rcp-fe-ember-libs");
    reveal_strlit("rcp-fe-lol-career-stats");
    reveal_strlit("rcp-fe-lol-champ-select");
    reveal_strlit("rcp-fe-lol-champion-details");
    reveal_strlit("rcp-fe-lol-champion-statistics");
    reveal_strlit("rcp-fe-lol-clash");
    reveal_strlit("rcp-fe-lol-collections");
    reveal_strlit("rcp-fe-lol-esports-spectate");
    reveal_strlit("rcp-fe-lol-event-hub");
    reveal_strlit("rcp-fe-lol-event-shop");
    reveal_strlit("rcp-fe-lol-highlights");
    reveal_strlit("rcp-fe-lol-honor");
    reveal_strlit("rcp-fe-lol-kickout");
    reveal_strlit("rcp-fe-lol-l10n");
    reveal_strlit("rcp-fe-lol-leagues");
    reveal_strlit("rcp-fe-lol-lock-and-load");
    reveal_strlit("rcp-fe-lol-loot");
    reveal_strlit("rcp-fe-lol-match-history");
    reveal_strlit("rcp-fe-lol-navigation");
    reveal_strlit("rcp-fe-lol-new-player-experience");
    reveal_strlit("rcp-fe-lol-npe-rewards");
    reveal_strlit("rcp-fe-lol-parties");
    reveal_strlit("rcp-fe-lol-paw");
    reveal_strlit("rcp-fe-lol-pft");
    reveal_strlit("rcp-fe-lol-postgame");
    reveal_strlit("rcp-fe-lol-premade-voice");
    reveal_strlit("rcp-fe-lol-profiles");
    reveal_strlit("rcp-fe-lol-settings");
    reveal_strlit("rcp-fe-lol-shared-components");
    reveal_strlit("rcp-fe-lol-skins-picker");
    reveal_strlit("rcp-fe-lol-social");
    reveal_strlit("rcp-fe-lol-startup");
    reveal_strlit("rcp-fe-lol-static-assets");
    reveal_strlit("rcp-fe-lol-store");
    reveal_strlit("rcp-fe-lol-tft");
    reveal_strlit("rcp-fe-lol-tft-team-planner");
    reveal_strlit("rcp-fe-lol-tft-troves");
    reveal_strlit("rcp-fe-lol-typekit");
    reveal_strlit("rcp-fe-lol-uikit");
    reveal_strlit("rcp-fe-lol-yourshop");
    reveal_strlit("rcp-fe-plugin-runner");
    reveal_strlit("plugin-manifest");
    assert("none"@.len() == 4);
    assert("rcp-be-lol-game-data"@.len() == 20);
    assert("rcp-be-lol-license-agreement"@.len() == 28);
    assert("rcp-be-sanitizer"@.len() == 16);
    assert("rcp-fe-audio"@.len() == 12);
    assert("rcp-fe-common-libs"@.len() == 18);
    assert("rcp-fe-ember-libs"@.len() == 17);
    assert("rcp-fe-lol-career-stats"@.len() == 23);
    assert("rcp-fe-lol-champ-select"@.len() == 23);
    assert("rcp-fe-lol-champion-details"@.len() == 27);
    assert("rcp-fe-lol-champion-statistics"@.len() == 30);
    assert("rcp-fe-lol-clash"@.len() == 16);
    assert("rcp-fe-lol-collections"@.len() == 22);
    assert("rcp-fe-lol-esports-spectate"@.len() == 27);
    assert("rcp-fe-lol-event-hub"@.len() == 20);
    assert("rcp-fe-lol-event-shop"@.len() == 21);
    assert("rcp-fe-lol-highlights"@.len() == 21);
    assert("rcp-fe-lol-honor"@.len() == 16);
    assert("rcp-fe-lol-kickout"@.len() == 18);
    assert("rcp-fe-lol-l10n"@.len() == 15);
    assert("rcp-fe-lol-leagues"@.len() == 18);
    assert("rcp-fe-lol-lock-and-load"@.len() == 24);
    assert("rcp-fe-lol-loot"@.len() == 15);
    assert("rcp-fe-lol-match-history"@.len() == 24);
    assert("rcp-fe-lol-navigation"@.len() == 21);
    assert("rcp-fe-lol-new-player-experience"@.len() == 32);
    assert("rcp-fe-lol-npe-rewards"@.len() == 22);
    assert("rcp-fe-lol-parties"@.len() == 18);
    assert("rcp-fe-lol-paw"@.len() == 14);
    assert("rcp-fe-lol-pft"@.len() == 14);
    assert("rcp-fe-lol-postgame"@.len() == 19);
    assert("rcp-fe-lol-premade-voice"@.len() == 24);
    assert("rcp-fe-lol-profiles"@.len() == 19);
    assert("rcp-fe-lol-settings"@.len() == 19);
    assert("rcp-fe-lol-shared-components"@.len() == 28);
    assert("rcp-fe-lol-skins-picker"@.len() == 23);
    assert("rcp-fe-lol-social"@.len() == 17);
    assert("rcp-fe-lol-startup"@.len() == 18);
    assert("rcp-fe-lol-static-assets"@.len() == 24);
    assert("rcp-fe-lol-store"@.len() == 16);
    assert("rcp-fe-lol-tft"@.len() == 14);
    assert("rcp-fe-lol-tft-team-planner"@.len() == 27);
    assert("rcp-fe-lol-tft-troves"@.len() == 21);
    assert("rcp-fe-lol-typekit"@.len() == 18);
    assert("rcp-fe-lol-uikit"@.len() == 16);
    assert("rcp-fe-lol-yourshop"@.len() == 19);
    assert("rcp-fe-plugin-runner"@.len() == 20);
    assert("plugin-manifest"@.len() == 15);
    assert("rcp-be-lol-game-data"@[4] != "rcp-fe-lol-event-hub"@[4]);
    assert("rcp-be-lol-game-data"@[4] != "rcp-fe-plugin-runner"@[4]);
    assert("rcp-be-lol-license-agreement"@[4] != "rcp-fe-lol-shared-components"@[4]);
    assert("rcp-be-sanitizer"@[4] != "rcp-fe-lol-clash"@[4]);
    assert("rcp-be-sanitizer"@[4] != "rcp-fe-lol-honor"@[4]);
    assert("rcp-be-sanitizer"@[4] != "rcp-fe-lol-store"@[4]);
    assert("rcp-be-sanitizer"@[4] != "rcp-fe-lol-uikit"@[4]);
    assert("rcp-fe-common-libs"@[7] != "rcp-fe-lol-kickout"@[7]);
    assert("rcp-fe-common-libs"@[7] != "rcp-fe-lol-leagues"@[7]);
    assert("rcp-fe-common-libs"@[7] != "rcp-fe-lol-parties"@[7]);
    assert("rcp-fe-common-libs"@[7] != "rcp-fe-lol-startup"@[7]);
    assert("rcp-fe-common-libs"@[7] != "rcp-fe-lol-typekit"@[7]);
    assert("rcp-fe-ember-libs"@[7] != "rcp-fe-lol-social"@[7]);
    assert("rcp-fe-lol-career-stats"@[12] != "rcp-fe-lol-champ-select"@[12]);
    assert("rcp-fe-lol-career-stats"@[11] != "rcp-fe-lol-skins-picker"@[11]);
    assert("rcp-fe-lol-champ-select"@[11] != "rcp-fe-lol-skins-picker"@[11]);
    assert("rcp-fe-lol-champion-details"@[11] != "rcp-fe-lol-esports-spectate"@[11]);
    assert("rcp-fe-lol-champion-details"@[11] != "rcp-fe-lol-tft-team-planner"@[11]);
    assert("rcp-fe-lol-clash"@[11] != "rcp-fe-lol-honor"@[11]);
    assert("rcp-fe-lol-clash"@[11] != "rcp-fe-lol-store"@[11]);
    assert("rcp-fe-lol-clash"@[11] != "rcp-fe-lol-uikit"@[11]);
    assert("rcp-fe-lol-collections"@[11] != "rcp-fe-lol-npe-rewards"@[11]);
    assert("rcp-fe-lol-esports-spectate"@[11] != "rcp-fe-lol-tft-team-planner"@[11]);
    assert("rcp-fe-lol-event-hub"@[7] != "rcp-fe-plugin-runner"@[7]);
    assert("rcp-fe-lol-event-shop"@[11] != "rcp-fe-lol-highlights"@[11]);
    assert("rcp-fe-lol-event-shop"@[11] != "rcp-fe-lol-navigation"@[11]);
    assert("rcp-fe-lol-event-shop"@[11] != "rcp-fe-lol-tft-troves"@[11]);
    assert("rcp-fe-lol-highlights"@[11] != "rcp-fe-lol-navigation"@[11]);
    assert("rcp-fe-lol-highlights"@[11] != "rcp-fe-lol-tft-troves"@[11]);
    assert("rcp-fe-lol-honor"@[11] != "rcp-fe-lol-store"@[11]);
    assert("rcp-fe-lol-honor"@[11] != "rcp-fe-lol-uikit"@[11]);
    assert("rcp-fe-lol-kickout"@[11] != "rcp-fe-lol-leagues"@[11]);
    assert("rcp-fe-lol-kickout"@[11] != "rcp-fe-lol-parties"@[11]);
    assert("rcp-fe-lol-kickout"@[11] != "rcp-fe-lol-startup"@[11]);
    assert("rcp-fe-lol-kickout"@[11] != "rcp-fe-lol-typekit"@[11]);
    assert("rcp-fe-lol-l10n"@[12] != "rcp-fe-lol-loot"@[12]);
    assert("rcp-fe-lol-l10n"@[0] != "plugin-manifest"@[0]);
    assert("rcp-fe-lol-leagues"@[11] != "rcp-fe-lol-parties"@[11]);
    assert("rcp-fe-lol-leagues"@[11] != "rcp-fe-lol-startup"@[11]);
    assert("rcp-fe-lol-leagues"@[11] != "rcp-fe-lol-typekit"@[11]);
    assert("rcp-fe-lol-lock-and-load"@[11] != "rcp-fe-lol-match-history"@[11]);
    assert("rcp-fe-lol-lock-and-load"@[11] != "rcp-fe-lol-premade-voice"@[11]);
    assert("rcp-fe-lol-lock-and-load"@[11] != "rcp-fe-lol-static-assets"@[11]);
    assert("rcp-fe-lol-loot"@[0] != "plugin-manifest"@[0]);
    assert("rcp-fe-lol-match-history"@[11] != "rcp-fe-lol-premade-voice"@[11]);
    assert("rcp-fe-lol-match-history"@[11] != "rcp-fe-lol-static-assets"@[11]);
    assert("rcp-fe-lol-navigation"@[11] != "rcp-fe-lol-tft-troves"@[11]);
    assert("rcp-fe-lol-parties"@[11] != "rcp-fe-lol-startup"@[11]);
    assert("rcp-fe-lol-parties"@[11] != "rcp-fe-lol-typekit"@[11]);
    assert("rcp-fe-lol-paw"@[12] != "rcp-fe-lol-pft"@[12]);
    assert("rcp-fe-lol-paw"@[11] != "rcp-fe-lol-tft"@[11]);
    assert("rcp-fe-lol-pft"@[11] != "rcp-fe-lol-tft"@[11]);
    assert("rcp-fe-lol-postgame"@[12] != "rcp-fe-lol-profiles"@[12]);
    assert("rcp-fe-lol-postgame"@[11] != "rcp-fe-lol-settings"@[11]);
    assert("rcp-fe-lol-postgame"@[11] != "rcp-fe-lol-yourshop"@[11]);
    assert("rcp-fe-lol-premade-voice"@[11] != "rcp-fe-lol-static-assets"@[11]);
    assert("rcp-fe-lol-profiles"@[11] != "rcp-fe-lol-settings"@[11]);
    assert("rcp-fe-lol-profiles"@[11] != "rcp-fe-lol-yourshop"@[11]);
    assert("rcp-fe-lol-settings"@[11] != "rcp-fe-lol-yourshop"@[11]);
    assert("rcp-fe-lol-startup"@[11] != "rcp-fe-lol-typekit"@[11]);
    assert("rcp-fe-lol-store"@[11] != "rcp-fe-lol-uikit"@[11]);
}

/// A plugin kind as the catalog writes it.
pub open spec fn wire_kind_of(kind: PluginKind) -> Seq<char> {
    match kind {
        PluginKind::File => "file"@,
        PluginKind::Directory => "directory"@,
    }
}

/// The plugin kind written `s`, if `s` names one.
pub open spec fn kind_of_wire(s: Seq<char>) -> Option<PluginKind> {
    if s == "file"@ {
        Some(PluginKind::File)
    } else if s == "directory"@ {
        Some(PluginKind::Directory)
    } else {
        None
    }
}

impl PluginKind {
    /// The kind as the catalog writes it.
    pub fn wire_name(&self) -> (r: &'static str)
        ensures
            r@ == wire_kind_of(*self),
    {
        match self {
            PluginKind::File => "file",
            PluginKind::Directory => "directory",
        }
    }

    /// Reads a plugin kind of the catalog's text; any other text names no kind.
    pub fn from_wire_name(text: &str) -> (r: Option<PluginKind>)
        ensures
            r == kind_of_wire(text@),
    {
        if same_text(text, "file") {
            Some(PluginKind::File)
        } else if same_text(text, "directory") {
            Some(PluginKind::Directory)
        } else {
            None
        }
    }
}

/// The plugin that the catalog's fields describe. An unknown name is `PluginManifest`; an
/// unknown kind or an unreadable modification time makes the entry undecodable.
pub open spec fn decoded_plugin(
    name: Seq<char>,
    kind: Seq<char>,
    mtime: Seq<char>,
    size: Option<i32>,
) -> Result<Plugin, CatalogError> {
    match (kind_of_wire(kind), parsed_utc_seconds(mtime, MTIME_FORMAT@)) {
        (Some(k), Some(secs)) => Ok(
            Plugin { name: name_of_wire(name), kind: k, mtime: Timestamp { secs }, size },
        ),
        _ => Err(CatalogError::Fetch(ErrorKind::Decode)),
    }
}

impl Plugin {
    /// Builds a plugin from the fields of a catalog entry as written.
    pub fn decode(name: &str, kind: &str, mtime: &str, size: Option<i32>) -> (r: Result<
        Plugin,
        CatalogError,
    >)
        ensures
            r == decoded_plugin(name@, kind@, mtime@, size),
    {
        let kind = match PluginKind::from_wire_name(kind) {
            Some(k) => k,
            None => {
                return Err(CatalogError::Fetch(ErrorKind::Decode));
            },
        };
        let mtime = match deserialize(mtime) {
            Ok(t) => t,
            Err(e) => {
                return Err(e);
            },
        };
        Ok(Plugin { name: PluginName::from_wire_name(name), kind, mtime, size })
    }
}

/// Writing a plugin's fields out and decoding them again gives back its name, kind and
/// size; its modification time comes back as the text written for it reads.
pub proof fn lemma_plugin_round_trip(p: Plugin, text: Seq<char>)
    requires
        formatted_utc(p.mtime.secs, MTIME_FORMAT@) == Some(text),
    ensures
        decoded_plugin(wire_name_of(p.name), wire_kind_of(p.kind), text, p.size) == match parsed_utc_seconds(
            text,
            MTIME_FORMAT@,
        ) {
            Some(secs) => Ok(Plugin { mtime: Timestamp { secs }, ..p }),
            None => Err(CatalogError::Fetch(ErrorKind::Decode)),
        },
{
    lemma_wire_name_round_trip(p.name);
    reveal_strlit("file");
    reveal_strlit("directory");
    assert("directory"@.len() != "file"@.len());
}

} // verus!
