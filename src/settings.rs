//! The user's saved preferences.

use vstd::prelude::*;

use crate::player_data::ExportSettings;

verus! {

/// The preferences kept between runs.
#[derive(Clone, Copy, Debug, PartialEq, Eq, Structural)]
pub struct SavedAppState {
    pub export_settings: ExportSettings,
    pub auto_start_capture: bool,
    pub log_raw_packets: bool,
}

/// The export settings of a first run: every section, characters from
/// level 1, five-star artifacts, weapons from level 1 and three stars.
pub open spec fn default_export_settings() -> ExportSettings {
    ExportSettings {
        include_characters: true,
        include_artifacts: true,
        include_weapons: true,
        include_materials: true,
        min_character_level: 1,
        min_character_ascension: 0,
        min_character_constellation: 0,
        min_artifact_level: 0,
        min_artifact_rarity: 5,
        min_weapon_level: 1,
        min_weapon_refinement: 0,
        min_weapon_ascension: 0,
        min_weapon_rarity: 3,
    }
}

impl Default for SavedAppState {
    fn default() -> (r: SavedAppState)
        ensures
            r.export_settings == default_export_settings(),
            !r.auto_start_capture,
            !r.log_raw_packets,
    {
        SavedAppState {
            export_settings: ExportSettings {
                include_characters: true,
                include_artifacts: true,
                include_weapons: true,
                include_materials: true,
                min_character_level: 1,
                min_character_ascension: 0,
                min_character_constellation: 0,
                min_artifact_level: 0,
                min_artifact_rarity: 5,
                min_weapon_level: 1,
                min_weapon_refinement: 0,
                min_weapon_ascension: 0,
                min_weapon_rarity: 3,
            },
            auto_start_capture: false,
            log_raw_packets: false,
        }
    }
}

} // verus!
