use std::collections::HashMap;

use irminsul::game_data::{Affix, ArtifactData, GameData, SkillType, WeaponData};
use irminsul::player_data::{ExportSettings, PlayerData};
use irminsul::records::{
    CharacterRecord, EquipPayload, ItemDetail, ItemRecord, ReliquaryRecord, WeaponRecord,
};
use irminsul::settings::SavedAppState;

fn all_settings() -> ExportSettings {
    ExportSettings {
        include_characters: true,
        include_artifacts: true,
        include_weapons: true,
        include_materials: true,
        min_character_level: 0,
        min_character_ascension: 0,
        min_character_constellation: 0,
        min_artifact_level: 0,
        min_artifact_rarity: 0,
        min_weapon_level: 0,
        min_weapon_refinement: 0,
        min_weapon_ascension: 0,
        min_weapon_rarity: 0,
    }
}

fn database() -> GameData {
    let mut db = GameData::new();
    db.characters.insert(10000021, "Amber".to_string());
    db.characters.insert(10000022, "Venti".to_string());
    db.skill_types.insert(1, SkillType::Auto);
    db.skill_types.insert(2, SkillType::Skill);
    db.skill_types.insert(3, SkillType::Burst);
    db.artifacts.insert(
        77,
        ArtifactData {
            set: "gladiator's finale".to_string(),
            slot_key: "flower".to_string(),
            rarity: 5,
        },
    );
    db.affixes.insert(501, Affix { property: "critRate_".to_string(), value: 3 });
    db.affixes.insert(502, Affix { property: "critRate_".to_string(), value: 4 });
    db.affixes.insert(503, Affix { property: "atk".to_string(), value: 19 });
    db.properties.insert(10001, "hp".to_string());
    db.weapons.insert(
        15502,
        WeaponData { name: "Amos' Bow".to_string(), rarity: 5 },
    );
    db.materials.insert(104001, "Wanderer's Advice".to_string());
    db.materials.insert(104002, "Adventurer's Experience".to_string());
    db
}

fn character(avatar_id: u32, level: i64, ascension: i64, talents: usize) -> CharacterRecord {
    let mut prop_map = HashMap::new();
    prop_map.insert(4001, level);
    prop_map.insert(1002, ascension);
    CharacterRecord {
        avatar_type: 1,
        avatar_id,
        prop_map,
        skill_level_map: Vec::new(),
        talent_id_list: (0..talents as u32).collect(),
        equip_guid_list: Vec::new(),
    }
}

fn artifact(guid: u64, level: u32, substats: Vec<u32>) -> ItemRecord {
    ItemRecord {
        item_id: 77,
        guid,
        detail: ItemDetail::Equip {
            is_locked: true,
            payload: EquipPayload::Reliquary(ReliquaryRecord {
                level,
                main_prop_id: 10001,
                append_prop_id_list: substats,
            }),
        },
    }
}

fn weapon(guid: u64, level: u32, promote_level: u32, affix_map: Vec<(u32, u32)>) -> ItemRecord {
    ItemRecord {
        item_id: 15502,
        guid,
        detail: ItemDetail::Equip {
            is_locked: false,
            payload: EquipPayload::Weapon(WeaponRecord { level, promote_level, affix_map }),
        },
    }
}

#[test]
fn empty_export_of_fresh_aggregator() {
    let pd = PlayerData::new(database());
    let doc = pd.export_genshin_optimizer(&all_settings());
    assert_eq!(doc.format, "GOOD");
    assert_eq!(doc.version, 2);
    assert_eq!(doc.source, "Irminsul");
    assert!(doc.characters.is_empty());
    assert!(doc.artifacts.is_empty());
    assert!(doc.weapons.is_empty());
    assert!(doc.materials.is_empty());
}

#[test]
fn substats_of_same_property_are_summed() {
    let mut pd = PlayerData::new(database());
    pd.process_items(vec![artifact(1, 1, vec![501, 502])]);
    let arts = pd.export_genshin_optimizer_artifacts(&all_settings());
    assert_eq!(arts.len(), 1);
    assert_eq!(arts[0].substats.len(), 1);
    assert_eq!(arts[0].substats[0].key, "critRate_");
    assert_eq!(arts[0].substats[0].value, 7);
}

#[test]
fn substats_keep_order_of_first_roll_and_skip_unknown() {
    let mut pd = PlayerData::new(database());
    pd.process_items(vec![artifact(1, 1, vec![503, 501, 999, 503, 502])]);
    let arts = pd.export_genshin_optimizer_artifacts(&all_settings());
    let subs = &arts[0].substats;
    assert_eq!(subs.len(), 2);
    assert_eq!(subs[0].key, "atk");
    assert_eq!(subs[0].value, 38);
    assert_eq!(subs[1].key, "critRate_");
    assert_eq!(subs[1].value, 7);
}

#[test]
fn artifact_level_is_offset_by_one() {
    let mut pd = PlayerData::new(database());
    pd.process_items(vec![artifact(1, 5, Vec::new())]);
    let arts = pd.export_genshin_optimizer_artifacts(&all_settings());
    assert_eq!(arts[0].level, 4);
    assert_eq!(arts[0].rarity, 5);
    assert_eq!(arts[0].set_key, "GladiatorsFinale");
    assert_eq!(arts[0].slot_key, "flower");
    assert_eq!(arts[0].main_stat_key, "hp");
    assert!(arts[0].lock);
}

#[test]
fn artifact_location_resolves_or_is_empty() {
    let mut pd = PlayerData::new(database());
    let mut holder = character(10000021, 20, 1, 0);
    holder.equip_guid_list = vec![1];
    let mut unknown = character(42, 20, 1, 0);
    unknown.equip_guid_list = vec![2];
    pd.process_characters(vec![holder, unknown]);
    pd.process_items(vec![artifact(1, 1, Vec::new()), artifact(2, 1, Vec::new()), artifact(3, 1, Vec::new())]);
    let arts = pd.export_genshin_optimizer_artifacts(&all_settings());
    assert_eq!(arts.len(), 3);
    assert_eq!(arts[0].location, "Amber");
    assert_eq!(arts[1].location, "");
    assert_eq!(arts[2].location, "");
}

#[test]
fn artifact_thresholds_and_unknown_types() {
    let mut pd = PlayerData::new(database());
    let mut unknown = artifact(9, 21, Vec::new());
    unknown.item_id = 78;
    pd.process_items(vec![artifact(1, 1, Vec::new()), artifact(2, 21, Vec::new()), unknown]);
    let mut settings = all_settings();
    settings.min_artifact_level = 20;
    let arts = pd.export_genshin_optimizer_artifacts(&settings);
    assert_eq!(arts.len(), 1);
    assert_eq!(arts[0].level, 20);
    settings.min_artifact_rarity = 6;
    assert!(pd.export_genshin_optimizer_artifacts(&settings).is_empty());
}

#[test]
fn weapon_refinement_defaults_to_one() {
    let mut pd = PlayerData::new(database());
    pd.process_items(vec![weapon(5, 90, 6, Vec::new())]);
    let weapons = pd.export_genshin_optimizer_weapons(&all_settings());
    assert_eq!(weapons.len(), 1);
    assert_eq!(weapons[0].refinement, 1);
    assert_eq!(weapons[0].key, "AmosBow");
    assert_eq!(weapons[0].level, 90);
    assert_eq!(weapons[0].ascension, 6);
    assert_eq!(weapons[0].location, "");
    assert!(!weapons[0].lock);
}

#[test]
fn weapon_refinement_from_affix_entry() {
    let mut pd = PlayerData::new(database());
    pd.process_items(vec![weapon(5, 90, 6, vec![(115502, 2)])]);
    let weapons = pd.export_genshin_optimizer_weapons(&all_settings());
    assert_eq!(weapons[0].refinement, 3);
}

#[test]
fn weapon_thresholds() {
    let mut pd = PlayerData::new(database());
    pd.process_items(vec![weapon(5, 90, 6, Vec::new()), weapon(6, 1, 0, vec![(1, 4)])]);
    let mut settings = all_settings();
    settings.min_weapon_level = 2;
    assert_eq!(pd.export_genshin_optimizer_weapons(&settings).len(), 1);
    settings.min_weapon_level = 0;
    settings.min_weapon_refinement = 2;
    let w = pd.export_genshin_optimizer_weapons(&settings);
    assert_eq!(w.len(), 1);
    assert_eq!(w[0].refinement, 5);
    settings.min_weapon_refinement = 0;
    settings.min_weapon_ascension = 1;
    assert_eq!(pd.export_genshin_optimizer_weapons(&settings).len(), 1);
    settings.min_weapon_ascension = 0;
    settings.min_weapon_rarity = 6;
    assert!(pd.export_genshin_optimizer_weapons(&settings).is_empty());
}

#[test]
fn character_below_min_level_is_excluded() {
    let mut pd = PlayerData::new(database());
    pd.process_characters(vec![character(10000021, 10, 6, 6), character(10000022, 80, 6, 0)]);
    let mut settings = all_settings();
    settings.min_character_level = 20;
    let chars = pd.export_genshin_optimizer_characters(&settings);
    assert_eq!(chars.len(), 1);
    assert_eq!(chars[0].key, "Venti");
}

#[test]
fn character_fields_and_talents() {
    let mut pd = PlayerData::new(database());
    let mut c = character(10000021, 80, 6, 3);
    c.skill_level_map = vec![(1, 9), (3, 10), (99, 7)];
    pd.process_characters(vec![c]);
    let chars = pd.export_genshin_optimizer_characters(&all_settings());
    assert_eq!(chars.len(), 1);
    assert_eq!(chars[0].key, "Amber");
    assert_eq!(chars[0].level, 80);
    assert_eq!(chars[0].ascension, 6);
    assert_eq!(chars[0].constellation, 3);
    assert_eq!(chars[0].talent.auto, 9);
    assert_eq!(chars[0].talent.skill, 1);
    assert_eq!(chars[0].talent.burst, 10);
}

#[test]
fn characters_skipped_when_not_exportable() {
    let mut pd = PlayerData::new(database());
    let mut trial = character(10000021, 80, 6, 0);
    trial.avatar_type = 2;
    let mut no_level = character(10000022, 80, 6, 0);
    no_level.prop_map.remove(&4001);
    let mut no_ascension = character(10000022, 80, 6, 0);
    no_ascension.prop_map.remove(&1002);
    let unknown = character(1, 80, 6, 0);
    pd.process_characters(vec![trial, no_level, no_ascension, unknown]);
    assert!(pd.export_genshin_optimizer_characters(&all_settings()).is_empty());
}

#[test]
fn character_ascension_and_constellation_thresholds() {
    let mut pd = PlayerData::new(database());
    pd.process_characters(vec![character(10000021, 80, 2, 1), character(10000022, 80, 6, 6)]);
    let mut settings = all_settings();
    settings.min_character_ascension = 3;
    assert_eq!(pd.export_genshin_optimizer_characters(&settings)[0].key, "Venti");
    settings.min_character_ascension = 0;
    settings.min_character_constellation = 2;
    assert_eq!(pd.export_genshin_optimizer_characters(&settings).len(), 1);
}

#[test]
fn materials_are_summed_by_key() {
    let mut pd = PlayerData::new(database());
    let m = |item_id: u32, count: u32| ItemRecord {
        item_id,
        guid: 0,
        detail: ItemDetail::Material { count },
    };
    pd.process_items(vec![m(104001, 5), m(104002, 3), m(999, 1), m(104001, 2)]);
    let mats = pd.export_genshin_optimizer_materials();
    assert_eq!(mats.len(), 2);
    assert_eq!(mats[0].key, "WanderersAdvice");
    assert_eq!(mats[0].count, 7);
    assert_eq!(mats[1].key, "AdventurersExperience");
    assert_eq!(mats[1].count, 3);
}

#[test]
fn material_count_saturates() {
    let mut pd = PlayerData::new(database());
    let m = |count: u32| ItemRecord { item_id: 104001, guid: 0, detail: ItemDetail::Material { count } };
    pd.process_items(vec![m(u32::MAX - 1), m(5)]);
    assert_eq!(pd.export_genshin_optimizer_materials()[0].count, u32::MAX);
}

#[test]
fn sections_follow_include_flags() {
    let mut pd = PlayerData::new(database());
    pd.process_characters(vec![character(10000021, 80, 6, 0)]);
    pd.process_items(vec![
        artifact(1, 1, Vec::new()),
        weapon(2, 1, 0, Vec::new()),
        ItemRecord { item_id: 104001, guid: 3, detail: ItemDetail::Material { count: 1 } },
    ]);
    let full = pd.export_genshin_optimizer(&all_settings());
    assert_eq!(full.characters.len(), 1);
    assert_eq!(full.artifacts.len(), 1);
    assert_eq!(full.weapons.len(), 1);
    assert_eq!(full.materials.len(), 1);
    let mut settings = all_settings();
    settings.include_characters = false;
    settings.include_artifacts = false;
    settings.include_weapons = false;
    settings.include_materials = false;
    let none = pd.export_genshin_optimizer(&settings);
    assert!(none.characters.is_empty());
    assert!(none.artifacts.is_empty());
    assert!(none.weapons.is_empty());
    assert!(none.materials.is_empty());
}

#[test]
fn saved_state_defaults() {
    let s = SavedAppState::default();
    assert!(s.export_settings.include_characters);
    assert!(s.export_settings.include_materials);
    assert_eq!(s.export_settings.min_character_level, 1);
    assert_eq!(s.export_settings.min_artifact_rarity, 5);
    assert_eq!(s.export_settings.min_weapon_level, 1);
    assert_eq!(s.export_settings.min_weapon_rarity, 3);
    assert!(!s.auto_start_capture);
    assert!(!s.log_raw_packets);
}
