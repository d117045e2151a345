use std::collections::HashMap;

use irminsul::game_data::GameData;
use irminsul::player_data::PlayerData;
use irminsul::records::{AchievementRecord, CharacterRecord, ItemDetail, ItemRecord};

fn material(item_id: u32, guid: u64, count: u32) -> ItemRecord {
    ItemRecord { item_id, guid, detail: ItemDetail::Material { count } }
}

fn character(avatar_id: u32, equips: Vec<u64>) -> CharacterRecord {
    CharacterRecord {
        avatar_type: 1,
        avatar_id,
        prop_map: HashMap::new(),
        skill_level_map: Vec::new(),
        talent_id_list: Vec::new(),
        equip_guid_list: equips,
    }
}

#[test]
fn new_aggregator_is_empty() {
    let pd = PlayerData::new(GameData::new());
    assert!(pd.items().is_empty());
    assert!(pd.characters().is_empty());
    assert!(pd.achievements().is_empty());
    assert_eq!(pd.equip_location(1), None);
}

#[test]
fn items_batch_replaces_previous() {
    let mut pd = PlayerData::new(GameData::new());
    pd.process_items(vec![material(1, 10, 5), material(2, 11, 6)]);
    pd.process_items(vec![material(3, 12, 7)]);
    let items = pd.items();
    assert_eq!(items.len(), 1);
    assert_eq!(items[0].item_id, 3);
    assert_eq!(items[0].guid, 12);
}

#[test]
fn empty_items_batch_empties_list() {
    let mut pd = PlayerData::new(GameData::new());
    pd.process_items(vec![material(1, 10, 5)]);
    pd.process_items(Vec::new());
    assert!(pd.items().is_empty());
}

#[test]
fn characters_batch_rebuilds_equip_map() {
    let mut pd = PlayerData::new(GameData::new());
    pd.process_characters(vec![character(100, vec![1, 2]), character(200, vec![3])]);
    assert_eq!(pd.equip_location(1), Some(100));
    assert_eq!(pd.equip_location(2), Some(100));
    assert_eq!(pd.equip_location(3), Some(200));
    pd.process_characters(vec![character(300, vec![2])]);
    assert_eq!(pd.equip_location(1), None);
    assert_eq!(pd.equip_location(2), Some(300));
    assert_eq!(pd.equip_location(3), None);
    assert_eq!(pd.characters().len(), 1);
}

#[test]
fn equip_map_last_writer_wins() {
    let mut pd = PlayerData::new(GameData::new());
    pd.process_characters(vec![character(100, vec![7]), character(200, vec![7])]);
    assert_eq!(pd.equip_location(7), Some(200));
}

#[test]
fn achievements_batch_replaces_previous() {
    let mut pd = PlayerData::new(GameData::new());
    let a = |id: u32| AchievementRecord {
        id,
        status: 1,
        current_progress: 0,
        total_progress: 1,
        finish_timestamp: 0,
    };
    pd.process_achievements(vec![a(1), a(2)]);
    pd.process_achievements(vec![a(3)]);
    assert_eq!(pd.achievements().len(), 1);
    assert_eq!(pd.achievements()[0].id, 3);
}

#[test]
fn reset_discards_records() {
    let mut pd = PlayerData::new(GameData::new());
    pd.process_items(vec![material(1, 10, 5)]);
    pd.process_characters(vec![character(100, vec![1])]);
    pd.reset();
    assert!(pd.items().is_empty());
    assert!(pd.characters().is_empty());
    assert_eq!(pd.equip_location(1), None);
}
