//! The records that the protocol decoder hands over.

use std::collections::HashMap;
use vstd::prelude::*;

verus! {

/// A decoded character ("avatar") record.
pub struct CharacterRecord {
    /// 1 for a playable character owned by the player; other values mark
    /// trial characters and the like.
    pub avatar_type: u32,
    pub avatar_id: u32,
    /// Property id to value.
    pub prop_map: HashMap<u32, i64>,
    /// (skill id, level) pairs.
    pub skill_level_map: Vec<(u32, u32)>,
    /// Unlocked talent ids; their count is the constellation.
    pub talent_id_list: Vec<u32>,
    /// Reference ids of the equipped items.
    pub equip_guid_list: Vec<u64>,
}

/// An artifact as stored in the inventory.
pub struct ReliquaryRecord {
    /// Stored one above the upgrade count.
    pub level: u32,
    pub main_prop_id: u32,
    /// Affix ids of the substat rolls; an id may repeat.
    pub append_prop_id_list: Vec<u32>,
}

/// A weapon as stored in the inventory.
pub struct WeaponRecord {
    pub level: u32,
    pub promote_level: u32,
    /// (affix id, refinement index) pairs.
    pub affix_map: Vec<(u32, u32)>,
}

/// What an equippable item is.
pub enum EquipPayload {
    Reliquary(ReliquaryRecord),
    Weapon(WeaponRecord),
}

/// What an inventory item holds.
pub enum ItemDetail {
    Equip { is_locked: bool, payload: EquipPayload },
    Material { count: u32 },
}

/// A decoded inventory item.
pub struct ItemRecord {
    /// Item type id.
    pub item_id: u32,
    /// Reference id of this particular item.
    pub guid: u64,
    pub detail: ItemDetail,
}

/// A decoded achievement record.
pub struct AchievementRecord {
    pub id: u32,
    pub status: u32,
    pub current_progress: u32,
    pub total_progress: u32,
    pub finish_timestamp: u32,
}

} // verus!
