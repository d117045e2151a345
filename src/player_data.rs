//! The player data aggregator: the latest snapshot of each record category,
//! and the export of that snapshot to a GOOD document.

use std::collections::HashMap;
use vstd::prelude::*;

use crate::export::{
    export_artifact, export_artifacts, export_character, export_characters, export_document,
    export_materials, export_weapon, export_weapons, lemma_find_key, location_of, merge_material,
    merge_substat, refinement_of, substats_of, talent_scan, ASCENSION_PROP, LEVEL_PROP,
    PLAYABLE_AVATAR,
};
use crate::game_data::{GameData, SkillType};
use crate::good::{
    format_tag, opt_view, source_tag, to_good_key, views, Artifact, Character, Good,
    MaterialCount, MaterialCountView, Substat, SubstatView, TalentLevel, Weapon, GOOD_VERSION,
};
use crate::records::{AchievementRecord, CharacterRecord, EquipPayload, ItemDetail, ItemRecord};

verus! {

/// Filters applied by the export: which sections to build, and inclusive
/// lower bounds on the exported records.
#[derive(Clone, Copy, Debug, PartialEq, Eq, Structural)]
pub struct ExportSettings {
    pub include_characters: bool,
    pub include_artifacts: bool,
    pub include_weapons: bool,
    pub include_materials: bool,
    pub min_character_level: u32,
    pub min_character_ascension: u32,
    pub min_character_constellation: u32,
    pub min_artifact_level: u32,
    pub min_artifact_rarity: u32,
    pub min_weapon_level: u32,
    pub min_weapon_refinement: u32,
    pub min_weapon_ascension: u32,
    pub min_weapon_rarity: u32,
}

/// `m` with each reference id of `guids`, in order, mapped to `id`.
pub open spec fn insert_all(m: Map<u64, u32>, guids: Seq<u64>, id: u32) -> Map<u64, u32>
    decreases guids.len(),
{
    if guids.len() == 0 {
        m
    } else {
        insert_all(m, guids.drop_last(), id).insert(guids.last(), id)
    }
}

/// The map from equipped reference id to owning character id that a batch
/// of characters gives; a later entry overwrites an earlier one.
pub open spec fn equip_map_of(chars: Seq<CharacterRecord>) -> Map<u64, u32>
    decreases chars.len(),
{
    if chars.len() == 0 {
        Map::empty()
    } else {
        insert_all(equip_map_of(chars.drop_last()), chars.last().equip_guid_list@, chars.last().avatar_id)
    }
}

/// The stored records of a [`PlayerData`].
pub struct PlayerDataView {
    pub achievements: Seq<AchievementRecord>,
    pub characters: Seq<CharacterRecord>,
    pub items: Seq<ItemRecord>,
    pub equip_map: Map<u64, u32>,
}

/// The records after a batch of items: the item list is replaced.
pub open spec fn after_items(v: PlayerDataView, batch: Seq<ItemRecord>) -> PlayerDataView {
    PlayerDataView { items: batch, ..v }
}

/// The records after a batch of characters: the character list is replaced
/// and the equip map rebuilt from it alone.
pub open spec fn after_characters(v: PlayerDataView, batch: Seq<CharacterRecord>) -> PlayerDataView {
    PlayerDataView { characters: batch, equip_map: equip_map_of(batch), ..v }
}

/// The records after a batch of achievements: the achievement list is replaced.
pub open spec fn after_achievements(v: PlayerDataView, batch: Seq<AchievementRecord>) -> PlayerDataView {
    PlayerDataView { achievements: batch, ..v }
}

/// Adds a roll of `value` on the property `key` to the substats built so far.
fn add_substat(acc: &mut Vec<Substat>, key: &String, value: u64)
    ensures
        views(final(acc)@) == merge_substat(views(old(acc)@), key@, value),
{
    let ghost keys = views(acc@).map_values(|s: SubstatView| s.key);
    let mut j: usize = 0;
    while j < acc.len()
        invariant
            j <= acc.len(),
            acc@ == old(acc)@,
            keys == views(old(acc)@).map_values(|s: SubstatView| s.key),
            forall|k: int| 0 <= k < j ==> keys[k] != key@,
        decreases acc.len() - j,
    {
        if acc[j].key == *key {
            proof {
                lemma_find_key(keys, key@, j as int);
            }
            let v = acc[j].value.saturating_add(value);
            acc.set(j, Substat { key: key.clone(), value: v });
            proof {
                assert(views(acc@) =~= views(old(acc)@).update(
                    j as int,
                    SubstatView { key: key@, value: v },
                ));
            }
            return;
        }
        j += 1;
    }
    proof {
        lemma_find_key(keys, key@, j as int);
    }
    acc.push(Substat { key: key.clone(), value });
    proof {
        assert(views(acc@) =~= views(old(acc)@).push(SubstatView { key: key@, value }));
    }
}

/// Adds `count` of the material `key` to the section built so far.
fn add_material(acc: &mut Vec<MaterialCount>, key: String, count: u32)
    ensures
        views(final(acc)@) == merge_material(views(old(acc)@), key@, count),
{
    let ghost keys = views(acc@).map_values(|m: MaterialCountView| m.key);
    let mut j: usize = 0;
    while j < acc.len()
        invariant
            j <= acc.len(),
            acc@ == old(acc)@,
            keys == views(old(acc)@).map_values(|m: MaterialCountView| m.key),
            forall|k: int| 0 <= k < j ==> keys[k] != key@,
        decreases acc.len() - j,
    {
        if acc[j].key == key {
            proof {
                lemma_find_key(keys, key@, j as int);
            }
            let c = acc[j].count.saturating_add(count);
            let ghost k = key@;
            acc.set(j, MaterialCount { key, count: c });
            proof {
                assert(views(acc@) =~= views(old(acc)@).update(
                    j as int,
                    MaterialCountView { key: k, count: c },
                ));
            }
            return;
        }
        j += 1;
    }
    proof {
        lemma_find_key(keys, key@, j as int);
    }
    let ghost k = key@;
    acc.push(MaterialCount { key, count });
    proof {
        assert(views(acc@) =~= views(old(acc)@).push(MaterialCountView { key: k, count }));
    }
}

/// A batch of items replaces the stored items whatever came before: two
/// batches in a row leave the second one, as that batch alone would.
pub proof fn lemma_items_replaced(v: PlayerDataView, first: Seq<ItemRecord>, second: Seq<ItemRecord>)
    ensures
        after_items(after_items(v, first), second).items == second,
        after_items(after_items(v, first), second) == after_items(v, second),
{
}

/// A batch of characters replaces the stored characters and the equip map
/// whatever came before: no entry of an earlier batch survives.
pub proof fn lemma_characters_replaced(
    v: PlayerDataView,
    first: Seq<CharacterRecord>,
    second: Seq<CharacterRecord>,
)
    ensures
        after_characters(after_characters(v, first), second).equip_map == equip_map_of(second),
        after_characters(after_characters(v, first), second) == after_characters(v, second),
{
}

/// Inserting reference ids: a key is present where it was or where it is
/// inserted, and an inserted key maps to the inserted id.
proof fn lemma_insert_all(m: Map<u64, u32>, guids: Seq<u64>, id: u32, k: u64)
    ensures
        insert_all(m, guids, id).contains_key(k) <==> (m.contains_key(k) || guids.contains(k)),
        insert_all(m, guids, id).contains_key(k) ==> insert_all(m, guids, id)[k] == if guids.contains(k) {
            id
        } else {
            m[k]
        },
    decreases guids.len(),
{
    if guids.len() > 0 {
        let prev = guids.drop_last();
        lemma_insert_all(m, prev, id, k);
        if guids.last() == k {
            assert(guids[guids.len() - 1] == k);
        }
        if prev.contains(k) {
            let i = choose|i: int| 0 <= i < prev.len() && prev[i] == k;
            assert(guids[i] == k);
        }
        if guids.contains(k) && guids.last() != k {
            let i = choose|i: int| 0 <= i < guids.len() && guids[i] == k;
            assert(prev[i] == k);
        }
    }
}

/// The equip map of a batch holds exactly the reference ids that the
/// batch's characters list, each mapped to the last character that lists it.
pub proof fn lemma_equip_map_exact(batch: Seq<CharacterRecord>, k: u64)
    ensures
        equip_map_of(batch).contains_key(k) <==> exists|i: int|
            0 <= i < batch.len() && batch[i].equip_guid_list@.contains(k),
        equip_map_of(batch).contains_key(k) ==> exists|i: int|
            0 <= i < batch.len() && batch[i].equip_guid_list@.contains(k) && equip_map_of(batch)[k]
                == batch[i].avatar_id && forall|j: int|
                i < j < batch.len() ==> !batch[j].equip_guid_list@.contains(k),
    decreases batch.len(),
{
    if batch.len() > 0 {
        let prev = batch.drop_last();
        let last = batch.len() - 1;
        lemma_equip_map_exact(prev, k);
        lemma_insert_all(equip_map_of(prev), batch.last().equip_guid_list@, batch.last().avatar_id, k);
        if batch.last().equip_guid_list@.contains(k) {
            assert(batch[last].equip_guid_list@.contains(k));
        } else {
            if equip_map_of(prev).contains_key(k) {
                let i = choose|i: int|
                    0 <= i < prev.len() && prev[i].equip_guid_list@.contains(k) && equip_map_of(prev)[k]
                        == prev[i].avatar_id && forall|j: int|
                        i < j < prev.len() ==> !prev[j].equip_guid_list@.contains(k);
                assert(batch[i] == prev[i]);
                assert forall|j: int| i < j < batch.len() implies !batch[j].equip_guid_list@.contains(k) by {
                    if j < last {
                        assert(batch[j] == prev[j]);
                    }
                }
            }
            if exists|i: int| 0 <= i < batch.len() && batch[i].equip_guid_list@.contains(k) {
                let i = choose|i: int| 0 <= i < batch.len() && batch[i].equip_guid_list@.contains(k);
                assert(i != last);
                assert(prev[i] == batch[i]);
            }
        }
    }
}

/// The latest snapshot of the player's records, with the game database that
/// the export consults.
pub struct PlayerData {
    game_data: GameData,
    achievements: Vec<AchievementRecord>,
    characters: Vec<CharacterRecord>,
    items: Vec<ItemRecord>,
    character_equip_guid_map: HashMap<u64, u32>,
}

impl View for PlayerData {
    type V = PlayerDataView;

    closed spec fn view(&self) -> PlayerDataView {
        PlayerDataView {
            achievements: self.achievements@,
            characters: self.characters@,
            items: self.items@,
            equip_map: self.character_equip_guid_map@,
        }
    }
}

impl PlayerData {
    /// The game database that the export consults.
    pub closed spec fn spec_game_data(&self) -> GameData {
        self.game_data
    }

    /// The equip map is the one that the stored characters give.
    pub open spec fn wf(&self) -> bool {
        self@.equip_map == equip_map_of(self@.characters)
    }

    /// An aggregator with no records.
    pub fn new(game_data: GameData) -> (r: PlayerData)
        ensures
            r.wf(),
            r@.achievements.len() == 0,
            r@.characters.len() == 0,
            r@.items.len() == 0,
            r@.equip_map == Map::<u64, u32>::empty(),
            r.spec_game_data() == game_data,
    {
        PlayerData {
            game_data,
            achievements: Vec::new(),
            characters: Vec::new(),
            items: Vec::new(),
            character_equip_guid_map: HashMap::new(),
        }
    }

    /// The game database that the export consults.
    pub fn game_data(&self) -> (r: &GameData)
        ensures
            *r == self.spec_game_data(),
    {
        &self.game_data
    }

    /// The stored achievements.
    pub fn achievements(&self) -> (r: &Vec<AchievementRecord>)
        ensures
            r@ == self@.achievements,
    {
        &self.achievements
    }

    /// The stored characters.
    pub fn characters(&self) -> (r: &Vec<CharacterRecord>)
        ensures
            r@ == self@.characters,
    {
        &self.characters
    }

    /// The stored items.
    pub fn items(&self) -> (r: &Vec<ItemRecord>)
        ensures
            r@ == self@.items,
    {
        &self.items
    }

    /// The id of the character that holds the item `guid`, if any.
    pub fn equip_location(&self, guid: u64) -> (r: Option<u32>)
        ensures
            r == (if self@.equip_map.contains_key(guid) {
                Some(self@.equip_map[guid])
            } else {
                None::<u32>
            }),
    {
        match self.character_equip_guid_map.get(&guid) {
            Some(id) => Some(*id),
            None => None,
        }
    }

    /// Discards every stored record; the database stays.
    pub fn reset(&mut self)
        ensures
            final(self).wf(),
            final(self)@.achievements.len() == 0,
            final(self)@.characters.len() == 0,
            final(self)@.items.len() == 0,
            final(self)@.equip_map == Map::<u64, u32>::empty(),
            final(self).spec_game_data() == old(self).spec_game_data(),
    {
        self.achievements = Vec::new();
        self.characters = Vec::new();
        self.items = Vec::new();
        self.character_equip_guid_map.clear();
    }

    /// Replaces the stored achievements with `achievements`.
    pub fn process_achievements(&mut self, achievements: Vec<AchievementRecord>)
        requires
            old(self).wf(),
        ensures
            final(self).wf(),
            final(self)@ == after_achievements(old(self)@, achievements@),
            final(self).spec_game_data() == old(self).spec_game_data(),
    {
        self.achievements = achievements;
    }

    /// Replaces the stored characters with `avatars` and rebuilds the equip
    /// map from them alone.
    pub fn process_characters(&mut self, avatars: Vec<CharacterRecord>)
        requires
            old(self).wf(),
        ensures
            final(self).wf(),
            final(self)@ == after_characters(old(self)@, avatars@),
            final(self).spec_game_data() == old(self).spec_game_data(),
    {
        self.character_equip_guid_map.clear();
        let mut i: usize = 0;
        while i < avatars.len()
            invariant
                i <= avatars.len(),
                self.game_data == old(self).game_data,
                self.achievements == old(self).achievements,
                self.items == old(self).items,
                self.character_equip_guid_map@ == equip_map_of(avatars@.take(i as int)),
            decreases avatars.len() - i,
        {
            let avatar = &avatars[i];
            let mut j: usize = 0;
            while j < avatar.equip_guid_list.len()
                invariant
                    i < avatars.len(),
                    self.game_data == old(self).game_data,
                    self.achievements == old(self).achievements,
                    self.items == old(self).items,
                    avatar == avatars@[i as int],
                    j <= avatar.equip_guid_list.len(),
                    self.character_equip_guid_map@ == insert_all(
                        equip_map_of(avatars@.take(i as int)),
                        avatar.equip_guid_list@.take(j as int),
                        avatar.avatar_id,
                    ),
                decreases avatar.equip_guid_list.len() - j,
            {
                proof {
                    assert(avatar.equip_guid_list@.take(j + 1).drop_last()
                        == avatar.equip_guid_list@.take(j as int));
                }
                self.character_equip_guid_map.insert(avatar.equip_guid_list[j], avatar.avatar_id);
                j += 1;
            }
            proof {
                assert(avatar.equip_guid_list@.take(j as int) == avatar.equip_guid_list@);
                assert(avatars@.take(i + 1).drop_last() == avatars@.take(i as int));
            }
            i += 1;
        }
        proof {
            assert(avatars@.take(i as int) == avatars@);
        }
        self.characters = avatars;
    }

    /// Replaces the stored items with `items`.
    pub fn process_items(&mut self, items: Vec<ItemRecord>)
        requires
            old(self).wf(),
        ensures
            final(self).wf(),
            final(self)@ == after_items(old(self)@, items@),
            final(self).spec_game_data() == old(self).spec_game_data(),
    {
        self.items = items;
    }

    /// The canonical key of the character that holds the item `guid`, or
    /// the empty string.
    fn location(&self, guid: u64) -> (r: String)
        ensures
            r@ == location_of(self.game_data, self.character_equip_guid_map@, guid),
    {
        match self.character_equip_guid_map.get(&guid) {
            Some(id) => match self.game_data.characters.get(id) {
                Some(name) => to_good_key(name.as_str()),
                None => String::new(),
            },
            None => String::new(),
        }
    }

    /// The exported form of `item`, if it is an artifact that passes the
    /// settings.
    fn export_artifact_item(&self, item: &ItemRecord, settings: &ExportSettings) -> (r: Option<Artifact>)
        ensures
            opt_view(r) == export_artifact(self.game_data, self.character_equip_guid_map@, *item, *settings),
    {
        match &item.detail {
            ItemDetail::Equip { is_locked, payload: EquipPayload::Reliquary(artifact) } => {
                let location = self.location(item.guid);
                let artifact_data = match self.game_data.artifacts.get(&item.item_id) {
                    Some(d) => d,
                    None => return None,
                };
                let ghost ids = artifact.append_prop_id_list@;
                let mut substats: Vec<Substat> = Vec::new();
                let mut i: usize = 0;
                while i < artifact.append_prop_id_list.len()
                    invariant
                        i <= ids.len(),
                        ids == artifact.append_prop_id_list@,
                        views(substats@) == substats_of(self.game_data, ids.take(i as int)),
                    decreases ids.len() - i,
                {
                    proof {
                        assert(ids.take(i + 1).drop_last() == ids.take(i as int));
                    }
                    match self.game_data.affixes.get(&artifact.append_prop_id_list[i]) {
                        Some(affix) => add_substat(&mut substats, &affix.property, affix.value),
                        None => {},
                    }
                    i += 1;
                }
                proof {
                    assert(ids.take(i as int) == ids);
                }
                let level = artifact.level.saturating_sub(1);
                let rarity = artifact_data.rarity;
                let main_stat_key = match self.game_data.properties.get(&artifact.main_prop_id) {
                    Some(p) => p.clone(),
                    None => return None,
                };
                if level < settings.min_artifact_level || rarity < settings.min_artifact_rarity {
                    return None;
                }
                Some(Artifact {
                    set_key: to_good_key(artifact_data.set.as_str()),
                    slot_key: artifact_data.slot_key.clone(),
                    level,
                    rarity,
                    main_stat_key,
                    location,
                    lock: *is_locked,
                    substats,
                })
            },
            _ => None,
        }
    }

    /// The artifact section of the export: each stored artifact that the
    /// database knows and that passes the settings, in stored order.
    pub fn export_genshin_optimizer_artifacts(&self, settings: &ExportSettings) -> (r: Vec<Artifact>)
        ensures
            views(r@) == export_artifacts(self.spec_game_data(), self@.equip_map, self@.items, *settings),
    {
        let mut out: Vec<Artifact> = Vec::new();
        let mut i: usize = 0;
        while i < self.items.len()
            invariant
                i <= self.items.len(),
                views(out@) == export_artifacts(
                    self.game_data,
                    self.character_equip_guid_map@,
                    self.items@.take(i as int),
                    *settings,
                ),
            decreases self.items.len() - i,
        {
            proof {
                assert(self.items@.take(i + 1).drop_last() == self.items@.take(i as int));
            }
            match self.export_artifact_item(&self.items[i], settings) {
                Some(a) => {
                    let ghost prev = out@;
                    out.push(a);
                    proof {
                        assert(views(out@) =~= views(prev).push(a@));
                    }
                },
                None => {},
            }
            i += 1;
        }
        proof {
            assert(self.items@.take(i as int) == self.items@);
        }
        out
    }

    /// The skill levels of a character with the (skill id, level) pairs
    /// `skills`.
    fn talent_levels(&self, skills: &Vec<(u32, u32)>) -> (r: TalentLevel)
        ensures
            r == talent_scan(self.game_data, skills@),
    {
        let mut auto: u32 = 1;
        let mut skill: u32 = 1;
        let mut burst: u32 = 1;
        let mut i: usize = 0;
        while i < skills.len()
            invariant
                i <= skills.len(),
                (TalentLevel { auto, skill, burst }) == talent_scan(self.game_data, skills@.take(i as int)),
            decreases skills.len() - i,
        {
            proof {
                assert(skills@.take(i + 1).drop_last() == skills@.take(i as int));
            }
            let (id, level) = skills[i];
            match self.game_data.skill_types.get(&id) {
                Some(SkillType::Auto) => auto = level,
                Some(SkillType::Skill) => skill = level,
                Some(SkillType::Burst) => burst = level,
                None => {},
            }
            i += 1;
        }
        proof {
            assert(skills@.take(i as int) == skills@);
        }
        TalentLevel { auto, skill, burst }
    }

    /// The exported form of `character`, if it passes the settings.
    fn export_character_record(&self, character: &CharacterRecord, settings: &ExportSettings) -> (r: Option<Character>)
        ensures
            opt_view(r) == export_character(self.game_data, *character, *settings),
    {
        if character.avatar_type != PLAYABLE_AVATAR {
            return None;
        }
        let name = match self.game_data.characters.get(&character.avatar_id) {
            Some(n) => n,
            None => return None,
        };
        let level = match character.prop_map.get(&LEVEL_PROP) {
            Some(v) => *v as u32,
            None => return None,
        };
        let ascension = match character.prop_map.get(&ASCENSION_PROP) {
            Some(v) => *v as u32,
            None => return None,
        };
        let constellation = character.talent_id_list.len() as u32;
        let talent = self.talent_levels(&character.skill_level_map);
        if level < settings.min_character_level || ascension < settings.min_character_ascension
            || constellation < settings.min_character_constellation {
            return None;
        }
        Some(Character { key: to_good_key(name.as_str()), level, constellation, ascension, talent })
    }

    /// The character section of the export: each stored playable character
    /// that the database knows, that has a level and an ascension, and that
    /// passes the settings, in stored order.
    pub fn export_genshin_optimizer_characters(&self, settings: &ExportSettings) -> (r: Vec<Character>)
        ensures
            views(r@) == export_characters(self.spec_game_data(), self@.characters, *settings),
    {
        let mut out: Vec<Character> = Vec::new();
        let mut i: usize = 0;
        while i < self.characters.len()
            invariant
                i <= self.characters.len(),
                views(out@) == export_characters(self.game_data, self.characters@.take(i as int), *settings),
            decreases self.characters.len() - i,
        {
            proof {
                assert(self.characters@.take(i + 1).drop_last() == self.characters@.take(i as int));
            }
            match self.export_character_record(&self.characters[i], settings) {
                Some(c) => {
                    let ghost prev = out@;
                    out.push(c);
                    proof {
                        assert(views(out@) =~= views(prev).push(c@));
                    }
                },
                None => {},
            }
            i += 1;
        }
        proof {
            assert(self.characters@.take(i as int) == self.characters@);
        }
        out
    }

    /// The exported form of `item`, if it is a weapon that passes the
    /// settings.
    fn export_weapon_item(&self, item: &ItemRecord, settings: &ExportSettings) -> (r: Option<Weapon>)
        ensures
            opt_view(r) == export_weapon(self.game_data, self.character_equip_guid_map@, *item, *settings),
    {
        match &item.detail {
            ItemDetail::Equip { is_locked, payload: EquipPayload::Weapon(weapon) } => {
                let location = self.location(item.guid);
                let weapon_data = match self.game_data.weapons.get(&item.item_id) {
                    Some(d) => d,
                    None => return None,
                };
                let refinement = if weapon.affix_map.len() == 0 {
                    1
                } else {
                    weapon.affix_map[0].1.saturating_add(1)
                };
                proof {
                    assert(refinement == refinement_of(*weapon));
                }
                let level = weapon.level;
                let ascension = weapon.promote_level;
                if level < settings.min_weapon_level || refinement < settings.min_weapon_refinement
                    || ascension < settings.min_weapon_ascension
                    || weapon_data.rarity < settings.min_weapon_rarity {
                    return None;
                }
                Some(Weapon {
                    key: to_good_key(weapon_data.name.as_str()),
                    level,
                    ascension,
                    refinement,
                    location,
                    lock: *is_locked,
                })
            },
            _ => None,
        }
    }

    /// The weapon section of the export: each stored weapon that the
    /// database knows and that passes the settings, in stored order.
    pub fn export_genshin_optimizer_weapons(&self, settings: &ExportSettings) -> (r: Vec<Weapon>)
        ensures
            views(r@) == export_weapons(self.spec_game_data(), self@.equip_map, self@.items, *settings),
    {
        let mut out: Vec<Weapon> = Vec::new();
        let mut i: usize = 0;
        while i < self.items.len()
            invariant
                i <= self.items.len(),
                views(out@) == export_weapons(
                    self.game_data,
                    self.character_equip_guid_map@,
                    self.items@.take(i as int),
                    *settings,
                ),
            decreases self.items.len() - i,
        {
            proof {
                assert(self.items@.take(i + 1).drop_last() == self.items@.take(i as int));
            }
            match self.export_weapon_item(&self.items[i], settings) {
                Some(w) => {
                    let ghost prev = out@;
                    out.push(w);
                    proof {
                        assert(views(out@) =~= views(prev).push(w@));
                    }
                },
                None => {},
            }
            i += 1;
        }
        proof {
            assert(self.items@.take(i as int) == self.items@);
        }
        out
    }

    /// The material section of the export: for each material key, the
    /// summed count (saturating) of the stored material items whose type
    /// has that key, in order of first item.
    pub fn export_genshin_optimizer_materials(&self) -> (r: Vec<MaterialCount>)
        ensures
            views(r@) == export_materials(self.spec_game_data(), self@.items),
    {
        let mut out: Vec<MaterialCount> = Vec::new();
        let mut i: usize = 0;
        while i < self.items.len()
            invariant
                i <= self.items.len(),
                views(out@) == export_materials(self.game_data, self.items@.take(i as int)),
            decreases self.items.len() - i,
        {
            proof {
                assert(self.items@.take(i + 1).drop_last() == self.items@.take(i as int));
            }
            let item = &self.items[i];
            match &item.detail {
                ItemDetail::Material { count } => {
                    match self.game_data.materials.get(&item.item_id) {
                        Some(name) => add_material(&mut out, to_good_key(name.as_str()), *count),
                        None => {},
                    }
                },
                _ => {},
            }
            i += 1;
        }
        proof {
            assert(self.items@.take(i as int) == self.items@);
        }
        out
    }

    /// Builds the export document: each section whose include flag is set,
    /// the others empty.
    pub fn export_genshin_optimizer(&self, settings: &ExportSettings) -> (r: Good)
        ensures
            r@ == export_document(self.spec_game_data(), self@, *settings),
    {
        let mut good = Good {
            format: "GOOD".to_owned(),
            version: GOOD_VERSION,
            source: "Irminsul".to_owned(),
            characters: Vec::new(),
            artifacts: Vec::new(),
            weapons: Vec::new(),
            materials: Vec::new(),
        };
        proof {
            reveal_strlit("GOOD");
            reveal_strlit("Irminsul");
            assert(good.format@ =~= format_tag());
            assert(good.source@ =~= source_tag());
        }
        if settings.include_characters {
            good.characters = self.export_genshin_optimizer_characters(settings);
        }
        if settings.include_artifacts {
            good.artifacts = self.export_genshin_optimizer_artifacts(settings);
        }
        if settings.include_weapons {
            good.weapons = self.export_genshin_optimizer_weapons(settings);
        }
        if settings.include_materials {
            good.materials = self.export_genshin_optimizer_materials();
        }
        proof {
            assert(views(Seq::<Character>::empty()) =~= Seq::empty());
            assert(views(Seq::<Artifact>::empty()) =~= Seq::empty());
            assert(views(Seq::<Weapon>::empty()) =~= Seq::empty());
            assert(views(Seq::<MaterialCount>::empty()) =~= Seq::empty());
        }
        good
    }
}

} // verus!
