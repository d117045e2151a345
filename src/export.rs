//! What the export produces from a snapshot of player records.

use vstd::prelude::*;

use crate::game_data::{GameData, SkillType};
use crate::good::{
    format_tag, good_key, source_tag, ArtifactView, CharacterView, GoodView, MaterialCountView,
    SubstatView, TalentLevel, WeaponView, GOOD_VERSION,
};
use crate::player_data::{ExportSettings, PlayerDataView};
use crate::records::{CharacterRecord, EquipPayload, ItemDetail, ItemRecord, WeaponRecord};

verus! {

/// Property id of a character's level.
pub const LEVEL_PROP: u32 = 4001;

/// Property id of a character's ascension.
pub const ASCENSION_PROP: u32 = 1002;

/// `avatar_type` of a playable character owned by the player.
pub const PLAYABLE_AVATAR: u32 = 1;

/// Skill levels after the (skill id, level) pairs `skills`, in order: each
/// pair whose skill kind is known sets the level of that kind; a kind that
/// no pair sets stays at 1.
pub open spec fn talent_scan(db: GameData, skills: Seq<(u32, u32)>) -> TalentLevel
    decreases skills.len(),
{
    if skills.len() == 0 {
        TalentLevel { auto: 1, skill: 1, burst: 1 }
    } else {
        let t = talent_scan(db, skills.drop_last());
        let id = skills.last().0;
        let level = skills.last().1;
        if db.skill_types@.contains_key(id) {
            match db.skill_types@[id] {
                SkillType::Auto => TalentLevel { auto: level, ..t },
                SkillType::Skill => TalentLevel { skill: level, ..t },
                SkillType::Burst => TalentLevel { burst: level, ..t },
            }
        } else {
            t
        }
    }
}

/// The exported form of one character record, if it is exported.
pub open spec fn export_character(db: GameData, c: CharacterRecord, st: ExportSettings) -> Option<CharacterView> {
    if c.avatar_type != PLAYABLE_AVATAR || !db.characters@.contains_key(c.avatar_id)
        || !c.prop_map@.contains_key(LEVEL_PROP) || !c.prop_map@.contains_key(ASCENSION_PROP) {
        None
    } else {
        let level = c.prop_map@[LEVEL_PROP] as u32;
        let ascension = c.prop_map@[ASCENSION_PROP] as u32;
        let constellation = c.talent_id_list@.len() as u32;
        if level < st.min_character_level || ascension < st.min_character_ascension
            || constellation < st.min_character_constellation {
            None
        } else {
            Some(CharacterView {
                key: good_key(db.characters@[c.avatar_id]@),
                level,
                constellation,
                ascension,
                talent: talent_scan(db, c.skill_level_map@),
            })
        }
    }
}

/// The character section: the exported forms of `chars`, in order.
pub open spec fn export_characters(db: GameData, chars: Seq<CharacterRecord>, st: ExportSettings) -> Seq<CharacterView>
    decreases chars.len(),
{
    if chars.len() == 0 {
        Seq::empty()
    } else {
        let prev = export_characters(db, chars.drop_last(), st);
        match export_character(db, chars.last(), st) {
            Some(c) => prev.push(c),
            None => prev,
        }
    }
}

/// The canonical key of the character that holds the item `guid`, or the
/// empty string where the equip map or the database has no answer.
pub open spec fn location_of(db: GameData, equip_map: Map<u64, u32>, guid: u64) -> Seq<char> {
    if equip_map.contains_key(guid) && db.characters@.contains_key(equip_map[guid]) {
        good_key(db.characters@[equip_map[guid]]@)
    } else {
        Seq::empty()
    }
}

/// The index of the first of `keys` that equals `key`, or -1.
pub open spec fn find_key(keys: Seq<Seq<char>>, key: Seq<char>) -> int
    decreases keys.len(),
{
    if keys.len() == 0 {
        -1
    } else if keys[0] == key {
        0
    } else {
        let r = find_key(keys.drop_first(), key);
        if r < 0 {
            -1
        } else {
            r + 1
        }
    }
}

/// `acc` with a roll of `value` on the property `key` added: to the entry
/// of that key where there is one, else as a new last entry.
pub open spec fn merge_substat(acc: Seq<SubstatView>, key: Seq<char>, value: u64) -> Seq<SubstatView> {
    let j = find_key(acc.map_values(|s: SubstatView| s.key), key);
    if j >= 0 {
        acc.update(j, SubstatView { key, value: acc[j].value.saturating_add(value) })
    } else {
        acc.push(SubstatView { key, value })
    }
}

/// The substats of an artifact with the affix ids `ids`: one entry per
/// property, in order of first roll, with the magnitudes of its rolls
/// summed; ids that the database lacks are left out.
pub open spec fn substats_of(db: GameData, ids: Seq<u32>) -> Seq<SubstatView>
    decreases ids.len(),
{
    if ids.len() == 0 {
        Seq::empty()
    } else {
        let acc = substats_of(db, ids.drop_last());
        let id = ids.last();
        if db.affixes@.contains_key(id) {
            merge_substat(acc, db.affixes@[id].property@, db.affixes@[id].value)
        } else {
            acc
        }
    }
}

/// The exported form of an item, if it is an artifact that is exported.
pub open spec fn export_artifact(
    db: GameData,
    equip_map: Map<u64, u32>,
    item: ItemRecord,
    st: ExportSettings,
) -> Option<ArtifactView> {
    match item.detail {
        ItemDetail::Equip { is_locked, payload: EquipPayload::Reliquary(r) } => {
            if !db.artifacts@.contains_key(item.item_id) || !db.properties@.contains_key(r.main_prop_id) {
                None
            } else {
                let data = db.artifacts@[item.item_id];
                let level = r.level.saturating_sub(1);
                if level < st.min_artifact_level || data.rarity < st.min_artifact_rarity {
                    None
                } else {
                    Some(ArtifactView {
                        set_key: good_key(data.set@),
                        slot_key: data.slot_key@,
                        level,
                        rarity: data.rarity,
                        main_stat_key: db.properties@[r.main_prop_id]@,
                        location: location_of(db, equip_map, item.guid),
                        lock: is_locked,
                        substats: substats_of(db, r.append_prop_id_list@),
                    })
                }
            }
        },
        _ => None,
    }
}

/// The artifact section: the exported forms of `items`, in order.
pub open spec fn export_artifacts(
    db: GameData,
    equip_map: Map<u64, u32>,
    items: Seq<ItemRecord>,
    st: ExportSettings,
) -> Seq<ArtifactView>
    decreases items.len(),
{
    if items.len() == 0 {
        Seq::empty()
    } else {
        let prev = export_artifacts(db, equip_map, items.drop_last(), st);
        match export_artifact(db, equip_map, items.last(), st) {
            Some(a) => prev.push(a),
            None => prev,
        }
    }
}

/// The refinement of a weapon: one above the index of its first affix
/// entry, or 1 where it has none.
pub open spec fn refinement_of(w: WeaponRecord) -> u32 {
    if w.affix_map@.len() == 0 {
        1
    } else {
        w.affix_map@[0].1.saturating_add(1)
    }
}

/// The exported form of an item, if it is a weapon that is exported.
pub open spec fn export_weapon(
    db: GameData,
    equip_map: Map<u64, u32>,
    item: ItemRecord,
    st: ExportSettings,
) -> Option<WeaponView> {
    match item.detail {
        ItemDetail::Equip { is_locked, payload: EquipPayload::Weapon(w) } => {
            if !db.weapons@.contains_key(item.item_id) {
                None
            } else {
                let data = db.weapons@[item.item_id];
                let refinement = refinement_of(w);
                if w.level < st.min_weapon_level || refinement < st.min_weapon_refinement
                    || w.promote_level < st.min_weapon_ascension || data.rarity < st.min_weapon_rarity {
                    None
                } else {
                    Some(WeaponView {
                        key: good_key(data.name@),
                        level: w.level,
                        ascension: w.promote_level,
                        refinement,
                        location: location_of(db, equip_map, item.guid),
                        lock: is_locked,
                    })
                }
            }
        },
        _ => None,
    }
}

/// The weapon section: the exported forms of `items`, in order.
pub open spec fn export_weapons(
    db: GameData,
    equip_map: Map<u64, u32>,
    items: Seq<ItemRecord>,
    st: ExportSettings,
) -> Seq<WeaponView>
    decreases items.len(),
{
    if items.len() == 0 {
        Seq::empty()
    } else {
        let prev = export_weapons(db, equip_map, items.drop_last(), st);
        match export_weapon(db, equip_map, items.last(), st) {
            Some(w) => prev.push(w),
            None => prev,
        }
    }
}

/// `acc` with `count` more of the material `key`: added to the entry of that
/// key where there is one (saturating), else as a new last entry.
pub open spec fn merge_material(acc: Seq<MaterialCountView>, key: Seq<char>, count: u32) -> Seq<MaterialCountView> {
    let j = find_key(acc.map_values(|m: MaterialCountView| m.key), key);
    if j >= 0 {
        acc.update(j, MaterialCountView { key, count: acc[j].count.saturating_add(count) })
    } else {
        acc.push(MaterialCountView { key, count })
    }
}

/// The material section: for each material key, the sum of the counts of
/// the material items whose type has that key, in order of first item;
/// types that the database lacks are left out.
pub open spec fn export_materials(db: GameData, items: Seq<ItemRecord>) -> Seq<MaterialCountView>
    decreases items.len(),
{
    if items.len() == 0 {
        Seq::empty()
    } else {
        let acc = export_materials(db, items.drop_last());
        let item = items.last();
        match item.detail {
            ItemDetail::Material { count } => {
                if db.materials@.contains_key(item.item_id) {
                    merge_material(acc, good_key(db.materials@[item.item_id]@), count)
                } else {
                    acc
                }
            },
            _ => acc,
        }
    }
}

/// The document that the export gives for a snapshot and settings.
pub open spec fn export_document(db: GameData, v: PlayerDataView, st: ExportSettings) -> GoodView {
    GoodView {
        format: format_tag(),
        version: GOOD_VERSION,
        source: source_tag(),
        characters: if st.include_characters { export_characters(db, v.characters, st) } else { Seq::empty() },
        artifacts: if st.include_artifacts { export_artifacts(db, v.equip_map, v.items, st) } else { Seq::empty() },
        weapons: if st.include_weapons { export_weapons(db, v.equip_map, v.items, st) } else { Seq::empty() },
        materials: if st.include_materials { export_materials(db, v.items) } else { Seq::empty() },
    }
}

/// An aggregator with no records exports a document with the format tag,
/// version 2, the source tag and empty sections.
pub proof fn lemma_empty_export(db: GameData, v: PlayerDataView, st: ExportSettings)
    requires
        v.characters.len() == 0,
        v.items.len() == 0,
    ensures
        export_document(db, v, st) == (GoodView {
            format: format_tag(),
            version: 2,
            source: source_tag(),
            characters: Seq::empty(),
            artifacts: Seq::empty(),
            weapons: Seq::empty(),
            materials: Seq::empty(),
        }),
{
}

/// Two rolls on the same property give one substat holding the sum of
/// their magnitudes.
pub proof fn lemma_substat_merge(db: GameData, first: u32, second: u32)
    requires
        db.affixes@.contains_key(first),
        db.affixes@.contains_key(second),
        db.affixes@[first].property@ == db.affixes@[second].property@,
    ensures
        substats_of(db, seq![first, second]) == seq![
            SubstatView {
                key: db.affixes@[first].property@,
                value: db.affixes@[first].value.saturating_add(db.affixes@[second].value),
            },
        ],
{
    let ids = seq![first, second];
    assert(ids.drop_last() == seq![first]);
    assert(seq![first].drop_last() == Seq::<u32>::empty());
    let one = substats_of(db, seq![first]);
    let e = Seq::<SubstatView>::empty();
    assert(substats_of(db, Seq::<u32>::empty()) == e);
    assert(e.map_values(|s: SubstatView| s.key).len() == 0);
    assert(one =~= seq![SubstatView { key: db.affixes@[first].property@, value: db.affixes@[first].value }]);
    let keys = one.map_values(|s: SubstatView| s.key);
    assert(keys[0] == db.affixes@[second].property@);
    assert(find_key(keys, db.affixes@[second].property@) == 0);
    assert(one.update(0, SubstatView {
        key: db.affixes@[second].property@,
        value: db.affixes@[first].value.saturating_add(db.affixes@[second].value),
    }) =~= seq![
        SubstatView {
            key: db.affixes@[first].property@,
            value: db.affixes@[first].value.saturating_add(db.affixes@[second].value),
        },
    ]);
}

/// A search that finds nothing means that no key equals the one sought; a
/// search that finds an index finds a key that equals it.
proof fn lemma_find_key_found(keys: Seq<Seq<char>>, key: Seq<char>)
    ensures
        -1 <= find_key(keys, key) < keys.len(),
        find_key(keys, key) >= 0 ==> keys[find_key(keys, key)] == key,
        find_key(keys, key) < 0 ==> forall|k: int| 0 <= k < keys.len() ==> keys[k] != key,
    decreases keys.len(),
{
    if keys.len() > 0 && keys[0] != key {
        let rest = keys.drop_first();
        lemma_find_key_found(rest, key);
        assert forall|k: int| 1 <= k < keys.len() implies keys[k] == rest[k - 1] by {}
    }
}

/// The substats of an artifact hold each property once.
pub proof fn lemma_substat_keys_unique(db: GameData, ids: Seq<u32>)
    ensures
        forall|i: int, j: int|
            0 <= i < j < substats_of(db, ids).len() ==> substats_of(db, ids)[i].key != substats_of(db, ids)[j].key,
    decreases ids.len(),
{
    if ids.len() > 0 {
        let acc = substats_of(db, ids.drop_last());
        lemma_substat_keys_unique(db, ids.drop_last());
        let id = ids.last();
        if db.affixes@.contains_key(id) {
            let key = db.affixes@[id].property@;
            let keys = acc.map_values(|s: SubstatView| s.key);
            lemma_find_key_found(keys, key);
            let out = merge_substat(acc, key, db.affixes@[id].value);
            assert forall|i: int, j: int| 0 <= i < j < out.len() implies out[i].key != out[j].key by {
                assert(keys[i] == acc[i].key);
                if j < acc.len() {
                    assert(keys[j] == acc[j].key);
                }
            }
        }
    }
}

/// The saturating total of the magnitudes of the rolls among `ids` on the
/// property `key`.
pub open spec fn roll_total(db: GameData, ids: Seq<u32>, key: Seq<char>) -> u64
    decreases ids.len(),
{
    if ids.len() == 0 {
        0
    } else {
        let t = roll_total(db, ids.drop_last(), key);
        let id = ids.last();
        if db.affixes@.contains_key(id) && db.affixes@[id].property@ == key {
            t.saturating_add(db.affixes@[id].value)
        } else {
            t
        }
    }
}

/// Some id among `ids` is a roll on the property `key`.
pub open spec fn rolls_on(db: GameData, ids: Seq<u32>, key: Seq<char>) -> bool {
    exists|i: int| 0 <= i < ids.len() && db.affixes@.contains_key(ids[i]) && db.affixes@[ids[i]].property@ == key
}

/// Without a roll on a property its total is 0.
proof fn lemma_roll_total_zero(db: GameData, ids: Seq<u32>, key: Seq<char>)
    requires
        !rolls_on(db, ids, key),
    ensures
        roll_total(db, ids, key) == 0,
    decreases ids.len(),
{
    if ids.len() > 0 {
        let prev = ids.drop_last();
        if rolls_on(db, prev, key) {
            let i = choose|i: int|
                0 <= i < prev.len() && db.affixes@.contains_key(prev[i]) && db.affixes@[prev[i]].property@ == key;
            assert(ids[i] == prev[i]);
        }
        lemma_roll_total_zero(db, prev, key);
        let last = ids.len() - 1;
        assert(ids[last] == ids.last());
    }
}

/// The substats of an artifact are exactly the properties that its rolls
/// raise, each with the (saturating) total of the magnitudes of its rolls.
pub proof fn lemma_substat_totals(db: GameData, ids: Seq<u32>)
    ensures
        forall|i: int|
            0 <= i < substats_of(db, ids).len() ==> {
                let s = #[trigger] substats_of(db, ids)[i];
                &&& s.value == roll_total(db, ids, s.key)
                &&& rolls_on(db, ids, s.key)
            },
        forall|key: Seq<char>|
            #[trigger] rolls_on(db, ids, key) ==> exists|i: int|
                0 <= i < substats_of(db, ids).len() && substats_of(db, ids)[i].key == key,
    decreases ids.len(),
{
    if ids.len() > 0 {
        let prev = ids.drop_last();
        let acc = substats_of(db, prev);
        let out = substats_of(db, ids);
        let id = ids.last();
        let last = ids.len() - 1;
        assert(ids[last] == id);
        lemma_substat_totals(db, prev);
        lemma_substat_keys_unique(db, prev);
        assert forall|key: Seq<char>| rolls_on(db, prev, key) implies rolls_on(db, ids, key) by {
            let i = choose|i: int|
                0 <= i < prev.len() && db.affixes@.contains_key(prev[i]) && db.affixes@[prev[i]].property@ == key;
            assert(ids[i] == prev[i]);
        }
        assert forall|key: Seq<char>|
            rolls_on(db, ids, key) && !(db.affixes@.contains_key(id) && db.affixes@[id].property@ == key)
            implies rolls_on(db, prev, key) by {
            let i = choose|i: int|
                0 <= i < ids.len() && db.affixes@.contains_key(ids[i]) && db.affixes@[ids[i]].property@ == key;
            assert(i != last);
            assert(prev[i] == ids[i]);
        }
        if db.affixes@.contains_key(id) {
            let k = db.affixes@[id].property@;
            let v = db.affixes@[id].value;
            let keys = acc.map_values(|s: SubstatView| s.key);
            lemma_find_key_found(keys, k);
            let j = find_key(keys, k);
            assert(rolls_on(db, ids, k));
            if j >= 0 {
                assert(acc[j].key == keys[j]);
                assert forall|i: int| 0 <= i < out.len() implies {
                    &&& out[i].value == roll_total(db, ids, out[i].key)
                    &&& rolls_on(db, ids, out[i].key)
                } by {
                    if i != j {
                        assert(out[i] == acc[i]);
                        assert(acc[i].key != acc[j].key);
                    }
                }
                assert forall|key: Seq<char>| #[trigger] rolls_on(db, ids, key) implies exists|i: int|
                    0 <= i < out.len() && out[i].key == key by {
                    if key == k {
                        assert(out[j].key == key);
                    } else {
                        let i = choose|i: int| 0 <= i < acc.len() && acc[i].key == key;
                        assert(out[i].key == key);
                    }
                }
            } else {
                assert(forall|i: int| 0 <= i < acc.len() ==> acc[i].key == keys[i]);
                if rolls_on(db, prev, k) {
                    let i = choose|i: int| 0 <= i < acc.len() && acc[i].key == k;
                    assert(keys[i] == k);
                }
                lemma_roll_total_zero(db, prev, k);
                assert forall|i: int| 0 <= i < out.len() implies {
                    &&& out[i].value == roll_total(db, ids, out[i].key)
                    &&& rolls_on(db, ids, out[i].key)
                } by {
                    if i < acc.len() {
                        assert(out[i] == acc[i]);
                        assert(keys[i] != k);
                    }
                }
                assert forall|key: Seq<char>| #[trigger] rolls_on(db, ids, key) implies exists|i: int|
                    0 <= i < out.len() && out[i].key == key by {
                    if key == k {
                        assert(out[acc.len() as int].key == key);
                    } else {
                        let i = choose|i: int| 0 <= i < acc.len() && acc[i].key == key;
                        assert(out[i].key == key);
                    }
                }
            }
        } else {
            assert forall|i: int| 0 <= i < out.len() implies {
                &&& out[i].value == roll_total(db, ids, out[i].key)
                &&& rolls_on(db, ids, out[i].key)
            } by {
                assert(out[i] == acc[i]);
            }
            assert forall|key: Seq<char>| #[trigger] rolls_on(db, ids, key) implies exists|i: int|
                0 <= i < out.len() && out[i].key == key by {
                let i = choose|i: int| 0 <= i < acc.len() && acc[i].key == key;
                assert(out[i].key == key);
            }
        }
    }
}

/// A character below the minimum level is not exported, whatever its other
/// fields: adding it to a batch leaves the character section as it was.
pub proof fn lemma_character_below_min_level(
    db: GameData,
    c: CharacterRecord,
    chars: Seq<CharacterRecord>,
    st: ExportSettings,
)
    requires
        c.prop_map@.contains_key(LEVEL_PROP),
        (c.prop_map@[LEVEL_PROP] as u32) < st.min_character_level,
    ensures
        export_character(db, c, st) is None,
        export_characters(db, chars.push(c), st) == export_characters(db, chars, st),
{
    assert(chars.push(c).drop_last() == chars);
}

/// Every exported character meets the three minimums of the settings.
pub proof fn lemma_exported_characters_meet_minimums(
    db: GameData,
    chars: Seq<CharacterRecord>,
    st: ExportSettings,
)
    ensures
        forall|i: int|
            0 <= i < export_characters(db, chars, st).len() ==> {
                let c = #[trigger] export_characters(db, chars, st)[i];
                &&& c.level >= st.min_character_level
                &&& c.ascension >= st.min_character_ascension
                &&& c.constellation >= st.min_character_constellation
            },
    decreases chars.len(),
{
    if chars.len() > 0 {
        let prev = export_characters(db, chars.drop_last(), st);
        lemma_exported_characters_meet_minimums(db, chars.drop_last(), st);
        let out = export_characters(db, chars, st);
        assert forall|i: int| 0 <= i < out.len() implies {
            &&& out[i].level >= st.min_character_level
            &&& out[i].ascension >= st.min_character_ascension
            &&& out[i].constellation >= st.min_character_constellation
        } by {
            if i < prev.len() {
                assert(out[i] == prev[i]);
            }
        }
    }
}

/// A search from the front that has passed `j` keys unlike `key` finds the
/// first like it at `j`, or none where no key is left.
pub proof fn lemma_find_key(keys: Seq<Seq<char>>, key: Seq<char>, j: int)
    requires
        0 <= j <= keys.len(),
        forall|k: int| 0 <= k < j ==> keys[k] != key,
    ensures
        j < keys.len() && keys[j] == key ==> find_key(keys, key) == j,
        j == keys.len() ==> find_key(keys, key) == -1,
    decreases j,
{
    if j > 0 {
        let rest = keys.drop_first();
        assert forall|k: int| 0 <= k < j - 1 implies rest[k] != key by {
            assert(rest[k] == keys[k + 1]);
        }
        lemma_find_key(rest, key, j - 1);
    }
}

} // verus!
