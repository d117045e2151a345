//! The game database: read-only lookup tables from numeric ids to names and
//! metadata. Every lookup may miss.

use std::collections::HashMap;
use vstd::prelude::*;

verus! {

/// The kind of a character skill.
#[derive(Clone, Copy, Debug, PartialEq, Eq, Structural)]
pub enum SkillType {
    Auto,
    Skill,
    Burst,
}

/// What the database knows of an artifact item type.
pub struct ArtifactData {
    /// Display name of the artifact set.
    pub set: String,
    /// Canonical key of the slot ("flower", "plume", ...).
    pub slot_key: String,
    pub rarity: u32,
}

/// A substat roll: the canonical key of the property it raises and by how
/// much, in millionths of the property's unit.
pub struct Affix {
    pub property: String,
    pub value: u64,
}

/// What the database knows of a weapon item type.
pub struct WeaponData {
    /// Display name of the weapon.
    pub name: String,
    pub rarity: u32,
}

/// The lookup tables that the export consults.
pub struct GameData {
    /// Character id to display name.
    pub characters: HashMap<u32, String>,
    /// Skill id to skill kind.
    pub skill_types: HashMap<u32, SkillType>,
    /// Artifact item type id to its metadata.
    pub artifacts: HashMap<u32, ArtifactData>,
    /// Affix id to the substat roll it stands for.
    pub affixes: HashMap<u32, Affix>,
    /// Property id to the canonical key of the property.
    pub properties: HashMap<u32, String>,
    /// Weapon item type id to its metadata.
    pub weapons: HashMap<u32, WeaponData>,
    /// Material item type id to display name.
    pub materials: HashMap<u32, String>,
}

impl GameData {
    /// A database with empty tables.
    pub fn new() -> (r: GameData)
        ensures
            r.characters@ == Map::<u32, String>::empty(),
            r.skill_types@ == Map::<u32, SkillType>::empty(),
            r.artifacts@ == Map::<u32, ArtifactData>::empty(),
            r.affixes@ == Map::<u32, Affix>::empty(),
            r.properties@ == Map::<u32, String>::empty(),
            r.weapons@ == Map::<u32, WeaponData>::empty(),
            r.materials@ == Map::<u32, String>::empty(),
    {
        GameData {
            characters: HashMap::new(),
            skill_types: HashMap::new(),
            artifacts: HashMap::new(),
            affixes: HashMap::new(),
            properties: HashMap::new(),
            weapons: HashMap::new(),
            materials: HashMap::new(),
        }
    }
}

} // verus!
