//! The documents of a world of the fifth-edition game system.

#![allow(non_camel_case_types)]

use vstd::prelude::*;
use crate::json::Json;
use crate::world::{BaseActor, World};

verus! {

/// An actor, by its type.
#[allow(inconsistent_fields)]
#[derive(Debug, PartialEq, Eq)]
pub enum DND5EActor {
    npc { base: BaseActor<DND5EItem, DND5EToken>, system: Json },
    character { base: BaseActor<DND5EItem, DND5EToken>, system: CharacterSystem },
    vehicle { system: Json },
    group { system: Json },
}

/// What the game system records of a player character.
#[derive(Debug, PartialEq, Eq)]
pub struct CharacterSystem {
    pub abilities: Abilities,
    pub attributes: Attributes,
    pub skills: Skills,
}

/// The skills of a character, one entry each.
#[derive(Debug, PartialEq, Eq)]
pub struct Skills {
    pub acrobatics: Skill,
    pub animal_handling: Skill,
    pub arcana: Skill,
    pub athletics: Skill,
    pub deception: Skill,
    pub history: Skill,
    pub insight: Skill,
    pub investigation: Skill,
    pub intimidation: Skill,
    pub medicine: Skill,
    pub nature: Skill,
    pub persuasion: Skill,
    pub perception: Skill,
    pub performance: Skill,
    pub religion: Skill,
    pub sleight_of_hand: Skill,
    pub stealth: Skill,
    pub survival: Skill,
}

/// One skill of a character.
#[derive(Debug, PartialEq, Eq)]
pub struct Skill {
    /// The key of the ability that the skill goes by.
    pub ability: String,
    pub bonuses: SkillBonuses,
}

/// The bonus formulas that apply to one skill.
#[derive(Debug, PartialEq, Eq)]
pub struct SkillBonuses {
    pub check: String,
    pub passives: String,
}

/// The combat attributes of a character.
#[derive(Debug, PartialEq, Eq)]
pub struct Attributes {
    pub ac: ArmorClass,
    pub hp: HitPoints,
}

/// How hard a character is to hit.
#[derive(Debug, PartialEq, Eq)]
pub struct ArmorClass {
    /// How the armor class is arrived at: `flat` or `default`.
    pub calc: String,
    pub flat: Option<u8>,
    pub formula: Option<String>,
}

/// How much harm a character can take.
#[derive(Debug, PartialEq, Eq)]
pub struct HitPoints {
    pub value: i32,
    pub max: Option<i32>,
    pub temp: Option<i32>,
    pub tempmax: Option<i32>,
    pub bonuses: Option<Json>,
    pub formula: Option<String>,
}

/// The six ability scores of a character, by their keys.
#[derive(Debug, PartialEq, Eq)]
pub struct Abilities {
    pub cha: AbilityScore,
    pub con: AbilityScore,
    pub dex: AbilityScore,
    pub int: AbilityScore,
    pub str: AbilityScore,
    pub wis: AbilityScore,
}

/// One ability score of a character.
#[derive(Debug, PartialEq, Eq)]
pub struct AbilityScore {
    pub value: u8,
    pub proficient: u8,
    pub bonuses: AbilityScoreBonus,
    pub save: String,
}

/// The bonus formulas that apply to one ability.
#[derive(Debug, PartialEq, Eq)]
pub struct AbilityScoreBonus {
    pub check: String,
    pub save: String,
}

/// An item that an actor owns.
#[derive(Debug, PartialEq, Eq)]
pub struct DND5EItem {
    /// The item's type: `class`, `weapon`, `spell` and so on.
    pub kind: String,
    /// The levels taken, where the item is a class and says so.
    pub levels: Option<i32>,
}

/// A token of an actor on a scene.
#[derive(Debug, PartialEq, Eq)]
pub struct DND5EToken {}

/// A world of this game system.
pub type DND5EWorld = World<DND5EActor, DND5EItem, DND5EToken>;

} // verus!
